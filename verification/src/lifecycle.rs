//! Lifecycle controller: the tier protocol every shard and session record
//! follows.
//!
//! A record is created in the durable tier, may be delegated to the fast
//! execution tier, and is later committed back. Delegation and commit are
//! capability transfers: neither transition mutates the record's data. A
//! write must arrive at the tier that currently owns the record.

use vstd::prelude::*;
use crate::PixelError;

verus! {

/// Which tier currently owns a record.
#[derive(Clone, Copy, Debug, PartialEq, Eq, Structural)]
pub enum TierState {
    /// The durable, serializing store of record owns it.
    Durable,
    /// Write authority is handed to the fast execution tier.
    Delegated,
}

/// The tier protocol's delegation step: only a durable record can be handed
/// to the fast tier.
pub open spec fn spec_delegate(t: TierState) -> Result<TierState, PixelError> {
    match t {
        TierState::Durable => Ok(TierState::Delegated),
        TierState::Delegated => Err(PixelError::AlreadyDelegated),
    }
}

/// The tier protocol's commit step: only a delegated record can be
/// reconciled back into the durable store.
pub open spec fn spec_commit(t: TierState) -> Result<TierState, PixelError> {
    match t {
        TierState::Delegated => Ok(TierState::Durable),
        TierState::Durable => Err(PixelError::NotDelegated),
    }
}

/// Hands write authority over a record to the fast execution tier.
///
/// Fails with `AlreadyDelegated`, changing nothing, exactly when the record
/// is already delegated.
pub fn delegate(t: TierState) -> (r: Result<TierState, PixelError>)
    ensures
        r == spec_delegate(t),
{
    match t {
        TierState::Durable => Ok(TierState::Delegated),
        TierState::Delegated => Err(PixelError::AlreadyDelegated),
    }
}

/// Reconciles a delegated record back into the durable store.
///
/// Fails with `NotDelegated`, changing nothing, exactly when the record is
/// not currently delegated.
pub fn commit(t: TierState) -> (r: Result<TierState, PixelError>)
    ensures
        r == spec_commit(t),
{
    match t {
        TierState::Delegated => Ok(TierState::Durable),
        TierState::Durable => Err(PixelError::NotDelegated),
    }
}

/// Gates a write by the tier it arrives at: a write is accepted exactly when
/// the executing tier owns the record.
pub fn check_write_tier(record: TierState, executing: TierState) -> (r: Result<(), PixelError>)
    ensures
        r is Ok <==> record == executing,
        r is Err ==> r == Err::<(), _>(PixelError::WrongTier),
{
    if record == executing {
        Ok(())
    } else {
        Err(PixelError::WrongTier)
    }
}

/// The tier protocol round trip: a durable record can be delegated, a
/// delegated record can be committed, and the two steps in order return the
/// record to the durable — writable via the durable ledger — state.
pub proof fn lemma_delegate_commit_round_trip()
    ensures
        spec_delegate(TierState::Durable) == Ok::<_, PixelError>(TierState::Delegated),
        spec_commit(TierState::Delegated) == Ok::<_, PixelError>(TierState::Durable),
        spec_commit(TierState::Durable) == Err::<TierState, _>(PixelError::NotDelegated),
        spec_delegate(TierState::Delegated) == Err::<TierState, _>(PixelError::AlreadyDelegated),
{
}

} // verus!
