//! Session records and the cooldown limiter.
//!
//! One session record exists per root identity. It names the session
//! authority that signs writes on the root identity's behalf and carries the
//! burst counter and window timestamp of the rate limiter. The limiter is a
//! fixed-window burst gate: a non-creator session may make up to
//! `COOLDOWN_LIMIT` writes back to back, then must wait out the full window
//! before its counter resets.

use vstd::prelude::*;
use crate::PixelError;
use crate::identity::Identity;
use crate::lifecycle::TierState;

verus! {

/// Writes a non-creator session may burst before the window gates it.
pub const COOLDOWN_LIMIT: u8 = 50;

/// Seconds that must elapse, once the burst is spent, before the counter
/// resets.
pub const COOLDOWN_PERIOD: u64 = 30;

/// A delegated write authority bound to one root identity.
#[derive(Clone, Copy, Debug, PartialEq, Eq, Structural)]
pub struct SessionAccount {
    /// The root identity ultimately responsible for this session's writes.
    pub main_address: Identity,
    /// The credential that signs writes attributed to this session.
    pub authority: Identity,
    /// Writes since the counter last reset, `0..=COOLDOWN_LIMIT`.
    pub cooldown_counter: u8,
    /// The time the counter last reached `COOLDOWN_LIMIT`.
    pub last_place_timestamp: u64,
    /// Which tier currently owns this record.
    pub tier_state: TierState,
}

impl SessionAccount {
    /// The record's internal invariant: the burst counter never passes the
    /// limit.
    pub open spec fn wf(self) -> bool {
        self.cooldown_counter <= COOLDOWN_LIMIT
    }

    /// A freshly bound session: counters zeroed, owned by the durable tier.
    pub open spec fn spec_new(main_address: Identity, authority: Identity) -> SessionAccount {
        SessionAccount {
            main_address,
            authority,
            cooldown_counter: 0,
            last_place_timestamp: 0,
            tier_state: TierState::Durable,
        }
    }

    /// Creates a freshly bound session record.
    pub fn new(main_address: Identity, authority: Identity) -> (s: SessionAccount)
        ensures
            s == SessionAccount::spec_new(main_address, authority),
            s.wf(),
    {
        SessionAccount {
            main_address,
            authority,
            cooldown_counter: 0,
            last_place_timestamp: 0,
            tier_state: TierState::Durable,
        }
    }

    /// Authorizes a write attempt: only the session authority may sign.
    pub fn authorize_write(&self, signer: &Identity) -> (r: Result<(), PixelError>)
        ensures
            r is Ok <==> *signer == self.authority,
            r is Err ==> r == Err::<(), _>(PixelError::InvalidAuth),
    {
        if *signer == self.authority {
            Ok(())
        } else {
            Err(PixelError::InvalidAuth)
        }
    }

    /// Records one rate-limited write at time `now`.
    ///
    /// Allowed exactly when `cooldown_allows` holds of the old counters; the
    /// counters then advance to the `cooldown_next_*` values. A rejected
    /// attempt changes nothing.
    pub fn note_write(&mut self, now: u64) -> (r: Result<(), PixelError>)
        requires
            old(self).wf(),
        ensures
            final(self).wf(),
            r is Ok <==> cooldown_allows(
                old(self).cooldown_counter,
                old(self).last_place_timestamp,
                now,
            ),
            r is Ok ==> *final(self) == (SessionAccount {
                cooldown_counter: cooldown_next_counter(old(self).cooldown_counter),
                last_place_timestamp: cooldown_next_timestamp(
                    old(self).cooldown_counter,
                    old(self).last_place_timestamp,
                    now,
                ),
                ..*old(self)
            }),
            r is Err ==> *final(self) == *old(self) && r == Err::<(), _>(PixelError::Cooldown),
    {
        if self.cooldown_counter >= COOLDOWN_LIMIT {
            if now.saturating_sub(self.last_place_timestamp) >= COOLDOWN_PERIOD {
                self.cooldown_counter = 0;
            } else {
                return Err(PixelError::Cooldown);
            }
        }
        self.cooldown_counter = self.cooldown_counter + 1;
        if self.cooldown_counter >= COOLDOWN_LIMIT {
            self.last_place_timestamp = now;
        }
        Ok(())
    }
}

/// Whether a non-creator write is allowed: either budget is left in the
/// burst, or the full window has elapsed since the burst was spent.
pub open spec fn cooldown_allows(counter: u8, last: u64, now: u64) -> bool {
    counter < COOLDOWN_LIMIT || sat_sub(now, last) >= COOLDOWN_PERIOD
}

/// The burst counter after an allowed write: a spent burst restarts at `1`,
/// otherwise the counter advances by one.
pub open spec fn cooldown_next_counter(counter: u8) -> u8 {
    if counter >= COOLDOWN_LIMIT {
        1
    } else {
        (counter + 1) as u8
    }
}

/// The window timestamp after an allowed write: set to `now` exactly when
/// this write spends the burst.
pub open spec fn cooldown_next_timestamp(counter: u8, last: u64, now: u64) -> u64 {
    if cooldown_next_counter(counter) >= COOLDOWN_LIMIT {
        now
    } else {
        last
    }
}

/// Subtraction on timestamps, clamped at zero for a clock that moved
/// backwards.
pub open spec fn sat_sub(a: u64, b: u64) -> u64 {
    if a >= b {
        (a - b) as u64
    } else {
        0
    }
}

/// The limiter never lets the counter pass the limit: an allowed write from
/// any well-formed counter lands at or below `COOLDOWN_LIMIT`.
pub proof fn lemma_cooldown_counter_bounded(counter: u8)
    requires
        counter <= COOLDOWN_LIMIT,
    ensures
        cooldown_next_counter(counter) <= COOLDOWN_LIMIT,
        cooldown_next_counter(counter) >= 1,
{
}

/// A spent burst stays gated for the whole window: once the counter is at
/// the limit, a write is allowed again exactly when the window has elapsed,
/// and the allowed write restarts the counter at `1`.
pub proof fn lemma_cooldown_window(last: u64, now: u64)
    ensures
        cooldown_allows(COOLDOWN_LIMIT, last, now) <==> sat_sub(now, last) >= COOLDOWN_PERIOD,
        cooldown_allows(COOLDOWN_LIMIT, last, now) ==> cooldown_next_counter(COOLDOWN_LIMIT) == 1,
{
}

} // verus!
