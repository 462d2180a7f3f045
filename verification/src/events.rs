//! Change notifications the canvas emits for off-chain indexing.
//!
//! Events are one-way notifications: operations return them to the caller,
//! which appends them to whatever output log it keeps. They never feed back
//! into control flow.

use vstd::prelude::*;
use crate::identity::Identity;

verus! {

/// One pixel changed: placed with a palette color, or erased with color `0`.
#[derive(Clone, Copy, Debug, PartialEq, Eq, Structural)]
pub struct PixelChanged {
    pub px: u32,
    pub py: u32,
    pub color: u8,
    /// The session authority that signed the write.
    pub painter: Identity,
    /// The root identity the write is attributed to.
    pub main_wallet: Identity,
    pub timestamp: u64,
}

/// A shard record was materialized for a previously empty region.
#[derive(Clone, Copy, Debug, PartialEq, Eq, Structural)]
pub struct ShardInitialized {
    pub shard_x: u16,
    pub shard_y: u16,
    /// The root identity that paid for the shard.
    pub creator: Identity,
    /// The root identity of the session that requested creation.
    pub main_wallet: Identity,
    pub timestamp: u64,
}

} // verus!
