//! A massively shardable, collaboratively writable pixel canvas.
//!
//! The canvas is a square bitmap of `CANVAS_RES` pixels per axis, split into
//! fixed-size square shards that are materialized on demand. Writes are
//! attributed to delegated sessions: a root identity binds a session
//! authority once, and the session authority signs every later write. A
//! fixed-window burst limiter gates writes by sessions that did not create
//! the shard, and every shard or session record carries a tier tag that
//! tracks whether the durable store or a fast execution tier currently owns
//! it.

use vstd::prelude::*;

pub mod canvas;
pub mod codec;
pub mod events;
pub mod identity;
pub mod lifecycle;
pub mod mapper;
pub mod session;
pub mod shard;

verus! {

/// Every error an operation of this crate reports.
///
/// Validation errors (`InvalidShardCoord`, `InvalidPixelCoord`,
/// `ShardMismatch`, `InvalidColor`) are caller errors; `InvalidAuth` is an
/// authorization failure; `Cooldown` is a rate-limit rejection the caller
/// recovers from by waiting; the tier errors (`WrongTier`,
/// `AlreadyDelegated`, `NotDelegated`) are protocol-sequencing errors.
#[derive(Clone, Copy, Debug, PartialEq, Eq, Structural)]
pub enum PixelError {
    /// Shard coordinates out of range, or no shard record at them.
    InvalidShardCoord,
    /// Pixel coordinates outside the canvas.
    InvalidPixelCoord,
    /// The supplied shard handle does not cover the pixel being written.
    ShardMismatch,
    /// Color `0` passed to a place operation, or color above the palette.
    InvalidColor,
    /// Missing or malformed delegation proof, or an unauthorized signer.
    InvalidAuth,
    /// The burst limit is spent and the window has not elapsed.
    Cooldown,
    /// A record for this address already exists.
    AlreadyExists,
    /// A write arrived at a tier that does not own the resource.
    WrongTier,
    /// Delegation requested while the resource is already delegated.
    AlreadyDelegated,
    /// Commit requested while the resource is not delegated.
    NotDelegated,
}

} // verus!
