//! Shard records: one fixed-size packed pixel buffer per canvas tile.
//!
//! A record validates every pixel access against its own coordinates, so a
//! caller holding the wrong shard handle can never corrupt a neighbouring
//! tile, and delegates the byte-level mutation to the codec.

use vstd::prelude::*;
use crate::PixelError;
use crate::codec;
use crate::codec::BitDepth;
use crate::identity::Identity;
use crate::lifecycle::TierState;
use crate::mapper;

verus! {

/// One fixed-size tile of the canvas.
pub struct PixelShard {
    /// Shard column, below `SHARDS_PER_DIM`; immutable after creation.
    pub shard_x: u16,
    /// Shard row, below `SHARDS_PER_DIM`; immutable after creation.
    pub shard_y: u16,
    /// The packed pixel buffer; its length is fixed at creation.
    pub pixels: Vec<u8>,
    /// The root identity that paid for the shard.
    pub creator: Identity,
    /// Which tier currently owns this record.
    pub tier_state: TierState,
}

impl PixelShard {
    /// The record's internal invariant: coordinates in range and the buffer
    /// at its fixed packed length.
    pub open spec fn wf(self, depth: BitDepth) -> bool {
        &&& self.shard_x < mapper::SHARDS_PER_DIM
        &&& self.shard_y < mapper::SHARDS_PER_DIM
        &&& self.pixels@.len() == codec::spec_buffer_len(depth, mapper::PIXELS_PER_SHARD as nat)
    }

    /// Whether this record is the tile that holds pixel `(px, py)`.
    pub open spec fn covers(self, px: u32, py: u32) -> bool {
        self.shard_x == mapper::spec_shard_x(px) && self.shard_y == mapper::spec_shard_y(py)
    }

    /// Everything but the pixel buffer is unchanged.
    pub open spec fn same_except_pixels(self, other: PixelShard) -> bool {
        &&& self.shard_x == other.shard_x
        &&& self.shard_y == other.shard_y
        &&& self.creator == other.creator
        &&& self.tier_state == other.tier_state
    }

    /// Everything but the tier tag is unchanged, the pixel data included.
    pub open spec fn same_except_tier(self, other: PixelShard) -> bool {
        &&& self.shard_x == other.shard_x
        &&& self.shard_y == other.shard_y
        &&& self.creator == other.creator
        &&& self.pixels@ == other.pixels@
    }

    /// A just-materialized shard: the given coordinates and creator, owned
    /// by the durable tier, every pixel unset.
    pub open spec fn is_fresh(self, depth: BitDepth, sx: u16, sy: u16, creator: Identity) -> bool {
        &&& self.wf(depth)
        &&& self.shard_x == sx
        &&& self.shard_y == sy
        &&& self.creator == creator
        &&& self.tier_state == TierState::Durable
        &&& forall|i: nat|
            codec::index_in_buffer(depth, self.pixels@.len(), i) ==> codec::pixel_at(
                depth,
                self.pixels@,
                i,
            ) == 0
    }

    /// Materializes the shard at `(shard_x, shard_y)` with every pixel
    /// unset, owned by the durable tier.
    pub fn new(shard_x: u16, shard_y: u16, creator: Identity, depth: BitDepth) -> (s: PixelShard)
        requires
            shard_x < mapper::SHARDS_PER_DIM,
            shard_y < mapper::SHARDS_PER_DIM,
        ensures
            s.is_fresh(depth, shard_x, shard_y, creator),
    {
        let len = codec::buffer_len(depth, mapper::PIXELS_PER_SHARD) as usize;
        let mut pixels: Vec<u8> = Vec::new();
        let mut k: usize = 0;
        while k < len
            invariant
                k <= len,
                pixels@.len() == k,
                forall|j: int| 0 <= j < k ==> pixels@[j] == 0,
            decreases len - k,
        {
            pixels.push(0);
            k = k + 1;
        }
        proof {
            assert(0u8 >> 4u8 == 0 && 0u8 & 0x0fu8 == 0) by (bit_vector);
        }
        PixelShard { shard_x, shard_y, pixels, creator, tier_state: TierState::Durable }
    }

    /// Reads the color stored at global pixel `(px, py)`.
    ///
    /// Pure lookup, open to anyone: fails with `InvalidPixelCoord` exactly
    /// when the pixel is off the canvas, and with `ShardMismatch` exactly
    /// when this record is not the tile holding it.
    pub fn read_pixel(&self, depth: BitDepth, px: u32, py: u32) -> (r: Result<u8, PixelError>)
        requires
            self.wf(depth),
        ensures
            r is Ok <==> mapper::pixel_in_bounds(px, py) && self.covers(px, py),
            r is Ok ==> r == Ok::<_, PixelError>(
                codec::pixel_at(depth, self.pixels@, mapper::spec_local_index(px, py) as nat),
            ),
            !mapper::pixel_in_bounds(px, py) ==> r == Err::<u8, _>(PixelError::InvalidPixelCoord),
            mapper::pixel_in_bounds(px, py) && !self.covers(px, py) ==> r == Err::<u8, _>(
                PixelError::ShardMismatch,
            ),
    {
        let (sx, sy) = match mapper::shard_of(px, py) {
            Ok(c) => c,
            Err(e) => { return Err(e) },
        };
        if sx != self.shard_x || sy != self.shard_y {
            return Err(PixelError::ShardMismatch);
        }
        let idx = mapper::local_index(px, py);
        Ok(codec::get(&self.pixels, depth, idx))
    }

    /// Places `color` at global pixel `(px, py)`.
    ///
    /// Validates, in order: the pixel lies on the canvas
    /// (`InvalidPixelCoord`), this record is its tile (`ShardMismatch`), and
    /// the color is paintable (`InvalidColor`). Only then is exactly that
    /// pixel's nibble or byte rewritten. On any error the record is
    /// unchanged.
    pub fn write_pixel(&mut self, depth: BitDepth, px: u32, py: u32, color: u8) -> (r: Result<
        (),
        PixelError,
    >)
        requires
            old(self).wf(depth),
        ensures
            final(self).wf(depth),
            old(self).same_except_pixels(*final(self)),
            r is Ok <==> mapper::pixel_in_bounds(px, py) && old(self).covers(px, py)
                && codec::valid_color(depth, color),
            r is Ok ==> final(self).pixels@ == codec::with_pixel(
                depth,
                old(self).pixels@,
                mapper::spec_local_index(px, py) as nat,
                color,
            ),
            r is Err ==> final(self).pixels@ == old(self).pixels@,
            !mapper::pixel_in_bounds(px, py) ==> r == Err::<(), _>(PixelError::InvalidPixelCoord),
            mapper::pixel_in_bounds(px, py) && !old(self).covers(px, py) ==> r == Err::<(), _>(
                PixelError::ShardMismatch,
            ),
            mapper::pixel_in_bounds(px, py) && old(self).covers(px, py) && !codec::valid_color(
                depth,
                color,
            ) ==> r == Err::<(), _>(PixelError::InvalidColor),
    {
        let (sx, sy) = match mapper::shard_of(px, py) {
            Ok(c) => c,
            Err(e) => { return Err(e) },
        };
        if sx != self.shard_x || sy != self.shard_y {
            return Err(PixelError::ShardMismatch);
        }
        let idx = mapper::local_index(px, py);
        codec::set(&mut self.pixels, depth, idx, color)
    }

    /// Erases global pixel `(px, py)`: its stored value becomes `0`.
    ///
    /// Same validation as a write, but no color to reject and no
    /// authorization needed; erasing an already-unset pixel succeeds and
    /// stores `0` again.
    pub fn erase_pixel(&mut self, depth: BitDepth, px: u32, py: u32) -> (r: Result<
        (),
        PixelError,
    >)
        requires
            old(self).wf(depth),
        ensures
            final(self).wf(depth),
            old(self).same_except_pixels(*final(self)),
            r is Ok <==> mapper::pixel_in_bounds(px, py) && old(self).covers(px, py),
            r is Ok ==> final(self).pixels@ == codec::with_pixel(
                depth,
                old(self).pixels@,
                mapper::spec_local_index(px, py) as nat,
                0,
            ),
            r is Err ==> final(self).pixels@ == old(self).pixels@,
            !mapper::pixel_in_bounds(px, py) ==> r == Err::<(), _>(PixelError::InvalidPixelCoord),
            mapper::pixel_in_bounds(px, py) && !old(self).covers(px, py) ==> r == Err::<(), _>(
                PixelError::ShardMismatch,
            ),
    {
        let (sx, sy) = match mapper::shard_of(px, py) {
            Ok(c) => c,
            Err(e) => { return Err(e) },
        };
        if sx != self.shard_x || sy != self.shard_y {
            return Err(PixelError::ShardMismatch);
        }
        let idx = mapper::local_index(px, py);
        codec::erase(&mut self.pixels, depth, idx);
        Ok(())
    }
}

} // verus!
