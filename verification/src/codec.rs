//! Pixel codec: encodes a palette color into a packed byte buffer at a given
//! local index, for a 4-bit or 8-bit depth.
//!
//! Color `0` is reserved for "unset/transparent"; colors `1..=2^k - 1` are
//! paintable. In 4-bit mode two pixels share a byte: an even local index is
//! the high nibble, an odd one the low nibble, and writing one nibble leaves
//! the other untouched.

use vstd::prelude::*;
use crate::PixelError;

verus! {

/// Bits stored per pixel.
#[derive(Clone, Copy, Debug, PartialEq, Eq, Structural)]
pub enum BitDepth {
    /// Two pixels per byte, palette `1..=15`.
    Four,
    /// One byte per pixel, palette `1..=255`.
    Eight,
}

/// The largest paintable color at this depth.
pub open spec fn spec_max_color(depth: BitDepth) -> u8 {
    match depth {
        BitDepth::Four => 15,
        BitDepth::Eight => 255,
    }
}

/// Whether `color` may be placed: `0` is reserved for erased pixels.
pub open spec fn valid_color(depth: BitDepth, color: u8) -> bool {
    1 <= color <= spec_max_color(depth)
}

/// Bytes needed to pack `pixels` pixels at this depth.
pub open spec fn spec_buffer_len(depth: BitDepth, pixels: nat) -> nat {
    match depth {
        BitDepth::Four => (pixels + 1) / 2,
        BitDepth::Eight => pixels,
    }
}

/// Whether `idx` addresses a pixel of a buffer of `len` bytes.
pub open spec fn index_in_buffer(depth: BitDepth, len: nat, idx: nat) -> bool {
    match depth {
        BitDepth::Four => idx / 2 < len,
        BitDepth::Eight => idx < len,
    }
}

/// The stored value of pixel `idx` in a packed buffer.
pub open spec fn pixel_at(depth: BitDepth, buf: Seq<u8>, idx: nat) -> u8
    recommends
        index_in_buffer(depth, buf.len(), idx),
{
    match depth {
        BitDepth::Four => if idx % 2 == 0 {
            buf[idx as int / 2] >> 4u8
        } else {
            buf[idx as int / 2] & 0x0fu8
        },
        BitDepth::Eight => buf[idx as int],
    }
}

/// The byte that holds pixel `idx` after that pixel is set to `color`,
/// given `b`, the byte holding it before.
pub open spec fn byte_with_pixel(depth: BitDepth, b: u8, idx: nat, color: u8) -> u8 {
    match depth {
        BitDepth::Four => if idx % 2 == 0 {
            (b & 0x0fu8) | (color << 4u8)
        } else {
            (b & 0xf0u8) | color
        },
        BitDepth::Eight => color,
    }
}

/// The whole buffer after pixel `idx` is set to `color`.
pub open spec fn with_pixel(depth: BitDepth, buf: Seq<u8>, idx: nat, color: u8) -> Seq<u8>
    recommends
        index_in_buffer(depth, buf.len(), idx),
{
    match depth {
        BitDepth::Four => buf.update(
            idx as int / 2,
            byte_with_pixel(depth, buf[idx as int / 2], idx, color),
        ),
        BitDepth::Eight => buf.update(idx as int, color),
    }
}

/// The largest paintable color at this depth.
pub fn max_color(depth: BitDepth) -> (c: u8)
    ensures
        c == spec_max_color(depth),
{
    match depth {
        BitDepth::Four => 15,
        BitDepth::Eight => 255,
    }
}

/// Bytes needed to pack `pixels` pixels at this depth.
pub fn buffer_len(depth: BitDepth, pixels: u32) -> (len: u32)
    ensures
        len == spec_buffer_len(depth, pixels as nat),
{
    match depth {
        BitDepth::Four => pixels / 2 + pixels % 2,
        BitDepth::Eight => pixels,
    }
}

/// Reads the stored value of pixel `idx`: the selected nibble in 4-bit mode,
/// the whole byte in 8-bit mode.
pub fn get(buf: &Vec<u8>, depth: BitDepth, idx: u32) -> (color: u8)
    requires
        index_in_buffer(depth, buf@.len(), idx as nat),
    ensures
        color == pixel_at(depth, buf@, idx as nat),
        color <= spec_max_color(depth),
{
    match depth {
        BitDepth::Four => {
            let b = buf[(idx / 2) as usize];
            let color = if idx % 2 == 0 {
                b >> 4u8
            } else {
                b & 0x0fu8
            };
            proof {
                assert(b >> 4u8 <= 15 && (b & 0x0fu8) <= 15) by (bit_vector);
            }
            color
        },
        BitDepth::Eight => buf[idx as usize],
    }
}

/// Places `color` at pixel `idx`, touching nothing else.
///
/// Fails with `InvalidColor`, leaving the buffer unchanged, exactly when
/// `color` is `0` (reserved for erased pixels) or above the palette of this
/// depth.
pub fn set(buf: &mut Vec<u8>, depth: BitDepth, idx: u32, color: u8) -> (r: Result<(), PixelError>)
    requires
        index_in_buffer(depth, old(buf)@.len(), idx as nat),
    ensures
        r is Ok <==> valid_color(depth, color),
        r is Ok ==> final(buf)@ == with_pixel(depth, old(buf)@, idx as nat, color),
        r is Err ==> final(buf)@ == old(buf)@ && r == Err::<(), _>(PixelError::InvalidColor),
{
    let max = max_color(depth);
    if color == 0 || color > max {
        return Err(PixelError::InvalidColor);
    }
    store(buf, depth, idx, color);
    Ok(())
}

/// Erases pixel `idx`: sets its stored value to `0`, touching nothing else.
pub fn erase(buf: &mut Vec<u8>, depth: BitDepth, idx: u32)
    requires
        index_in_buffer(depth, old(buf)@.len(), idx as nat),
    ensures
        final(buf)@ == with_pixel(depth, old(buf)@, idx as nat, 0),
        pixel_at(depth, final(buf)@, idx as nat) == 0,
{
    store(buf, depth, idx, 0);
    proof {
        lemma_pixel_round_trip(depth, old(buf)@, idx as nat, 0);
    }
}

/// Writes the stored value of pixel `idx` without validating the color.
fn store(buf: &mut Vec<u8>, depth: BitDepth, idx: u32, color: u8)
    requires
        index_in_buffer(depth, old(buf)@.len(), idx as nat),
        color <= spec_max_color(depth),
    ensures
        final(buf)@ == with_pixel(depth, old(buf)@, idx as nat, color),
{
    match depth {
        BitDepth::Four => {
            let at = (idx / 2) as usize;
            let b = buf[at];
            let nb = if idx % 2 == 0 {
                (b & 0x0fu8) | (color << 4u8)
            } else {
                (b & 0xf0u8) | color
            };
            buf[at] = nb;
        },
        BitDepth::Eight => {
            buf[idx as usize] = color;
        },
    }
}

/// Codec round trip: after pixel `idx` is set to a palette color (or erased
/// with `0`), reading `idx` yields that value, and every other pixel of the
/// buffer — in particular the other nibble of a shared byte — is unchanged.
pub proof fn lemma_pixel_round_trip(depth: BitDepth, buf: Seq<u8>, idx: nat, color: u8)
    requires
        index_in_buffer(depth, buf.len(), idx),
        color == 0 || valid_color(depth, color),
    ensures
        pixel_at(depth, with_pixel(depth, buf, idx, color), idx) == color,
        with_pixel(depth, buf, idx, color).len() == buf.len(),
        forall|j: nat|
            index_in_buffer(depth, buf.len(), j) && j != idx
                ==> pixel_at(depth, with_pixel(depth, buf, idx, color), j) == pixel_at(
                depth,
                buf,
                j,
            ),
{
    let post = with_pixel(depth, buf, idx, color);
    match depth {
        BitDepth::Four => {
            let b = buf[idx as int / 2];
            assert(color <= 15 ==> ((b & 0x0fu8) | (color << 4u8)) >> 4u8 == color)
                by (bit_vector);
            assert(color <= 15 ==> ((b & 0xf0u8) | color) & 0x0fu8 == color) by (bit_vector);
            assert(((b & 0x0fu8) | (color << 4u8)) & 0x0fu8 == b & 0x0fu8) by (bit_vector);
            assert(color <= 15 ==> ((b & 0xf0u8) | color) >> 4u8 == b >> 4u8) by (bit_vector);
            assert forall|j: nat|
                index_in_buffer(depth, buf.len(), j) && j != idx implies pixel_at(
                depth,
                post,
                j,
            ) == pixel_at(depth, buf, j) by {
                if j / 2 == idx / 2 {
                    assert(j == 2 * (j / 2) + j % 2);
                    assert(idx == 2 * (idx / 2) + idx % 2);
                }
            }
        },
        BitDepth::Eight => {},
    }
}

/// Erase is idempotent: erasing a pixel whose stored value is already `0`
/// leaves the whole buffer unchanged.
pub proof fn lemma_erase_idempotent(depth: BitDepth, buf: Seq<u8>, idx: nat)
    requires
        index_in_buffer(depth, buf.len(), idx),
        pixel_at(depth, buf, idx) == 0,
    ensures
        with_pixel(depth, buf, idx, 0) == buf,
{
    match depth {
        BitDepth::Four => {
            let b = buf[idx as int / 2];
            assert(b >> 4u8 == 0 ==> (b & 0x0fu8) | (0u8 << 4u8) == b) by (bit_vector);
            assert(b & 0x0fu8 == 0 ==> (b & 0xf0u8) | 0u8 == b) by (bit_vector);
            assert(with_pixel(depth, buf, idx, 0) =~= buf);
        },
        BitDepth::Eight => {
            assert(with_pixel(depth, buf, idx, 0) =~= buf);
        },
    }
}

} // verus!
