//! The object-ID codec of GPU picking: a visible face of a block near the
//! camera is drawn with a packed 22-bit identifier, and the identifier
//! read back from the centre of the screen names the block again.
//!
//! Layout, from the least significant bit: bit 0 is set for every drawn
//! face (0 means nothing was hit); bits 1-3 hold the face; bits 4-7, 8-11
//! and 12-15 the cell's z, y and x; bits 16-17, 18-19 and 20-21 the chunk
//! offset from the camera's chunk on z, y and x, plus one.

use vstd::prelude::*;
use crate::game::Selection;
use crate::types::{BlockPos, ChunkPos, Face};

verus! {

/// Whether the chunk at offset `o` from the camera's chunk can be encoded:
/// each component is -1, 0 or 1.
pub open spec fn pickable(o: ChunkPos) -> bool {
    -1 <= o.x <= 1 && -1 <= o.y <= 1 && -1 <= o.z <= 1
}

/// The identifier drawn for face `f` of cell `p` in the chunk at offset `o`.
pub open spec fn encode_spec(o: ChunkPos, p: BlockPos, f: Face) -> u32 {
    ((o.x + 1) as u32) << 20u32 | ((o.y + 1) as u32) << 18u32 | ((o.z + 1) as u32) << 16u32 | (
    p.x as u32) << 12u32 | (p.y as u32) << 8u32 | (p.z as u32) << 4u32 | (f.index_spec() as u32)
        << 1u32 | 1u32
}

/// Whether `val` is the identifier of a drawn face: the presence bit is set
/// and the face field names one of the six faces.
pub open spec fn is_hit(val: u32) -> bool {
    val & 1 == 1 && (val >> 1u32) & 7 < 6
}

/// The chunk offset, cell and face that an identifier names.
pub open spec fn decode_spec(val: u32) -> Selection {
    (
        ChunkPos {
            x: (((val >> 20u32) & 3) - 1) as i32,
            y: (((val >> 18u32) & 3) - 1) as i32,
            z: (((val >> 16u32) & 3) - 1) as i32,
        },
        BlockPos {
            x: ((val >> 12u32) & 0xf) as u8,
            y: ((val >> 8u32) & 0xf) as u8,
            z: ((val >> 4u32) & 0xf) as u8,
        },
        Face::from_index_spec((val >> 1u32) & 7).unwrap(),
    )
}

/// The identifier drawn for face `face` of cell `pos` in the chunk at
/// offset `offset` from the camera's chunk, or `None` where the offset
/// cannot be encoded and the face is not drawn to the picking target.
pub fn encode(offset: ChunkPos, pos: BlockPos, face: Face) -> (r: Option<u32>)
    requires
        pos.in_chunk(),
    ensures
        r == if pickable(offset) {
            Some(encode_spec(offset, pos, face))
        } else {
            None
        },
{
    if offset.x < -1 || offset.x > 1 || offset.y < -1 || offset.y > 1 || offset.z < -1 || offset.z
        > 1 {
        return None;
    }
    let a = (offset.x + 1) as u32;
    let b = (offset.y + 1) as u32;
    let c = (offset.z + 1) as u32;
    Some(
        a << 20u32 | b << 18u32 | c << 16u32 | (pos.x as u32) << 12u32 | (pos.y as u32) << 8u32 | (
        pos.z as u32) << 4u32 | (face.index() as u32) << 1u32 | 1u32,
    )
}

/// The chunk offset, cell and face named by the identifier `val`.
pub fn decode(val: u32) -> (r: Selection)
    requires
        is_hit(val),
    ensures
        r == decode_spec(val),
        r.1.in_chunk(),
{
    let x = ((val >> 12u32) & 0xf) as u8;
    let y = ((val >> 8u32) & 0xf) as u8;
    let z = ((val >> 4u32) & 0xf) as u8;
    assert((val >> 12u32) & 0xf < 16 && (val >> 8u32) & 0xf < 16 && (val >> 4u32) & 0xf < 16
        && (val >> 20u32) & 3 < 4 && (val >> 18u32) & 3 < 4 && (val >> 16u32) & 3 < 4)
        by (bit_vector);
    let face = match Face::from_index((val >> 1u32) & 7) {
        Some(f) => f,
        None => Face::Top,
    };
    (
        ChunkPos::new(
            ((val >> 20u32) & 3) as i32 - 1,
            ((val >> 18u32) & 3) as i32 - 1,
            ((val >> 16u32) & 3) as i32 - 1,
        ),
        BlockPos::new(x, y, z),
        face,
    )
}

/// What a pixel of the picking target names: `None` where no face was drawn
/// there, else the decoded chunk offset, cell and face.
pub fn decode_pixel(val: u32) -> (r: Option<Selection>)
    ensures
        r == if is_hit(val) {
            Some(decode_spec(val))
        } else {
            None
        },
        r matches Some(s) ==> s.1.in_chunk(),
{
    if val & 1 == 1 && (val >> 1u32) & 7 < 6 {
        Some(decode(val))
    } else {
        None
    }
}

/// Decoding the identifier of a face gives back its chunk offset, cell and
/// face, for every offset that can be encoded.
pub proof fn lemma_decode_encode(offset: ChunkPos, pos: BlockPos, face: Face)
    requires
        pickable(offset),
        pos.in_chunk(),
    ensures
        is_hit(encode_spec(offset, pos, face)),
        decode_spec(encode_spec(offset, pos, face)) == (offset, pos, face),
{
    let a = (offset.x + 1) as u32;
    let b = (offset.y + 1) as u32;
    let c = (offset.z + 1) as u32;
    let d = pos.x as u32;
    let e = pos.y as u32;
    let g = pos.z as u32;
    let h = face.index_spec() as u32;
    let v = encode_spec(offset, pos, face);
    assert(v == a << 20u32 | b << 18u32 | c << 16u32 | d << 12u32 | e << 8u32 | g << 4u32 | h
        << 1u32 | 1u32);
    assert({
        &&& (v >> 20u32) & 3 == a
        &&& (v >> 18u32) & 3 == b
        &&& (v >> 16u32) & 3 == c
        &&& (v >> 12u32) & 0xf == d
        &&& (v >> 8u32) & 0xf == e
        &&& (v >> 4u32) & 0xf == g
        &&& (v >> 1u32) & 7 == h
        &&& v & 1 == 1
    }) by (bit_vector)
        requires
            v == a << 20u32 | b << 18u32 | c << 16u32 | d << 12u32 | e << 8u32 | g << 4u32 | h
                << 1u32 | 1u32,
            a < 3,
            b < 3,
            c < 3,
            d < 16,
            e < 16,
            g < 16,
            h < 6,
    ;
}

/// The rule that picks the pixel to read back: the pixel left of and
/// below the middle of a target of `width` by `height` pixels, as
/// `(left, bottom)`, where the target is large enough to hold it.
pub open spec fn center_pixel_spec(width: u32, height: u32) -> Option<(u32, u32)> {
    let left = (if width / 2 > 1 { width / 2 } else { 1 }) - 1;
    let bottom = height - ((if height / 2 > 1 { height / 2 } else { 1 }) - 1);
    if left < width && bottom < height {
        Some((left as u32, bottom as u32))
    } else {
        None
    }
}

/// The pixel of the picking target to read back, or `None` where the
/// target is too small to read from.
pub fn center_pixel(width: u32, height: u32) -> (r: Option<(u32, u32)>)
    ensures
        r == center_pixel_spec(width, height),
{
    let half_width: u32 = if width / 2 > 1 { width / 2 } else { 1 };
    let half_height: u32 = if height / 2 > 1 { height / 2 } else { 1 };
    let left = half_width - 1;
    let bottom = height - (half_height - 1);
    if left < width && bottom < height {
        Some((left, bottom))
    } else {
        None
    }
}

/// The selection that a hit, relative to the camera's chunk `center`,
/// stands for in absolute chunk coordinates.
pub open spec fn to_absolute_spec(center: ChunkPos, hit: Option<Selection>) -> Option<Selection> {
    match hit {
        None => None,
        Some((o, p, f)) => {
            let x = center.x + o.x;
            let y = center.y + o.y;
            let z = center.z + o.z;
            if i32::MIN <= x <= i32::MAX && i32::MIN <= y <= i32::MAX && i32::MIN <= z
                <= i32::MAX {
                Some((ChunkPos { x: x as i32, y: y as i32, z: z as i32 }, p, f))
            } else {
                None
            }
        },
    }
}

/// Turns a hit relative to the camera's chunk into a selection; `None`
/// where nothing was hit or the chunk lies outside the coordinate range.
pub fn to_absolute(center: ChunkPos, hit: Option<Selection>) -> (r: Option<Selection>)
    ensures
        r == to_absolute_spec(center, hit),
{
    match hit {
        None => None,
        Some((o, p, f)) => {
            match (center.x.checked_add(o.x), center.y.checked_add(o.y), center.z.checked_add(o.z)) {
                (Some(x), Some(y), Some(z)) => Some((ChunkPos::new(x, y, z), p, f)),
                _ => None,
            }
        },
    }
}

} // verus!
