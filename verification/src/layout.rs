//! Byte offsets, sizes, and little-endian field accessors for the Link
//! record, together with the verified primitive writes they are proved
//! against.
//!
//! The record layout is an external wire contract: field order, widths and
//! the total size must match the published Link specification exactly.

use vstd::bytes::{spec_u16_from_le_bytes, spec_u32_from_le_bytes};
use vstd::prelude::*;

verus! {

/// Byte offset of the protocol version field (32-bit unsigned).
pub const OFF_VERSION: usize = 0;

/// Byte offset of the tick counter field (32-bit unsigned).
pub const OFF_TICK: usize = 4;

/// Byte offset of the avatar position vector (3 x 32-bit).
pub const OFF_AVATAR_POSITION: usize = 8;

/// Byte offset of the avatar front vector.
pub const OFF_AVATAR_FRONT: usize = 20;

/// Byte offset of the avatar top vector.
pub const OFF_AVATAR_TOP: usize = 32;

/// Byte offset of the application name field (256 UTF-16 units).
pub const OFF_NAME: usize = 44;

/// Byte offset of the camera position vector.
pub const OFF_CAMERA_POSITION: usize = 556;

/// Byte offset of the camera front vector.
pub const OFF_CAMERA_FRONT: usize = 568;

/// Byte offset of the camera top vector.
pub const OFF_CAMERA_TOP: usize = 580;

/// Byte offset of the identity (player name) field (256 UTF-16 units).
pub const OFF_IDENTITY: usize = 592;

/// Byte offset of the context length field (32-bit unsigned).
pub const OFF_CONTEXT_LEN: usize = 1104;

/// Byte offset of the context blob (256 raw bytes).
pub const OFF_CONTEXT: usize = 1108;

/// Byte offset of the description field (2048 UTF-16 units).
pub const OFF_DESCRIPTION: usize = 1364;

/// Number of UTF-16 units in the name and identity fields.
pub const NAME_UNITS: usize = 256;

/// Number of UTF-16 units in the description field.
pub const DESCRIPTION_UNITS: usize = 2048;

/// Number of bytes in the context blob.
pub const CONTEXT_BYTES: usize = 256;

/// The record layout is exhaustive: each field begins where the previous
/// one ends, and the last one ends at the record's total size. Together
/// with the field widths above this pins the wire format byte for byte.
pub proof fn lemma_layout_tiles()
    ensures
        OFF_TICK == OFF_VERSION + 4,
        OFF_AVATAR_POSITION == OFF_TICK + 4,
        OFF_AVATAR_FRONT == OFF_AVATAR_POSITION + 12,
        OFF_AVATAR_TOP == OFF_AVATAR_FRONT + 12,
        OFF_NAME == OFF_AVATAR_TOP + 12,
        OFF_CAMERA_POSITION == OFF_NAME + 2 * NAME_UNITS,
        OFF_CAMERA_FRONT == OFF_CAMERA_POSITION + 12,
        OFF_CAMERA_TOP == OFF_CAMERA_FRONT + 12,
        OFF_IDENTITY == OFF_CAMERA_TOP + 12,
        OFF_CONTEXT_LEN == OFF_IDENTITY + 2 * NAME_UNITS,
        OFF_CONTEXT == OFF_CONTEXT_LEN + 4,
        OFF_DESCRIPTION == OFF_CONTEXT + CONTEXT_BYTES,
        crate::RECORD_SIZE == OFF_DESCRIPTION + 2 * DESCRIPTION_UNITS,
{
}

/// The 32-bit little-endian value stored at byte offset `off`.
pub open spec fn le32_at(r: Seq<u8>, off: int) -> u32 {
    spec_u32_from_le_bytes(r.subrange(off, off + 4))
}

/// The 16-bit little-endian value stored at byte offset `off`.
pub open spec fn le16_at(r: Seq<u8>, off: int) -> u16 {
    spec_u16_from_le_bytes(r.subrange(off, off + 2))
}

/// Store `v` at byte offset `off` in little-endian order, leaving every
/// other byte unchanged.
pub fn write_u32_at(buf: &mut Vec<u8>, off: usize, v: u32)
    requires
        off + 4 <= old(buf).len(),
    ensures
        final(buf).len() == old(buf).len(),
        le32_at(final(buf)@, off as int) == v,
        forall|i: int|
            0 <= i < old(buf).len() && !(off <= i < off + 4) ==> final(buf)@[i] == old(buf)@[i],
{
    let bytes = vstd::bytes::u32_to_le_bytes(v);
    buf[off] = bytes[0];
    buf[off + 1] = bytes[1];
    buf[off + 2] = bytes[2];
    buf[off + 3] = bytes[3];
    proof {
        vstd::bytes::lemma_auto_spec_u32_to_from_le_bytes();
        assert(buf@.subrange(off as int, off + 4) =~= vstd::bytes::spec_u32_to_le_bytes(v));
    }
}

/// Store `v` at byte offset `off` in little-endian order, leaving every
/// other byte unchanged.
pub fn write_u16_at(buf: &mut Vec<u8>, off: usize, v: u16)
    requires
        off + 2 <= old(buf).len(),
    ensures
        final(buf).len() == old(buf).len(),
        le16_at(final(buf)@, off as int) == v,
        forall|i: int|
            0 <= i < old(buf).len() && !(off <= i < off + 2) ==> final(buf)@[i] == old(buf)@[i],
{
    let bytes = vstd::bytes::u16_to_le_bytes(v);
    buf[off] = bytes[0];
    buf[off + 1] = bytes[1];
    proof {
        vstd::bytes::lemma_auto_spec_u16_to_from_le_bytes();
        assert(buf@.subrange(off as int, off + 2) =~= vstd::bytes::spec_u16_to_le_bytes(v));
    }
}

/// A 32-bit field is unchanged between two equal-length buffers that agree
/// on its four bytes.
pub proof fn lemma_le32_stable(a: Seq<u8>, b: Seq<u8>, off: int)
    requires
        a.len() == b.len(),
        0 <= off,
        off + 4 <= a.len(),
        forall|i: int| off <= i < off + 4 ==> a[i] == b[i],
    ensures
        le32_at(a, off) == le32_at(b, off),
{
    assert(a.subrange(off, off + 4) =~= b.subrange(off, off + 4));
}

/// A run of 16-bit fields is unchanged between two equal-length buffers
/// that agree on its bytes.
pub proof fn lemma_le16_range_stable(a: Seq<u8>, b: Seq<u8>, off: int, n: int)
    requires
        a.len() == b.len(),
        0 <= off,
        0 <= n,
        off + 2 * n <= a.len(),
        forall|i: int| off <= i < off + 2 * n ==> a[i] == b[i],
    ensures
        forall|j: int| 0 <= j < n ==> #[trigger] le16_at(a, off + 2 * j) == le16_at(b, off + 2 * j),
{
    assert forall|j: int| 0 <= j < n implies #[trigger] le16_at(a, off + 2 * j) == le16_at(
        b,
        off + 2 * j,
    ) by {
        assert(a.subrange(off + 2 * j, off + 2 * j + 2) =~= b.subrange(
            off + 2 * j,
            off + 2 * j + 2,
        ));
    }
}

/// Read the 32-bit little-endian value stored at byte offset `off`.
pub fn read_u32_at(buf: &Vec<u8>, off: usize) -> (v: u32)
    requires
        off + 4 <= buf.len(),
    ensures
        v == le32_at(buf@, off as int),
{
    let s = vstd::slice::slice_subrange(buf.as_slice(), off, off + 4);
    vstd::bytes::u32_from_le_bytes(s)
}

/// Store `units` at byte offset `off` as little-endian 16-bit values and
/// fill the rest of a `field_units`-unit field with zeroes, leaving every
/// byte outside the field unchanged.
pub fn write_units_field(buf: &mut Vec<u8>, off: usize, units: &Vec<u16>, field_units: usize)
    requires
        off + 2 * field_units <= old(buf).len(),
        units@.len() < field_units,
    ensures
        final(buf).len() == old(buf).len(),
        forall|j: int|
            0 <= j < field_units ==> #[trigger] le16_at(final(buf)@, off + 2 * j) == (if j
                < units@.len() {
                units@[j]
            } else {
                0u16
            }),
        forall|i: int|
            0 <= i < old(buf).len() && !(off <= i < off + 2 * field_units) ==> final(buf)@[i]
                == old(buf)@[i],
{
    let mut k: usize = 0;
    while k < field_units
        invariant
            off + 2 * field_units <= buf.len(),
            buf.len() == old(buf).len(),
            units@.len() < field_units,
            k <= field_units,
            forall|j: int|
                0 <= j < k ==> #[trigger] le16_at(buf@, off + 2 * j) == (if j < units@.len() {
                    units@[j]
                } else {
                    0u16
                }),
            forall|i: int|
                0 <= i < old(buf).len() && !(off <= i < off + 2 * k) ==> buf@[i] == old(buf)@[i],
        decreases field_units - k,
    {
        let u: u16 = if k < units.len() {
            units[k]
        } else {
            0
        };
        let ghost before = buf@;
        write_u16_at(buf, off + 2 * k, u);
        proof {
            lemma_le16_range_stable(buf@, before, off as int, k as int);
            assert forall|j: int| 0 <= j < k + 1 implies #[trigger] le16_at(buf@, off + 2 * j)
                == (if j < units@.len() {
                units@[j]
            } else {
                0u16
            }) by {
                if j < k {
                    assert(le16_at(buf@, off + 2 * j) == le16_at(before, off + 2 * j));
                } else {
                    assert(le16_at(buf@, off + 2 * j) == u);
                }
            }
        }
        k = k + 1;
    }
}

/// Copy `data` to byte offset `off`, leaving every other byte unchanged.
pub fn write_bytes_field(buf: &mut Vec<u8>, off: usize, data: &Vec<u8>)
    requires
        off + data@.len() <= old(buf).len(),
    ensures
        final(buf).len() == old(buf).len(),
        forall|j: int| 0 <= j < data@.len() ==> final(buf)@[off + j] == data@[j],
        forall|i: int|
            0 <= i < old(buf).len() && !(off <= i < off + data@.len()) ==> final(buf)@[i]
                == old(buf)@[i],
{
    let mut k: usize = 0;
    while k < data.len()
        invariant
            off + data@.len() <= buf.len(),
            buf.len() == old(buf).len(),
            k <= data@.len(),
            forall|j: int| 0 <= j < k ==> buf@[off + j] == data@[j],
            forall|i: int|
                0 <= i < old(buf).len() && !(off <= i < off + k) ==> buf@[i] == old(buf)@[i],
        decreases data@.len() - k,
    {
        buf[off + k] = data[k];
        k = k + 1;
    }
}

} // verus!
