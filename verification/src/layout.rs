//! The wire layout of mount-point reparse data.
//!
//! | field                  | offset | width    |
//! |------------------------|--------|----------|
//! | reparse tag            | 0      | 4        |
//! | reparse data length    | 4      | 2        |
//! | reserved               | 6      | 2        |
//! | substitute name offset | 8      | 2        |
//! | substitute name length | 10     | 2        |
//! | print name offset      | 12     | 2        |
//! | print name length      | 14     | 2        |
//! | path buffer            | 16     | variable |
//!
//! Every integer is little-endian. The path buffer holds UTF-16 code units,
//! two bytes each: the substitute name, a null unit, the print name, a null
//! unit. Name offsets and lengths count bytes of the path buffer.

use vstd::prelude::*;

verus! {

/// Width of one UTF-16 code unit, in bytes.
pub const WCHAR_SIZE: u16 = 2;

/// Width of the null unit that ends each name, in bytes.
pub const UNICODE_NULL_SIZE: u16 = WCHAR_SIZE;

/// The reparse tag of a mount point.
pub const MOUNT_POINT_TAG: u32 = 0xA000_0003;

/// Width of the fixed header: tag, data length, reserved.
pub const HEADER_SIZE: u16 = 8;

/// Width of the mount-point header: the two offsets and the two lengths.
pub const MOUNT_POINT_HEADER_SIZE: u16 = 8;

/// The largest reparse data, headers included, that the filesystem accepts.
pub const MAX_REPARSE_DATA_SIZE: u16 = 16384;

/// The largest payload, that is mount-point header and path buffer
/// together: what the two headers leave of the maximum.
pub const MAX_PAYLOAD: u16 = MAX_REPARSE_DATA_SIZE - HEADER_SIZE - MOUNT_POINT_HEADER_SIZE;

/// Offset of the reparse tag.
pub const TAG_FIELD: usize = 0;

/// Offset of the reparse data length.
pub const DATA_LENGTH_FIELD: usize = 4;

/// Offset of the substitute name's offset.
pub const SUBSTITUTE_NAME_OFFSET_FIELD: usize = 8;

/// Offset of the substitute name's length.
pub const SUBSTITUTE_NAME_LENGTH_FIELD: usize = 10;

/// Offset of the print name's offset.
pub const PRINT_NAME_OFFSET_FIELD: usize = 12;

/// Offset of the print name's length.
pub const PRINT_NAME_LENGTH_FIELD: usize = 14;

/// Offset of the path buffer.
pub const PATH_BUFFER_FIELD: usize = 16;

/// The two bytes of a 16-bit integer, low byte first.
pub open spec fn le16(x: u16) -> Seq<u8> {
    seq![(x % 256) as u8, (x / 256) as u8]
}

/// The four bytes of a 32-bit integer, low byte first.
pub open spec fn le32(x: u32) -> Seq<u8> {
    seq![
        (x % 256) as u8,
        (x / 0x100 % 256) as u8,
        (x / 0x1_0000 % 256) as u8,
        (x / 0x100_0000) as u8,
    ]
}

/// The 16-bit integer that bytes `i` and `i + 1` of `bytes` spell.
pub open spec fn u16_at(bytes: Seq<u8>, i: int) -> u16
    recommends
        0 <= i,
        i + 2 <= bytes.len(),
{
    (bytes[i] as int + 0x100 * (bytes[i + 1] as int)) as u16
}

/// The 32-bit integer that bytes `i` to `i + 3` of `bytes` spell.
pub open spec fn u32_at(bytes: Seq<u8>, i: int) -> u32
    recommends
        0 <= i,
        i + 4 <= bytes.len(),
{
    (bytes[i] as int + 0x100 * (bytes[i + 1] as int) + 0x1_0000 * (bytes[i + 2] as int) + 0x100_0000
        * (bytes[i + 3] as int)) as u32
}

/// The bytes of a run of UTF-16 code units, each unit low byte first.
pub open spec fn wide(units: Seq<u16>) -> Seq<u8> {
    Seq::new(
        2 * units.len(),
        |i: int|
            if i % 2 == 0 {
                (units[i / 2] % 256) as u8
            } else {
                (units[i / 2] / 256) as u8
            },
    )
}

/// The `count` code units that `bytes` spells from byte `start` on.
pub open spec fn units_at(bytes: Seq<u8>, start: int, count: int) -> Seq<u16>
    recommends
        0 <= start,
        0 <= count,
        start + 2 * count <= bytes.len(),
{
    Seq::new(count as nat, |k: int| u16_at(bytes, start + 2 * k))
}

/// One more unit adds its two bytes at the end.
pub proof fn lemma_wide_push(units: Seq<u16>, unit: u16)
    ensures
        wide(units.push(unit)) == wide(units) + le16(unit),
{
    assert(wide(units.push(unit)) =~= wide(units) + le16(unit));
}

/// The bytes of two runs, one after the other, are the bytes of the joined run.
pub proof fn lemma_wide_concat(front: Seq<u16>, back: Seq<u16>)
    ensures
        wide(front + back) == wide(front) + wide(back),
{
    assert(wide(front + back) =~= wide(front) + wide(back));
}

/// A run of units written anywhere into a buffer is read back unchanged.
pub proof fn lemma_units_of_wide(before: Seq<u8>, units: Seq<u16>, after: Seq<u8>)
    ensures
        units_at(before + wide(units) + after, before.len() as int, units.len() as int) == units,
{
    let bytes = before + wide(units) + after;
    let start = before.len() as int;
    assert forall|k: int| 0 <= k < units.len() implies u16_at(bytes, start + 2 * k) == units[k] by {
        assert(bytes[start + 2 * k] == wide(units)[2 * k]);
        assert(bytes[start + 2 * k + 1] == wide(units)[2 * k + 1]);
    }
    assert(units_at(bytes, start, units.len() as int) =~= units);
}

/// Bytes that begin with `data` spell, within `data`, the integers that
/// `data` spells.
pub proof fn lemma_integers_of_prefix(data: Seq<u8>, raw: Seq<u8>, i: int)
    requires
        data.is_prefix_of(raw),
        0 <= i,
    ensures
        i + 2 <= data.len() ==> u16_at(raw, i) == u16_at(data, i),
        i + 4 <= data.len() ==> u32_at(raw, i) == u32_at(data, i),
{
    let head = raw.subrange(0, data.len() as int);
    if i + 2 <= data.len() {
        assert(head[i] == raw[i] && head[i + 1] == raw[i + 1]);
    }
    if i + 4 <= data.len() {
        assert(head[i + 2] == raw[i + 2] && head[i + 3] == raw[i + 3]);
    }
}

/// Bytes that begin with `data` spell, within `data`, the units that `data`
/// spells.
pub proof fn lemma_units_of_prefix(data: Seq<u8>, raw: Seq<u8>, start: int, count: int)
    requires
        data.is_prefix_of(raw),
        0 <= start,
        0 <= count,
        start + 2 * count <= data.len(),
    ensures
        units_at(raw, start, count) == units_at(data, start, count),
{
    assert forall|k: int| 0 <= k < count implies #[trigger] units_at(raw, start, count)[k]
        == units_at(data, start, count)[k] by {
        lemma_integers_of_prefix(data, raw, start + 2 * k);
    }
    assert(units_at(raw, start, count) =~= units_at(data, start, count));
}

} // verus!
