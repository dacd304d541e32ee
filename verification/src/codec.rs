//! Mount-point reparse data, built from a target path and read back.
//!
//! `encode` lays a target out as the bytes that the filesystem installs;
//! `read_header`, `substitute_name` and `print_name` take such bytes apart
//! again, trusting no length that they have not checked against the buffer.

use crate::cursor::{Reader, Writer};
use crate::error::{seen, JunctionError};
use crate::layout::{
    le16, le32, lemma_wide_concat, u16_at, u32_at, units_at, wide, DATA_LENGTH_FIELD,
    HEADER_SIZE, MAX_PAYLOAD, MAX_REPARSE_DATA_SIZE, MOUNT_POINT_HEADER_SIZE,
    MOUNT_POINT_TAG, PATH_BUFFER_FIELD, PRINT_NAME_LENGTH_FIELD, PRINT_NAME_OFFSET_FIELD,
    SUBSTITUTE_NAME_LENGTH_FIELD, SUBSTITUTE_NAME_OFFSET_FIELD, TAG_FIELD, UNICODE_NULL_SIZE,
    WCHAR_SIZE,
};
use crate::path::{device_path, plain_path, strip_prefix, NT_PREFIX};
use vstd::prelude::*;
use vstd::slice::slice_to_vec;

verus! {

/// The length and name fields of mount-point reparse data. Offsets and
/// lengths count bytes of the path buffer; no length counts the null unit
/// behind its name.
#[derive(Clone, Copy, Debug, PartialEq, Eq, Structural)]
pub struct MountPointHeader {
    /// Bytes that follow the fixed header: the mount-point header and the
    /// path buffer.
    pub data_length: u16,
    pub substitute_name_offset: u16,
    pub substitute_name_length: u16,
    pub print_name_offset: u16,
    pub print_name_length: u16,
}

/// Bytes of the path buffer for a target of `n` units: the device prefix and
/// the target, a null unit, the target once more, a null unit.
pub open spec fn path_buffer_len(n: nat) -> nat {
    2 * (NT_PREFIX@.len() + n) + 2 + 2 * n + 2
}

/// Bytes of the payload for a target of `n` units: the mount-point header
/// and the path buffer.
pub open spec fn payload_len(n: nat) -> nat {
    MOUNT_POINT_HEADER_SIZE as nat + path_buffer_len(n)
}

/// Does the payload for a target of `n` units stay within the largest
/// payload?
pub open spec fn fits(n: nat) -> bool {
    payload_len(n) <= MAX_PAYLOAD
}

impl MountPointHeader {
    /// The header of the reparse data for a target of `n` units: the
    /// substitute name comes first, the print name right behind its null
    /// unit.
    pub open spec fn for_target_len(n: nat) -> MountPointHeader
        recommends
            fits(n),
    {
        MountPointHeader {
            data_length: payload_len(n) as u16,
            substitute_name_offset: 0,
            substitute_name_length: (2 * (NT_PREFIX@.len() + n)) as u16,
            print_name_offset: (2 * (NT_PREFIX@.len() + n) + 2) as u16,
            print_name_length: (2 * n) as u16,
        }
    }

    /// The sixteen bytes that open the reparse data: the mount-point tag,
    /// the data length, the reserved field, the four name fields.
    pub open spec fn bytes(self) -> Seq<u8> {
        le32(MOUNT_POINT_TAG) + le16(self.data_length) + le16(0) + le16(
            self.substitute_name_offset,
        ) + le16(self.substitute_name_length) + le16(self.print_name_offset) + le16(
            self.print_name_length,
        )
    }

    /// Bytes of the whole reparse data: the fixed header, and what it
    /// announces.
    pub open spec fn total_size(self) -> int {
        HEADER_SIZE + self.data_length
    }
}

/// The path buffer for `target`: the substitute name, a null unit, the print
/// name, a null unit.
pub open spec fn path_buffer(target: Seq<u16>) -> Seq<u8> {
    wide(device_path(target)) + le16(0) + wide(target) + le16(0)
}

/// The reparse data that makes a junction point at `target`.
pub open spec fn encoded(target: Seq<u16>) -> Seq<u8>
    recommends
        fits(target.len()),
{
    MountPointHeader::for_target_len(target.len()).bytes() + path_buffer(target)
}

/// What `encode` answers: the reparse data for a target that fits, and
/// `InputTooLong` for any other.
pub open spec fn encoding(target: Seq<u16>) -> Result<Seq<u8>, JunctionError> {
    if fits(target.len()) {
        Ok(encoded(target))
    } else {
        Err(JunctionError::InputTooLong)
    }
}

/// The header fields for a target of `target_len` units, or `InputTooLong`
/// where the payload would pass the largest payload.
pub fn measure(target_len: usize) -> (r: Result<MountPointHeader, JunctionError>)
    ensures
        fits(target_len as nat) ==> r == Ok::<MountPointHeader, JunctionError>(
            MountPointHeader::for_target_len(target_len as nat),
        ),
        !fits(target_len as nat) ==> r == Err::<MountPointHeader, JunctionError>(
            JunctionError::InputTooLong,
        ),
{
    let unit: usize = WCHAR_SIZE as usize;
    let null: usize = UNICODE_NULL_SIZE as usize;
    let too_long = JunctionError::InputTooLong;
    let substitute: usize = NT_PREFIX.len().checked_add(target_len).ok_or(too_long)?.checked_mul(
        unit,
    ).ok_or(too_long)?;
    let print: usize = target_len.checked_mul(unit).ok_or(too_long)?;
    let names: usize = substitute.checked_add(null).ok_or(too_long)?.checked_add(print).ok_or(
        too_long,
    )?.checked_add(null).ok_or(too_long)?;
    let payload: usize = names.checked_add(MOUNT_POINT_HEADER_SIZE as usize).ok_or(too_long)?;
    if payload > MAX_PAYLOAD as usize {
        return Err(JunctionError::InputTooLong);
    }
    Ok(
        MountPointHeader {
            data_length: payload as u16,
            substitute_name_offset: 0,
            substitute_name_length: substitute as u16,
            print_name_offset: substitute as u16 + UNICODE_NULL_SIZE,
            print_name_length: print as u16,
        },
    )
}

/// Lays `target` out as mount-point reparse data: exactly the bytes to hand
/// to the filesystem. A target whose payload would pass the largest payload
/// is refused before a byte is written.
pub fn encode(target: &[u16]) -> (r: Result<Vec<u8>, JunctionError>)
    ensures
        seen(r) == encoding(target@),
        r is Ok <==> fits(target@.len()),
{
    let header: MountPointHeader = measure(target.len())?;
    let mut out = Writer::new(MAX_REPARSE_DATA_SIZE as usize);
    out.put_u32(MOUNT_POINT_TAG)?;
    out.put_u16(header.data_length)?;
    out.put_u16(0)?;
    out.put_u16(header.substitute_name_offset)?;
    out.put_u16(header.substitute_name_length)?;
    out.put_u16(header.print_name_offset)?;
    out.put_u16(header.print_name_length)?;
    assert(out@ == header.bytes());
    out.put_units(NT_PREFIX.as_slice())?;
    out.put_units(target)?;
    out.put_u16(0)?;
    out.put_units(target)?;
    out.put_u16(0)?;
    proof {
        lemma_wide_concat(NT_PREFIX@, target@);
        assert(out@ =~= encoded(target@));
    }
    Ok(out.into_bytes())
}

/// The reparse tag that opens `raw`, where `raw` is long enough to hold one.
pub open spec fn tag_of(raw: Seq<u8>) -> Result<u32, JunctionError> {
    if raw.len() < TAG_FIELD + 4 {
        Err(JunctionError::Malformed)
    } else {
        Ok(u32_at(raw, TAG_FIELD as int))
    }
}

/// The header fields of `raw`: `Malformed` where `raw` ends before its tag
/// or, being a mount point, before its path buffer; `NotAJunction` where the
/// tag is not that of a mount point.
pub open spec fn header_of(raw: Seq<u8>) -> Result<MountPointHeader, JunctionError> {
    match tag_of(raw) {
        Err(e) => Err(e),
        Ok(tag) => if tag != MOUNT_POINT_TAG {
            Err(JunctionError::NotAJunction)
        } else if raw.len() < PATH_BUFFER_FIELD {
            Err(JunctionError::Malformed)
        } else {
            Ok(
                MountPointHeader {
                    data_length: u16_at(raw, DATA_LENGTH_FIELD as int),
                    substitute_name_offset: u16_at(raw, SUBSTITUTE_NAME_OFFSET_FIELD as int),
                    substitute_name_length: u16_at(raw, SUBSTITUTE_NAME_LENGTH_FIELD as int),
                    print_name_offset: u16_at(raw, PRINT_NAME_OFFSET_FIELD as int),
                    print_name_length: u16_at(raw, PRINT_NAME_LENGTH_FIELD as int),
                },
            )
        },
    }
}

/// The name of `length` bytes that stands `offset` bytes into the path
/// buffer of `raw`, in whole code units. The data length is taken at its
/// word only as far as `raw` reaches, and the name only as far as the data
/// length reaches: anything else is `Malformed`.
pub open spec fn name_in(raw: Seq<u8>, data_length: u16, offset: u16, length: u16) -> Result<
    Seq<u16>,
    JunctionError,
> {
    let start = 2 * (offset / WCHAR_SIZE);
    let count = length / WCHAR_SIZE;
    if data_length < MOUNT_POINT_HEADER_SIZE || HEADER_SIZE + data_length > raw.len() || start + 2
        * count > data_length - MOUNT_POINT_HEADER_SIZE {
        Err(JunctionError::Malformed)
    } else {
        Ok(units_at(raw, PATH_BUFFER_FIELD + start, count as int))
    }
}

/// The substitute name of `raw`: the device path that the filesystem follows.
pub open spec fn substitute_name_of(raw: Seq<u8>) -> Result<Seq<u16>, JunctionError> {
    match header_of(raw) {
        Ok(header) => name_in(
            raw,
            header.data_length,
            header.substitute_name_offset,
            header.substitute_name_length,
        ),
        Err(e) => Err(e),
    }
}

/// The print name of `raw`: the path as it is shown.
pub open spec fn print_name_of(raw: Seq<u8>) -> Result<Seq<u16>, JunctionError> {
    match header_of(raw) {
        Ok(header) => name_in(
            raw,
            header.data_length,
            header.print_name_offset,
            header.print_name_length,
        ),
        Err(e) => Err(e),
    }
}

/// The target that `raw` points to: its substitute name, without the device
/// prefix where it has one.
pub open spec fn decoded(raw: Seq<u8>) -> Result<Seq<u16>, JunctionError> {
    match substitute_name_of(raw) {
        Ok(name) => Ok(plain_path(name)),
        Err(e) => Err(e),
    }
}

/// Reads the reparse tag of `raw`.
pub fn read_tag(raw: &[u8]) -> (r: Result<u32, JunctionError>)
    ensures
        r == tag_of(raw@),
{
    let mut input = Reader::new(raw);
    input.read_u32()
}

/// Reads the header fields of `raw`, which must carry the mount-point tag.
pub fn read_header(raw: &[u8]) -> (r: Result<MountPointHeader, JunctionError>)
    ensures
        r == header_of(raw@),
{
    let mut input = Reader::new(raw);
    let tag: u32 = input.read_u32()?;
    if tag != MOUNT_POINT_TAG {
        return Err(JunctionError::NotAJunction);
    }
    let data_length: u16 = input.read_u16()?;
    input.advance(2)?;
    let substitute_name_offset: u16 = input.read_u16()?;
    let substitute_name_length: u16 = input.read_u16()?;
    let print_name_offset: u16 = input.read_u16()?;
    let print_name_length: u16 = input.read_u16()?;
    Ok(
        MountPointHeader {
            data_length,
            substitute_name_offset,
            substitute_name_length,
            print_name_offset,
            print_name_length,
        },
    )
}

/// Reads one name out of the path buffer of `raw`, through a cursor that
/// stops where the announced data ends.
fn read_name(raw: &[u8], data_length: u16, offset: u16, length: u16) -> (r: Result<
    Vec<u16>,
    JunctionError,
>)
    ensures
        seen(r) == name_in(raw@, data_length, offset, length),
{
    if data_length < MOUNT_POINT_HEADER_SIZE {
        return Err(JunctionError::Malformed);
    }
    let end: usize = HEADER_SIZE as usize + data_length as usize;
    if end > raw.len() {
        return Err(JunctionError::Malformed);
    }
    let path_buffer = &raw[PATH_BUFFER_FIELD..end];
    let mut input = Reader::new(path_buffer);
    let start: usize = 2 * (offset / WCHAR_SIZE) as usize;
    let count: usize = (length / WCHAR_SIZE) as usize;
    input.advance(start)?;
    let name = input.read_units(count)?;
    assert(name@ =~= units_at(raw@, PATH_BUFFER_FIELD + start, count as int));
    Ok(name)
}

/// Reads the substitute name of mount-point reparse data.
pub fn substitute_name(raw: &[u8]) -> (r: Result<Vec<u16>, JunctionError>)
    ensures
        seen(r) == substitute_name_of(raw@),
{
    let header = read_header(raw)?;
    read_name(
        raw,
        header.data_length,
        header.substitute_name_offset,
        header.substitute_name_length,
    )
}

/// Reads the print name of mount-point reparse data.
pub fn print_name(raw: &[u8]) -> (r: Result<Vec<u16>, JunctionError>)
    ensures
        seen(r) == print_name_of(raw@),
{
    let header = read_header(raw)?;
    read_name(raw, header.data_length, header.print_name_offset, header.print_name_length)
}

/// Reads the target of mount-point reparse data: the substitute name, never
/// the print name, without the device prefix where it has one.
pub fn decode(raw: &[u8]) -> (r: Result<Vec<u16>, JunctionError>)
    ensures
        seen(r) == decoded(raw@),
{
    let name = substitute_name(raw)?;
    let target = strip_prefix(name.as_slice(), NT_PREFIX.as_slice());
    Ok(slice_to_vec(target))
}

} // verus!
