//! What holds of the junction operations taken together.

use crate::codec::{
    encoded, fits, header_of, name_in, print_name_of, substitute_name_of, tag_of,
    MountPointHeader,
};
use crate::error::JunctionError;
use crate::layout::{
    le16, lemma_integers_of_prefix, lemma_units_of_prefix, lemma_units_of_wide, u16_at, u32_at,
    units_at, wide, HEADER_SIZE, MAX_PAYLOAD, MAX_REPARSE_DATA_SIZE, MOUNT_POINT_HEADER_SIZE,
    MOUNT_POINT_TAG, UNICODE_NULL_SIZE, WCHAR_SIZE,
};
use crate::operations::{created, is_junction, removal_request, target_of, EntryView};
use crate::path::{device_path, lemma_plain_of_device_path, normalized};
use vstd::prelude::*;

verus! {

/// The fields of the reparse data for a target that fits obey the layout:
/// the substitute name stands first, the print name right behind the null
/// unit that ends it, every length is a whole number of code units, the data
/// length counts the mount-point header and the path buffer and stays within
/// the largest payload, and the whole stays within the largest reparse data.
pub proof fn lemma_header_fields(n: nat)
    requires
        fits(n),
    ensures
        ({
            let header = MountPointHeader::for_target_len(n);
            &&& header.substitute_name_offset == 0
            &&& header.substitute_name_length == WCHAR_SIZE * (4 + n)
            &&& header.print_name_offset == header.substitute_name_offset
                + header.substitute_name_length + UNICODE_NULL_SIZE
            &&& header.print_name_length == WCHAR_SIZE * n
            &&& header.data_length == MOUNT_POINT_HEADER_SIZE + header.substitute_name_length
                + UNICODE_NULL_SIZE + header.print_name_length + UNICODE_NULL_SIZE
            &&& header.data_length <= MAX_PAYLOAD
            &&& header.total_size() <= MAX_REPARSE_DATA_SIZE
        }),
{
}

/// The reparse data for a target that fits is as long as its header says,
/// never longer than the filesystem accepts, and reads back as a mount
/// point with the header it was built from.
pub proof fn lemma_encoded_header(target: Seq<u16>)
    requires
        fits(target.len()),
    ensures
        encoded(target).len() == MountPointHeader::for_target_len(target.len()).total_size(),
        encoded(target).len() <= MAX_REPARSE_DATA_SIZE,
        tag_of(encoded(target)) == Ok::<u32, JunctionError>(MOUNT_POINT_TAG),
        header_of(encoded(target)) == Ok::<MountPointHeader, JunctionError>(
            MountPointHeader::for_target_len(target.len()),
        ),
{
    let header = MountPointHeader::for_target_len(target.len());
    let data = encoded(target);
    assert(header.bytes().len() == 16);
    assert(forall|i: int| 0 <= i < 16 ==> data[i] == header.bytes()[i]);
    assert(u32_at(data, 0) == MOUNT_POINT_TAG);
    assert(u16_at(data, 4) == header.data_length);
    assert(u16_at(data, 8) == header.substitute_name_offset);
    assert(u16_at(data, 10) == header.substitute_name_length);
    assert(u16_at(data, 12) == header.print_name_offset);
    assert(u16_at(data, 14) == header.print_name_length);
}

/// The reparse data for a target that fits holds, in its path buffer, the
/// target behind the device prefix as its substitute name, and the target
/// itself as its print name.
pub proof fn lemma_names_in_encoded(target: Seq<u16>)
    requires
        fits(target.len()),
    ensures
        ({
            let header = MountPointHeader::for_target_len(target.len());
            &&& units_at(encoded(target), 16, 4 + target.len() as int) == device_path(target)
            &&& units_at(encoded(target), 16 + header.print_name_offset, target.len() as int)
                == target
        }),
{
    let header = MountPointHeader::for_target_len(target.len());
    let data = encoded(target);
    let substitute = device_path(target);
    let front = header.bytes();
    assert(front.len() == 16);
    assert(substitute.len() == 4 + target.len());
    assert(wide(substitute).len() == 2 * substitute.len());
    assert(units_at(data, 16, 4 + target.len() as int) == substitute) by {
        let back = le16(0) + wide(target) + le16(0);
        assert(data =~= front + wide(substitute) + back);
        lemma_units_of_wide(front, substitute, back);
    }
    assert(units_at(data, 16 + header.print_name_offset, target.len() as int) == target) by {
        let before = front + wide(substitute) + le16(0);
        assert(before.len() == 16 + header.print_name_offset);
        assert(data =~= before + wide(target) + le16(0));
        lemma_units_of_wide(before, target, le16(0));
    }
}

/// What stands behind the announced data does not matter: bytes that begin
/// with well-formed mount-point data, all of it, read back as that data
/// does.
pub proof fn lemma_trailing_bytes_ignored(data: Seq<u8>, raw: Seq<u8>)
    requires
        data.is_prefix_of(raw),
        header_of(data) is Ok,
        header_of(data)->Ok_0.total_size() <= data.len(),
    ensures
        tag_of(raw) == tag_of(data),
        header_of(raw) == header_of(data),
        substitute_name_of(raw) == substitute_name_of(data),
        print_name_of(raw) == print_name_of(data),
{
    let header = header_of(data)->Ok_0;
    lemma_integers_of_prefix(data, raw, 0);
    lemma_integers_of_prefix(data, raw, 4);
    lemma_integers_of_prefix(data, raw, 8);
    lemma_integers_of_prefix(data, raw, 10);
    lemma_integers_of_prefix(data, raw, 12);
    lemma_integers_of_prefix(data, raw, 14);
    assert(header_of(raw) == header_of(data));
    lemma_name_of_prefix(
        data,
        raw,
        header.data_length,
        header.substitute_name_offset,
        header.substitute_name_length,
    );
    lemma_name_of_prefix(
        data,
        raw,
        header.data_length,
        header.print_name_offset,
        header.print_name_length,
    );
}

/// A name that lies within the announced data is read the same from any
/// buffer that begins with that data.
proof fn lemma_name_of_prefix(
    data: Seq<u8>,
    raw: Seq<u8>,
    data_length: u16,
    offset: u16,
    length: u16,
)
    requires
        data.is_prefix_of(raw),
        HEADER_SIZE + data_length <= data.len(),
    ensures
        name_in(raw, data_length, offset, length) == name_in(data, data_length, offset, length),
{
    if name_in(data, data_length, offset, length) is Ok {
        let start = 2 * (offset / WCHAR_SIZE);
        let count = length / WCHAR_SIZE;
        lemma_units_of_prefix(data, raw, 16 + start, count as int);
    }
}

/// A name of whole units that lies within the announced data, which lies
/// within the buffer, is read where its fields point.
proof fn lemma_name_within_bounds(data: Seq<u8>, data_length: u16, offset: u16, length: u16)
    requires
        MOUNT_POINT_HEADER_SIZE <= data_length,
        HEADER_SIZE + data_length <= data.len(),
        offset % 2 == 0,
        length % 2 == 0,
        offset + length <= data_length - MOUNT_POINT_HEADER_SIZE,
    ensures
        name_in(data, data_length, offset, length) == Ok::<Seq<u16>, JunctionError>(
            units_at(data, 16 + offset, length as int / 2),
        ),
{
}

/// The reparse data for a target that fits reads back with the target
/// behind the device prefix as its substitute name, and the target itself
/// as its print name.
pub proof fn lemma_names_of_encoded(target: Seq<u16>)
    requires
        fits(target.len()),
    ensures
        substitute_name_of(encoded(target)) == Ok::<Seq<u16>, JunctionError>(device_path(target)),
        print_name_of(encoded(target)) == Ok::<Seq<u16>, JunctionError>(target),
{
    let n = target.len() as int;
    let header = MountPointHeader::for_target_len(target.len());
    let data = encoded(target);
    lemma_encoded_header(target);
    lemma_names_in_encoded(target);
    lemma_header_fields(target.len());
    assert(header.substitute_name_length as int / 2 == 4 + n);
    assert(header.print_name_length as int / 2 == n);
    lemma_name_within_bounds(
        data,
        header.data_length,
        header.substitute_name_offset,
        header.substitute_name_length,
    );
    lemma_name_within_bounds(
        data,
        header.data_length,
        header.print_name_offset,
        header.print_name_length,
    );
}

/// Round trip: the reparse data that `create` returns for a resolved path,
/// once installed and fetched again, is a junction, and its target is the
/// path without its verbatim prefix. This holds whatever the buffer holds
/// behind the data.
pub proof fn lemma_round_trip(path: Seq<u16>, raw: Seq<u8>)
    requires
        created(path) is Ok,
        created(path)->Ok_0.is_prefix_of(raw),
    ensures
        is_junction(EntryView::Reparse(raw)) == Ok::<bool, JunctionError>(true),
        target_of(EntryView::Reparse(raw)) == Ok::<Seq<u16>, JunctionError>(normalized(path)),
{
    let target = normalized(path);
    lemma_encoded_header(target);
    lemma_names_of_encoded(target);
    lemma_trailing_bytes_ignored(encoded(target), raw);
    lemma_plain_of_device_path(target);
}

/// The print name is populated: for a resolved path that is more than a
/// verbatim prefix, the reparse data that `create` returns carries a print
/// name that is not empty, and that is the very path `get_target` reports.
pub proof fn lemma_print_name_populated(path: Seq<u16>, raw: Seq<u8>)
    requires
        normalized(path).len() > 0,
        created(path) is Ok,
        created(path)->Ok_0.is_prefix_of(raw),
    ensures
        print_name_of(raw) is Ok,
        print_name_of(raw)->Ok_0.len() > 0,
        header_of(raw)->Ok_0.print_name_length > 0,
        Ok::<Seq<u16>, JunctionError>(print_name_of(raw)->Ok_0) == target_of(
            EntryView::Reparse(raw),
        ),
{
    let target = normalized(path);
    lemma_encoded_header(target);
    lemma_names_of_encoded(target);
    lemma_trailing_bytes_ignored(encoded(target), raw);
    lemma_plain_of_device_path(target);
}

/// The request of `delete` is a bare fixed header that names the tag under
/// which `create` installs its data, so the filesystem takes the two for the
/// same kind of reparse point. And whatever the removal leaves at the path,
/// the bare directory or nothing at all, is no junction.
pub proof fn lemma_removed_junction_is_gone(path: Seq<u16>, after: EntryView)
    requires
        created(path) is Ok,
        after is Plain || after is Absent,
    ensures
        removal_request().len() == HEADER_SIZE,
        tag_of(removal_request()) == tag_of(created(path)->Ok_0),
        tag_of(removal_request()) == Ok::<u32, JunctionError>(MOUNT_POINT_TAG),
        u16_at(removal_request(), 4) == 0,
        is_junction(after) == Ok::<bool, JunctionError>(false),
{
    lemma_encoded_header(normalized(path));
}

} // verus!
