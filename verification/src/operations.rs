//! The four junction operations, as far as they decide and compute.
//!
//! Talking to the filesystem is left to the caller. To make a junction, the
//! caller resolves the target to an absolute path, makes the empty directory,
//! and installs the bytes that `create` returns. To remove one, it sends the
//! request that `delete` returns. To ask about a path, it looks at what
//! stands there, hands that over as an `Entry`, and gets the answer from
//! `junction_exists` or `get_target`.

use crate::codec::{decode, decoded, encode, encoding, fits, read_tag, tag_of};
use crate::cursor::Writer;
use crate::error::{seen, JunctionError};
use crate::layout::{le16, le32, HEADER_SIZE, MOUNT_POINT_TAG};
use crate::path::{normalize, normalized};
use vstd::prelude::*;

verus! {

/// What stands at a path.
#[derive(Debug)]
pub enum Entry {
    /// Nothing: the path has no entry.
    Absent,
    /// An entry that carries no reparse data: a plain directory.
    Plain,
    /// An entry that carries reparse data, with the data as it was fetched.
    Reparse(Vec<u8>),
}

/// An `Entry`, with its reparse data as a sequence of bytes.
pub enum EntryView {
    Absent,
    Plain,
    Reparse(Seq<u8>),
}

impl View for Entry {
    type V = EntryView;

    open spec fn view(&self) -> EntryView {
        match self {
            Entry::Absent => EntryView::Absent,
            Entry::Plain => EntryView::Plain,
            Entry::Reparse(raw) => EntryView::Reparse(raw@),
        }
    }
}

impl Clone for Entry {
    fn clone(&self) -> (copy: Entry)
        ensures
            copy@ == self@,
    {
        match self {
            Entry::Absent => Entry::Absent,
            Entry::Plain => Entry::Plain,
            Entry::Reparse(raw) => {
                let bytes = raw.clone();
                assert(bytes@ =~= raw@);
                Entry::Reparse(bytes)
            },
        }
    }
}

/// What `create` answers for a resolved target path: the reparse data for
/// the path without its verbatim prefix, unless that data would be too long.
pub open spec fn created(path: Seq<u16>) -> Result<Seq<u8>, JunctionError> {
    encoding(normalized(path))
}

/// The request that removes a junction: a fixed header that names the
/// mount-point tag and announces no data.
pub open spec fn removal_request() -> Seq<u8> {
    le32(MOUNT_POINT_TAG) + le16(0) + le16(0)
}

/// Is the entry a junction? Only reparse data with the mount-point tag makes
/// one; reparse data too short to hold a tag is `Malformed`.
pub open spec fn is_junction(entry: EntryView) -> Result<bool, JunctionError> {
    match entry {
        EntryView::Absent => Ok(false),
        EntryView::Plain => Ok(false),
        EntryView::Reparse(raw) => match tag_of(raw) {
            Ok(tag) => Ok(tag == MOUNT_POINT_TAG),
            Err(e) => Err(e),
        },
    }
}

/// Where the entry points: the substitute name of its reparse data, without
/// the device prefix.
pub open spec fn target_of(entry: EntryView) -> Result<Seq<u16>, JunctionError> {
    match entry {
        EntryView::Absent => Err(JunctionError::NotFound),
        EntryView::Plain => Err(JunctionError::NotAJunction),
        EntryView::Reparse(raw) => decoded(raw),
    }
}

/// The reparse data that turns an empty directory into a junction to
/// `target`, a resolved absolute path in UTF-16 code units.
///
/// A verbatim prefix is taken off the target first. The bytes returned are
/// exactly what is to be installed. A target whose payload would pass the
/// largest payload is refused with `InputTooLong`, and then there is nothing
/// to install.
pub fn create(target: &[u16]) -> (r: Result<Vec<u8>, JunctionError>)
    ensures
        seen(r) == created(target@),
        r is Ok <==> fits(normalized(target@).len()),
        r is Err ==> r->Err_0 == JunctionError::InputTooLong,
{
    encode(normalize(target))
}

/// The request that removes the reparse data of a junction. It names the
/// mount-point tag whatever stands at the path: whether the path is a
/// junction at all is for the caller to know.
pub fn delete() -> (request: Vec<u8>)
    ensures
        request@ == removal_request(),
        request@.len() == HEADER_SIZE,
{
    let mut out = Writer::new(HEADER_SIZE as usize);
    out.put_u32(MOUNT_POINT_TAG).unwrap();
    out.put_u16(0).unwrap();
    out.put_u16(0).unwrap();
    out.into_bytes()
}

/// Is the entry a junction?
///
/// An absent path and a plain directory are no junctions, and neither is
/// reparse data of another kind: all three give `false`, never an error.
pub fn junction_exists(entry: &Entry) -> (r: Result<bool, JunctionError>)
    ensures
        r == is_junction(entry@),
        entry@ is Absent ==> r == Ok::<bool, JunctionError>(false),
        entry@ is Plain ==> r == Ok::<bool, JunctionError>(false),
{
    match entry {
        Entry::Absent => Ok(false),
        Entry::Plain => Ok(false),
        Entry::Reparse(raw) => {
            let tag: u32 = read_tag(raw.as_slice())?;
            Ok(tag == MOUNT_POINT_TAG)
        },
    }
}

/// The path that a junction points to, in UTF-16 code units.
///
/// An absent path gives `NotFound`; a plain directory, or reparse data of
/// another kind, gives `NotAJunction`. The target is read from the
/// substitute name, never from the print name, and loses the device prefix
/// where it has one.
pub fn get_target(entry: &Entry) -> (r: Result<Vec<u16>, JunctionError>)
    ensures
        seen(r) == target_of(entry@),
        entry@ is Absent ==> r is Err && r->Err_0 == JunctionError::NotFound,
        entry@ is Plain ==> r is Err && r->Err_0 == JunctionError::NotAJunction,
{
    match entry {
        Entry::Absent => Err(JunctionError::NotFound),
        Entry::Plain => Err(JunctionError::NotAJunction),
        Entry::Reparse(raw) => decode(raw.as_slice()),
    }
}

} // verus!
