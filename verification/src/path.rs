//! Path prefixes, on paths held as UTF-16 code units.
//!
//! A resolved path may arrive with the verbatim prefix `\\?\`, which is taken
//! off before the path is stored. The substitute name of a junction is the
//! stored path behind the device prefix `\??\`, which is taken off again when
//! the name is read back.

use vstd::prelude::*;

verus! {

/// The device prefix `\??\`: what follows is a raw path of the object
/// namespace, not to be interpreted.
pub const NT_PREFIX: [u16; 4] = [0x5C, 0x3F, 0x3F, 0x5C];

/// The verbatim prefix `\\?\`: what follows is neither normalised nor
/// limited in length.
pub const VERBATIM_PREFIX: [u16; 4] = [0x5C, 0x5C, 0x3F, 0x5C];

/// `path` without `prefix` where it begins with it, and unchanged where not.
pub open spec fn stripped(path: Seq<u16>, prefix: Seq<u16>) -> Seq<u16> {
    if prefix.is_prefix_of(path) {
        path.skip(prefix.len() as int)
    } else {
        path
    }
}

/// A resolved path as a junction stores it: without the verbatim prefix.
pub open spec fn normalized(path: Seq<u16>) -> Seq<u16> {
    stripped(path, VERBATIM_PREFIX@)
}

/// The substitute name that stands for `target`: the device prefix, then the
/// target.
pub open spec fn device_path(target: Seq<u16>) -> Seq<u16> {
    NT_PREFIX@ + target
}

/// The target that a substitute name stands for: the name without the device
/// prefix, or the whole name where it has none.
pub open spec fn plain_path(name: Seq<u16>) -> Seq<u16> {
    stripped(name, NT_PREFIX@)
}

/// Does `path` begin with `prefix`?
pub fn starts_with(path: &[u16], prefix: &[u16]) -> (found: bool)
    ensures
        found == prefix@.is_prefix_of(path@),
{
    if path.len() < prefix.len() {
        return false;
    }
    let mut i: usize = 0;
    while i < prefix.len()
        invariant
            i <= prefix@.len() <= path@.len(),
            forall|k: int| 0 <= k < i ==> path@[k] == prefix@[k],
        decreases prefix@.len() - i,
    {
        if path[i] != prefix[i] {
            assert(path@.subrange(0, prefix@.len() as int)[i as int] != prefix@[i as int]);
            return false;
        }
        i += 1;
    }
    assert(prefix@ =~= path@.subrange(0, prefix@.len() as int));
    true
}

/// Takes `prefix` off the front of `path`, where it stands there.
pub fn strip_prefix<'a>(path: &'a [u16], prefix: &[u16]) -> (rest: &'a [u16])
    ensures
        rest@ == stripped(path@, prefix@),
{
    if starts_with(path, prefix) {
        let rest = &path[prefix.len()..path.len()];
        assert(rest@ =~= path@.skip(prefix@.len() as int));
        rest
    } else {
        path
    }
}

/// Takes the verbatim prefix off a resolved path, where it has one.
pub fn normalize(path: &[u16]) -> (rest: &[u16])
    ensures
        rest@ == normalized(path@),
{
    strip_prefix(path, VERBATIM_PREFIX.as_slice())
}

/// Whatever stands behind the device prefix is found again by taking the
/// prefix off.
pub proof fn lemma_plain_of_device_path(target: Seq<u16>)
    ensures
        plain_path(device_path(target)) == target,
{
    let name = device_path(target);
    assert(name.subrange(0, 4) =~= NT_PREFIX@);
    assert(name.skip(4) =~= target);
}

} // verus!
