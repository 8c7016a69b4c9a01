//! The two forms of a path: the one callers see, and the non-parsed form that
//! a reparse record stores.
//!
//! Paths are sequences of UTF-16 code units, as the host keeps them. Bringing
//! a path into absolute form is the host's work; this module adds and removes
//! the marker that tells the host not to parse what follows.

use vstd::prelude::*;

verus! {

/// The code unit of a backslash.
pub const BACKSLASH: u16 = 0x5C;

/// The code unit of a question mark.
pub const QUESTION: u16 = 0x3F;

/// How many code units the marker takes.
pub const MARKER_LEN: usize = 4;

/// The non-parsed marker: a backslash, two question marks, a backslash.
pub open spec fn marker() -> Seq<u16> {
    seq![BACKSLASH, QUESTION, QUESTION, BACKSLASH]
}

/// Whether a path starts with the non-parsed marker.
pub open spec fn has_marker(path: Seq<u16>) -> bool {
    path.len() >= 4 && path.subrange(0, 4) == marker()
}

/// The non-parsed form of an absolute path: the marker, then the path.
pub open spec fn internal_form(path: Seq<u16>) -> Seq<u16> {
    marker() + path
}

/// The form shown to callers: the path without its marker, or the path as it
/// is where it has none.
pub open spec fn external_form(internal: Seq<u16>) -> Seq<u16> {
    if has_marker(internal) {
        internal.skip(4)
    } else {
        internal
    }
}

/// Tells whether `path` starts with the non-parsed marker.
pub fn starts_with_marker(path: &Vec<u16>) -> (found: bool)
    ensures
        found == has_marker(path@),
{
    if path.len() < MARKER_LEN {
        return false;
    }
    let found = path[0] == BACKSLASH && path[1] == QUESTION && path[2] == QUESTION && path[3]
        == BACKSLASH;
    proof {
        let head = path@.subrange(0, 4);
        if found {
            assert(head =~= marker());
        } else {
            assert(head[0] == path@[0] && head[1] == path@[1] && head[2] == path@[2] && head[3]
                == path@[3]);
        }
    }
    found
}

/// Puts the non-parsed marker before an absolute path.
pub fn to_internal(path: &Vec<u16>) -> (internal: Vec<u16>)
    ensures
        internal@ == internal_form(path@),
{
    let mut internal: Vec<u16> = Vec::new();
    internal.push(BACKSLASH);
    internal.push(QUESTION);
    internal.push(QUESTION);
    internal.push(BACKSLASH);
    assert(internal@ =~= marker());
    internal.extend_from_slice(path.as_slice());
    internal
}

/// Takes the non-parsed marker off a stored path; a path that has none comes
/// back as it is.
pub fn to_external(internal: &Vec<u16>) -> (path: Vec<u16>)
    ensures
        path@ == external_form(internal@),
{
    let start: usize = if starts_with_marker(internal) {
        MARKER_LEN
    } else {
        0
    };
    let mut path: Vec<u16> = Vec::new();
    let mut i: usize = start;
    while i < internal.len()
        invariant
            start <= i <= internal.len(),
            path@ == internal@.subrange(start as int, i as int),
        decreases internal.len() - i,
    {
        path.push(internal[i]);
        i += 1;
        assert(path@ =~= internal@.subrange(start as int, i as int));
    }
    assert(path@ =~= internal@.skip(start as int));
    assert(internal@.skip(0) =~= internal@);
    path
}

/// Adding the marker and taking it off again gives the path back.
pub proof fn lemma_external_of_internal(path: Seq<u16>)
    ensures
        has_marker(internal_form(path)),
        external_form(internal_form(path)) == path,
{
    assert(internal_form(path).subrange(0, 4) =~= marker());
    assert(internal_form(path).skip(4) =~= path);
}

} // verus!
