//! Searching byte strings: what the classification of failures and the check
//! of a request's scheme are built on.

use vstd::prelude::*;

verus! {

/// `needle` stands in `hay` at offset `at`.
pub open spec fn occurs_at(needle: Seq<u8>, hay: Seq<u8>, at: int) -> bool {
    &&& 0 <= at
    &&& at + needle.len() <= hay.len()
    &&& hay.subrange(at, at + needle.len()) == needle
}

/// `needle` stands somewhere in `hay`.
pub open spec fn occurs_in(needle: Seq<u8>, hay: Seq<u8>) -> bool {
    exists|at: int| occurs_at(needle, hay, at)
}

/// The lower-case form of an ASCII letter; every other byte is itself.
pub open spec fn lower(b: u8) -> u8 {
    if 65 <= b <= 90 {
        (b + 32) as u8
    } else {
        b
    }
}

/// `hay` begins with `prefix`, ASCII letters compared without regard to case.
pub open spec fn begins_with_folded(hay: Seq<u8>, prefix: Seq<u8>) -> bool {
    &&& prefix.len() <= hay.len()
    &&& forall|i: int| 0 <= i < prefix.len() ==> lower(#[trigger] hay[i]) == lower(prefix[i])
}

pub fn to_lower(b: u8) -> (r: u8)
    ensures
        r == lower(b),
{
    if 65 <= b && b <= 90 {
        b + 32
    } else {
        b
    }
}

/// Whether `hay` begins with `prefix`, ASCII letters compared without regard
/// to case.
pub fn has_prefix_folded(hay: &[u8], prefix: &[u8]) -> (r: bool)
    ensures
        r == begins_with_folded(hay@, prefix@),
{
    if prefix.len() > hay.len() {
        return false;
    }
    let mut i: usize = 0;
    while i < prefix.len()
        invariant
            prefix@.len() <= hay@.len(),
            i <= prefix@.len(),
            forall|j: int| 0 <= j < i ==> lower(#[trigger] hay@[j]) == lower(prefix@[j]),
        decreases prefix@.len() - i,
    {
        if to_lower(hay[i]) != to_lower(prefix[i]) {
            return false;
        }
        i += 1;
    }
    true
}

/// Whether `needle` stands in `hay` at offset `at`.
pub fn matches_at(hay: &[u8], needle: &[u8], at: usize) -> (r: bool)
    ensures
        r == occurs_at(needle@, hay@, at as int),
{
    if at > hay.len() || needle.len() > hay.len() - at {
        return false;
    }
    let mut k: usize = 0;
    while k < needle.len()
        invariant
            at + needle@.len() <= hay@.len() <= usize::MAX,
            k <= needle@.len(),
            forall|j: int| 0 <= j < k ==> hay@[at + j] == needle@[j],
        decreases needle@.len() - k,
    {
        if hay[at + k] != needle[k] {
            proof {
                let window = hay@.subrange(at as int, at + needle@.len());
                assert(window[k as int] == hay@[at + k]);
            }
            return false;
        }
        k += 1;
    }
    assert(hay@.subrange(at as int, at + needle@.len()) =~= needle@);
    true
}

/// The first offset at which `needle` stands in `hay`, if there is one.
pub fn find(hay: &[u8], needle: &[u8]) -> (r: Option<usize>)
    ensures
        match r {
            Some(at) => occurs_at(needle@, hay@, at as int) && forall|j: int|
                0 <= j < at ==> !occurs_at(needle@, hay@, j),
            None => !occurs_in(needle@, hay@),
        },
{
    if needle.len() > hay.len() {
        return None;
    }
    let last: usize = hay.len() - needle.len();
    let mut at: usize = 0;
    loop
        invariant
            last == hay@.len() - needle@.len(),
            at <= last,
            forall|j: int| 0 <= j < at ==> !occurs_at(needle@, hay@, j),
        decreases last - at,
    {
        if matches_at(hay, needle, at) {
            return Some(at);
        }
        if at == last {
            return None;
        }
        at += 1;
    }
}

/// Whether `needle` stands somewhere in `hay`.
pub fn contains(hay: &[u8], needle: &[u8]) -> (r: bool)
    ensures
        r == occurs_in(needle@, hay@),
{
    find(hay, needle).is_some()
}

/// Text added before and after does not hide what stood in the middle.
pub proof fn occurrence_survives_padding(
    needle: Seq<u8>,
    hay: Seq<u8>,
    before: Seq<u8>,
    after: Seq<u8>,
)
    requires
        occurs_in(needle, hay),
    ensures
        occurs_in(needle, before + hay + after),
{
    let at = choose|at: int| occurs_at(needle, hay, at);
    let whole = before + hay + after;
    let shifted = before.len() + at;
    assert(whole.subrange(shifted, shifted + needle.len()) =~= hay.subrange(
        at,
        at + needle.len(),
    ));
    assert(occurs_at(needle, whole, shifted));
}

} // verus!
