//! The version resolver.
//!
//! The wrapper's own semantic version carries the pinned upstream release
//! tag in its build-metadata segment: everything after the first `+`. That
//! segment is the single source of truth for which upstream snapshot is
//! vendored; there is no separate lockfile. This module extracts it from
//! the rendered version, given as bytes.

use vstd::prelude::*;

verus! {

/// The build-metadata segment of a rendered semantic version: everything
/// after the first `+`, or the empty sequence when no `+` occurs.
pub open spec fn build_segment(v: Seq<u8>) -> Seq<u8>
    decreases v.len(),
{
    if v.len() == 0 {
        Seq::empty()
    } else if v[0] == '+' as u8 {
        v.skip(1)
    } else {
        build_segment(v.skip(1))
    }
}

/// A version without a `+` has no build-metadata segment.
pub proof fn lemma_no_plus_no_segment(v: Seq<u8>)
    requires
        forall|i: int| 0 <= i < v.len() ==> v[i] != '+' as u8,
    ensures
        build_segment(v) == Seq::<u8>::empty(),
    decreases v.len(),
{
    if v.len() > 0 {
        lemma_no_plus_no_segment(v.skip(1));
    }
}

/// Extracts the upstream release tag from the wrapper's rendered version:
/// the bytes after the first `+`. An empty result means the descriptor
/// carries no tag.
pub fn release_tag_of(version: &[u8]) -> (tag: Vec<u8>)
    ensures
        tag@ == build_segment(version@),
{
    let mut i: usize = 0;
    proof {
        assert(version@.skip(0) =~= version@);
    }
    while i < version.len()
        invariant
            0 <= i <= version@.len(),
            forall|j: int| 0 <= j < i ==> version@[j] != '+' as u8,
            build_segment(version@) == build_segment(version@.skip(i as int)),
        decreases version@.len() - i,
    {
        proof {
            assert(version@.skip(i as int).skip(1) =~= version@.skip(i + 1));
        }
        if version[i] == '+' as u8 {
            let mut tag: Vec<u8> = Vec::new();
            let mut j: usize = i + 1;
            while j < version.len()
                invariant
                    i + 1 <= j <= version@.len(),
                    tag@ =~= version@.subrange(i + 1, j as int),
                decreases version@.len() - j,
            {
                tag.push(version[j]);
                j += 1;
            }
            proof {
                assert(version@.skip(i as int)[0] == '+' as u8);
                assert(version@.subrange(i + 1, version@.len() as int)
                    =~= version@.skip(i as int).skip(1));
            }
            return tag;
        }
        i += 1;
    }
    proof {
        assert(version@.skip(i as int) =~= Seq::<u8>::empty());
    }
    Vec::new()
}

} // verus!
