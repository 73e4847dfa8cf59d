//! Directory scanning: turning a raw directory listing into the candidate
//! list of image files.
//!
//! Listing a directory is the caller's job; this module keeps, from the
//! entries the caller hands over, exactly those whose file name carries the
//! accepted image extension, in the order they were enumerated.

use vstd::prelude::*;

use crate::paths::is_candidate;
use crate::paths::is_png_path;

verus! {

/// The candidate list a directory listing gives rise to: the entries with
/// the accepted image extension, in enumeration order.
pub open spec fn candidates_of(entries: Seq<Seq<u8>>) -> Seq<Seq<u8>> {
    entries.filter(|p: Seq<u8>| is_candidate(p))
}

/// Filtering one more entry keeps the list unchanged unless the entry is a
/// candidate, in which case it is appended.
proof fn lemma_candidates_push(s: Seq<Seq<u8>>, x: Seq<u8>)
    ensures
        candidates_of(s.push(x)) == if is_candidate(x) {
            candidates_of(s).push(x)
        } else {
            candidates_of(s)
        },
{
    reveal(Seq::filter);
    assert(s.push(x).drop_last() =~= s);
    assert(s.push(x).last() == x);
}

/// Scanning the same directory listing twice yields the same candidate
/// list: the scan is a pure function of the entries it is given.
pub proof fn lemma_scan_deterministic(first: Seq<Seq<u8>>, second: Seq<Seq<u8>>)
    requires
        first == second,
    ensures
        candidates_of(first) == candidates_of(second),
{
}

/// The candidate list of `entries`: every entry carrying the accepted image
/// extension, in enumeration order.
pub fn scan_candidates(entries: &Vec<Vec<u8>>) -> (r: Vec<Vec<u8>>)
    ensures
        r.deep_view() == candidates_of(entries.deep_view()),
        forall|i: int| 0 <= i < r@.len() ==> is_candidate(#[trigger] r@[i]@),
{
    let ghost all = entries.deep_view();
    let mut r: Vec<Vec<u8>> = Vec::new();
    proof {
        assert(all.subrange(0, 0) =~= Seq::<Seq<u8>>::empty());
        assert(candidates_of(Seq::<Seq<u8>>::empty()) =~= Seq::<Seq<u8>>::empty()) by {
            reveal(Seq::filter);
        }
    }
    let mut j: usize = 0;
    while j < entries.len()
        invariant
            j <= entries@.len(),
            all == entries.deep_view(),
            r.deep_view() == candidates_of(all.subrange(0, j as int)),
            forall|i: int| 0 <= i < r@.len() ==> is_candidate(#[trigger] r@[i]@),
        decreases entries@.len() - j,
    {
        let entry = &entries[j];
        proof {
            assert(all[j as int] =~= entry@);
            assert(all.subrange(0, j + 1) =~= all.subrange(0, j as int).push(entry@));
            lemma_candidates_push(all.subrange(0, j as int), entry@);
        }
        let ghost pre = r.deep_view();
        if is_png_path(entry) {
            let copy = crate::paths::clone_bytes(entry);
            r.push(copy);
            proof {
                assert(r.deep_view() =~= pre.push(entry@));
            }
        }
        j = j + 1;
    }
    proof {
        assert(all.subrange(0, all.len() as int) =~= all);
    }
    r
}

} // verus!
