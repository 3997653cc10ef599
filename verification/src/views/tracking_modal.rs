//! The tracking-code picker: the codes that match what the user typed.

use vstd::prelude::*;
use crate::utils::text::{contains, lowercase_of, seq_contains, to_lowercase};

verus! {

/// A code matches a search (already in lower case) when its lower-case
/// form contains it.
pub open spec fn matches_search(code: Seq<char>, query: Seq<char>) -> bool {
    seq_contains(lowercase_of(code), query)
}

/// The codes shown for what the user typed: all of them for an empty
/// search, else those whose lower-case form contains the search in lower
/// case, in order.
pub fn filter_trackings(trackings: &Vec<String>, input: &str) -> (r: Vec<String>)
    ensures
        lowercase_of(input@).len() == 0 ==> r@ == trackings@,
        lowercase_of(input@).len() > 0 ==> r@ == trackings@.filter(|t: String| matches_search(t@, lowercase_of(input@))),
{
    let query = to_lowercase(input);
    if query.as_str().is_empty() {
        let mut all: Vec<String> = Vec::new();
        let mut i: usize = 0;
        while i < trackings.len()
            invariant
                i <= trackings@.len(),
                all@ == trackings@.subrange(0, i as int),
            decreases trackings@.len() - i,
        {
            all.push(trackings[i].clone());
            i += 1;
            assert(all@ =~= trackings@.subrange(0, i as int));
        }
        assert(trackings@.subrange(0, trackings@.len() as int) =~= trackings@);
        return all;
    }
    let ghost q = query@;
    let ghost keep = |t: String| matches_search(t@, q);
    let mut out: Vec<String> = Vec::new();
    let mut i: usize = 0;
    proof {
        reveal(Seq::filter);
    }
    while i < trackings.len()
        invariant
            i <= trackings@.len(),
            q == query@,
            keep == (|t: String| matches_search(t@, q)),
            out@ == trackings@.subrange(0, i as int).filter(keep),
        decreases trackings@.len() - i,
    {
        let t = &trackings[i];
        proof {
            let sub = trackings@.subrange(0, i as int);
            assert(trackings@.subrange(0, i as int + 1) =~= sub.push(*t));
            sub.lemma_filter_push(*t, keep);
        }
        let lower = to_lowercase(t.as_str());
        if contains(lower.as_str(), query.as_str()) {
            out.push(t.clone());
        }
        i += 1;
    }
    assert(trackings@.subrange(0, trackings@.len() as int) =~= trackings@);
    out
}

/// A code is shown for a non-empty search exactly when its lower-case form
/// contains the search in lower case; the codes shown keep their order.
pub proof fn law_tracking_search(trackings: Seq<String>, t: String, query: Seq<char>)
    ensures
        trackings.push(t).filter(|x: String| matches_search(x@, query)) == if seq_contains(lowercase_of(t@), query) {
            trackings.filter(|x: String| matches_search(x@, query)).push(t)
        } else {
            trackings.filter(|x: String| matches_search(x@, query))
        },
{
    reveal(Seq::filter);
    trackings.lemma_filter_push(t, |x: String| matches_search(x@, query));
}

} // verus!
