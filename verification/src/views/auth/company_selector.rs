//! The company picker of the login screen: the companies that match what
//! the user typed.

use vstd::prelude::*;
use crate::models::company::Company;
use crate::utils::text::{contains, lowercase_of, seq_contains, to_lowercase};

verus! {

/// A company matches a search (already in lower case) when the lower-case
/// form of its name or of its code contains it.
pub open spec fn company_matches(c: Company, query: Seq<char>) -> bool {
    seq_contains(lowercase_of(c.name@), query) || seq_contains(lowercase_of(c.code@), query)
}

/// The companies shown for what the user typed: all of them for an empty
/// search, else those whose name or code, in lower case, contains the
/// search in lower case, in order.
pub fn filter_companies(companies: &Vec<Company>, search: &str) -> (r: Vec<Company>)
    ensures
        search@.len() == 0 ==> r@.len() == companies@.len() && forall|i: int| 0 <= i < r@.len()
            ==> (#[trigger] r@[i]).code@ == companies@[i].code@ && r@[i].name@ == companies@[i].name@,
        search@.len() > 0 ==> r@.len() == companies@.filter(|c: Company| company_matches(c, lowercase_of(search@))).len()
            && forall|i: int| 0 <= i < r@.len() ==> (#[trigger] r@[i]).code@
                == companies@.filter(|c: Company| company_matches(c, lowercase_of(search@)))[i].code@
                && r@[i].name@ == companies@.filter(|c: Company| company_matches(c, lowercase_of(search@)))[i].name@,
{
    let mut out: Vec<Company> = Vec::new();
    if search.is_empty() {
        let mut i: usize = 0;
        while i < companies.len()
            invariant
                i <= companies@.len(),
                out@.len() == i,
                forall|j: int| 0 <= j < i ==> (#[trigger] out@[j]).code@ == companies@[j].code@
                    && out@[j].name@ == companies@[j].name@,
            decreases companies@.len() - i,
        {
            let c = &companies[i];
            out.push(Company { code: c.code.clone(), name: c.name.clone() });
            i += 1;
        }
        return out;
    }
    let query = to_lowercase(search);
    let ghost q = query@;
    let ghost keep = |c: Company| company_matches(c, q);
    proof {
        reveal(Seq::filter);
    }
    let mut i: usize = 0;
    while i < companies.len()
        invariant
            i <= companies@.len(),
            q == query@,
            keep == (|c: Company| company_matches(c, q)),
            out@.len() == companies@.subrange(0, i as int).filter(keep).len(),
            forall|j: int| 0 <= j < out@.len() ==> (#[trigger] out@[j]).code@ == companies@.subrange(0, i as int).filter(keep)[j].code@
                && out@[j].name@ == companies@.subrange(0, i as int).filter(keep)[j].name@,
        decreases companies@.len() - i,
    {
        let c = &companies[i];
        let ghost sub = companies@.subrange(0, i as int);
        proof {
            assert(companies@.subrange(0, i as int + 1) =~= sub.push(*c));
            sub.lemma_filter_push(*c, keep);
        }
        let name = to_lowercase(c.name.as_str());
        let code = to_lowercase(c.code.as_str());
        if contains(name.as_str(), query.as_str()) || contains(code.as_str(), query.as_str()) {
            out.push(Company { code: c.code.clone(), name: c.name.clone() });
        }
        i += 1;
    }
    assert(companies@.subrange(0, companies@.len() as int) =~= companies@);
    out
}

/// A company is shown for a non-empty search exactly when its name or its
/// code, in lower case, contains the search in lower case; the companies
/// shown keep their order.
pub proof fn law_company_search(companies: Seq<Company>, c: Company, query: Seq<char>)
    ensures
        companies.push(c).filter(|x: Company| company_matches(x, query)) == if
            seq_contains(lowercase_of(c.name@), query) || seq_contains(lowercase_of(c.code@), query) {
            companies.filter(|x: Company| company_matches(x, query)).push(c)
        } else {
            companies.filter(|x: Company| company_matches(x, query))
        },
{
    reveal(Seq::filter);
    companies.lemma_filter_push(c, |x: Company| company_matches(x, query));
}

} // verus!
