//! Grouping of a session's packages by delivery address, in route order.

use vstd::prelude::*;
use crate::models::session::SessionPackage;
use crate::utils::text::str_eq;

verus! {

/// The route position of a package as an integer.
pub open spec fn key_of(p: SessionPackage) -> int {
    p.spec_order_key() as int
}

/// Route positions never decrease along `s`.
pub open spec fn sorted_by_key(s: Seq<SessionPackage>) -> bool {
    forall|i: int, j: int| 0 <= i < j < s.len() ==> key_of(s[i]) <= key_of(s[j])
}

/// The packages at route position `k`.
pub open spec fn with_key(k: int) -> spec_fn(SessionPackage) -> bool {
    |p: SessionPackage| key_of(p) == k
}

/// The packages delivered to the address `a`.
pub open spec fn at_address(a: Seq<char>) -> spec_fn(SessionPackage) -> bool {
    |p: SessionPackage| p.address_id@ == a
}

/// `t` is `s` sorted by route position, packages of equal position keeping
/// their order in `s`.
pub open spec fn is_stable_sort_of(t: Seq<SessionPackage>, s: Seq<SessionPackage>) -> bool {
    &&& sorted_by_key(t)
    &&& forall|k: int| #[trigger] t.filter(with_key(k)) == s.filter(with_key(k))
}

/// A filter that keeps nothing gives the empty sequence.
proof fn lemma_filter_none<A>(s: Seq<A>, p: spec_fn(A) -> bool)
    requires
        forall|i: int| 0 <= i < s.len() ==> !p(s[i]),
    ensures
        s.filter(p) == Seq::<A>::empty(),
    decreases s.len(),
{
    reveal(Seq::filter);
    if s.len() > 0 {
        lemma_filter_none(s.drop_last(), p);
    }
}

/// Two filters can be applied in either order.
proof fn lemma_filter_commute<A>(s: Seq<A>, p: spec_fn(A) -> bool, q: spec_fn(A) -> bool)
    ensures
        s.filter(p).filter(q) == s.filter(q).filter(p),
    decreases s.len(),
{
    if s.len() > 0 {
        let init = s.drop_last();
        let x = s.last();
        lemma_filter_commute(init, p, q);
        assert(init.push(x) =~= s);
        init.lemma_filter_push(x, p);
        init.lemma_filter_push(x, q);
        init.filter(p).lemma_filter_push(x, q);
        init.filter(q).lemma_filter_push(x, p);
    } else {
        reveal(Seq::filter);
    }
}

/// Inserting `x` after the packages of position at most its own keeps the
/// sequence sorted and appends `x` to the packages of its position.
proof fn lemma_insert_sorted(t: Seq<SessionPackage>, pos: int, x: SessionPackage)
    requires
        sorted_by_key(t),
        0 <= pos <= t.len(),
        forall|j: int| 0 <= j < pos ==> key_of(t[j]) <= key_of(x),
        forall|j: int| pos <= j < t.len() ==> key_of(t[j]) > key_of(x),
    ensures
        sorted_by_key(t.insert(pos, x)),
        forall|k: int| #[trigger] t.insert(pos, x).filter(with_key(k))
            == if k == key_of(x) { t.filter(with_key(k)).push(x) } else { t.filter(with_key(k)) },
{
    let t2 = t.insert(pos, x);
    let a = t.subrange(0, pos);
    let b = t.subrange(pos, t.len() as int);
    assert(t2 =~= a.push(x) + b);
    assert(t =~= a + b);
    assert forall|i: int, j: int| 0 <= i < j < t2.len() implies key_of(t2[i]) <= key_of(t2[j]) by {
        if j < pos {
        } else if j == pos {
        } else if i < pos {
        } else if i == pos {
        } else {
        }
    }
    assert forall|k: int| #[trigger] t2.filter(with_key(k))
        == if k == key_of(x) { t.filter(with_key(k)).push(x) } else { t.filter(with_key(k)) } by {
        let f = with_key(k);
        Seq::filter_distributes_over_add(a.push(x), b, f);
        Seq::filter_distributes_over_add(a, b, f);
        a.lemma_filter_push(x, f);
        if k == key_of(x) {
            lemma_filter_none(b, f);
            assert(b.filter(f) == Seq::<SessionPackage>::empty());
            assert(a.filter(f).push(x) + b.filter(f) =~= a.filter(f).push(x));
            assert(a.filter(f) + b.filter(f) =~= a.filter(f));
        } else {
            assert(a.filter(f) + b.filter(f) =~= a.filter(f) + b.filter(f));
        }
    }
}

/// The packages sorted by route position; packages of equal position keep
/// their relative order.
pub fn sort_by_route_order(packages: &Vec<SessionPackage>) -> (r: Vec<SessionPackage>)
    ensures
        is_stable_sort_of(r@, packages@),
{
    let mut out: Vec<SessionPackage> = Vec::new();
    let mut i: usize = 0;
    proof {
        assert(packages@.subrange(0, 0) =~= Seq::<SessionPackage>::empty());
        reveal(Seq::filter);
    }
    while i < packages.len()
        invariant
            i <= packages@.len(),
            is_stable_sort_of(out@, packages@.subrange(0, i as int)),
        decreases packages@.len() - i,
    {
        let x = packages[i].duplicate();
        let kx = x.order_key();
        let mut pos: usize = 0;
        while pos < out.len() && out[pos].order_key() <= kx
            invariant
                pos <= out@.len(),
                forall|j: int| 0 <= j < pos ==> key_of(out@[j]) <= kx,
            decreases out@.len() - pos,
        {
            pos += 1;
        }
        proof {
            assert forall|j: int| pos <= j < out@.len() implies key_of(out@[j]) > key_of(x) by {
                if pos < out@.len() {
                    assert(key_of(out@[pos as int]) > kx);
                }
            }
            lemma_insert_sorted(out@, pos as int, x);
            let sub = packages@.subrange(0, i as int);
            assert(packages@.subrange(0, i + 1) =~= sub.push(x));
            assert forall|k: int| #[trigger] sub.push(x).filter(with_key(k))
                == if k == key_of(x) { sub.filter(with_key(k)).push(x) } else { sub.filter(with_key(k)) } by {
                sub.lemma_filter_push(x, with_key(k));
            }
        }
        out.insert(pos, x);
        i += 1;
    }
    assert(packages@.subrange(0, packages@.len() as int) =~= packages@);
    out
}

/// The packages of one delivery address.
pub struct PackageGroup {
    pub title: String,
    pub count: usize,
    pub packages: Vec<SessionPackage>,
}

/// Some entry of `titles` reads `a`.
pub open spec fn has_title(titles: Seq<String>, a: Seq<char>) -> bool {
    exists|i: int| 0 <= i < titles.len() && (#[trigger] titles[i])@ == a
}

/// Position of the first title equal to `a`.
fn find_title(titles: &Vec<String>, a: &str) -> (r: Option<usize>)
    ensures
        match r {
            Some(i) => i < titles@.len() && titles@[i as int]@ == a@,
            None => forall|i: int| 0 <= i < titles@.len() ==> titles@[i]@ != a@,
        },
{
    let mut i: usize = 0;
    while i < titles.len()
        invariant
            i <= titles@.len(),
            forall|j: int| 0 <= j < i ==> titles@[j]@ != a@,
        decreases titles@.len() - i,
    {
        if str_eq(titles[i].as_str(), a) {
            return Some(i);
        }
        i += 1;
    }
    None
}

/// The addresses of `sorted` in the order of their first package, with the
/// index of that first package.
fn distinct_addresses(sorted: &Vec<SessionPackage>) -> (r: (Vec<String>, Ghost<Seq<int>>))
    ensures
        r.0@.len() == r.1@.len(),
        forall|i: int| 0 <= i < r.1@.len() ==> 0 <= #[trigger] r.1@[i] < sorted@.len()
            && r.0@[i]@ == sorted@[r.1@[i]].address_id@,
        forall|i1: int, i2: int| 0 <= i1 < i2 < r.1@.len() ==> r.1@[i1] < r.1@[i2],
        forall|i1: int, i2: int| 0 <= i1 < i2 < r.0@.len() ==> r.0@[i1]@ != r.0@[i2]@,
        forall|m: int| 0 <= m < sorted@.len() ==> has_title(r.0@, (#[trigger] sorted@[m]).address_id@),
        forall|i: int, m: int| 0 <= i < r.1@.len() && 0 <= m < r.1@[i]
            ==> (#[trigger] sorted@[m]).address_id@ != (#[trigger] r.0@[i])@,
{
    let n = sorted.len();
    let mut titles: Vec<String> = Vec::new();
    let ghost mut firsts: Seq<int> = Seq::empty();
    let mut j: usize = 0;
    while j < n
        invariant
            j <= n,
            n == sorted@.len(),
            titles@.len() == firsts.len(),
            forall|i: int| 0 <= i < firsts.len() ==> 0 <= #[trigger] firsts[i] < j
                && titles@[i]@ == sorted@[firsts[i]].address_id@,
            forall|i1: int, i2: int| 0 <= i1 < i2 < firsts.len() ==> firsts[i1] < firsts[i2],
            forall|i1: int, i2: int| 0 <= i1 < i2 < titles@.len() ==> titles@[i1]@ != titles@[i2]@,
            forall|m: int| 0 <= m < j ==> has_title(titles@, (#[trigger] sorted@[m]).address_id@),
            forall|i: int, m: int| 0 <= i < firsts.len() && 0 <= m < firsts[i]
                ==> (#[trigger] sorted@[m]).address_id@ != (#[trigger] titles@[i])@,
        decreases n - j,
    {
        let a = &sorted[j].address_id;
        let ghost old_titles = titles@;
        let ghost old_firsts = firsts;
        match find_title(&titles, a.as_str()) {
            Some(i) => {
                assert(titles@[i as int]@ == sorted@[j as int].address_id@);
            },
            None => {
                titles.push(a.clone());
                proof {
                    firsts = firsts.push(j as int);
                    assert(titles@[titles@.len() - 1]@ == sorted@[j as int].address_id@);
                    assert forall|i: int, m: int| 0 <= i < firsts.len() && 0 <= m < firsts[i]
                        implies (#[trigger] sorted@[m]).address_id@ != (#[trigger] titles@[i])@ by {
                        if i < old_firsts.len() {
                            assert(titles@[i] == old_titles[i]);
                            assert(firsts[i] == old_firsts[i]);
                        } else {
                            let i0 = choose|i0: int| 0 <= i0 < old_titles.len()
                                && (#[trigger] old_titles[i0])@ == sorted@[m].address_id@;
                        }
                    }
                }
            },
        }
        proof {
            assert forall|m: int| 0 <= m < j + 1 implies has_title(titles@, (#[trigger] sorted@[m]).address_id@) by {
                if m < j {
                    let i0 = choose|i0: int| 0 <= i0 < old_titles.len()
                        && (#[trigger] old_titles[i0])@ == sorted@[m].address_id@;
                    assert(titles@[i0] == old_titles[i0]);
                }
            }
        }
        j += 1;
    }
    (titles, Ghost(firsts))
}

/// `groups` groups `packages` by delivery address: one group per address,
/// holding all packages of that address sorted by route position (equal
/// positions in input order), the count of each group its length, groups
/// ordered by the route position of their first package.
pub open spec fn address_groups(groups: Seq<PackageGroup>, packages: Seq<SessionPackage>) -> bool {
    &&& forall|i: int| 0 <= i < groups.len() ==> {
        &&& (#[trigger] groups[i]).count == groups[i].packages@.len()
        &&& groups[i].packages@.len() > 0
        &&& is_stable_sort_of(groups[i].packages@, packages.filter(at_address(groups[i].title@)))
        &&& forall|m: int| 0 <= m < groups[i].packages@.len() ==> groups[i].packages@[m].address_id@ == groups[i].title@
    }
    &&& forall|i: int, j: int| 0 <= i < j < groups.len() ==> groups[i].title@ != groups[j].title@
    &&& forall|m: int| #![trigger packages[m]] 0 <= m < packages.len() ==>
        exists|i: int| 0 <= i < groups.len() && (#[trigger] groups[i]).title@ == packages[m].address_id@
    &&& forall|i: int, j: int| 0 <= i < j < groups.len() ==>
        key_of(groups[i].packages@[0]) <= key_of(groups[j].packages@[0])
}

/// The packages grouped by delivery address. Each group holds all packages
/// of its address, sorted by route position (equal positions in input
/// order); groups are ordered by the route position of their first package.
pub fn group_packages_by_address(packages: Vec<SessionPackage>) -> (r: Vec<PackageGroup>)
    ensures
        address_groups(r@, packages@),
{
    let sorted = sort_by_route_order(&packages);
    let n = sorted.len();

    let (titles, Ghost(firsts)) = distinct_addresses(&sorted);

    // One group per address.
    let mut groups: Vec<PackageGroup> = Vec::new();
    let mut g: usize = 0;
    while g < titles.len()
        invariant
            g <= titles@.len(),
            n == sorted@.len(),
            is_stable_sort_of(sorted@, packages@),
            titles@.len() == firsts.len(),
            forall|i: int| 0 <= i < firsts.len() ==> 0 <= #[trigger] firsts[i] < n
                && titles@[i]@ == sorted@[firsts[i]].address_id@,
            forall|i1: int, i2: int| 0 <= i1 < i2 < firsts.len() ==> firsts[i1] < firsts[i2],
            forall|i: int, m: int| 0 <= i < firsts.len() && 0 <= m < firsts[i]
                ==> (#[trigger] sorted@[m]).address_id@ != (#[trigger] titles@[i])@,
            groups@.len() == g,
            forall|i: int| 0 <= i < g ==> {
                &&& (#[trigger] groups@[i]).title@ == titles@[i]@
                &&& groups@[i].count == groups@[i].packages@.len()
                &&& groups@[i].packages@.len() > 0
                &&& groups@[i].packages@[0] == sorted@[firsts[i]]
                &&& is_stable_sort_of(groups@[i].packages@, packages@.filter(at_address(titles@[i]@)))
                &&& forall|m: int| 0 <= m < groups@[i].packages@.len() ==> groups@[i].packages@[m].address_id@ == titles@[i]@
            },
        decreases titles@.len() - g,
    {
        let title = &titles[g];
        let ghost a = title@;
        let ghost f = firsts[g as int];
        let mut list: Vec<SessionPackage> = Vec::new();
        let ghost mut last_j: int = 0;
        let mut k: usize = 0;
        proof {
            assert(sorted@.subrange(0, 0) =~= Seq::<SessionPackage>::empty());
            reveal(Seq::filter);
        }
        while k < n
            invariant
                k <= n,
                n == sorted@.len(),
                title@ == a,
                0 <= f < n,
                sorted@[f].address_id@ == a,
                forall|m: int| 0 <= m < f ==> sorted@[m].address_id@ != a,
                sorted_by_key(sorted@),
                list@ == sorted@.subrange(0, k as int).filter(at_address(a)),
                sorted_by_key(list@),
                k > f ==> list@.len() > 0 && list@[0] == sorted@[f],
                k <= f ==> list@.len() == 0,
                list@.len() > 0 ==> 0 <= last_j < k && list@.last() == sorted@[last_j],
            decreases n - k,
        {
            let x = &sorted[k];
            proof {
                let sub = sorted@.subrange(0, k as int);
                assert(sorted@.subrange(0, k + 1) =~= sub.push(*x));
                sub.lemma_filter_push(*x, at_address(a));
            }
            if str_eq(x.address_id.as_str(), title.as_str()) {
                let ghost before = list@;
                list.push(x.duplicate());
                proof {
                    if before.len() > 0 {
                        assert(key_of(sorted@[last_j]) <= key_of(sorted@[k as int]));
                    }
                    assert forall|i1: int, i2: int| 0 <= i1 < i2 < list@.len()
                        implies key_of(list@[i1]) <= key_of(list@[i2]) by {
                        if i2 == list@.len() - 1 {
                            assert(key_of(before[i1]) <= key_of(before.last()));
                        }
                    }
                    last_j = k as int;
                }
            }
            k += 1;
        }
        proof {
            assert(sorted@.subrange(0, n as int) =~= sorted@);
            assert forall|kk: int| #[trigger] list@.filter(with_key(kk))
                == packages@.filter(at_address(a)).filter(with_key(kk)) by {
                lemma_filter_commute(sorted@, at_address(a), with_key(kk));
                lemma_filter_commute(packages@, at_address(a), with_key(kk));
            }
            assert forall|m: int| 0 <= m < list@.len() implies list@[m].address_id@ == a by {
                sorted@.lemma_filter_pred(at_address(a), m);
            }
        }
        let count = list.len();
        groups.push(PackageGroup { title: title.clone(), count, packages: list });
        g += 1;
    }
    proof {
        assert forall|m: int| #![trigger packages@[m]] 0 <= m < packages@.len() implies
            exists|i: int| 0 <= i < groups@.len() && (#[trigger] groups@[i]).title@ == packages@[m].address_id@ by {
            let p = packages@[m];
            let wk = with_key(key_of(p));
            packages@.lemma_filter_contains(wk, m);
            assert(packages@.filter(wk).contains(p));
            assert(sorted@.filter(wk) == packages@.filter(wk));
            sorted@.lemma_filter_contains_rev(wk, p);
            let idx = choose|idx: int| 0 <= idx < sorted@.len() && sorted@[idx] == p;
            let i = choose|i: int| 0 <= i < titles@.len() && (#[trigger] titles@[i])@ == sorted@[idx].address_id@;
            assert(groups@[i].title@ == p.address_id@);
        }
        assert forall|i: int, j2: int| 0 <= i < j2 < groups@.len() implies
            key_of(groups@[i].packages@[0]) <= key_of(groups@[j2].packages@[0]) by {
            assert(firsts[i] < firsts[j2]);
        }
    }
    groups
}

} // verus!
