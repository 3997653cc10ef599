//! Decisions of the driver's main view: the bottom sheet's height, the
//! package filter, the lookup of a scanned tracking code, and the manual
//! reordering of stops.

use vstd::prelude::*;
use crate::models::session::{DeliverySession, SessionPackage};
use crate::models::strmap::{StrMap, lookup};
use crate::models::sync::Change;
use crate::utils::text::{contains, lowercase_of, seq_contains, seq_starts_with, starts_with, str_eq, to_lowercase};
use crate::views::package_list::{PackageGroup, address_groups, group_packages_by_address};
use crate::state::app_state::AppState;

verus! {

/// The height the bottom sheet takes after `current` when the user taps
/// its handle: collapsed, then half, then full, then collapsed again.
pub open spec fn spec_next_sheet_state(current: Seq<char>) -> Seq<char> {
    if current == "collapsed"@ {
        "half"@
    } else if current == "half"@ {
        "full"@
    } else {
        "collapsed"@
    }
}

/// The next height of the bottom sheet.
pub fn next_sheet_state(current: &str) -> (r: String)
    ensures
        r@ == spec_next_sheet_state(current@),
{
    if str_eq(current, "collapsed") {
        String::from_str("half")
    } else if str_eq(current, "half") {
        String::from_str("full")
    } else {
        String::from_str("collapsed")
    }
}

/// Three taps bring the sheet back to the height it had; from any height,
/// one tap lands on one of the three heights.
pub proof fn law_sheet_cycle(s: Seq<char>)
    ensures
        spec_next_sheet_state(s) == "collapsed"@ || spec_next_sheet_state(s) == "half"@
            || spec_next_sheet_state(s) == "full"@,
        (s == "collapsed"@ || s == "half"@ || s == "full"@) ==>
            spec_next_sheet_state(spec_next_sheet_state(spec_next_sheet_state(s))) == s,
{
    reveal_strlit("collapsed");
    reveal_strlit("half");
    reveal_strlit("full");
    assert("half"@ != "collapsed"@) by {
        assert("half"@.len() != "collapsed"@.len());
    }
    assert("full"@ != "collapsed"@) by {
        assert("full"@.len() != "collapsed"@.len());
    }
    assert("full"@ != "half"@) by {
        assert("full"@[0] != "half"@[0]);
    }
}

/// Height of the header, in pixels, as text.
pub fn get_header_height() -> (r: String)
    ensures
        r@ == "60"@,
{
    String::from_str("60")
}

/// Some package of the group has tracking code `tracking`.
pub open spec fn group_has_tracking(g: PackageGroup, tracking: Seq<char>) -> bool {
    exists|j: int| 0 <= j < g.packages@.len() && (#[trigger] g.packages@[j]).tracking@ == tracking
}

/// Whether some package of the group has tracking code `tracking`.
fn has_tracking(g: &PackageGroup, tracking: &str) -> (r: bool)
    ensures
        r == group_has_tracking(*g, tracking@),
{
    let mut j: usize = 0;
    while j < g.packages.len()
        invariant
            j <= g.packages@.len(),
            forall|k: int| 0 <= k < j ==> g.packages@[k].tracking@ != tracking@,
        decreases g.packages@.len() - j,
    {
        if str_eq(g.packages[j].tracking.as_str(), tracking) {
            return true;
        }
        j += 1;
    }
    false
}

/// Index of the first group holding a package with tracking code
/// `tracking`.
pub fn find_group_idx_by_tracking(tracking: &str, groups: &[PackageGroup]) -> (r: Option<usize>)
    ensures
        match r {
            Some(i) => i < groups@.len() && group_has_tracking(groups@[i as int], tracking@)
                && forall|k: int| 0 <= k < i ==> !group_has_tracking(#[trigger] groups@[k], tracking@),
            None => forall|k: int| 0 <= k < groups@.len() ==> !group_has_tracking(#[trigger] groups@[k], tracking@),
        },
{
    let mut i: usize = 0;
    while i < groups.len()
        invariant
            i <= groups@.len(),
            forall|k: int| 0 <= k < i ==> !group_has_tracking(#[trigger] groups@[k], tracking@),
        decreases groups@.len() - i,
    {
        if has_tracking(&groups[i], tracking) {
            return Some(i);
        }
        i += 1;
    }
    None
}

/// A package the filter keeps: its status starts with `STATUT_CHARGER`.
pub open spec fn loaded_package() -> spec_fn(SessionPackage) -> bool {
    |p: SessionPackage| seq_starts_with(p.status@, "STATUT_CHARGER"@)
}

/// The groups restricted to loaded packages, in order, without the groups
/// left empty.
pub open spec fn loaded_groups(groups: Seq<PackageGroup>) -> Seq<(Seq<char>, Seq<SessionPackage>)>
    decreases groups.len(),
{
    if groups.len() == 0 {
        seq![]
    } else {
        let rest = loaded_groups(groups.drop_last());
        let kept = groups.last().packages@.filter(loaded_package());
        if kept.len() > 0 {
            rest.push((groups.last().title@, kept))
        } else {
            rest
        }
    }
}

/// The title and packages of each group.
pub open spec fn groups_view(groups: Seq<PackageGroup>) -> Seq<(Seq<char>, Seq<SessionPackage>)> {
    groups.map_values(|g: PackageGroup| (g.title@, g.packages@))
}

/// The loaded packages of one list.
fn loaded_packages(packages: &Vec<SessionPackage>) -> (r: Vec<SessionPackage>)
    ensures
        r@ == packages@.filter(loaded_package()),
{
    let mut out: Vec<SessionPackage> = Vec::new();
    let mut i: usize = 0;
    proof {
        reveal(Seq::filter);
        assert(packages@.subrange(0, 0) =~= Seq::<SessionPackage>::empty());
    }
    while i < packages.len()
        invariant
            i <= packages@.len(),
            out@ == packages@.subrange(0, i as int).filter(loaded_package()),
        decreases packages@.len() - i,
    {
        let p = &packages[i];
        proof {
            let sub = packages@.subrange(0, i as int);
            assert(packages@.subrange(0, i + 1) =~= sub.push(*p));
            sub.lemma_filter_push(*p, loaded_package());
        }
        if starts_with(p.status.as_str(), "STATUT_CHARGER") {
            out.push(p.duplicate());
        }
        i += 1;
    }
    assert(packages@.subrange(0, packages@.len() as int) =~= packages@);
    out
}

/// With the filter on, each group keeps only its loaded packages (status
/// starting with `STATUT_CHARGER`) and groups left empty are dropped.
pub fn filter_loaded_groups(groups: &Vec<PackageGroup>) -> (r: Vec<PackageGroup>)
    ensures
        groups_view(r@) == loaded_groups(groups@),
        forall|i: int| 0 <= i < r@.len() ==> (#[trigger] r@[i]).count == r@[i].packages@.len(),
{
    let mut out: Vec<PackageGroup> = Vec::new();
    let mut i: usize = 0;
    proof {
        assert(groups@.subrange(0, 0) =~= Seq::<PackageGroup>::empty());
        assert(groups_view(out@) =~= loaded_groups(groups@.subrange(0, 0)));
    }
    while i < groups.len()
        invariant
            i <= groups@.len(),
            groups_view(out@) == loaded_groups(groups@.subrange(0, i as int)),
            forall|k: int| 0 <= k < out@.len() ==> (#[trigger] out@[k]).count == out@[k].packages@.len(),
        decreases groups@.len() - i,
    {
        let g = &groups[i];
        let ghost before = out@;
        let kept = loaded_packages(&g.packages);
        if kept.len() > 0 {
            let count = kept.len();
            out.push(PackageGroup { title: g.title.clone(), count, packages: kept });
        }
        proof {
            let sub = groups@.subrange(0, i + 1);
            assert(sub.drop_last() =~= groups@.subrange(0, i as int));
            assert(sub.last() == groups@[i as int]);
            assert(groups_view(out@) =~= loaded_groups(sub));
        }
        i += 1;
    }
    assert(groups@.subrange(0, groups@.len() as int) =~= groups@);
    out
}

/// The count of each group, in order.
pub open spec fn group_counts(groups: Seq<PackageGroup>) -> Seq<usize> {
    groups.map_values(|g: PackageGroup| g.count)
}

/// The packages of a session, in the order of its entries.
pub open spec fn session_packages(entries: Seq<(String, SessionPackage)>) -> Seq<SessionPackage> {
    entries.map_values(|e: (String, SessionPackage)| e.1)
}

/// The packages of the session, in the order of its entries.
fn session_package_list(session: &DeliverySession) -> (r: Vec<SessionPackage>)
    ensures
        r@ == session_packages(session.packages.entries@),
{
    let entries = &session.packages.entries;
    let mut out: Vec<SessionPackage> = Vec::new();
    let mut i: usize = 0;
    while i < entries.len()
        invariant
            i <= entries@.len(),
            out@ == session_packages(entries@.subrange(0, i as int)),
        decreases entries@.len() - i,
    {
        out.push(entries[i].1.duplicate());
        i += 1;
        assert(out@ =~= session_packages(entries@.subrange(0, i as int)));
    }
    assert(entries@.subrange(0, entries@.len() as int) =~= entries@);
    out
}

/// A copy of a list of packages.
fn clone_session_packages(v: &Vec<SessionPackage>) -> (r: Vec<SessionPackage>)
    ensures
        r@ == v@,
{
    let mut out: Vec<SessionPackage> = Vec::new();
    let mut i: usize = 0;
    while i < v.len()
        invariant
            i <= v@.len(),
            out@ == v@.subrange(0, i as int),
        decreases v@.len() - i,
    {
        out.push(v[i].duplicate());
        i += 1;
        assert(out@ =~= v@.subrange(0, i as int));
    }
    assert(v@.subrange(0, v@.len() as int) =~= v@);
    out
}

/// A copy of a list of groups: same titles, counts and packages.
fn clone_groups(groups: &Vec<PackageGroup>) -> (r: Vec<PackageGroup>)
    ensures
        groups_view(r@) == groups_view(groups@),
        group_counts(r@) == group_counts(groups@),
{
    let mut out: Vec<PackageGroup> = Vec::new();
    let mut i: usize = 0;
    while i < groups.len()
        invariant
            i <= groups@.len(),
            out@.len() == i,
            forall|k: int| 0 <= k < i ==> {
                &&& (#[trigger] out@[k]).title@ == groups@[k].title@
                &&& out@[k].count == groups@[k].count
                &&& out@[k].packages@ == groups@[k].packages@
            },
        decreases groups@.len() - i,
    {
        let g = &groups[i];
        out.push(PackageGroup { title: g.title.clone(), count: g.count, packages: clone_session_packages(&g.packages) });
        i += 1;
    }
    assert(groups_view(out@) =~= groups_view(groups@));
    assert(group_counts(out@) =~= group_counts(groups@));
    out
}

/// The groups the main view lists. With groups kept from an earlier
/// computation: those groups, restricted to loaded packages when the filter
/// is on. Otherwise the session's packages (only the loaded ones when the
/// filter is on) grouped by address; the groups are kept for later only
/// when the filter is off.
pub fn main_view_groups(state: &mut AppState, session: &DeliverySession) -> (r: Vec<PackageGroup>)
    ensures
        match old(state).groups_memo {
            Some(memo) => {
                &&& *final(state) == *old(state)
                &&& if old(state).filter_mode {
                    &&& groups_view(r@) == loaded_groups(memo@)
                    &&& forall|i: int| 0 <= i < r@.len() ==> (#[trigger] r@[i]).count == r@[i].packages@.len()
                } else {
                    groups_view(r@) == groups_view(memo@) && group_counts(r@) == group_counts(memo@)
                }
            },
            None => {
                let all = session_packages(session.packages.entries@);
                &&& if old(state).filter_mode {
                    &&& address_groups(r@, all.filter(loaded_package()))
                    &&& *final(state) == *old(state)
                } else {
                    &&& address_groups(r@, all)
                    &&& final(state).groups_memo matches Some(m)
                        && groups_view(m@) == groups_view(r@) && group_counts(m@) == group_counts(r@)
                    &&& *final(state) == (AppState { groups_memo: final(state).groups_memo, ..*old(state) })
                }
            },
        },
{
    let filter_mode = state.filter_mode;
    match &state.groups_memo {
        Some(memo) => {
            if filter_mode {
                filter_loaded_groups(memo)
            } else {
                clone_groups(memo)
            }
        },
        None => {
            let all = session_package_list(session);
            if filter_mode {
                let loaded = loaded_packages(&all);
                group_packages_by_address(loaded)
            } else {
                let computed = group_packages_by_address(all);
                state.groups_memo = Some(clone_groups(&computed));
                computed
            }
        },
    }
}

/// Where the group taken from `origin` goes when it is dropped on the card
/// at `index`: the index shifts down by one when the card was after it.
pub open spec fn drop_position(origin: int, index: int) -> int {
    if index > origin { index - 1 } else { index }
}

/// The groups after the group at `origin` is moved onto the card at
/// `index`.
pub open spec fn moved(groups: Seq<PackageGroup>, origin: int, index: int) -> Seq<PackageGroup> {
    groups.remove(origin).insert(drop_position(origin, index), groups[origin])
}

/// `after` is `before` with the group at `origin` dropped on the card at
/// `index`: dropped on itself nothing moves; dropped on an earlier card the
/// group takes that card's slot and the groups from there up to `origin`
/// shift one later; dropped on a later card it takes the slot just before
/// that card and the groups after `origin` up to there shift one earlier.
/// Every other group keeps its slot.
pub open spec fn moved_onto_card(before: Seq<PackageGroup>, after: Seq<PackageGroup>, origin: int, index: int) -> bool {
    &&& after.len() == before.len()
    &&& index == origin ==> after == before
    &&& index < origin ==> {
        &&& after[index] == before[origin]
        &&& forall|j: int| 0 <= j < index ==> after[j] == before[j]
        &&& forall|j: int| index < j <= origin ==> after[j] == before[j - 1]
        &&& forall|j: int| origin < j < before.len() ==> after[j] == before[j]
    }
    &&& index > origin ==> {
        &&& after[index - 1] == before[origin]
        &&& forall|j: int| 0 <= j < origin ==> after[j] == before[j]
        &&& forall|j: int| origin <= j < index - 1 ==> after[j] == before[j + 1]
        &&& forall|j: int| index <= j < before.len() ==> after[j] == before[j]
    }
}

/// Dropping the group at `origin` on the card at `index` puts it in that
/// card's slot when the card is earlier, just before the card when it is
/// later, and leaves the list alone when it is the same card; the other
/// groups keep their order.
pub proof fn law_move_lands_on_card(groups: Seq<PackageGroup>, origin: int, index: int)
    requires
        0 <= origin < groups.len(),
        0 <= index < groups.len(),
    ensures
        moved_onto_card(groups, moved(groups, origin, index), origin, index),
{
    let r = moved(groups, origin, index);
    if index == origin {
        assert(r =~= groups);
    }
}

/// Moves the group at `origin` onto the card at `index` (both within the
/// list).
pub fn reorder_groups(groups: Vec<PackageGroup>, origin: usize, index: usize) -> (r: Vec<PackageGroup>)
    requires
        origin < groups@.len(),
        index < groups@.len(),
    ensures
        r@ == moved(groups@, origin as int, index as int),
        r@.len() == groups@.len(),
        r@[drop_position(origin as int, index as int)] == groups@[origin as int],
        r@.remove(drop_position(origin as int, index as int)) == groups@.remove(origin as int),
        moved_onto_card(groups@, r@, origin as int, index as int),
{
    proof {
        law_move_lands_on_card(groups@, origin as int, index as int);
    }
    let mut reordered = groups;
    let group_to_move = reordered.remove(origin);
    let dest_idx = if index > origin { index - 1 } else { index };
    let at = if dest_idx < reordered.len() { dest_idx } else { reordered.len() };
    reordered.insert(at, group_to_move);
    proof {
        let rem = groups@.remove(origin as int);
        let ins = rem.insert(dest_idx as int, groups@[origin as int]);
        assert(ins.remove(dest_idx as int) =~= rem);
    }
    reordered
}

/// (tracking code, position) for every package, where the position is the
/// index of its group.
pub open spec fn route_positions(groups: Seq<PackageGroup>) -> Seq<(Seq<char>, usize)>
    decreases groups.len(),
{
    if groups.len() == 0 {
        seq![]
    } else {
        let i = groups.len() - 1;
        route_positions(groups.drop_last())
            + groups.last().packages@.map_values(|p: SessionPackage| (p.tracking@, i as usize))
    }
}

/// The characters of (tracking, position) pairs.
pub open spec fn positions_view(s: Seq<(String, usize)>) -> Seq<(Seq<char>, usize)> {
    s.map_values(|e: (String, usize)| (e.0@, e.1))
}

/// The new route position of every package: the index of its group.
pub fn route_orders(groups: &Vec<PackageGroup>) -> (r: Vec<(String, usize)>)
    ensures
        positions_view(r@) == route_positions(groups@),
{
    let mut out: Vec<(String, usize)> = Vec::new();
    let mut g: usize = 0;
    proof {
        assert(groups@.subrange(0, 0) =~= Seq::<PackageGroup>::empty());
        assert(positions_view(out@) =~= route_positions(groups@.subrange(0, 0)));
    }
    while g < groups.len()
        invariant
            g <= groups@.len(),
            positions_view(out@) == route_positions(groups@.subrange(0, g as int)),
        decreases groups@.len() - g,
    {
        let group = &groups[g];
        let ghost before = out@;
        let mut k: usize = 0;
        while k < group.packages.len()
            invariant
                k <= group.packages@.len(),
                positions_view(out@) == positions_view(before)
                    + group.packages@.subrange(0, k as int).map_values(|p: SessionPackage| (p.tracking@, g)),
            decreases group.packages@.len() - k,
        {
            let ghost mid = out@;
            out.push((group.packages[k].tracking.clone(), g));
            proof {
                assert(group.packages@.subrange(0, k + 1).map_values(|p: SessionPackage| (p.tracking@, g))
                    =~= group.packages@.subrange(0, k as int).map_values(|p: SessionPackage| (p.tracking@, g))
                        .push((group.packages@[k as int].tracking@, g)));
                assert(positions_view(out@) =~= positions_view(mid).push((group.packages@[k as int].tracking@, g)));
            }
            k += 1;
        }
        proof {
            let sub = groups@.subrange(0, g + 1);
            assert(sub.drop_last() =~= groups@.subrange(0, g as int));
            assert(sub.last() == groups@[g as int]);
            assert(group.packages@.subrange(0, group.packages@.len() as int) =~= group.packages@);
            assert(positions_view(out@) =~= route_positions(sub));
        }
        g += 1;
    }
    assert(groups@.subrange(0, groups@.len() as int) =~= groups@);
    out
}

/// The position last given to tracking code `k` in `orders`, if any.
pub open spec fn last_order(orders: Seq<(Seq<char>, usize)>, k: Seq<char>) -> Option<usize>
    decreases orders.len(),
{
    if orders.len() == 0 {
        None
    } else if orders.last().0 == k {
        Some(orders.last().1)
    } else {
        last_order(orders.drop_last(), k)
    }
}

/// The package `p` after the positions of `orders` are applied.
pub open spec fn reordered_package(p: SessionPackage, orders: Seq<(Seq<char>, usize)>, k: Seq<char>) -> SessionPackage {
    match last_order(orders, k) {
        Some(o) => SessionPackage { route_order: Some(o), ..p },
        None => p,
    }
}

/// Gives every package listed in `orders` its new route position; packages
/// that the session does not hold are skipped.
pub fn apply_route_orders(packages: &mut StrMap<SessionPackage>, orders: &Vec<(String, usize)>)
    ensures
        forall|k: Seq<char>| #[trigger] final(packages).spec_get(k) == match old(packages).spec_get(k) {
            Some(p) => Some(reordered_package(p, positions_view(orders@), k)),
            None => None,
        },
{
    let ghost orig = *packages;
    let mut i: usize = 0;
    proof {
        assert(positions_view(orders@.subrange(0, 0)) =~= Seq::<(Seq<char>, usize)>::empty());
    }
    while i < orders.len()
        invariant
            i <= orders@.len(),
            forall|k: Seq<char>| #[trigger] packages.spec_get(k) == match orig.spec_get(k) {
                Some(p) => Some(reordered_package(p, positions_view(orders@.subrange(0, i as int)), k)),
                None => None,
            },
        decreases orders@.len() - i,
    {
        let ghost before = *packages;
        let tracking = &orders[i].0;
        let order = orders[i].1;
        let found = match packages.get(tracking.as_str()) {
            Some(p) => {
                let mut q = p.duplicate();
                q.route_order = Some(order);
                Some(q)
            },
            None => None,
        };
        match found {
            Some(q) => {
                packages.insert(tracking.clone(), q);
            },
            None => {},
        }
        proof {
            let sub = positions_view(orders@.subrange(0, i + 1));
            assert(sub =~= positions_view(orders@.subrange(0, i as int)).push((tracking@, order)));
            assert(sub.drop_last() =~= positions_view(orders@.subrange(0, i as int)));
        }
        i += 1;
    }
    assert(orders@.subrange(0, orders@.len() as int) =~= orders@);
}

/// For each entry of `orders` whose package the session holds, in order:
/// its tracking code and its route position before the reordering.
pub open spec fn previous_positions(pkgs: Seq<(String, SessionPackage)>, orders: Seq<(Seq<char>, usize)>) -> Seq<(Seq<char>, usize)>
    decreases orders.len(),
{
    if orders.len() == 0 {
        seq![]
    } else {
        let rest = previous_positions(pkgs, orders.drop_last());
        match lookup(pkgs, orders.last().0) {
            Some(p) => rest.push((orders.last().0, p.spec_order_key())),
            None => rest,
        }
    }
}

/// The route positions before reordering of the packages listed in
/// `orders`.
pub fn previous_route_positions(packages: &StrMap<SessionPackage>, orders: &Vec<(String, usize)>) -> (r: Vec<(String, usize)>)
    ensures
        positions_view(r@) == previous_positions(packages.entries@, positions_view(orders@)),
{
    let mut out: Vec<(String, usize)> = Vec::new();
    let mut i: usize = 0;
    proof {
        assert(positions_view(orders@.subrange(0, 0)) =~= Seq::<(Seq<char>, usize)>::empty());
        assert(positions_view(out@) =~= previous_positions(packages.entries@, positions_view(orders@.subrange(0, 0))));
    }
    while i < orders.len()
        invariant
            i <= orders@.len(),
            positions_view(out@) == previous_positions(packages.entries@, positions_view(orders@.subrange(0, i as int))),
        decreases orders@.len() - i,
    {
        let ghost before = out@;
        let tracking = &orders[i].0;
        match packages.get(tracking.as_str()) {
            Some(p) => {
                out.push((tracking.clone(), p.order_key()));
            },
            None => {},
        }
        proof {
            let sub = positions_view(orders@.subrange(0, i + 1));
            assert(sub.drop_last() =~= positions_view(orders@.subrange(0, i as int)));
            assert(sub.last() == (orders@[i as int].0@, orders@[i as int].1));
            assert(positions_view(out@) =~= previous_positions(packages.entries@, sub));
        }
        i += 1;
    }
    assert(orders@.subrange(0, orders@.len() as int) =~= orders@);
    out
}

/// The position recorded first for tracking code `k` in `positions`.
pub open spec fn first_position(positions: Seq<(Seq<char>, usize)>, k: Seq<char>) -> Option<usize>
    decreases positions.len(),
{
    if positions.len() == 0 {
        None
    } else if positions[0].0 == k {
        Some(positions[0].1)
    } else {
        first_position(positions.drop_first(), k)
    }
}

/// The change recorded for one moved package: its previous position (or
/// `origin` when none was recorded) and its new one.
pub open spec fn order_change(e: (String, usize), previous: Seq<(Seq<char>, usize)>, origin: usize, now: i64) -> Change {
    Change::OrderChanged {
        package_internal_id: e.0,
        old_position: match first_position(previous, e.0@) {
            Some(pos) => pos,
            None => origin,
        },
        new_position: e.1,
        timestamp: now,
    }
}

/// What a reordering change records: (tracking code, previous position,
/// new position, time); `None` for other changes.
pub open spec fn order_change_view(c: Change) -> Option<(Seq<char>, usize, usize, i64)> {
    match c {
        Change::OrderChanged { package_internal_id, old_position, new_position, timestamp } =>
            Some((package_internal_id@, old_position, new_position, timestamp)),
        _ => None,
    }
}

/// What the change for one entry of `orders` records.
pub open spec fn expected_order_change(e: (Seq<char>, usize), previous: Seq<(Seq<char>, usize)>, origin: usize, now: i64)
    -> Option<(Seq<char>, usize, usize, i64)>
{
    Some((e.0, match first_position(previous, e.0) {
        Some(pos) => pos,
        None => origin,
    }, e.1, now))
}

/// The position recorded first for `tracking`.
fn find_position(positions: &Vec<(String, usize)>, tracking: &str) -> (r: Option<usize>)
    ensures
        r == first_position(positions_view(positions@), tracking@),
{
    let n = positions.len();
    let mut i: usize = 0;
    proof {
        assert(positions_view(positions@).subrange(0, n as int) =~= positions_view(positions@));
    }
    while i < n
        invariant
            i <= n,
            n == positions@.len(),
            first_position(positions_view(positions@), tracking@)
                == first_position(positions_view(positions@).subrange(i as int, n as int), tracking@),
        decreases n - i,
    {
        let ghost rest = positions_view(positions@).subrange(i as int, n as int);
        assert(rest[0] == (positions@[i as int].0@, positions@[i as int].1));
        if str_eq(positions[i].0.as_str(), tracking) {
            return Some(positions[i].1);
        }
        assert(rest.drop_first() =~= positions_view(positions@).subrange(i + 1, n as int));
        i += 1;
    }
    None
}

/// The changes that record a reordering, one per entry of `orders`.
pub fn order_changes(orders: &Vec<(String, usize)>, previous: &Vec<(String, usize)>, origin: usize, now: i64) -> (r: Vec<Change>)
    ensures
        r@ == orders@.map_values(|e: (String, usize)| order_change(e, positions_view(previous@), origin, now)),
{
    let mut out: Vec<Change> = Vec::new();
    let mut i: usize = 0;
    while i < orders.len()
        invariant
            i <= orders@.len(),
            out@ == orders@.subrange(0, i as int).map_values(|e: (String, usize)| order_change(e, positions_view(previous@), origin, now)),
        decreases orders@.len() - i,
    {
        let tracking = &orders[i].0;
        let old_position = match find_position(previous, tracking.as_str()) {
            Some(pos) => pos,
            None => origin,
        };
        out.push(Change::OrderChanged {
            package_internal_id: tracking.clone(),
            old_position,
            new_position: orders[i].1,
            timestamp: now,
        });
        i += 1;
        assert(out@ =~= orders@.subrange(0, i as int).map_values(|e: (String, usize)| order_change(e, positions_view(previous@), origin, now)));
    }
    assert(orders@.subrange(0, orders@.len() as int) =~= orders@);
    out
}

/// Moves the group at `origin` onto the card at `index`, gives every
/// package of the session the index of its group as route position, and
/// returns the changes to synchronise, stamped `now`.
pub fn reorder_session(session: &mut DeliverySession, groups: Vec<PackageGroup>, origin: usize, index: usize, now: i64) -> (r: Vec<Change>)
    requires
        origin < groups@.len(),
        index < groups@.len(),
    ensures
        ({
            let orders = route_positions(moved(groups@, origin as int, index as int));
            let previous = previous_positions(old(session).packages.entries@, orders);
            &&& forall|k: Seq<char>| #[trigger] final(session).packages.spec_get(k) == match old(session).packages.spec_get(k) {
                Some(p) => Some(reordered_package(p, orders, k)),
                None => None,
            }
            &&& r@.map_values(|c: Change| order_change_view(c))
                == orders.map_values(|e: (Seq<char>, usize)| expected_order_change(e, previous, origin, now))
        }),
        final(session).session_id == old(session).session_id,
        final(session).driver == old(session).driver,
        final(session).addresses == old(session).addresses,
        final(session).stats == old(session).stats,
        final(session).last_sync == old(session).last_sync,
{
    let reordered = reorder_groups(groups, origin, index);
    let orders = route_orders(&reordered);
    let previous = previous_route_positions(&session.packages, &orders);
    apply_route_orders(&mut session.packages, &orders);
    let changes = order_changes(&orders, &previous, origin, now);
    proof {
        assert(changes@.map_values(|c: Change| order_change_view(c))
            =~= positions_view(orders@).map_values(|e: (Seq<char>, usize)| expected_order_change(e, positions_view(previous@), origin, now)));
    }
    changes
}

/// Which buttons of the header are disabled, and the refresh button's icon.
pub struct HeaderButtons {
    pub optimize_disabled: bool,
    pub search_disabled: bool,
    pub scanner_disabled: bool,
    pub refresh_disabled: bool,
    pub refresh_icon: &'static str,
}

/// The header's buttons while a request runs (`loading`) and with or
/// without a session: optimise, search and refresh need a session and no
/// request running, the scanner only no request running; the refresh
/// button shows an hourglass while loading.
pub fn header_buttons(loading: bool, has_session: bool) -> (r: HeaderButtons)
    ensures
        r.optimize_disabled == (loading || !has_session),
        r.search_disabled == (loading || !has_session),
        r.scanner_disabled == loading,
        r.refresh_disabled == (loading || !has_session),
        r.refresh_icon@ == if loading { "⏳"@ } else { "🔄"@ },
{
    let blocked = loading || !has_session;
    HeaderButtons {
        optimize_disabled: blocked,
        search_disabled: blocked,
        scanner_disabled: loading,
        refresh_disabled: blocked,
        refresh_icon: if loading { "⏳" } else { "🔄" },
    }
}

/// A failed optimisation asks the driver to turn on location: its error,
/// lower-cased, mentions `geolocalización`, `ubicación` or `location`.
pub open spec fn is_location_error(error: Seq<char>) -> bool {
    let lower = lowercase_of(error);
    seq_contains(lower, "geolocalización"@) || seq_contains(lower, "ubicación"@) || seq_contains(lower, "location"@)
}

/// Whether the error of a failed optimisation calls for the alert that asks
/// the driver to turn on location.
pub fn needs_location_alert(error: &str) -> (r: bool)
    ensures
        r == is_location_error(error@),
{
    let lower = to_lowercase(error);
    contains(lower.as_str(), "geolocalización") || contains(lower.as_str(), "ubicación")
        || contains(lower.as_str(), "location")
}

/// The new route positions: each package of the group at index `g` gets
/// position `g`, and every recorded position is that of a group holding a
/// package with that tracking code; one entry per package.
pub proof fn law_route_positions_are_group_indices(groups: Seq<PackageGroup>)
    requires
        groups.len() <= usize::MAX,
    ensures
        forall|g: int, j: int| 0 <= g < groups.len() && 0 <= j < groups[g].packages@.len() ==>
            route_positions(groups).contains(((#[trigger] groups[g].packages@[j]).tracking@, g as usize)),
        forall|k: int| 0 <= k < route_positions(groups).len() ==> {
            let e = #[trigger] route_positions(groups)[k];
            &&& (e.1 as int) < groups.len()
            &&& exists|j: int| 0 <= j < groups[e.1 as int].packages@.len() && (#[trigger] groups[e.1 as int].packages@[j]).tracking@ == e.0
        },
    decreases groups.len(),
{
    if groups.len() > 0 {
        let rest = groups.drop_last();
        law_route_positions_are_group_indices(rest);
        let n = groups.len() - 1;
        let tail = groups.last().packages@.map_values(|p: SessionPackage| (p.tracking@, n as usize));
        let all = route_positions(groups);
        let before = route_positions(rest);
        assert(all == before + tail);
        assert forall|g: int, j: int| 0 <= g < groups.len() && 0 <= j < groups[g].packages@.len() implies
            all.contains(((#[trigger] groups[g].packages@[j]).tracking@, g as usize)) by {
            if g < n {
                assert(rest[g] == groups[g]);
                assert(rest[g].packages@[j] == groups[g].packages@[j]);
                let k = choose|k: int| 0 <= k < before.len() && before[k] == (rest[g].packages@[j].tracking@, g as usize);
                assert(all[k] == before[k]);
            } else {
                assert(all[before.len() + j] == tail[j]);
            }
        }
        assert forall|k: int| 0 <= k < all.len() implies {
            let e = #[trigger] all[k];
            &&& (e.1 as int) < groups.len()
            &&& exists|j: int| 0 <= j < groups[e.1 as int].packages@.len() && (#[trigger] groups[e.1 as int].packages@[j]).tracking@ == e.0
        } by {
            if k < before.len() {
                assert(all[k] == before[k]);
                let e = before[k];
                assert(rest[e.1 as int] == groups[e.1 as int]);
                let j = choose|j: int| 0 <= j < rest[e.1 as int].packages@.len() && (#[trigger] rest[e.1 as int].packages@[j]).tracking@ == e.0;
                assert(groups[e.1 as int].packages@[j] == rest[e.1 as int].packages@[j]);
            } else {
                let j = k - before.len();
                assert(all[k] == tail[j]);
                assert(groups[n].packages@[j].tracking@ == all[k].0);
            }
        }
    }
}

/// The position last given to a tracking code is that of its last entry:
/// reordering a package gives it that route position and changes nothing
/// else about it; a package without an entry is left as it was.
pub proof fn law_reordered_package_takes_its_last_position(p: SessionPackage, orders: Seq<(Seq<char>, usize)>, k: Seq<char>)
    ensures
        (forall|i: int| 0 <= i < orders.len() ==> orders[i].0 != k) ==> reordered_package(p, orders, k) == p,
        forall|i: int| 0 <= i < orders.len() && orders[i].0 == k
            && (forall|j: int| i < j < orders.len() ==> orders[j].0 != k) ==>
            reordered_package(p, orders, k) == (SessionPackage { route_order: Some(orders[i].1), ..p }),
    decreases orders.len(),
{
    if orders.len() > 0 {
        law_reordered_package_takes_its_last_position(p, orders.drop_last(), k);
        let n = orders.len() - 1;
        assert forall|i: int| 0 <= i < orders.len() && orders[i].0 == k
            && (forall|j: int| i < j < orders.len() ==> orders[j].0 != k) implies
            reordered_package(p, orders, k) == (SessionPackage { route_order: Some(orders[i].1), ..p }) by {
            if i < n {
                assert(orders[n].0 != k);
                assert(orders.drop_last()[i] == orders[i]);
                assert forall|j: int| i < j < orders.drop_last().len() implies orders.drop_last()[j].0 != k by {
                    assert(orders.drop_last()[j] == orders[j]);
                }
            }
        }
        if forall|i: int| 0 <= i < orders.len() ==> orders[i].0 != k {
            assert(orders[n].0 != k);
            assert forall|i: int| 0 <= i < orders.drop_last().len() implies orders.drop_last()[i].0 != k by {
                assert(orders.drop_last()[i] == orders[i]);
            }
        }
    }
}

/// The change recorded for a moved package: its tracking code, its first
/// recorded previous position (the group's origin when none was recorded),
/// its new position and the time.
pub proof fn law_order_change_records_the_move(e: (Seq<char>, usize), previous: Seq<(Seq<char>, usize)>, origin: usize, now: i64)
    ensures
        (forall|i: int| 0 <= i < previous.len() ==> previous[i].0 != e.0) ==>
            expected_order_change(e, previous, origin, now) == Some((e.0, origin, e.1, now)),
        forall|i: int| 0 <= i < previous.len() && previous[i].0 == e.0
            && (forall|j: int| 0 <= j < i ==> previous[j].0 != e.0) ==>
            expected_order_change(e, previous, origin, now) == Some((e.0, previous[i].1, e.1, now)),
{
    lemma_first_position(previous, e.0);
}

/// `first_position` is the position of the first entry with that code.
proof fn lemma_first_position(positions: Seq<(Seq<char>, usize)>, k: Seq<char>)
    ensures
        (forall|i: int| 0 <= i < positions.len() ==> positions[i].0 != k) ==> first_position(positions, k) is None,
        forall|i: int| 0 <= i < positions.len() && positions[i].0 == k
            && (forall|j: int| 0 <= j < i ==> positions[j].0 != k) ==> first_position(positions, k) == Some(positions[i].1),
    decreases positions.len(),
{
    if positions.len() > 0 {
        let rest = positions.drop_first();
        lemma_first_position(rest, k);
        assert forall|i: int| 0 <= i < positions.len() && positions[i].0 == k
            && (forall|j: int| 0 <= j < i ==> positions[j].0 != k) implies first_position(positions, k) == Some(positions[i].1) by {
            if i > 0 {
                assert(positions[0].0 != k);
                assert(rest[i - 1] == positions[i]);
                assert forall|j: int| 0 <= j < i - 1 implies rest[j].0 != k by {
                    assert(rest[j] == positions[j + 1]);
                }
            }
        }
        if forall|i: int| 0 <= i < positions.len() ==> positions[i].0 != k {
            assert(positions[0].0 != k);
            assert forall|i: int| 0 <= i < rest.len() implies rest[i].0 != k by {
                assert(rest[i] == positions[i + 1]);
            }
        }
    }
}

/// The previous positions: for each listed code the session holds, in
/// order, its route order once one was set, else its original order.
pub proof fn law_previous_positions(pkgs: Seq<(String, SessionPackage)>, orders: Seq<(Seq<char>, usize)>, e: (Seq<char>, usize))
    ensures
        previous_positions(pkgs, orders.push(e)) == match lookup(pkgs, e.0) {
            Some(p) => previous_positions(pkgs, orders).push((e.0, match p.route_order {
                Some(o) => o,
                None => p.original_order,
            })),
            None => previous_positions(pkgs, orders),
        },
{
    assert(orders.push(e).drop_last() =~= orders);
}

/// What tapping the card at `index` asks of the screen.
pub enum SelectionAction {
    /// Outside edit mode: the card is selected; show it on the map and
    /// scroll to it.
    Select { index: usize },
    /// In edit mode, first tap: the card is the origin of a move, selected.
    SetOrigin { index: usize },
    /// In edit mode, second tap on another card: move the group at
    /// `origin` onto `index`, then synchronise the new order.
    Reorder { origin: usize, index: usize },
    /// In edit mode, second tap on the same card, or a card out of range:
    /// the move is dropped.
    Cancel,
}

/// Handles a tap on the card at `index` among `groups_len` cards.
pub fn on_package_selected(state: &mut AppState, index: usize, groups_len: usize) -> (a: SelectionAction)
    ensures
        !old(state).edit_mode ==> a == (SelectionAction::Select { index })
            && *final(state) == (AppState { selected_package_index: Some(index), ..*old(state) }),
        old(state).edit_mode && old(state).edit_origin_idx is None ==> a == (SelectionAction::SetOrigin { index })
            && *final(state) == (AppState { selected_package_index: Some(index), edit_origin_idx: Some(index), ..*old(state) }),
        old(state).edit_mode ==> (old(state).edit_origin_idx matches Some(origin) ==> {
            &&& *final(state) == (AppState { edit_origin_idx: None, ..*old(state) })
            &&& if origin != index && origin < groups_len && index < groups_len {
                a == (SelectionAction::Reorder { origin, index })
            } else {
                a == SelectionAction::Cancel
            }
        }),
{
    if !state.edit_mode {
        state.set_selected_package_index(Some(index));
        return SelectionAction::Select { index };
    }
    match state.edit_origin_idx {
        None => {
            state.edit_origin_idx = Some(index);
            state.set_selected_package_index(Some(index));
            SelectionAction::SetOrigin { index }
        },
        Some(origin) => {
            state.edit_origin_idx = None;
            if origin != index && origin < groups_len && index < groups_len {
                SelectionAction::Reorder { origin, index }
            } else {
                SelectionAction::Cancel
            }
        },
    }
}

/// With the filter on, a group keeps exactly its packages whose status
/// starts with `STATUT_CHARGER`, in order, and is dropped when none is left.
pub proof fn law_loaded_groups_keep_loaded_packages(groups: Seq<PackageGroup>, g: PackageGroup)
    ensures
        ({
            let kept = g.packages@.filter(|p: SessionPackage| seq_starts_with(p.status@, "STATUT_CHARGER"@));
            loaded_groups(groups.push(g)) == if kept.len() > 0 {
                loaded_groups(groups).push((g.title@, kept))
            } else {
                loaded_groups(groups)
            }
        }),
{
    assert(groups.push(g).drop_last() =~= groups);
    assert(loaded_package() =~= |p: SessionPackage| seq_starts_with(p.status@, "STATUT_CHARGER"@));
}

/// A group holds a tracking code exactly when one of its packages has it.
pub proof fn law_group_tracking(g: PackageGroup, tracking: Seq<char>, j: int)
    requires
        0 <= j < g.packages@.len(),
    ensures
        g.packages@[j].tracking@ == tracking ==> group_has_tracking(g, tracking),
        (forall|m: int| 0 <= m < g.packages@.len() ==> g.packages@[m].tracking@ != tracking) ==> !group_has_tracking(g, tracking),
{
}

/// An error calls for the location alert when, in lower case, it mentions
/// "geolocalización", "ubicación" or "location", and only then.
pub proof fn law_location_errors(error: Seq<char>)
    ensures
        is_location_error(error) <==> (seq_contains(lowercase_of(error), "geolocalización"@)
            || seq_contains(lowercase_of(error), "ubicación"@) || seq_contains(lowercase_of(error), "location"@)),
{
}

/// The sheet opens step by step: collapsed to half, half to full, and
/// from full (or any other height) back to collapsed.
pub proof fn law_sheet_opens_step_by_step(s: Seq<char>)
    ensures
        spec_next_sheet_state("collapsed"@) == "half"@,
        spec_next_sheet_state("half"@) == "full"@,
        (s != "collapsed"@ && s != "half"@) ==> spec_next_sheet_state(s) == "collapsed"@,
{
    reveal_strlit("collapsed");
    reveal_strlit("half");
    assert("half"@ != "collapsed"@) by {
        assert("half"@.len() != "collapsed"@.len());
    }
}

} // verus!
