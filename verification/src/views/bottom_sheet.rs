//! The progress figures shown above the package list.

use vstd::prelude::*;
use crate::models::session::{Address, DeliverySession, SessionPackage};
use crate::models::strmap::{StrMap, lookup};
use crate::utils::text::{contains, seq_contains, seq_starts_with, starts_with};

verus! {

/// The progress of a tour.
pub struct ProgressFigures {
    pub completed_addresses: usize,
    pub total_addresses: usize,
    pub delivered_packages: usize,
    pub failed_packages: usize,
    pub total_packages: usize,
    pub delivered_percent: usize,
    pub failed_percent: usize,
}

/// An address is treated when it lists packages and every one of them is
/// in the session with a status that no longer starts with `STATUT_CHARGER`.
pub open spec fn address_treated(pkgs: Seq<(String, SessionPackage)>, a: Address) -> bool {
    &&& a.package_ids@.len() > 0
    &&& forall|i: int| 0 <= i < a.package_ids@.len() ==> match lookup(pkgs, (#[trigger] a.package_ids@[i])@) {
        Some(p) => !seq_starts_with(p.status@, "STATUT_CHARGER"@),
        None => false,
    }
}

/// Addresses that are treated.
pub open spec fn treated_address(pkgs: Seq<(String, SessionPackage)>) -> spec_fn((String, Address)) -> bool {
    |e: (String, Address)| address_treated(pkgs, e.1)
}

/// A delivered package: its status contains `LIVRER`.
pub open spec fn delivered_entry() -> spec_fn((String, SessionPackage)) -> bool {
    |e: (String, SessionPackage)| seq_contains(e.1.status@, "LIVRER"@)
}

/// A failed package: its status contains `NONLIV` or `ECHEC`.
pub open spec fn failed_entry() -> spec_fn((String, SessionPackage)) -> bool {
    |e: (String, SessionPackage)| seq_contains(e.1.status@, "NONLIV"@) || seq_contains(e.1.status@, "ECHEC"@)
}

/// A share in whole percent, rounded down; 0 of nothing.
pub open spec fn percent(part: int, total: int) -> int {
    if total > 0 { (part * 100) / total } else { 0 }
}

/// Whether the address is treated.
fn is_treated(pkgs: &StrMap<SessionPackage>, a: &Address) -> (r: bool)
    ensures
        r == address_treated(pkgs.entries@, *a),
{
    if a.package_ids.len() == 0 {
        return false;
    }
    let mut i: usize = 0;
    while i < a.package_ids.len()
        invariant
            i <= a.package_ids@.len(),
            forall|j: int| 0 <= j < i ==> match lookup(pkgs.entries@, (#[trigger] a.package_ids@[j])@) {
                Some(p) => !seq_starts_with(p.status@, "STATUT_CHARGER"@),
                None => false,
            },
        decreases a.package_ids@.len() - i,
    {
        let done = match pkgs.get(a.package_ids[i].as_str()) {
            Some(p) => !starts_with(p.status.as_str(), "STATUT_CHARGER"),
            None => false,
        };
        if !done {
            return false;
        }
        i += 1;
    }
    true
}

/// The progress of a session: treated addresses out of the session's
/// address count, delivered and failed packages, and their shares of the
/// session's package count.
pub fn progress_figures(session: &DeliverySession) -> (r: ProgressFigures)
    requires
        session.packages.entries@.len() <= usize::MAX / 100,
    ensures
        r.total_addresses == session.stats.total_addresses,
        r.completed_addresses == session.addresses.entries@.filter(treated_address(session.packages.entries@)).len(),
        r.total_packages == session.stats.total_packages,
        r.delivered_packages == session.packages.entries@.filter(delivered_entry()).len(),
        r.failed_packages == session.packages.entries@.filter(failed_entry()).len(),
        r.delivered_percent == percent(r.delivered_packages as int, r.total_packages as int),
        r.failed_percent == percent(r.failed_packages as int, r.total_packages as int),
{
    let pkgs = &session.packages;
    let addrs = &session.addresses.entries;
    let mut completed: usize = 0;
    let mut i: usize = 0;
    proof {
        reveal(Seq::filter);
    }
    while i < addrs.len()
        invariant
            i <= addrs@.len(),
            pkgs == &session.packages,
            addrs == &session.addresses.entries,
            completed == addrs@.subrange(0, i as int).filter(treated_address(pkgs.entries@)).len(),
            completed <= i,
        decreases addrs@.len() - i,
    {
        proof {
            let sub = addrs@.subrange(0, i as int);
            assert(addrs@.subrange(0, i + 1) =~= sub.push(addrs@[i as int]));
            sub.lemma_filter_push(addrs@[i as int], treated_address(pkgs.entries@));
        }
        if is_treated(pkgs, &addrs[i].1) {
            completed += 1;
        }
        i += 1;
    }
    assert(addrs@.subrange(0, addrs@.len() as int) =~= addrs@);

    let entries = &pkgs.entries;
    let mut delivered: usize = 0;
    let mut failed: usize = 0;
    let mut k: usize = 0;
    while k < entries.len()
        invariant
            k <= entries@.len(),
            entries == &session.packages.entries,
            entries@.len() <= usize::MAX / 100,
            delivered == entries@.subrange(0, k as int).filter(delivered_entry()).len(),
            failed == entries@.subrange(0, k as int).filter(failed_entry()).len(),
            delivered <= k,
            failed <= k,
        decreases entries@.len() - k,
    {
        let e = &entries[k];
        proof {
            let sub = entries@.subrange(0, k as int);
            assert(entries@.subrange(0, k + 1) =~= sub.push(*e));
            sub.lemma_filter_push(*e, delivered_entry());
            sub.lemma_filter_push(*e, failed_entry());
        }
        if contains(e.1.status.as_str(), "LIVRER") {
            delivered += 1;
        }
        if contains(e.1.status.as_str(), "NONLIV") || contains(e.1.status.as_str(), "ECHEC") {
            failed += 1;
        }
        k += 1;
    }
    assert(entries@.subrange(0, entries@.len() as int) =~= entries@);

    let total_packages = session.stats.total_packages;
    let delivered_percent = if total_packages > 0 { (delivered * 100) / total_packages } else { 0 };
    let failed_percent = if total_packages > 0 { (failed * 100) / total_packages } else { 0 };
    ProgressFigures {
        completed_addresses: completed,
        total_addresses: session.stats.total_addresses,
        delivered_packages: delivered,
        failed_packages: failed,
        total_packages,
        delivered_percent,
        failed_percent,
    }
}

/// How the package counts of the progress grow when one more package is
/// listed: a package whose status contains `NONLIV` or `ECHEC` adds one
/// failed package, any other none; one whose status contains `LIVRER` adds
/// one delivered package, any other none.
pub proof fn law_failed_and_delivered_counts(entries: Seq<(String, SessionPackage)>, e: (String, SessionPackage))
    ensures
        entries.push(e).filter(failed_entry()).len() == entries.filter(failed_entry()).len()
            + if seq_contains(e.1.status@, "NONLIV"@) || seq_contains(e.1.status@, "ECHEC"@) { 1int } else { 0int },
        entries.push(e).filter(delivered_entry()).len() == entries.filter(delivered_entry()).len()
            + if seq_contains(e.1.status@, "LIVRER"@) { 1int } else { 0int },
        entries.filter(failed_entry()).len() <= entries.len(),
        entries.filter(delivered_entry()).len() <= entries.len(),
{
    reveal(Seq::filter);
    entries.lemma_filter_push(e, failed_entry());
    entries.lemma_filter_push(e, delivered_entry());
    entries.filter_lemma(failed_entry());
    entries.filter_lemma(delivered_entry());
}

/// A whole-percent share rounded down: for a positive total, `percent`
/// hundredths of the total are at most the part, and one more hundredth
/// would exceed it; with no total it is 0.
pub proof fn law_percent_rounds_down(part: int, total: int)
    requires
        part >= 0,
    ensures
        total > 0 ==> percent(part, total) * total <= part * 100 < (percent(part, total) + 1) * total,
        total <= 0 ==> percent(part, total) == 0,
{
    if total > 0 {
        let q = (part * 100) / total;
        assert(q * total <= part * 100 < (q + 1) * total) by (nonlinear_arith)
            requires
                total > 0,
                part >= 0,
                q == (part * 100) / total,
        ;
    }
}

/// How the count of treated addresses grows when one more address is
/// listed: by one exactly when the address lists packages and each of them
/// is in the session with a status that no longer starts with
/// `STATUT_CHARGER`.
pub proof fn law_treated_address_count(pkgs: Seq<(String, SessionPackage)>, addrs: Seq<(String, Address)>, e: (String, Address))
    ensures
        addrs.push(e).filter(treated_address(pkgs)).len() == addrs.filter(treated_address(pkgs)).len() + if
            e.1.package_ids@.len() > 0 && forall|i: int| 0 <= i < e.1.package_ids@.len() ==>
                (#[trigger] lookup(pkgs, e.1.package_ids@[i]@) matches Some(p)
                    && !seq_starts_with(p.status@, "STATUT_CHARGER"@))
        { 1int } else { 0int },
{
    reveal(Seq::filter);
    addrs.lemma_filter_push(e, treated_address(pkgs));
    assert(treated_address(pkgs)(e) == address_treated(pkgs, e.1));
}

} // verus!
