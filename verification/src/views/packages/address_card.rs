//! Colours of an address card: by delivery type, and by package status.

use vstd::prelude::*;
use crate::models::package::{Package, PackageView, packages_view};
use crate::models::session::DeliveryType;
use crate::models::strmap::StrMap;
use crate::utils::text::{seq_starts_with, starts_with, str_eq};

verus! {

/// The style class of a delivery type.
pub open spec fn delivery_type_class(t: DeliveryType) -> Seq<char> {
    match t {
        DeliveryType::Home => "type-domicile"@,
        DeliveryType::Rcs => "type-rcs"@,
        DeliveryType::PickupPoint => "type-relais"@,
    }
}

/// The style class of a delivery type.
pub fn get_delivery_type_color(delivery_type: &DeliveryType) -> (r: &'static str)
    ensures
        r@ == delivery_type_class(*delivery_type),
{
    match delivery_type {
        DeliveryType::Home => "type-domicile",
        DeliveryType::Rcs => "type-rcs",
        DeliveryType::PickupPoint => "type-relais",
    }
}

/// The colour for a status: yellow when received, normal when loaded,
/// green when delivered (`STATUT_LIVRER_…`), red when not delivered
/// (`STATUT_NONLIV_…`), normal otherwise.
pub open spec fn status_color(status: Seq<char>) -> Seq<char> {
    if status == "STATUT_RECEPTIONNER"@ {
        "yellow"@
    } else if status == "STATUT_CHARGER"@ {
        "normal"@
    } else if seq_starts_with(status, "STATUT_LIVRER_"@) {
        "green"@
    } else if seq_starts_with(status, "STATUT_NONLIV_"@) {
        "red"@
    } else {
        "normal"@
    }
}

/// The colour of a package number for its status.
pub fn get_package_status_color(status: &str) -> (r: &'static str)
    ensures
        r@ == status_color(status@),
{
    if str_eq(status, "STATUT_RECEPTIONNER") {
        "yellow"
    } else if str_eq(status, "STATUT_CHARGER") {
        "normal"
    } else if starts_with(status, "STATUT_LIVRER_") {
        "green"
    } else if starts_with(status, "STATUT_NONLIV_") {
        "red"
    } else {
        "normal"
    }
}

/// The delivery type a card shows: that of its first package, read from
/// its `type_livraison` (`RELAIS` a pickup point, `RCS` an RCS delivery,
/// anything else, or nothing, a home delivery).
pub open spec fn main_delivery_type(s: Seq<PackageView>) -> DeliveryType {
    if s.len() == 0 {
        DeliveryType::Home
    } else {
        match s[0].type_livraison {
            Some(t) => if t == "RELAIS"@ {
                DeliveryType::PickupPoint
            } else if t == "RCS"@ {
                DeliveryType::Rcs
            } else {
                DeliveryType::Home
            },
            None => DeliveryType::Home,
        }
    }
}

/// How many packages of `s` have status `k`.
pub open spec fn count_status(s: Seq<PackageView>, k: Seq<char>) -> nat
    decreases s.len(),
{
    if s.len() == 0 {
        0
    } else {
        count_status(s.drop_last(), k) + if s.last().status == k { 1nat } else { 0nat }
    }
}

proof fn lemma_count_status_bound(s: Seq<PackageView>, k: Seq<char>)
    ensures
        count_status(s, k) <= s.len(),
    decreases s.len(),
{
    if s.len() > 0 {
        lemma_count_status_bound(s.drop_last(), k);
    }
}

/// What an address card shows of its packages.
pub struct AddressCardSummary {
    pub delivery_type: DeliveryType,
    pub status_counts: StrMap<usize>,
    pub has_problematic: bool,
}

/// The delivery type of the card, the number of its packages in each
/// status (statuses that no package has are absent), and whether any of its
/// packages is problematic.
pub fn address_card_summary(packages: &Vec<Package>) -> (r: AddressCardSummary)
    ensures
        r.delivery_type == main_delivery_type(packages_view(packages@)),
        r.status_counts.wf(),
        forall|k: Seq<char>| #[trigger] r.status_counts.spec_get(k) == {
            let c = count_status(packages_view(packages@), k);
            if c > 0 { Some(c as usize) } else { None }
        },
        r.has_problematic == exists|i: int| 0 <= i < packages@.len() && (#[trigger] packages@[i]).is_problematic,
{
    let delivery_type = if packages.len() == 0 {
        DeliveryType::Home
    } else {
        match &packages[0].type_livraison {
            Some(t) => if str_eq(t.as_str(), "RELAIS") {
                DeliveryType::PickupPoint
            } else if str_eq(t.as_str(), "RCS") {
                DeliveryType::Rcs
            } else {
                DeliveryType::Home
            },
            None => DeliveryType::Home,
        }
    };
    let mut counts: StrMap<usize> = StrMap::new();
    let mut has_problematic = false;
    let mut i: usize = 0;
    while i < packages.len()
        invariant
            i <= packages@.len(),
            counts.wf(),
            forall|k: Seq<char>| #[trigger] counts.spec_get(k) == {
                let c = count_status(packages_view(packages@.subrange(0, i as int)), k);
                if c > 0 { Some(c as usize) } else { None }
            },
            has_problematic == exists|j: int| 0 <= j < i && (#[trigger] packages@[j]).is_problematic,
        decreases packages@.len() - i,
    {
        let p = &packages[i];
        let ghost prefix = packages_view(packages@.subrange(0, i as int));
        let ghost next = packages_view(packages@.subrange(0, i + 1));
        proof {
            assert(next.drop_last() =~= prefix);
            assert(next.last() == p@);
            lemma_count_status_bound(prefix, p@.status);
        }
        let c: usize = match counts.get(p.status.as_str()) {
            Some(c) => *c,
            None => 0,
        };
        counts.insert(p.status.clone(), c + 1);
        if p.is_problematic {
            has_problematic = true;
        }
        i += 1;
        proof {
            assert forall|k: Seq<char>| #[trigger] counts.spec_get(k) == {
                let c = count_status(next, k);
                if c > 0 { Some(c as usize) } else { None }
            } by {
                assert(count_status(next, k) == count_status(prefix, k) + if p@.status == k { 1nat } else { 0nat });
            }
        }
    }
    assert(packages@.subrange(0, packages@.len() as int) =~= packages@);
    AddressCardSummary { delivery_type, status_counts: counts, has_problematic }
}

/// Each delivery type has its own style class: `type-domicile` for home,
/// `type-rcs` for RCS, `type-relais` for a pickup point.
pub proof fn law_delivery_type_classes()
    ensures
        delivery_type_class(DeliveryType::Home) == "type-domicile"@,
        delivery_type_class(DeliveryType::Rcs) == "type-rcs"@,
        delivery_type_class(DeliveryType::PickupPoint) == "type-relais"@,
{
}

/// A status's colour: yellow when received, normal when loaded, green for
/// any delivered status (`STATUT_LIVRER_…`), red for any failed one
/// (`STATUT_NONLIV_…`), normal otherwise.
pub proof fn law_status_colors(status: Seq<char>)
    ensures
        status == "STATUT_RECEPTIONNER"@ ==> status_color(status) == "yellow"@,
        status == "STATUT_CHARGER"@ ==> status_color(status) == "normal"@,
        (status != "STATUT_RECEPTIONNER"@ && status != "STATUT_CHARGER"@ && seq_starts_with(status, "STATUT_LIVRER_"@))
            ==> status_color(status) == "green"@,
        (status != "STATUT_RECEPTIONNER"@ && status != "STATUT_CHARGER"@ && !seq_starts_with(status, "STATUT_LIVRER_"@)
            && seq_starts_with(status, "STATUT_NONLIV_"@)) ==> status_color(status) == "red"@,
        (status != "STATUT_RECEPTIONNER"@ && status != "STATUT_CHARGER"@ && !seq_starts_with(status, "STATUT_LIVRER_"@)
            && !seq_starts_with(status, "STATUT_NONLIV_"@)) ==> status_color(status) == "normal"@,
{
    reveal_strlit("STATUT_CHARGER");
    reveal_strlit("STATUT_RECEPTIONNER");
    assert("STATUT_CHARGER"@.len() != "STATUT_RECEPTIONNER"@.len());
}

/// The card shows the delivery type of its first package, read from its
/// `type_livraison`: `RELAIS` a pickup point, `RCS` an RCS delivery, any
/// other text or none a home delivery; an empty card a home delivery.
pub proof fn law_main_delivery_type(s: Seq<PackageView>)
    ensures
        s.len() == 0 ==> main_delivery_type(s) == DeliveryType::Home,
        s.len() > 0 && s[0].type_livraison == Some("RELAIS"@) ==> main_delivery_type(s) == DeliveryType::PickupPoint,
        s.len() > 0 && s[0].type_livraison == Some("RCS"@) ==> main_delivery_type(s) == DeliveryType::Rcs,
        s.len() > 0 && s[0].type_livraison != Some("RELAIS"@) && s[0].type_livraison != Some("RCS"@)
            ==> main_delivery_type(s) == DeliveryType::Home,
{
    reveal_strlit("RELAIS");
    reveal_strlit("RCS");
    assert("RELAIS"@ != "RCS"@) by {
        assert("RELAIS"@.len() != "RCS"@.len());
    }
}

/// Listing one more package adds one to the count of its status and
/// leaves the other counts as they were.
pub proof fn law_status_counts(s: Seq<PackageView>, p: PackageView, k: Seq<char>)
    ensures
        count_status(s.push(p), p.status) == count_status(s, p.status) + 1,
        k != p.status ==> count_status(s.push(p), k) == count_status(s, k),
        count_status(seq![], k) == 0,
{
    assert(s.push(p).drop_last() =~= s);
}

} // verus!
