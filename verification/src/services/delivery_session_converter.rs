//! Turns a delivery session into the package cards the views show: one card
//! per address, a group card where an address holds several packages.

use vstd::prelude::*;
use crate::models::strmap::{StrMap, lookup};
use crate::models::session::{
    Address, Coordinates, DeliverySession, DeliveryType, SessionPackage, clone_opt_string,
};
use crate::models::package::{
    GroupPackageInfo, GroupPackageInfoView, Package, PackageView, clone_packages, infos_view,
    opt_chars, packages_view,
};
use crate::utils::text::{decimal, push_decimal, seq_starts_with, starts_with, str_eq};

verus! {

/// The delivery type as the package card writes it.
pub open spec fn type_label(t: DeliveryType) -> Seq<char> {
    match t {
        DeliveryType::Home => "DOMICILE"@,
        DeliveryType::Rcs => "RCS"@,
        DeliveryType::PickupPoint => "RELAIS"@,
    }
}

/// The entry of a group card for one package.
pub open spec fn member_view(p: SessionPackage) -> GroupPackageInfoView {
    GroupPackageInfoView {
        id: p.internal_id@,
        tracking: p.tracking@,
        customer_name: p.customer_name@,
        phone_number: opt_chars(p.phone_number),
        customer_indication: opt_chars(p.customer_indication),
        code_statut_article: Some(p.status@),
        is_problematic: p.is_problematic,
    }
}

/// The group entries of the packages listed under `ids` that the session
/// holds, in the order of `ids`.
pub open spec fn group_members(pkgs: Seq<(String, SessionPackage)>, ids: Seq<String>) -> Seq<GroupPackageInfoView>
    decreases ids.len(),
{
    if ids.len() == 0 {
        seq![]
    } else {
        let rest = group_members(pkgs, ids.drop_last());
        match lookup(pkgs, ids.last()@) {
            Some(p) => rest.push(member_view(p)),
            None => rest,
        }
    }
}

/// The card of a package that is alone at its address.
pub open spec fn single_card(p: SessionPackage, a: Address) -> PackageView {
    PackageView {
        id: p.internal_id@,
        tracking: Some(p.tracking@),
        recipient: p.customer_name@,
        address: a.label@,
        status: p.status@,
        code_statut_article: Some(p.status@),
        coords: Some(Coordinates { latitude_bits: a.latitude_bits, longitude_bits: a.longitude_bits }),
        phone: opt_chars(p.phone_number),
        phone_fixed: None,
        instructions: opt_chars(p.customer_indication),
        door_code: opt_chars(a.door_code),
        has_mailbox_access: a.mailbox_access,
        driver_notes: opt_chars(a.driver_notes),
        is_group: false,
        total_packages: None,
        group_packages: None,
        is_problematic: p.is_problematic,
        type_livraison: Some(type_label(p.delivery_type)),
    }
}

/// The card of an address that holds several packages; it takes its status
/// and delivery type from the first package.
pub open spec fn group_card(a: Address, first: SessionPackage, members: Seq<GroupPackageInfoView>) -> PackageView {
    PackageView {
        id: a.address_id@,
        tracking: None,
        recipient: decimal(a.package_ids@.len()) + " paquetes"@,
        address: a.label@,
        status: first.status@,
        code_statut_article: Some(first.status@),
        coords: Some(Coordinates { latitude_bits: a.latitude_bits, longitude_bits: a.longitude_bits }),
        phone: None,
        phone_fixed: None,
        instructions: None,
        door_code: opt_chars(a.door_code),
        has_mailbox_access: a.mailbox_access,
        driver_notes: opt_chars(a.driver_notes),
        is_group: true,
        total_packages: Some(a.package_ids@.len() as usize),
        group_packages: Some(members),
        is_problematic: false,
        type_livraison: Some(type_label(first.delivery_type)),
    }
}

/// The cards that one address contributes: none, one single card, or one
/// group card.
pub open spec fn address_cards(pkgs: Seq<(String, SessionPackage)>, a: Address) -> Seq<PackageView> {
    let ids = a.package_ids@;
    if ids.len() > 1 {
        let members = group_members(pkgs, ids);
        if members.len() > 0 {
            match lookup(pkgs, ids[0]@) {
                Some(first) => seq![group_card(a, first, members)],
                None => seq![],
            }
        } else {
            seq![]
        }
    } else if ids.len() == 1 {
        match lookup(pkgs, ids[0]@) {
            Some(p) => seq![single_card(p, a)],
            None => seq![],
        }
    } else {
        seq![]
    }
}

/// The cards of all addresses, in the order the session stores them.
pub open spec fn converted(pkgs: Seq<(String, SessionPackage)>, addrs: Seq<(String, Address)>) -> Seq<PackageView>
    decreases addrs.len(),
{
    if addrs.len() == 0 {
        seq![]
    } else {
        converted(pkgs, addrs.drop_last()) + address_cards(pkgs, addrs.last().1)
    }
}

/// The card status that the filter keeps.
pub open spec fn is_loaded_code(p: PackageView) -> bool {
    p.code_statut_article == Some("STATUT_CHARGER"@)
}

/// A package counts as treated once its status no longer starts with
/// `STATUT_CHARGER`.
pub open spec fn is_treated(p: PackageView) -> bool {
    !seq_starts_with(p.status, "STATUT_CHARGER"@)
}

/// The filter that keeps loaded cards.
pub open spec fn loaded_filter() -> spec_fn(PackageView) -> bool {
    |p: PackageView| is_loaded_code(p)
}

/// The filter that keeps treated cards.
pub open spec fn treated_filter() -> spec_fn(PackageView) -> bool {
    |p: PackageView| is_treated(p)
}

/// Number of treated packages.
pub open spec fn treated_count(s: Seq<PackageView>) -> nat {
    s.filter(treated_filter()).len()
}

/// The delivery type label as a new string.
pub fn delivery_type_label(t: DeliveryType) -> (r: String)
    ensures
        r@ == type_label(t),
{
    match t {
        DeliveryType::Home => String::from_str("DOMICILE"),
        DeliveryType::Rcs => String::from_str("RCS"),
        DeliveryType::PickupPoint => String::from_str("RELAIS"),
    }
}

/// The group entry of one package.
fn member_info(p: &SessionPackage) -> (r: GroupPackageInfo)
    ensures
        r@ == member_view(*p),
{
    GroupPackageInfo {
        id: p.internal_id.clone(),
        tracking: p.tracking.clone(),
        customer_name: p.customer_name.clone(),
        phone_number: clone_opt_string(&p.phone_number),
        customer_indication: clone_opt_string(&p.customer_indication),
        code_statut_article: Some(p.status.clone()),
        is_problematic: p.is_problematic,
    }
}

/// The group entries of the packages listed under `ids`.
fn collect_members(pkgs: &StrMap<SessionPackage>, ids: &Vec<String>) -> (r: Vec<GroupPackageInfo>)
    ensures
        infos_view(r@) == group_members(pkgs.entries@, ids@),
{
    let mut out: Vec<GroupPackageInfo> = Vec::new();
    let mut i: usize = 0;
    proof {
        assert(ids@.subrange(0, 0) =~= Seq::<String>::empty());
        assert(infos_view(out@) =~= group_members(pkgs.entries@, ids@.subrange(0, 0)));
    }
    while i < ids.len()
        invariant
            i <= ids@.len(),
            infos_view(out@) == group_members(pkgs.entries@, ids@.subrange(0, i as int)),
        decreases ids@.len() - i,
    {
        let ghost before = out@;
        match pkgs.get(ids[i].as_str()) {
            Some(p) => {
                out.push(member_info(p));
            },
            None => {},
        }
        proof {
            let sub = ids@.subrange(0, i + 1);
            assert(sub.drop_last() =~= ids@.subrange(0, i as int));
            assert(sub.last() == ids@[i as int]);
            assert(infos_view(out@) =~= group_members(pkgs.entries@, sub));
        }
        i += 1;
    }
    assert(ids@.subrange(0, ids@.len() as int) =~= ids@);
    out
}

/// Converter from a delivery session to package cards.
pub struct DeliverySessionConverter;

impl DeliverySessionConverter {
    /// The package cards of a session: for each address in stored order, a
    /// group card when it lists more than one package, else a single card.
    pub fn convert_to_packages(session: &DeliverySession) -> (r: Vec<Package>)
        ensures
            packages_view(r@) == converted(session.packages.entries@, session.addresses.entries@),
    {
        let mut packages: Vec<Package> = Vec::new();
        let addrs = &session.addresses.entries;
        let pkgs = &session.packages;
        let mut k: usize = 0;
        proof {
            assert(addrs@.subrange(0, 0) =~= Seq::<(String, Address)>::empty());
            assert(packages_view(packages@) =~= converted(pkgs.entries@, addrs@.subrange(0, 0)));
        }
        while k < addrs.len()
            invariant
                k <= addrs@.len(),
                addrs == &session.addresses.entries,
                pkgs == &session.packages,
                packages_view(packages@) == converted(pkgs.entries@, addrs@.subrange(0, k as int)),
            decreases addrs@.len() - k,
        {
            let address = &addrs[k].1;
            let ghost before = packages@;
            let package_count = address.package_ids.len();
            if package_count > 1 {
                let group_packages_list = collect_members(pkgs, &address.package_ids);
                if group_packages_list.len() > 0 {
                    match pkgs.get(address.package_ids[0].as_str()) {
                        Some(first_pkg) => {
                            let mut recipient = String::new();
                            push_decimal(&mut recipient, package_count);
                            recipient.append(" paquetes");
                            let group_package = Package {
                                id: address.address_id.clone(),
                                tracking: None,
                                recipient,
                                address: address.label.clone(),
                                status: first_pkg.status.clone(),
                                code_statut_article: Some(first_pkg.status.clone()),
                                coords: Some(Coordinates { latitude_bits: address.latitude_bits, longitude_bits: address.longitude_bits }),
                                phone: None,
                                phone_fixed: None,
                                instructions: None,
                                door_code: clone_opt_string(&address.door_code),
                                has_mailbox_access: address.mailbox_access,
                                driver_notes: clone_opt_string(&address.driver_notes),
                                is_group: true,
                                total_packages: Some(package_count),
                                group_packages: Some(group_packages_list),
                                is_problematic: false,
                                type_livraison: Some(delivery_type_label(first_pkg.delivery_type)),
                            };
                            packages.push(group_package);
                        },
                        None => {},
                    }
                }
            } else if package_count == 1 {
                match pkgs.get(address.package_ids[0].as_str()) {
                    Some(pkg) => {
                        packages.push(Self::convert_single_package(pkg, address));
                    },
                    None => {},
                }
            }
            proof {
                let sub = addrs@.subrange(0, k + 1);
                assert(sub.drop_last() =~= addrs@.subrange(0, k as int));
                assert(sub.last() == addrs@[k as int]);
                assert(packages_view(packages@) =~= packages_view(before) + address_cards(pkgs.entries@, *address));
            }
            k += 1;
        }
        assert(addrs@.subrange(0, addrs@.len() as int) =~= addrs@);
        packages
    }

    /// The card of a package that is alone at its address.
    fn convert_single_package(pkg: &SessionPackage, address: &Address) -> (r: Package)
        ensures
            r@ == single_card(*pkg, *address),
    {
        Package {
            id: pkg.internal_id.clone(),
            tracking: Some(pkg.tracking.clone()),
            recipient: pkg.customer_name.clone(),
            address: address.label.clone(),
            status: pkg.status.clone(),
            code_statut_article: Some(pkg.status.clone()),
            coords: Some(Coordinates { latitude_bits: address.latitude_bits, longitude_bits: address.longitude_bits }),
            phone: clone_opt_string(&pkg.phone_number),
            phone_fixed: None,
            instructions: clone_opt_string(&pkg.customer_indication),
            door_code: clone_opt_string(&address.door_code),
            has_mailbox_access: address.mailbox_access,
            driver_notes: clone_opt_string(&address.driver_notes),
            is_group: false,
            total_packages: None,
            group_packages: None,
            is_problematic: pkg.is_problematic,
            type_livraison: Some(delivery_type_label(pkg.delivery_type)),
        }
    }

    /// With the filter on, the cards whose status code is `STATUT_CHARGER`;
    /// with it off, all cards.
    pub fn apply_filters(packages: &[Package], filter_mode: bool) -> (r: Vec<Package>)
        ensures
            packages_view(r@) == if filter_mode {
                packages_view(packages@).filter(loaded_filter())
            } else {
                packages_view(packages@)
            },
    {
        if !filter_mode {
            return clone_packages(packages);
        }
        let mut out: Vec<Package> = Vec::new();
        let mut i: usize = 0;
        while i < packages.len()
            invariant
                i <= packages@.len(),
                packages_view(out@) == packages_view(packages@.subrange(0, i as int)).filter(loaded_filter()),
            decreases packages@.len() - i,
        {
            let p = &packages[i];
            let keep = match &p.code_statut_article {
                Some(code) => str_eq(code.as_str(), "STATUT_CHARGER"),
                None => false,
            };
            proof {
                let sub = packages_view(packages@.subrange(0, i as int));
                assert(packages_view(packages@.subrange(0, i + 1)) =~= sub.push(p@));
                sub.lemma_filter_push(p@, loaded_filter());
                assert(loaded_filter()(p@) == keep);
            }
            if keep {
                let ghost before = out@;
                out.push(p.duplicate());
                assert(packages_view(out@) =~= packages_view(before).push(p@));
            }
            i += 1;
        }
        assert(packages@.subrange(0, packages@.len() as int) =~= packages@);
        out
    }

    /// `(total, treated, percentage)`: the number of cards, the number whose
    /// status does not start with `STATUT_CHARGER`, and the treated share in
    /// whole percent, rounded down (0 without cards).
    pub fn get_stats(packages: &[Package]) -> (r: (usize, usize, usize))
        requires
            packages@.len() <= usize::MAX / 100,
        ensures
            r.0 == packages@.len(),
            r.1 == treated_count(packages_view(packages@)),
            r.2 == if r.0 > 0 { (r.1 * 100) / (r.0 as int) } else { 0 },
            r.1 <= r.0,
            r.2 <= 100,
    {
        let total = packages.len();
        let mut treated: usize = 0;
        let mut i: usize = 0;
        while i < total
            invariant
                i <= total,
                total == packages@.len(),
                treated == packages_view(packages@.subrange(0, i as int)).filter(treated_filter()).len(),
                treated <= i,
            decreases total - i,
        {
            let p = &packages[i];
            proof {
                let sub = packages_view(packages@.subrange(0, i as int));
                assert(packages_view(packages@.subrange(0, i + 1)) =~= sub.push(p@));
                sub.lemma_filter_push(p@, treated_filter());
            }
            let t = !starts_with(p.status.as_str(), "STATUT_CHARGER");
            assert(treated_filter()(p@) == t);
            if !starts_with(p.status.as_str(), "STATUT_CHARGER") {
                treated += 1;
            }
            i += 1;
        }
        assert(packages@.subrange(0, total as int) =~= packages@);
        let percentage = if total > 0 { (treated * 100) / total } else { 0 };
        proof {
            if total > 0 {
                assert((treated * 100) / (total as int) <= 100) by (nonlinear_arith)
                    requires treated <= total, total > 0;
            }
        }
        (total, treated, percentage)
    }
}

/// Each address gives at most one card: a single card when it lists one
/// package, a group card when it lists several.
pub proof fn law_at_most_one_card_per_address(pkgs: Seq<(String, SessionPackage)>, addrs: Seq<(String, Address)>)
    ensures
        converted(pkgs, addrs).len() <= addrs.len(),
        forall|i: int| 0 <= i < addrs.len() ==> {
            let cards = #[trigger] address_cards(pkgs, addrs[i].1);
            &&& cards.len() <= 1
            &&& cards.len() == 1 ==> (cards[0].is_group <==> addrs[i].1.package_ids@.len() > 1)
        },
    decreases addrs.len(),
{
    if addrs.len() > 0 {
        law_at_most_one_card_per_address(pkgs, addrs.drop_last());
        assert forall|i: int| 0 <= i < addrs.len() implies {
            let cards = #[trigger] address_cards(pkgs, addrs[i].1);
            &&& cards.len() <= 1
            &&& cards.len() == 1 ==> (cards[0].is_group <==> addrs[i].1.package_ids@.len() > 1)
        } by {
            if i < addrs.len() - 1 {
                assert(addrs[i] == addrs.drop_last()[i]);
            }
        }
    }
}

/// The card an address listing the one package `p` gets: that package,
/// at that address, with its tracking code, customer, status, contact,
/// problem flag and delivery type, and the address's codes and notes.
pub open spec fn is_card_of_package(c: PackageView, p: SessionPackage, a: Address) -> bool {
    &&& c.id == p.internal_id@
    &&& c.tracking == Some(p.tracking@)
    &&& c.recipient == p.customer_name@
    &&& c.address == a.label@
    &&& c.status == p.status@
    &&& c.code_statut_article == Some(p.status@)
    &&& c.coords == Some(Coordinates { latitude_bits: a.latitude_bits, longitude_bits: a.longitude_bits })
    &&& c.phone == opt_chars(p.phone_number)
    &&& c.instructions == opt_chars(p.customer_indication)
    &&& c.door_code == opt_chars(a.door_code)
    &&& c.has_mailbox_access == a.mailbox_access
    &&& c.driver_notes == opt_chars(a.driver_notes)
    &&& !c.is_group
    &&& c.total_packages is None
    &&& c.group_packages is None
    &&& c.is_problematic == p.is_problematic
    &&& c.type_livraison == Some(type_label(p.delivery_type))
}

/// `c` is a card of the address `a`: the single card of the one package
/// it lists, or, when it lists several, a group card named after the
/// address, counting them, never flagged problematic.
pub open spec fn card_of_address(c: PackageView, pkgs: Seq<(String, SessionPackage)>, a: Address) -> bool {
    ||| (a.package_ids@.len() == 1 && (lookup(pkgs, a.package_ids@[0]@) matches Some(p)
        && is_card_of_package(c, p, a)))
    ||| (a.package_ids@.len() > 1 && c.is_group && c.id == a.address_id@
        && c.total_packages == Some(a.package_ids@.len() as usize)
        && c.recipient == decimal(a.package_ids@.len()) + " paquetes"@
        && c.address == a.label@
        && !c.is_problematic)
}

/// An address listing exactly one package that the session holds gives
/// that package's single card, among the cards of the session; the card
/// carries the package's own problem flag.
pub proof fn law_single_package_address_gives_its_card(
    pkgs: Seq<(String, SessionPackage)>,
    addrs: Seq<(String, Address)>,
    i: int,
    p: SessionPackage,
)
    requires
        0 <= i < addrs.len(),
        addrs[i].1.package_ids@.len() == 1,
        lookup(pkgs, addrs[i].1.package_ids@[0]@) == Some(p),
    ensures
        converted(pkgs, addrs).contains(single_card(p, addrs[i].1)),
        exists|k: int| 0 <= k < converted(pkgs, addrs).len()
            && is_card_of_package(#[trigger] converted(pkgs, addrs)[k], p, addrs[i].1),
    decreases addrs.len(),
{
    let prefix = converted(pkgs, addrs.drop_last());
    let cards = address_cards(pkgs, addrs.last().1);
    let all = converted(pkgs, addrs);
    if i == addrs.len() - 1 {
        assert(cards == seq![single_card(p, addrs[i].1)]);
        assert(all[prefix.len() as int] == single_card(p, addrs[i].1));
        assert(is_card_of_package(all[prefix.len() as int], p, addrs[i].1));
    } else {
        assert(addrs.drop_last()[i] == addrs[i]);
        law_single_package_address_gives_its_card(pkgs, addrs.drop_last(), i, p);
        let k = choose|k: int| 0 <= k < prefix.len() && is_card_of_package(#[trigger] prefix[k], p, addrs[i].1);
        assert(all[k] == prefix[k]);
        assert(all.contains(single_card(p, addrs[i].1))) by {
            let k2 = choose|k2: int| 0 <= k2 < prefix.len() && prefix[k2] == single_card(p, addrs[i].1);
            assert(all[k2] == prefix[k2]);
        }
    }
}

/// Every card of a session belongs to an address of the session: either
/// the single card of the one package it lists, or a group card of an
/// address listing several packages, named after the address, counting
/// them, never flagged problematic.
pub proof fn law_every_card_comes_from_an_address(pkgs: Seq<(String, SessionPackage)>, addrs: Seq<(String, Address)>)
    ensures
        forall|k: int| 0 <= k < converted(pkgs, addrs).len() ==> exists|i: int| 0 <= i < addrs.len()
            && card_of_address(#[trigger] converted(pkgs, addrs)[k], pkgs, addrs[i].1),
    decreases addrs.len(),
{
    if addrs.len() > 0 {
        let rest = addrs.drop_last();
        law_every_card_comes_from_an_address(pkgs, rest);
        let prefix = converted(pkgs, rest);
        let cards = address_cards(pkgs, addrs.last().1);
        let all = converted(pkgs, addrs);
        assert(all == prefix + cards);
        let n = addrs.len() - 1;
        assert forall|k: int| 0 <= k < all.len() implies exists|i: int| 0 <= i < addrs.len() && card_of_address(#[trigger] all[k], pkgs, addrs[i].1) by {
            if k < prefix.len() {
                assert(all[k] == prefix[k]);
                let i = choose|i: int| 0 <= i < rest.len() && card_of_address(#[trigger] prefix[k], pkgs, rest[i].1);
                assert(rest[i] == addrs[i]);
            } else {
                assert(all[k] == cards[k - prefix.len()]);
                assert(addrs[n] == addrs.last());
            }
        }
    }
}

/// The filter keeps a card exactly when its status code is
/// `STATUT_CHARGER`; a card counts as treated exactly when its status does
/// not start with `STATUT_CHARGER`.
pub proof fn law_filter_and_treated_count(cards: Seq<PackageView>, p: PackageView)
    ensures
        cards.push(p).filter(loaded_filter()) == if p.code_statut_article == Some("STATUT_CHARGER"@) {
            cards.filter(loaded_filter()).push(p)
        } else {
            cards.filter(loaded_filter())
        },
        treated_count(cards.push(p)) == treated_count(cards)
            + if seq_starts_with(p.status, "STATUT_CHARGER"@) { 0int } else { 1int },
{
    reveal(Seq::filter);
    cards.lemma_filter_push(p, loaded_filter());
    cards.lemma_filter_push(p, treated_filter());
}

/// A group card lists, for each package id of its address that the session
/// holds, in order, that package's entry: its id, tracking code, customer,
/// contact, status as code, and its own problem flag.
pub proof fn law_group_members_follow_the_ids(pkgs: Seq<(String, SessionPackage)>, ids: Seq<String>, id: String)
    ensures
        group_members(pkgs, ids.push(id)) == match lookup(pkgs, id@) {
            Some(p) => group_members(pkgs, ids).push(GroupPackageInfoView {
                id: p.internal_id@,
                tracking: p.tracking@,
                customer_name: p.customer_name@,
                phone_number: opt_chars(p.phone_number),
                customer_indication: opt_chars(p.customer_indication),
                code_statut_article: Some(p.status@),
                is_problematic: p.is_problematic,
            }),
            None => group_members(pkgs, ids),
        },
{
    assert(ids.push(id).drop_last() =~= ids);
}

/// The group card of an address listing several packages: named after the
/// address, counting its packages, at its position, with the status and
/// delivery type of its first package, its members, and never flagged
/// problematic.
pub proof fn law_group_card_of_address(pkgs: Seq<(String, SessionPackage)>, a: Address)
    requires
        a.package_ids@.len() > 1,
    ensures
        address_cards(pkgs, a).len() <= 1,
        address_cards(pkgs, a).len() == 1 <==> (group_members(pkgs, a.package_ids@).len() > 0
            && lookup(pkgs, a.package_ids@[0]@) is Some),
        address_cards(pkgs, a).len() == 1 ==> ({
            let c = address_cards(pkgs, a)[0];
            let first = lookup(pkgs, a.package_ids@[0]@).unwrap();
            &&& c.id == a.address_id@
            &&& c.is_group
            &&& c.tracking is None
            &&& c.recipient == decimal(a.package_ids@.len()) + " paquetes"@
            &&& c.address == a.label@
            &&& c.status == first.status@
            &&& c.code_statut_article == Some(first.status@)
            &&& c.coords == Some(Coordinates { latitude_bits: a.latitude_bits, longitude_bits: a.longitude_bits })
            &&& c.door_code == opt_chars(a.door_code)
            &&& c.has_mailbox_access == a.mailbox_access
            &&& c.driver_notes == opt_chars(a.driver_notes)
            &&& c.total_packages == Some(a.package_ids@.len() as usize)
            &&& c.group_packages == Some(group_members(pkgs, a.package_ids@))
            &&& !c.is_problematic
            &&& c.type_livraison == Some(type_label(first.delivery_type))
        }),
{
}

/// The delivery type as a card writes it: `DOMICILE` for home delivery,
/// `RCS` for RCS, `RELAIS` for a pickup point.
pub proof fn law_type_labels()
    ensures
        type_label(DeliveryType::Home) == "DOMICILE"@,
        type_label(DeliveryType::Rcs) == "RCS"@,
        type_label(DeliveryType::PickupPoint) == "RELAIS"@,
{
}

} // verus!
