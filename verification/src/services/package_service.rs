//! The package endpoint's answers read into package cards, in the grouped
//! form (singles and address groups) and in the older flat form, and the
//! decisions around the locally stored copy of those cards.

use vstd::prelude::*;
use crate::models::json::JsonValue;
use crate::models::package::{GroupPackageInfo, GroupPackageInfoView, Package, PackageView, infos_view, packages_view};
use crate::models::session::{Coordinates, bits_are_zero, is_zero_bits};
use crate::services::auth_service::http_error_message;
use crate::utils::clock::{is_utc_millis, minutes_between, parse_rfc3339_millis, rfc3339_millis, trunc_minutes};
use crate::utils::text::{contains, decimal, lowercase_of, push_decimal, seq_contains, to_lowercase};

verus! {

/// Version from which a stored copy of the cards carries status codes.
pub const MIN_CACHED_PACKAGES_VERSION: u32 = 2;

/// The first of two optional texts that is present.
pub open spec fn first_text(a: Option<Seq<char>>, b: Option<Seq<char>>) -> Option<Seq<char>> {
    match a {
        Some(x) => Some(x),
        None => b,
    }
}

/// An optional text, or `d` when it is absent.
pub open spec fn text_or(o: Option<Seq<char>>, d: Seq<char>) -> Seq<char> {
    match o {
        Some(x) => x,
        None => d,
    }
}

/// A position from the members "latitude" and "longitude", when both are
/// numbers.
pub open spec fn position_of(v: JsonValue) -> Option<Coordinates> {
    match (v.f64_member("latitude"@), v.f64_member("longitude"@)) {
        (Some(lat), Some(lng)) => Some(Coordinates { latitude_bits: lat, longitude_bits: lng }),
        _ => None,
    }
}

/// The card of an entry of "singles": a position only when neither
/// coordinate is zero.
pub open spec fn single_view(single: JsonValue, index: nat) -> PackageView {
    PackageView {
        id: text_or(
            first_text(single.text_member("tracking"@), single.text_member("id"@)),
            "single-"@ + decimal(index),
        ),
        tracking: None,
        recipient: text_or(single.text_member("customer_name"@), "Destinatario desconocido"@),
        address: text_or(single.text_member("official_label"@), "Dirección no disponible"@),
        status: "pending"@,
        code_statut_article: single.text_member("code_statut_article"@),
        coords: match position_of(single) {
            Some(c) => if !is_zero_bits(c.latitude_bits) && !is_zero_bits(c.longitude_bits) {
                Some(c)
            } else {
                None
            },
            None => None,
        },
        phone: single.text_member("phone_number"@),
        phone_fixed: None,
        instructions: single.text_member("customer_indication"@),
        door_code: None,
        has_mailbox_access: None,
        driver_notes: None,
        is_group: false,
        total_packages: None,
        group_packages: None,
        is_problematic: match single.bool_member("is_problematic"@) {
            Some(b) => b,
            None => false,
        },
        type_livraison: None,
    }
}

/// The group entry of one package of a customer.
pub open spec fn member_view(pkg: JsonValue, customer_name: Seq<char>, phone: Option<Seq<char>>) -> GroupPackageInfoView {
    GroupPackageInfoView {
        id: text_or(pkg.text_member("id"@), "unknown"@),
        tracking: text_or(pkg.text_member("tracking"@), "N/A"@),
        customer_name,
        phone_number: phone,
        customer_indication: pkg.text_member("customer_indication"@),
        code_statut_article: None,
        is_problematic: false,
    }
}

/// The group entries of one customer: one per element of its "packages".
pub open spec fn customer_members(customer: JsonValue) -> Seq<GroupPackageInfoView> {
    let name = text_or(customer.text_member("customer_name"@), "Cliente desconocido"@);
    let phone = customer.text_member("phone_number"@);
    match customer.array_member("packages"@) {
        Some(pkgs) => pkgs.map_values(|p: JsonValue| member_view(p, name, phone)),
        None => seq![],
    }
}

/// The group entries of all customers, in order.
pub open spec fn all_members(customers: Seq<JsonValue>) -> Seq<GroupPackageInfoView>
    decreases customers.len(),
{
    if customers.len() == 0 {
        seq![]
    } else {
        all_members(customers.drop_last()) + customer_members(customers.last())
    }
}

/// The package count a group announces (0 when absent).
pub open spec fn group_total(group: JsonValue) -> usize {
    (match group.u64_member("total_packages"@) {
        Some(t) => t,
        None => 0,
    }) as usize
}

/// The card of an entry of "groups".
pub open spec fn group_view(group: JsonValue, index: nat) -> PackageView {
    PackageView {
        id: text_or(group.text_member("id"@), "group-"@ + decimal(index)),
        tracking: None,
        recipient: decimal(group_total(group) as nat) + " paquetes"@,
        address: text_or(group.text_member("official_label"@), "Dirección no disponible"@),
        status: "pending"@,
        code_statut_article: None,
        coords: position_of(group),
        phone: None,
        phone_fixed: None,
        instructions: group.text_member("driver_notes"@),
        door_code: None,
        has_mailbox_access: None,
        driver_notes: None,
        is_group: true,
        total_packages: Some(group_total(group)),
        group_packages: Some(match group.array_member("customers"@) {
            Some(cs) => all_members(cs),
            None => seq![],
        }),
        is_problematic: false,
        type_livraison: None,
    }
}

/// Texts joined with ", ".
pub open spec fn join_comma(parts: Seq<Seq<char>>) -> Seq<char>
    decreases parts.len(),
{
    if parts.len() == 0 {
        seq![]
    } else if parts.len() == 1 {
        parts[0]
    } else {
        join_comma(parts.drop_last()) + ", "@ + parts.last()
    }
}

/// The present ones among optional texts, in order.
pub open spec fn present(parts: Seq<Option<Seq<char>>>) -> Seq<Seq<char>>
    decreases parts.len(),
{
    if parts.len() == 0 {
        seq![]
    } else {
        let rest = present(parts.drop_last());
        match parts.last() {
            Some(p) => rest.push(p),
            None => rest,
        }
    }
}

/// The address of a flat entry: its geocoded address, else its address,
/// else street, postcode and town joined with ", ", else a placeholder.
pub open spec fn legacy_address(pkg: JsonValue) -> Seq<char> {
    match first_text(pkg.text_member("formatted_address"@), pkg.text_member("address"@)) {
        Some(a) => a,
        None => {
            let parts = present(seq![
                pkg.text_member("destinataire_adresse1"@),
                pkg.text_member("destinataire_cp"@),
                pkg.text_member("destinataire_ville"@),
            ]);
            if parts.len() > 0 {
                join_comma(parts)
            } else {
                "Dirección no disponible"@
            }
        },
    }
}

/// The status of a flat entry: "delivered" when its status, in lower
/// case, contains "livr"; "pending" otherwise.
pub open spec fn legacy_status(pkg: JsonValue) -> Seq<char> {
    match first_text(pkg.text_member("statut"@), pkg.text_member("status"@)) {
        Some(s) => if seq_contains(lowercase_of(s), "livr"@) { "delivered"@ } else { "pending"@ },
        None => "pending"@,
    }
}

/// The card of an entry of the flat form; `index` is its position.
pub open spec fn legacy_view(pkg: JsonValue, index: nat) -> PackageView {
    PackageView {
        id: text_or(
            first_text(pkg.text_member("reference_colis"@), pkg.text_member("tracking_number"@)),
            "PKG-"@ + decimal(index + 1),
        ),
        tracking: None,
        recipient: text_or(
            first_text(pkg.text_member("destinataire_nom"@), pkg.text_member("recipient_name"@)),
            "Destinatario desconocido"@,
        ),
        address: legacy_address(pkg),
        status: legacy_status(pkg),
        code_statut_article: pkg.text_member("code_statut_article"@),
        coords: position_of(pkg),
        phone: pkg.text_member("phone"@),
        phone_fixed: pkg.text_member("phone_fixed"@),
        instructions: None,
        door_code: None,
        has_mailbox_access: None,
        driver_notes: None,
        is_group: false,
        total_packages: None,
        group_packages: None,
        is_problematic: false,
        type_livraison: None,
    }
}

/// The elements of the member `key`, or none when it is not an array.
pub open spec fn items_of(v: JsonValue, key: Seq<char>) -> Seq<JsonValue> {
    match v.array_member(key) {
        Some(a) => a,
        None => seq![],
    }
}

/// The answer is in the grouped form.
pub open spec fn is_grouped(resp: JsonValue) -> bool {
    resp.member("singles"@).is_some() || resp.member("groups"@).is_some()
}

/// The cards of an answer. In the grouped form: the singles, then the
/// groups, the `k`-th group numbered with the count of singles plus `2k`.
/// In the flat form with "success" true: its "packages". Otherwise none.
pub open spec fn response_cards(resp: JsonValue) -> Seq<PackageView> {
    if is_grouped(resp) {
        let singles = items_of(resp, "singles"@);
        let groups = items_of(resp, "groups"@);
        Seq::new(singles.len(), |i: int| single_view(singles[i], i as nat))
            + Seq::new(groups.len(), |k: int| group_view(groups[k], (singles.len() + 2 * k) as nat))
    } else if resp.bool_member("success"@) == Some(true) {
        let pkgs = items_of(resp, "packages"@);
        Seq::new(pkgs.len(), |i: int| legacy_view(pkgs[i], i as nat))
    } else {
        seq![]
    }
}

/// An owned copy of an optional text.
fn owned(o: Option<&str>) -> (r: Option<String>)
    ensures
        match r {
            Some(s) => o matches Some(t) && s@ == t@,
            None => o.is_none(),
        },
{
    match o {
        Some(t) => Some(String::from_str(t)),
        None => None,
    }
}

/// The text, or `d` when it is absent.
fn owned_or(o: Option<&str>, d: &str) -> (r: String)
    ensures
        r@ == match o {
            Some(t) => t@,
            None => d@,
        },
{
    match o {
        Some(t) => String::from_str(t),
        None => String::from_str(d),
    }
}

/// The first of two optional texts that is present.
fn first_of<'a>(a: Option<&'a str>, b: Option<&'a str>) -> (r: Option<&'a str>)
    ensures
        match r {
            Some(t) => first_text(
                match a { Some(x) => Some(x@), None => None },
                match b { Some(x) => Some(x@), None => None },
            ) == Some(t@),
            None => a.is_none() && b.is_none(),
        },
{
    match a {
        Some(x) => Some(x),
        None => b,
    }
}

/// A prefix followed by a number.
fn numbered(prefix: &str, n: usize) -> (r: String)
    ensures
        r@ == prefix@ + decimal(n as nat),
{
    let mut s = String::from_str(prefix);
    push_decimal(&mut s, n);
    s
}

/// The position from "latitude" and "longitude".
fn read_position(v: &JsonValue) -> (r: Option<Coordinates>)
    ensures
        r == position_of(*v),
{
    let lat = match v.get("latitude") {
        Some(x) => x.as_f64_bits(),
        None => None,
    };
    let lng = match v.get("longitude") {
        Some(x) => x.as_f64_bits(),
        None => None,
    };
    match (lat, lng) {
        (Some(a), Some(b)) => Some(Coordinates { latitude_bits: a, longitude_bits: b }),
        _ => None,
    }
}

/// Reads an entry of "singles" into a card; `index` numbers it when it
/// has no code.
pub fn parse_single_package(single: &JsonValue, index: usize) -> (r: Result<Package, String>)
    ensures
        r matches Ok(p) && p@ == single_view(*single, index as nat),
{
    let id = match first_of(single.str_member("tracking"), single.str_member("id")) {
        Some(t) => String::from_str(t),
        None => numbered("single-", index),
    };
    let coords = match read_position(single) {
        Some(c) => if !bits_are_zero(c.latitude_bits) && !bits_are_zero(c.longitude_bits) {
            Some(c)
        } else {
            None
        },
        None => None,
    };
    let is_problematic = match single.get("is_problematic") {
        Some(v) => match v.as_bool() {
            Some(b) => b,
            None => false,
        },
        None => false,
    };
    Ok(Package {
        id,
        tracking: None,
        recipient: owned_or(single.str_member("customer_name"), "Destinatario desconocido"),
        address: owned_or(single.str_member("official_label"), "Dirección no disponible"),
        status: String::from_str("pending"),
        code_statut_article: owned(single.str_member("code_statut_article")),
        coords,
        phone: owned(single.str_member("phone_number")),
        phone_fixed: None,
        instructions: owned(single.str_member("customer_indication")),
        door_code: None,
        has_mailbox_access: None,
        driver_notes: None,
        is_group: false,
        total_packages: None,
        group_packages: None,
        is_problematic,
        type_livraison: None,
    })
}

/// The group entries of one customer, added to `out`.
fn push_customer_members(customer: &JsonValue, out: &mut Vec<GroupPackageInfo>)
    ensures
        infos_view(final(out)@) == infos_view(old(out)@) + customer_members(*customer),
{
    let name = owned_or(customer.str_member("customer_name"), "Cliente desconocido");
    let phone = owned(customer.str_member("phone_number"));
    let ghost spec_phone = customer.text_member("phone_number"@);
    let ghost start = infos_view(out@);
    match customer.get("packages") {
        Some(v) => match v.as_array() {
            Some(pkgs) => {
                let mut i: usize = 0;
                while i < pkgs.len()
                    invariant
                        i <= pkgs@.len(),
                        name@ == text_or(customer.text_member("customer_name"@), "Cliente desconocido"@),
                        (match phone { Some(s) => Some(s@), None => None }) == spec_phone,
                        spec_phone == customer.text_member("phone_number"@),
                        customer.array_member("packages"@) == Some(pkgs@),
                        infos_view(out@) == start + pkgs@.subrange(0, i as int).map_values(
                            |p: JsonValue| member_view(p, name@, spec_phone)),
                    decreases pkgs@.len() - i,
                {
                    let pkg = &pkgs[i];
                    let info = GroupPackageInfo {
                        id: owned_or(pkg.str_member("id"), "unknown"),
                        tracking: owned_or(pkg.str_member("tracking"), "N/A"),
                        customer_name: name.clone(),
                        phone_number: match &phone {
                            Some(s) => Some(s.clone()),
                            None => None,
                        },
                        customer_indication: owned(pkg.str_member("customer_indication")),
                        code_statut_article: None,
                        is_problematic: false,
                    };
                    let ghost before = out@;
                    out.push(info);
                    proof {
                        assert(infos_view(out@) =~= infos_view(before).push(info@));
                        assert(pkgs@.subrange(0, i as int + 1) =~= pkgs@.subrange(0, i as int).push(pkgs@[i as int]));
                        assert(info@ == member_view(pkgs@[i as int], name@, spec_phone));
                        assert(pkgs@.subrange(0, i as int + 1).map_values(|p: JsonValue| member_view(p, name@, spec_phone))
                            =~= pkgs@.subrange(0, i as int).map_values(|p: JsonValue| member_view(p, name@, spec_phone))
                                .push(member_view(pkgs@[i as int], name@, spec_phone)));
                    }
                    i += 1;
                }
                proof {
                    assert(pkgs@.subrange(0, pkgs@.len() as int) =~= pkgs@);
                }
            },
            None => {
                assert(infos_view(out@) =~= start + Seq::<GroupPackageInfoView>::empty());
            },
        },
        None => {
            assert(infos_view(out@) =~= start + Seq::<GroupPackageInfoView>::empty());
        },
    }
}

/// Reads an entry of "groups" into a group card with one entry per
/// package of each customer; `index` numbers it when it has no id.
pub fn parse_group_package(group: &JsonValue, index: usize) -> (r: Result<Package, String>)
    ensures
        r matches Ok(p) && p@ == group_view(*group, index as nat),
{
    let total_packages: usize = match group.get("total_packages") {
        Some(v) => match v.as_u64() {
            Some(t) => t as usize,
            None => 0,
        },
        None => 0,
    };
    let mut members: Vec<GroupPackageInfo> = Vec::new();
    match group.get("customers") {
        Some(v) => match v.as_array() {
            Some(customers) => {
                let mut c: usize = 0;
                while c < customers.len()
                    invariant
                        c <= customers@.len(),
                        infos_view(members@) == all_members(customers@.subrange(0, c as int)),
                    decreases customers@.len() - c,
                {
                    push_customer_members(&customers[c], &mut members);
                    proof {
                        assert(customers@.subrange(0, c as int + 1).drop_last() =~= customers@.subrange(0, c as int));
                    }
                    c += 1;
                }
                proof {
                    assert(customers@.subrange(0, customers@.len() as int) =~= customers@);
                }
            },
            None => {
                assert(infos_view(members@) =~= Seq::<GroupPackageInfoView>::empty());
            },
        },
        None => {
            assert(infos_view(members@) =~= Seq::<GroupPackageInfoView>::empty());
        },
    }
    let id = match group.str_member("id") {
        Some(t) => String::from_str(t),
        None => numbered("group-", index),
    };
    let mut recipient = String::new();
    push_decimal(&mut recipient, total_packages);
    recipient.append(" paquetes");
    Ok(Package {
        id,
        tracking: None,
        recipient,
        address: owned_or(group.str_member("official_label"), "Dirección no disponible"),
        status: String::from_str("pending"),
        code_statut_article: None,
        coords: read_position(group),
        phone: None,
        phone_fixed: None,
        instructions: owned(group.str_member("driver_notes")),
        door_code: None,
        has_mailbox_access: None,
        driver_notes: None,
        is_group: true,
        total_packages: Some(total_packages),
        group_packages: Some(members),
        is_problematic: false,
        type_livraison: None,
    })
}

/// The address of a flat entry.
fn read_legacy_address(pkg: &JsonValue) -> (r: String)
    ensures
        r@ == legacy_address(*pkg),
{
    match first_of(pkg.str_member("formatted_address"), pkg.str_member("address")) {
        Some(a) => String::from_str(a),
        None => {
            let opts: Vec<Option<&str>> = vec![
                pkg.str_member("destinataire_adresse1"),
                pkg.str_member("destinataire_cp"),
                pkg.str_member("destinataire_ville"),
            ];
            let ghost spec_opts: Seq<Option<Seq<char>>> = seq![
                pkg.text_member("destinataire_adresse1"@),
                pkg.text_member("destinataire_cp"@),
                pkg.text_member("destinataire_ville"@),
            ];
            let mut out = String::new();
            let mut count: usize = 0;
            let mut i: usize = 0;
            while i < 3
                invariant
                    i <= 3,
                    opts@.len() == 3,
                    forall|j: int| 0 <= j < 3 ==> (match #[trigger] opts@[j] { Some(t) => Some(t@), None => None }) == spec_opts[j],
                    spec_opts.len() == 3,
                    count == present(spec_opts.subrange(0, i as int)).len(),
                    count <= i,
                    out@ == join_comma(present(spec_opts.subrange(0, i as int))),
                decreases 3 - i,
            {
                let ghost prev = present(spec_opts.subrange(0, i as int));
                proof {
                    assert(spec_opts.subrange(0, i as int + 1).drop_last() =~= spec_opts.subrange(0, i as int));
                    assert(spec_opts.subrange(0, i as int + 1).last() == spec_opts[i as int]);
                }
                let o = opts[i];
                assert((match o { Some(t) => Some(t@), None => None }) == spec_opts[i as int]);
                match o {
                    Some(t) => {
                        if count > 0 {
                            out.append(", ");
                        }
                        out.append(t);
                        count += 1;
                        proof {
                            assert(prev.push(t@).drop_last() =~= prev);
                            if prev.len() == 0 {
                                assert(prev.push(t@).len() == 1);
                                assert(prev.push(t@)[0] == t@);
                            }
                        }
                    },
                    None => {},
                }
                i += 1;
            }
            proof {
                assert(spec_opts.subrange(0, 3) =~= spec_opts);
            }
            if count > 0 {
                out
            } else {
                String::from_str("Dirección no disponible")
            }
        },
    }
}

/// Reads an entry of the flat form into a card; `index` is its position.
pub fn parse_legacy_package(pkg: &JsonValue, index: usize) -> (r: Package)
    requires
        index < usize::MAX,
    ensures
        r@ == legacy_view(*pkg, index as nat),
{
    let id = match first_of(pkg.str_member("reference_colis"), pkg.str_member("tracking_number")) {
        Some(t) => String::from_str(t),
        None => numbered("PKG-", index + 1),
    };
    let recipient = match first_of(pkg.str_member("destinataire_nom"), pkg.str_member("recipient_name")) {
        Some(t) => String::from_str(t),
        None => String::from_str("Destinatario desconocido"),
    };
    let status = match first_of(pkg.str_member("statut"), pkg.str_member("status")) {
        Some(s) => {
            let lower = to_lowercase(s);
            if contains(lower.as_str(), "livr") {
                String::from_str("delivered")
            } else {
                String::from_str("pending")
            }
        },
        None => String::from_str("pending"),
    };
    Package {
        id,
        tracking: None,
        recipient,
        address: read_legacy_address(pkg),
        status,
        code_statut_article: owned(pkg.str_member("code_statut_article")),
        coords: read_position(pkg),
        phone: owned(pkg.str_member("phone")),
        phone_fixed: owned(pkg.str_member("phone_fixed")),
        instructions: None,
        door_code: None,
        has_mailbox_access: None,
        driver_notes: None,
        is_group: false,
        total_packages: None,
        group_packages: None,
        is_problematic: false,
        type_livraison: None,
    }
}

/// The elements of the member `key`, when it is an array.
fn array_of<'a>(v: &'a JsonValue, key: &str) -> (r: Option<&'a Vec<JsonValue>>)
    ensures
        match r {
            Some(items) => v.array_member(key@) == Some(items@),
            None => v.array_member(key@).is_none(),
        },
{
    match v.get(key) {
        Some(x) => x.as_array(),
        None => None,
    }
}

/// Reads the package endpoint's answer into cards: the grouped form
/// (singles then groups) or, when "success" is true, the flat form.
pub fn parse_packages_response(resp: &JsonValue) -> (r: Vec<Package>)
    requires
        items_of(*resp, "singles"@).len() + 2 * items_of(*resp, "groups"@).len() <= usize::MAX,
    ensures
        packages_view(r@) == response_cards(*resp),
{
    let mut all: Vec<Package> = Vec::new();
    let grouped = resp.get("singles").is_some() || resp.get("groups").is_some();
    if grouped {
        let ghost singles_s = items_of(*resp, "singles"@);
        let ghost groups_s = items_of(*resp, "groups"@);
        let n_singles: usize = match array_of(resp, "singles") {
            Some(singles) => {
                let mut i: usize = 0;
                while i < singles.len()
                    invariant
                        i <= singles@.len(),
                        singles@ == singles_s,
                        packages_view(all@) == Seq::new(i as nat, |j: int| single_view(singles_s[j], j as nat)),
                    decreases singles@.len() - i,
                {
                    match parse_single_package(&singles[i], i) {
                        Ok(p) => {
                            let ghost before = all@;
                            all.push(p);
                            proof {
                                assert(packages_view(all@) =~= packages_view(before).push(p@));
                            }
                        },
                        Err(_) => {},
                    }
                    proof {
                        assert(packages_view(all@) =~= Seq::new((i + 1) as nat, |j: int| single_view(singles_s[j], j as nat)));
                    }
                    i += 1;
                }
                singles.len()
            },
            None => 0,
        };
        assert(n_singles == singles_s.len());
        let ghost first_part = Seq::new(singles_s.len(), |i: int| single_view(singles_s[i], i as nat));
        match array_of(resp, "groups") {
            Some(groups) => {
                let mut k: usize = 0;
                while k < groups.len()
                    invariant
                        k <= groups@.len(),
                        groups@ == groups_s,
                        all@.len() == n_singles + k,
                        n_singles == singles_s.len(),
                        n_singles + 2 * groups_s.len() <= usize::MAX,
                        packages_view(all@) == first_part
                            + Seq::new(k as nat, |j: int| group_view(groups_s[j], (singles_s.len() + 2 * j) as nat)),
                    decreases groups@.len() - k,
                {
                    let position = all.len() + k;
                    match parse_group_package(&groups[k], position) {
                        Ok(p) => {
                            let ghost before = all@;
                            all.push(p);
                            proof {
                                assert(packages_view(all@) =~= packages_view(before).push(p@));
                            }
                        },
                        Err(_) => {},
                    }
                    proof {
                        assert(packages_view(all@) =~= first_part
                            + Seq::new((k + 1) as nat, |j: int| group_view(groups_s[j], (singles_s.len() + 2 * j) as nat)));
                    }
                    k += 1;
                }
            },
            None => {
                assert(packages_view(all@) =~= first_part
                    + Seq::new(0, |j: int| group_view(groups_s[j], (singles_s.len() + 2 * j) as nat)));
            },
        }
        all
    } else {
        let success = match resp.get("success") {
            Some(v) => v.as_bool(),
            None => None,
        };
        match success {
            Some(true) => {
                let ghost pkgs_s = items_of(*resp, "packages"@);
                match array_of(resp, "packages") {
                    Some(pkgs) => {
                        let mut i: usize = 0;
                        while i < pkgs.len()
                            invariant
                                i <= pkgs@.len(),
                                pkgs@ == pkgs_s,
                                packages_view(all@) == Seq::new(i as nat, |j: int| legacy_view(pkgs_s[j], j as nat)),
                            decreases pkgs@.len() - i,
                        {
                            let p = parse_legacy_package(&pkgs[i], i);
                            let ghost before = all@;
                            all.push(p);
                            proof {
                                assert(packages_view(all@) =~= packages_view(before).push(p@));
                                assert(packages_view(all@) =~= Seq::new((i + 1) as nat, |j: int| legacy_view(pkgs_s[j], j as nat)));
                            }
                            i += 1;
                        }
                    },
                    None => {
                        assert(packages_view(all@) =~= Seq::<PackageView>::empty());
                    },
                }
                all
            },
            _ => all,
        }
    }
}

/// Position of the last underscore of `s`.
pub open spec fn last_underscore(s: Seq<char>) -> Option<int>
    decreases s.len(),
{
    if s.len() == 0 {
        None
    } else if s.last() == '_' {
        Some(s.len() - 1)
    } else {
        last_underscore(s.drop_last())
    }
}

/// The part of a login after its last underscore (logins read
/// "COMPANY_CODE_MATRICULE"); the whole login when it has none.
pub open spec fn matricule_of(username: Seq<char>) -> Seq<char> {
    match last_underscore(username) {
        Some(u) => username.subrange(u + 1, username.len() as int),
        None => username,
    }
}

/// The driver's number within a login.
pub fn extract_matricule(username: &str) -> (r: &str)
    ensures
        r@ == matricule_of(username@),
{
    let n = username.unicode_len();
    let mut i: usize = n;
    while i > 0
        invariant
            i <= n,
            n == username@.len(),
            forall|j: int| i <= j < n ==> username@[j] != '_',
        decreases i,
    {
        if username.get_char(i - 1) == '_' {
            let r = username.substring_char(i, n);
            proof {
                lemma_last_underscore(username@, (i - 1) as int);
            }
            return r;
        }
        i -= 1;
    }
    proof {
        lemma_no_underscore(username@);
    }
    username
}

/// An underscore with none after it is the last one.
proof fn lemma_last_underscore(s: Seq<char>, u: int)
    requires
        0 <= u < s.len(),
        s[u] == '_',
        forall|j: int| u < j < s.len() ==> s[j] != '_',
    ensures
        last_underscore(s) == Some(u),
    decreases s.len(),
{
    if u < s.len() - 1 {
        lemma_last_underscore(s.drop_last(), u);
    }
}

/// A text without underscore has no last underscore.
proof fn lemma_no_underscore(s: Seq<char>)
    requires
        forall|j: int| 0 <= j < s.len() ==> s[j] != '_',
    ensures
        last_underscore(s).is_none(),
    decreases s.len(),
{
    if s.len() > 0 {
        lemma_no_underscore(s.drop_last());
    }
}

/// The stored copy of the cards may be used: it was written less than
/// `max_age_minutes` whole minutes before `now` (its time `stored_at` being
/// RFC 3339) and is at least of the version that carries status codes.
pub open spec fn spec_cached_packages_usable(stored_at: Seq<char>, version: u32, now: int, max_age_minutes: int) -> bool {
    match rfc3339_millis(stored_at) {
        Some(t) => trunc_minutes(now - t) < max_age_minutes && version >= MIN_CACHED_PACKAGES_VERSION,
        None => false,
    }
}

/// Whether the stored copy of the cards, written at `stored_at` with
/// `version`, may be used at time `now`.
pub fn cached_packages_usable(stored_at: &str, version: u32, now: i64, max_age_minutes: i64) -> (r: bool)
    requires
        is_utc_millis(now as int),
    ensures
        r == spec_cached_packages_usable(stored_at@, version, now as int, max_age_minutes as int),
{
    match parse_rfc3339_millis(stored_at) {
        Some(t) => {
            let age = minutes_between(now, t);
            age < max_age_minutes && version >= MIN_CACHED_PACKAGES_VERSION
        },
        None => false,
    }
}

/// What the package endpoint did with a request.
pub enum PackagesAnswer {
    /// It answered with a refusal of this HTTP status.
    Refused { status: u16 },
    /// It could not be reached; the network's error.
    Unreachable { error: String },
    /// It answered; the cards read from its answer.
    Answered { packages: Vec<Package> },
}

/// The cards a fetch gives back, and whether they are to be stored.
pub struct PackagesFetch {
    pub result: Result<Vec<Package>, String>,
    pub store: bool,
}

/// After a request of the driver's cards: the answer's cards, to be stored
/// when there are any; on a refusal or a network error, the stored copy
/// (`stored`) when one could be read, else the error.
pub fn packages_after_request(answer: PackagesAnswer, stored: Option<Vec<Package>>) -> (r: PackagesFetch)
    ensures
        match answer {
            PackagesAnswer::Answered { packages } => r.result == Ok::<Vec<Package>, String>(packages)
                && r.store == (packages@.len() > 0),
            PackagesAnswer::Refused { status } => !r.store && match stored {
                Some(copy) => r.result == Ok::<Vec<Package>, String>(copy),
                None => r.result matches Err(e) && e@ == "HTTP error: "@ + decimal(status as nat),
            },
            PackagesAnswer::Unreachable { error } => !r.store && match stored {
                Some(copy) => r.result == Ok::<Vec<Package>, String>(copy),
                None => r.result matches Err(e) && e@ == "Request error: "@ + error@,
            },
        },
{
    match answer {
        PackagesAnswer::Answered { packages } => {
            let store = packages.len() > 0;
            PackagesFetch { result: Ok(packages), store }
        },
        PackagesAnswer::Refused { status } => match stored {
            Some(copy) => PackagesFetch { result: Ok(copy), store: false },
            None => PackagesFetch { result: Err(http_error_message(status)), store: false },
        },
        PackagesAnswer::Unreachable { error } => match stored {
            Some(copy) => PackagesFetch { result: Ok(copy), store: false },
            None => {
                let mut msg = String::from_str("Request error: ");
                msg.append(error.as_str());
                PackagesFetch { result: Err(msg), store: false }
            },
        },
    }
}

/// The card of an entry of "groups": named by its "id" (else "group-" and
/// its number), at its "official_label" whenever that is a text (the
/// placeholder only when it is not), announcing its "total_packages", with
/// the notes of "driver_notes", the position of "latitude" and "longitude",
/// pending and never flagged problematic.
pub proof fn law_group_card_reads_its_entry(group: JsonValue, index: nat)
    ensures
        ({
            let c = group_view(group, index);
            let total: usize = match group.u64_member("total_packages"@) {
                Some(t) => t as usize,
                None => 0usize,
            };
            &&& c.id == match group.text_member("id"@) {
                Some(t) => t,
                None => "group-"@ + decimal(index),
            }
            &&& c.address == match group.text_member("official_label"@) {
                Some(l) => l,
                None => "Dirección no disponible"@,
            }
            &&& c.recipient == decimal(total as nat) + " paquetes"@
            &&& c.total_packages == Some(total)
            &&& c.is_group
            &&& !c.is_problematic
            &&& c.status == "pending"@
            &&& c.tracking is None
            &&& c.code_statut_article is None
            &&& c.instructions == group.text_member("driver_notes"@)
            &&& c.coords == match (group.f64_member("latitude"@), group.f64_member("longitude"@)) {
                (Some(lat), Some(lng)) => Some(Coordinates { latitude_bits: lat, longitude_bits: lng }),
                _ => None,
            }
        }),
{
}

/// The card of an entry of "singles": named by its "tracking" (else its
/// "id", else "single-" and its number), for its "customer_name", at its
/// "official_label" (placeholders when they are not texts), with its
/// status code, phone and instructions, placed only when neither coordinate
/// is zero, flagged problematic only when its "is_problematic" says so.
pub proof fn law_single_card_reads_its_entry(single: JsonValue, index: nat)
    ensures
        ({
            let c = single_view(single, index);
            &&& c.id == match single.text_member("tracking"@) {
                Some(t) => t,
                None => match single.text_member("id"@) {
                    Some(t) => t,
                    None => "single-"@ + decimal(index),
                },
            }
            &&& c.recipient == match single.text_member("customer_name"@) {
                Some(n) => n,
                None => "Destinatario desconocido"@,
            }
            &&& c.address == match single.text_member("official_label"@) {
                Some(l) => l,
                None => "Dirección no disponible"@,
            }
            &&& c.code_statut_article == single.text_member("code_statut_article"@)
            &&& c.phone == single.text_member("phone_number"@)
            &&& c.instructions == single.text_member("customer_indication"@)
            &&& c.status == "pending"@
            &&& !c.is_group
            &&& c.total_packages is None
            &&& c.is_problematic == (single.bool_member("is_problematic"@) == Some(true))
            &&& c.coords == match (single.f64_member("latitude"@), single.f64_member("longitude"@)) {
                (Some(lat), Some(lng)) => if !is_zero_bits(lat) && !is_zero_bits(lng) {
                    Some(Coordinates { latitude_bits: lat, longitude_bits: lng })
                } else {
                    None
                },
                _ => None,
            }
        }),
{
}

/// The card of an entry of the flat form: named by "reference_colis"
/// (else "tracking_number", else "PKG-" and its position counted from 1),
/// for "destinataire_nom" (else "recipient_name", else a placeholder), at
/// its "formatted_address" or else its "address" when either is a text,
/// with its status code and phones; never a group, never problematic.
pub proof fn law_flat_card_reads_its_entry(pkg: JsonValue, index: nat)
    ensures
        ({
            let c = legacy_view(pkg, index);
            &&& c.id == match pkg.text_member("reference_colis"@) {
                Some(t) => t,
                None => match pkg.text_member("tracking_number"@) {
                    Some(t) => t,
                    None => "PKG-"@ + decimal(index + 1),
                },
            }
            &&& c.recipient == match pkg.text_member("destinataire_nom"@) {
                Some(t) => t,
                None => match pkg.text_member("recipient_name"@) {
                    Some(t) => t,
                    None => "Destinatario desconocido"@,
                },
            }
            &&& pkg.text_member("formatted_address"@) matches Some(a) ==> c.address == a
            &&& pkg.text_member("formatted_address"@) is None ==> (pkg.text_member("address"@) matches Some(a)
                ==> c.address == a)
            &&& c.status == match (pkg.text_member("statut"@), pkg.text_member("status"@)) {
                (Some(st), _) => if seq_contains(lowercase_of(st), "livr"@) { "delivered"@ } else { "pending"@ },
                (None, Some(st)) => if seq_contains(lowercase_of(st), "livr"@) { "delivered"@ } else { "pending"@ },
                (None, None) => "pending"@,
            }
            &&& (pkg.text_member("formatted_address"@) is None && pkg.text_member("address"@) is None
                && pkg.text_member("destinataire_adresse1"@) is None && pkg.text_member("destinataire_cp"@) is None
                && pkg.text_member("destinataire_ville"@) is None) ==> c.address == "Dirección no disponible"@
            &&& c.code_statut_article == pkg.text_member("code_statut_article"@)
            &&& c.phone == pkg.text_member("phone"@)
            &&& c.phone_fixed == pkg.text_member("phone_fixed"@)
            &&& !c.is_group
            &&& !c.is_problematic
        }),
{
    let parts = seq![
        pkg.text_member("destinataire_adresse1"@),
        pkg.text_member("destinataire_cp"@),
        pkg.text_member("destinataire_ville"@),
    ];
    if parts[0] is None && parts[1] is None && parts[2] is None {
        let p1 = parts.drop_last().drop_last();
        assert(p1.len() == 1 && p1.last() is None);
        assert(p1.drop_last() =~= Seq::<Option<Seq<char>>>::empty());
        assert(present(p1.drop_last()) =~= Seq::<Seq<char>>::empty());
        assert(present(p1) =~= Seq::<Seq<char>>::empty());
        assert(parts.drop_last().last() is None);
        assert(present(parts.drop_last()) =~= Seq::<Seq<char>>::empty());
        assert(present(parts) =~= Seq::<Seq<char>>::empty());
    }
}

/// A group card lists, customer after customer, one entry per element of
/// the customer's "packages": its "id" (else "unknown"), its "tracking"
/// (else "N/A"), the customer's "customer_name" (else "Cliente
/// desconocido") and "phone_number", the package's "customer_indication",
/// no status code and no problem flag.
pub proof fn law_group_members_read_the_customers(customers: Seq<JsonValue>, customer: JsonValue)
    ensures
        all_members(customers.push(customer)) == all_members(customers) + customer_members(customer),
        ({
            let ms = customer_members(customer);
            let pkgs = match customer.array_member("packages"@) { Some(a) => a, None => seq![] };
            &&& ms.len() == pkgs.len()
            &&& forall|j: int| 0 <= j < pkgs.len() ==> {
                let m = #[trigger] ms[j];
                &&& m.id == match pkgs[j].text_member("id"@) { Some(t) => t, None => "unknown"@ }
                &&& m.tracking == match pkgs[j].text_member("tracking"@) { Some(t) => t, None => "N/A"@ }
                &&& m.customer_name == match customer.text_member("customer_name"@) {
                    Some(t) => t,
                    None => "Cliente desconocido"@,
                }
                &&& m.phone_number == customer.text_member("phone_number"@)
                &&& m.customer_indication == pkgs[j].text_member("customer_indication"@)
                &&& m.code_statut_article is None
                &&& !m.is_problematic
            }
        }),
{
    assert(customers.push(customer).drop_last() =~= customers);
}

/// The cards of an answer: with a "singles" or a "groups" member, one card
/// per single, in order, then one per group, the `k`-th group numbered
/// with the count of singles plus `2k`; otherwise, when "success" is true,
/// one card per element of "packages", numbered by position; otherwise
/// none.
pub proof fn law_response_cards_follow_the_answer(resp: JsonValue)
    ensures
        ({
            let cards = response_cards(resp);
            let singles = match resp.array_member("singles"@) { Some(a) => a, None => seq![] };
            let groups = match resp.array_member("groups"@) { Some(a) => a, None => seq![] };
            let flat = match resp.array_member("packages"@) { Some(a) => a, None => seq![] };
            if resp.member("singles"@) is Some || resp.member("groups"@) is Some {
                &&& cards.len() == singles.len() + groups.len()
                &&& forall|i: int| 0 <= i < singles.len() ==> #[trigger] cards[i] == single_view(singles[i], i as nat)
                &&& forall|k: int| 0 <= k < groups.len() ==>
                    #[trigger] cards[singles.len() + k] == group_view(groups[k], (singles.len() + 2 * k) as nat)
            } else if resp.bool_member("success"@) == Some(true) {
                &&& cards.len() == flat.len()
                &&& forall|i: int| 0 <= i < flat.len() ==> #[trigger] cards[i] == legacy_view(flat[i], i as nat)
            } else {
                cards.len() == 0
            }
        }),
{
    let singles = items_of(resp, "singles"@);
    let groups = items_of(resp, "groups"@);
    if is_grouped(resp) {
        let a = Seq::new(singles.len(), |i: int| single_view(singles[i], i as nat));
        let b = Seq::new(groups.len(), |k: int| group_view(groups[k], (singles.len() + 2 * k) as nat));
        assert forall|k: int| 0 <= k < groups.len() implies
            #[trigger] response_cards(resp)[singles.len() + k] == group_view(groups[k], (singles.len() + 2 * k) as nat) by {
            assert((a + b)[singles.len() + k] == b[k]);
        }
    }
}

/// The last underscore found is one.
proof fn lemma_last_underscore_is_one(s: Seq<char>)
    ensures
        last_underscore(s) matches Some(u) ==> 0 <= u < s.len() && s[u] == '_',
    decreases s.len(),
{
    if s.len() > 0 && s.last() != '_' {
        lemma_last_underscore_is_one(s.drop_last());
        if last_underscore(s) is Some {
            let u = last_underscore(s).unwrap();
            assert(s[u] == s.drop_last()[u]);
        }
    }
}

/// The driver's number is the end of the login after its last underscore:
/// the whole login when it has none, otherwise what follows an underscore
/// and holds none.
pub proof fn law_matricule_is_the_part_after_the_last_underscore(username: Seq<char>)
    ensures
        exists|k: int| 0 <= k <= username.len() && matricule_of(username) == username.subrange(k, username.len() as int)
            && (k == 0 || username[k - 1] == '_'),
        !matricule_of(username).contains('_'),
        !username.contains('_') ==> matricule_of(username) == username,
{
    lemma_after_last_underscore(username);
    lemma_last_underscore_is_one(username);
    match last_underscore(username) {
        Some(u) => {
            assert(matricule_of(username) == username.subrange(u + 1, username.len() as int));
            assert(username[u] == '_');
        },
        None => {
            assert(username.subrange(0, username.len() as int) =~= username);
            assert(matricule_of(username) == username);
        },
    }
    if !username.contains('_') {
        if last_underscore(username) is Some {
            let u = last_underscore(username).unwrap();
            assert(username[u] == '_');
        }
    }
}

/// The stored copy of the cards serves while it is younger than the given
/// number of whole minutes, measured in milliseconds from the time it was
/// written, and only from the version that carries status codes.
pub proof fn law_stored_copy_serves_for_its_minutes(stored_at: Seq<char>, version: u32, now: int, max_age_minutes: int)
    requires
        rfc3339_millis(stored_at) matches Some(t) && now >= t,
    ensures
        spec_cached_packages_usable(stored_at, version, now, max_age_minutes)
            <==> (now - rfc3339_millis(stored_at).unwrap() < max_age_minutes * 60_000 && version >= 2),
        rfc3339_millis(stored_at) is None ==> !spec_cached_packages_usable(stored_at, version, now, max_age_minutes),
{
    let t = rfc3339_millis(stored_at).unwrap();
    let d = now - t;
    assert((d / 60_000 < max_age_minutes) <==> (d < max_age_minutes * 60_000)) by (nonlinear_arith)
        requires
            d >= 0,
    ;
}

/// The driver's number taken from a login never holds an underscore.
pub proof fn law_matricule_has_no_underscore(username: Seq<char>)
    ensures
        !matricule_of(username).contains('_'),
{
    lemma_after_last_underscore(username);
}

/// Nothing after the last underscore is one, and without a last underscore
/// there is none.
proof fn lemma_after_last_underscore(s: Seq<char>)
    ensures
        match last_underscore(s) {
            Some(u) => 0 <= u < s.len() && forall|j: int| u < j < s.len() ==> s[j] != '_',
            None => forall|j: int| 0 <= j < s.len() ==> s[j] != '_',
        },
        !matricule_of(s).contains('_'),
    decreases s.len(),
{
    if s.len() > 0 {
        lemma_after_last_underscore(s.drop_last());
        assert forall|j: int| 0 <= j < s.len() - 1 implies s[j] == s.drop_last()[j] by {}
    }
    match last_underscore(s) {
        Some(u) => {
            let m = s.subrange(u + 1, s.len() as int);
            assert forall|k: int| 0 <= k < m.len() implies m[k] != '_' by {
                assert(m[k] == s[u + 1 + k]);
            }
        },
        None => {},
    }
}

/// In the grouped form every single and every group gives one card, and
/// a card's kind follows the list it came from.
pub proof fn law_one_card_per_entry(resp: JsonValue)
    requires
        is_grouped(resp),
    ensures
        response_cards(resp).len() == items_of(resp, "singles"@).len() + items_of(resp, "groups"@).len(),
        forall|i: int| 0 <= i < items_of(resp, "singles"@).len() ==> !(#[trigger] response_cards(resp)[i]).is_group,
        forall|k: int| 0 <= k < items_of(resp, "groups"@).len() ==>
            (#[trigger] response_cards(resp)[items_of(resp, "singles"@).len() + k]).is_group,
{
    let singles = items_of(resp, "singles"@);
    let groups = items_of(resp, "groups"@);
    let a = Seq::new(singles.len(), |i: int| single_view(singles[i], i as nat));
    let b = Seq::new(groups.len(), |k: int| group_view(groups[k], (singles.len() + 2 * k) as nat));
    assert(response_cards(resp) == a + b);
    assert forall|k: int| 0 <= k < groups.len() implies (#[trigger] response_cards(resp)[singles.len() + k]).is_group by {
        assert((a + b)[singles.len() + k] == b[k]);
    }
}

} // verus!
