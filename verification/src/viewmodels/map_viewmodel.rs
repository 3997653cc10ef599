//! The points that the map shows: one per group of packages at an address
//! with known coordinates.

use vstd::prelude::*;
use crate::models::session::{Coordinates, DeliverySession, SessionPackage, bits_are_zero, is_zero_bits};
use crate::models::strmap::lookup;
use crate::services::delivery_session_converter::{delivery_type_label, type_label};
use crate::utils::text::{decimal, push_decimal};
use crate::views::package_list::PackageGroup;

verus! {

/// One point on the map.
pub struct MapPackage {
    pub id: String,
    pub recipient: String,
    pub address: String,
    pub coords: Coordinates,
    pub status: String,
    pub code_statut_article: String,
    pub type_livraison: String,
    pub is_problematic: bool,
    pub group_idx: usize,
}

/// The characters of a [`MapPackage`].
pub struct MapPackageView {
    pub id: Seq<char>,
    pub recipient: Seq<char>,
    pub address: Seq<char>,
    pub coords: Coordinates,
    pub status: Seq<char>,
    pub code_statut_article: Seq<char>,
    pub type_livraison: Seq<char>,
    pub is_problematic: bool,
    pub group_idx: usize,
}

impl View for MapPackage {
    type V = MapPackageView;

    open spec fn view(&self) -> MapPackageView {
        MapPackageView {
            id: self.id@,
            recipient: self.recipient@,
            address: self.address@,
            coords: self.coords,
            status: self.status@,
            code_statut_article: self.code_statut_article@,
            type_livraison: self.type_livraison@,
            is_problematic: self.is_problematic,
            group_idx: self.group_idx,
        }
    }
}

/// Some package of the list is problematic.
pub open spec fn any_problematic(s: Seq<SessionPackage>) -> bool {
    exists|j: int| 0 <= j < s.len() && (#[trigger] s[j]).is_problematic
}

/// The point of the group at index `gi`, if it gets one: its first package
/// must have an address in the session, and that address coordinates other
/// than (0, 0). A group of more than one package is shown as its address;
/// a single package as itself.
pub open spec fn group_point(g: PackageGroup, gi: int, session: DeliverySession) -> Option<MapPackageView> {
    if g.packages@.len() == 0 {
        None
    } else {
        let first = g.packages@[0];
        match lookup(session.addresses.entries@, first.address_id@) {
            None => None,
            Some(a) => if is_zero_bits(a.latitude_bits) && is_zero_bits(a.longitude_bits) {
                None
            } else if g.count > 1 {
                Some(MapPackageView {
                    id: first.address_id@,
                    recipient: decimal(g.count as nat) + " paquets"@,
                    address: a.label@,
                    coords: Coordinates { latitude_bits: a.latitude_bits, longitude_bits: a.longitude_bits },
                    status: first.status@,
                    code_statut_article: first.status@,
                    type_livraison: type_label(first.delivery_type),
                    is_problematic: any_problematic(g.packages@),
                    group_idx: gi as usize,
                })
            } else {
                Some(MapPackageView {
                    id: first.tracking@,
                    recipient: first.customer_name@,
                    address: a.label@,
                    coords: Coordinates { latitude_bits: a.latitude_bits, longitude_bits: a.longitude_bits },
                    status: first.status@,
                    code_statut_article: first.status@,
                    type_livraison: type_label(first.delivery_type),
                    is_problematic: first.is_problematic,
                    group_idx: gi as usize,
                })
            },
        }
    }
}

/// The points of all groups, in group order.
pub open spec fn map_points(groups: Seq<PackageGroup>, session: DeliverySession) -> Seq<MapPackageView>
    decreases groups.len(),
{
    if groups.len() == 0 {
        seq![]
    } else {
        let rest = map_points(groups.drop_last(), session);
        match group_point(groups.last(), groups.len() - 1, session) {
            Some(p) => rest.push(p),
            None => rest,
        }
    }
}

/// The views of a list of points.
pub open spec fn points_view(s: Seq<MapPackage>) -> Seq<MapPackageView> {
    s.map_values(|p: MapPackage| p@)
}

/// Whether some package of the list is problematic.
fn has_problematic(packages: &Vec<SessionPackage>) -> (r: bool)
    ensures
        r == any_problematic(packages@),
{
    let mut i: usize = 0;
    while i < packages.len()
        invariant
            i <= packages@.len(),
            forall|j: int| 0 <= j < i ==> !packages@[j].is_problematic,
        decreases packages@.len() - i,
    {
        if packages[i].is_problematic {
            return true;
        }
        i += 1;
    }
    false
}

/// Preparation of the map's data.
pub struct MapViewModel;

impl MapViewModel {
    /// The map points of the groups; each keeps the index of its group.
    pub fn prepare_packages_for_map(groups: &[PackageGroup], session: &DeliverySession) -> (r: Vec<MapPackage>)
        ensures
            points_view(r@) == map_points(groups@, *session),
            forall|k: int| 0 <= k < r@.len() ==> {
                let p = (#[trigger] r@[k])@;
                &&& 0 <= p.group_idx < groups@.len()
                &&& group_is_shown(groups@[p.group_idx as int], *session)
                &&& point_shows_group(p, groups@[p.group_idx as int], p.group_idx as int, *session)
            },
            forall|gi: int| 0 <= gi < groups@.len() && group_is_shown(#[trigger] groups@[gi], *session) ==>
                exists|k: int| 0 <= k < r@.len() && (#[trigger] r@[k]).group_idx == gi,
    {
        let mut map_packages: Vec<MapPackage> = Vec::new();
        let mut gi: usize = 0;
        proof {
            assert(groups@.subrange(0, 0) =~= Seq::<PackageGroup>::empty());
            assert(points_view(map_packages@) =~= Seq::<MapPackageView>::empty());
        }
        while gi < groups.len()
            invariant
                gi <= groups@.len(),
                points_view(map_packages@) == map_points(groups@.subrange(0, gi as int), *session),
            decreases groups@.len() - gi,
        {
            let group = &groups[gi];
            let ghost before = map_packages@;
            if group.packages.len() > 0 {
                let first = &group.packages[0];
                match session.addresses.get(first.address_id.as_str()) {
                    Some(address) => {
                        if !(bits_are_zero(address.latitude_bits) && bits_are_zero(address.longitude_bits)) {
                            let coords = Coordinates { latitude_bits: address.latitude_bits, longitude_bits: address.longitude_bits };
                            if group.count > 1 {
                                let mut recipient = String::new();
                                push_decimal(&mut recipient, group.count);
                                recipient.append(" paquets");
                                map_packages.push(MapPackage {
                                    id: first.address_id.clone(),
                                    recipient,
                                    address: address.label.clone(),
                                    coords,
                                    status: first.status.clone(),
                                    code_statut_article: first.status.clone(),
                                    type_livraison: delivery_type_label(first.delivery_type),
                                    is_problematic: has_problematic(&group.packages),
                                    group_idx: gi,
                                });
                            } else {
                                map_packages.push(MapPackage {
                                    id: first.tracking.clone(),
                                    recipient: first.customer_name.clone(),
                                    address: address.label.clone(),
                                    coords,
                                    status: first.status.clone(),
                                    code_statut_article: first.status.clone(),
                                    type_livraison: delivery_type_label(first.delivery_type),
                                    is_problematic: first.is_problematic,
                                    group_idx: gi,
                                });
                            }
                        }
                    },
                    None => {},
                }
            }
            proof {
                let sub = groups@.subrange(0, gi + 1);
                assert(sub.drop_last() =~= groups@.subrange(0, gi as int));
                assert(sub.last() == groups@[gi as int]);
                match group_point(groups@[gi as int], gi as int, *session) {
                    Some(p) => assert(points_view(map_packages@) =~= points_view(before).push(p)),
                    None => assert(points_view(map_packages@) =~= points_view(before)),
                }
            }
            gi += 1;
        }
        assert(groups@.subrange(0, groups@.len() as int) =~= groups@);
        proof {
            law_map_points_show_their_groups(groups@, *session);
            assert forall|k: int| 0 <= k < map_packages@.len() implies
                (#[trigger] map_packages@[k])@ == map_points(groups@, *session)[k] by {
                assert(points_view(map_packages@)[k] == map_packages@[k]@);
            }
            assert forall|gi: int| 0 <= gi < groups@.len() && group_is_shown(#[trigger] groups@[gi], *session) implies
                exists|k: int| 0 <= k < map_packages@.len() && (#[trigger] map_packages@[k]).group_idx == gi by {
                let k = choose|k: int| 0 <= k < map_points(groups@, *session).len()
                    && (#[trigger] map_points(groups@, *session)[k]).group_idx == gi;
                assert(points_view(map_packages@)[k] == map_packages@[k]@);
            }
        }
        map_packages
    }
}

/// The group gets a point: it has packages, and the address of its first
/// package is in the session with coordinates other than (0, 0).
pub open spec fn group_is_shown(g: PackageGroup, session: DeliverySession) -> bool {
    &&& g.packages@.len() > 0
    &&& lookup(session.addresses.entries@, g.packages@[0].address_id@) matches Some(a)
        && !(is_zero_bits(a.latitude_bits) && is_zero_bits(a.longitude_bits))
}

/// `p` shows the group `g` found at index `gi`: at the address of its first
/// package, with that package's status; a group of several packages as its
/// address, counted, flagged problematic when any of its packages is; a
/// group of one package as that package.
pub open spec fn point_shows_group(p: MapPackageView, g: PackageGroup, gi: int, session: DeliverySession) -> bool {
    let first = g.packages@[0];
    &&& g.packages@.len() > 0
    &&& p.group_idx == gi
    &&& lookup(session.addresses.entries@, first.address_id@) matches Some(a)
        && p.address == a.label@
        && p.coords.latitude_bits == a.latitude_bits
        && p.coords.longitude_bits == a.longitude_bits
    &&& p.status == first.status@
    &&& p.code_statut_article == first.status@
    &&& p.type_livraison == type_label(first.delivery_type)
    &&& g.count > 1 ==> {
        &&& p.id == first.address_id@
        &&& p.recipient == decimal(g.count as nat) + " paquets"@
        &&& (p.is_problematic <==> exists|j: int| 0 <= j < g.packages@.len() && (#[trigger] g.packages@[j]).is_problematic)
    }
    &&& g.count <= 1 ==> {
        &&& p.id == first.tracking@
        &&& p.recipient == first.customer_name@
        &&& p.is_problematic == first.is_problematic
    }
}

/// The map's points: one per shown group, in group order, each showing its
/// group; a group of several packages is flagged problematic exactly when
/// one of its packages is.
pub proof fn law_map_points_show_their_groups(groups: Seq<PackageGroup>, session: DeliverySession)
    requires
        groups.len() <= usize::MAX,
    ensures
        forall|k: int| 0 <= k < map_points(groups, session).len() ==> {
            let p = #[trigger] map_points(groups, session)[k];
            &&& 0 <= p.group_idx < groups.len()
            &&& group_is_shown(groups[p.group_idx as int], session)
            &&& point_shows_group(p, groups[p.group_idx as int], p.group_idx as int, session)
        },
        forall|k1: int, k2: int| 0 <= k1 < k2 < map_points(groups, session).len() ==>
            map_points(groups, session)[k1].group_idx < map_points(groups, session)[k2].group_idx,
        forall|gi: int| 0 <= gi < groups.len() && group_is_shown(#[trigger] groups[gi], session) ==>
            exists|k: int| 0 <= k < map_points(groups, session).len()
                && (#[trigger] map_points(groups, session)[k]).group_idx == gi,
    decreases groups.len(),
{
    if groups.len() > 0 {
        let rest = groups.drop_last();
        law_map_points_show_their_groups(rest, session);
        let n = groups.len() - 1;
        let pts = map_points(groups, session);
        let before = map_points(rest, session);
        assert forall|k: int| 0 <= k < before.len() implies
            (#[trigger] before[k]).group_idx < n && groups[before[k].group_idx as int] == rest[before[k].group_idx as int] by {
        }
        match group_point(groups.last(), n, session) {
            Some(q) => {
                assert(pts == before.push(q));
                assert(pts[before.len() as int] == q);
            },
            None => {
                assert(pts == before);
            },
        }
        assert forall|gi: int| 0 <= gi < groups.len() && group_is_shown(#[trigger] groups[gi], session) implies
            exists|k: int| 0 <= k < pts.len() && (#[trigger] pts[k]).group_idx == gi by {
            if gi < n {
                assert(rest[gi] == groups[gi]);
                let k = choose|k: int| 0 <= k < before.len() && (#[trigger] before[k]).group_idx == gi;
                assert(pts[k] == before[k]);
            } else {
                assert(groups.last() == groups[gi]);
                let q = group_point(groups.last(), n, session).unwrap();
                assert(pts == before.push(q));
                assert(pts[before.len() as int] == q);
                assert(q.group_idx == gi);
            }
        }
    }
}

} // verus!
