//! The delivery session as the backend hands it over: the driver's packages,
//! keyed by tracking code, and the delivery addresses they are grouped under.

use vstd::prelude::*;
use crate::models::strmap::StrMap;

verus! {

/// How a package is delivered.
#[derive(Clone, Copy, Debug, PartialEq, Eq, Structural)]
pub enum DeliveryType {
    Home,
    Rcs,
    PickupPoint,
}

/// A geographic position: latitude and longitude in degrees, each held as
/// the bit pattern of its IEEE-754 double (`f64::to_bits`), so that the
/// values pass through unchanged.
#[derive(Clone, Copy, Debug, PartialEq, Eq, Structural)]
pub struct Coordinates {
    pub latitude_bits: u64,
    pub longitude_bits: u64,
}

/// The double with bit pattern `b` equals `0.0` (it is `+0.0` or `-0.0`).
pub open spec fn is_zero_bits(b: u64) -> bool {
    b & 0x7fff_ffff_ffff_ffff == 0
}

/// Whether the double with bit pattern `b` equals `0.0`.
pub fn bits_are_zero(b: u64) -> (r: bool)
    ensures
        r == is_zero_bits(b),
{
    b & 0x7fff_ffff_ffff_ffff == 0
}

/// One package of a session.
#[derive(Clone, Debug)]
pub struct SessionPackage {
    pub internal_id: String,
    pub tracking: String,
    pub customer_name: String,
    pub phone_number: Option<String>,
    pub customer_indication: Option<String>,
    pub status: String,
    pub is_problematic: bool,
    pub delivery_type: DeliveryType,
    pub address_id: String,
    pub route_order: Option<usize>,
    pub original_order: usize,
}

/// One delivery address and the keys of the packages that go there.
#[derive(Clone, Debug)]
pub struct Address {
    pub address_id: String,
    pub label: String,
    pub latitude_bits: u64,
    pub longitude_bits: u64,
    pub door_code: Option<String>,
    pub mailbox_access: Option<bool>,
    pub driver_notes: Option<String>,
    pub package_ids: Vec<String>,
}

/// The driver a session belongs to.
#[derive(Clone, Debug)]
pub struct Driver {
    pub driver_id: String,
    pub company_id: String,
}

/// Counters that the backend keeps for a session.
#[derive(Clone, Copy, Debug)]
pub struct SessionStats {
    pub total_packages: usize,
    pub total_addresses: usize,
}

/// A driver's delivery session.
pub struct DeliverySession {
    pub session_id: String,
    pub driver: Driver,
    pub packages: StrMap<SessionPackage>,
    pub addresses: StrMap<Address>,
    pub stats: SessionStats,
    pub last_sync: i64,
}

/// A copy of an optional string.
pub fn clone_opt_string(o: &Option<String>) -> (r: Option<String>)
    ensures
        r == *o,
{
    match o {
        Some(s) => Some(s.clone()),
        None => None,
    }
}

/// A copy of a list of strings.
pub fn clone_strings(v: &Vec<String>) -> (r: Vec<String>)
    ensures
        r@ == v@,
{
    let mut out: Vec<String> = Vec::new();
    let mut i: usize = 0;
    while i < v.len()
        invariant
            i <= v@.len(),
            out@ == v@.subrange(0, i as int),
        decreases v@.len() - i,
    {
        out.push(v[i].clone());
        i += 1;
        assert(out@ =~= v@.subrange(0, i as int));
    }
    assert(v@.subrange(0, v@.len() as int) =~= v@);
    out
}

impl SessionPackage {
    /// A field-for-field copy.
    pub fn duplicate(&self) -> (r: Self)
        ensures
            r == *self,
    {
        SessionPackage {
            internal_id: self.internal_id.clone(),
            tracking: self.tracking.clone(),
            customer_name: self.customer_name.clone(),
            phone_number: clone_opt_string(&self.phone_number),
            customer_indication: clone_opt_string(&self.customer_indication),
            status: self.status.clone(),
            is_problematic: self.is_problematic,
            delivery_type: self.delivery_type,
            address_id: self.address_id.clone(),
            route_order: self.route_order,
            original_order: self.original_order,
        }
    }

    /// Position of the package on the route: its route order once one was
    /// set, its original order before.
    pub open spec fn spec_order_key(&self) -> usize {
        match self.route_order {
            Some(o) => o,
            None => self.original_order,
        }
    }

    /// Position of the package on the route.
    pub fn order_key(&self) -> (r: usize)
        ensures
            r == self.spec_order_key(),
    {
        match self.route_order {
            Some(o) => o,
            None => self.original_order,
        }
    }
}

impl Address {
    /// A field-for-field copy.
    pub fn duplicate(&self) -> (r: Self)
        ensures
            r.address_id == self.address_id,
            r.label == self.label,
            r.latitude_bits == self.latitude_bits,
            r.longitude_bits == self.longitude_bits,
            r.door_code == self.door_code,
            r.mailbox_access == self.mailbox_access,
            r.driver_notes == self.driver_notes,
            r.package_ids@ == self.package_ids@,
    {
        Address {
            address_id: self.address_id.clone(),
            label: self.label.clone(),
            latitude_bits: self.latitude_bits,
            longitude_bits: self.longitude_bits,
            door_code: clone_opt_string(&self.door_code),
            mailbox_access: self.mailbox_access,
            driver_notes: clone_opt_string(&self.driver_notes),
            package_ids: clone_strings(&self.package_ids),
        }
    }
}

impl Address {
    /// Field-for-field equality, package keys compared by content.
    pub open spec fn same_as(&self, other: &Address) -> bool {
        &&& self.address_id == other.address_id
        &&& self.label == other.label
        &&& self.latitude_bits == other.latitude_bits
        &&& self.longitude_bits == other.longitude_bits
        &&& self.door_code == other.door_code
        &&& self.mailbox_access == other.mailbox_access
        &&& self.driver_notes == other.driver_notes
        &&& self.package_ids@ == other.package_ids@
    }
}

impl DeliverySession {
    /// The same address entries, in the same order, field for field.
    pub open spec fn same_addresses(&self, other: &DeliverySession) -> bool {
        &&& self.addresses.entries@.len() == other.addresses.entries@.len()
        &&& forall|i: int| 0 <= i < self.addresses.entries@.len() ==>
            (#[trigger] self.addresses.entries@[i]).0 == other.addresses.entries@[i].0
            && self.addresses.entries@[i].1.same_as(&other.addresses.entries@[i].1)
    }

    /// Field-for-field equality, lists compared by content.
    pub open spec fn same_as(&self, other: &DeliverySession) -> bool {
        &&& self.session_id == other.session_id
        &&& self.driver == other.driver
        &&& self.packages.entries@ == other.packages.entries@
        &&& self.same_addresses(other)
        &&& self.stats == other.stats
        &&& self.last_sync == other.last_sync
    }

    /// A field-for-field copy.
    pub fn duplicate(&self) -> (r: Self)
        ensures
            r.same_as(self),
    {
        let mut packages: Vec<(String, SessionPackage)> = Vec::new();
        let mut i: usize = 0;
        while i < self.packages.entries.len()
            invariant
                i <= self.packages.entries@.len(),
                packages@ == self.packages.entries@.subrange(0, i as int),
            decreases self.packages.entries@.len() - i,
        {
            let e = &self.packages.entries[i];
            packages.push((e.0.clone(), e.1.duplicate()));
            i += 1;
            assert(packages@ =~= self.packages.entries@.subrange(0, i as int));
        }
        assert(self.packages.entries@.subrange(0, self.packages.entries@.len() as int) =~= self.packages.entries@);
        let mut addresses: Vec<(String, Address)> = Vec::new();
        let mut j: usize = 0;
        while j < self.addresses.entries.len()
            invariant
                j <= self.addresses.entries@.len(),
                addresses@.len() == j,
                forall|k: int| 0 <= k < j ==> (#[trigger] addresses@[k]).0 == self.addresses.entries@[k].0
                    && addresses@[k].1.same_as(&self.addresses.entries@[k].1),
            decreases self.addresses.entries@.len() - j,
        {
            let e = &self.addresses.entries[j];
            addresses.push((e.0.clone(), e.1.duplicate()));
            j += 1;
        }
        DeliverySession {
            session_id: self.session_id.clone(),
            driver: Driver { driver_id: self.driver.driver_id.clone(), company_id: self.driver.company_id.clone() },
            packages: StrMap { entries: packages },
            addresses: StrMap { entries: addresses },
            stats: self.stats,
            last_sync: self.last_sync,
        }
    }
}

/// The status a scanned package takes.
pub const SCANNED_STATUS: &'static str = "STATUT_SCANNED";

impl DeliverySession {
    /// The package with tracking code `tracking`.
    pub fn find_by_tracking(&self, tracking: &str) -> (r: Option<&SessionPackage>)
        ensures
            match r {
                Some(p) => self.packages.spec_get(tracking@) == Some(*p),
                None => self.packages.spec_get(tracking@).is_none(),
            },
    {
        self.packages.get(tracking)
    }

    /// Marks the package with tracking code `tracking` as scanned; an error
    /// naming the code when the session has no such package.
    pub fn mark_scanned(&mut self, tracking: &str) -> (r: Result<(), String>)
        ensures
            match old(self).packages.spec_get(tracking@) {
                Some(p) => r is Ok && forall|k: Seq<char>| #[trigger] final(self).packages.spec_get(k)
                    == if k == tracking@ {
                        Some(SessionPackage { status: final(self).packages.spec_get(k).unwrap().status, ..p })
                    } else {
                        old(self).packages.spec_get(k)
                    }
                    && final(self).packages.spec_get(tracking@).unwrap().status@ == SCANNED_STATUS@,
                None => r matches Err(e) && e@ == "Paquete no encontrado: "@ + tracking@
                    && final(self).packages == old(self).packages,
            },
            final(self).session_id == old(self).session_id,
            final(self).driver == old(self).driver,
            final(self).addresses == old(self).addresses,
            final(self).stats == old(self).stats,
            final(self).last_sync == old(self).last_sync,
    {
        let updated = match self.packages.get(tracking) {
            Some(p) => {
                let mut q = p.duplicate();
                q.status = String::from_str(SCANNED_STATUS);
                Some(q)
            },
            None => None,
        };
        match updated {
            Some(q) => {
                self.packages.insert(String::from_str(tracking), q);
                Ok(())
            },
            None => {
                let mut msg = String::from_str("Paquete no encontrado: ");
                msg.append(tracking);
                Err(msg)
            },
        }
    }
}

/// A package's route position is its route order once one was set, and
/// its original order before; a coordinate is zero exactly for the bit
/// patterns of `+0.0` and `-0.0`.
pub proof fn law_order_key_and_zero(p: SessionPackage, b: u64)
    ensures
        p.route_order matches Some(o) ==> p.spec_order_key() == o,
        p.route_order is None ==> p.spec_order_key() == p.original_order,
        is_zero_bits(b) <==> (b == 0 || b == 0x8000_0000_0000_0000),
{
    assert((b & 0x7fff_ffff_ffff_ffff == 0) <==> (b == 0 || b == 0x8000_0000_0000_0000)) by (bit_vector);
}

} // verus!
