//! The package card model the views work with: one entry per single package
//! or per group of packages that share an address.

use vstd::prelude::*;
use crate::models::session::{Coordinates, clone_opt_string};

verus! {

/// The characters of an optional string.
pub open spec fn opt_chars(o: Option<String>) -> Option<Seq<char>> {
    match o {
        Some(s) => Some(s@),
        None => None,
    }
}

/// One package inside a group card.
#[derive(Clone, Debug)]
pub struct GroupPackageInfo {
    pub id: String,
    pub tracking: String,
    pub customer_name: String,
    pub phone_number: Option<String>,
    pub customer_indication: Option<String>,
    pub code_statut_article: Option<String>,
    pub is_problematic: bool,
}

/// The characters of a [`GroupPackageInfo`].
pub struct GroupPackageInfoView {
    pub id: Seq<char>,
    pub tracking: Seq<char>,
    pub customer_name: Seq<char>,
    pub phone_number: Option<Seq<char>>,
    pub customer_indication: Option<Seq<char>>,
    pub code_statut_article: Option<Seq<char>>,
    pub is_problematic: bool,
}

impl View for GroupPackageInfo {
    type V = GroupPackageInfoView;

    open spec fn view(&self) -> GroupPackageInfoView {
        GroupPackageInfoView {
            id: self.id@,
            tracking: self.tracking@,
            customer_name: self.customer_name@,
            phone_number: opt_chars(self.phone_number),
            customer_indication: opt_chars(self.customer_indication),
            code_statut_article: opt_chars(self.code_statut_article),
            is_problematic: self.is_problematic,
        }
    }
}

impl GroupPackageInfo {
    /// A field-for-field copy.
    pub fn duplicate(&self) -> (r: Self)
        ensures
            r == *self,
    {
        GroupPackageInfo {
            id: self.id.clone(),
            tracking: self.tracking.clone(),
            customer_name: self.customer_name.clone(),
            phone_number: clone_opt_string(&self.phone_number),
            customer_indication: clone_opt_string(&self.customer_indication),
            code_statut_article: clone_opt_string(&self.code_statut_article),
            is_problematic: self.is_problematic,
        }
    }
}

/// The views of a list of group members.
pub open spec fn infos_view(s: Seq<GroupPackageInfo>) -> Seq<GroupPackageInfoView> {
    s.map_values(|g: GroupPackageInfo| g@)
}

/// A package card: a single package, or a group of packages at one address.
#[derive(Clone, Debug)]
pub struct Package {
    pub id: String,
    pub tracking: Option<String>,
    pub recipient: String,
    pub address: String,
    pub status: String,
    pub code_statut_article: Option<String>,
    pub coords: Option<Coordinates>,
    pub phone: Option<String>,
    pub phone_fixed: Option<String>,
    pub instructions: Option<String>,
    pub door_code: Option<String>,
    pub has_mailbox_access: Option<bool>,
    pub driver_notes: Option<String>,
    pub is_group: bool,
    pub total_packages: Option<usize>,
    pub group_packages: Option<Vec<GroupPackageInfo>>,
    pub is_problematic: bool,
    pub type_livraison: Option<String>,
}

/// The characters of a [`Package`].
pub struct PackageView {
    pub id: Seq<char>,
    pub tracking: Option<Seq<char>>,
    pub recipient: Seq<char>,
    pub address: Seq<char>,
    pub status: Seq<char>,
    pub code_statut_article: Option<Seq<char>>,
    pub coords: Option<Coordinates>,
    pub phone: Option<Seq<char>>,
    pub phone_fixed: Option<Seq<char>>,
    pub instructions: Option<Seq<char>>,
    pub door_code: Option<Seq<char>>,
    pub has_mailbox_access: Option<bool>,
    pub driver_notes: Option<Seq<char>>,
    pub is_group: bool,
    pub total_packages: Option<usize>,
    pub group_packages: Option<Seq<GroupPackageInfoView>>,
    pub is_problematic: bool,
    pub type_livraison: Option<Seq<char>>,
}

impl View for Package {
    type V = PackageView;

    open spec fn view(&self) -> PackageView {
        PackageView {
            id: self.id@,
            tracking: opt_chars(self.tracking),
            recipient: self.recipient@,
            address: self.address@,
            status: self.status@,
            code_statut_article: opt_chars(self.code_statut_article),
            coords: self.coords,
            phone: opt_chars(self.phone),
            phone_fixed: opt_chars(self.phone_fixed),
            instructions: opt_chars(self.instructions),
            door_code: opt_chars(self.door_code),
            has_mailbox_access: self.has_mailbox_access,
            driver_notes: opt_chars(self.driver_notes),
            is_group: self.is_group,
            total_packages: self.total_packages,
            group_packages: match self.group_packages {
                Some(v) => Some(infos_view(v@)),
                None => None,
            },
            is_problematic: self.is_problematic,
            type_livraison: opt_chars(self.type_livraison),
        }
    }
}

/// The views of a list of packages.
pub open spec fn packages_view(s: Seq<Package>) -> Seq<PackageView> {
    s.map_values(|p: Package| p@)
}

/// A copy of a list of group members.
pub fn clone_infos(v: &Vec<GroupPackageInfo>) -> (r: Vec<GroupPackageInfo>)
    ensures
        r@ == v@,
{
    let mut out: Vec<GroupPackageInfo> = Vec::new();
    let mut i: usize = 0;
    while i < v.len()
        invariant
            i <= v@.len(),
            out@ == v@.subrange(0, i as int),
        decreases v@.len() - i,
    {
        out.push(v[i].duplicate());
        i += 1;
        assert(out@ =~= v@.subrange(0, i as int));
    }
    assert(v@.subrange(0, v@.len() as int) =~= v@);
    out
}

impl Package {
    /// A field-for-field copy.
    pub fn duplicate(&self) -> (r: Self)
        ensures
            r@ == self@,
    {
        let group_packages = match &self.group_packages {
            Some(v) => Some(clone_infos(v)),
            None => None,
        };
        Package {
            id: self.id.clone(),
            tracking: clone_opt_string(&self.tracking),
            recipient: self.recipient.clone(),
            address: self.address.clone(),
            status: self.status.clone(),
            code_statut_article: clone_opt_string(&self.code_statut_article),
            coords: self.coords,
            phone: clone_opt_string(&self.phone),
            phone_fixed: clone_opt_string(&self.phone_fixed),
            instructions: clone_opt_string(&self.instructions),
            door_code: clone_opt_string(&self.door_code),
            has_mailbox_access: self.has_mailbox_access,
            driver_notes: clone_opt_string(&self.driver_notes),
            is_group: self.is_group,
            total_packages: self.total_packages,
            group_packages,
            is_problematic: self.is_problematic,
            type_livraison: clone_opt_string(&self.type_livraison),
        }
    }
}

/// A copy of a list of packages.
pub fn clone_packages(v: &[Package]) -> (r: Vec<Package>)
    ensures
        packages_view(r@) == packages_view(v@),
{
    let mut out: Vec<Package> = Vec::new();
    let mut i: usize = 0;
    while i < v.len()
        invariant
            i <= v@.len(),
            out@.len() == i,
            forall|j: int| 0 <= j < i ==> (#[trigger] out@[j])@ == v@[j]@,
        decreases v@.len() - i,
    {
        out.push(v[i].duplicate());
        i += 1;
    }
    assert(packages_view(out@) =~= packages_view(v@));
    out
}

} // verus!
