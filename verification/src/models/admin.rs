//! What the administrator's dashboard reads: districts with their tours, and
//! drivers' requests to change a package's status.

use vstd::prelude::*;

verus! {

/// One driver's tour of the day.
#[derive(Clone, Debug)]
pub struct AdminTournee {
    pub code_tournee: String,
    pub matricule: String,
    pub letter: String,
    pub statut: String,
    pub nb_colis: usize,
    pub delivered_count: usize,
}

/// The tours of one postal district.
#[derive(Clone, Debug)]
pub struct AdminDistrict {
    pub code_postal: String,
    pub tournees: Vec<AdminTournee>,
}

/// A driver's request to change the status of a package.
#[derive(Clone, Debug)]
pub struct StatusChangeRequest {
    pub id: String,
    pub tracking_code: String,
    pub driver_matricule: String,
    pub customer_name: Option<String>,
    pub customer_address: Option<String>,
    pub notes: Option<String>,
    pub status: String,
    pub delivery_date: String,
}

/// What closing the day did.
#[derive(Clone, Debug)]
pub struct CloseDayResponse {
    pub closed_count: usize,
    pub sessions_deleted: usize,
}

} // verus!
