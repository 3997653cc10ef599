//! The messages of the route-optimisation service: the stops to visit, the
//! depot, and the solution the service reports. Coordinates are held as the
//! bit patterns of their `f64` values (`f64::to_bits`).

use vstd::prelude::*;

verus! {

/// A package to visit.
#[derive(Debug)]
pub struct PackageLocation {
    pub id: String,
    pub latitude_bits: u64,
    pub longitude_bits: u64,
    /// "RELAIS", "RCS" or "DOMICILE".
    pub type_livraison: Option<String>,
}

/// Where the route starts.
#[derive(Debug)]
pub struct DepotLocation {
    pub latitude_bits: u64,
    pub longitude_bits: u64,
}

/// A request to optimise the order of `locations` from `depot`.
#[derive(Debug)]
pub struct OptimizeRouteRequest {
    pub locations: Vec<PackageLocation>,
    pub depot: DepotLocation,
}

/// The answer to an optimisation request.
#[derive(Debug)]
pub struct OptimizeRouteResponse {
    pub success: bool,
    pub optimization_id: Option<String>,
    pub message: Option<String>,
    /// Package ids in the optimised order.
    pub optimized_order: Option<Vec<String>>,
}

/// Where an optimisation stands.
#[derive(Debug)]
pub struct OptimizationStatus {
    pub optimization_id: String,
    pub status: String,
    pub solution: Option<OptimizationSolution>,
}

/// A computed solution: the routes and what could not be placed.
#[derive(Clone, Debug)]
pub struct OptimizationSolution {
    pub dropped: DroppedItems,
    pub routes: Vec<Route>,
}

/// The services and shipments left out of every route.
#[derive(Clone, Debug)]
pub struct DroppedItems {
    pub services: Vec<String>,
    pub shipments: Vec<String>,
}

/// The stops of one vehicle.
#[derive(Clone, Debug)]
pub struct Route {
    pub vehicle: String,
    pub stops: Vec<Stop>,
}

/// One stop of a route.
#[derive(Clone, Debug)]
pub struct Stop {
    pub location: String,
    pub eta: String,
    pub stop_type: String,
    pub services: Option<Vec<String>>,
}

} // verus!
