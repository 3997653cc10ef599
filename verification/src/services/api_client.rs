//! The backend client's settings and the answers it reads from the backend.

use vstd::prelude::*;
use crate::models::admin::AdminDistrict;
use crate::models::session::DeliverySession;
use crate::utils::constants::BACKEND_URL;

verus! {

/// The HTTP client of the backend; it keeps the backend's base URL.
#[derive(Clone)]
pub struct ApiClient {
    pub base_url: String,
}

impl ApiClient {
    /// A client of the configured backend.
    pub fn new() -> (c: Self)
        ensures
            c.base_url@ == BACKEND_URL@,
    {
        ApiClient { base_url: String::from_str(BACKEND_URL) }
    }

    /// The URL of an endpoint of the backend's first API version: the base
    /// URL, "/v1", then each path segment after a "/".
    pub fn endpoint(&self, segments: &[&str]) -> (url: String)
        ensures
            url@ == self.base_url@ + "/v1"@ + path_of(segments@.map_values(|s: &str| s@)),
    {
        let mut url = self.base_url.clone();
        url.append("/v1");
        let ghost start = url@;
        let mut i: usize = 0;
        while i < segments.len()
            invariant
                i <= segments@.len(),
                start == self.base_url@ + "/v1"@,
                url@ == start + path_of(segments@.subrange(0, i as int).map_values(|s: &str| s@)),
            decreases segments@.len() - i,
        {
            url.append("/");
            url.append(segments[i]);
            proof {
                let next = segments@.subrange(0, i as int + 1).map_values(|s: &str| s@);
                assert(next.drop_last() =~= segments@.subrange(0, i as int).map_values(|s: &str| s@));
                assert(next.last() == segments@[i as int]@);
            }
            i += 1;
        }
        proof {
            assert(segments@.subrange(0, segments@.len() as int) =~= segments@);
        }
        url
    }
}

/// Path segments, each after a "/".
pub open spec fn path_of(segments: Seq<Seq<char>>) -> Seq<char>
    decreases segments.len(),
{
    if segments.len() == 0 {
        seq![]
    } else {
        path_of(segments.drop_last()) + "/"@ + segments.last()
    }
}

/// Answer to a login: the new session, or an error.
pub struct CreateSessionResponse {
    pub success: bool,
    pub session: Option<DeliverySession>,
    pub session_id: Option<String>,
    pub error: Option<String>,
}

/// Answer to a package fetch.
pub struct FetchPackagesResponse {
    pub success: bool,
    pub session: Option<DeliverySession>,
    pub new_packages_count: Option<usize>,
    pub error: Option<String>,
}

/// Answer to a scan.
pub struct ScanResponse {
    pub found: bool,
    pub route_position: Option<usize>,
    pub message: Option<String>,
}

/// Answer to a route optimisation.
pub struct OptimizeRouteResponse {
    pub success: bool,
    pub optimized_order: Vec<String>,
    pub session: DeliverySession,
    pub total_stops: usize,
    pub estimated_time_seconds: u32,
}

/// Answer to an update of an address's door code, mailbox access or notes.
pub struct UpdateAddressFieldsResponse {
    pub success: bool,
    pub session: DeliverySession,
}

/// Answer to a change of address.
pub struct UpdateAddressResponse {
    pub success: bool,
    pub session: DeliverySession,
}

/// Answer to an incremental synchronisation.
pub struct SyncIncrementalResponse {
    pub success: bool,
    pub delta: SyncDeltaResult,
    pub session: DeliverySession,
}

/// Which packages an incremental synchronisation added, updated, removed.
pub struct SyncDeltaResult {
    pub added: Vec<String>,
    pub updated: Vec<String>,
    pub removed: Vec<String>,
    pub unchanged: usize,
}

/// Answer that carries a session.
pub struct GetSessionResponse {
    pub success: bool,
    pub session: DeliverySession,
}

/// Answer to the administrator's dashboard request.
pub struct AdminDashboardResponse {
    pub success: bool,
    pub districts: Vec<AdminDistrict>,
    pub total_packages: usize,
    pub sso_token: String,
}

/// Answer to a status-change request or its confirmation.
pub struct StatusChangeResponse {
    pub success: bool,
    pub request_id: String,
    pub message: String,
}

/// An endpoint's path is its segments each after a "/": none gives the
/// empty path, and one more segment adds "/" and that segment.
pub proof fn law_endpoint_paths(segments: Seq<Seq<char>>, s: Seq<char>)
    ensures
        path_of(seq![]) == Seq::<char>::empty(),
        path_of(segments.push(s)) == path_of(segments) + "/"@ + s,
{
    assert(segments.push(s).drop_last() =~= segments);
}

} // verus!
