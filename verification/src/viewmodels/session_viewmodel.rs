//! The decisions of the session workflows: login, scanning, address
//! updates and synchronisation. The caller performs the backend requests
//! and storage operations between them.

use vstd::prelude::*;
use crate::models::session::{DeliverySession, SessionPackage, SCANNED_STATUS};
use crate::models::sync::{Change, PendingChangesQueue};
use crate::services::api_client::{
    ApiClient, CreateSessionResponse, FetchPackagesResponse, GetSessionResponse, OptimizeRouteResponse,
    SyncIncrementalResponse, UpdateAddressFieldsResponse, UpdateAddressResponse,
};
use crate::services::offline_service::{OfflineService, queue_with_change};
use crate::utils::text::str_eq;
use crate::utils::constants::BACKEND_URL;

verus! {

/// The next step of a login that first looks for an existing session.
pub enum LoginStep {
    /// Create a new session and fetch its packages.
    LoginAndFetch,
    /// Refresh the token of the session the backend holds.
    RefreshToken { backend_session: DeliverySession },
    /// Store `session`, then synchronise it incrementally; when that fails,
    /// answer `session` if `fallback`, else the failure.
    SyncIncremental { session: DeliverySession, fallback: bool },
}

/// Session workflows.
pub struct SessionViewModel {
    pub api_client: ApiClient,
    pub offline_service: OfflineService,
}

impl SessionViewModel {
    /// The workflows on the configured backend and local storage.
    pub fn new() -> (vm: Self)
        ensures
            vm.api_client.base_url@ == BACKEND_URL@,
            !vm.offline_service.use_indexeddb,
    {
        SessionViewModel { api_client: ApiClient::new(), offline_service: OfflineService::new() }
    }

    /// The session of a login answer: the backend's error (or a default
    /// message) when it failed, an error when it carries no session.
    pub fn session_from_create(&self, response: CreateSessionResponse) -> (r: Result<DeliverySession, String>)
        ensures
            !response.success ==> (r matches Err(e) && e@ == match response.error {
                Some(m) => m@,
                None => "Error creando sesión"@,
            }),
            response.success ==> match response.session {
                Some(s) => r == Ok::<DeliverySession, String>(s),
                None => (r matches Err(e) && e@ == "No se recibió sesión en la respuesta"@),
            },
    {
        if !response.success {
            return Err(match response.error {
                Some(m) => m,
                None => String::from_str("Error creando sesión"),
            });
        }
        match response.session {
            Some(s) => Ok(s),
            None => Err(String::from_str("No se recibió sesión en la respuesta")),
        }
    }

    /// The session of a package-fetch answer: the backend's error (or a
    /// default message) when it failed, an error when it carries no session.
    pub fn session_from_fetch(&self, response: FetchPackagesResponse) -> (r: Result<DeliverySession, String>)
        ensures
            !response.success ==> (r matches Err(e) && e@ == match response.error {
                Some(m) => m@,
                None => "Error obteniendo paquetes"@,
            }),
            response.success ==> match response.session {
                Some(s) => r == Ok::<DeliverySession, String>(s),
                None => (r matches Err(e) && e@ == "No se recibió sesión actualizada"@),
            },
    {
        if !response.success {
            return Err(match response.error {
                Some(m) => m,
                None => String::from_str("Error obteniendo paquetes"),
            });
        }
        match response.session {
            Some(s) => Ok(s),
            None => Err(String::from_str("No se recibió sesión actualizada")),
        }
    }

    /// After looking the driver's session up on the backend: refresh the
    /// found session's token; create a new session when there is none or
    /// the lookup failed.
    pub fn login_after_lookup(&self, found: Result<Option<DeliverySession>, String>) -> (step: LoginStep)
        ensures
            match found {
                Ok(Some(s)) => step == (LoginStep::RefreshToken { backend_session: s }),
                _ => step is LoginAndFetch,
            },
    {
        match found {
            Ok(Some(s)) => LoginStep::RefreshToken { backend_session: s },
            _ => LoginStep::LoginAndFetch,
        }
    }

    /// After refreshing the token of `backend_session`: a successful answer
    /// gives the refreshed session, which is synchronised with itself as
    /// fallback; an unsuccessful answer falls back to `backend_session`
    /// without fallback; a failed request uses `backend_session` as
    /// fallback.
    pub fn login_after_refresh(&self, refreshed: Result<GetSessionResponse, String>, backend_session: DeliverySession) -> (step: LoginStep)
        ensures
            match refreshed {
                Ok(resp) => if resp.success {
                    step == (LoginStep::SyncIncremental { session: resp.session, fallback: true })
                } else {
                    step == (LoginStep::SyncIncremental { session: backend_session, fallback: false })
                },
                Err(_) => step == (LoginStep::SyncIncremental { session: backend_session, fallback: true }),
            },
    {
        match refreshed {
            Ok(resp) => {
                if resp.success {
                    LoginStep::SyncIncremental { session: resp.session, fallback: true }
                } else {
                    LoginStep::SyncIncremental { session: backend_session, fallback: false }
                }
            },
            Err(_) => LoginStep::SyncIncremental { session: backend_session, fallback: true },
        }
    }

    /// The result of a login once the incremental synchronisation of
    /// `session` is done: the synchronised session, else `session` when it
    /// is the fallback, else the failure.
    pub fn login_after_sync(&self, synced: Result<DeliverySession, String>, session: DeliverySession, fallback: bool) -> (r: Result<DeliverySession, String>)
        ensures
            match synced {
                Ok(s) => r == Ok::<DeliverySession, String>(s),
                Err(e) => if fallback {
                    r == Ok::<DeliverySession, String>(session)
                } else {
                    r == Err::<DeliverySession, String>(e)
                },
            },
    {
        match synced {
            Ok(s) => Ok(s),
            Err(e) => if fallback { Ok(session) } else { Err(e) },
        }
    }

    /// A manual package fetch needs the current session, which this
    /// workflow does not hold: it always fails.
    pub fn fetch_packages(&self) -> (r: Result<DeliverySession, String>)
        ensures
            r matches Err(e) && e@ == "fetch_packages necesita sesión actual del hook"@,
    {
        Err(String::from_str("fetch_packages necesita sesión actual del hook"))
    }

    /// Scans a package on the device: the session with that package marked
    /// scanned, and the change to synchronise, stamped `now`; an error
    /// naming the code when the session has no such package.
    pub fn scan_package(&self, tracking: &str, current_session: &DeliverySession, now: i64) -> (r: Result<(DeliverySession, Change), String>)
        ensures
            match current_session.packages.spec_get(tracking@) {
                Some(p) => (r matches Ok((s, c))
                    && s.session_id == current_session.session_id
                    && s.driver == current_session.driver
                    && s.same_addresses(current_session)
                    && s.stats == current_session.stats
                    && s.last_sync == current_session.last_sync
                    && (forall|k: Seq<char>| k != tracking@ ==> #[trigger] s.packages.spec_get(k) == current_session.packages.spec_get(k))
                    && (s.packages.spec_get(tracking@) matches Some(q)
                        && q == (SessionPackage { status: q.status, ..p })
                        && q.status@ == SCANNED_STATUS@)
                    && (c matches Change::PackageScanned { tracking: t, new_status, timestamp }
                        && t@ == tracking@ && new_status@ == SCANNED_STATUS@ && timestamp == now)),
                None => (r matches Err(e) && e@ == "Paquete no encontrado: "@ + tracking@),
            },
    {
        let mut session = current_session.duplicate();
        match session.find_by_tracking(tracking) {
            Some(_) => {
                match session.mark_scanned(tracking) {
                    Ok(()) => {},
                    Err(e) => {
                        return Err(e);
                    },
                }
                let change = Change::PackageScanned {
                    tracking: String::from_str(tracking),
                    new_status: String::from_str(SCANNED_STATUS),
                    timestamp: now,
                };
                Ok((session, change))
            },
            None => {
                let mut msg = String::from_str("Paquete no encontrado: ");
                msg.append(tracking);
                Err(msg)
            },
        }
    }

    /// The queue to store after adding `change` to the one loaded.
    pub fn add_pending_change(&self, loaded: &Result<Option<PendingChangesQueue>, String>, change: Change) -> (q: PendingChangesQueue)
        ensures
            q.retry_count == 0,
            q.changes@ == match loaded {
                Ok(Some(old)) => old.changes@.push(change),
                _ => seq![change],
            },
    {
        queue_with_change(loaded, change)
    }

    /// The optimised session of a route-optimisation answer.
    pub fn optimized_session(&self, response: OptimizeRouteResponse) -> (r: Result<DeliverySession, String>)
        ensures
            response.success ==> r == Ok::<DeliverySession, String>(response.session),
            !response.success ==> (r matches Err(e) && e@ == "Error optimizando ruta en el backend"@),
    {
        if !response.success {
            return Err(String::from_str("Error optimizando ruta en el backend"));
        }
        Ok(response.session)
    }

    /// The updated session of an answer to an address-fields update.
    pub fn updated_fields_session(&self, response: UpdateAddressFieldsResponse) -> (r: Result<DeliverySession, String>)
        ensures
            response.success ==> r == Ok::<DeliverySession, String>(response.session),
            !response.success ==> (r matches Err(e) && e@ == "Error actualizando campos de dirección"@),
    {
        if !response.success {
            return Err(String::from_str("Error actualizando campos de dirección"));
        }
        Ok(response.session)
    }

    /// The updated session of an answer to a change of address; `failure`
    /// is the message when the backend refused it.
    pub fn updated_address_session(&self, response: UpdateAddressResponse, failure: &str) -> (r: Result<DeliverySession, String>)
        ensures
            response.success ==> r == Ok::<DeliverySession, String>(response.session),
            !response.success ==> (r matches Err(e) && e@ == failure@),
    {
        if !response.success {
            return Err(String::from_str(failure));
        }
        Ok(response.session)
    }

    /// The synchronised session of an incremental-synchronisation answer.
    pub fn synced_session(&self, response: SyncIncrementalResponse) -> (r: Result<DeliverySession, String>)
        ensures
            response.success ==> r == Ok::<DeliverySession, String>(response.session),
            !response.success ==> (r matches Err(e) && e@ == "Error en sincronización incremental"@),
    {
        if !response.success {
            return Err(String::from_str("Error en sincronización incremental"));
        }
        Ok(response.session)
    }

    /// Before marking an address problematic: the label of the address in
    /// the stored session, which must be the session `session_id`.
    pub fn problematic_address_label(&self, loaded: Result<Option<DeliverySession>, String>, session_id: &str, address_id: &str) -> (r: Result<String, String>)
        ensures
            match loaded {
                Err(e) => (r matches Err(m) && m@ == "Error cargando sesión: "@ + e@),
                Ok(None) => (r matches Err(m) && m@ == "Sesión no encontrada"@),
                Ok(Some(s)) => if s.session_id@ != session_id@ {
                    (r matches Err(m) && m@ == "Session ID mismatch: expected "@ + session_id@ + ", got "@ + s.session_id@)
                } else {
                    match s.addresses.spec_get(address_id@) {
                        Some(a) => (r matches Ok(label) && label@ == a.label@),
                        None => (r matches Err(m) && m@ == "Dirección no encontrada"@),
                    }
                },
            },
    {
        match loaded {
            Err(e) => {
                let mut m = String::from_str("Error cargando sesión: ");
                m.append(e.as_str());
                Err(m)
            },
            Ok(None) => Err(String::from_str("Sesión no encontrada")),
            Ok(Some(s)) => {
                if !str_eq(s.session_id.as_str(), session_id) {
                    let mut m = String::from_str("Session ID mismatch: expected ");
                    m.append(session_id);
                    m.append(", got ");
                    m.append(s.session_id.as_str());
                    return Err(m);
                }
                match s.addresses.get(address_id) {
                    Some(a) => Ok(a.label.clone()),
                    None => Err(String::from_str("Dirección no encontrada")),
                }
            },
        }
    }
}

} // verus!
