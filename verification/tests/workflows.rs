use route_optimizer::models::json::JsonValue;
use route_optimizer::models::package::Package;
use route_optimizer::models::session::{
    Address, Coordinates, DeliverySession, DeliveryType, Driver, SessionPackage, SessionStats,
};
use route_optimizer::models::strmap::StrMap;
use route_optimizer::models::sync::{Change, PendingChangesQueue, SyncResponse, SyncResult};
use route_optimizer::services::api_client::{CreateSessionResponse, GetSessionResponse};
use route_optimizer::services::cache_service::{CacheService, PackagesCache};
use route_optimizer::services::indexeddb::IndexedDbService;
use route_optimizer::services::sync_service::{SyncAction, SyncService};
use route_optimizer::viewmodels::map_viewmodel::MapViewModel;
use route_optimizer::viewmodels::session_viewmodel::{LoginStep, SessionViewModel};
use route_optimizer::views::package_list::group_packages_by_address;

fn session(id: &str, last_sync: i64) -> DeliverySession {
    let mut packages = StrMap::new();
    packages.insert(
        "T1".to_string(),
        SessionPackage {
            internal_id: "p1".to_string(),
            tracking: "T1".to_string(),
            customer_name: "Ana".to_string(),
            phone_number: None,
            customer_indication: None,
            status: "STATUT_CHARGER".to_string(),
            is_problematic: false,
            delivery_type: DeliveryType::PickupPoint,
            address_id: "A1".to_string(),
            route_order: None,
            original_order: 0,
        },
    );
    let mut addresses = StrMap::new();
    addresses.insert(
        "A1".to_string(),
        Address {
            address_id: "A1".to_string(),
            label: "1 rue A".to_string(),
            latitude_bits: 45.0f64.to_bits(),
            longitude_bits: 4.0f64.to_bits(),
            door_code: None,
            mailbox_access: None,
            driver_notes: None,
            package_ids: vec!["T1".to_string()],
        },
    );
    DeliverySession {
        session_id: id.to_string(),
        driver: Driver { driver_id: "D".to_string(), company_id: "C".to_string() },
        packages,
        addresses,
        stats: SessionStats { total_packages: 1, total_addresses: 1 },
        last_sync,
    }
}

fn scanned(t: &str) -> Change {
    Change::PackageScanned { tracking: t.to_string(), new_status: "STATUT_SCANNED".to_string(), timestamp: 5 }
}

#[test]
fn sync_plan_and_outcomes() {
    let svc = SyncService::new();
    assert!(matches!(svc.plan(&vec![]), SyncAction::PullRemote));
    match svc.plan(&vec![scanned("T1")]) {
        SyncAction::PushLocal { queue } => {
            assert_eq!(queue.changes.len(), 1);
            assert_eq!(queue.retry_count, 0);
        }
        _ => panic!("expected a push"),
    }
    let ok = svc.push_outcome(Ok(SyncResponse { session: session("S", 1), changes_applied: 2, conflicts_resolved: 0 }), vec![]);
    assert!(matches!(ok, SyncResult::Success { changes_applied: 2, .. }));
    let merged = svc.push_outcome(Ok(SyncResponse { session: session("S", 1), changes_applied: 2, conflicts_resolved: 3 }), vec![]);
    assert!(matches!(merged, SyncResult::ConflictResolved { conflicts_count: 3, .. }));
    match svc.push_outcome(Err("down".to_string()), vec![scanned("T1")]) {
        SyncResult::Error { message, pending_changes } => {
            assert_eq!(message, "down");
            assert_eq!(pending_changes.len(), 1);
        }
        _ => panic!("expected an error"),
    }
    assert!(matches!(svc.pull_outcome(Ok(session("S", 10)), 5), SyncResult::Success { changes_applied: 0, .. }));
    assert!(matches!(svc.pull_outcome(Ok(session("S", 5)), 5), SyncResult::NoChanges));
}

#[test]
fn failed_push_counts_a_retry() {
    let svc = SyncService::new();
    let q = svc.after_failed_push(Ok(Some(PendingChangesQueue::new(vec![scanned("T1")])))).unwrap();
    assert_eq!(q.retry_count, 1);
    assert_eq!(q.changes.len(), 1);
    assert!(svc.after_failed_push(Ok(None)).is_none());
    assert!(svc.after_failed_push(Err("x".to_string())).is_none());
    assert!(svc.has_pending_changes(&Ok(Some(PendingChangesQueue::new(vec![scanned("T1")])))));
    assert!(!svc.has_pending_changes(&Ok(Some(PendingChangesQueue::new(vec![])))));
    assert_eq!(svc.pending_changes_count(&Err("x".to_string())), 0);
}

#[test]
fn login_steps() {
    let vm = SessionViewModel::new();
    assert!(matches!(vm.login_after_lookup(Ok(None)), LoginStep::LoginAndFetch));
    assert!(matches!(vm.login_after_lookup(Err("x".to_string())), LoginStep::LoginAndFetch));
    assert!(matches!(vm.login_after_lookup(Ok(Some(session("S", 1)))), LoginStep::RefreshToken { .. }));
    let step = vm.login_after_refresh(Ok(GetSessionResponse { success: false, session: session("NEW", 2) }), session("OLD", 1));
    match step {
        LoginStep::SyncIncremental { session, fallback } => {
            assert_eq!(session.session_id, "OLD");
            assert!(!fallback);
        }
        _ => panic!("expected a synchronisation"),
    }
    let step = vm.login_after_refresh(Err("net".to_string()), session("OLD", 1));
    assert!(matches!(step, LoginStep::SyncIncremental { fallback: true, .. }));
    let r = vm.login_after_sync(Err("e".to_string()), session("KEEP", 1), true);
    assert_eq!(r.unwrap().session_id, "KEEP");
    assert_eq!(vm.login_after_sync(Err("e".to_string()), session("KEEP", 1), false).err().unwrap(), "e");
}

#[test]
fn login_answers() {
    let vm = SessionViewModel::new();
    let refused = CreateSessionResponse { success: false, session: None, session_id: None, error: None };
    assert_eq!(vm.session_from_create(refused).err().unwrap(), "Error creando sesión");
    let empty = CreateSessionResponse { success: true, session: None, session_id: None, error: None };
    assert_eq!(vm.session_from_create(empty).err().unwrap(), "No se recibió sesión en la respuesta");
}

#[test]
fn problematic_address_checks() {
    let vm = SessionViewModel::new();
    assert_eq!(vm.problematic_address_label(Ok(Some(session("S", 1))), "S", "A1").unwrap(), "1 rue A");
    assert_eq!(
        vm.problematic_address_label(Ok(Some(session("S", 1))), "X", "A1").err().unwrap(),
        "Session ID mismatch: expected X, got S"
    );
    assert_eq!(vm.problematic_address_label(Ok(Some(session("S", 1))), "S", "A9").err().unwrap(), "Dirección no encontrada");
    assert_eq!(vm.problematic_address_label(Ok(None), "S", "A1").err().unwrap(), "Sesión no encontrada");
    assert_eq!(vm.problematic_address_label(Err("io".to_string()), "S", "A1").err().unwrap(), "Error cargando sesión: io");
}

#[test]
fn pending_change_queue_appends() {
    let vm = SessionViewModel::new();
    let q = vm.add_pending_change(&Ok(Some(PendingChangesQueue::new(vec![scanned("T1")]))), scanned("T2"));
    assert_eq!(q.changes.len(), 2);
    let q = vm.add_pending_change(&Err("x".to_string()), scanned("T3"));
    assert_eq!(q.changes.len(), 1);
}

#[test]
fn map_points_of_groups() {
    let s = session("S", 1);
    let groups = group_packages_by_address(vec![s.packages.entries[0].1.clone()]);
    let points = MapViewModel::prepare_packages_for_map(&groups, &s);
    assert_eq!(points.len(), 1);
    assert_eq!(points[0].group_idx, 0);
    assert_eq!(f64::from_bits(points[0].coords.latitude_bits), 45.0);
}

#[test]
fn tour_sync_request() {
    let located = Package {
        id: "a".to_string(),
        tracking: None,
        recipient: "r".to_string(),
        address: "addr".to_string(),
        status: "s".to_string(),
        code_statut_article: None,
        coords: Some(Coordinates { latitude_bits: 1.5f64.to_bits(), longitude_bits: 2.5f64.to_bits() }),
        phone: None,
        phone_fixed: None,
        instructions: None,
        door_code: None,
        has_mailbox_access: None,
        driver_notes: None,
        is_group: false,
        total_packages: None,
        group_packages: None,
        is_problematic: false,
        type_livraison: None,
    };
    let mut problematic = located.clone();
    problematic.id = "b".to_string();
    problematic.is_problematic = true;
    let cache = PackagesCache::new("T".to_string(), vec![located, problematic], 1_700_000_000_000);
    let payload = CacheService::sync_request(&Some(cache), "T").unwrap();
    assert_eq!(payload.problematic_packages, vec!["b".to_string()]);
    assert_eq!(payload.updated_coords.len(), 1);
    assert_eq!(payload.updated_coords[0].package_id, "a");
    assert_eq!(f64::from_bits(payload.updated_coords[0].latitude_bits), 1.5);
    assert_eq!(CacheService::sync_request(&None, "T").err().unwrap(), "No hay caché para sincronizar");
}

#[test]
fn indexeddb_is_not_available() {
    let db = IndexedDbService::new();
    assert_eq!(db.db_name, "route_optimizer_db");
    assert!(db.init().is_err());
    assert!(db.save("s", "k", &JsonValue::Null).is_err());
    assert!(db.load("s", "k").is_err());
}

use route_optimizer::services::sync_service::session_to_save;

#[test]
fn session_kept_after_sync() {
    let ok = SyncResult::Success { session: session("A", 1), changes_applied: 0 };
    assert_eq!(session_to_save(&ok).unwrap().session_id, "A");
    let merged = SyncResult::ConflictResolved { merged_session: session("M", 1), conflicts_count: 1 };
    assert_eq!(session_to_save(&merged).unwrap().session_id, "M");
    assert!(session_to_save(&SyncResult::NoChanges).is_none());
    let vm = SessionViewModel::new();
    assert_eq!(vm.fetch_packages().err().unwrap(), "fetch_packages necesita sesión actual del hook");
}
