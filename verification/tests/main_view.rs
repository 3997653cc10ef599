use std::cell::Cell;
use std::rc::Rc;

use route_optimizer::models::package::Package;
use route_optimizer::models::session::{
    Address, DeliverySession, DeliveryType, Driver, SessionPackage, SessionStats,
};
use route_optimizer::models::strmap::StrMap;
use route_optimizer::state::app_state::AppState;
use route_optimizer::state::reactivity::ReactiveState;
use route_optimizer::utils::i18n::t;
use route_optimizer::views::admin_dashboard::traceability_request;
use route_optimizer::views::app::{header_buttons, main_view_groups, needs_location_alert};
use route_optimizer::views::packages::address_card::address_card_summary;

fn parcel(tracking: &str, address_id: &str, status: &str, route_order: usize) -> SessionPackage {
    SessionPackage {
        internal_id: format!("id-{}", tracking),
        tracking: tracking.to_string(),
        customer_name: format!("Client {}", tracking),
        phone_number: None,
        customer_indication: None,
        status: status.to_string(),
        is_problematic: false,
        delivery_type: DeliveryType::Home,
        address_id: address_id.to_string(),
        route_order: Some(route_order),
        original_order: route_order,
    }
}

fn stop(id: &str, ids: &[&str]) -> Address {
    Address {
        address_id: id.to_string(),
        label: format!("{} rue", id),
        latitude_bits: 48.85f64.to_bits(),
        longitude_bits: 2.35f64.to_bits(),
        door_code: None,
        mailbox_access: None,
        driver_notes: None,
        package_ids: ids.iter().map(|s| s.to_string()).collect(),
    }
}

fn tour() -> DeliverySession {
    let mut packages = StrMap::new();
    packages.insert("T1".to_string(), parcel("T1", "A1", "STATUT_CHARGER", 2));
    packages.insert("T2".to_string(), parcel("T2", "A2", "STATUT_LIVRER_DOMICILE", 0));
    packages.insert("T3".to_string(), parcel("T3", "A2", "STATUT_CHARGER", 1));
    let mut addresses = StrMap::new();
    addresses.insert("A1".to_string(), stop("A1", &["T1"]));
    addresses.insert("A2".to_string(), stop("A2", &["T2", "T3"]));
    DeliverySession {
        session_id: "S1".to_string(),
        driver: Driver { driver_id: "D1".to_string(), company_id: "C1".to_string() },
        packages,
        addresses,
        stats: SessionStats { total_packages: 3, total_addresses: 2 },
        last_sync: 1_700_000_000,
    }
}

fn titles(groups: &[route_optimizer::views::package_list::PackageGroup]) -> Vec<(String, usize)> {
    groups.iter().map(|g| (g.title.clone(), g.count)).collect()
}

#[test]
fn main_view_groups_are_computed_then_kept() {
    let session = tour();
    let mut state = AppState::new(None, None);
    assert!(state.groups_memo.is_none());
    let groups = main_view_groups(&mut state, &session);
    assert_eq!(titles(&groups), vec![("A2".to_string(), 2), ("A1".to_string(), 1)]);
    assert_eq!(groups[0].packages[0].tracking, "T2");
    let memo = state.groups_memo.as_ref().expect("groups are kept");
    assert_eq!(titles(memo), titles(&groups));
    let again = main_view_groups(&mut state, &session);
    assert_eq!(titles(&again), titles(&groups));
}

#[test]
fn main_view_groups_with_filter_keep_loaded_packages() {
    let session = tour();
    let mut state = AppState::new(None, None);
    let _ = state.set_filter_mode(true);
    let groups = main_view_groups(&mut state, &session);
    assert_eq!(titles(&groups), vec![("A2".to_string(), 1), ("A1".to_string(), 1)]);
    assert_eq!(groups[0].packages[0].tracking, "T3");
    assert!(state.groups_memo.is_none());
}

#[test]
fn main_view_groups_filter_kept_groups() {
    let session = tour();
    let mut state = AppState::new(None, None);
    let _ = main_view_groups(&mut state, &session);
    state.filter_mode = true;
    let groups = main_view_groups(&mut state, &session);
    assert_eq!(titles(&groups), vec![("A2".to_string(), 1), ("A1".to_string(), 1)]);
    assert_eq!(titles(state.groups_memo.as_ref().unwrap()), vec![("A2".to_string(), 2), ("A1".to_string(), 1)]);
}

#[test]
fn header_buttons_follow_loading_and_session() {
    let idle = header_buttons(false, true);
    assert!(!idle.optimize_disabled && !idle.search_disabled && !idle.scanner_disabled && !idle.refresh_disabled);
    assert_eq!(idle.refresh_icon, "🔄");
    let no_session = header_buttons(false, false);
    assert!(no_session.optimize_disabled && no_session.search_disabled && no_session.refresh_disabled);
    assert!(!no_session.scanner_disabled);
    let loading = header_buttons(true, true);
    assert!(loading.optimize_disabled && loading.scanner_disabled && loading.refresh_disabled);
    assert_eq!(loading.refresh_icon, "⏳");
}

#[test]
fn location_errors_raise_the_alert() {
    assert!(needs_location_alert("Error: GEOLOCALIZACIÓN no disponible"));
    assert!(needs_location_alert("Activa tu Ubicación"));
    assert!(needs_location_alert("Driver Location missing"));
    assert!(!needs_location_alert("Error 500 del servidor"));
}

#[test]
fn traceability_is_fetched_once_with_credentials() {
    let sso = Some("tok".to_string());
    let user = Some("PCP0010699_A187518".to_string());
    let company = Some("PCP0010699".to_string());
    assert_eq!(
        traceability_request(false, false, &sso, &user, &company),
        Some(("tok".to_string(), "PCP0010699_A187518".to_string(), "PCP0010699".to_string()))
    );
    assert_eq!(traceability_request(true, false, &sso, &user, &company), None);
    assert_eq!(traceability_request(false, true, &sso, &user, &company), None);
    assert_eq!(traceability_request(false, false, &None, &user, &company), None);
    assert_eq!(traceability_request(false, false, &sso, &user, &None), None);
}

fn card(status: &str, kind: Option<&str>, is_problematic: bool) -> Package {
    Package {
        id: "P".to_string(),
        tracking: None,
        recipient: "Client".to_string(),
        address: "1 rue".to_string(),
        status: status.to_string(),
        code_statut_article: None,
        coords: None,
        phone: None,
        phone_fixed: None,
        instructions: None,
        door_code: None,
        has_mailbox_access: None,
        driver_notes: None,
        is_group: false,
        total_packages: None,
        group_packages: None,
        is_problematic,
        type_livraison: kind.map(|k| k.to_string()),
    }
}

#[test]
fn address_card_counts_statuses() {
    let cards = vec![
        card("STATUT_CHARGER", Some("RELAIS"), false),
        card("STATUT_LIVRER_DOMICILE", Some("RCS"), false),
        card("STATUT_CHARGER", None, true),
    ];
    let s = address_card_summary(&cards);
    assert_eq!(s.delivery_type, DeliveryType::PickupPoint);
    assert_eq!(s.status_counts.get("STATUT_CHARGER"), Some(&2));
    assert_eq!(s.status_counts.get("STATUT_LIVRER_DOMICILE"), Some(&1));
    assert_eq!(s.status_counts.get("STATUT_NONLIV_ABS"), None);
    assert_eq!(s.status_counts.len(), 2);
    assert!(s.has_problematic);

    let rcs = address_card_summary(&vec![card("STATUT_CHARGER", Some("RCS"), false)]);
    assert_eq!(rcs.delivery_type, DeliveryType::Rcs);
    assert!(!rcs.has_problematic);
    let other = address_card_summary(&vec![card("STATUT_CHARGER", Some("DOMICILE"), false)]);
    assert_eq!(other.delivery_type, DeliveryType::Home);
    let empty = address_card_summary(&vec![]);
    assert_eq!(empty.delivery_type, DeliveryType::Home);
    assert_eq!(empty.status_counts.len(), 0);
    assert!(!empty.has_problematic);
}

#[test]
fn subscribers_run_after_each_change() {
    let calls = Rc::new(Cell::new(0usize));
    let seen = calls.clone();
    let mut state = ReactiveState::new(1u32);
    state.subscribe(move || seen.set(seen.get() + 1));
    assert_eq!(calls.get(), 0);
    state.set(5);
    assert_eq!(*state.get(), 5);
    assert_eq!(calls.get(), 1);
    state.update(|v| v + 1);
    assert_eq!(*state.get(), 6);
    assert_eq!(calls.get(), 2);
}

#[test]
fn both_tables_translate_the_same_keys() {
    for key in ["destinataire", "adresse", "optimiser", "buscar_tracking", "traçabilité"] {
        assert!(!t(key, "es").is_empty());
        assert!(!t(key, "fr").is_empty());
        assert_ne!(t(key, "es"), key);
        assert_ne!(t(key, "fr"), key);
    }
    assert_eq!(t("destinataire", "es"), "Destinatario");
    assert_eq!(t("destinataire", "ES"), "Destinatario");
    assert_eq!(t("destinataire", "fr"), "Destinataire");
    assert_eq!(t("clave_desconocida", "es"), "clave_desconocida");
}

use route_optimizer::views::packages::package_details::{
    address_edit, geocoded_label, geocoding_error_message, AddressEdit,
};

#[test]
fn new_address_entry_is_trimmed_or_marks_problematic() {
    assert!(matches!(address_edit("   \t "), AddressEdit::MarkProblematic));
    assert!(matches!(address_edit(""), AddressEdit::MarkProblematic));
    match address_edit("  12 rue de la Paix  ") {
        AddressEdit::Geocode { address } => assert_eq!(address, "12 rue de la Paix"),
        AddressEdit::MarkProblematic => panic!("a real address is geocoded"),
    }
    assert_eq!(geocoded_label(Some("12 Rue de la Paix, Paris".to_string()), "12 rue".to_string()), "12 Rue de la Paix, Paris");
    assert_eq!(geocoded_label(None, "12 rue".to_string()), "12 rue");
    assert_eq!(geocoding_error_message("not found"), "❌ Error de geocodificación: not found");
}
