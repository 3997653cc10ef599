use route_optimizer::models::session::{
    Address, DeliverySession, DeliveryType, Driver, SessionPackage, SessionStats,
};
use route_optimizer::models::strmap::StrMap;
use route_optimizer::models::sync::Change;
use route_optimizer::services::delivery_session_converter::DeliverySessionConverter;
use route_optimizer::views::app::{find_group_idx_by_tracking, next_sheet_state, reorder_groups, reorder_session};
use route_optimizer::views::bottom_sheet::progress_figures;
use route_optimizer::views::package_list::{group_packages_by_address, sort_by_route_order};
use route_optimizer::viewmodels::session_viewmodel::SessionViewModel;

fn pkg(tracking: &str, address_id: &str, status: &str, route_order: Option<usize>, original_order: usize) -> SessionPackage {
    SessionPackage {
        internal_id: format!("id-{}", tracking),
        tracking: tracking.to_string(),
        customer_name: format!("Client {}", tracking),
        phone_number: None,
        customer_indication: None,
        status: status.to_string(),
        is_problematic: false,
        delivery_type: DeliveryType::Home,
        address_id: address_id.to_string(),
        route_order,
        original_order,
    }
}

fn addr(id: &str, label: &str, ids: &[&str]) -> Address {
    Address {
        address_id: id.to_string(),
        label: label.to_string(),
        latitude_bits: 48.85f64.to_bits(),
        longitude_bits: 2.35f64.to_bits(),
        door_code: Some("1234".to_string()),
        mailbox_access: Some(true),
        driver_notes: None,
        package_ids: ids.iter().map(|s| s.to_string()).collect(),
    }
}

fn session() -> DeliverySession {
    let mut packages = StrMap::new();
    packages.insert("T1".to_string(), pkg("T1", "A1", "STATUT_CHARGER", Some(2), 0));
    packages.insert("T2".to_string(), pkg("T2", "A2", "STATUT_LIVRER_DOMICILE", Some(0), 1));
    packages.insert("T3".to_string(), pkg("T3", "A2", "STATUT_CHARGER", Some(1), 2));
    let mut addresses = StrMap::new();
    addresses.insert("A1".to_string(), addr("A1", "1 rue A", &["T1"]));
    addresses.insert("A2".to_string(), addr("A2", "2 rue B", &["T2", "T3"]));
    DeliverySession {
        session_id: "S1".to_string(),
        driver: Driver { driver_id: "D1".to_string(), company_id: "C1".to_string() },
        packages,
        addresses,
        stats: SessionStats { total_packages: 3, total_addresses: 2 },
        last_sync: 1_700_000_000,
    }
}

#[test]
fn converter_makes_one_card_per_address() {
    let cards = DeliverySessionConverter::convert_to_packages(&session());
    assert_eq!(cards.len(), 2);
    assert_eq!(cards[0].id, "id-T1");
    assert!(!cards[0].is_group);
    assert_eq!(cards[0].tracking.as_deref(), Some("T1"));
    assert_eq!(cards[0].type_livraison.as_deref(), Some("DOMICILE"));
    assert_eq!(cards[1].id, "A2");
    assert!(cards[1].is_group);
    assert_eq!(cards[1].recipient, "2 paquetes");
    assert_eq!(cards[1].total_packages, Some(2));
    assert_eq!(cards[1].group_packages.as_ref().unwrap().len(), 2);
    assert_eq!(cards[1].status, "STATUT_LIVRER_DOMICILE");
}

#[test]
fn converter_filter_keeps_loaded_cards() {
    let cards = DeliverySessionConverter::convert_to_packages(&session());
    let kept = DeliverySessionConverter::apply_filters(&cards, true);
    assert_eq!(kept.len(), 1);
    assert_eq!(kept[0].id, "id-T1");
    let all = DeliverySessionConverter::apply_filters(&cards, false);
    assert_eq!(all.len(), 2);
}

#[test]
fn converter_stats_count_treated_cards() {
    let cards = DeliverySessionConverter::convert_to_packages(&session());
    let (total, treated, pct) = DeliverySessionConverter::get_stats(&cards);
    assert_eq!((total, treated, pct), (2, 1, 50));
    assert_eq!(DeliverySessionConverter::get_stats(&[]), (0, 0, 0));
}

#[test]
fn sort_is_by_route_order() {
    let s = session();
    let list: Vec<SessionPackage> = s.packages.entries.iter().map(|e| e.1.clone()).collect();
    let sorted = sort_by_route_order(&list);
    let order: Vec<&str> = sorted.iter().map(|p| p.tracking.as_str()).collect();
    assert_eq!(order, vec!["T2", "T3", "T1"]);
}

#[test]
fn groups_follow_route_order() {
    let s = session();
    let list: Vec<SessionPackage> = s.packages.entries.iter().map(|e| e.1.clone()).collect();
    let groups = group_packages_by_address(list);
    assert_eq!(groups.len(), 2);
    assert_eq!(groups[0].title, "A2");
    assert_eq!(groups[0].count, 2);
    assert_eq!(groups[0].packages[0].tracking, "T2");
    assert_eq!(groups[1].title, "A1");
    assert_eq!(groups[1].count, 1);
    assert_eq!(find_group_idx_by_tracking("T3", &groups), Some(0));
    assert_eq!(find_group_idx_by_tracking("T9", &groups), None);
}

#[test]
fn sheet_cycles_through_three_heights() {
    assert_eq!(next_sheet_state("collapsed"), "half");
    assert_eq!(next_sheet_state("half"), "full");
    assert_eq!(next_sheet_state("full"), "collapsed");
    assert_eq!(next_sheet_state("other"), "collapsed");
    let mut s = "half".to_string();
    for _ in 0..3 {
        s = next_sheet_state(&s);
    }
    assert_eq!(s, "half");
}

#[test]
fn reorder_moves_one_group() {
    let s = session();
    let list: Vec<SessionPackage> = s.packages.entries.iter().map(|e| e.1.clone()).collect();
    let groups = group_packages_by_address(list);
    let moved = reorder_groups(groups, 0, 2);
    assert_eq!(moved[0].title, "A1");
    assert_eq!(moved[1].title, "A2");
}

#[test]
fn reorder_session_renumbers_and_records_changes() {
    let mut s = session();
    let list: Vec<SessionPackage> = s.packages.entries.iter().map(|e| e.1.clone()).collect();
    let groups = group_packages_by_address(list);
    let changes = reorder_session(&mut s, groups, 0, 2, 1_700_000_100);
    let t1 = s.find_by_tracking("T1").unwrap();
    let t2 = s.find_by_tracking("T2").unwrap();
    let t3 = s.find_by_tracking("T3").unwrap();
    assert_eq!((t1.route_order, t2.route_order, t3.route_order), (Some(0), Some(1), Some(1)));
    assert!(!changes.is_empty());
    for c in &changes {
        match c {
            Change::OrderChanged { timestamp, .. } => assert_eq!(*timestamp, 1_700_000_100),
            _ => panic!("unexpected change"),
        }
    }
}

#[test]
fn progress_counts_treated_addresses() {
    let f = progress_figures(&session());
    assert_eq!(f.total_addresses, 2);
    assert_eq!(f.completed_addresses, 0);
    assert_eq!(f.total_packages, 3);
    assert_eq!(f.delivered_packages, 1);
    assert_eq!(f.failed_packages, 0);
    assert_eq!(f.delivered_percent, 33);
    assert_eq!(f.failed_percent, 0);
}

#[test]
fn scan_marks_package_and_records_change() {
    let vm = SessionViewModel::new();
    let s = session();
    let (updated, change) = vm.scan_package("T1", &s, 1_700_000_200).unwrap();
    assert_eq!(updated.find_by_tracking("T1").unwrap().status, "STATUT_SCANNED");
    assert_eq!(updated.find_by_tracking("T2").unwrap().status, "STATUT_LIVRER_DOMICILE");
    match change {
        Change::PackageScanned { tracking, new_status, timestamp } => {
            assert_eq!(tracking, "T1");
            assert_eq!(new_status, "STATUT_SCANNED");
            assert_eq!(timestamp, 1_700_000_200);
        }
        _ => panic!("unexpected change"),
    }
    let err = vm.scan_package("NOPE", &s, 1).err().unwrap();
    assert_eq!(err, "Paquete no encontrado: NOPE");
}

#[test]
fn scan_keeps_the_rest_of_the_session() {
    let vm = SessionViewModel::new();
    let s = session();
    let (updated, _) = vm.scan_package("T3", &s, 1_700_000_300).unwrap();
    assert_eq!(updated.session_id, "S1");
    assert_eq!(updated.driver.driver_id, "D1");
    assert_eq!(updated.driver.company_id, "C1");
    assert_eq!(updated.stats.total_packages, 3);
    assert_eq!(updated.stats.total_addresses, 2);
    assert_eq!(updated.last_sync, 1_700_000_000);
    assert_eq!(updated.addresses.len(), 2);
    assert_eq!(updated.addresses.get("A2").unwrap().label, "2 rue B");
    assert_eq!(updated.addresses.get("A2").unwrap().package_ids, vec!["T2".to_string(), "T3".to_string()]);
    assert_eq!(updated.addresses.get("A1").unwrap().door_code, Some("1234".to_string()));
}

use route_optimizer::state::app_state::AppState;
use route_optimizer::views::app::{on_package_selected, SelectionAction};

#[test]
fn card_taps() {
    let mut state = AppState::new(None, None);
    assert!(matches!(on_package_selected(&mut state, 2, 5), SelectionAction::Select { index: 2 }));
    assert_eq!(state.selected_package_index, Some(2));
    state.set_edit_mode(true);
    assert!(matches!(on_package_selected(&mut state, 1, 5), SelectionAction::SetOrigin { index: 1 }));
    assert_eq!(state.edit_origin_idx, Some(1));
    assert!(matches!(on_package_selected(&mut state, 3, 5), SelectionAction::Reorder { origin: 1, index: 3 }));
    assert_eq!(state.edit_origin_idx, None);
    assert!(matches!(on_package_selected(&mut state, 3, 5), SelectionAction::SetOrigin { index: 3 }));
    assert!(matches!(on_package_selected(&mut state, 3, 5), SelectionAction::Cancel));
    assert!(matches!(on_package_selected(&mut state, 4, 5), SelectionAction::SetOrigin { index: 4 }));
    assert!(matches!(on_package_selected(&mut state, 7, 5), SelectionAction::Cancel));
}
