use route_optimizer::models::sync::{Change, PendingChangesQueue, SyncState};
use route_optimizer::state::app_state::{AppState, IncrementalUpdate, ModalType, UpdateType};
use route_optimizer::state::auth_state::AuthState;
use route_optimizer::utils::i18n::t;
use route_optimizer::utils::storage::get_cache_key;
use route_optimizer::views::sync_indicator::indicator_text;

#[test]
fn translation_of_known_and_unknown_keys() {
    assert_eq!(t("destinataire", "es"), "Destinatario");
    assert_eq!(t("destinataire", "ES"), "Destinatario");
    assert_eq!(t("destinataire", "fr"), "Destinataire");
    assert_eq!(t("cle_inconnue", "es"), "cle_inconnue");
    assert_eq!(t("cle_inconnue", "de"), "cle_inconnue");
}

#[test]
fn cache_key_joins_company_and_user() {
    assert_eq!(get_cache_key("ACME", "bob"), "ACME_bob");
}

#[test]
fn indicator_texts() {
    assert_eq!(indicator_text(&SyncState::Synced), None);
    assert_eq!(indicator_text(&SyncState::Syncing), Some(("⏳ Syncing...".to_string(), false)));
    assert_eq!(indicator_text(&SyncState::Pending { count: 12 }), Some(("⏳ Pending (12)".to_string(), false)));
    assert_eq!(indicator_text(&SyncState::Offline { pending_count: 0 }), Some(("📴 Offline".to_string(), true)));
    assert_eq!(indicator_text(&SyncState::Offline { pending_count: 3 }), Some(("📴 Offline (3 pending)".to_string(), true)));
    assert_eq!(indicator_text(&SyncState::Error { message: "x".to_string() }), Some(("❌ Error: x".to_string(), true)));
}

#[test]
fn queue_retry_saturates() {
    let mut q = PendingChangesQueue::new(vec![Change::PackageScanned {
        tracking: "T1".to_string(),
        new_status: "STATUT_SCANNED".to_string(),
        timestamp: 1,
    }]);
    assert_eq!(q.len(), 1);
    assert!(!q.is_empty());
    q.increment_retry();
    assert_eq!(q.retry_count, 1);
    q.retry_count = u32::MAX;
    q.increment_retry();
    assert_eq!(q.retry_count, u32::MAX);
}

#[test]
fn auth_logout_clears_everything() {
    let mut a = AuthState::new();
    a.set_logged_in(true);
    a.set_username(Some("bob".to_string()));
    a.set_token(Some("tok".to_string()));
    assert_eq!(a.get_username(), Some("bob".to_string()));
    a.logout();
    assert!(!a.get_logged_in());
    assert_eq!(a.get_username(), None);
    assert_eq!(a.get_token(), None);
}

#[test]
fn app_state_defaults_and_preferences() {
    let s = AppState::new(None, None);
    assert!(s.map_enabled);
    assert_eq!(s.language, "FR");
    assert_eq!(s.sheet_state, "half");
    let s = AppState::new(Some("false"), Some("ES".to_string()));
    assert!(!s.map_enabled);
    assert_eq!(s.language, "ES");
    let mut s = AppState::new(Some("true"), None);
    assert!(s.map_enabled);
    let w = s.set_map_enabled(false);
    assert_eq!((w.key.as_str(), w.value.as_str()), ("map_enabled", "false"));
    let (w, u) = s.set_sheet_state("full".to_string());
    assert_eq!((w.key.as_str(), w.value.as_str()), ("sheet_state", "full"));
    assert_eq!(u, UpdateType::Incremental(IncrementalUpdate::BottomSheet));
}

#[test]
fn app_state_edit_mode_and_details() {
    let mut s = AppState::new(None, None);
    s.set_edit_mode(true);
    s.edit_origin_idx = Some(4);
    s.set_edit_mode(true);
    assert_eq!(s.edit_origin_idx, Some(4));
    s.set_edit_mode(false);
    assert_eq!(s.edit_origin_idx, None);
    s.editing_address = true;
    s.address_input_value = "x".to_string();
    s.edit_error_message = Some("e".to_string());
    let u = s.set_show_details(false);
    assert_eq!(u, UpdateType::Incremental(IncrementalUpdate::Modal(ModalType::Details)));
    assert!(!s.editing_address);
    assert_eq!(s.address_input_value, "");
    assert_eq!(s.edit_error_message, None);
    let updates = s.set_filter_mode(true);
    assert_eq!(updates, vec![UpdateType::Incremental(IncrementalUpdate::PackageList)]);
}

#[test]
fn app_state_scroll_position() {
    let mut s = AppState::new(None, None);
    s.save_package_list_scroll_position(None);
    assert_eq!(s.package_list_scroll_position, None);
    s.save_package_list_scroll_position(Some(240));
    assert_eq!(s.restore_package_list_scroll_position(false), Some(240));
    assert_eq!(s.package_list_scroll_position, Some(240));
    assert_eq!(s.restore_package_list_scroll_position(true), Some(240));
    assert_eq!(s.package_list_scroll_position, None);
}
