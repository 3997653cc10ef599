use route_optimizer::models::package::Package;
use route_optimizer::services::cache_service::{CacheService, PackagesCache, CACHE_VERSION};

fn card(id: &str, status: Option<&str>, is_group: bool, is_problematic: bool) -> Package {
    Package {
        id: id.to_string(),
        tracking: None,
        recipient: "Client".to_string(),
        address: "1 rue de la Paix".to_string(),
        status: "STATUT_CHARGER".to_string(),
        code_statut_article: status.map(|s| s.to_string()),
        coords: None,
        phone: None,
        phone_fixed: None,
        instructions: None,
        door_code: None,
        has_mailbox_access: None,
        driver_notes: None,
        is_group,
        total_packages: None,
        group_packages: None,
        is_problematic,
        type_livraison: None,
    }
}

fn ids(v: &[Package]) -> Vec<String> {
    v.iter().map(|p| p.id.clone()).collect()
}

#[test]
fn test_cache_categorization() {
    let cards = vec![
        card("a", None, false, false),
        card("b", None, true, false),
        card("c", None, true, true),
        card("d", None, false, true),
        card("e", None, false, false),
    ];
    let (singles, groups, problematic) = PackagesCache::categorize_packages(&cards);
    assert_eq!(ids(&singles), vec!["a", "e"]);
    assert_eq!(ids(&groups), vec!["b"]);
    assert_eq!(ids(&problematic), vec!["c", "d"]);
}

#[test]
fn new_cache_is_valid_and_versioned() {
    let cache = PackagesCache::new("T1".to_string(), vec![card("a", None, false, false)], 1_700_000_000_000);
    assert_eq!(cache.version, CACHE_VERSION);
    assert_eq!(cache.timestamp, 1_700_000_000_000);
    assert!(cache.is_valid(1_700_000_000_000));
    assert!(cache.is_valid(1_700_000_000_000 + 24 * 3_600_000));
    assert!(cache.is_valid(1_700_000_000_000 + 25 * 3_600_000 - 500));
    assert!(!cache.is_valid(1_700_000_000_000 + 25 * 3_600_000));
}

#[test]
fn old_version_is_invalid() {
    let mut cache = PackagesCache::new("T1".to_string(), vec![], 1_700_000_000_000);
    cache.version = 2;
    assert!(!cache.is_valid(1_700_000_000_000));
}

#[test]
fn tampered_checksum_is_invalid() {
    let mut cache = PackagesCache::new("T1".to_string(), vec![card("a", Some("X"), false, false)], 1_700_000_000_000);
    cache.checksum = "0".to_string();
    assert!(!cache.is_valid(1_700_000_000_000));
}

#[test]
fn checksum_depends_on_ids_and_status() {
    let a = PackagesCache::calculate_checksum(&[card("a", Some("S1"), false, false)]);
    let b = PackagesCache::calculate_checksum(&[card("b", Some("S1"), false, false)]);
    let c = PackagesCache::calculate_checksum(&[card("a", Some("S2"), false, false)]);
    let a2 = PackagesCache::calculate_checksum(&[card("a", Some("S1"), true, true)]);
    assert_ne!(a, b);
    assert_ne!(a, c);
    assert_eq!(a, a2);
    assert!(a.chars().all(|ch| ch.is_ascii_hexdigit() && !ch.is_ascii_uppercase()));
}

#[test]
fn update_packages_recategorizes() {
    let mut cache = PackagesCache::new("T1".to_string(), vec![card("a", None, false, false)], 1_700_000_000_000);
    cache.update_packages(vec![card("g", None, true, false), card("p", None, false, true)], 1_700_000_500_000);
    assert_eq!(cache.timestamp, 1_700_000_500_000);
    assert_eq!(ids(&cache.packages), vec!["g", "p"]);
    assert_eq!(ids(&cache.groups), vec!["g"]);
    assert_eq!(ids(&cache.problematic), vec!["p"]);
    assert!(cache.singles.is_empty());
    assert!(cache.is_valid(1_700_000_500_000));
}

#[test]
fn service_creates_cache_for_unknown_user() {
    let cache = CacheService::update_packages(None, None, vec![card("a", None, false, false)], 1_700_000_000_000);
    assert_eq!(cache.tournee_id, "unknown");
    let cache = CacheService::update_packages(None, Some("driver7".to_string()), vec![], 1_700_000_000_000);
    assert_eq!(cache.tournee_id, "driver7");
}

#[test]
fn mark_problematic_moves_card() {
    let cache = PackagesCache::new("T1".to_string(), vec![card("a", None, false, false), card("b", None, false, false)], 1_700_000_000_000);
    let updated = CacheService::mark_package_problematic(Some(cache), "b", 1_700_000_100_000).unwrap();
    assert_eq!(ids(&updated.singles), vec!["a"]);
    assert_eq!(ids(&updated.problematic), vec!["b"]);
    assert!(CacheService::mark_package_problematic(None, "b", 1_700_000_100_000).is_err());
}

#[test]
fn stats_of_missing_cache_are_zero() {
    let stats = CacheService::get_stats(&None, 1_700_000_000_000);
    assert_eq!(stats.total_packages, 0);
    assert_eq!(stats.version, 0);
    let cache = PackagesCache::new("T1".to_string(), vec![card("a", None, true, false)], 1_700_000_000_000);
    let stats = CacheService::get_stats(&Some(cache), 1_700_000_000_000 + 5 * 3_600_000 + 10_000);
    assert_eq!(stats.total_packages, 1);
    assert_eq!(stats.groups, 1);
    assert_eq!(stats.age_hours, 5);
    assert_eq!(stats.version, CACHE_VERSION);
}
