use route_optimizer::models::json::{JsonNumber, JsonValue};
use route_optimizer::services::api_client::ApiClient;
use route_optimizer::services::delivery_session_service::load_session_from_storage;
use route_optimizer::services::package_service::{
    cached_packages_usable, extract_matricule, parse_group_package, parse_legacy_package,
    parse_packages_response, parse_single_package,
};

fn s(v: &str) -> JsonValue {
    JsonValue::String(v.to_string())
}

fn f(v: f64) -> JsonValue {
    JsonValue::Number(JsonNumber { as_u64: None, as_f64_bits: Some(v.to_bits()) })
}

fn u(v: u64) -> JsonValue {
    JsonValue::Number(JsonNumber { as_u64: Some(v), as_f64_bits: Some((v as f64).to_bits()) })
}

fn obj(members: Vec<(&str, JsonValue)>) -> JsonValue {
    JsonValue::Object(members.into_iter().map(|(k, v)| (k.to_string(), v)).collect())
}

#[test]
fn json_get_finds_first_member() {
    let v = obj(vec![("a", s("x")), ("b", JsonValue::Bool(true)), ("a", s("y"))]);
    assert_eq!(v.get("a").and_then(|x| x.as_str()), Some("x"));
    assert_eq!(v.get("b").and_then(|x| x.as_bool()), Some(true));
    assert!(v.get("c").is_none());
    assert!(s("x").get("a").is_none());
}

#[test]
fn single_with_all_fields() {
    let single = obj(vec![
        ("tracking", s("TRK1")),
        ("customer_name", s("Ana")),
        ("official_label", s("3 rue C")),
        ("code_statut_article", s("STATUT_CHARGER")),
        ("latitude", f(48.8)),
        ("longitude", f(2.3)),
        ("phone_number", s("0600")),
        ("customer_indication", s("porte bleue")),
        ("is_problematic", JsonValue::Bool(true)),
    ]);
    let p = parse_single_package(&single, 4).unwrap();
    assert_eq!(p.id, "TRK1");
    assert_eq!(p.recipient, "Ana");
    assert_eq!(p.address, "3 rue C");
    assert_eq!(p.status, "pending");
    assert_eq!(p.code_statut_article.as_deref(), Some("STATUT_CHARGER"));
    let c = p.coords.unwrap();
    assert_eq!(f64::from_bits(c.latitude_bits), 48.8);
    assert_eq!(f64::from_bits(c.longitude_bits), 2.3);
    assert_eq!(p.phone.as_deref(), Some("0600"));
    assert_eq!(p.instructions.as_deref(), Some("porte bleue"));
    assert!(p.is_problematic);
    assert!(!p.is_group);
}

#[test]
fn single_defaults_and_zero_position() {
    let single = obj(vec![("latitude", f(0.0)), ("longitude", f(2.3))]);
    let p = parse_single_package(&single, 7).unwrap();
    assert_eq!(p.id, "single-7");
    assert_eq!(p.recipient, "Destinatario desconocido");
    assert_eq!(p.address, "Dirección no disponible");
    assert!(p.coords.is_none());
    assert!(!p.is_problematic);
    let single = obj(vec![("id", s("ID9"))]);
    assert_eq!(parse_single_package(&single, 0).unwrap().id, "ID9");
}

#[test]
fn group_collects_customer_packages() {
    let group = obj(vec![
        ("id", s("G1")),
        ("total_packages", u(3)),
        ("official_label", s("4 rue D")),
        ("latitude", f(0.0)),
        ("longitude", f(0.0)),
        ("driver_notes", s("sonner")),
        ("customers", JsonValue::Array(vec![
            obj(vec![
                ("customer_name", s("Luc")),
                ("phone_number", s("0700")),
                ("packages", JsonValue::Array(vec![
                    obj(vec![("id", s("p1")), ("tracking", s("t1"))]),
                    obj(vec![("customer_indication", s("ici"))]),
                ])),
            ]),
            obj(vec![("packages", JsonValue::Array(vec![obj(vec![("id", s("p3"))])]))]),
        ])),
    ]);
    let p = parse_group_package(&group, 2).unwrap();
    assert_eq!(p.id, "G1");
    assert_eq!(p.recipient, "3 paquetes");
    assert_eq!(p.total_packages, Some(3));
    assert!(p.is_group);
    assert!(p.coords.is_some());
    assert_eq!(p.instructions.as_deref(), Some("sonner"));
    let members = p.group_packages.unwrap();
    assert_eq!(members.len(), 3);
    assert_eq!((members[0].id.as_str(), members[0].tracking.as_str()), ("p1", "t1"));
    assert_eq!((members[1].id.as_str(), members[1].tracking.as_str()), ("unknown", "N/A"));
    assert_eq!(members[1].customer_indication.as_deref(), Some("ici"));
    assert_eq!(members[1].customer_name, "Luc");
    assert_eq!(members[1].phone_number.as_deref(), Some("0700"));
    assert_eq!(members[2].customer_name, "Cliente desconocido");
    let bare = parse_group_package(&obj(vec![]), 5).unwrap();
    assert_eq!(bare.id, "group-5");
    assert_eq!(bare.recipient, "0 paquetes");
    assert_eq!(bare.group_packages.unwrap().len(), 0);
}

#[test]
fn legacy_entries() {
    let pkg = obj(vec![
        ("tracking_number", s("TN1")),
        ("recipient_name", s("Eva")),
        ("destinataire_adresse1", s("5 rue E")),
        ("destinataire_ville", s("Lyon")),
        ("statut", s("LIVRÉ")),
    ]);
    let p = parse_legacy_package(&pkg, 0);
    assert_eq!(p.id, "TN1");
    assert_eq!(p.recipient, "Eva");
    assert_eq!(p.address, "5 rue E, Lyon");
    assert_eq!(p.status, "delivered");
    let p = parse_legacy_package(&obj(vec![("status", s("EN COURS"))]), 4);
    assert_eq!(p.id, "PKG-5");
    assert_eq!(p.address, "Dirección no disponible");
    assert_eq!(p.status, "pending");
}

#[test]
fn response_forms() {
    let grouped = obj(vec![
        ("singles", JsonValue::Array(vec![obj(vec![]), obj(vec![])])),
        ("groups", JsonValue::Array(vec![obj(vec![]), obj(vec![])])),
    ]);
    let cards = parse_packages_response(&grouped);
    let ids: Vec<&str> = cards.iter().map(|p| p.id.as_str()).collect();
    assert_eq!(ids, vec!["single-0", "single-1", "group-2", "group-4"]);
    let flat = obj(vec![("success", JsonValue::Bool(true)), ("packages", JsonValue::Array(vec![obj(vec![])]))]);
    assert_eq!(parse_packages_response(&flat)[0].id, "PKG-1");
    let failed = obj(vec![("success", JsonValue::Bool(false)), ("packages", JsonValue::Array(vec![obj(vec![])]))]);
    assert!(parse_packages_response(&failed).is_empty());
    assert!(parse_packages_response(&JsonValue::Null).is_empty());
}

#[test]
fn matricule_after_last_underscore() {
    assert_eq!(extract_matricule("ACME_12_345"), "345");
    assert_eq!(extract_matricule("plain"), "plain");
    assert_eq!(extract_matricule("ends_"), "");
}

#[test]
fn cached_copy_freshness() {
    let now = 1_700_000_000_000 + 10 * 60_000;
    let stored = "2023-11-14T22:13:20Z";
    assert!(cached_packages_usable(stored, 2, now, 11));
    assert!(!cached_packages_usable(stored, 2, now, 10));
    assert!(!cached_packages_usable(stored, 1, now, 60));
    assert!(!cached_packages_usable("not a date", 2, now, 60));
    // Eleven minutes less half a second is still ten whole minutes.
    let later = 1_700_000_000_000 + 11 * 60_000 - 500;
    assert!(cached_packages_usable(stored, 2, later, 11));
    assert!(!cached_packages_usable(stored, 2, later + 500, 11));
    assert!(cached_packages_usable("2023-11-14T22:13:20.250Z", 2, later + 500, 11));
}

#[test]
fn endpoint_urls() {
    let c = ApiClient::new();
    assert_eq!(c.endpoint(&["sessions", "S1", "scan"]), format!("{}/v1/sessions/S1/scan", c.base_url));
    assert_eq!(c.endpoint(&[]), format!("{}/v1", c.base_url));
}

#[test]
fn stored_session_outcomes() {
    assert!(matches!(load_session_from_storage(None), Ok(None)));
    let err = load_session_from_storage(Some(Err("eof".to_string()))).err().unwrap();
    assert_eq!(err, "Error deserializando sesión: eof");
}

use route_optimizer::models::company::Company;
use route_optimizer::models::package::Package;
use route_optimizer::services::auth_service::{
    auth_url, cached_companies_usable, companies_url, http_error_message, register_error_message, register_url,
    usable_cached_companies, CompaniesCache,
};
use route_optimizer::services::cache_service::login_username;
use route_optimizer::services::package_service::{packages_after_request, PackagesAnswer};

#[test]
fn companies_list_kept_for_a_day() {
    let stored = "2023-11-14T22:13:20Z";
    let t = 1_700_000_000_000i64;
    assert!(cached_companies_usable(stored, t));
    assert!(cached_companies_usable(stored, t + 24 * 3_600_000 - 1));
    assert!(!cached_companies_usable(stored, t + 24 * 3_600_000));
    assert!(!cached_companies_usable("yesterday", t));
    let cache = || CompaniesCache {
        companies: vec![Company { code: "PCP".to_string(), name: "Colis".to_string() }],
        timestamp: stored.to_string(),
    };
    let kept = usable_cached_companies(Some(cache()), t + 3_600_000).unwrap();
    assert_eq!(kept.len(), 1);
    assert_eq!(kept[0].code, "PCP");
    assert!(usable_cached_companies(Some(cache()), t + 48 * 3_600_000).is_none());
    assert!(usable_cached_companies(None, t).is_none());
}

#[test]
fn login_service_addresses_and_errors() {
    assert_eq!(companies_url(), "http://localhost:3000/colis-prive/companies");
    assert_eq!(auth_url(), "http://localhost:3000/colis-prive/auth");
    assert_eq!(register_url(), "http://localhost:3000/company/register");
    assert_eq!(http_error_message(404), "HTTP error: 404");
    assert_eq!(register_error_message(409, "exists"), "HTTP error 409: exists");
}

fn named(id: &str) -> Package {
    let mut p = parse_legacy_package(&obj(vec![("id", s(id))]), 0);
    p.id = id.to_string();
    p
}

#[test]
fn package_fetch_falls_back_to_stored_copy() {
    let got = packages_after_request(PackagesAnswer::Answered { packages: vec![named("a")] }, None);
    assert!(got.store);
    assert_eq!(got.result.unwrap()[0].id, "a");
    let empty = packages_after_request(PackagesAnswer::Answered { packages: vec![] }, Some(vec![named("old")]));
    assert!(!empty.store);
    assert!(empty.result.unwrap().is_empty());
    let refused = packages_after_request(PackagesAnswer::Refused { status: 500 }, Some(vec![named("old")]));
    assert!(!refused.store);
    assert_eq!(refused.result.unwrap()[0].id, "old");
    let refused = packages_after_request(PackagesAnswer::Refused { status: 500 }, None);
    assert_eq!(refused.result.err().unwrap(), "HTTP error: 500");
    let offline = packages_after_request(PackagesAnswer::Unreachable { error: "offline".to_string() }, None);
    assert_eq!(offline.result.err().unwrap(), "Request error: offline");
}

#[test]
fn stored_login_gives_its_user_name() {
    let data = obj(vec![("username", s("PCP_42")), ("password", s("x"))]);
    assert_eq!(login_username(Some(&data)), Some("PCP_42".to_string()));
    assert_eq!(login_username(Some(&obj(vec![("username", u(3))]))), None);
    assert_eq!(login_username(None), None);
}
