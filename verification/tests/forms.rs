use route_optimizer::views::auth::login_view::validate_login;
use route_optimizer::views::auth::register_view::validate_registration;
use route_optimizer::views::login::missing_login_fields;
use route_optimizer::views::tracking_modal::filter_trackings;

fn register(siret: &str, email: &str, pw: &str, confirm: &str) -> Result<String, String> {
    validate_registration(
        "ACME".to_string(),
        "1 rue X".to_string(),
        siret.to_string(),
        "Ana".to_string(),
        email.to_string(),
        pw.to_string(),
        confirm.to_string(),
    )
    .map(|d| d.company_siret)
}

#[test]
fn registration_checks() {
    assert_eq!(register("", "a@b", "x", "x"), Ok("".to_string()));
    assert_eq!(register("12345678901234", "a@b", "x", "x"), Ok("12345678901234".to_string()));
    assert_eq!(register("1234", "a@b", "x", "x"), Err("SIRET debe tener 14 dígitos".to_string()));
    assert_eq!(register("1234567890123a", "a@b", "x", "x"), Err("SIRET debe tener 14 dígitos".to_string()));
    assert_eq!(register("", "ab", "x", "x"), Err("Email inválido".to_string()));
    assert_eq!(register("", "a@b", "x", "y"), Err("Las contraseñas no coinciden".to_string()));
    assert_eq!(register("", "", "x", "x"), Err("Por favor, completa todos los campos obligatorios".to_string()));
}

#[test]
fn login_checks() {
    assert_eq!(validate_login(false, "u", "p"), Err("Veuillez sélectionner une entreprise".to_string()));
    assert_eq!(validate_login(true, "", "p"), Err("Veuillez remplir tous les champs".to_string()));
    assert_eq!(validate_login(true, "u", "p"), Ok(()));
    assert_eq!(missing_login_fields("u", "p", ""), Some("Veuillez remplir tous les champs".to_string()));
    assert_eq!(missing_login_fields("u", "p", "s"), None);
}

#[test]
fn tracking_search() {
    let codes = vec!["AB12".to_string(), "cd34".to_string(), "XAB9".to_string()];
    assert_eq!(filter_trackings(&codes, ""), codes);
    assert_eq!(filter_trackings(&codes, "ab"), vec!["AB12".to_string(), "XAB9".to_string()]);
    assert_eq!(filter_trackings(&codes, "CD"), vec!["cd34".to_string()]);
    assert!(filter_trackings(&codes, "zz").is_empty());
}

use route_optimizer::models::session::DeliveryType;
use route_optimizer::state::session_state::SessionState;
use route_optimizer::views::package_card::{card_classes, number_color_class};

#[test]
fn card_styles() {
    assert_eq!(card_classes(DeliveryType::PickupPoint, true, false), "package-card type-relais problematic");
    assert_eq!(card_classes(DeliveryType::Home, false, true), "package-card type-domicile selected");
    assert_eq!(number_color_class("STATUT_RECEPTIONNER"), "package-number-yellow");
    assert_eq!(number_color_class("STATUT_LIVRER_DOMICILE"), "package-number-green");
    assert_eq!(number_color_class("STATUT_NONLIV_ABSENT"), "package-number-red");
    assert_eq!(number_color_class("STATUT_CHARGER"), "package-number-normal");
}

#[test]
fn session_state_read_after_write() {
    let mut s = SessionState::new();
    s.set_loading(true);
    s.set_error(Some("e".to_string()));
    s.set_last_fetch_time(Some(42));
    assert!(s.get_loading());
    assert_eq!(s.get_error(), Some("e".to_string()));
    assert_eq!(s.get_last_fetch_time(), Some(42));
    assert!(s.get_session().is_none());
}

use route_optimizer::models::company::Company;
use route_optimizer::views::auth::company_selector::filter_companies;

#[test]
fn company_search() {
    let list = vec![
        Company { code: "CP01".to_string(), name: "Colis Privé".to_string() },
        Company { code: "TR02".to_string(), name: "Transports Rapides".to_string() },
    ];
    assert_eq!(filter_companies(&list, "").len(), 2);
    let r = filter_companies(&list, "privé");
    assert_eq!(r.len(), 1);
    assert_eq!(r[0].code, "CP01");
    let r = filter_companies(&list, "tr0");
    assert_eq!(r.len(), 1);
    assert_eq!(r[0].name, "Transports Rapides");
    assert!(filter_companies(&list, "zzz").is_empty());
}
