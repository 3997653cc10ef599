use route_optimizer::models::admin::{AdminDistrict, AdminTournee, StatusChangeRequest};
use route_optimizer::views::admin_dashboard::{
    admin_progress_figures, confirmed_by_date, export_confirmed_csv, format_preview_date, str_less,
};

fn req(tracking: &str, status: &str, date: &str, notes: Option<&str>) -> StatusChangeRequest {
    StatusChangeRequest {
        id: format!("r-{}", tracking),
        tracking_code: tracking.to_string(),
        driver_matricule: "M1".to_string(),
        customer_name: None,
        customer_address: None,
        notes: notes.map(|n| n.to_string()),
        status: status.to_string(),
        delivery_date: date.to_string(),
    }
}

#[test]
fn preview_dates() {
    assert_eq!(format_preview_date("2024-03-09"), "09/03/2024");
    assert_eq!(format_preview_date("2024-03-09T10:00:00Z"), "09/03/2024");
    assert_eq!(format_preview_date("09/03/2024"), "09/03/2024");
    assert_eq!(format_preview_date("short"), "short");
}

#[test]
fn text_order_is_string_order() {
    let words = ["", "a", "ab", "b", "é", "Z", "2024-01-02", "2024-01-10"];
    for x in words {
        for y in words {
            assert_eq!(str_less(x, y), x < y, "{} {}", x, y);
        }
    }
}

#[test]
fn grouping_by_date() {
    let reqs = vec![
        req("a1", "confirmed", "2024-03-10", None),
        req("a2", "pending", "2024-03-01", None),
        req("a3", "confirmed", "2024-03-01", None),
        req("a4", "confirmed", "2024-03-10", None),
    ];
    let g = confirmed_by_date(&reqs);
    assert_eq!(g.len(), 2);
    assert_eq!(g[0].0, "2024-03-01");
    assert_eq!(g[0].1, vec![2]);
    assert_eq!(g[1].0, "2024-03-10");
    assert_eq!(g[1].1, vec![0, 3]);
}

#[test]
fn csv_export() {
    let reqs = vec![
        req("ab12", "confirmed", "2024-03-10", Some("RELAIS")),
        req("cd34", "pending", "2024-03-01", None),
        req("ef56", "confirmed", "2024-03-01", None),
    ];
    let csv = export_confirmed_csv(&reqs).unwrap();
    assert_eq!(
        csv,
        "\u{FEFF}Date: 01/03/2024\nREF COLIS;TYPE DE LIVRAISON\nEF56;\n\nDate: 10/03/2024\nREF COLIS;TYPE DE LIVRAISON\nAB12;RELAIS\n\n"
    );
    assert_eq!(export_confirmed_csv(&vec![req("x", "pending", "2024-01-01", None)]), None);
}

#[test]
fn admin_progress() {
    let districts = vec![
        AdminDistrict {
            code_postal: "75001".to_string(),
            tournees: vec![
                AdminTournee { code_tournee: "T1".to_string(), matricule: "M1".to_string(), letter: "A".to_string(), statut: "OK".to_string(), nb_colis: 10, delivered_count: 4 },
                AdminTournee { code_tournee: "T2".to_string(), matricule: "M2".to_string(), letter: "B".to_string(), statut: "OK".to_string(), nb_colis: 10, delivered_count: 1 },
            ],
        },
        AdminDistrict { code_postal: "75002".to_string(), tournees: vec![] },
    ];
    let f = admin_progress_figures(20, &districts, &None);
    assert_eq!(f.delivered_packages, 5);
    assert_eq!(f.delivered_percent, 25);
    assert_eq!(f.total_addresses, 2);
    assert_eq!(f.completed_addresses, 2);
    assert_eq!(f.failed_packages, 0);
    let f = admin_progress_figures(0, &districts, &None);
    assert_eq!(f.delivered_percent, 0);
}

use route_optimizer::views::admin_dashboard::{district_card_clicked, pending_count, polling_notification};

#[test]
fn polling_notifies_only_on_new_pending_requests() {
    let reqs = vec![
        req("T1", "pending", "2024-05-01", None),
        req("T2", "confirmed", "2024-05-01", None),
        req("T3", "pending", "2024-05-02", None),
    ];
    assert_eq!(pending_count(&reqs), 2);
    assert_eq!(polling_notification(1, &reqs, true, true), Some("2 demandes en attente".to_string()));
    assert_eq!(polling_notification(2, &reqs, true, true), None);
    assert_eq!(polling_notification(1, &reqs, false, true), None);
    assert_eq!(polling_notification(1, &reqs, true, false), None);
    let one = vec![req("T1", "pending", "2024-05-01", None)];
    assert_eq!(polling_notification(0, &one, true, true), Some("1 demande en attente".to_string()));
}

#[test]
fn district_clicks_select_then_toggle() {
    let mut selected: Option<String> = None;
    let mut expanded: Vec<String> = Vec::new();
    district_card_clicked(&mut selected, &mut expanded, "75001");
    assert_eq!(selected.as_deref(), Some("75001"));
    assert!(expanded.is_empty());
    district_card_clicked(&mut selected, &mut expanded, "75001");
    assert_eq!(expanded, vec!["75001".to_string()]);
    district_card_clicked(&mut selected, &mut expanded, "75002");
    assert_eq!(selected.as_deref(), Some("75002"));
    assert_eq!(expanded, vec!["75001".to_string()]);
    district_card_clicked(&mut selected, &mut expanded, "75002");
    assert_eq!(expanded, vec!["75001".to_string(), "75002".to_string()]);
    district_card_clicked(&mut selected, &mut expanded, "75002");
    assert_eq!(expanded, vec!["75001".to_string()]);
}
