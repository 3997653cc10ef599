//! Colour of a package card's number, from its status code.

use vstd::prelude::*;
use crate::utils::text::{seq_starts_with, starts_with, str_eq};

verus! {

/// The colour for a status code: yellow when received, green when
/// delivered (`STATUT_LIVRER_…`), red when not delivered
/// (`STATUT_NONLIV_…`), normal otherwise and without a code.
pub open spec fn status_code_color(code: Option<Seq<char>>) -> Seq<char> {
    match code {
        Some(c) => if c == "STATUT_RECEPTIONNER"@ {
            "yellow"@
        } else if c == "STATUT_CHARGER"@ {
            "normal"@
        } else if seq_starts_with(c, "STATUT_LIVRER_"@) {
            "green"@
        } else if seq_starts_with(c, "STATUT_NONLIV_"@) {
            "red"@
        } else {
            "normal"@
        },
        None => "normal"@,
    }
}

/// The colour of a card's number for its status code.
pub fn get_package_status_color(code_statut_article: &Option<String>) -> (r: &'static str)
    ensures
        r@ == status_code_color(match code_statut_article {
            Some(s) => Some(s@),
            None => None,
        }),
{
    match code_statut_article {
        Some(c) => {
            let c = c.as_str();
            if str_eq(c, "STATUT_RECEPTIONNER") {
                "yellow"
            } else if str_eq(c, "STATUT_CHARGER") {
                "normal"
            } else if starts_with(c, "STATUT_LIVRER_") {
                "green"
            } else if starts_with(c, "STATUT_NONLIV_") {
                "red"
            } else {
                "normal"
            }
        },
        None => "normal",
    }
}

/// A status code's colour: yellow when received, normal when loaded, green
/// for any delivered code (`STATUT_LIVRER_…`), red for any failed one
/// (`STATUT_NONLIV_…`), normal for any other code and without one.
pub proof fn law_status_code_colors(code: Seq<char>)
    ensures
        status_code_color(None) == "normal"@,
        code == "STATUT_RECEPTIONNER"@ ==> status_code_color(Some(code)) == "yellow"@,
        code == "STATUT_CHARGER"@ ==> status_code_color(Some(code)) == "normal"@,
        (code != "STATUT_RECEPTIONNER"@ && code != "STATUT_CHARGER"@ && seq_starts_with(code, "STATUT_LIVRER_"@))
            ==> status_code_color(Some(code)) == "green"@,
        (code != "STATUT_RECEPTIONNER"@ && code != "STATUT_CHARGER"@ && !seq_starts_with(code, "STATUT_LIVRER_"@)
            && seq_starts_with(code, "STATUT_NONLIV_"@)) ==> status_code_color(Some(code)) == "red"@,
        (code != "STATUT_RECEPTIONNER"@ && code != "STATUT_CHARGER"@ && !seq_starts_with(code, "STATUT_LIVRER_"@)
            && !seq_starts_with(code, "STATUT_NONLIV_"@)) ==> status_code_color(Some(code)) == "normal"@,
{
    reveal_strlit("STATUT_CHARGER");
    reveal_strlit("STATUT_RECEPTIONNER");
    assert("STATUT_CHARGER"@.len() != "STATUT_RECEPTIONNER"@.len());
}

} // verus!
