//! The style classes of a package card in the list.

use vstd::prelude::*;
use crate::models::session::DeliveryType;
use crate::utils::text::{contains, seq_contains};
use crate::views::packages::address_card::{delivery_type_class, get_delivery_type_color};

verus! {

/// The classes of a card: its delivery type, then whether it is
/// problematic and whether it is selected.
pub open spec fn card_classes_spec(delivery_type: DeliveryType, is_problematic: bool, is_selected: bool) -> Seq<char> {
    "package-card "@ + delivery_type_class(delivery_type)
        + (if is_problematic { " problematic"@ } else { Seq::<char>::empty() })
        + (if is_selected { " selected"@ } else { Seq::<char>::empty() })
}

/// The classes of a card.
pub fn card_classes(delivery_type: DeliveryType, is_problematic: bool, is_selected: bool) -> (r: String)
    ensures
        r@ == card_classes_spec(delivery_type, is_problematic, is_selected),
{
    let mut classes = String::from_str("package-card ");
    classes.append(get_delivery_type_color(&delivery_type));
    if is_problematic {
        classes.append(" problematic");
    }
    if is_selected {
        classes.append(" selected");
    }
    classes
}

/// The colour class of a package number: yellow when its status mentions
/// `RECEPTIONNER`, else green for `LIVRER`, else red for `NONLIV`, else
/// normal.
pub open spec fn number_color_spec(status: Seq<char>) -> Seq<char> {
    if seq_contains(status, "RECEPTIONNER"@) {
        "package-number-yellow"@
    } else if seq_contains(status, "LIVRER"@) {
        "package-number-green"@
    } else if seq_contains(status, "NONLIV"@) {
        "package-number-red"@
    } else {
        "package-number-normal"@
    }
}

/// The colour class of a package number for its status.
pub fn number_color_class(status: &str) -> (r: &'static str)
    ensures
        r@ == number_color_spec(status@),
{
    if contains(status, "RECEPTIONNER") {
        "package-number-yellow"
    } else if contains(status, "LIVRER") {
        "package-number-green"
    } else if contains(status, "NONLIV") {
        "package-number-red"
    } else {
        "package-number-normal"
    }
}

/// A card's classes: `package-card`, its delivery type's class, then
/// ` problematic` when it is problematic and ` selected` when it is
/// selected.
pub proof fn law_card_classes(delivery_type: DeliveryType, is_problematic: bool, is_selected: bool)
    ensures
        card_classes_spec(delivery_type, is_problematic, is_selected) == "package-card "@ + match delivery_type {
            DeliveryType::Home => "type-domicile"@,
            DeliveryType::Rcs => "type-rcs"@,
            DeliveryType::PickupPoint => "type-relais"@,
        } + (if is_problematic { " problematic"@ } else { Seq::<char>::empty() })
            + (if is_selected { " selected"@ } else { Seq::<char>::empty() }),
{
}

/// A package number's colour: yellow when its status mentions
/// `RECEPTIONNER`, else green when it mentions `LIVRER`, else red when it
/// mentions `NONLIV`, else normal.
pub proof fn law_number_colors(status: Seq<char>)
    ensures
        seq_contains(status, "RECEPTIONNER"@) ==> number_color_spec(status) == "package-number-yellow"@,
        !seq_contains(status, "RECEPTIONNER"@) && seq_contains(status, "LIVRER"@)
            ==> number_color_spec(status) == "package-number-green"@,
        !seq_contains(status, "RECEPTIONNER"@) && !seq_contains(status, "LIVRER"@) && seq_contains(status, "NONLIV"@)
            ==> number_color_spec(status) == "package-number-red"@,
        !seq_contains(status, "RECEPTIONNER"@) && !seq_contains(status, "LIVRER"@) && !seq_contains(status, "NONLIV"@)
            ==> number_color_spec(status) == "package-number-normal"@,
{
}

} // verus!
