//! The decisions of a package's detail sheet when the driver types a new
//! address: an empty entry marks the package problematic, any other is
//! sent to the geocoder.

use vstd::prelude::*;
use crate::utils::i18n::is_ascii_text;

verus! {

/// The text `str::trim` gives of `s`.
pub uninterp spec fn trimmed(s: Seq<char>) -> Seq<char>;

/// An ASCII character of Unicode's `White_Space` property: space, tab,
/// line feed, vertical tab, form feed or carriage return.
pub open spec fn is_ascii_white(c: char) -> bool {
    c == ' ' || ('\t' <= c && c <= '\r')
}

/// `s` without its leading and trailing ASCII white space.
pub open spec fn ascii_trimmed(s: Seq<char>) -> Seq<char>
    decreases s.len(),
{
    if s.len() == 0 {
        s
    } else if is_ascii_white(s[0]) {
        ascii_trimmed(s.drop_first())
    } else if is_ascii_white(s.last()) {
        ascii_trimmed(s.drop_last())
    } else {
        s
    }
}

/// Calls `str::trim`: `s` without its leading and trailing white space (as
/// Unicode's `White_Space` property defines it). The result is named, not
/// stated, except on ASCII text, where the white space is exactly space,
/// tab, line feed, vertical tab, form feed and carriage return.
#[verifier::external_body]
fn trim(s: &str) -> (r: &str)
    ensures
        r@ == trimmed(s@),
        is_ascii_text(s@) ==> r@ == ascii_trimmed(s@),
{
    s.trim()
}

/// What a new address typed for a package asks for.
pub enum AddressEdit {
    /// The entry is blank: the package becomes problematic and leaves the
    /// map.
    MarkProblematic,
    /// The entry, trimmed, is sent to the geocoder.
    Geocode { address: String },
}

/// The step that the address typed for a package calls for: marking it
/// problematic when the entry is blank once trimmed, else geocoding the
/// trimmed entry.
pub fn address_edit(input: &str) -> (r: AddressEdit)
    ensures
        match r {
            AddressEdit::MarkProblematic => trimmed(input@).len() == 0,
            AddressEdit::Geocode { address } => trimmed(input@).len() > 0 && address@ == trimmed(input@),
        },
        is_ascii_text(input@) ==> trimmed(input@) == ascii_trimmed(input@),
{
    let t = trim(input);
    if t.is_empty() {
        AddressEdit::MarkProblematic
    } else {
        AddressEdit::Geocode { address: String::from_str(t) }
    }
}

/// The label a package keeps after a successful geocoding: the geocoder's
/// formatted address, else the address as typed.
pub fn geocoded_label(formatted: Option<String>, typed: String) -> (r: String)
    ensures
        r@ == match formatted {
            Some(f) => f@,
            None => typed@,
        },
{
    match formatted {
        Some(f) => f,
        None => typed,
    }
}

/// The alert shown when the geocoder refuses an address or cannot be
/// reached.
pub fn geocoding_error_message(message: &str) -> (r: String)
    ensures
        r@ == "❌ Error de geocodificación: "@ + message@,
{
    let mut out = String::from_str("❌ Error de geocodificación: ");
    out.append(message);
    out
}

} // verus!
