//! The company registration form: which entries it accepts.

use vstd::prelude::*;
use vstd::utf8::encode_utf8;
use crate::utils::i18n::is_ascii_text;

verus! {

/// What a registration sends.
pub struct RegisterData {
    pub company_name: String,
    pub company_address: String,
    pub company_siret: String,
    pub admin_full_name: String,
    pub admin_email: String,
    pub admin_password: String,
}

/// Whether `char::is_numeric` holds of `c` (Unicode's numeric categories).
pub uninterp spec fn numeric_char(c: char) -> bool;

/// An ASCII decimal digit.
pub open spec fn ascii_digit(c: char) -> bool {
    '0' <= c && c <= '9'
}

/// Calls `char::is_numeric`. The Unicode tables are named, not stated,
/// except for ASCII characters: of those only the digits `0`..`9` are
/// numeric (Unicode's number categories hold no other ASCII character).
#[verifier::external_body]
fn is_numeric(c: char) -> (r: bool)
    ensures
        r == numeric_char(c),
        c <= '\u{7f}' ==> (r == ascii_digit(c)),
{
    c.is_numeric()
}

/// A company registration number: empty, or fourteen bytes of numeric
/// characters.
pub open spec fn siret_ok(siret: Seq<char>) -> bool {
    siret.len() == 0 || (encode_utf8(siret).len() as usize == 14 && forall|i: int| 0 <= i < siret.len() ==> numeric_char(#[trigger] siret[i]))
}

/// A registration number of ASCII text: empty, or fourteen digits.
pub open spec fn ascii_siret_ok(siret: Seq<char>) -> bool {
    siret.len() == 0 || (siret.len() as usize == 14 && forall|i: int| 0 <= i < siret.len() ==> ascii_digit(#[trigger] siret[i]))
}

/// Why a registration is refused, if it is: a required entry left empty
/// (all but the registration number), passwords that differ, an e-mail
/// without '@', a registration number that is not fourteen numeric bytes.
pub open spec fn registration_error(
    company_name: Seq<char>,
    company_address: Seq<char>,
    company_siret: Seq<char>,
    admin_full_name: Seq<char>,
    admin_email: Seq<char>,
    admin_password: Seq<char>,
    admin_password_confirm: Seq<char>,
) -> Option<Seq<char>> {
    if company_name.len() == 0 || company_address.len() == 0 || admin_full_name.len() == 0
        || admin_email.len() == 0 || admin_password.len() == 0 {
        Some("Por favor, completa todos los campos obligatorios"@)
    } else if admin_password != admin_password_confirm {
        Some("Las contraseñas no coinciden"@)
    } else if !admin_email.contains('@') {
        Some("Email inválido"@)
    } else if !siret_ok(company_siret) {
        Some("SIRET debe tener 14 dígitos"@)
    } else {
        None
    }
}

/// Whether every character of `s` is numeric. Every character is looked
/// at, so that on ASCII text the answer is whether all are digits.
fn all_numeric(s: &str) -> (r: bool)
    ensures
        r == forall|i: int| 0 <= i < s@.len() ==> numeric_char(#[trigger] s@[i]),
        is_ascii_text(s@) ==> forall|i: int| 0 <= i < s@.len() ==> (numeric_char(#[trigger] s@[i]) == ascii_digit(s@[i])),
{
    let n = s.unicode_len();
    let mut all = true;
    let mut i: usize = 0;
    while i < n
        invariant
            i <= n,
            n == s@.len(),
            all == forall|j: int| 0 <= j < i ==> numeric_char(#[trigger] s@[j]),
            is_ascii_text(s@) ==> forall|j: int| 0 <= j < i ==> (numeric_char(#[trigger] s@[j]) == ascii_digit(s@[j])),
        decreases n - i,
    {
        let c = s.get_char(i);
        let d = is_numeric(c);
        proof {
            if is_ascii_text(s@) {
                assert(s@[i as int] <= '\u{7f}');
            }
        }
        all = all && d;
        i += 1;
    }
    all
}

/// Whether `siret` is an acceptable registration number: empty, or
/// fourteen bytes of numeric characters.
fn siret_valid(siret: &str) -> (r: bool)
    ensures
        r == siret_ok(siret@),
        is_ascii_text(siret@) ==> siret_ok(siret@) == ascii_siret_ok(siret@),
{
    let numeric = all_numeric(siret);
    proof {
        if is_ascii_text(siret@) {
            vstd::utf8::is_ascii_chars_encode_utf8(siret@);
            assert((forall|i: int| 0 <= i < siret@.len() ==> numeric_char(#[trigger] siret@[i]))
                == (forall|i: int| 0 <= i < siret@.len() ==> ascii_digit(#[trigger] siret@[i]))) by {
                if forall|i: int| 0 <= i < siret@.len() ==> numeric_char(#[trigger] siret@[i]) {
                    assert forall|i: int| 0 <= i < siret@.len() implies ascii_digit(#[trigger] siret@[i]) by {
                        assert(numeric_char(siret@[i]));
                    }
                }
                if forall|i: int| 0 <= i < siret@.len() ==> ascii_digit(#[trigger] siret@[i]) {
                    assert forall|i: int| 0 <= i < siret@.len() implies numeric_char(#[trigger] siret@[i]) by {
                        assert(ascii_digit(siret@[i]));
                    }
                }
            }
        }
    }
    siret.is_empty() || (siret.len() == 14 && numeric)
}

/// Whether `s` holds the character `c`.
fn has_char(s: &str, c: char) -> (r: bool)
    ensures
        r == s@.contains(c),
{
    let n = s.unicode_len();
    let mut i: usize = 0;
    while i < n
        invariant
            i <= n,
            n == s@.len(),
            forall|j: int| 0 <= j < i ==> s@[j] != c,
        decreases n - i,
    {
        if s.get_char(i) == c {
            assert(s@[i as int] == c);
            return true;
        }
        i += 1;
    }
    false
}

/// The registration the form sends, or why it is refused.
pub fn validate_registration(
    company_name: String,
    company_address: String,
    company_siret: String,
    admin_full_name: String,
    admin_email: String,
    admin_password: String,
    admin_password_confirm: String,
) -> (r: Result<RegisterData, String>)
    ensures
        match registration_error(company_name@, company_address@, company_siret@, admin_full_name@,
            admin_email@, admin_password@, admin_password_confirm@) {
            Some(m) => r matches Err(e) && e@ == m,
            None => r matches Ok(d) && d.company_name == company_name && d.company_address == company_address
                && d.company_siret == company_siret && d.admin_full_name == admin_full_name
                && d.admin_email == admin_email && d.admin_password == admin_password,
        },
        is_ascii_text(company_siret@) ==> siret_ok(company_siret@) == ascii_siret_ok(company_siret@),
{
    let siret_accepted = siret_valid(company_siret.as_str());
    if company_name.as_str().is_empty() || company_address.as_str().is_empty() || admin_full_name.as_str().is_empty()
        || admin_email.as_str().is_empty() || admin_password.as_str().is_empty() {
        return Err(String::from_str("Por favor, completa todos los campos obligatorios"));
    }
    if !crate::utils::text::str_eq(admin_password.as_str(), admin_password_confirm.as_str()) {
        return Err(String::from_str("Las contraseñas no coinciden"));
    }
    if !has_char(admin_email.as_str(), '@') {
        return Err(String::from_str("Email inválido"));
    }
    if !siret_accepted {
        return Err(String::from_str("SIRET debe tener 14 dígitos"));
    }
    Ok(RegisterData { company_name, company_address, company_siret, admin_full_name, admin_email, admin_password })
}

/// A registration is refused, in this order of checks: for an empty
/// required entry (any but the registration number), for passwords that
/// differ, for an e-mail without '@', for a registration number that is
/// neither empty nor fourteen bytes of numeric characters; else accepted.
pub proof fn law_registration_checks(
    name: Seq<char>, address: Seq<char>, siret: Seq<char>, full_name: Seq<char>,
    email: Seq<char>, password: Seq<char>, confirm: Seq<char>,
)
    ensures
        ({
            let r = registration_error(name, address, siret, full_name, email, password, confirm);
            let empty = name.len() == 0 || address.len() == 0 || full_name.len() == 0 || email.len() == 0 || password.len() == 0;
            &&& empty ==> r == Some("Por favor, completa todos los campos obligatorios"@)
            &&& (!empty && password != confirm) ==> r == Some("Las contraseñas no coinciden"@)
            &&& (!empty && password == confirm && !email.contains('@')) ==> r == Some("Email inválido"@)
            &&& (!empty && password == confirm && email.contains('@')) ==> (
                r is None <==> (siret.len() == 0 || (encode_utf8(siret).len() as usize == 14
                    && forall|i: int| 0 <= i < siret.len() ==> numeric_char(#[trigger] siret[i]))))
            &&& (!empty && password == confirm && email.contains('@') && r is Some) ==> r == Some("SIRET debe tener 14 dígitos"@)
        }),
{
}

} // verus!
