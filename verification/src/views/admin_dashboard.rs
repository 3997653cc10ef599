//! Decisions of the administrator's dashboard: how a delivery date is
//! shown, which confirmed status requests are listed under which date, the
//! CSV export of those requests, and the progress figures of the day.

use vstd::prelude::*;
use vstd::utf8::*;
use vstd::string::StringSliceAdditionalSpecFns;
use crate::models::admin::{AdminDistrict, AdminTournee, StatusChangeRequest};
use crate::models::session::DeliverySession;
use crate::views::bottom_sheet::{ProgressFigures, failed_entry, percent, progress_figures, treated_address};
use crate::utils::i18n::{to_uppercase, uppercase_of};
use crate::utils::text::{decimal, decimal_string, str_eq};

verus! {

/// The bytes of a text start with a date written "YYYY-MM-DD": at least
/// ten bytes, with '-' as the fifth and the eighth.
pub open spec fn has_date_shape(b: Seq<u8>) -> bool {
    b.len() >= 10 && b[4] == 45u8 && b[7] == 45u8
}

/// A date "YYYY-MM-DD…" shown as "DD/MM/YYYY" (from its first ten bytes);
/// any other text as it is.
pub open spec fn preview_date(s: Seq<char>) -> Seq<char> {
    let b = encode_utf8(s);
    if has_date_shape(b) {
        decode_utf8(b.subrange(8, 10)) + "/"@ + decode_utf8(b.subrange(5, 7)) + "/"@ + decode_utf8(b.subrange(0, 4))
    } else {
        s
    }
}

/// In valid UTF-8 that starts with an ASCII byte, the next byte starts a
/// character.
proof fn lemma_boundary_after_ascii(bytes: Seq<u8>)
    requires
        valid_utf8(bytes),
        bytes.len() >= 1,
        bytes[0] < 128,
    ensures
        is_char_boundary(bytes, 1),
{
    reveal_with_fuel(is_char_boundary, 2);
    assert(length_of_first_scalar(bytes) == 1);
    assert(is_char_boundary(pop_first_scalar(bytes), 0));
}

/// The characters of a text are the decoding of its bytes.
proof fn lemma_chars_of_bytes(s: &str)
    ensures
        valid_utf8(s.spec_bytes()),
        s@ == decode_utf8(s.spec_bytes()),
{
    encode_utf8_valid_utf8(s@);
    encode_utf8_decode_utf8(s@);
}

/// A delivery date for the dashboard: "YYYY-MM-DD…" becomes "DD/MM/YYYY";
/// any other text is kept.
pub fn format_preview_date(s: &str) -> (r: String)
    requires
        has_date_shape(s.spec_bytes()) ==> is_char_boundary(s.spec_bytes(), 10),
    ensures
        r@ == preview_date(s@),
{
    let bytes = s.as_bytes();
    if bytes.len() >= 10 && bytes[4] == 45u8 && bytes[7] == 45u8 {
        let ghost b = s.spec_bytes();
        proof {
            lemma_chars_of_bytes(s);
        }
        let (head, _tail) = s.split_at(10);
        proof {
            lemma_chars_of_bytes(head);
            assert(head.spec_bytes()[4] == 45u8);
            is_char_boundary_iff_is_leading_byte(head.spec_bytes(), 4);
        }
        let (y, rest) = head.split_at(4);
        proof {
            lemma_chars_of_bytes(rest);
            lemma_chars_of_bytes(y);
            assert(rest.spec_bytes()[0] == 45u8);
            lemma_boundary_after_ascii(rest.spec_bytes());
        }
        let (_dash1, rest2) = rest.split_at(1);
        proof {
            lemma_chars_of_bytes(rest2);
            assert(rest2.spec_bytes() =~= b.subrange(5, 10));
            assert(rest2.spec_bytes()[2] == 45u8);
            is_char_boundary_iff_is_leading_byte(rest2.spec_bytes(), 2);
        }
        let (m, rest3) = rest2.split_at(2);
        proof {
            lemma_chars_of_bytes(rest3);
            lemma_chars_of_bytes(m);
            assert(rest3.spec_bytes()[0] == 45u8);
            lemma_boundary_after_ascii(rest3.spec_bytes());
        }
        let (_dash2, d) = rest3.split_at(1);
        proof {
            lemma_chars_of_bytes(d);
            assert(d.spec_bytes() =~= b.subrange(8, 10));
            assert(m.spec_bytes() =~= b.subrange(5, 7));
            assert(y.spec_bytes() =~= b.subrange(0, 4));
        }
        let mut out = String::from_str(d);
        out.append("/");
        out.append(m);
        out.append("/");
        out.append(y);
        out
    } else {
        String::from_str(s)
    }
}

/// The order of texts that `String`'s `Ord` gives: byte-wise on UTF-8,
/// which is lexicographic by code point.
pub open spec fn text_less(a: Seq<char>, b: Seq<char>) -> bool
    decreases a.len(),
{
    if a.len() == 0 {
        b.len() > 0
    } else if b.len() == 0 {
        false
    } else if a[0] != b[0] {
        (a[0] as u32) < (b[0] as u32)
    } else {
        text_less(a.drop_first(), b.drop_first())
    }
}

/// No text comes before itself.
pub proof fn lemma_text_less_irreflexive(a: Seq<char>)
    ensures
        !text_less(a, a),
    decreases a.len(),
{
    if a.len() > 0 {
        lemma_text_less_irreflexive(a.drop_first());
    }
}

/// The order is transitive.
pub proof fn lemma_text_less_transitive(a: Seq<char>, b: Seq<char>, c: Seq<char>)
    requires
        text_less(a, b),
        text_less(b, c),
    ensures
        text_less(a, c),
    decreases a.len(),
{
    if a.len() > 0 && b.len() > 0 && c.len() > 0 && a[0] == b[0] && b[0] == c[0] {
        lemma_text_less_transitive(a.drop_first(), b.drop_first(), c.drop_first());
    }
}

/// Of two different texts, one comes first.
pub proof fn lemma_text_less_total(a: Seq<char>, b: Seq<char>)
    requires
        a != b,
    ensures
        text_less(a, b) || text_less(b, a),
    decreases a.len(),
{
    if a.len() > 0 && b.len() > 0 && a[0] == b[0] {
        if a.drop_first() == b.drop_first() {
            assert(a =~= seq![a[0]] + a.drop_first());
            assert(b =~= seq![b[0]] + b.drop_first());
        }
        lemma_text_less_total(a.drop_first(), b.drop_first());
    } else if a.len() > 0 && b.len() > 0 {
        char_u32_cast(a[0], a[0] as u32);
        char_u32_cast(b[0], b[0] as u32);
    } else if a.len() == 0 && b.len() == 0 {
        assert(a =~= b);
    }
}

/// Whether `a` comes before `b`.
pub fn str_less(a: &str, b: &str) -> (r: bool)
    ensures
        r == text_less(a@, b@),
{
    let n = a.unicode_len();
    let m = b.unicode_len();
    let mut i: usize = 0;
    assert(a@.skip(0) =~= a@);
    assert(b@.skip(0) =~= b@);
    while i < n && i < m
        invariant
            i <= n,
            i <= m,
            n == a@.len(),
            m == b@.len(),
            text_less(a@, b@) == text_less(a@.skip(i as int), b@.skip(i as int)),
        decreases n - i,
    {
        let ca = a.get_char(i);
        let cb = b.get_char(i);
        proof {
            assert(a@.skip(i as int)[0] == ca);
            assert(b@.skip(i as int)[0] == cb);
            assert(a@.skip(i as int).drop_first() =~= a@.skip(i as int + 1));
            assert(b@.skip(i as int).drop_first() =~= b@.skip(i as int + 1));
        }
        if ca != cb {
            return (ca as u32) < (cb as u32);
        }
        i += 1;
    }
    i < m && i == n
}

/// The request has been confirmed.
pub open spec fn is_confirmed(r: StatusChangeRequest) -> bool {
    r.status@ == "confirmed"@
}

/// Positions of the confirmed requests of date `date`, in order.
pub open spec fn confirmed_indices(reqs: Seq<StatusChangeRequest>, date: Seq<char>) -> Seq<usize>
    decreases reqs.len(),
{
    if reqs.len() == 0 {
        seq![]
    } else {
        let rest = confirmed_indices(reqs.drop_last(), date);
        let last = reqs.last();
        if is_confirmed(last) && last.delivery_date@ == date {
            rest.push((reqs.len() - 1) as usize)
        } else {
            rest
        }
    }
}

/// `g` lists the dates of the confirmed requests, each once, in increasing
/// order, each with the positions of its confirmed requests.
pub open spec fn is_date_grouping(reqs: Seq<StatusChangeRequest>, g: Seq<(Seq<char>, Seq<usize>)>) -> bool {
    &&& forall|i: int, j: int| 0 <= i < j < g.len() ==> text_less(g[i].0, g[j].0)
    &&& forall|i: int| 0 <= i < g.len() ==> (#[trigger] g[i]).1 == confirmed_indices(reqs, g[i].0) && g[i].1.len() > 0
    &&& forall|k: int| 0 <= k < reqs.len() && is_confirmed(#[trigger] reqs[k])
        ==> exists|i: int| 0 <= i < g.len() && (#[trigger] g[i]).0 == reqs[k].delivery_date@
}

/// The characters of dates with their positions.
pub open spec fn grouping_view(g: Seq<(String, Vec<usize>)>) -> Seq<(Seq<char>, Seq<usize>)> {
    g.map_values(|e: (String, Vec<usize>)| (e.0@, e.1@))
}

/// A confirmed request of date `date` makes its positions non-empty.
proof fn lemma_confirmed_indices_nonempty(reqs: Seq<StatusChangeRequest>, date: Seq<char>, k: int)
    requires
        0 <= k < reqs.len(),
        is_confirmed(reqs[k]),
        reqs[k].delivery_date@ == date,
    ensures
        confirmed_indices(reqs, date).len() > 0,
    decreases reqs.len(),
{
    if k < reqs.len() - 1 {
        lemma_confirmed_indices_nonempty(reqs.drop_last(), date, k);
    }
}

/// Among the first `bound` requests, one is confirmed with date `date`.
pub open spec fn has_confirmed_request(reqs: Seq<StatusChangeRequest>, date: Seq<char>, bound: int) -> bool {
    exists|m: int| 0 <= m < bound && m < reqs.len() && is_confirmed(#[trigger] reqs[m]) && reqs[m].delivery_date@ == date
}

/// Positions of the confirmed requests of date `date`.
fn indices_of_date(requests: &Vec<StatusChangeRequest>, date: &str) -> (r: Vec<usize>)
    ensures
        r@ == confirmed_indices(requests@, date@),
{
    let mut out: Vec<usize> = Vec::new();
    let mut k: usize = 0;
    while k < requests.len()
        invariant
            k <= requests@.len(),
            out@ == confirmed_indices(requests@.subrange(0, k as int), date@),
        decreases requests@.len() - k,
    {
        proof {
            assert(requests@.subrange(0, k as int + 1).drop_last() =~= requests@.subrange(0, k as int));
        }
        let r = &requests[k];
        if str_eq(r.status.as_str(), "confirmed") && str_eq(r.delivery_date.as_str(), date) {
            out.push(k);
        }
        k += 1;
    }
    assert(requests@.subrange(0, requests@.len() as int) =~= requests@);
    out
}

/// The dates of the confirmed requests, each once, in increasing order.
fn confirmed_dates(requests: &Vec<StatusChangeRequest>) -> (dates: Vec<String>)
    ensures
        forall|i: int, j: int| 0 <= i < j < dates@.len() ==> text_less(dates@[i]@, dates@[j]@),
        forall|i: int| 0 <= i < dates@.len() ==> has_confirmed_request(requests@, (#[trigger] dates@[i])@, requests@.len() as int),
        forall|m: int| 0 <= m < requests@.len() && is_confirmed(#[trigger] requests@[m])
            ==> exists|i: int| 0 <= i < dates@.len() && dates@[i]@ == requests@[m].delivery_date@,
{
    let mut dates: Vec<String> = Vec::new();
    let mut k: usize = 0;
    while k < requests.len()
        invariant
            k <= requests@.len(),
            forall|i: int, j: int| 0 <= i < j < dates@.len() ==> text_less(dates@[i]@, dates@[j]@),
            forall|i: int| 0 <= i < dates@.len() ==> has_confirmed_request(requests@, (#[trigger] dates@[i])@, k as int),
            forall|m: int| 0 <= m < k && is_confirmed(#[trigger] requests@[m])
                ==> exists|i: int| 0 <= i < dates@.len() && dates@[i]@ == requests@[m].delivery_date@,
        decreases requests@.len() - k,
    {
        let r = &requests[k];
        if str_eq(r.status.as_str(), "confirmed") {
            let d = r.delivery_date.as_str();
            let mut p: usize = 0;
            while p < dates.len() && str_less(dates[p].as_str(), d)
                invariant
                    p <= dates@.len(),
                    forall|i: int| 0 <= i < p ==> text_less(dates@[i]@, d@),
                decreases dates@.len() - p,
            {
                p += 1;
            }
            let present = p < dates.len() && str_eq(dates[p].as_str(), d);
            if !present {
                let ghost old_dates = dates@;
                proof {
                    if p < old_dates.len() {
                        lemma_text_less_total(old_dates[p as int]@, d@);
                        assert(text_less(d@, old_dates[p as int]@));
                    }
                }
                dates.insert(p, String::from_str(d));
                proof {
                    assert forall|i: int, j: int| 0 <= i < j < dates@.len() implies text_less(dates@[i]@, dates@[j]@) by {
                        if j < p {
                            assert(dates@[i] == old_dates[i] && dates@[j] == old_dates[j]);
                        } else if j == p {
                            assert(dates@[i] == old_dates[i]);
                        } else if i == p {
                            assert(dates@[j] == old_dates[j - 1]);
                            if j - 1 > p {
                                lemma_text_less_transitive(d@, old_dates[p as int]@, old_dates[j - 1]@);
                            }
                        } else if i < p {
                            assert(dates@[i] == old_dates[i] && dates@[j] == old_dates[j - 1]);
                        } else {
                            assert(dates@[i] == old_dates[i - 1] && dates@[j] == old_dates[j - 1]);
                        }
                    }
                    assert forall|i: int| 0 <= i < dates@.len() implies has_confirmed_request(requests@, (#[trigger] dates@[i])@, k + 1) by {
                        if i < p {
                            assert(dates@[i] == old_dates[i]);
                            let m0 = choose|m0: int| 0 <= m0 < k && m0 < requests@.len()
                                && is_confirmed(#[trigger] requests@[m0]) && requests@[m0].delivery_date@ == old_dates[i]@;
                            assert(is_confirmed(requests@[m0]) && requests@[m0].delivery_date@ == dates@[i]@);
                        } else if i == p {
                            assert(is_confirmed(requests@[k as int]));
                            assert(requests@[k as int].delivery_date@ == dates@[i]@);
                        } else {
                            assert(dates@[i] == old_dates[i - 1]);
                            let m0 = choose|m0: int| 0 <= m0 < k && m0 < requests@.len()
                                && is_confirmed(#[trigger] requests@[m0]) && requests@[m0].delivery_date@ == old_dates[i - 1]@;
                            assert(is_confirmed(requests@[m0]) && requests@[m0].delivery_date@ == dates@[i]@);
                        }
                    }
                    assert forall|m: int| 0 <= m < k + 1 && is_confirmed(#[trigger] requests@[m])
                        implies exists|i: int| 0 <= i < dates@.len() && dates@[i]@ == requests@[m].delivery_date@ by {
                        if m == k {
                            assert(dates@[p as int]@ == d@);
                        } else {
                            let i0 = choose|i0: int| 0 <= i0 < old_dates.len() && old_dates[i0]@ == requests@[m].delivery_date@;
                            if i0 < p {
                                assert(dates@[i0] == old_dates[i0]);
                            } else {
                                assert(dates@[i0 + 1] == old_dates[i0]);
                            }
                        }
                    }
                }
            } else {
                proof {
                    assert forall|i: int| 0 <= i < dates@.len() implies has_confirmed_request(requests@, (#[trigger] dates@[i])@, k + 1) by {
                        let m0 = choose|m0: int| 0 <= m0 < k && m0 < requests@.len()
                            && is_confirmed(#[trigger] requests@[m0]) && requests@[m0].delivery_date@ == dates@[i]@;
                        assert(is_confirmed(requests@[m0]) && requests@[m0].delivery_date@ == dates@[i]@);
                    }
                }
                proof {
                    assert forall|m: int| 0 <= m < k + 1 && is_confirmed(#[trigger] requests@[m])
                        implies exists|i: int| 0 <= i < dates@.len() && dates@[i]@ == requests@[m].delivery_date@ by {
                        if m == k {
                            assert(dates@[p as int]@ == d@);
                        }
                    }
                }
            }
        } else {
            proof {
                assert forall|i: int| 0 <= i < dates@.len() implies has_confirmed_request(requests@, (#[trigger] dates@[i])@, k + 1) by {
                    let m0 = choose|m0: int| 0 <= m0 < k && m0 < requests@.len()
                        && is_confirmed(#[trigger] requests@[m0]) && requests@[m0].delivery_date@ == dates@[i]@;
                    assert(is_confirmed(requests@[m0]) && requests@[m0].delivery_date@ == dates@[i]@);
                }
            }
            proof {
                assert forall|m: int| 0 <= m < k + 1 && is_confirmed(#[trigger] requests@[m])
                    implies exists|i: int| 0 <= i < dates@.len() && dates@[i]@ == requests@[m].delivery_date@ by {
                    if m == k {
                        assert(!is_confirmed(requests@[k as int]));
                    }
                }
            }
        }
        k += 1;
    }
    dates
}

/// The confirmed requests grouped by delivery date: the dates in
/// increasing order, each with the positions of its requests in order.
pub fn confirmed_by_date(requests: &Vec<StatusChangeRequest>) -> (r: Vec<(String, Vec<usize>)>)
    ensures
        is_date_grouping(requests@, grouping_view(r@)),
{
    let dates = confirmed_dates(requests);
    let mut out: Vec<(String, Vec<usize>)> = Vec::new();
    let mut i: usize = 0;
    while i < dates.len()
        invariant
            i <= dates@.len(),
            out@.len() == i,
            forall|a: int| 0 <= a < i ==> (#[trigger] out@[a]).0@ == dates@[a]@
                && out@[a].1@ == confirmed_indices(requests@, dates@[a]@),
        decreases dates@.len() - i,
    {
        let idx = indices_of_date(requests, dates[i].as_str());
        out.push((dates[i].clone(), idx));
        i += 1;
    }
    proof {
        let g = grouping_view(out@);
        assert forall|a: int| 0 <= a < g.len() implies (#[trigger] g[a]).1 == confirmed_indices(requests@, g[a].0) && g[a].1.len() > 0 by {
            assert(has_confirmed_request(requests@, dates@[a]@, requests@.len() as int));
            let m = choose|m: int| 0 <= m < requests@.len() && m < requests@.len()
                && is_confirmed(#[trigger] requests@[m]) && requests@[m].delivery_date@ == dates@[a]@;
            lemma_confirmed_indices_nonempty(requests@, dates@[a]@, m);
        }
        assert forall|k: int| 0 <= k < requests@.len() && is_confirmed(#[trigger] requests@[k])
            implies exists|a: int| 0 <= a < g.len() && (#[trigger] g[a]).0 == requests@[k].delivery_date@ by {
            let a = choose|a: int| 0 <= a < dates@.len() && dates@[a]@ == requests@[k].delivery_date@;
            assert(g[a].0 == dates@[a]@);
        }
    }
    out
}

/// Every position listed for a date is that of a confirmed request of that
/// date, and the positions increase.
proof fn lemma_confirmed_indices_members(reqs: Seq<StatusChangeRequest>, date: Seq<char>)
    requires
        reqs.len() <= usize::MAX,
    ensures
        forall|x: int| 0 <= x < confirmed_indices(reqs, date).len() ==> {
            let k = #[trigger] confirmed_indices(reqs, date)[x];
            &&& k < reqs.len()
            &&& is_confirmed(reqs[k as int])
            &&& reqs[k as int].delivery_date@ == date
        },
    decreases reqs.len(),
{
    if reqs.len() > 0 {
        lemma_confirmed_indices_members(reqs.drop_last(), date);
        let rest = confirmed_indices(reqs.drop_last(), date);
        let full = confirmed_indices(reqs, date);
        assert forall|x: int| 0 <= x < full.len() implies {
            let k = #[trigger] full[x];
            &&& k < reqs.len()
            &&& is_confirmed(reqs[k as int])
            &&& reqs[k as int].delivery_date@ == date
        } by {
            let last = reqs.last();
            if is_confirmed(last) && last.delivery_date@ == date {
                assert(full == rest.push((reqs.len() - 1) as usize));
            } else {
                assert(full == rest);
            }
            if x < rest.len() {
                assert(full[x] == rest[x]);
                let k = rest[x];
                assert(k < reqs.drop_last().len());
                assert(reqs.drop_last()[k as int] == reqs[k as int]);
            } else {
                assert(full[x] == (reqs.len() - 1) as usize);
                assert(reqs[reqs.len() - 1] == last);
            }

        }
    }
}

/// One line of the export: the package code in upper case, ";", the
/// request's note (empty without one).
pub open spec fn csv_line(r: StatusChangeRequest) -> Seq<char> {
    uppercase_of(r.tracking_code@) + ";"@ + (match r.notes {
        Some(n) => n@,
        None => Seq::<char>::empty(),
    }) + "\n"@
}

/// The lines of the requests at `idxs`, in order.
pub open spec fn csv_lines(reqs: Seq<StatusChangeRequest>, idxs: Seq<usize>) -> Seq<char>
    decreases idxs.len(),
{
    if idxs.len() == 0 {
        Seq::empty()
    } else {
        csv_lines(reqs, idxs.drop_last()) + csv_line(reqs[idxs.last() as int])
    }
}

/// The block of one date: its heading, the column names, its lines and an
/// empty line.
pub open spec fn csv_block(reqs: Seq<StatusChangeRequest>, date: Seq<char>, idxs: Seq<usize>) -> Seq<char> {
    "Date: "@ + preview_date(date) + "\n"@ + "REF COLIS;TYPE DE LIVRAISON\n"@ + csv_lines(reqs, idxs) + "\n"@
}

/// The blocks of all dates, in order.
pub open spec fn csv_blocks(reqs: Seq<StatusChangeRequest>, g: Seq<(Seq<char>, Seq<usize>)>) -> Seq<char>
    decreases g.len(),
{
    if g.len() == 0 {
        Seq::empty()
    } else {
        csv_blocks(reqs, g.drop_last()) + csv_block(reqs, g.last().0, g.last().1)
    }
}

/// Every confirmed request's date can be shown: when it reads like a date,
/// its first ten bytes end on a character.
pub open spec fn dates_previewable(reqs: Seq<StatusChangeRequest>) -> bool {
    forall|k: int| 0 <= k < reqs.len() && is_confirmed(#[trigger] reqs[k]) ==> {
        let b = encode_utf8(reqs[k].delivery_date@);
        has_date_shape(b) ==> is_char_boundary(b, 10)
    }
}

/// The CSV export of the confirmed requests: a byte-order mark, then one
/// block per delivery date in increasing order; nothing when no request is
/// confirmed.
pub fn export_confirmed_csv(requests: &Vec<StatusChangeRequest>) -> (r: Option<String>)
    requires
        dates_previewable(requests@),
    ensures
        r.is_none() <==> forall|k: int| 0 <= k < requests@.len() ==> !is_confirmed(#[trigger] requests@[k]),
        r matches Some(text) ==> exists|g: Seq<(Seq<char>, Seq<usize>)>|
            is_date_grouping(requests@, g) && text@ == "\u{FEFF}"@ + csv_blocks(requests@, g),
{
    let n = requests.len();
    let groups = confirmed_by_date(requests);
    let ghost g = grouping_view(groups@);
    if groups.len() == 0 {
        proof {
            assert forall|k: int| 0 <= k < requests@.len() implies !is_confirmed(#[trigger] requests@[k]) by {
                if is_confirmed(requests@[k]) {
                    let a = choose|a: int| 0 <= a < g.len() && (#[trigger] g[a]).0 == requests@[k].delivery_date@;
                }
            }
        }
        return None;
    }
    proof {
        lemma_confirmed_indices_members(requests@, g[0].0);
        let k0 = g[0].1[0];
        assert(is_confirmed(requests@[k0 as int]));
    }
    let mut csv = String::from_str("\u{FEFF}");
    let ghost start = csv@;
    let mut gi: usize = 0;
    while gi < groups.len()
        invariant
            gi <= groups@.len(),
            g == grouping_view(groups@),
            is_date_grouping(requests@, g),
            dates_previewable(requests@),
            requests@.len() == n,
            start == "\u{FEFF}"@,
            csv@ == start + csv_blocks(requests@, g.subrange(0, gi as int)),
        decreases groups@.len() - gi,
    {
        let (date, idxs) = (&groups[gi].0, &groups[gi].1);
        let ghost before = csv@;
        proof {
            assert(g[gi as int] == (date@, idxs@));
            lemma_confirmed_indices_members(requests@, date@);
            let k0 = idxs@[0];
            assert(confirmed_indices(requests@, date@)[0] == k0);
            assert(is_confirmed(requests@[k0 as int]));
        }
        let label = format_preview_date(date.as_str());
        csv.append("Date: ");
        csv.append(label.as_str());
        csv.append("\n");
        csv.append("REF COLIS;TYPE DE LIVRAISON\n");
        let ghost head = csv@;
        let mut x: usize = 0;
        while x < idxs.len()
            invariant
                x <= idxs@.len(),
                idxs@ == confirmed_indices(requests@, date@),
                forall|y: int| 0 <= y < idxs@.len() ==> (#[trigger] idxs@[y]) < requests@.len(),
                csv@ == head + csv_lines(requests@, idxs@.subrange(0, x as int)),
            decreases idxs@.len() - x,
        {
            let k = idxs[x];
            let req = &requests[k];
            let upper = to_uppercase(req.tracking_code.as_str());
            csv.append(upper.as_str());
            csv.append(";");
            match &req.notes {
                Some(n) => csv.append(n.as_str()),
                None => {},
            }
            csv.append("\n");
            proof {
                assert(idxs@.subrange(0, x as int + 1).drop_last() =~= idxs@.subrange(0, x as int));
                assert(idxs@.subrange(0, x as int + 1).last() == k);
            }
            x += 1;
        }
        csv.append("\n");
        proof {
            assert(idxs@.subrange(0, idxs@.len() as int) =~= idxs@);
            assert(g.subrange(0, gi as int + 1).drop_last() =~= g.subrange(0, gi as int));
            assert(g.subrange(0, gi as int + 1).last() == g[gi as int]);
        }
        gi += 1;
    }
    proof {
        assert(g.subrange(0, g.len() as int) =~= g);
    }
    Some(csv)
}

/// Packages delivered on the given tours.
pub open spec fn tournees_delivered(ts: Seq<AdminTournee>) -> nat
    decreases ts.len(),
{
    if ts.len() == 0 {
        0
    } else {
        tournees_delivered(ts.drop_last()) + ts.last().delivered_count as nat
    }
}

/// Packages delivered in the given districts.
pub open spec fn districts_delivered(ds: Seq<AdminDistrict>) -> nat
    decreases ds.len(),
{
    if ds.len() == 0 {
        0
    } else {
        districts_delivered(ds.drop_last()) + tournees_delivered(ds.last().tournees@)
    }
}

/// Number of tours in the given districts.
pub open spec fn districts_tournees(ds: Seq<AdminDistrict>) -> nat
    decreases ds.len(),
{
    if ds.len() == 0 {
        0
    } else {
        districts_tournees(ds.drop_last()) + ds.last().tournees@.len()
    }
}

/// The day's progress on the dashboard. Delivered packages are summed over
/// all tours; failed packages and treated stops come from the tour whose
/// session is open, if any; without one, the stops are approximated by the
/// number of tours, all counted as treated.
pub fn admin_progress_figures(total_packages: usize, districts: &Vec<AdminDistrict>, selected: &Option<DeliverySession>) -> (r: ProgressFigures)
    requires
        districts_delivered(districts@) <= usize::MAX,
        total_packages > 0 ==> districts_delivered(districts@) * 100 <= usize::MAX,
        selected is None ==> districts_tournees(districts@) <= usize::MAX,
        selected matches Some(s) ==> s.packages.entries@.len() <= usize::MAX / 100,
    ensures
        r.total_packages == total_packages,
        r.delivered_packages == districts_delivered(districts@),
        r.failed_packages == match *selected {
            Some(s) => s.packages.entries@.filter(failed_entry()).len(),
            None => 0,
        },
        r.total_addresses == match *selected {
            Some(s) => s.stats.total_addresses as nat,
            None => districts_tournees(districts@),
        },
        r.completed_addresses == match *selected {
            Some(s) => s.addresses.entries@.filter(treated_address(s.packages.entries@)).len(),
            None => districts_tournees(districts@),
        },
        r.delivered_percent == percent(r.delivered_packages as int, total_packages as int),
        r.failed_percent == percent(r.failed_packages as int, total_packages as int),
{
    let mut delivered: usize = 0;
    let mut tours: usize = 0;
    let mut d: usize = 0;
    while d < districts.len()
        invariant
            d <= districts@.len(),
            delivered == districts_delivered(districts@.subrange(0, d as int)),
            districts_delivered(districts@) <= usize::MAX,
            selected is None ==> districts_tournees(districts@) <= usize::MAX,
            selected is None ==> tours == districts_tournees(districts@.subrange(0, d as int)),
        decreases districts@.len() - d,
    {
        proof {
            lemma_districts_prefix(districts@, d as int + 1);
            assert(districts@.subrange(0, d as int + 1).drop_last() =~= districts@.subrange(0, d as int));
        }
        let ts = &districts[d].tournees;
        let mut t: usize = 0;
        while t < ts.len()
            invariant
                t <= ts@.len(),
                delivered == districts_delivered(districts@.subrange(0, d as int)) + tournees_delivered(ts@.subrange(0, t as int)),
                districts_delivered(districts@.subrange(0, d as int)) + tournees_delivered(ts@) <= usize::MAX,
            decreases ts@.len() - t,
        {
            proof {
                assert(ts@.subrange(0, t as int + 1).drop_last() =~= ts@.subrange(0, t as int));
                lemma_tournees_prefix(ts@, t as int + 1);
            }
            delivered = delivered + ts[t].delivered_count;
            t += 1;
        }
        proof {
            assert(ts@.subrange(0, ts@.len() as int) =~= ts@);
        }
        if selected.is_none() {
            proof {
                lemma_tours_prefix(districts@, d as int + 1);
            }
            tours = tours + ts.len();
        }
        d += 1;
    }
    proof {
        assert(districts@.subrange(0, districts@.len() as int) =~= districts@);
    }
    let delivered_percent = if total_packages > 0 { (delivered * 100) / total_packages } else { 0 };
    match selected {
        Some(s) => {
            let f = progress_figures(s);
            let failed_percent = if total_packages > 0 { (f.failed_packages * 100) / total_packages } else { 0 };
            ProgressFigures {
                completed_addresses: f.completed_addresses,
                total_addresses: s.stats.total_addresses,
                delivered_packages: delivered,
                failed_packages: f.failed_packages,
                total_packages,
                delivered_percent,
                failed_percent,
            }
        },
        None => ProgressFigures {
            completed_addresses: tours,
            total_addresses: tours,
            delivered_packages: delivered,
            failed_packages: 0,
            total_packages,
            delivered_percent,
            failed_percent: 0,
        },
    }
}

/// A prefix of the districts delivers no more than all of them.
proof fn lemma_districts_prefix(ds: Seq<AdminDistrict>, n: int)
    requires
        0 <= n <= ds.len(),
    ensures
        districts_delivered(ds.subrange(0, n)) <= districts_delivered(ds),
        n > 0 ==> districts_delivered(ds.subrange(0, n - 1)) + tournees_delivered(ds[n - 1].tournees@)
            == districts_delivered(ds.subrange(0, n)),
    decreases ds.len(),
{
    if n > 0 {
        assert(ds.subrange(0, n).drop_last() =~= ds.subrange(0, n - 1));
    }
    if n < ds.len() {
        lemma_districts_prefix(ds.drop_last(), n);
        assert(ds.drop_last().subrange(0, n) =~= ds.subrange(0, n));
    } else {
        assert(ds.subrange(0, n) =~= ds);
    }
}

/// A prefix of the districts has no more tours than all of them.
proof fn lemma_tours_prefix(ds: Seq<AdminDistrict>, n: int)
    requires
        0 <= n <= ds.len(),
    ensures
        districts_tournees(ds.subrange(0, n)) <= districts_tournees(ds),
        n > 0 ==> districts_tournees(ds.subrange(0, n - 1)) + ds[n - 1].tournees@.len()
            == districts_tournees(ds.subrange(0, n)),
    decreases ds.len(),
{
    if n > 0 {
        assert(ds.subrange(0, n).drop_last() =~= ds.subrange(0, n - 1));
    }
    if n < ds.len() {
        lemma_tours_prefix(ds.drop_last(), n);
        assert(ds.drop_last().subrange(0, n) =~= ds.subrange(0, n));
    } else {
        assert(ds.subrange(0, n) =~= ds);
    }
}

/// A prefix of the tours delivers no more than all of them.
proof fn lemma_tournees_prefix(ts: Seq<AdminTournee>, n: int)
    requires
        0 <= n <= ts.len(),
    ensures
        tournees_delivered(ts.subrange(0, n)) <= tournees_delivered(ts),
    decreases ts.len(),
{
    if n < ts.len() {
        lemma_tournees_prefix(ts.drop_last(), n);
        assert(ts.drop_last().subrange(0, n) =~= ts.subrange(0, n));
    } else {
        assert(ts.subrange(0, n) =~= ts);
    }
}

/// Texts in strictly increasing order.
pub open spec fn strictly_sorted(a: Seq<Seq<char>>) -> bool {
    forall|i: int, j: int| 0 <= i < j < a.len() ==> text_less(a[i], a[j])
}

/// Two strictly increasing lists of the same texts are the same list.
proof fn lemma_sorted_same_texts(a: Seq<Seq<char>>, b: Seq<Seq<char>>)
    requires
        strictly_sorted(a),
        strictly_sorted(b),
        forall|x: Seq<char>| a.contains(x) <==> b.contains(x),
    ensures
        a == b,
    decreases a.len(),
{
    if a.len() == 0 {
        if b.len() > 0 {
            assert(b.contains(b[0]));
        }
        assert(a =~= b);
    } else {
        assert(a.contains(a[0]));
        let j = choose|j: int| 0 <= j < b.len() && b[j] == a[0];
        assert(b.contains(b[0]));
        let i = choose|i: int| 0 <= i < a.len() && a[i] == b[0];
        if a[0] != b[0] {
            lemma_text_less_total(a[0], b[0]);
            if text_less(a[0], b[0]) {
                assert(j > 0);
                assert(text_less(b[0], b[j]));
                lemma_text_less_transitive(a[0], b[0], a[0]);
                lemma_text_less_irreflexive(a[0]);
            } else {
                assert(i > 0);
                assert(text_less(a[0], a[i]));
                lemma_text_less_transitive(b[0], a[0], b[0]);
                lemma_text_less_irreflexive(b[0]);
            }
        }
        let ra = a.drop_first();
        let rb = b.drop_first();
        assert forall|x: Seq<char>| ra.contains(x) <==> rb.contains(x) by {
            if ra.contains(x) {
                let k = choose|k: int| 0 <= k < ra.len() && ra[k] == x;
                assert(a[k + 1] == x);
                assert(text_less(a[0], a[k + 1]));
                assert(b.contains(x));
                let m = choose|m: int| 0 <= m < b.len() && b[m] == x;
                if m == 0 {
                    lemma_text_less_irreflexive(x);
                }
                assert(rb[m - 1] == x);
            }
            if rb.contains(x) {
                let k = choose|k: int| 0 <= k < rb.len() && rb[k] == x;
                assert(b[k + 1] == x);
                assert(text_less(b[0], b[k + 1]));
                assert(a.contains(x));
                let m = choose|m: int| 0 <= m < a.len() && a[m] == x;
                if m == 0 {
                    lemma_text_less_irreflexive(x);
                }
                assert(ra[m - 1] == x);
            }
        }
        lemma_sorted_same_texts(ra, rb);
        assert(a =~= seq![a[0]] + ra);
        assert(b =~= seq![b[0]] + rb);
    }
}

/// The dates of a grouping.
pub open spec fn grouping_dates(g: Seq<(Seq<char>, Seq<usize>)>) -> Seq<Seq<char>> {
    g.map_values(|e: (Seq<char>, Seq<usize>)| e.0)
}

/// A text is a date of a grouping exactly when a confirmed request has it.
proof fn lemma_grouping_dates(reqs: Seq<StatusChangeRequest>, g: Seq<(Seq<char>, Seq<usize>)>, x: Seq<char>)
    requires
        reqs.len() <= usize::MAX,
        is_date_grouping(reqs, g),
    ensures
        grouping_dates(g).contains(x) <==> has_confirmed_request(reqs, x, reqs.len() as int),
{
    let ds = grouping_dates(g);
    if ds.contains(x) {
        let i = choose|i: int| 0 <= i < ds.len() && ds[i] == x;
        assert(g[i].1.len() > 0);
        lemma_confirmed_indices_members(reqs, x);
        let k = confirmed_indices(reqs, x)[0];
        assert(is_confirmed(reqs[k as int]));
    }
    if has_confirmed_request(reqs, x, reqs.len() as int) {
        let m = choose|m: int| 0 <= m < reqs.len() as int && m < reqs.len() && is_confirmed(#[trigger] reqs[m])
            && reqs[m].delivery_date@ == x;
        let i = choose|i: int| 0 <= i < g.len() && (#[trigger] g[i]).0 == reqs[m].delivery_date@;
        assert(ds[i] == x);
    }
}

/// The grouping of the confirmed requests by date is unique: two lists that
/// both meet its description are equal.
pub proof fn law_date_grouping_unique(reqs: Seq<StatusChangeRequest>, g1: Seq<(Seq<char>, Seq<usize>)>, g2: Seq<(Seq<char>, Seq<usize>)>)
    requires
        reqs.len() <= usize::MAX,
        is_date_grouping(reqs, g1),
        is_date_grouping(reqs, g2),
    ensures
        g1 == g2,
{
    let d1 = grouping_dates(g1);
    let d2 = grouping_dates(g2);
    assert forall|x: Seq<char>| d1.contains(x) <==> d2.contains(x) by {
        lemma_grouping_dates(reqs, g1, x);
        lemma_grouping_dates(reqs, g2, x);
    }
    assert(strictly_sorted(d1));
    assert(strictly_sorted(d2));
    lemma_sorted_same_texts(d1, d2);
    assert(g1.len() == d1.len() && g2.len() == d2.len());
    assert forall|i: int| 0 <= i < g1.len() implies g1[i] == g2[i] by {
        assert(d1[i] == d2[i]);
        assert(g1[i].1 == confirmed_indices(reqs, g1[i].0));
        assert(g2[i].1 == confirmed_indices(reqs, g2[i].0));
    }
    assert(g1 =~= g2);
}

/// The credentials with which the detail modal of a status request starts
/// fetching the package's traceability: only when none is loaded, no fetch
/// is running, and the SSO token, user name and company are all known; then
/// those three, in that order.
pub fn traceability_request(
    has_traceability: bool,
    loading: bool,
    sso: &Option<String>,
    username: &Option<String>,
    societe: &Option<String>,
) -> (r: Option<(String, String, String)>)
    ensures
        r is Some <==> (!has_traceability && !loading && sso is Some && username is Some && societe is Some),
        r matches Some(c) ==> c.0@ == sso->0@ && c.1@ == username->0@ && c.2@ == societe->0@,
{
    if has_traceability || loading {
        return None;
    }
    match (sso, username, societe) {
        (Some(t), Some(u), Some(c)) => Some((t.clone(), u.clone(), c.clone())),
        _ => None,
    }
}

/// How many requests of `reqs` are pending.
pub open spec fn pending_in(reqs: Seq<StatusChangeRequest>) -> nat
    decreases reqs.len(),
{
    if reqs.len() == 0 {
        0
    } else {
        pending_in(reqs.drop_last()) + if reqs.last().status@ == "pending"@ { 1nat } else { 0nat }
    }
}

proof fn lemma_pending_bound(reqs: Seq<StatusChangeRequest>)
    ensures
        pending_in(reqs) <= reqs.len(),
    decreases reqs.len(),
{
    if reqs.len() > 0 {
        lemma_pending_bound(reqs.drop_last());
    }
}

/// The number of pending requests.
pub fn pending_count(requests: &Vec<StatusChangeRequest>) -> (n: usize)
    ensures
        n == pending_in(requests@),
{
    let mut n: usize = 0;
    let mut i: usize = 0;
    while i < requests.len()
        invariant
            i <= requests@.len(),
            n == pending_in(requests@.subrange(0, i as int)),
        decreases requests@.len() - i,
    {
        proof {
            let next = requests@.subrange(0, i + 1);
            assert(next.drop_last() =~= requests@.subrange(0, i as int));
            lemma_pending_bound(requests@.subrange(0, i as int));
        }
        if str_eq(requests[i].status.as_str(), "pending") {
            n = n + 1;
        }
        i += 1;
    }
    assert(requests@.subrange(0, requests@.len() as int) =~= requests@);
    n
}

/// The text of the notification for `n` pending requests.
pub open spec fn pending_notice(n: nat) -> Seq<char> {
    if n == 1 {
        "1 demande en attente"@
    } else {
        decimal(n) + " demandes en attente"@
    }
}

/// After a poll of the requests: the text of the browser notification to
/// show, when more requests are pending than before the poll and
/// notifications are both enabled and permitted; nothing otherwise.
pub fn polling_notification(
    previous_pending: usize,
    requests: &Vec<StatusChangeRequest>,
    notifications_enabled: bool,
    permission_granted: bool,
) -> (r: Option<String>)
    ensures
        r is Some <==> (pending_in(requests@) > previous_pending && notifications_enabled && permission_granted),
        r matches Some(body) ==> body@ == pending_notice(pending_in(requests@)),
{
    let now_pending = pending_count(requests);
    if now_pending > previous_pending && notifications_enabled && permission_granted {
        if now_pending == 1 {
            Some(String::from_str("1 demande en attente"))
        } else {
            let mut body = decimal_string(now_pending);
            body.append(" demandes en attente");
            Some(body)
        }
    } else {
        None
    }
}

/// Some entry of `codes` reads `k`.
pub open spec fn lists_code(codes: Seq<String>, k: Seq<char>) -> bool {
    exists|i: int| 0 <= i < codes.len() && (#[trigger] codes[i])@ == k
}

/// No code is listed twice.
pub open spec fn codes_unique(codes: Seq<String>) -> bool {
    forall|i: int, j: int| 0 <= i < codes.len() && 0 <= j < codes.len() && i != j
        ==> #[trigger] codes[i]@ != #[trigger] codes[j]@
}

/// Opens the district `code` when it is closed, closes it when it is open.
pub fn toggle_expanded(expanded: &mut Vec<String>, code: &str)
    requires
        codes_unique(old(expanded)@),
    ensures
        codes_unique(final(expanded)@),
        forall|k: Seq<char>| #[trigger] lists_code(final(expanded)@, k) == if k == code@ {
            !lists_code(old(expanded)@, k)
        } else {
            lists_code(old(expanded)@, k)
        },
{
    let mut i: usize = 0;
    while i < expanded.len()
        invariant
            i <= expanded@.len(),
            expanded@ == old(expanded)@,
            codes_unique(old(expanded)@),
            forall|j: int| 0 <= j < i ==> expanded@[j]@ != code@,
        decreases expanded@.len() - i,
    {
        if str_eq(expanded[i].as_str(), code) {
            let ghost before = expanded@;
            expanded.remove(i);
            proof {
                assert(expanded@ == before.remove(i as int));
                assert forall|k: Seq<char>| #[trigger] lists_code(expanded@, k) == if k == code@ {
                    !lists_code(before, k)
                } else {
                    lists_code(before, k)
                } by {
                    if lists_code(expanded@, k) {
                        let j = choose|j: int| 0 <= j < expanded@.len() && (#[trigger] expanded@[j])@ == k;
                        if j < i {
                            assert(before[j] == expanded@[j]);
                        } else {
                            assert(before[j + 1] == expanded@[j]);
                        }
                    }
                    if k != code@ && lists_code(before, k) {
                        let j = choose|j: int| 0 <= j < before.len() && (#[trigger] before[j])@ == k;
                        if j < i {
                            assert(expanded@[j] == before[j]);
                        } else {
                            assert(j != i);
                            assert(expanded@[j - 1] == before[j]);
                        }
                    }
                    if k == code@ {
                        assert(before[i as int]@ == k);
                    }
                }
                assert forall|a: int, b: int| 0 <= a < expanded@.len() && 0 <= b < expanded@.len() && a != b
                    implies #[trigger] expanded@[a]@ != #[trigger] expanded@[b]@ by {
                    let a0 = if a < i { a } else { a + 1 };
                    let b0 = if b < i { b } else { b + 1 };
                    assert(expanded@[a] == before[a0]);
                    assert(expanded@[b] == before[b0]);
                }
            }
            return;
        }
        i += 1;
    }
    let ghost before = expanded@;
    expanded.push(String::from_str(code));
    proof {
        assert forall|k: Seq<char>| #[trigger] lists_code(expanded@, k) == if k == code@ {
            !lists_code(before, k)
        } else {
            lists_code(before, k)
        } by {
            if lists_code(before, k) {
                let j = choose|j: int| 0 <= j < before.len() && (#[trigger] before[j])@ == k;
                assert(expanded@[j] == before[j]);
            }
            if lists_code(expanded@, k) && k != code@ {
                let j = choose|j: int| 0 <= j < expanded@.len() && (#[trigger] expanded@[j])@ == k;
                assert(j < before.len());
                assert(before[j] == expanded@[j]);
            }
            if k == code@ {
                assert(expanded@[before.len() as int]@ == k);
            }
        }
        assert forall|a: int, b: int| 0 <= a < expanded@.len() && 0 <= b < expanded@.len() && a != b
            implies #[trigger] expanded@[a]@ != #[trigger] expanded@[b]@ by {
            if a < before.len() && b < before.len() {
                assert(expanded@[a] == before[a]);
                assert(expanded@[b] == before[b]);
            } else if a < before.len() {
                assert(expanded@[a] == before[a]);
            } else {
                assert(expanded@[b] == before[b]);
            }
        }
    }
}

/// A click on the card of district `code`: on the selected district it
/// opens or closes the district's list of tours; on another, it selects
/// that district.
pub fn district_card_clicked(selected: &mut Option<String>, expanded: &mut Vec<String>, code: &str)
    requires
        codes_unique(old(expanded)@),
    ensures
        codes_unique(final(expanded)@),
        (*old(selected) matches Some(s) && s@ == code@) ==> {
            &&& *final(selected) == *old(selected)
            &&& forall|k: Seq<char>| #[trigger] lists_code(final(expanded)@, k) == if k == code@ {
                !lists_code(old(expanded)@, k)
            } else {
                lists_code(old(expanded)@, k)
            }
        },
        !(*old(selected) matches Some(s) && s@ == code@) ==> {
            &&& *final(selected) matches Some(s) && s@ == code@
            &&& final(expanded)@ == old(expanded)@
        },
{
    let is_selected = match selected {
        Some(s) => str_eq(s.as_str(), code),
        None => false,
    };
    if is_selected {
        toggle_expanded(expanded, code);
    } else {
        *selected = Some(String::from_str(code));
    }
}

/// A request is confirmed exactly when its status is `confirmed`; the
/// confirmed requests of a date are listed by position, in order.
pub proof fn law_confirmed_requests_of_a_date(reqs: Seq<StatusChangeRequest>, r: StatusChangeRequest, date: Seq<char>)
    ensures
        is_confirmed(r) <==> r.status@ == "confirmed"@,
        confirmed_indices(reqs.push(r), date) == if r.status@ == "confirmed"@ && r.delivery_date@ == date {
            confirmed_indices(reqs, date).push(reqs.len() as usize)
        } else {
            confirmed_indices(reqs, date)
        },
{
    assert(reqs.push(r).drop_last() =~= reqs);
}

/// One line of the export: the package code in upper case, `;`, the
/// request's note (nothing without one), and a line break.
pub proof fn law_csv_line(r: StatusChangeRequest)
    ensures
        csv_line(r) == uppercase_of(r.tracking_code@) + ";"@ + (match r.notes {
            Some(n) => n@,
            None => Seq::<char>::empty(),
        }) + "\n"@,
{
}

/// A date "YYYY-MM-DD…" written in ASCII is shown as "DD/MM/YYYY"; a text
/// without that shape is shown as it is.
pub proof fn law_preview_of_an_ascii_date(s: Seq<char>)
    requires
        vstd::utf8::is_ascii_chars(s),
    ensures
        (s.len() >= 10 && s[4] == '-' && s[7] == '-') ==>
            preview_date(s) == s.subrange(8, 10) + "/"@ + s.subrange(5, 7) + "/"@ + s.subrange(0, 4),
        !(s.len() >= 10 && s[4] == '-' && s[7] == '-') ==> preview_date(s) == s,
{
    vstd::utf8::is_ascii_chars_encode_utf8(s);
    let b = encode_utf8(s);
    if s.len() >= 10 {
        assert(s[4] as u8 == b[4]);
        assert(s[7] as u8 == b[7]);
        assert((s[4] == '-') <==> (b[4] == 45u8)) by {
            assert(s[4] <= '\u{7f}');
        }
        assert((s[7] == '-') <==> (b[7] == 45u8)) by {
            assert(s[7] <= '\u{7f}');
        }
        if s[4] == '-' && s[7] == '-' {
            lemma_ascii_piece(s, 8, 10);
            lemma_ascii_piece(s, 5, 7);
            lemma_ascii_piece(s, 0, 4);
        }
    }
}

/// The bytes of an ASCII text's piece decode to that piece.
proof fn lemma_ascii_piece(s: Seq<char>, i: int, j: int)
    requires
        vstd::utf8::is_ascii_chars(s),
        0 <= i <= j <= s.len(),
    ensures
        decode_utf8(encode_utf8(s).subrange(i, j)) == s.subrange(i, j),
{
    let piece = s.subrange(i, j);
    vstd::utf8::is_ascii_chars_encode_utf8(s);
    assert(vstd::utf8::is_ascii_chars(piece));
    vstd::utf8::is_ascii_chars_encode_utf8(piece);
    assert(encode_utf8(s).subrange(i, j) =~= encode_utf8(piece)) by {
        assert forall|k: int| 0 <= k < j - i implies encode_utf8(s).subrange(i, j)[k] == encode_utf8(piece)[k] by {
            assert(s[i + k] as u8 == encode_utf8(s)[i + k]);
            assert(piece[k] as u8 == encode_utf8(piece)[k]);
        }
    }
    encode_utf8_decode_utf8(piece);
}

/// One more request counts as pending exactly when its status is
/// `pending`.
pub proof fn law_pending_count(reqs: Seq<StatusChangeRequest>, r: StatusChangeRequest)
    ensures
        pending_in(reqs.push(r)) == pending_in(reqs) + if r.status@ == "pending"@ { 1nat } else { 0nat },
        pending_in(seq![]) == 0,
{
    assert(reqs.push(r).drop_last() =~= reqs);
}

/// The notification reads "1 demande en attente" for one pending request
/// and "N demandes en attente" otherwise.
pub proof fn law_pending_notice(n: nat)
    ensures
        n == 1 ==> pending_notice(n) == "1 demande en attente"@,
        n != 1 ==> pending_notice(n) == decimal(n) + " demandes en attente"@,
{
}

/// The dashboard's delivered packages add up the delivered count of every
/// tour of every district, and its tour count the tours of every district.
pub proof fn law_dashboard_sums(ds: Seq<AdminDistrict>, d: AdminDistrict, ts: Seq<AdminTournee>, t: AdminTournee)
    ensures
        districts_delivered(ds.push(d)) == districts_delivered(ds) + tournees_delivered(d.tournees@),
        districts_tournees(ds.push(d)) == districts_tournees(ds) + d.tournees@.len(),
        tournees_delivered(ts.push(t)) == tournees_delivered(ts) + t.delivered_count,
{
    assert(ds.push(d).drop_last() =~= ds);
    assert(ts.push(t).drop_last() =~= ts);
}

/// Dates are listed in the order of their texts: a text comes before every
/// longer text that starts with it, and before any text it first differs
/// from by a smaller character.
pub proof fn law_text_order(a: Seq<char>, b: Seq<char>, i: int)
    requires
        0 <= i <= a.len(),
        i <= b.len(),
        a.subrange(0, i) == b.subrange(0, i),
    ensures
        (i == a.len() && a.len() < b.len()) ==> text_less(a, b),
        (i < a.len() && i < b.len() && (a[i] as u32) < (b[i] as u32)) ==> text_less(a, b),
        (i < a.len() && i < b.len() && (a[i] as u32) < (b[i] as u32)) ==> !text_less(b, a),
    decreases i,
{
    if i > 0 {
        assert(a[0] == a.subrange(0, i)[0]);
        assert(b[0] == b.subrange(0, i)[0]);
        assert(a.drop_first().subrange(0, i - 1) =~= a.subrange(0, i).drop_first());
        assert(b.drop_first().subrange(0, i - 1) =~= b.subrange(0, i).drop_first());
        law_text_order(a.drop_first(), b.drop_first(), i - 1);
    }
}

/// The export's block for a date: "Date: " and the date as shown, the
/// column names, the date's lines in order, and an empty line; the lines
/// grow by one line per listed request.
pub proof fn law_csv_block(reqs: Seq<StatusChangeRequest>, date: Seq<char>, idxs: Seq<usize>, k: usize)
    ensures
        csv_block(reqs, date, idxs) == "Date: "@ + preview_date(date) + "\n"@ + "REF COLIS;TYPE DE LIVRAISON\n"@
            + csv_lines(reqs, idxs) + "\n"@,
        csv_lines(reqs, idxs.push(k)) == csv_lines(reqs, idxs) + csv_line(reqs[k as int]),
        csv_lines(reqs, seq![]) == Seq::<char>::empty(),
{
    assert(idxs.push(k).drop_last() =~= idxs);
}

} // verus!
