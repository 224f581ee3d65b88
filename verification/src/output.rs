//! Money formatting and table rendering for the human-readable output.

use vstd::prelude::*;
use crate::text::{decimal, digit_char, push_decimal, string_from_chars, two_digits};

verus! {

/// |a|, as a natural number.
pub open spec fn magnitude(a: int) -> nat {
    if a < 0 { (-a) as nat } else { a as nat }
}

/// The amount `a` (in milliunits) rounded to hundredths of a currency unit,
/// half away from zero, as a magnitude: (|a| + 5) / 10.
pub open spec fn rounded_hundredths(a: int) -> nat {
    (magnitude(a) + 5) / 10
}

/// The currency text of an amount in milliunits: the rounded value with two
/// decimals, a leading minus for negative amounts, and plain "0.00" when the
/// amount rounds to zero (never "-0.00").
pub open spec fn milliunits_text(a: int) -> Seq<char> {
    let r = rounded_hundredths(a);
    if r == 0 {
        seq!['0', '.', '0', '0']
    } else {
        (if a < 0 { seq!['-'] } else { Seq::<char>::empty() }) + decimal(r / 100) + seq!['.']
            + two_digits(r % 100)
    }
}

/// Milliunits → currency string: divide by 1000, 2 decimals, round half away
/// from zero, outflows keep their minus sign.
pub fn milliunits(amount: i64) -> (r: String)
    ensures
        r@ == milliunits_text(amount as int),
{
    let abs: u64 = if amount < 0 {
        if amount == i64::MIN {
            9223372036854775808u64
        } else {
            (-amount) as u64
        }
    } else {
        amount as u64
    };
    assert(abs == magnitude(amount as int));
    let rounded: u64 = (abs + 5) / 10;
    let whole: u64 = rounded / 100;
    let cents: u64 = rounded % 100;
    let mut v: Vec<char> = Vec::new();
    if whole == 0 && cents == 0 {
        v.push('0');
        v.push('.');
        v.push('0');
        v.push('0');
        assert(rounded == 0);
        assert(v@ =~= milliunits_text(amount as int));
        return string_from_chars(&v);
    }
    if amount < 0 {
        v.push('-');
    }
    let ghost prefix = v@;
    push_decimal(&mut v, whole);
    v.push('.');
    let tens: u8 = 48u8 + ((cents / 10) as u8);
    let ones: u8 = 48u8 + ((cents % 10) as u8);
    v.push(tens as char);
    v.push(ones as char);
    assert(tens as char == digit_char((cents / 10) as int));
    assert(v@ =~= prefix + decimal(whole as nat) + seq!['.'] + two_digits(cents as nat));
    assert(v@ =~= milliunits_text(amount as int));
    string_from_chars(&v)
}

/// Every character of a decimal rendering is a digit.
proof fn decimal_is_digits(n: nat)
    ensures
        decimal(n).len() > 0,
        forall|i: int| 0 <= i < decimal(n).len() ==> '0' <= #[trigger] decimal(n)[i] <= '9',
    decreases n,
{
    if n >= 10 {
        decimal_is_digits(n / 10);
        let prev = decimal(n / 10);
        assert forall|i: int| 0 <= i < decimal(n).len() implies '0' <= #[trigger] decimal(n)[i]
            <= '9' by {
            if i < prev.len() {
                assert(decimal(n)[i] == prev[i]);
            }
        }
    }
}

/// Outflows keep their minus sign and nothing else has one: the currency
/// text starts with '-' exactly when the amount is negative and does not
/// round to zero, and it never holds a '-' anywhere else. An amount that
/// rounds to zero is plain "0.00".
pub proof fn only_outflows_are_negative(a: int)
    ensures
        milliunits_text(a).len() > 0,
        (milliunits_text(a)[0] == '-') <==> (a < 0 && rounded_hundredths(a) > 0),
        forall|i: int| 0 < i < milliunits_text(a).len() ==> #[trigger] milliunits_text(a)[i] != '-',
        rounded_hundredths(a) == 0 ==> milliunits_text(a) == seq!['0', '.', '0', '0'],
{
    let r = rounded_hundredths(a);
    if r != 0 {
        decimal_is_digits(r / 100);
        let sign = if a < 0 { seq!['-'] } else { Seq::<char>::empty() };
        let body = decimal(r / 100) + seq!['.'] + two_digits(r % 100);
        assert(milliunits_text(a) == sign + body);
        assert forall|i: int| 0 <= i < body.len() implies #[trigger] body[i] != '-' by {
            if i < decimal(r / 100).len() {
                assert(body[i] == decimal(r / 100)[i]);
            }
        }
        assert forall|i: int| 0 < i < milliunits_text(a).len() implies #[trigger] milliunits_text(
            a,
        )[i] != '-' by {
            if a < 0 {
                assert(milliunits_text(a)[i] == body[i - 1]);
            } else {
                assert(milliunits_text(a)[i] == body[i]);
            }
        }
        if a >= 0 {
            assert(milliunits_text(a)[0] == body[0]);
        }
    }
}

/// The views of table rows (each row a list of cells).
pub open spec fn rows_view(rows: Seq<Vec<String>>) -> Seq<Seq<Seq<char>>> {
    rows.map_values(|row: Vec<String>| row@.map_values(|c: String| c@))
}

/// What comfy-table renders for a table with these headers and rows under
/// the `UTF8_BORDERS_ONLY` preset, with no width limit and no cell styling.
pub uninterp spec fn comfy_table_text(headers: Seq<Seq<char>>, rows: Seq<Seq<Seq<char>>>) -> Seq<char>;

/// Renders a table with comfy-table (`Table::new`, `load_preset`,
/// `set_header`, `add_row`, `to_string`). comfy-table does read the
/// terminal's width and whether output is a tty, but with the default
/// (disabled) content arrangement, no constraints and no styling neither
/// changes the text, so it depends on the headers and rows alone; the claim
/// is only that the result is that text, named `comfy_table_text`.
/// Nothing is claimed about its layout.
#[verifier::external_body]
pub fn render_table(headers: &[&str], rows: Vec<Vec<String>>) -> (r: String)
    ensures
        r@ == comfy_table_text(headers@.map_values(|h: &str| h@), rows_view(rows@)),
{
    let mut table = comfy_table::Table::new();
    table.load_preset(comfy_table::presets::UTF8_BORDERS_ONLY);
    table.set_header(headers.to_vec());
    for row in rows {
        table.add_row(row);
    }
    table.to_string()
}

} // verus!
