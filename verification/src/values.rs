//! Coercion of loosely typed import values into display strings.
//!
//! Import records carry nutriment and image-id fields whose values may be
//! absent, textual or numeric. Coercion is total: every shape yields a
//! display string, with the sentinel `"N/A"` for absent or unexpected
//! shapes.

use vstd::prelude::*;
use vstd::string::*;

verus! {

/// A raw import value of mixed type, as it appears in nutriment and
/// image-id fields of the import feed.
///
/// A numeric value that is not an unsigned integer — a floating-point
/// number or a negative integer — is carried as its canonical decimal
/// rendering, produced at the boundary that reads the feed; the library
/// itself works only on exact values.
pub enum RawValue {
    /// A textual value, used verbatim.
    Text(String),
    /// An unsigned integral number.
    Int(u64),
    /// A numeric value that is not an unsigned integer, carried as its
    /// canonical decimal rendering.
    Decimal(String),
    /// Any other shape (boolean, object, array).
    Other,
}

/// The digit character for a single decimal digit.
pub open spec fn dec_digit_char(d: int) -> char {
    if d == 0 {
        '0'
    } else if d == 1 {
        '1'
    } else if d == 2 {
        '2'
    } else if d == 3 {
        '3'
    } else if d == 4 {
        '4'
    } else if d == 5 {
        '5'
    } else if d == 6 {
        '6'
    } else if d == 7 {
        '7'
    } else if d == 8 {
        '8'
    } else {
        '9'
    }
}

/// The canonical base-10 rendering of a natural number, most significant
/// digit first, without leading zeros (except for the number zero itself).
pub open spec fn dec_digits(n: nat) -> Seq<char>
    decreases n,
{
    if n < 10 {
        seq![dec_digit_char(n as int)]
    } else {
        dec_digits(n / 10).push(dec_digit_char((n % 10) as int))
    }
}

/// What coercion of one optional mixed-type value yields: absent and
/// unexpected shapes map to the sentinel, text and a carried decimal
/// rendering are used verbatim, and an unsigned integer is rendered in
/// base 10.
pub open spec fn coerce_spec(v: Option<RawValue>) -> Seq<char> {
    match v {
        Option::Some(RawValue::Text(s)) => s@,
        Option::Some(RawValue::Int(n)) => dec_digits(n as nat),
        Option::Some(RawValue::Decimal(s)) => s@,
        _ => "N/A"@,
    }
}

/// A decimal character: a digit, a decimal point or a minus sign. The
/// canonical rendering of any numeric feed value consists of such
/// characters only.
pub open spec fn is_decimal_char(c: char) -> bool {
    is_digit_char(c) || c == '.' || c == '-'
}

/// A decimal rendering is nonempty and made of decimal characters only.
pub open spec fn is_decimal_rendering(s: Seq<char>) -> bool {
    s.len() > 0 && forall|i: int| 0 <= i < s.len() ==> is_decimal_char(#[trigger] s[i])
}

/// An ASCII decimal digit.
pub open spec fn is_digit_char(c: char) -> bool {
    48 <= c as u32 <= 57
}

fn digit_str(d: u64) -> (r: &'static str)
    requires
        d < 10,
    ensures
        r@ == seq![dec_digit_char(d as int)],
{
    proof {
        reveal_strlit("0");
        reveal_strlit("1");
        reveal_strlit("2");
        reveal_strlit("3");
        reveal_strlit("4");
        reveal_strlit("5");
        reveal_strlit("6");
        reveal_strlit("7");
        reveal_strlit("8");
        reveal_strlit("9");
    }
    if d == 0 {
        "0"
    } else if d == 1 {
        "1"
    } else if d == 2 {
        "2"
    } else if d == 3 {
        "3"
    } else if d == 4 {
        "4"
    } else if d == 5 {
        "5"
    } else if d == 6 {
        "6"
    } else if d == 7 {
        "7"
    } else if d == 8 {
        "8"
    } else {
        "9"
    }
}

/// Renders an unsigned number in base 10, matching `dec_digits`.
pub fn u64_to_dec_string(n: u64) -> (r: String)
    ensures
        r@ == dec_digits(n as nat),
    decreases n,
{
    if n < 10 {
        digit_str(n).to_owned()
    } else {
        let prefix = u64_to_dec_string(n / 10);
        let r = prefix.concat(digit_str(n % 10));
        proof {
            assert(r@ =~= dec_digits((n / 10) as nat).push(dec_digit_char((n % 10) as int)));
        }
        r
    }
}

/// Coerces one optional mixed-type nutriment value into a display string:
/// absent or unexpected shapes yield `"N/A"`, text and carried decimal
/// renderings are used verbatim, and an unsigned integer is rendered in
/// base 10. Coercion is total and raises no error.
pub fn value_to_nutriments_string(value: &Option<RawValue>) -> (r: String)
    ensures
        r@ == coerce_spec(*value),
{
    match value {
        Option::Some(RawValue::Text(s)) => s.clone(),
        Option::Some(RawValue::Int(n)) => u64_to_dec_string(*n),
        Option::Some(RawValue::Decimal(s)) => s.clone(),
        _ => "N/A".to_owned(),
    }
}

/// Every character of the base-10 rendering is a digit.
pub proof fn lemma_dec_digits_are_digits(n: nat)
    ensures
        dec_digits(n).len() >= 1,
        forall|i: int| 0 <= i < dec_digits(n).len() ==> is_digit_char(#[trigger] dec_digits(n)[i]),
    decreases n,
{
    if n >= 10 {
        lemma_dec_digits_are_digits(n / 10);
    }
}

/// The base-10 rendering of a number is never the absence sentinel.
pub proof fn lemma_dec_digits_not_na(n: nat)
    ensures
        dec_digits(n) != "N/A"@,
{
    reveal_strlit("N/A");
    lemma_dec_digits_are_digits(n);
    if dec_digits(n) == "N/A"@ {
        assert(dec_digits(n)[0] == 'N');
        assert(is_digit_char('N'));
        assert(false);
    }
}

/// Coercion is faithful: a textual or numeric value yields its own canonical
/// textual form, which differs from the sentinel `"N/A"` (for text, whenever
/// the text itself is not the sentinel); an absent or other-typed value
/// yields exactly the sentinel.
pub proof fn lemma_coercion_faithful(v: Option<RawValue>)
    ensures
        match v {
            Option::Some(RawValue::Text(s)) => coerce_spec(v) == s@ && (s@ != "N/A"@ ==> coerce_spec(
                v,
            ) != "N/A"@),
            Option::Some(RawValue::Int(n)) => coerce_spec(v) == dec_digits(n as nat) && coerce_spec(
                v,
            ) != "N/A"@,
            Option::Some(RawValue::Decimal(s)) => coerce_spec(v) == s@ && (is_decimal_rendering(s@)
                ==> coerce_spec(v) != "N/A"@),
            _ => coerce_spec(v) == "N/A"@,
        },
{
    match v {
        Option::Some(RawValue::Int(n)) => {
            lemma_dec_digits_not_na(n as nat);
        },
        Option::Some(RawValue::Decimal(s)) => {
            reveal_strlit("N/A");
            if is_decimal_rendering(s@) && s@ == "N/A"@ {
                assert(s@[0] == 'N');
                assert(is_decimal_char('N'));
                assert(false);
            }
        },
        _ => {},
    }
}

} // verus!
