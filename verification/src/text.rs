//! Reading, writing and comparing the text of literals.

use crate::tree::SimpleKind;
use aleph_syntax_tree::syntax::AlephTree;
use vstd::prelude::*;

verus! {

/// The digit that a character writes, if it is one of `0` to `9`.
pub open spec fn digit_of(c: char) -> Option<int> {
    if '0' as u32 <= c as u32 && c as u32 <= '9' as u32 {
        Some(c as u32 - '0' as u32)
    } else {
        None
    }
}

/// The number that a run of decimal digits writes; `None` where a character
/// is no digit.
pub open spec fn digits_value(s: Seq<char>) -> Option<int>
    decreases s.len(),
{
    if s.len() == 0 {
        Some(0)
    } else {
        match (digits_value(s.drop_last()), digit_of(s.last())) {
            (Some(n), Some(d)) => Some(10 * n + d),
            _ => None,
        }
    }
}

/// The integer that a decimal text stands for: an optional sign `+` or `-`,
/// then one digit or more, the whole within 64 bits. Any other text stands for
/// none.
pub open spec fn decimal_value(text: Seq<char>) -> Option<i64> {
    let signed = text.len() > 0 && (text[0] == '-' || text[0] == '+');
    let digits = if signed {
        text.drop_first()
    } else {
        text
    };
    if digits.len() == 0 {
        None
    } else {
        match digits_value(digits) {
            None => None,
            Some(n) => {
                let v = if text[0] == '-' {
                    -n
                } else {
                    n
                };
                if i64::MIN <= v <= i64::MAX {
                    Some(v as i64)
                } else {
                    None
                }
            },
        }
    }
}

/// The character that writes a digit.
pub open spec fn digit_char(d: nat) -> char {
    if d == 0 {
        '0'
    } else if d == 1 {
        '1'
    } else if d == 2 {
        '2'
    } else if d == 3 {
        '3'
    } else if d == 4 {
        '4'
    } else if d == 5 {
        '5'
    } else if d == 6 {
        '6'
    } else if d == 7 {
        '7'
    } else if d == 8 {
        '8'
    } else {
        '9'
    }
}

/// The digits of a natural number, without leading zeros; `0` for zero.
pub open spec fn digits_text(n: nat) -> Seq<char>
    decreases n,
{
    if n < 10 {
        seq![digit_char(n)]
    } else {
        digits_text(n / 10).push(digit_char(n % 10))
    }
}

/// The decimal text of an integer: its digits, after a `-` where it is negative.
pub open spec fn decimal_text(value: i64) -> Seq<char> {
    if value < 0 {
        seq!['-'] + digits_text((-value) as nat)
    } else {
        digits_text(value as nat)
    }
}

/// Whether `a` comes before `b`, or equals it, in the order of a dictionary
/// whose alphabet is the code points.
pub open spec fn text_le(a: Seq<char>, b: Seq<char>) -> bool
    decreases a.len(),
{
    if a.len() == 0 {
        true
    } else if b.len() == 0 {
        false
    } else if a[0] != b[0] {
        (a[0] as u32) < (b[0] as u32)
    } else {
        text_le(a.drop_first(), b.drop_first())
    }
}

/// The boolean that a text stands for: exactly `true` or `false`, nothing else.
pub open spec fn bool_value(text: Seq<char>) -> Option<bool> {
    if text == "true"@ {
        Some(true)
    } else if text == "false"@ {
        Some(false)
    } else {
        None
    }
}

/// The text of a boolean.
pub open spec fn bool_text(value: bool) -> Seq<char> {
    if value {
        "true"@
    } else {
        "false"@
    }
}

/// Trusted: `str::parse::<i64>`, which reads an optional sign and decimal
/// digits and fails on an empty text, on any other character and on a value
/// outside 64 bits. A failure gives `None`.
#[verifier::external_body]
pub(crate) fn parse_int(text: &String) -> (r: Option<i64>)
    ensures
        r == decimal_value(text@),
{
    text.parse::<i64>().ok()
}

/// Trusted: `i64::to_string`, which writes the decimal digits without leading
/// zeros, after a `-` for a negative integer.
#[verifier::external_body]
pub(crate) fn int_text(value: i64) -> (r: String)
    ensures
        r@ == decimal_text(value),
{
    value.to_string()
}

/// Trusted: `<=` on `String`, which std documents as the lexicographic order of
/// the bytes, and so of the code points.
#[verifier::external_body]
pub(crate) fn text_at_most(a: &String, b: &String) -> (r: bool)
    ensures
        r == text_le(a@, b@),
{
    a <= b
}

/// Trusted: `AlephTree::to_string_value` on a literal or identifier node, which
/// returns the node's stored text for each of these five kinds.
#[verifier::external_body]
pub(crate) fn node_text(kind: SimpleKind, value: &String) -> (r: String)
    ensures
        r@ == value@,
{
    let node = match kind {
        SimpleKind::Int => AlephTree::Int { value: value.clone() },
        SimpleKind::Float => AlephTree::Float { value: value.clone() },
        SimpleKind::Bool => AlephTree::Bool { value: value.clone() },
        SimpleKind::Text => AlephTree::String { value: value.clone() },
        SimpleKind::Ident => AlephTree::Ident { value: value.clone() },
    };
    node.to_string_value()
}

/// Reads a boolean literal's text.
pub fn parse_bool(text: &String) -> (r: Option<bool>)
    ensures
        r == bool_value(text@),
{
    if *text == "true".to_owned() {
        Some(true)
    } else if *text == "false".to_owned() {
        Some(false)
    } else {
        None
    }
}

/// Writes a boolean as a literal's text.
pub fn bool_string(value: bool) -> (r: String)
    ensures
        r@ == bool_text(value),
{
    if value {
        "true".to_owned()
    } else {
        "false".to_owned()
    }
}

} // verus!
