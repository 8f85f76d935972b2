//! Texts: whether two are the same, and what the standard library makes of
//! one: its quoted form, and the number that it spells.
use vstd::prelude::*;
use vstd::string::*;
use vstd::utf8::{encode_utf8, encode_utf8_decode_utf8};

verus! {

/// Whether two texts are made of the same characters.
pub fn same_text(left: &str, right: &str) -> (r: bool)
    ensures
        r == (left@ == right@),
{
    let left_bytes = left.as_bytes();
    let right_bytes = right.as_bytes();
    proof {
        // Texts with the same encoding are the same text.
        encode_utf8_decode_utf8(left@);
        encode_utf8_decode_utf8(right@);
    }
    if left_bytes.len() != right_bytes.len() {
        return false;
    }
    let mut at: usize = 0;
    while at < left_bytes.len()
        invariant
            at <= left_bytes.len(),
            left_bytes.len() == right_bytes.len(),
            left_bytes@ == encode_utf8(left@),
            right_bytes@ == encode_utf8(right@),
            forall|i: int| 0 <= i < at ==> left_bytes@[i] == right_bytes@[i],
        decreases left_bytes.len() - at,
    {
        if left_bytes[at] != right_bytes[at] {
            return false;
        }
        at += 1;
    }
    assert(left_bytes@ =~= right_bytes@);
    true
}

/// The quoted form of a text, as the standard library's `Debug` prints a
/// `str`: between double quotes, with the characters that need it escaped.
pub uninterp spec fn debug_text(text: Seq<char>) -> Seq<char>;

/// What parsing a text as a decimal `u64` gives: the number, or the
/// standard library's description of why the text spells none.
pub uninterp spec fn decimal_u64(text: Seq<char>) -> Result<u64, Seq<char>>;

/// What parsing a text as a decimal `i64` gives: the number, or nothing
/// where the text spells none.
pub uninterp spec fn decimal_i64(text: Seq<char>) -> Option<i64>;

/// A parsed number or the description of the failure, the description as the
/// characters it is made of.
pub open spec fn parsed_view(outcome: Result<u64, String>) -> Result<u64, Seq<char>> {
    match outcome {
        Ok(number) => Ok(number),
        Err(why) => Err(why@),
    }
}

/// Formats the text with `{:?}`, the standard library's `Debug` for `str`.
/// The result depends on the text alone.
#[verifier::external_body]
pub(crate) fn quoted(text: &str) -> (r: String)
    ensures
        r@ == debug_text(text@),
{
    format!("{:?}", text)
}

/// Calls `u64::from_str_radix` with radix 10, and on failure takes the
/// error's own description. The result depends on the text alone.
#[verifier::external_body]
pub(crate) fn parse_u64(text: &str) -> (r: Result<u64, String>)
    ensures
        parsed_view(r) == decimal_u64(text@),
{
    match u64::from_str_radix(text, 10) {
        Ok(number) => Ok(number),
        Err(error) => Err(error.to_string()),
    }
}

/// Calls `str::parse` for `i64`, dropping the error. The result depends on
/// the text alone.
#[verifier::external_body]
pub(crate) fn parse_i64(text: &str) -> (r: Option<i64>)
    ensures
        r == decimal_i64(text@),
{
    match text.parse::<i64>() {
        Ok(number) => Some(number),
        Err(_) => None,
    }
}

} // verus!
