use vstd::prelude::*;
use crate::sensitive::SensitiveValue;

verus! {

/// A form field's text does not read as the expected type. This is a
/// validation failure, not an authorization one.
#[derive(Debug, PartialEq, Eq, Structural)]
pub struct ConversionFailure;

/// The text without its leading `+`, if it has one.
pub open spec fn unsigned_digits(s: Seq<char>) -> Seq<char> {
    if s.len() > 0 && s[0] == '+' { s.drop_first() } else { s }
}

/// Every character is a decimal digit.
pub open spec fn all_digits(s: Seq<char>) -> bool {
    forall|i: int| 0 <= i < s.len() ==> '0' <= #[trigger] s[i] && s[i] <= '9'
}

/// The number that a string of decimal digits writes.
pub open spec fn digits_value(s: Seq<char>) -> int
    decreases s.len(),
{
    if s.len() == 0 {
        0
    } else {
        digits_value(s.drop_last()) * 10 + (s.last() as int - '0' as int)
    }
}

/// The text writes a `u64`: an optional `+`, then at least one digit, and a
/// value that fits.
pub open spec fn is_u64_text(s: Seq<char>) -> bool {
    let d = unsigned_digits(s);
    d.len() > 0 && all_digits(d) && digits_value(d) <= u64::MAX
}

/// Relies on std's `FromStr` for `u64`: it accepts an optional `+` followed
/// by decimal digits whose value fits, and nothing else.
#[verifier::external_body]
fn parse_u64(text: &str) -> (r: Option<u64>)
    ensures
        r is Some <==> is_u64_text(text@),
        r matches Some(n) ==> n as int == digits_value(unsigned_digits(text@)),
{
    text.parse::<u64>().ok()
}

/// Protects a number given in a form field.
pub fn number_field(text: &str) -> (r: Result<SensitiveValue<u64>, ConversionFailure>)
    ensures
        r is Ok <==> is_u64_text(text@),
        r matches Ok(v) ==> v.inner() as int == digits_value(unsigned_digits(text@)),
{
    match parse_u64(text) {
        Some(n) => Ok(SensitiveValue::wrap(n)),
        None => Err(ConversionFailure),
    }
}

/// Protects the text given in a form field.
pub fn text_field(text: &str) -> (r: SensitiveValue<String>)
    ensures
        r.inner()@ == text@,
{
    SensitiveValue::wrap(text.to_owned())
}

} // verus!
