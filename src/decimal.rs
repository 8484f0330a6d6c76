use vstd::prelude::*;
use rust_decimal::Decimal;
use std::str::FromStr;
use crate::money::{pow10, MAX_PARTS_SCALE, MAX_UNITS};
use crate::text::{decimal_digits, padded_digits};

verus! {

/// The mantissa and scale of the decimal a text names, if it names one.
pub uninterp spec fn decimal_parsed(s: Seq<char>) -> Option<(i128, u32)>;

/// The text of the decimal `mantissa * 10^-scale`: a minus sign when it is
/// negative, the whole part without leading zeros (`0` when it is zero),
/// then, when the scale is positive, a point and exactly `scale` digits.
pub open spec fn decimal_text_of(mantissa: i128, scale: u32) -> Seq<char> {
    let a: int = if mantissa < 0 {
        -mantissa
    } else {
        mantissa as int
    };
    let p = pow10(scale as nat);
    (if mantissa < 0 {
        seq!['-']
    } else {
        Seq::empty()
    }) + decimal_digits((a / p) as nat) + if scale > 0 {
        seq!['.'] + padded_digits((a % p) as nat, scale as nat)
    } else {
        Seq::empty()
    }
}

/// Relies on rust_decimal's `Decimal::from_str`, read back through
/// `Decimal::mantissa` and `Decimal::scale`; the parts depend on the text alone.
#[verifier::external_body]
pub(crate) fn parse_decimal(s: &str) -> (r: Option<(i128, u32)>)
    ensures
        r == decimal_parsed(s@),
{
    match Decimal::from_str(s) {
        Ok(d) => Some((d.mantissa(), d.scale())),
        Err(_) => None,
    }
}

/// Relies on rust_decimal's `Decimal::from_i128_with_scale` and its
/// `Display` without a precision, which writes the digits above. The constructor panics on a mantissa beyond 96 bits or a scale
/// above 28, which `requires` rules out.
#[verifier::external_body]
pub(crate) fn decimal_text(mantissa: i128, scale: u32) -> (r: String)
    requires
        -MAX_UNITS <= mantissa <= MAX_UNITS,
        scale <= MAX_PARTS_SCALE,
    ensures
        r@ == decimal_text_of(mantissa, scale),
{
    Decimal::from_i128_with_scale(mantissa, scale).to_string()
}

} // verus!
