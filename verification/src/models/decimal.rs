//! Decimal amounts of any size, and the text they are shown as.

use bigdecimal::num_bigint::BigInt;
use bigdecimal::BigDecimal;
use vstd::prelude::*;

verus! {

/// The text that `bigdecimal` prints for a decimal, as a function of the
/// two's-complement big-endian bytes of its unscaled integer and of its
/// scale. The crate fixes its formatting thresholds when it is built, so the
/// text of a value is the same on every call.
pub uninterp spec fn decimal_text(unscaled: Seq<u8>, scale: i64) -> Seq<char>;

/// A decimal amount: the integer `unscaled`, written as two's-complement
/// big-endian bytes, times ten to the power of `-scale`. Any bytes and any
/// scale form an amount; no bytes at all stand for zero.
#[derive(Debug, PartialEq, Eq)]
pub struct Decimal {
    pub unscaled: Vec<u8>,
    pub scale: i64,
}

/// What a [`Decimal`] holds, as mathematical values.
pub struct DecimalModel {
    pub unscaled: Seq<u8>,
    pub scale: i64,
}

impl DecimalModel {
    /// The text that the amount is shown as.
    pub open spec fn text(self) -> Seq<char> {
        decimal_text(self.unscaled, self.scale)
    }
}

impl View for Decimal {
    type V = DecimalModel;

    open spec fn view(&self) -> DecimalModel {
        DecimalModel { unscaled: self.unscaled@, scale: self.scale }
    }
}

impl Clone for Decimal {
    fn clone(&self) -> (r: Self)
        ensures
            r@ == self@,
    {
        Decimal { unscaled: self.unscaled.clone(), scale: self.scale }
    }
}

impl Decimal {
    /// The amount with the given unscaled bytes and scale.
    pub fn new(unscaled: Vec<u8>, scale: i64) -> (r: Self)
        ensures
            r@ == (DecimalModel { unscaled: unscaled@, scale }),
    {
        Decimal { unscaled, scale }
    }

    /// The amount as text, digit for digit: nothing is rounded.
    pub fn to_text(&self) -> (r: String)
        ensures
            r@ == self@.text(),
    {
        render_decimal(&self.unscaled, self.scale)
    }
}

/// Calls `BigInt::from_signed_bytes_be`, `BigDecimal::new` and the
/// `to_string` of `BigDecimal`'s `Display`. Trusted: the text returned is the
/// one that `bigdecimal` prints for these bytes and this scale.
#[verifier::external_body]
fn render_decimal(unscaled: &Vec<u8>, scale: i64) -> (r: String)
    ensures
        r@ == decimal_text(unscaled@, scale),
{
    BigDecimal::new(BigInt::from_signed_bytes_be(unscaled), scale).to_string()
}

} // verus!
