//! The canonical number: the sole intermediate form between decoders and
//! encoders.

use vstd::prelude::*;

use crate::digit::Digit;
use crate::errors::{ConvertError, ErrorModel};

verus! {

/// A decimal number as two digit sequences: the integer part
/// (most-significant digit first) and the fractional part (first digit after
/// the separator first).
///
/// Either sequence may be empty. Digits are stored exactly as parsed: no
/// sign, no normalization of leading or trailing zeros.
#[derive(Clone, Debug)]
pub struct Decimal {
    pub digits: Vec<Digit>,
    pub digits_fractional: Vec<Digit>,
}

/// The mathematical model of a [`Decimal`]: the two digit sequences.
#[verifier::ext_equal]
pub ghost struct DecimalModel {
    pub digits: Seq<Digit>,
    pub fracs: Seq<Digit>,
}

impl DecimalModel {
    /// The model with both parts empty.
    pub open spec fn empty() -> DecimalModel {
        DecimalModel { digits: Seq::empty(), fracs: Seq::empty() }
    }
}

impl View for Decimal {
    type V = DecimalModel;

    open spec fn view(&self) -> DecimalModel {
        DecimalModel { digits: self.digits@, fracs: self.digits_fractional@ }
    }
}

/// Compares two digit vectors element by element.
fn digit_vec_eq(a: &Vec<Digit>, b: &Vec<Digit>) -> (r: bool)
    ensures
        r == (a@ == b@),
{
    if a.len() != b.len() {
        return false;
    }
    let n = a.len();
    let mut i: usize = 0;
    while i < n
        invariant
            n == a.len() == b.len(),
            i <= n,
            forall|j: int| 0 <= j < i ==> a@[j] == b@[j],
        decreases n - i,
    {
        if a[i] != b[i] {
            return false;
        }
        i += 1;
    }
    proof {
        assert(a@ =~= b@);
    }
    true
}

impl PartialEq for Decimal {
    /// Two numbers are equal when both digit sequences agree.
    fn eq(&self, other: &Decimal) -> (r: bool) {
        digit_vec_eq(&self.digits, &other.digits) && digit_vec_eq(
            &self.digits_fractional,
            &other.digits_fractional,
        )
    }
}

impl vstd::std_specs::cmp::PartialEqSpecImpl for Decimal {
    open spec fn obeys_eq_spec() -> bool {
        true
    }

    open spec fn eq_spec(&self, other: &Decimal) -> bool {
        self.digits@ == other.digits@ && self.digits_fractional@ == other.digits_fractional@
    }
}

/// The model of a parse result: the parsed number's model on success, the
/// error's model on failure.
pub open spec fn parse_result_view(r: Result<Decimal, ConvertError>) -> Result<
    DecimalModel,
    ErrorModel,
> {
    match r {
        Ok(d) => Ok(d@),
        Err(e) => Err(e@),
    }
}

} // verus!
