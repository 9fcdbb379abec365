//! The encoders: rendering a canonical number under each of the four
//! encodings.

use vstd::prelude::*;
use vstd::string::StringExecFns;

use crate::codes::{codeword, spec_token, Encoding};
use crate::digit::Digit;
use crate::number::{Decimal, DecimalModel};

verus! {

/// The elements of `parts` in order, with one copy of `sep` between each
/// adjacent pair; empty when `parts` is empty.
pub open spec fn join_spec(parts: Seq<Seq<char>>, sep: Seq<char>) -> Seq<char>
    decreases parts.len(),
{
    if parts.len() == 0 {
        Seq::empty()
    } else if parts.len() == 1 {
        parts[0]
    } else {
        join_spec(parts.drop_last(), sep) + sep + parts.last()
    }
}

/// The character sequences of a sequence of strings.
pub open spec fn views_of(ts: Seq<String>) -> Seq<Seq<char>> {
    ts.map_values(|t: String| t@)
}

/// Relies on `itertools::join`: the result holds the elements in order with
/// one copy of the separator between each adjacent pair, and is empty when
/// there are no elements.
#[verifier::external_body]
pub(crate) fn join_strings(tokens: &Vec<String>, sep: &str) -> (r: String)
    ensures
        r@ == join_spec(views_of(tokens@), sep@),
{
    itertools::join(tokens.iter(), sep)
}

/// The codewords of a digit sequence under an encoding, in order.
pub open spec fn spec_digit_tokens(digits: Seq<Digit>, enc: Encoding) -> Seq<Seq<char>> {
    digits.map_values(|d: Digit| spec_token(enc, d))
}

/// The token sequence an encoder emits: the integer-part codewords, then —
/// only when the fractional part is non-empty — a lone "." token and the
/// fractional-part codewords.
pub open spec fn spec_tokens(m: DecimalModel, enc: Encoding) -> Seq<Seq<char>> {
    if m.fracs.len() == 0 {
        spec_digit_tokens(m.digits, enc)
    } else {
        spec_digit_tokens(m.digits, enc) + seq![seq!['.']] + spec_digit_tokens(m.fracs, enc)
    }
}

/// The full rendering of a number under an encoding: its token sequence
/// joined with single spaces.
pub open spec fn spec_format(m: DecimalModel, enc: Encoding) -> Seq<char> {
    join_spec(spec_tokens(m, enc), seq![' '])
}

/// Appends the codewords of `digits` to `tokens`.
fn push_digit_tokens(tokens: &mut Vec<String>, digits: &Vec<Digit>, enc: Encoding)
    ensures
        final(tokens)@.len() == old(tokens)@.len() + digits@.len(),
        forall|j: int|
            0 <= j < old(tokens)@.len() ==> final(tokens)@[j] == old(tokens)@[j],
        forall|j: int|
            0 <= j < digits@.len() ==> final(tokens)@[old(tokens)@.len() + j]@ == spec_token(
                enc,
                digits@[j],
            ),
{
    let n = digits.len();
    let mut i: usize = 0;
    while i < n
        invariant
            n == digits@.len(),
            i <= n,
            tokens@.len() == old(tokens)@.len() + i,
            forall|j: int| 0 <= j < old(tokens)@.len() ==> tokens@[j] == old(tokens)@[j],
            forall|j: int|
                0 <= j < i ==> tokens@[old(tokens)@.len() + j]@ == spec_token(enc, digits@[j]),
        decreases n - i,
    {
        tokens.push(String::from_str(codeword(enc, digits[i])));
        i += 1;
    }
}

impl Decimal {
    /// The shared rendering routine: maps every digit through the
    /// encoding's code table and space-joins the tokens, with a lone "."
    /// token before the fractional part when that part is non-empty.
    pub fn format_specified(&self, enc: Encoding) -> (r: String)
        ensures
            r@ == spec_format(self@, enc),
    {
        let mut tokens: Vec<String> = Vec::new();
        push_digit_tokens(&mut tokens, &self.digits, enc);
        if self.digits_fractional.len() > 0 {
            proof {
                reveal_strlit(".");
                assert("."@ =~= seq!['.']);
            }
            tokens.push(String::from_str("."));
            push_digit_tokens(&mut tokens, &self.digits_fractional, enc);
        }
        proof {
            reveal_strlit(" ");
            assert(" "@ =~= seq![' ']);
            assert(views_of(tokens@) =~= spec_tokens(self@, enc));
        }
        join_strings(&tokens, " ")
    }

    /// Renders the number in plain decimal.
    pub fn format_decimal(&self) -> (r: String)
        ensures
            r@ == spec_format(self@, Encoding::Decimal),
    {
        self.format_specified(Encoding::Decimal)
    }

    /// Renders the number in BCD (8421).
    pub fn format_bcd(&self) -> (r: String)
        ensures
            r@ == spec_format(self@, Encoding::Bcd),
    {
        self.format_specified(Encoding::Bcd)
    }

    /// Renders the number in Aiken code (2421).
    pub fn format_aiken(&self) -> (r: String)
        ensures
            r@ == spec_format(self@, Encoding::Aiken),
    {
        self.format_specified(Encoding::Aiken)
    }

    /// Renders the number in Stibitz code (excess-3).
    pub fn format_stibitz(&self) -> (r: String)
        ensures
            r@ == spec_format(self@, Encoding::Stibitz),
    {
        self.format_specified(Encoding::Stibitz)
    }
}

/// Renders a number under all four encodings, in the fixed order decimal,
/// BCD, Aiken, Stibitz.
pub fn convert(number: &Decimal) -> (r: (String, String, String, String))
    ensures
        r.0@ == spec_format(number@, Encoding::Decimal),
        r.1@ == spec_format(number@, Encoding::Bcd),
        r.2@ == spec_format(number@, Encoding::Aiken),
        r.3@ == spec_format(number@, Encoding::Stibitz),
{
    (number.format_decimal(), number.format_bcd(), number.format_aiken(), number.format_stibitz())
}

} // verus!
