//! The decoders: reading a value string under each of the four encodings
//! into the canonical number.

use vstd::prelude::*;
use vstd::string::StrSliceExecFns;

use crate::codes::{lookup_codeword, spec_lookup, Encoding};
use crate::digit::Digit;
use crate::errors::{ConvertError, ErrorModel};
use crate::number::{parse_result_view, Decimal, DecimalModel};

verus! {

/// Whether a character is accepted as the decimal separator.
pub open spec fn is_sep_char(c: char) -> bool {
    c == '.' || c == ','
}

/// One step per character of the decimal scan: from position `i`, with
/// `frac` telling whether the separator was already seen and `m` holding
/// the digits read so far.
///
/// The first '.' or ',' switches accumulation to the fractional part; any
/// later one is an ordinary — and therefore invalid — character.
pub open spec fn parse_decimal_rec(s: Seq<char>, i: int, frac: bool, m: DecimalModel) -> Result<
    DecimalModel,
    ErrorModel,
>
    decreases s.len() - i,
{
    if i < 0 || i >= s.len() {
        Ok(m)
    } else {
        let c = s[i];
        if !frac && is_sep_char(c) {
            parse_decimal_rec(s, i + 1, true, m)
        } else {
            match Digit::spec_of_char(c) {
                Some(d) => if frac {
                    parse_decimal_rec(
                        s,
                        i + 1,
                        frac,
                        DecimalModel { digits: m.digits, fracs: m.fracs.push(d) },
                    )
                } else {
                    parse_decimal_rec(
                        s,
                        i + 1,
                        frac,
                        DecimalModel { digits: m.digits.push(d), fracs: m.fracs },
                    )
                },
                None => Err(ErrorModel::InvalidDigit { ch: c, pos: i }),
            }
        }
    }
}

/// What `parse_decimal` returns on a given character sequence.
pub open spec fn parse_decimal_spec(s: Seq<char>) -> Result<DecimalModel, ErrorModel> {
    parse_decimal_rec(s, 0, false, DecimalModel::empty())
}

/// Reads a plain decimal value, character by character.
///
/// The first '.' or ',' is consumed as the decimal separator; every other
/// character must be a digit, or the whole call fails with `InvalidDigit`
/// naming the character and its position. Empty input yields a number with
/// both parts empty.
pub fn parse_decimal(value: &str) -> (r: Result<Decimal, ConvertError>)
    ensures
        parse_result_view(r) == parse_decimal_spec(value@),
{
    let n = value.unicode_len();
    let mut digits: Vec<Digit> = Vec::new();
    let mut digits_fractional: Vec<Digit> = Vec::new();
    let mut fractional = false;
    let mut i: usize = 0;
    while i < n
        invariant
            n == value@.len(),
            i <= n,
            parse_decimal_spec(value@) == parse_decimal_rec(
                value@,
                i as int,
                fractional,
                DecimalModel { digits: digits@, fracs: digits_fractional@ },
            ),
        decreases n - i,
    {
        let c = value.get_char(i);
        if !fractional && (c == '.' || c == ',') {
            fractional = true;
        } else {
            match Digit::of_char(c) {
                Some(d) => {
                    if fractional {
                        digits_fractional.push(d);
                    } else {
                        digits.push(d);
                    }
                },
                None => {
                    return Err(ConvertError::InvalidDigit { ch: c, pos: i });
                },
            }
        }
        i += 1;
    }
    Ok(Decimal { digits, digits_fractional })
}

/// Closes the token gathered since the last space: an empty token is
/// skipped, a first "." switches to the fractional part, and anything else
/// must be a codeword of the table or the parse fails with
/// `InvalidCodeword` naming the token.
pub open spec fn spec_finish_token(
    cur: Seq<char>,
    frac: bool,
    m: DecimalModel,
    enc: Encoding,
) -> Result<(bool, DecimalModel), ErrorModel> {
    if cur.len() == 0 {
        Ok((frac, m))
    } else if !frac && cur == seq!['.'] {
        Ok((true, m))
    } else {
        match spec_lookup(enc, cur) {
            Some(d) => if frac {
                Ok((frac, DecimalModel { digits: m.digits, fracs: m.fracs.push(d) }))
            } else {
                Ok((frac, DecimalModel { digits: m.digits.push(d), fracs: m.fracs }))
            },
            None => Err(ErrorModel::InvalidCodeword { token: cur }),
        }
    }
}

/// One step per character of the binary-code scan: tokens are the maximal
/// space-free runs, `cur` the run gathered since the last space.
pub open spec fn parse_code_rec(
    s: Seq<char>,
    i: int,
    cur: Seq<char>,
    frac: bool,
    m: DecimalModel,
    enc: Encoding,
) -> Result<DecimalModel, ErrorModel>
    decreases s.len() - i,
{
    if i < 0 || i >= s.len() {
        match spec_finish_token(cur, frac, m, enc) {
            Ok(p) => Ok(p.1),
            Err(e) => Err(e),
        }
    } else if s[i] == ' ' {
        match spec_finish_token(cur, frac, m, enc) {
            Ok(p) => parse_code_rec(s, i + 1, Seq::empty(), p.0, p.1, enc),
            Err(e) => Err(e),
        }
    } else {
        parse_code_rec(s, i + 1, cur.push(s[i]), frac, m, enc)
    }
}

/// What `parse_code` returns on a given character sequence.
pub open spec fn parse_code_spec(s: Seq<char>, enc: Encoding) -> Result<DecimalModel, ErrorModel> {
    parse_code_rec(s, 0, Seq::empty(), false, DecimalModel::empty(), enc)
}

/// Closes one token of the scan, updating the separator state and the
/// digits read so far exactly as [`spec_finish_token`] says.
fn finish_token(
    value: &str,
    start: usize,
    end: usize,
    fractional: &mut bool,
    digits: &mut Vec<Digit>,
    digits_fractional: &mut Vec<Digit>,
    enc: Encoding,
) -> (r: Result<(), ConvertError>)
    requires
        start <= end <= value@.len(),
    ensures
        ({
            let res = spec_finish_token(
                value@.subrange(start as int, end as int),
                *old(fractional),
                DecimalModel { digits: old(digits)@, fracs: old(digits_fractional)@ },
                enc,
            );
            match r {
                Ok(_) => res == Ok::<_, ErrorModel>(
                    (
                        *final(fractional),
                        DecimalModel { digits: final(digits)@, fracs: final(digits_fractional)@ },
                    ),
                ),
                Err(e) => res == Err::<(bool, DecimalModel), _>(e@),
            }
        }),
{
    let ghost cur = value@.subrange(start as int, end as int);
    if start == end {
        return Ok(());
    }
    let tok = value.substring_char(start, end);
    if !*fractional && end - start == 1 && tok.get_char(0) == '.' {
        proof {
            assert(cur =~= seq!['.']);
        }
        *fractional = true;
        return Ok(());
    }
    proof {
        if cur.len() == 1 && cur[0] == '.' {
            assert(cur =~= seq!['.']);
        } else {
            assert(cur != seq!['.']);
        }
    }
    match lookup_codeword(enc, tok) {
        Some(d) => {
            if *fractional {
                digits_fractional.push(d);
            } else {
                digits.push(d);
            }
            Ok(())
        },
        None => Err(ConvertError::InvalidCodeword { token: tok.to_owned() }),
    }
}

/// The shared binary-code decoder: splits the value at spaces into tokens
/// and reads each one back through the encoding's code table, with the
/// same first-"." separator convention as the decimal decoder.
pub fn parse_code(value: &str, enc: Encoding) -> (r: Result<Decimal, ConvertError>)
    ensures
        parse_result_view(r) == parse_code_spec(value@, enc),
{
    let n = value.unicode_len();
    let mut digits: Vec<Digit> = Vec::new();
    let mut digits_fractional: Vec<Digit> = Vec::new();
    let mut fractional = false;
    let mut start: usize = 0;
    let mut i: usize = 0;
    proof {
        assert(value@.subrange(0, 0) =~= Seq::<char>::empty());
    }
    while i < n
        invariant
            n == value@.len(),
            i <= n,
            start <= i,
            parse_code_spec(value@, enc) == parse_code_rec(
                value@,
                i as int,
                value@.subrange(start as int, i as int),
                fractional,
                DecimalModel { digits: digits@, fracs: digits_fractional@ },
                enc,
            ),
        decreases n - i,
    {
        let c = value.get_char(i);
        if c == ' ' {
            match finish_token(value, start, i, &mut fractional, &mut digits, &mut digits_fractional, enc) {
                Ok(()) => {},
                Err(e) => {
                    return Err(e);
                },
            }
            start = i + 1;
            proof {
                assert(value@.subrange(start as int, i + 1) =~= Seq::<char>::empty());
            }
        } else {
            proof {
                assert(value@.subrange(start as int, i + 1) =~= value@.subrange(
                    start as int,
                    i as int,
                ).push(value@[i as int]));
            }
        }
        i += 1;
    }
    match finish_token(value, start, n, &mut fractional, &mut digits, &mut digits_fractional, enc) {
        Ok(()) => Ok(Decimal { digits, digits_fractional }),
        Err(e) => Err(e),
    }
}

/// Reads a BCD (8421) value: space-separated 4-character codewords.
pub fn parse_bcd(value: &str) -> (r: Result<Decimal, ConvertError>)
    ensures
        parse_result_view(r) == parse_code_spec(value@, Encoding::Bcd),
{
    parse_code(value, Encoding::Bcd)
}

/// Reads an Aiken (2421) value: space-separated 4-character codewords.
pub fn parse_aiken(value: &str) -> (r: Result<Decimal, ConvertError>)
    ensures
        parse_result_view(r) == parse_code_spec(value@, Encoding::Aiken),
{
    parse_code(value, Encoding::Aiken)
}

/// Reads a Stibitz (excess-3) value: space-separated 4-character codewords.
pub fn parse_stibitz(value: &str) -> (r: Result<Decimal, ConvertError>)
    ensures
        parse_result_view(r) == parse_code_spec(value@, Encoding::Stibitz),
{
    parse_code(value, Encoding::Stibitz)
}

} // verus!
