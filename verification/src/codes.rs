//! The four digit-level encodings and their fixed per-digit code tables.

use vstd::prelude::*;
use vstd::string::StrSliceExecFns;

use crate::digit::Digit;

verus! {

/// The closed set of supported encodings.
#[derive(Clone, Copy, Debug, PartialEq, Eq, Structural)]
pub enum Encoding {
    /// Plain decimal: one ASCII digit character per digit.
    Decimal,
    /// Binary-coded decimal, 8421 weighting.
    Bcd,
    /// Aiken code, 2421 weighting.
    Aiken,
    /// Stibitz code, excess-3.
    Stibitz,
}

/// The ASCII character of a digit.
pub open spec fn spec_digit_char(d: Digit) -> char {
    match d {
        Digit::Zero => '0',
        Digit::One => '1',
        Digit::Two => '2',
        Digit::Three => '3',
        Digit::Four => '4',
        Digit::Five => '5',
        Digit::Six => '6',
        Digit::Seven => '7',
        Digit::Eight => '8',
        Digit::Nine => '9',
    }
}

/// The codeword of a digit under an encoding, as the exact character
/// sequence the encoder emits: one character for `Decimal`, four binary
/// characters for the three binary codes.
pub open spec fn spec_token(enc: Encoding, d: Digit) -> Seq<char> {
    match enc {
        Encoding::Decimal => seq![spec_digit_char(d)],
        Encoding::Bcd => match d {
            Digit::Zero => seq!['0', '0', '0', '0'],
            Digit::One => seq!['0', '0', '0', '1'],
            Digit::Two => seq!['0', '0', '1', '0'],
            Digit::Three => seq!['0', '0', '1', '1'],
            Digit::Four => seq!['0', '1', '0', '0'],
            Digit::Five => seq!['0', '1', '0', '1'],
            Digit::Six => seq!['0', '1', '1', '0'],
            Digit::Seven => seq!['0', '1', '1', '1'],
            Digit::Eight => seq!['1', '0', '0', '0'],
            Digit::Nine => seq!['1', '0', '0', '1'],
        },
        Encoding::Aiken => match d {
            Digit::Zero => seq!['0', '0', '0', '0'],
            Digit::One => seq!['0', '0', '0', '1'],
            Digit::Two => seq!['0', '0', '1', '0'],
            Digit::Three => seq!['0', '0', '1', '1'],
            Digit::Four => seq!['0', '1', '0', '0'],
            Digit::Five => seq!['1', '0', '1', '1'],
            Digit::Six => seq!['1', '1', '0', '0'],
            Digit::Seven => seq!['1', '1', '0', '1'],
            Digit::Eight => seq!['1', '1', '1', '0'],
            Digit::Nine => seq!['1', '1', '1', '1'],
        },
        Encoding::Stibitz => match d {
            Digit::Zero => seq!['0', '0', '1', '1'],
            Digit::One => seq!['0', '1', '0', '0'],
            Digit::Two => seq!['0', '1', '0', '1'],
            Digit::Three => seq!['0', '1', '1', '0'],
            Digit::Four => seq!['0', '1', '1', '1'],
            Digit::Five => seq!['1', '0', '0', '0'],
            Digit::Six => seq!['1', '0', '0', '1'],
            Digit::Seven => seq!['1', '0', '1', '0'],
            Digit::Eight => seq!['1', '0', '1', '1'],
            Digit::Nine => seq!['1', '1', '0', '0'],
        },
    }
}

/// The codeword of a digit under an encoding, one table entry per pair.
pub fn codeword(enc: Encoding, d: Digit) -> (r: &'static str)
    ensures
        r@ == spec_token(enc, d),
{
    match enc {
        Encoding::Decimal => match d {
            Digit::Zero => {
                proof {
                    reveal_strlit("0");
                    assert("0"@ =~= spec_token(enc, d));
                }
                "0"
            },
            Digit::One => {
                proof {
                    reveal_strlit("1");
                    assert("1"@ =~= spec_token(enc, d));
                }
                "1"
            },
            Digit::Two => {
                proof {
                    reveal_strlit("2");
                    assert("2"@ =~= spec_token(enc, d));
                }
                "2"
            },
            Digit::Three => {
                proof {
                    reveal_strlit("3");
                    assert("3"@ =~= spec_token(enc, d));
                }
                "3"
            },
            Digit::Four => {
                proof {
                    reveal_strlit("4");
                    assert("4"@ =~= spec_token(enc, d));
                }
                "4"
            },
            Digit::Five => {
                proof {
                    reveal_strlit("5");
                    assert("5"@ =~= spec_token(enc, d));
                }
                "5"
            },
            Digit::Six => {
                proof {
                    reveal_strlit("6");
                    assert("6"@ =~= spec_token(enc, d));
                }
                "6"
            },
            Digit::Seven => {
                proof {
                    reveal_strlit("7");
                    assert("7"@ =~= spec_token(enc, d));
                }
                "7"
            },
            Digit::Eight => {
                proof {
                    reveal_strlit("8");
                    assert("8"@ =~= spec_token(enc, d));
                }
                "8"
            },
            Digit::Nine => {
                proof {
                    reveal_strlit("9");
                    assert("9"@ =~= spec_token(enc, d));
                }
                "9"
            },
        },
        Encoding::Bcd => match d {
            Digit::Zero => {
                proof {
                    reveal_strlit("0000");
                    assert("0000"@ =~= spec_token(enc, d));
                }
                "0000"
            },
            Digit::One => {
                proof {
                    reveal_strlit("0001");
                    assert("0001"@ =~= spec_token(enc, d));
                }
                "0001"
            },
            Digit::Two => {
                proof {
                    reveal_strlit("0010");
                    assert("0010"@ =~= spec_token(enc, d));
                }
                "0010"
            },
            Digit::Three => {
                proof {
                    reveal_strlit("0011");
                    assert("0011"@ =~= spec_token(enc, d));
                }
                "0011"
            },
            Digit::Four => {
                proof {
                    reveal_strlit("0100");
                    assert("0100"@ =~= spec_token(enc, d));
                }
                "0100"
            },
            Digit::Five => {
                proof {
                    reveal_strlit("0101");
                    assert("0101"@ =~= spec_token(enc, d));
                }
                "0101"
            },
            Digit::Six => {
                proof {
                    reveal_strlit("0110");
                    assert("0110"@ =~= spec_token(enc, d));
                }
                "0110"
            },
            Digit::Seven => {
                proof {
                    reveal_strlit("0111");
                    assert("0111"@ =~= spec_token(enc, d));
                }
                "0111"
            },
            Digit::Eight => {
                proof {
                    reveal_strlit("1000");
                    assert("1000"@ =~= spec_token(enc, d));
                }
                "1000"
            },
            Digit::Nine => {
                proof {
                    reveal_strlit("1001");
                    assert("1001"@ =~= spec_token(enc, d));
                }
                "1001"
            },
        },
        Encoding::Aiken => match d {
            Digit::Zero => {
                proof {
                    reveal_strlit("0000");
                    assert("0000"@ =~= spec_token(enc, d));
                }
                "0000"
            },
            Digit::One => {
                proof {
                    reveal_strlit("0001");
                    assert("0001"@ =~= spec_token(enc, d));
                }
                "0001"
            },
            Digit::Two => {
                proof {
                    reveal_strlit("0010");
                    assert("0010"@ =~= spec_token(enc, d));
                }
                "0010"
            },
            Digit::Three => {
                proof {
                    reveal_strlit("0011");
                    assert("0011"@ =~= spec_token(enc, d));
                }
                "0011"
            },
            Digit::Four => {
                proof {
                    reveal_strlit("0100");
                    assert("0100"@ =~= spec_token(enc, d));
                }
                "0100"
            },
            Digit::Five => {
                proof {
                    reveal_strlit("1011");
                    assert("1011"@ =~= spec_token(enc, d));
                }
                "1011"
            },
            Digit::Six => {
                proof {
                    reveal_strlit("1100");
                    assert("1100"@ =~= spec_token(enc, d));
                }
                "1100"
            },
            Digit::Seven => {
                proof {
                    reveal_strlit("1101");
                    assert("1101"@ =~= spec_token(enc, d));
                }
                "1101"
            },
            Digit::Eight => {
                proof {
                    reveal_strlit("1110");
                    assert("1110"@ =~= spec_token(enc, d));
                }
                "1110"
            },
            Digit::Nine => {
                proof {
                    reveal_strlit("1111");
                    assert("1111"@ =~= spec_token(enc, d));
                }
                "1111"
            },
        },
        Encoding::Stibitz => match d {
            Digit::Zero => {
                proof {
                    reveal_strlit("0011");
                    assert("0011"@ =~= spec_token(enc, d));
                }
                "0011"
            },
            Digit::One => {
                proof {
                    reveal_strlit("0100");
                    assert("0100"@ =~= spec_token(enc, d));
                }
                "0100"
            },
            Digit::Two => {
                proof {
                    reveal_strlit("0101");
                    assert("0101"@ =~= spec_token(enc, d));
                }
                "0101"
            },
            Digit::Three => {
                proof {
                    reveal_strlit("0110");
                    assert("0110"@ =~= spec_token(enc, d));
                }
                "0110"
            },
            Digit::Four => {
                proof {
                    reveal_strlit("0111");
                    assert("0111"@ =~= spec_token(enc, d));
                }
                "0111"
            },
            Digit::Five => {
                proof {
                    reveal_strlit("1000");
                    assert("1000"@ =~= spec_token(enc, d));
                }
                "1000"
            },
            Digit::Six => {
                proof {
                    reveal_strlit("1001");
                    assert("1001"@ =~= spec_token(enc, d));
                }
                "1001"
            },
            Digit::Seven => {
                proof {
                    reveal_strlit("1010");
                    assert("1010"@ =~= spec_token(enc, d));
                }
                "1010"
            },
            Digit::Eight => {
                proof {
                    reveal_strlit("1011");
                    assert("1011"@ =~= spec_token(enc, d));
                }
                "1011"
            },
            Digit::Nine => {
                proof {
                    reveal_strlit("1100");
                    assert("1100"@ =~= spec_token(enc, d));
                }
                "1100"
            },
        },
    }
}

/// Whether a character is one of the two binary digits.
pub open spec fn is_bit_char(c: char) -> bool {
    c == '0' || c == '1'
}

/// The numeric weight of a binary character: '1' counts one, '0' nothing.
pub open spec fn spec_bit(c: char) -> int {
    if c == '1' {
        1
    } else {
        0
    }
}

/// The value of a 4-character binary codeword, most significant bit first.
pub open spec fn spec_nibble(t: Seq<char>) -> int
    recommends
        t.len() == 4,
{
    8 * spec_bit(t[0]) + 4 * spec_bit(t[1]) + 2 * spec_bit(t[2]) + spec_bit(t[3])
}

/// The digit of a numeric value in `[0, 9]`.
pub open spec fn spec_digit_of_int(v: int) -> Digit
    recommends
        0 <= v <= 9,
{
    if v == 0 {
        Digit::Zero
    } else if v == 1 {
        Digit::One
    } else if v == 2 {
        Digit::Two
    } else if v == 3 {
        Digit::Three
    } else if v == 4 {
        Digit::Four
    } else if v == 5 {
        Digit::Five
    } else if v == 6 {
        Digit::Six
    } else if v == 7 {
        Digit::Seven
    } else if v == 8 {
        Digit::Eight
    } else {
        Digit::Nine
    }
}

/// The reverse lookup of a token against an encoding's code table: the digit
/// whose codeword the token is, or `None` when the token is not a codeword
/// of the table.
///
/// For the three binary codes the table's inverse is expressed on the
/// codeword's numeric value: exactly the ten values used by the table map
/// back to a digit.
pub open spec fn spec_lookup(enc: Encoding, tok: Seq<char>) -> Option<Digit> {
    match enc {
        Encoding::Decimal => if tok.len() == 1 {
            Digit::spec_of_char(tok[0])
        } else {
            None
        },
        Encoding::Bcd | Encoding::Aiken | Encoding::Stibitz => if tok.len() == 4 && is_bit_char(
            tok[0],
        ) && is_bit_char(tok[1]) && is_bit_char(tok[2]) && is_bit_char(tok[3]) {
            let v = spec_nibble(tok);
            match enc {
                Encoding::Bcd => if v <= 9 {
                    Some(spec_digit_of_int(v))
                } else {
                    None
                },
                Encoding::Aiken => if v <= 4 {
                    Some(spec_digit_of_int(v))
                } else if 11 <= v {
                    Some(spec_digit_of_int(v - 6))
                } else {
                    None
                },
                Encoding::Stibitz => if 3 <= v <= 12 {
                    Some(spec_digit_of_int(v - 3))
                } else {
                    None
                },
                Encoding::Decimal => None,
            }
        } else {
            None
        },
    }
}

/// One bit of a codeword character; `None` for a character outside '0'/'1'.
fn bit_of_char(c: char) -> (r: Option<usize>)
    ensures
        r is Some <==> is_bit_char(c),
        r is Some ==> r->Some_0 == spec_bit(c),
{
    if c == '0' {
        Some(0)
    } else if c == '1' {
        Some(1)
    } else {
        None
    }
}

/// The digit of a numeric value in `[0, 9]`.
fn digit_of_value(v: usize) -> (d: Digit)
    requires
        v <= 9,
    ensures
        d == spec_digit_of_int(v as int),
{
    if v == 0 {
        Digit::Zero
    } else if v == 1 {
        Digit::One
    } else if v == 2 {
        Digit::Two
    } else if v == 3 {
        Digit::Three
    } else if v == 4 {
        Digit::Four
    } else if v == 5 {
        Digit::Five
    } else if v == 6 {
        Digit::Six
    } else if v == 7 {
        Digit::Seven
    } else if v == 8 {
        Digit::Eight
    } else {
        Digit::Nine
    }
}

/// Decodes one token under an encoding by reverse lookup against the
/// encoding's code table.
pub fn lookup_codeword(enc: Encoding, tok: &str) -> (r: Option<Digit>)
    ensures
        r == spec_lookup(enc, tok@),
{
    match enc {
        Encoding::Decimal => {
            if tok.unicode_len() == 1 {
                Digit::of_char(tok.get_char(0))
            } else {
                None
            }
        },
        Encoding::Bcd | Encoding::Aiken | Encoding::Stibitz => {
            if tok.unicode_len() != 4 {
                return None;
            }
            let b0 = bit_of_char(tok.get_char(0));
            let b1 = bit_of_char(tok.get_char(1));
            let b2 = bit_of_char(tok.get_char(2));
            let b3 = bit_of_char(tok.get_char(3));
            match (b0, b1, b2, b3) {
                (Some(x0), Some(x1), Some(x2), Some(x3)) => {
                    let v: usize = 8 * x0 + 4 * x1 + 2 * x2 + x3;
                    match enc {
                        Encoding::Bcd => if v <= 9 {
                            Some(digit_of_value(v))
                        } else {
                            None
                        },
                        Encoding::Aiken => if v <= 4 {
                            Some(digit_of_value(v))
                        } else if 11 <= v {
                            Some(digit_of_value(v - 6))
                        } else {
                            None
                        },
                        Encoding::Stibitz => if 3 <= v && v <= 12 {
                            Some(digit_of_value(v - 3))
                        } else {
                            None
                        },
                        Encoding::Decimal => None,
                    }
                },
                _ => None,
            }
        },
    }
}

/// Each code table is a bijection between the ten digits and its ten
/// codewords: looking a digit's own codeword up recovers the digit.
pub proof fn lemma_token_lookup(enc: Encoding, d: Digit)
    ensures
        spec_lookup(enc, spec_token(enc, d)) == Some(d),
{
    match enc {
        Encoding::Decimal => {
            match d {
                Digit::Zero => assert(spec_lookup(enc, spec_token(enc, d)) == Some(d)),
                Digit::One => assert(spec_lookup(enc, spec_token(enc, d)) == Some(d)),
                Digit::Two => assert(spec_lookup(enc, spec_token(enc, d)) == Some(d)),
                Digit::Three => assert(spec_lookup(enc, spec_token(enc, d)) == Some(d)),
                Digit::Four => assert(spec_lookup(enc, spec_token(enc, d)) == Some(d)),
                Digit::Five => assert(spec_lookup(enc, spec_token(enc, d)) == Some(d)),
                Digit::Six => assert(spec_lookup(enc, spec_token(enc, d)) == Some(d)),
                Digit::Seven => assert(spec_lookup(enc, spec_token(enc, d)) == Some(d)),
                Digit::Eight => assert(spec_lookup(enc, spec_token(enc, d)) == Some(d)),
                Digit::Nine => assert(spec_lookup(enc, spec_token(enc, d)) == Some(d)),
            }
        },
        Encoding::Bcd | Encoding::Aiken | Encoding::Stibitz => {
            match d {
                Digit::Zero => assert(spec_lookup(enc, spec_token(enc, d)) == Some(d)),
                Digit::One => assert(spec_lookup(enc, spec_token(enc, d)) == Some(d)),
                Digit::Two => assert(spec_lookup(enc, spec_token(enc, d)) == Some(d)),
                Digit::Three => assert(spec_lookup(enc, spec_token(enc, d)) == Some(d)),
                Digit::Four => assert(spec_lookup(enc, spec_token(enc, d)) == Some(d)),
                Digit::Five => assert(spec_lookup(enc, spec_token(enc, d)) == Some(d)),
                Digit::Six => assert(spec_lookup(enc, spec_token(enc, d)) == Some(d)),
                Digit::Seven => assert(spec_lookup(enc, spec_token(enc, d)) == Some(d)),
                Digit::Eight => assert(spec_lookup(enc, spec_token(enc, d)) == Some(d)),
                Digit::Nine => assert(spec_lookup(enc, spec_token(enc, d)) == Some(d)),
            }
        },
    }
}

} // verus!
