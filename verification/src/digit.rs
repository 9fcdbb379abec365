//! The atomic value type: one decimal digit.

use vstd::prelude::*;

use crate::errors::{ConvertError, ErrorModel};

verus! {

/// One of the ten decimal digit symbols, ordered by numeric value.
///
/// A `Digit` always stands for a single base-10 symbol; construction from an
/// out-of-range character fails rather than producing a partial value.
#[derive(Clone, Copy, Debug, PartialEq, Eq, Structural, PartialOrd, Ord)]
pub enum Digit {
    Zero,
    One,
    Two,
    Three,
    Four,
    Five,
    Six,
    Seven,
    Eight,
    Nine,
}

impl Digit {
    /// The numeric value of the digit, as a mathematical integer.
    pub open spec fn spec_value(self) -> int {
        match self {
            Digit::Zero => 0,
            Digit::One => 1,
            Digit::Two => 2,
            Digit::Three => 3,
            Digit::Four => 4,
            Digit::Five => 5,
            Digit::Six => 6,
            Digit::Seven => 7,
            Digit::Eight => 8,
            Digit::Nine => 9,
        }
    }

    /// The digit a character denotes, if it is one of '0'..='9'.
    pub open spec fn spec_of_char(c: char) -> Option<Digit> {
        if c == '0' {
            Some(Digit::Zero)
        } else if c == '1' {
            Some(Digit::One)
        } else if c == '2' {
            Some(Digit::Two)
        } else if c == '3' {
            Some(Digit::Three)
        } else if c == '4' {
            Some(Digit::Four)
        } else if c == '5' {
            Some(Digit::Five)
        } else if c == '6' {
            Some(Digit::Six)
        } else if c == '7' {
            Some(Digit::Seven)
        } else if c == '8' {
            Some(Digit::Eight)
        } else if c == '9' {
            Some(Digit::Nine)
        } else {
            None
        }
    }

    /// Numeric value accessor: total, always in `[0, 9]`.
    pub fn value(&self) -> (v: usize)
        ensures
            v == self.spec_value(),
            0 <= v <= 9,
    {
        match self {
            Digit::Zero => 0,
            Digit::One => 1,
            Digit::Two => 2,
            Digit::Three => 3,
            Digit::Four => 4,
            Digit::Five => 5,
            Digit::Six => 6,
            Digit::Seven => 7,
            Digit::Eight => 8,
            Digit::Nine => 9,
        }
    }

    /// Reads one digit from its ASCII character; `None` for any other
    /// character.
    pub fn of_char(c: char) -> (r: Option<Digit>)
        ensures
            r == Digit::spec_of_char(c),
    {
        match c {
            '0' => Some(Digit::Zero),
            '1' => Some(Digit::One),
            '2' => Some(Digit::Two),
            '3' => Some(Digit::Three),
            '4' => Some(Digit::Four),
            '5' => Some(Digit::Five),
            '6' => Some(Digit::Six),
            '7' => Some(Digit::Seven),
            '8' => Some(Digit::Eight),
            '9' => Some(Digit::Nine),
            _ => None,
        }
    }

    /// Reads one digit from its ASCII character; any other character fails
    /// with `InvalidDigit` carrying the offending character (the position
    /// of a lone character is zero).
    pub fn parse_char(c: char) -> (r: Result<Digit, ConvertError>)
        ensures
            Digit::spec_of_char(c) is Some ==> r == Ok::<Digit, ConvertError>(
                Digit::spec_of_char(c)->Some_0,
            ),
            Digit::spec_of_char(c) is None ==> (r matches Err(e) && e@ == ErrorModel::InvalidDigit {
                ch: c,
                pos: 0,
            }),
    {
        match Digit::of_char(c) {
            Some(d) => Ok(d),
            None => Err(ConvertError::InvalidDigit { ch: c, pos: 0 }),
        }
    }
}

/// Whether a character denotes a decimal digit.
pub open spec fn is_digit_char(c: char) -> bool {
    Digit::spec_of_char(c) is Some
}

} // verus!
