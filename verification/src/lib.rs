//! Conversion of decimal numbers between four digit-level numeral encodings:
//! plain decimal, BCD (8421), Aiken (2421) and Stibitz (excess-3).
//!
//! A value is parsed under one of the encodings into a [`Decimal`], the
//! canonical digit-sequence form, and rendered from there into any of the
//! four encodings.

pub mod codes;
pub mod digit;
pub mod errors;
pub mod format;
pub mod laws;
pub mod line;
pub mod number;
pub mod parse;

pub use codes::Encoding;
pub use digit::Digit;
pub use errors::ConvertError;
pub use format::convert;
pub use line::process_line;
pub use number::Decimal;
pub use parse::{parse_aiken, parse_bcd, parse_decimal, parse_stibitz};
