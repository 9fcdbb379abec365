//! One batch record: `<encoding> <value>`, answered by the number rendered
//! under all four encodings, tab-separated.

use vstd::prelude::*;
use vstd::string::StrSliceExecFns;

use crate::codes::Encoding;
use crate::errors::{ConvertError, ErrorModel};
use crate::format::{convert, join_spec, spec_format, views_of};
use crate::number::{parse_result_view, Decimal, DecimalModel};
use crate::parse::{parse_code, parse_code_spec, parse_decimal, parse_decimal_spec};

verus! {

/// Whether a character is ASCII whitespace, as the record splitter counts
/// it.
pub open spec fn is_ws_char(c: char) -> bool {
    c == ' ' || c == '\t' || c == '\n' || c == '\r' || c == '\u{000C}'
}

/// The position of the first non-whitespace character at or after `i`, or
/// the length when there is none.
pub open spec fn spec_skip_ws(s: Seq<char>, i: int) -> int
    decreases s.len() - i,
{
    if i < 0 || i >= s.len() {
        s.len() as int
    } else if is_ws_char(s[i]) {
        spec_skip_ws(s, i + 1)
    } else {
        i
    }
}

/// The position of the first whitespace character at or after `i`, or the
/// length when there is none.
pub open spec fn spec_scan_token(s: Seq<char>, i: int) -> int
    decreases s.len() - i,
{
    if i < 0 || i >= s.len() {
        s.len() as int
    } else if is_ws_char(s[i]) {
        i
    } else {
        spec_scan_token(s, i + 1)
    }
}

fn is_ws(c: char) -> (r: bool)
    ensures
        r == is_ws_char(c),
{
    c == ' ' || c == '\t' || c == '\n' || c == '\r' || c == '\u{000C}'
}

fn skip_ws(s: &str, from: usize) -> (j: usize)
    requires
        from <= s@.len(),
    ensures
        j == spec_skip_ws(s@, from as int),
        from <= j <= s@.len(),
{
    let n = s.unicode_len();
    let mut i = from;
    while i < n
        invariant
            from <= i <= n,
            n == s@.len(),
            spec_skip_ws(s@, from as int) == spec_skip_ws(s@, i as int),
        decreases n - i,
    {
        if !is_ws(s.get_char(i)) {
            return i;
        }
        i += 1;
    }
    i
}

fn scan_token(s: &str, from: usize) -> (j: usize)
    requires
        from <= s@.len(),
    ensures
        j == spec_scan_token(s@, from as int),
        from <= j <= s@.len(),
{
    let n = s.unicode_len();
    let mut i = from;
    while i < n
        invariant
            from <= i <= n,
            n == s@.len(),
            spec_scan_token(s@, from as int) == spec_scan_token(s@, i as int),
        decreases n - i,
    {
        if is_ws(s.get_char(i)) {
            return i;
        }
        i += 1;
    }
    i
}

/// Compares two strings character by character.
fn str_eq(a: &str, b: &str) -> (r: bool)
    ensures
        r == (a@ == b@),
{
    let na = a.unicode_len();
    let nb = b.unicode_len();
    if na != nb {
        return false;
    }
    let mut i: usize = 0;
    while i < na
        invariant
            na == a@.len(),
            nb == b@.len(),
            na == nb,
            i <= na,
            forall|j: int| 0 <= j < i ==> a@[j] == b@[j],
        decreases na - i,
    {
        if a.get_char(i) != b.get_char(i) {
            return false;
        }
        i += 1;
    }
    proof {
        assert(a@ =~= b@);
    }
    true
}

/// The encoding a record's first token names, case-sensitive and exact.
pub open spec fn spec_encoding_of(name: Seq<char>) -> Option<Encoding> {
    if name == "decimal"@ {
        Some(Encoding::Decimal)
    } else if name == "bcd"@ {
        Some(Encoding::Bcd)
    } else if name == "aiken"@ {
        Some(Encoding::Aiken)
    } else if name == "stibitz"@ {
        Some(Encoding::Stibitz)
    } else {
        None
    }
}

/// Resolves a record's first token to an encoding.
pub fn encoding_of(name: &str) -> (r: Option<Encoding>)
    ensures
        r == spec_encoding_of(name@),
{
    if str_eq(name, "decimal") {
        Some(Encoding::Decimal)
    } else if str_eq(name, "bcd") {
        Some(Encoding::Bcd)
    } else if str_eq(name, "aiken") {
        Some(Encoding::Aiken)
    } else if str_eq(name, "stibitz") {
        Some(Encoding::Stibitz)
    } else {
        None
    }
}

/// What the decoder selected by an encoding returns on a value.
pub open spec fn spec_parse_value(enc: Encoding, value: Seq<char>) -> Result<
    DecimalModel,
    ErrorModel,
> {
    match enc {
        Encoding::Decimal => parse_decimal_spec(value),
        Encoding::Bcd | Encoding::Aiken | Encoding::Stibitz => parse_code_spec(value, enc),
    }
}

/// Runs the decoder selected by an encoding on a value.
pub fn parse_value(enc: Encoding, value: &str) -> (r: Result<Decimal, ConvertError>)
    ensures
        parse_result_view(r) == spec_parse_value(enc, value@),
{
    match enc {
        Encoding::Decimal => parse_decimal(value),
        Encoding::Bcd | Encoding::Aiken | Encoding::Stibitz => parse_code(value, enc),
    }
}

/// The output line for a number: its four renderings, in the fixed order
/// decimal, BCD, Aiken, Stibitz, joined with tabs.
pub open spec fn spec_output_line(m: DecimalModel) -> Seq<char> {
    join_spec(
        seq![
            spec_format(m, Encoding::Decimal),
            spec_format(m, Encoding::Bcd),
            spec_format(m, Encoding::Aiken),
            spec_format(m, Encoding::Stibitz),
        ],
        seq!['\t'],
    )
}

/// What `process_line` returns on a given record.
///
/// A record with fewer than two whitespace-separated tokens is malformed;
/// an unrecognized first token is an unknown encoding; otherwise the second
/// token is decoded under the named encoding and, on success, the number is
/// rendered under all four encodings. Anything after the second token is
/// ignored.
pub open spec fn spec_process_line(line: Seq<char>) -> Result<Seq<char>, ErrorModel> {
    let a0 = spec_skip_ws(line, 0);
    if a0 >= line.len() {
        Err(ErrorModel::MalformedRecord)
    } else {
        let a1 = spec_scan_token(line, a0);
        let b0 = spec_skip_ws(line, a1);
        if b0 >= line.len() {
            Err(ErrorModel::MalformedRecord)
        } else {
            let b1 = spec_scan_token(line, b0);
            match spec_encoding_of(line.subrange(a0, a1)) {
                None => Err(ErrorModel::UnknownEncoding),
                Some(enc) => match spec_parse_value(enc, line.subrange(b0, b1)) {
                    Ok(m) => Ok(spec_output_line(m)),
                    Err(e) => Err(e),
                },
            }
        }
    }
}

/// The model of a processed record: the output line on success, the error's
/// model on failure.
pub open spec fn line_result_view(r: Result<String, ConvertError>) -> Result<
    Seq<char>,
    ErrorModel,
> {
    match r {
        Ok(s) => Ok(s@),
        Err(e) => Err(e@),
    }
}

/// Processes one batch record `<encoding> <value>` into the output line
/// that renders the value under all four encodings.
pub fn process_line(line: &str) -> (r: Result<String, ConvertError>)
    ensures
        line_result_view(r) == spec_process_line(line@),
{
    let n = line.unicode_len();
    let a0 = skip_ws(line, 0);
    if a0 >= n {
        return Err(ConvertError::MalformedRecord);
    }
    let a1 = scan_token(line, a0);
    let b0 = skip_ws(line, a1);
    if b0 >= n {
        return Err(ConvertError::MalformedRecord);
    }
    let b1 = scan_token(line, b0);
    let name = line.substring_char(a0, a1);
    let value = line.substring_char(b0, b1);
    match encoding_of(name) {
        None => Err(ConvertError::UnknownEncoding),
        Some(enc) => match parse_value(enc, value) {
            Err(e) => Err(e),
            Ok(number) => {
                let x = convert(&number);
                let fields = vec![x.0, x.1, x.2, x.3];
                proof {
                    reveal_strlit("\t");
                    assert("\t"@ =~= seq!['\t']);
                    assert(views_of(fields@) =~= seq![
                        spec_format(number@, Encoding::Decimal),
                        spec_format(number@, Encoding::Bcd),
                        spec_format(number@, Encoding::Aiken),
                        spec_format(number@, Encoding::Stibitz),
                    ]);
                }
                Ok(crate::format::join_strings(&fields, "\t"))
            },
        },
    }
}

} // verus!
