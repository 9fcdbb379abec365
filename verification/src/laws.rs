//! The library-wide laws: facts that relate the decoders and encoders to
//! one another, proved once and for all inputs.

use vstd::prelude::*;

use crate::codes::{lemma_token_lookup, spec_token, Encoding};
use crate::digit::{is_digit_char, Digit};
use crate::errors::ErrorModel;
use crate::format::{join_spec, spec_format, spec_tokens};
use crate::line::spec_parse_value;
use crate::number::DecimalModel;
use crate::parse::{
    is_sep_char, parse_code_rec, parse_code_spec, parse_decimal_rec, spec_finish_token,
};

verus! {

/// A space-free, non-separator token is read back by the binary-code scan
/// as the one token it is.
proof fn lemma_parse_token_from(s: Seq<char>, i: int, enc: Encoding)
    requires
        0 <= i <= s.len(),
        forall|j: int| 0 <= j < s.len() ==> s[j] != ' ',
    ensures
        parse_code_rec(s, i, s.subrange(0, i), false, DecimalModel::empty(), enc) == (
        match spec_finish_token(s, false, DecimalModel::empty(), enc) {
            Ok(p) => Ok::<DecimalModel, ErrorModel>(p.1),
            Err(e) => Err::<DecimalModel, ErrorModel>(e),
        }),
    decreases s.len() - i,
{
    if i == s.len() {
        assert(s.subrange(0, i) =~= s);
    } else {
        assert(s.subrange(0, i + 1) =~= s.subrange(0, i).push(s[i]));
        lemma_parse_token_from(s, i + 1, enc);
    }
}

/// Round-trip at the digit level: a single-digit number, rendered under
/// any encoding and decoded under the same encoding, comes back unchanged.
/// The code tables are bijections on the ten digits.
pub proof fn lemma_single_digit_round_trip(enc: Encoding, d: Digit)
    ensures
        ({
            let m = DecimalModel { digits: seq![d], fracs: Seq::<Digit>::empty() };
            spec_parse_value(enc, spec_format(m, enc)) == Ok::<DecimalModel, ErrorModel>(m)
        }),
{
    let m = DecimalModel { digits: seq![d], fracs: Seq::<Digit>::empty() };
    let tok = spec_token(enc, d);
    assert(spec_tokens(m, enc) =~= seq![tok]);
    assert(spec_format(m, enc) == tok);
    lemma_token_lookup(enc, d);
    match enc {
        Encoding::Decimal => {
            let c = crate::codes::spec_digit_char(d);
            assert(tok =~= seq![c]);
            match d {
                Digit::Zero => assert(Digit::spec_of_char(c) == Some(d)),
                Digit::One => assert(Digit::spec_of_char(c) == Some(d)),
                Digit::Two => assert(Digit::spec_of_char(c) == Some(d)),
                Digit::Three => assert(Digit::spec_of_char(c) == Some(d)),
                Digit::Four => assert(Digit::spec_of_char(c) == Some(d)),
                Digit::Five => assert(Digit::spec_of_char(c) == Some(d)),
                Digit::Six => assert(Digit::spec_of_char(c) == Some(d)),
                Digit::Seven => assert(Digit::spec_of_char(c) == Some(d)),
                Digit::Eight => assert(Digit::spec_of_char(c) == Some(d)),
                Digit::Nine => assert(Digit::spec_of_char(c) == Some(d)),
            }
            assert(!crate::parse::is_sep_char(c));
            assert(parse_decimal_rec(
                tok,
                1,
                false,
                DecimalModel { digits: Seq::<Digit>::empty().push(d), fracs: Seq::<Digit>::empty() },
            ) == Ok::<_, ErrorModel>(m));
            assert(crate::parse::parse_decimal_spec(tok) == Ok::<_, ErrorModel>(m));
        },
        Encoding::Bcd | Encoding::Aiken | Encoding::Stibitz => {
            // From the successful lookup: the token is four binary
            // characters, so it holds no space and is not the "." token.
            assert(tok.len() == 4);
            assert(forall|j: int| 0 <= j < tok.len() ==> tok[j] != ' ') by {
                assert(crate::codes::is_bit_char(tok[0]) && crate::codes::is_bit_char(tok[1])
                    && crate::codes::is_bit_char(tok[2]) && crate::codes::is_bit_char(tok[3]));
            }
            assert(tok != seq!['.']);
            lemma_parse_token_from(tok, 0, enc);
            assert(tok.subrange(0, 0) =~= Seq::<char>::empty());
            assert(Seq::<Digit>::empty().push(d) =~= seq![d]);
            assert(parse_code_spec(tok, enc) == Ok::<_, ErrorModel>(m));
        },
    }
}

/// A decimal-string input the parse/format round trip is stated over:
/// every character is a digit or a separator, at most one separator
/// occurs, and the separator is not the final character (a trailing
/// separator parses, but its rendering drops the empty fractional part).
pub open spec fn valid_decimal_input(s: Seq<char>) -> bool {
    &&& forall|i: int| 0 <= i < s.len() ==> (is_digit_char(s[i]) || is_sep_char(s[i]))
    &&& forall|i: int, j: int|
        0 <= i < j < s.len() ==> !(is_sep_char(s[i]) && is_sep_char(s[j]))
    &&& forall|i: int| 0 <= i < s.len() && is_sep_char(s[i]) ==> i < s.len() - 1
}

/// The position of the first separator at or after `i`, or the length when
/// there is none.
pub open spec fn spec_first_sep(s: Seq<char>, i: int) -> int
    decreases s.len() - i,
{
    if i < 0 || i >= s.len() {
        s.len() as int
    } else if is_sep_char(s[i]) {
        i
    } else {
        spec_first_sep(s, i + 1)
    }
}

/// The digits a sequence of digit characters denotes.
pub open spec fn map_digits(s: Seq<char>) -> Seq<Digit> {
    s.map_values(|c: char| Digit::spec_of_char(c)->Some_0)
}

/// A valid decimal string with the separator normalized to "." and every
/// character rendered as its own space-joined token.
pub open spec fn spec_normalized_tokens(s: Seq<char>) -> Seq<Seq<char>> {
    s.map_values(|c: char| if is_sep_char(c) { seq!['.'] } else { seq![c] })
}

/// See [`spec_normalized_tokens`]: the tokens joined with single spaces.
pub open spec fn spec_normalized(s: Seq<char>) -> Seq<char> {
    join_spec(spec_normalized_tokens(s), seq![' '])
}

proof fn lemma_first_sep_props(s: Seq<char>, i: int)
    requires
        0 <= i <= s.len(),
    ensures
        i <= spec_first_sep(s, i) <= s.len(),
        spec_first_sep(s, i) < s.len() ==> is_sep_char(s[spec_first_sep(s, i)]),
        forall|j: int| i <= j < spec_first_sep(s, i) ==> !is_sep_char(s[j]),
    decreases s.len() - i,
{
    if i < s.len() && !is_sep_char(s[i]) {
        lemma_first_sep_props(s, i + 1);
    }
}

/// After the separator the scan appends every remaining digit to the
/// fractional part.
proof fn lemma_parse_frac_from(s: Seq<char>, i: int, m: DecimalModel)
    requires
        0 <= i <= s.len(),
        forall|j: int| i <= j < s.len() ==> is_digit_char(s[j]),
    ensures
        parse_decimal_rec(s, i, true, m) == Ok::<DecimalModel, ErrorModel>(
            DecimalModel {
                digits: m.digits,
                fracs: m.fracs + map_digits(s.subrange(i, s.len() as int)),
            },
        ),
    decreases s.len() - i,
{
    if i == s.len() {
        assert(s.subrange(i, s.len() as int) =~= Seq::<char>::empty());
        assert(m.fracs + map_digits(Seq::<char>::empty()) =~= m.fracs);
    } else {
        let c = s[i];
        assert(is_digit_char(c));
        let d = Digit::spec_of_char(c)->Some_0;
        lemma_parse_frac_from(s, i + 1, DecimalModel { digits: m.digits, fracs: m.fracs.push(d) });
        assert(m.fracs.push(d) + map_digits(s.subrange(i + 1, s.len() as int)) =~= m.fracs
            + map_digits(s.subrange(i, s.len() as int)));
    }
}

/// Before the separator the scan appends digits to the integer part, and
/// the first separator — there is at most one — switches it to the
/// fractional part.
proof fn lemma_parse_int_from(s: Seq<char>, i: int, m: DecimalModel)
    requires
        0 <= i <= s.len(),
        forall|j: int| i <= j < s.len() ==> (is_digit_char(s[j]) || is_sep_char(s[j])),
        forall|j: int, k: int| i <= j < k < s.len() ==> !(is_sep_char(s[j]) && is_sep_char(s[k])),
    ensures
        ({
            let kk = spec_first_sep(s, i);
            parse_decimal_rec(s, i, false, m) == Ok::<DecimalModel, ErrorModel>(
                DecimalModel {
                    digits: m.digits + map_digits(s.subrange(i, kk)),
                    fracs: m.fracs + map_digits(
                        s.subrange(
                            if kk < s.len() {
                                kk + 1
                            } else {
                                kk
                            },
                            s.len() as int,
                        ),
                    ),
                },
            )
        }),
    decreases s.len() - i,
{
    let kk = spec_first_sep(s, i);
    lemma_first_sep_props(s, i);
    if i == s.len() {
        assert(s.subrange(i, kk) =~= Seq::<char>::empty());
        assert(m.digits + map_digits(Seq::<char>::empty()) =~= m.digits);
        assert(m.fracs + map_digits(Seq::<char>::empty()) =~= m.fracs);
    } else {
        let c = s[i];
        if is_sep_char(c) {
            assert(kk == i);
            assert(forall|j: int| i + 1 <= j < s.len() ==> is_digit_char(s[j]));
            lemma_parse_frac_from(s, i + 1, m);
            assert(s.subrange(i, i) =~= Seq::<char>::empty());
            assert(m.digits + map_digits(Seq::<char>::empty()) =~= m.digits);
        } else {
            assert(is_digit_char(c));
            let d = Digit::spec_of_char(c)->Some_0;
            lemma_parse_int_from(
                s,
                i + 1,
                DecimalModel { digits: m.digits.push(d), fracs: m.fracs },
            );
            assert(kk == spec_first_sep(s, i + 1));
            assert(m.digits.push(d) + map_digits(s.subrange(i + 1, kk)) =~= m.digits + map_digits(
                s.subrange(i, kk),
            ));
        }
    }
}

/// The character a digit's decimal token renders is the character the
/// digit was read from.
proof fn lemma_digit_char_round(c: char)
    requires
        is_digit_char(c),
    ensures
        crate::codes::spec_digit_char(Digit::spec_of_char(c)->Some_0) == c,
{
}

/// Rendering the number a valid decimal string denotes gives that string
/// back, separator normalized and characters space-joined.
proof fn lemma_format_normalized(s: Seq<char>)
    requires
        valid_decimal_input(s),
    ensures
        ({
            let kk = spec_first_sep(s, 0);
            let m = DecimalModel {
                digits: map_digits(s.subrange(0, kk)),
                fracs: map_digits(
                    s.subrange(
                        if kk < s.len() {
                            kk + 1
                        } else {
                            kk
                        },
                        s.len() as int,
                    ),
                ),
            };
            spec_format(m, Encoding::Decimal) == spec_normalized(s)
        }),
{
    let kk = spec_first_sep(s, 0);
    lemma_first_sep_props(s, 0);
    let m = DecimalModel {
        digits: map_digits(s.subrange(0, kk)),
        fracs: map_digits(
            s.subrange(
                if kk < s.len() {
                    kk + 1
                } else {
                    kk
                },
                s.len() as int,
            ),
        ),
    };
    if kk == s.len() {
        assert(m.fracs =~= Seq::<Digit>::empty());
        assert(spec_tokens(m, Encoding::Decimal) == crate::format::spec_digit_tokens(
            m.digits,
            Encoding::Decimal,
        ));
        assert forall|j: int| 0 <= j < s.len() implies crate::format::spec_digit_tokens(
            m.digits,
            Encoding::Decimal,
        )[j] == spec_normalized_tokens(s)[j] by {
            lemma_digit_char_round(s[j]);
            assert(m.digits[j] == Digit::spec_of_char(s[j])->Some_0);
            assert(spec_token(Encoding::Decimal, m.digits[j]) =~= seq![s[j]]);
        }
        assert(crate::format::spec_digit_tokens(m.digits, Encoding::Decimal)
            =~= spec_normalized_tokens(s));
    } else {
        // The separator is not last, so the fractional part is non-empty.
        assert(kk < s.len() - 1);
        assert(m.fracs.len() == s.len() - kk - 1 > 0);
        let toks = spec_tokens(m, Encoding::Decimal);
        assert(toks.len() == s.len());
        assert forall|j: int| 0 <= j < s.len() implies toks[j] == spec_normalized_tokens(s)[j] by {
            if j < kk {
                lemma_digit_char_round(s[j]);
                assert(toks[j] == spec_token(Encoding::Decimal, m.digits[j]));
                assert(!is_sep_char(s[j]));
                assert(spec_token(Encoding::Decimal, m.digits[j]) =~= seq![s[j]]);
            } else if j == kk {
                assert(toks[j] =~= seq!['.']);
            } else {
                assert(toks[j] == spec_token(Encoding::Decimal, m.fracs[j - kk - 1]));
                assert(!is_sep_char(s[j]));
                lemma_digit_char_round(s[j]);
                assert(m.fracs[j - kk - 1] == Digit::spec_of_char(s[j])->Some_0);
                assert(spec_token(Encoding::Decimal, m.fracs[j - kk - 1]) =~= seq![s[j]]);
            }
        }
        assert(toks =~= spec_normalized_tokens(s));
    }
}

/// The parse/format round trip on decimal strings: a valid input — only
/// digits and at most one, non-final separator — parses, and rendering the
/// parsed number in plain decimal reproduces the input with the separator
/// normalized to "." and the characters space-joined.
pub proof fn lemma_parse_format_decimal(s: Seq<char>)
    requires
        valid_decimal_input(s),
    ensures
        crate::parse::parse_decimal_spec(s) matches Ok(m) && spec_format(m, Encoding::Decimal)
            == spec_normalized(s),
{
    lemma_parse_int_from(s, 0, DecimalModel::empty());
    lemma_first_sep_props(s, 0);
    let kk = spec_first_sep(s, 0);
    assert(Seq::<Digit>::empty() + map_digits(s.subrange(0, kk)) =~= map_digits(
        s.subrange(0, kk),
    ));
    assert(Seq::<Digit>::empty() + map_digits(
        s.subrange(
            if kk < s.len() {
                kk + 1
            } else {
                kk
            },
            s.len() as int,
        ),
    ) =~= map_digits(
        s.subrange(
            if kk < s.len() {
                kk + 1
            } else {
                kk
            },
            s.len() as int,
        ),
    ));
    lemma_format_normalized(s);
}

/// When every part and the separator avoid a character, so does the join.
proof fn lemma_join_all_avoid(parts: Seq<Seq<char>>, sep: Seq<char>, c: char)
    requires
        forall|i: int, j: int|
            0 <= i < parts.len() && 0 <= j < parts[i].len() ==> parts[i][j] != c,
        forall|j: int| 0 <= j < sep.len() ==> sep[j] != c,
    ensures
        forall|k: int| 0 <= k < join_spec(parts, sep).len() ==> join_spec(parts, sep)[k] != c,
    decreases parts.len(),
{
    if parts.len() <= 1 {
    } else {
        lemma_join_all_avoid(parts.drop_last(), sep, c);
        let jd = join_spec(parts.drop_last(), sep);
        assert forall|k: int|
            0 <= k < join_spec(parts, sep).len() implies join_spec(parts, sep)[k] != c by {
            if k < jd.len() {
                assert(join_spec(parts, sep)[k] == jd[k]);
            } else if k < jd.len() + sep.len() {
                assert(join_spec(parts, sep)[k] == sep[k - jd.len()]);
            } else {
                assert(join_spec(parts, sep)[k] == parts.last()[k - jd.len() - sep.len()]);
                assert(parts.last() == parts[parts.len() - 1]);
            }
        }
    }
}

/// A number without a fractional part renders without a separator: under
/// every encoding the output holds no '.' character — and, a fortiori, no
/// "." token and no fractional segment.
pub proof fn lemma_no_separator_without_fraction(m: DecimalModel, enc: Encoding)
    requires
        m.fracs.len() == 0,
    ensures
        forall|k: int|
            0 <= k < spec_format(m, enc).len() ==> spec_format(m, enc)[k] != '.',
{
    let parts = spec_tokens(m, enc);
    assert forall|i: int, j: int|
        0 <= i < parts.len() && 0 <= j < parts[i].len() implies parts[i][j] != '.' by {
        let d = m.digits[i];
        lemma_token_lookup(enc, d);
        assert(parts[i] == spec_token(enc, d));
        match enc {
            Encoding::Decimal => {
                assert(is_digit_char(spec_token(enc, d)[0]));
            },
            Encoding::Bcd | Encoding::Aiken | Encoding::Stibitz => {
                assert(crate::codes::is_bit_char(spec_token(enc, d)[j]));
            },
        }
    }
    lemma_join_all_avoid(parts, seq![' '], '.');
}

/// Formatting is a pure function of the canonical number: two equal
/// numbers render identically under every encoding, however often the
/// encoder is applied.
pub proof fn lemma_format_pure(a: DecimalModel, b: DecimalModel, enc: Encoding)
    requires
        a == b,
    ensures
        spec_format(a, enc) == spec_format(b, enc),
{
}

} // verus!
