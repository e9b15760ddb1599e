//! Payload coercers: the recognizers for boolean, string, single-character,
//! integer and cross-product payloads, built on [`crate::scan::line_splitter`].
//!
//! Each returns `Ok(None)` when the input does not start with the directive's
//! key, so the dispatcher can try the next recognizer.

use vstd::prelude::*;

use crate::error::{err0, ErrorKindView, ParseError, ParseErrorType, ParseErrorView};
use crate::scan::{
    digit_char, is_digit_char, line_splitter, spec_line_split,
};

verus! {

/// The numeric value of a digit string, most significant digit first.
/// Meaningful only when every character is a digit.
pub open spec fn digits_val(s: Seq<char>) -> int
    decreases s.len(),
{
    if s.len() == 0 {
        0
    } else {
        10 * digits_val(s.drop_last()) + (s.last() as u32 - '0' as u32)
    }
}

/// Is every character of `s` a decimal digit?
pub open spec fn all_digits(s: Seq<char>) -> bool {
    forall|k: int| 0 <= k < s.len() ==> is_digit_char(s[k])
}

/// A non-negative 32-bit integer: one or more digits whose value fits.
pub open spec fn spec_parse_u32(s: Seq<char>) -> Option<u32> {
    if s.len() > 0 && all_digits(s) && digits_val(s) <= u32::MAX {
        Some(digits_val(s) as u32)
    } else {
        None
    }
}

/// Parse an entire string as a non-negative 32-bit integer.
pub fn parse_u32_str(s: &str) -> (r: Option<u32>)
    ensures
        r == spec_parse_u32(s@),
{
    let n = s.unicode_len();
    if n == 0 {
        return None;
    }
    let mut i: usize = 0;
    let mut acc: u32 = 0;
    let mut over: bool = false;
    while i < n
        invariant
            0 < n == s@.len(),
            0 <= i <= n,
            all_digits(s@.subrange(0, i as int)),
            !over ==> acc == digits_val(s@.subrange(0, i as int)),
            over ==> digits_val(s@.subrange(0, i as int)) > u32::MAX,
        decreases n - i,
    {
        let c = s.get_char(i);
        if !digit_char(c) {
            assert(!all_digits(s@));
            return None;
        }
        let d: u32 = c as u32 - '0' as u32;
        proof {
            assert(s@.subrange(0, i as int + 1).drop_last() =~= s@.subrange(0, i as int));
            assert(s@.subrange(0, i as int + 1).last() == s@[i as int]);
            assert(all_digits(s@.subrange(0, i as int + 1)));
        }
        if over {
            proof {
                assert(digits_val(s@.subrange(0, i as int + 1)) == 10 * digits_val(
                    s@.subrange(0, i as int),
                ) + d);
            }
        } else {
            if acc > (u32::MAX - d) / 10 {
                over = true;
                proof {
                    assert(digits_val(s@.subrange(0, i as int + 1)) == 10 * (acc as int) + d);
                    assert(10 * (acc as int) + d > u32::MAX);
                }
            } else {
                proof {
                    assert(10 * (acc as int) + d <= u32::MAX);
                }
                acc = acc * 10 + d;
            }
        }
        i += 1;
    }
    proof {
        assert(s@.subrange(0, n as int) =~= s@);
    }
    if over {
        None
    } else {
        Some(acc)
    }
}

/// Decide [`all_digits`].
pub fn all_digits_str(s: &str) -> (r: bool)
    ensures
        r == all_digits(s@),
{
    let n = s.unicode_len();
    let mut j: usize = 0;
    while j < n
        invariant
            0 <= j <= n,
            n == s@.len(),
            forall|k: int| 0 <= k < j ==> is_digit_char(s@[k]),
        decreases n - j,
    {
        if !digit_char(s.get_char(j)) {
            return false;
        }
        j += 1;
    }
    true
}

/// Ghost content of [`line_key_parser`]: the trimmed payload and residual of
/// a single-line directive.
pub open spec fn spec_line_key(s: Seq<char>, key: Seq<char>) -> Option<(Seq<char>, Seq<char>)> {
    spec_line_split(s, key)
}

/// Recognize `key` and hand back its payload as an owned string, together
/// with the residual.  `None` when `s` does not start with `key`.
pub fn line_key_parser<'a>(s: &'a str, key: &str) -> (r: Option<(String, &'a str)>)
    ensures
        ({
            let m = spec_line_key(s@, key@);
            match (r, m) {
                (Some((work, resid)), Some((w, re))) => work@ == w && resid@ == re,
                (None, None) => true,
                _ => false,
            }
        }),
{
    match line_splitter(s, key) {
        Some((work, resid)) => Some((work.to_owned(), resid)),
        None => None,
    }
}

/// Ghost content of [`bool_parser`].
pub open spec fn spec_bool_dir(s: Seq<char>, key: Seq<char>) -> Result<
    Option<Seq<char>>,
    ParseErrorView,
> {
    match spec_line_split(s, key) {
        None => Ok(None),
        Some((work, resid)) => if work.len() == 0 {
            Ok(Some(resid))
        } else {
            Err(err0(ErrorKindView::BadBool { payload: work, key }))
        },
    }
}

/// Recognize a nullary boolean directive: the payload must be empty.
pub fn bool_parser<'a>(s: &'a str, key: &str) -> (r: Result<Option<&'a str>, ParseError>)
    ensures
        ({
            let m = spec_bool_dir(s@, key@);
            match (r, m) {
                (Ok(None), Ok(None)) => true,
                (Ok(Some(resid)), Ok(Some(re))) => resid@ == re,
                (Err(e), Err(ev)) => e@ == ev,
                _ => false,
            }
        }),
{
    match line_splitter(s, key) {
        None => Ok(None),
        Some((work, resid)) => {
            if work.unicode_len() == 0 {
                Ok(Some(resid))
            } else {
                Err(
                    ParseError::new_nospan(
                        ParseErrorType::BadBool { payload: work.to_owned(), key: key.to_owned() },
                    ),
                )
            }
        },
    }
}

/// Ghost content of [`string_parser`]: same shape as [`spec_line_key`].
pub open spec fn spec_string_dir(s: Seq<char>, key: Seq<char>) -> Option<(Seq<char>, Seq<char>)> {
    spec_line_split(s, key)
}

/// Recognize a free-text directive: the trimmed payload is taken verbatim.
pub fn string_parser<'a>(s: &'a str, key: &str) -> (r: Option<(String, &'a str)>)
    ensures
        ({
            let m = spec_string_dir(s@, key@);
            match (r, m) {
                (Some((work, resid)), Some((w, re))) => work@ == w && resid@ == re,
                (None, None) => true,
                _ => false,
            }
        }),
{
    line_key_parser(s, key)
}

/// Ghost content of [`char_parser`].
pub open spec fn spec_char_dir(s: Seq<char>, key: Seq<char>) -> Result<
    Option<(char, Seq<char>)>,
    ParseErrorView,
> {
    match spec_line_split(s, key) {
        None => Ok(None),
        Some((work, resid)) => if work.len() == 1 {
            Ok(Some((work[0], resid)))
        } else {
            Err(err0(ErrorKindView::BadChar { count: work.len() as int, payload: work }))
        },
    }
}

/// Recognize a single-character directive: the payload must be exactly one
/// character.
pub fn char_parser<'a>(s: &'a str, key: &str) -> (r: Result<Option<(char, &'a str)>, ParseError>)
    ensures
        ({
            let m = spec_char_dir(s@, key@);
            match (r, m) {
                (Ok(None), Ok(None)) => true,
                (Ok(Some((c, resid))), Ok(Some((cv, re)))) => c == cv && resid@ == re,
                (Err(e), Err(ev)) => e@ == ev,
                _ => false,
            }
        }),
{
    match line_splitter(s, key) {
        None => Ok(None),
        Some((work, resid)) => {
            let count = work.unicode_len();
            if count == 1 {
                Ok(Some((work.get_char(0), resid)))
            } else {
                Err(
                    ParseError::new_nospan(
                        ParseErrorType::BadChar { count, payload: work.to_owned() },
                    ),
                )
            }
        },
    }
}

/// Ghost content of [`int_parser`].
pub open spec fn spec_int_dir(s: Seq<char>, key: Seq<char>) -> Result<
    Option<(u32, Seq<char>)>,
    ParseErrorView,
> {
    match spec_line_split(s, key) {
        None => Ok(None),
        Some((work, resid)) => match spec_parse_u32(work) {
            Some(v) => Ok(Some((v, resid))),
            None => Err(err0(ErrorKindView::BadInt { payload: work })),
        },
    }
}

/// Recognize an integer directive: the payload must be a non-negative
/// integer that fits 32 bits.
pub fn int_parser<'a>(s: &'a str, key: &str) -> (r: Result<Option<(u32, &'a str)>, ParseError>)
    ensures
        ({
            let m = spec_int_dir(s@, key@);
            match (r, m) {
                (Ok(None), Ok(None)) => true,
                (Ok(Some((v, resid))), Ok(Some((vv, re)))) => v == vv && resid@ == re,
                (Err(e), Err(ev)) => e@ == ev,
                _ => false,
            }
        }),
{
    match line_splitter(s, key) {
        None => Ok(None),
        Some((work, resid)) => {
            match parse_u32_str(work) {
                Some(v) => Ok(Some((v, resid))),
                None => Err(
                    ParseError::new_nospan(ParseErrorType::BadInt { payload: work.to_owned() }),
                ),
            }
        },
    }
}

/// Ghost content of [`parse_xprod`]: `Y`/`y` combines, `N`/`n` does not,
/// anything else is an error.
pub open spec fn spec_xprod(x: Seq<char>) -> Result<bool, ParseErrorView> {
    if x.len() == 1 && (x[0] == 'y' || x[0] == 'Y') {
        Ok(true)
    } else if x.len() == 1 && (x[0] == 'n' || x[0] == 'N') {
        Ok(false)
    } else {
        Err(err0(ErrorKindView::AffixCrossProduct { s: x }))
    }
}

/// Interpret the cross-product column of a rule-group header.
pub fn parse_xprod(s: &str) -> (r: Result<bool, ParseError>)
    ensures
        ({
            let m = spec_xprod(s@);
            match (r, m) {
                (Ok(b), Ok(bv)) => b == bv,
                (Err(e), Err(ev)) => e@ == ev,
                _ => false,
            }
        }),
{
    if s.unicode_len() == 1 {
        let c = s.get_char(0);
        if c == 'y' || c == 'Y' {
            return Ok(true);
        }
        if c == 'n' || c == 'N' {
            return Ok(false);
        }
    }
    Err(ParseError::new_nospan(ParseErrorType::AffixCrossProduct { s: s.to_owned() }))
}

} // verus!
