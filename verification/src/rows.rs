//! Validation of collected table rows: the whitespace-free check shared by
//! `AF`/`AM`/`BREAK`/`COMPOUNDRULE`, and the row-by-row conversions for
//! `REP`/`ICONV`/`OCONV`, `MAP`, `PHONE` and `CHECKCOMPOUNDPATTERN`.
//!
//! Errors are positioned at the offending row's intra-table line, `i + 1`.

use vstd::prelude::*;

use crate::error::{err_at, ErrorKindView, ParseError, ParseErrorView};
use crate::validate::{
    compose_res, compound_pattern_from_str, contains_ws, conversion_from_str, map_pair_from_row,
    phonetic_from_str, row_has_ws, spec_compound_pattern, spec_conversion, spec_map_pair,
    spec_phonetic,
};
use crate::types::{
    CompoundPattern, CompoundPatternView, Conversion, ConversionView, Phonetic, PhoneticView,
};

verus! {

/// The first row containing whitespace, as its error, if any.
pub open spec fn spec_ws_free_rows(rows: Seq<Seq<char>>, i: int) -> Option<ParseErrorView>
    decreases rows.len() - i,
    when 0 <= i <= rows.len()
{
    if i >= rows.len() {
        None
    } else if contains_ws(rows[i]) {
        Some(err_at(ErrorKindView::ContainsWhitespace { row: rows[i] }, (i + 1) as u32))
    } else {
        spec_ws_free_rows(rows, i + 1)
    }
}

/// Check that no row contains whitespace.
pub fn rows_ws_free(rows: &Vec<String>) -> (r: Result<(), ParseError>)
    requires
        rows@.len() <= u32::MAX,
    ensures
        ({
            let m = spec_ws_free_rows(rows.deep_view(), 0);
            match (r, m) {
                (Ok(()), None) => true,
                (Err(e), Some(ev)) => e@ == ev,
                _ => false,
            }
        }),
{
    let n = rows.len();
    let mut i: usize = 0;
    while i < n
        invariant
            0 <= i <= n,
            n == rows@.len() <= u32::MAX,
            spec_ws_free_rows(rows.deep_view(), 0) == spec_ws_free_rows(
                rows.deep_view(),
                i as int,
            ),
        decreases n - i,
    {
        if row_has_ws(rows[i].as_str()) {
            return Err(
                ParseError::new(
                    crate::error::ParseErrorType::ContainsWhitespace { row: rows[i].clone() },
                    (i + 1) as u32,
                    0,
                ),
            );
        }
        i += 1;
    }
    Ok(())
}

/// Each row as a conversion, or the first failure.
pub open spec fn spec_conv_rows(rows: Seq<Seq<char>>, i: int, bidirectional: bool) -> Result<
    Seq<ConversionView>,
    ParseErrorView,
>
    decreases rows.len() - i,
    when 0 <= i <= rows.len()
{
    if i >= rows.len() {
        Ok(Seq::empty())
    } else {
        match spec_conversion(rows[i], bidirectional) {
            Err(k) => Err(err_at(k, (i + 1) as u32)),
            Ok(c) => match spec_conv_rows(rows, i + 1, bidirectional) {
                Ok(rest) => Ok(seq![c] + rest),
                Err(e) => Err(e),
            },
        }
    }
}

/// Convert every row of a `REP`/`ICONV`/`OCONV` table.
pub fn rows_to_conversions(rows: &Vec<String>, bidirectional: bool) -> (r: Result<
    Vec<Conversion>,
    ParseError,
>)
    requires
        rows@.len() <= u32::MAX,
    ensures
        ({
            let m = spec_conv_rows(rows.deep_view(), 0, bidirectional);
            match (r, m) {
                (Ok(v), Ok(sv)) => v.deep_view() == sv,
                (Err(e), Err(ev)) => e@ == ev,
                _ => false,
            }
        }),
{
    let n = rows.len();
    let mut ret: Vec<Conversion> = Vec::new();
    let mut i: usize = 0;
    proof {
        assert(ret.deep_view() =~= Seq::<ConversionView>::empty());
    }
    while i < n
        invariant
            0 <= i <= n,
            n == rows@.len() <= u32::MAX,
            compose_res(ret.deep_view(), spec_conv_rows(rows.deep_view(), i as int, bidirectional))
                == spec_conv_rows(rows.deep_view(), 0, bidirectional),
        decreases n - i,
    {
        match conversion_from_str(rows[i].as_str(), bidirectional) {
            Err(k) => {
                return Err(ParseError::new(k, (i + 1) as u32, 0));
            },
            Ok(c) => {
                let ghost old_dv = ret.deep_view();
                let ghost cv = c@;
                ret.push(c);
                proof {
                    assert(ret.deep_view() =~= old_dv.push(cv));
                    match spec_conv_rows(rows.deep_view(), i + 1, bidirectional) {
                        Ok(rest) => {
                            assert(old_dv + (seq![cv] + rest) =~= old_dv.push(cv) + rest);
                        },
                        Err(_) => {},
                    }
                }
            },
        }
        i += 1;
    }
    proof {
        assert(ret.deep_view() + Seq::<ConversionView>::empty() =~= ret.deep_view());
    }
    Ok(ret)
}

/// Each row's first two characters, or the first too-short row's failure.
pub open spec fn spec_map_rows(rows: Seq<Seq<char>>, i: int) -> Result<
    Seq<(char, char)>,
    ParseErrorView,
>
    decreases rows.len() - i,
    when 0 <= i <= rows.len()
{
    if i >= rows.len() {
        Ok(Seq::empty())
    } else {
        match spec_map_pair(rows[i]) {
            Err(k) => Err(err_at(k, (i + 1) as u32)),
            Ok(p) => match spec_map_rows(rows, i + 1) {
                Ok(rest) => Ok(seq![p] + rest),
                Err(e) => Err(e),
            },
        }
    }
}

/// Convert every row of a `MAP` table.
pub fn rows_to_pairs(rows: &Vec<String>) -> (r: Result<Vec<(char, char)>, ParseError>)
    requires
        rows@.len() <= u32::MAX,
    ensures
        ({
            let m = spec_map_rows(rows.deep_view(), 0);
            match (r, m) {
                (Ok(v), Ok(sv)) => v.deep_view() == sv,
                (Err(e), Err(ev)) => e@ == ev,
                _ => false,
            }
        }),
{
    let n = rows.len();
    let mut ret: Vec<(char, char)> = Vec::new();
    let mut i: usize = 0;
    proof {
        assert(ret.deep_view() =~= Seq::<(char, char)>::empty());
    }
    while i < n
        invariant
            0 <= i <= n,
            n == rows@.len() <= u32::MAX,
            compose_res(ret.deep_view(), spec_map_rows(rows.deep_view(), i as int))
                == spec_map_rows(rows.deep_view(), 0),
        decreases n - i,
    {
        match map_pair_from_row(rows[i].as_str()) {
            Err(k) => {
                return Err(ParseError::new(k, (i + 1) as u32, 0));
            },
            Ok(p) => {
                let ghost old_dv = ret.deep_view();
                ret.push(p);
                proof {
                    assert(ret.deep_view() =~= old_dv.push(p));
                    match spec_map_rows(rows.deep_view(), i + 1) {
                        Ok(rest) => {
                            assert(old_dv + (seq![p] + rest) =~= old_dv.push(p) + rest);
                        },
                        Err(_) => {},
                    }
                }
            },
        }
        i += 1;
    }
    proof {
        assert(ret.deep_view() + Seq::<(char, char)>::empty() =~= ret.deep_view());
    }
    Ok(ret)
}

/// Each row as a phonetic rule, or the first failure.
pub open spec fn spec_phone_rows(rows: Seq<Seq<char>>, i: int) -> Result<
    Seq<PhoneticView>,
    ParseErrorView,
>
    decreases rows.len() - i,
    when 0 <= i <= rows.len()
{
    if i >= rows.len() {
        Ok(Seq::empty())
    } else {
        match spec_phonetic(rows[i]) {
            Err(k) => Err(err_at(k, (i + 1) as u32)),
            Ok(p) => match spec_phone_rows(rows, i + 1) {
                Ok(rest) => Ok(seq![p] + rest),
                Err(e) => Err(e),
            },
        }
    }
}

/// Convert every row of a `PHONE` table.
pub fn rows_to_phonetics(rows: &Vec<String>) -> (r: Result<Vec<Phonetic>, ParseError>)
    requires
        rows@.len() <= u32::MAX,
    ensures
        ({
            let m = spec_phone_rows(rows.deep_view(), 0);
            match (r, m) {
                (Ok(v), Ok(sv)) => v.deep_view() == sv,
                (Err(e), Err(ev)) => e@ == ev,
                _ => false,
            }
        }),
{
    let n = rows.len();
    let mut ret: Vec<Phonetic> = Vec::new();
    let mut i: usize = 0;
    proof {
        assert(ret.deep_view() =~= Seq::<PhoneticView>::empty());
    }
    while i < n
        invariant
            0 <= i <= n,
            n == rows@.len() <= u32::MAX,
            compose_res(ret.deep_view(), spec_phone_rows(rows.deep_view(), i as int))
                == spec_phone_rows(rows.deep_view(), 0),
        decreases n - i,
    {
        match phonetic_from_str(rows[i].as_str()) {
            Err(k) => {
                return Err(ParseError::new(k, (i + 1) as u32, 0));
            },
            Ok(p) => {
                let ghost old_dv = ret.deep_view();
                let ghost pv = p@;
                ret.push(p);
                proof {
                    assert(ret.deep_view() =~= old_dv.push(pv));
                    match spec_phone_rows(rows.deep_view(), i + 1) {
                        Ok(rest) => {
                            assert(old_dv + (seq![pv] + rest) =~= old_dv.push(pv) + rest);
                        },
                        Err(_) => {},
                    }
                }
            },
        }
        i += 1;
    }
    proof {
        assert(ret.deep_view() + Seq::<PhoneticView>::empty() =~= ret.deep_view());
    }
    Ok(ret)
}

/// Each row as a compound pattern, or the first failure.
pub open spec fn spec_pattern_rows(rows: Seq<Seq<char>>, i: int) -> Result<
    Seq<CompoundPatternView>,
    ParseErrorView,
>
    decreases rows.len() - i,
    when 0 <= i <= rows.len()
{
    if i >= rows.len() {
        Ok(Seq::empty())
    } else {
        match spec_compound_pattern(rows[i]) {
            Err(k) => Err(err_at(k, (i + 1) as u32)),
            Ok(p) => match spec_pattern_rows(rows, i + 1) {
                Ok(rest) => Ok(seq![p] + rest),
                Err(e) => Err(e),
            },
        }
    }
}

/// Convert every row of a `CHECKCOMPOUNDPATTERN` table.
pub fn rows_to_patterns(rows: &Vec<String>) -> (r: Result<Vec<CompoundPattern>, ParseError>)
    requires
        rows@.len() <= u32::MAX,
    ensures
        ({
            let m = spec_pattern_rows(rows.deep_view(), 0);
            match (r, m) {
                (Ok(v), Ok(sv)) => v.deep_view() == sv,
                (Err(e), Err(ev)) => e@ == ev,
                _ => false,
            }
        }),
{
    let n = rows.len();
    let mut ret: Vec<CompoundPattern> = Vec::new();
    let mut i: usize = 0;
    proof {
        assert(ret.deep_view() =~= Seq::<CompoundPatternView>::empty());
    }
    while i < n
        invariant
            0 <= i <= n,
            n == rows@.len() <= u32::MAX,
            compose_res(ret.deep_view(), spec_pattern_rows(rows.deep_view(), i as int))
                == spec_pattern_rows(rows.deep_view(), 0),
        decreases n - i,
    {
        match compound_pattern_from_str(rows[i].as_str()) {
            Err(k) => {
                return Err(ParseError::new(k, (i + 1) as u32, 0));
            },
            Ok(p) => {
                let ghost old_dv = ret.deep_view();
                let ghost pv = p@;
                ret.push(p);
                proof {
                    assert(ret.deep_view() =~= old_dv.push(pv));
                    match spec_pattern_rows(rows.deep_view(), i + 1) {
                        Ok(rest) => {
                            assert(old_dv + (seq![pv] + rest) =~= old_dv.push(pv) + rest);
                        },
                        Err(_) => {},
                    }
                }
            },
        }
        i += 1;
    }
    proof {
        assert(ret.deep_view() + Seq::<CompoundPatternView>::empty() =~= ret.deep_view());
    }
    Ok(ret)
}

} // verus!
