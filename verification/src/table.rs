//! The generic table recognizer: `KEY N` followed by exactly `N` lines of
//! `KEY <row>`.
//!
//! The header's payload is the declared row count; each body line repeats
//! the key; the newline after every line but the last is consumed here so
//! the caller can account for lines.

use vstd::prelude::*;

use crate::error::{
    err0, sat_add_u32, ErrorKindView, ParseError, ParseErrorType, ParseErrorView,
};
use crate::scan::{line_splitter, munch_newline, spec_line_split, spec_munch};
use crate::coerce::{parse_u32_str, spec_parse_u32};

verus! {

/// The error for a table whose body ran out at row `i` of `count`,
/// positioned at the offending row's intra-directive line.
pub open spec fn spec_table_count_err(count: u32, i: u32) -> ParseErrorView {
    ParseErrorView {
        kind: ErrorKindView::TableCount { expected: count, received: i },
        line: sat_add_u32(i, 1),
        col: 0u32,
    }
}

/// Build the [`ParseErrorType::TableCount`] error for row `i` of `count`.
pub fn table_count_err(count: u32, i: u32) -> (r: ParseError)
    ensures
        r@ == spec_table_count_err(count, i),
{
    let line = crate::error::sat_add(i, 1);
    ParseError::new(ParseErrorType::TableCount { expected: count, received: i }, line, 0)
}

/// Rows `i..n` of a table body: each must repeat `key`; the newline after
/// every row but the last is consumed.  Yields the collected trimmed rows
/// and the residual after the last row's payload.
pub open spec fn spec_table_body(s: Seq<char>, key: Seq<char>, n: u32, i: u32) -> Result<
    (Seq<Seq<char>>, Seq<char>),
    ParseErrorView,
>
    decreases n - i,
    when i <= n
{
    if i >= n {
        Ok((Seq::empty(), s))
    } else {
        match spec_line_split(s, key) {
            None => Err(spec_table_count_err(n, i)),
            Some((row, resid)) => {
                if i + 1 < n {
                    match spec_munch(resid) {
                        Err(c) => Err(err0(ErrorKindView::NonWhitespace { c })),
                        Ok(None) => Err(spec_table_count_err(n, i)),
                        Ok(Some(r2)) => match spec_table_body(r2, key, n, (i + 1) as u32) {
                            Ok((rows, rr)) => Ok((seq![row] + rows, rr)),
                            Err(e) => Err(e),
                        },
                    }
                } else {
                    Ok((seq![row], resid))
                }
            },
        }
    }
}

/// Prefix already-collected rows onto the outcome for the remaining ones.
pub open spec fn compose_table(
    acc: Seq<Seq<char>>,
    m: Result<(Seq<Seq<char>>, Seq<char>), ParseErrorView>,
) -> Result<(Seq<Seq<char>>, Seq<char>), ParseErrorView> {
    match m {
        Ok((rows, rr)) => Ok((acc + rows, rr)),
        Err(e) => Err(e),
    }
}

/// Attach the line count to a finished table body: a table consumes `N`
/// newlines when `N >= 1`, and one (the header's) when `N == 0`.
pub open spec fn table_wrap(
    count: u32,
    m: Result<(Seq<Seq<char>>, Seq<char>), ParseErrorView>,
) -> Result<Option<(Seq<Seq<char>>, Seq<char>, u32)>, ParseErrorView> {
    match m {
        Ok((rows, rr)) => Ok(
            Some(
                (
                    rows,
                    rr,
                    if count == 0 {
                        1u32
                    } else {
                        count
                    },
                ),
            ),
        ),
        Err(e) => Err(e),
    }
}

/// Ghost content of [`table_parser`].
pub open spec fn spec_table(s: Seq<char>, key: Seq<char>) -> Result<
    Option<(Seq<Seq<char>>, Seq<char>, u32)>,
    ParseErrorView,
> {
    match spec_line_split(s, key) {
        None => Ok(None),
        Some((work, resid)) => match spec_parse_u32(work) {
            None => Err(err0(ErrorKindView::BadInt { payload: work })),
            Some(n) => match spec_munch(resid) {
                Err(c) => Err(err0(ErrorKindView::NonWhitespace { c })),
                Ok(None) => Err(spec_table_count_err(n, 0)),
                Ok(Some(r1)) => table_wrap(n, spec_table_body(r1, key, n, 0)),
            },
        },
    }
}

/// A completed table body holds exactly the declared number of rows.
pub proof fn lemma_table_body_len(s: Seq<char>, key: Seq<char>, n: u32, i: u32)
    requires
        i <= n,
    ensures
        spec_table_body(s, key, n, i) matches Ok((rows, rr)) ==> rows.len() == n - i,
    decreases n - i,
{
    if i < n {
        match spec_line_split(s, key) {
            Some((row, resid)) => {
                if i + 1 < n {
                    match spec_munch(resid) {
                        Ok(Some(r2)) => {
                            lemma_table_body_len(r2, key, n, (i + 1) as u32);
                        },
                        _ => {},
                    }
                }
            },
            None => {},
        }
    }
}

/// A table body's residual is no longer than its input.
pub proof fn lemma_table_body_resid(s: Seq<char>, key: Seq<char>, n: u32, i: u32)
    requires
        key.len() >= 1,
        i <= n,
    ensures
        spec_table_body(s, key, n, i) matches Ok((rows, rr)) ==> rr.len() <= s.len(),
    decreases n - i,
{
    if i < n {
        crate::scan::lemma_split_shrinks(s, key);
        match spec_line_split(s, key) {
            Some((row, resid)) => {
                if i + 1 < n {
                    crate::scan::lemma_munch_shrinks(resid);
                    match spec_munch(resid) {
                        Ok(Some(r2)) => {
                            lemma_table_body_resid(r2, key, n, (i + 1) as u32);
                        },
                        _ => {},
                    }
                }
            },
            None => {},
        }
    }
}

/// A table body's residual is a tail of its input.
pub proof fn lemma_table_body_tail(s: Seq<char>, key: Seq<char>, n: u32, i: u32)
    requires
        i <= n,
    ensures
        spec_table_body(s, key, n, i) matches Ok((rows, rr)) ==> crate::scan::is_tail_of(rr, s),
    decreases n - i,
{
    if i >= n {
        crate::scan::lemma_tail_refl(s);
    } else {
        crate::scan::lemma_split_tail(s, key);
        match spec_line_split(s, key) {
            Some((row, resid)) => {
                if i + 1 < n {
                    crate::scan::lemma_munch_tail(resid);
                    match spec_munch(resid) {
                        Ok(Some(r2)) => {
                            lemma_table_body_tail(r2, key, n, (i + 1) as u32);
                            match spec_table_body(r2, key, n, (i + 1) as u32) {
                                Ok((rows, rr)) => {
                                    crate::scan::lemma_tail_trans(rr, r2, resid);
                                    crate::scan::lemma_tail_trans(rr, resid, s);
                                },
                                Err(_) => {},
                            }
                        },
                        _ => {},
                    }
                }
            },
            None => {},
        }
    }
}

/// A recognized table's residual is a tail of its input.
pub proof fn lemma_table_tail(s: Seq<char>, key: Seq<char>)
    ensures
        spec_table(s, key) matches Ok(Some((rows, rr, nl))) ==> crate::scan::is_tail_of(rr, s),
{
    crate::scan::lemma_split_tail(s, key);
    match spec_line_split(s, key) {
        Some((work, resid)) => {
            crate::scan::lemma_munch_tail(resid);
            match spec_munch(resid) {
                Ok(Some(r1)) => {
                    match spec_parse_u32(work) {
                        Some(n) => {
                            lemma_table_body_tail(r1, key, n, 0);
                            match spec_table_body(r1, key, n, 0) {
                                Ok((rows, rr)) => {
                                    crate::scan::lemma_tail_trans(rr, r1, resid);
                                    crate::scan::lemma_tail_trans(rr, resid, s);
                                },
                                Err(_) => {},
                            }
                        },
                        None => {},
                    }
                },
                _ => {},
            }
        },
        None => {},
    }
}

/// A recognized table's residual is strictly shorter than its input.
pub proof fn lemma_table_shrinks(s: Seq<char>, key: Seq<char>)
    requires
        key.len() >= 1,
    ensures
        spec_table(s, key) matches Ok(Some((rows, rr, nl))) ==> rr.len() < s.len(),
{
    crate::scan::lemma_split_shrinks(s, key);
    match spec_line_split(s, key) {
        Some((work, resid)) => {
            crate::scan::lemma_munch_shrinks(resid);
            match spec_munch(resid) {
                Ok(Some(r1)) => {
                    match spec_parse_u32(work) {
                        Some(n) => {
                            lemma_table_body_resid(r1, key, n, 0);
                        },
                        None => {},
                    }
                },
                _ => {},
            }
        },
        None => {},
    }
}

/// Recognize a counted table: `KEY N` then `N` rows of `KEY <row>`.
///
/// `Ok(None)` when `s` does not start with `key`.  On success the trimmed
/// row payloads are collected in order, together with the residual after
/// the last row and the number of newlines consumed.
pub fn table_parser<'a>(s: &'a str, key: &str) -> (r: Result<
    Option<(Vec<String>, &'a str, u32)>,
    ParseError,
>)
    ensures
        ({
            let m = spec_table(s@, key@);
            match (r, m) {
                (Ok(None), Ok(None)) => true,
                (Ok(Some((rows, resid, nl))), Ok(Some((rv, rr, nlv)))) => rows.deep_view() == rv
                    && resid@ == rr && nl == nlv,
                (Err(e), Err(ev)) => e@ == ev,
                _ => false,
            }
        }),
        ({
            match r {
                Ok(Some((rows, _, _))) => rows@.len() <= u32::MAX,
                _ => true,
            }
        }),
{
    let (work, resid0) = match line_splitter(s, key) {
        None => {
            return Ok(None);
        },
        Some(x) => x,
    };
    let count: u32 = match parse_u32_str(work) {
        Some(v) => v,
        None => {
            return Err(
                ParseError::new_nospan(ParseErrorType::BadInt { payload: work.to_owned() }),
            );
        },
    };
    let mut residual: &str = match munch_newline(resid0) {
        Err(e) => {
            return Err(e);
        },
        Ok(None) => {
            return Err(table_count_err(count, 0));
        },
        Ok(Some(r1)) => r1,
    };
    let ghost r1v = residual@;
    let mut nlines: u32 = 1;
    let mut ret: Vec<String> = Vec::new();
    let mut i: u32 = 0;
    proof {
        assert(ret.deep_view() =~= Seq::<Seq<char>>::empty());
        assert(spec_table(s@, key@) == table_wrap(count, spec_table_body(r1v, key@, count, 0)));
        match spec_table_body(r1v, key@, count, 0) {
            Ok((rows, rr)) => {
                assert(Seq::<Seq<char>>::empty() + rows =~= rows);
            },
            Err(_) => {},
        }
    }
    while i < count
        invariant
            0 <= i <= count,
            ret@.len() == i,
            nlines == (if i == count && count > 0 {
                count
            } else {
                (i + 1) as u32
            }),
            table_wrap(
                count,
                compose_table(
                    ret.deep_view(),
                    spec_table_body(residual@, key@, count, i),
                ),
            ) == spec_table(s@, key@),
        decreases count - i,
    {
        let ghost old_dv = ret.deep_view();
        let ghost old_res = residual@;
        let (content, resid) = match line_splitter(residual, key) {
            None => {
                return Err(table_count_err(count, i));
            },
            Some(x) => x,
        };
        let ghost rowv = content@;
        ret.push(content.to_owned());
        proof {
            assert(ret.deep_view() =~= old_dv.push(rowv));
            assert(old_dv.push(rowv) =~= old_dv + seq![rowv]);
        }
        residual = resid;
        if i + 1 < count {
            match munch_newline(residual) {
                Err(e) => {
                    return Err(e);
                },
                Ok(None) => {
                    return Err(table_count_err(count, i));
                },
                Ok(Some(r2)) => {
                    residual = r2;
                    nlines += 1;
                },
            }
            proof {
                match spec_table_body(residual@, key@, count, (i + 1) as u32) {
                    Ok((rows, rr)) => {
                        assert(old_dv + (seq![rowv] + rows) =~= (old_dv + seq![rowv]) + rows);
                    },
                    Err(_) => {},
                }
            }
        } else {
            proof {
                assert(spec_table_body(old_res, key@, count, i) == Ok::<
                    (Seq<Seq<char>>, Seq<char>),
                    ParseErrorView,
                >((seq![rowv], residual@)));
                assert(spec_table_body(residual@, key@, count, (i + 1) as u32) == Ok::<
                    (Seq<Seq<char>>, Seq<char>),
                    ParseErrorView,
                >((Seq::empty(), residual@)));
                assert(old_dv + seq![rowv] =~= old_dv + (seq![rowv] + Seq::<Seq<char>>::empty()));
                assert((old_dv + seq![rowv]) + Seq::<Seq<char>>::empty() =~= old_dv + seq![rowv]);
            }
        }
        i += 1;
    }
    proof {
        assert(spec_table_body(residual@, key@, count, i) == Ok::<
            (Seq<Seq<char>>, Seq<char>),
            ParseErrorView,
        >((Seq::empty(), residual@)));
        assert(ret.deep_view() + Seq::<Seq<char>>::empty() =~= ret.deep_view());
    }
    Ok(Some((ret, residual, nlines)))
}

} // verus!
