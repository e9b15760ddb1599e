//! The `PFX`/`SFX` rule-group recognizer: a table whose header declares a
//! flag, a cross-product letter and a count, and whose body rows must each
//! match the rule grammar and quote the header's flag.
//!
//! Header grammar: `<flag> <xprod> <count>` — word token, single whitespace,
//! word token, single whitespace, digits to the end.
//! Body grammar: `<flag> <strip> <affix> <condition> [<morph>...]` — the
//! first two tokens are word tokens, separators are whitespace runs, and
//! everything after the fourth token's following whitespace is the morph
//! field.

use vstd::prelude::*;

use crate::error::{
    err0, err_at, ErrorKindView, ParseError, ParseErrorType, ParseErrorView,
};
use crate::scan::{
    is_ws_char, line_splitter, munch_newline, nonws_run_end, scan_nonws_run, scan_word_run,
    scan_ws_run, spec_line_split, spec_munch, str_eq, word_run_end, ws_char, ws_run_end,
};
use crate::coerce::{
    all_digits, all_digits_str, parse_u32_str, parse_xprod, spec_parse_u32, spec_xprod,
};
use crate::validate::{parse_morph_info, spec_morph_list};
use crate::table::{spec_table_count_err, table_count_err};
use crate::types::{AffixRule, AffixRuleView, RuleGroup, RuleGroupView, RuleType};

verus! {

/// The header payload split into `(flag, xprod, count)` tokens, or `None`
/// when it does not match the header grammar.
pub open spec fn spec_affix_header(w: Seq<char>) -> Option<(Seq<char>, Seq<char>, Seq<char>)> {
    let e1 = word_run_end(w, 0);
    if e1 < 1 || e1 >= w.len() || !is_ws_char(w[e1]) {
        None
    } else {
        let s2 = e1 + 1;
        let e2 = word_run_end(w, s2);
        if e2 <= s2 || e2 >= w.len() || !is_ws_char(w[e2]) {
            None
        } else {
            let s3 = e2 + 1;
            let t3 = w.subrange(s3, w.len() as int);
            if t3.len() == 0 || !all_digits(t3) {
                None
            } else {
                Some((w.subrange(0, e1), w.subrange(s2, e2), t3))
            }
        }
    }
}

/// A body row split into `(flag, strip, affix, condition, morph)`, or
/// `None` when it does not match the body grammar.
pub open spec fn spec_rule_line(row: Seq<char>) -> Option<
    (Seq<char>, Seq<char>, Seq<char>, Seq<char>, Option<Seq<char>>),
> {
    let e1 = word_run_end(row, 0);
    let s2 = ws_run_end(row, e1);
    let e2 = word_run_end(row, s2);
    let s3 = ws_run_end(row, e2);
    let e3 = nonws_run_end(row, s3);
    let s4 = ws_run_end(row, e3);
    let e4 = nonws_run_end(row, s4);
    if e1 < 1 || s2 <= e1 || s2 >= row.len() || e2 <= s2 || s3 <= e2 || s3 >= row.len() || s4
        <= e3 || s4 >= row.len() {
        None
    } else {
        let flag = row.subrange(0, e1);
        let strip = row.subrange(s2, e2);
        let affix = row.subrange(s3, e3);
        let cond = row.subrange(s4, e4);
        if e4 >= row.len() {
            Some((flag, strip, affix, cond, None))
        } else {
            let s5 = ws_run_end(row, e4);
            if s5 >= row.len() {
                None
            } else {
                Some((flag, strip, affix, cond, Some(row.subrange(s5, row.len() as int))))
            }
        }
    }
}

/// One validated body row: the flag must equal the header's, `"0"` strip
/// and `"."` condition mean "none", and the morph field is validated tag
/// by tag.  Errors carry `nlines`, the intra-group line of this row, and
/// quote the offending line with its key restored.
pub open spec fn spec_rule_row(row: Seq<char>, key: Seq<char>, flag: Seq<char>, nlines: u32) -> Result<
    AffixRuleView,
    ParseErrorView,
> {
    match spec_rule_line(row) {
        None => Err(err_at(ErrorKindView::AffixBody { s: key + seq![' '] + row }, nlines)),
        Some((f, strip, affix, cond, morph)) => {
            if f != flag {
                Err(
                    err_at(
                        ErrorKindView::AffixFlagMismatch { s: key + seq![' '] + row, flag },
                        nlines,
                    ),
                )
            } else {
                let sc = if strip.len() == 1 && strip[0] == '0' {
                    None
                } else {
                    Some(strip)
                };
                let cd = if cond.len() == 1 && cond[0] == '.' {
                    None
                } else {
                    Some(cond)
                };
                match morph {
                    None => Ok(
                        AffixRuleView {
                            stripping_chars: sc,
                            affix,
                            condition: cd,
                            morph_info: None,
                        },
                    ),
                    Some(m) => match spec_morph_list(m, 0) {
                        Err(tok) => Err(err_at(ErrorKindView::MorphInfo { s: tok }, nlines)),
                        Ok(list) => Ok(
                            AffixRuleView {
                                stripping_chars: sc,
                                affix,
                                condition: cd,
                                morph_info: Some(list),
                            },
                        ),
                    },
                }
            }
        },
    }
}

/// The offending body line with its key restored, for diagnostics.
fn full_line(key: &str, row: &str) -> (r: String)
    ensures
        r@ == key@ + seq![' '] + row@,
{
    let mut t = key.to_owned();
    t.append(" ");
    t.append(row);
    proof {
        reveal_strlit(" ");
        assert(" "@ =~= seq![' ']);
        assert(t@ =~= key@ + seq![' '] + row@);
    }
    t
}

/// Parse and validate one rule body row against the header's flag.
pub fn rule_row_from_str(row: &str, key: &str, flag: &str, nlines: u32) -> (r: Result<
    AffixRule,
    ParseError,
>)
    ensures
        ({
            let m = spec_rule_row(row@, key@, flag@, nlines);
            match (r, m) {
                (Ok(rule), Ok(rv)) => rule@ == rv,
                (Err(e), Err(ev)) => e@ == ev,
                _ => false,
            }
        }),
{
    let n = row.unicode_len();
    let e1 = scan_word_run(row, 0);
    let s2 = scan_ws_run(row, e1);
    let e2 = scan_word_run(row, s2);
    let s3 = scan_ws_run(row, e2);
    let e3 = scan_nonws_run(row, s3);
    let s4 = scan_ws_run(row, e3);
    let e4 = scan_nonws_run(row, s4);
    if e1 < 1 || s2 <= e1 || s2 >= n || e2 <= s2 || s3 <= e2 || s3 >= n || s4 <= e3 || s4 >= n {
        return Err(
            ParseError::new(ParseErrorType::AffixBody { s: full_line(key, row) }, nlines, 0),
        );
    }
    // The morph segment's extent is part of the line grammar: settle it
    // before any validation, as the grammar match comes first.
    let morph_span: Option<usize> = if e4 == n {
        None
    } else {
        let s5 = scan_ws_run(row, e4);
        if s5 == n {
            return Err(
                ParseError::new(ParseErrorType::AffixBody { s: full_line(key, row) }, nlines, 0),
            );
        }
        Some(s5)
    };
    let f = row.substring_char(0, e1);
    if !str_eq(f, flag) {
        return Err(
            ParseError::new(
                ParseErrorType::AffixFlagMismatch {
                    s: full_line(key, row),
                    flag: flag.to_owned(),
                },
                nlines,
                0,
            ),
        );
    }
    let strip = row.substring_char(s2, e2);
    let stripping_chars: Option<String> = if strip.unicode_len() == 1 && strip.get_char(0)
        == '0' {
        None
    } else {
        Some(strip.to_owned())
    };
    let affix = row.substring_char(s3, e3).to_owned();
    let cond = row.substring_char(s4, e4);
    let condition: Option<String> = if cond.unicode_len() == 1 && cond.get_char(0) == '.' {
        None
    } else {
        Some(cond.to_owned())
    };
    let morph_info: Option<Vec<crate::types::MorphInfo>>;
    match morph_span {
        None => {
            morph_info = None;
        },
        Some(s5) => {
            let mstr = row.substring_char(s5, n);
            match parse_morph_info(mstr, nlines) {
                Err(e) => {
                    return Err(e);
                },
                Ok(list) => {
                    morph_info = Some(list);
                },
            }
        },
    }
    Ok(AffixRule { stripping_chars, affix, condition, morph_info })
}

/// Rows `i..n` of a rule-group body, validated against `flag`.
pub open spec fn spec_affix_body(
    s: Seq<char>,
    key: Seq<char>,
    flag: Seq<char>,
    n: u32,
    i: u32,
) -> Result<(Seq<AffixRuleView>, Seq<char>), ParseErrorView>
    decreases n - i,
    when i <= n
{
    if i >= n {
        Ok((Seq::empty(), s))
    } else {
        match spec_line_split(s, key) {
            None => Err(spec_table_count_err(n, i)),
            Some((row, resid)) => match spec_rule_row(row, key, flag, (i + 1) as u32) {
                Err(e) => Err(e),
                Ok(rule) => {
                    if i + 1 < n {
                        match spec_munch(resid) {
                            Err(c) => Err(err0(ErrorKindView::NonWhitespace { c })),
                            Ok(None) => Err(spec_table_count_err(n, i)),
                            Ok(Some(r2)) => match spec_affix_body(r2, key, flag, n, (i + 1) as u32) {
                                Ok((rules, rr)) => Ok((seq![rule] + rules, rr)),
                                Err(e) => Err(e),
                            },
                        }
                    } else {
                        Ok((seq![rule], resid))
                    }
                },
            },
        }
    }
}

/// Prefix already-validated rules onto the outcome for the remaining rows.
pub open spec fn compose_rules(
    acc: Seq<AffixRuleView>,
    m: Result<(Seq<AffixRuleView>, Seq<char>), ParseErrorView>,
) -> Result<(Seq<AffixRuleView>, Seq<char>), ParseErrorView> {
    match m {
        Ok((rules, rr)) => Ok((acc + rules, rr)),
        Err(e) => Err(e),
    }
}

/// Attach the group and line count to a finished body.
pub open spec fn affix_wrap(
    flag: Seq<char>,
    kind: RuleType,
    can_combine: bool,
    count: u32,
    m: Result<(Seq<AffixRuleView>, Seq<char>), ParseErrorView>,
) -> Result<Option<(RuleGroupView, Seq<char>, u32)>, ParseErrorView> {
    match m {
        Ok((rules, rr)) => Ok(
            Some(
                (
                    RuleGroupView { flag, kind, can_combine, rules },
                    rr,
                    if count == 0 {
                        1u32
                    } else {
                        count
                    },
                ),
            ),
        ),
        Err(e) => Err(e),
    }
}

/// Ghost content of [`affix_table_parser`].
pub open spec fn spec_affix_table(s: Seq<char>, key: Seq<char>, kind: RuleType) -> Result<
    Option<(RuleGroupView, Seq<char>, u32)>,
    ParseErrorView,
> {
    match spec_line_split(s, key) {
        None => Ok(None),
        Some((work, resid)) => match spec_affix_header(work) {
            None => Err(err0(ErrorKindView::AffixBody { s: resid })),
            Some((flag, xp, numtok)) => match spec_xprod(xp) {
                Err(e) => Err(e),
                Ok(can_combine) => match spec_parse_u32(numtok) {
                    None => Err(err0(ErrorKindView::BadInt { payload: numtok })),
                    Some(n) => match spec_munch(resid) {
                        Err(c) => Err(err0(ErrorKindView::NonWhitespace { c })),
                        Ok(None) => Err(spec_table_count_err(n, 0)),
                        Ok(Some(r1)) => affix_wrap(
                            flag,
                            kind,
                            can_combine,
                            n,
                            spec_affix_body(r1, key, flag, n, 0),
                        ),
                    },
                },
            },
        },
    }
}

/// A completed rule-group body holds exactly the declared number of rules.
pub proof fn lemma_affix_body_len(s: Seq<char>, key: Seq<char>, flag: Seq<char>, n: u32, i: u32)
    requires
        i <= n,
    ensures
        spec_affix_body(s, key, flag, n, i) matches Ok((rules, rr)) ==> rules.len() == n - i,
    decreases n - i,
{
    if i < n {
        match spec_line_split(s, key) {
            Some((row, resid)) => {
                if i + 1 < n {
                    match spec_munch(resid) {
                        Ok(Some(r2)) => {
                            lemma_affix_body_len(r2, key, flag, n, (i + 1) as u32);
                        },
                        _ => {},
                    }
                }
            },
            None => {},
        }
    }
}

/// A rule-group body's residual is no longer than its input.
pub proof fn lemma_affix_body_resid(s: Seq<char>, key: Seq<char>, flag: Seq<char>, n: u32, i: u32)
    requires
        key.len() >= 1,
        i <= n,
    ensures
        spec_affix_body(s, key, flag, n, i) matches Ok((rules, rr)) ==> rr.len() <= s.len(),
    decreases n - i,
{
    if i < n {
        crate::scan::lemma_split_shrinks(s, key);
        match spec_line_split(s, key) {
            Some((row, resid)) => {
                if i + 1 < n {
                    crate::scan::lemma_munch_shrinks(resid);
                    match spec_munch(resid) {
                        Ok(Some(r2)) => {
                            lemma_affix_body_resid(r2, key, flag, n, (i + 1) as u32);
                        },
                        _ => {},
                    }
                }
            },
            None => {},
        }
    }
}

/// A rule-group body's residual is a tail of its input.
pub proof fn lemma_affix_body_tail(s: Seq<char>, key: Seq<char>, flag: Seq<char>, n: u32, i: u32)
    requires
        i <= n,
    ensures
        spec_affix_body(s, key, flag, n, i) matches Ok((rules, rr)) ==> crate::scan::is_tail_of(
            rr,
            s,
        ),
    decreases n - i,
{
    if i >= n {
        crate::scan::lemma_tail_refl(s);
    } else {
        crate::scan::lemma_split_tail(s, key);
        match spec_line_split(s, key) {
            Some((row, resid)) => {
                if i + 1 < n {
                    crate::scan::lemma_munch_tail(resid);
                    match spec_munch(resid) {
                        Ok(Some(r2)) => {
                            lemma_affix_body_tail(r2, key, flag, n, (i + 1) as u32);
                            match spec_affix_body(r2, key, flag, n, (i + 1) as u32) {
                                Ok((rules, rr)) => {
                                    crate::scan::lemma_tail_trans(rr, r2, resid);
                                    crate::scan::lemma_tail_trans(rr, resid, s);
                                },
                                Err(_) => {},
                            }
                        },
                        _ => {},
                    }
                }
            },
            None => {},
        }
    }
}

/// A recognized rule group's residual is a tail of its input.
pub proof fn lemma_affix_tail(s: Seq<char>, key: Seq<char>, kind: RuleType)
    ensures
        spec_affix_table(s, key, kind) matches Ok(Some((g, rr, nl))) ==> crate::scan::is_tail_of(
            rr,
            s,
        ),
{
    crate::scan::lemma_split_tail(s, key);
    match spec_line_split(s, key) {
        Some((work, resid)) => {
            crate::scan::lemma_munch_tail(resid);
            match spec_affix_header(work) {
                Some((flag, xp, numtok)) => {
                    match spec_munch(resid) {
                        Ok(Some(r1)) => {
                            match spec_parse_u32(numtok) {
                                Some(n) => {
                                    lemma_affix_body_tail(r1, key, flag, n, 0);
                                    match spec_affix_body(r1, key, flag, n, 0) {
                                        Ok((rules, rr)) => {
                                            crate::scan::lemma_tail_trans(rr, r1, resid);
                                            crate::scan::lemma_tail_trans(rr, resid, s);
                                        },
                                        Err(_) => {},
                                    }
                                },
                                None => {},
                            }
                        },
                        _ => {},
                    }
                },
                None => {},
            }
        },
        None => {},
    }
}

/// A recognized rule group's residual is strictly shorter than its input.
pub proof fn lemma_affix_shrinks(s: Seq<char>, key: Seq<char>, kind: RuleType)
    requires
        key.len() >= 1,
    ensures
        spec_affix_table(s, key, kind) matches Ok(Some((g, rr, nl))) ==> rr.len() < s.len(),
{
    crate::scan::lemma_split_shrinks(s, key);
    match spec_line_split(s, key) {
        Some((work, resid)) => {
            crate::scan::lemma_munch_shrinks(resid);
            match spec_affix_header(work) {
                Some((flag, xp, numtok)) => {
                    match spec_munch(resid) {
                        Ok(Some(r1)) => {
                            match spec_parse_u32(numtok) {
                                Some(n) => {
                                    lemma_affix_body_resid(r1, key, flag, n, 0);
                                },
                                None => {},
                            }
                        },
                        _ => {},
                    }
                },
                None => {},
            }
        },
        None => {},
    }
}

/// Recognize a whole `PFX`/`SFX` block and validate its body rows.
///
/// `Ok(None)` when `s` does not start with `key`.  On success every rule's
/// line quoted the header's flag, and the number of rules equals the
/// header's declared count.
pub fn affix_table_parser<'a>(s: &'a str, key: &str, kind: RuleType) -> (r: Result<
    Option<(RuleGroup, &'a str, u32)>,
    ParseError,
>)
    ensures
        ({
            let m = spec_affix_table(s@, key@, kind);
            match (r, m) {
                (Ok(None), Ok(None)) => true,
                (Ok(Some((g, resid, nl))), Ok(Some((gv, rr, nlv)))) => g@ == gv && resid@ == rr
                    && nl == nlv,
                (Err(e), Err(ev)) => e@ == ev,
                _ => false,
            }
        }),
        ({
            match r {
                Ok(Some((g, _, _))) => g.kind == kind,
                _ => true,
            }
        }),
{
    let (work, resid0) = match line_splitter(s, key) {
        None => {
            return Ok(None);
        },
        Some(x) => x,
    };

    // Header: `<flag> <xprod> <count>`.
    let wn = work.unicode_len();
    let e1 = scan_word_run(work, 0);
    if e1 < 1 || e1 >= wn || !ws_char(work.get_char(e1)) {
        return Err(
            ParseError::new_nospan(ParseErrorType::AffixBody { s: resid0.to_owned() }),
        );
    }
    let s2 = e1 + 1;
    let e2 = scan_word_run(work, s2);
    if e2 <= s2 || e2 >= wn || !ws_char(work.get_char(e2)) {
        return Err(
            ParseError::new_nospan(ParseErrorType::AffixBody { s: resid0.to_owned() }),
        );
    }
    let s3 = e2 + 1;
    let numtok = work.substring_char(s3, wn);
    if numtok.unicode_len() == 0 || !all_digits_str(numtok) {
        return Err(
            ParseError::new_nospan(ParseErrorType::AffixBody { s: resid0.to_owned() }),
        );
    }
    let flag = work.substring_char(0, e1);
    let xp = work.substring_char(s2, e2);
    let can_combine = match parse_xprod(xp) {
        Ok(b) => b,
        Err(e) => {
            return Err(e);
        },
    };
    let count: u32 = match parse_u32_str(numtok) {
        Some(v) => v,
        None => {
            return Err(
                ParseError::new_nospan(ParseErrorType::BadInt { payload: numtok.to_owned() }),
            );
        },
    };

    let mut residual: &str = match munch_newline(resid0) {
        Err(e) => {
            return Err(e);
        },
        Ok(None) => {
            return Err(table_count_err(count, 0));
        },
        Ok(Some(r1)) => r1,
    };
    let ghost r1v = residual@;
    let ghost flagv = flag@;
    let mut nlines: u32 = 1;
    let mut rules: Vec<AffixRule> = Vec::new();
    let mut i: u32 = 0;
    proof {
        assert(rules.deep_view() =~= Seq::<AffixRuleView>::empty());
        assert(spec_affix_table(s@, key@, kind) == affix_wrap(
            flagv,
            kind,
            can_combine,
            count,
            spec_affix_body(r1v, key@, flagv, count, 0),
        ));
        match spec_affix_body(r1v, key@, flagv, count, 0) {
            Ok((rs, rr)) => {
                assert(Seq::<AffixRuleView>::empty() + rs =~= rs);
            },
            Err(_) => {},
        }
    }
    while i < count
        invariant
            0 <= i <= count,
            nlines == (if i == count && count > 0 {
                count
            } else {
                (i + 1) as u32
            }),
            flag@ == flagv,
            affix_wrap(
                flagv,
                kind,
                can_combine,
                count,
                compose_rules(
                    rules.deep_view(),
                    spec_affix_body(residual@, key@, flagv, count, i),
                ),
            ) == spec_affix_table(s@, key@, kind),
        decreases count - i,
    {
        let ghost old_dv = rules.deep_view();
        let ghost old_res = residual@;
        let (content, resid) = match line_splitter(residual, key) {
            None => {
                return Err(table_count_err(count, i));
            },
            Some(x) => x,
        };
        let rule = match rule_row_from_str(content, key, flag, i + 1) {
            Err(e) => {
                return Err(e);
            },
            Ok(rl) => rl,
        };
        let ghost rulev = rule@;
        rules.push(rule);
        proof {
            assert(rules.deep_view() =~= old_dv.push(rulev));
            assert(old_dv.push(rulev) =~= old_dv + seq![rulev]);
        }
        residual = resid;
        if i + 1 < count {
            match munch_newline(residual) {
                Err(e) => {
                    return Err(e);
                },
                Ok(None) => {
                    return Err(table_count_err(count, i));
                },
                Ok(Some(r2)) => {
                    residual = r2;
                    nlines += 1;
                },
            }
            proof {
                match spec_affix_body(residual@, key@, flagv, count, (i + 1) as u32) {
                    Ok((rs, rr)) => {
                        assert(old_dv + (seq![rulev] + rs) =~= (old_dv + seq![rulev]) + rs);
                    },
                    Err(_) => {},
                }
            }
        } else {
            proof {
                assert(spec_affix_body(old_res, key@, flagv, count, i) == Ok::<
                    (Seq<AffixRuleView>, Seq<char>),
                    ParseErrorView,
                >((seq![rulev], residual@)));
                assert(spec_affix_body(residual@, key@, flagv, count, (i + 1) as u32) == Ok::<
                    (Seq<AffixRuleView>, Seq<char>),
                    ParseErrorView,
                >((Seq::empty(), residual@)));
                assert(old_dv + seq![rulev] =~= old_dv + (seq![rulev]
                    + Seq::<AffixRuleView>::empty()));
                assert((old_dv + seq![rulev]) + Seq::<AffixRuleView>::empty() =~= old_dv
                    + seq![rulev]);
            }
        }
        i += 1;
    }
    proof {
        assert(spec_affix_body(residual@, key@, flagv, count, i) == Ok::<
            (Seq<AffixRuleView>, Seq<char>),
            ParseErrorView,
        >((Seq::empty(), residual@)));
        assert(rules.deep_view() + Seq::<AffixRuleView>::empty() =~= rules.deep_view());
    }
    let group = RuleGroup { flag: flag.to_owned(), kind, can_combine, rules };
    Ok(Some((group, residual, nlines)))
}

} // verus!
