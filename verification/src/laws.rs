//! Laws of the parser, proved from the contracts in the other modules:
//! how many nodes a successful parse yields, that table and rule-group
//! sizes match their headers, how unrecognized input advances the line
//! counter, that parsing is deterministic, and the boundary behaviours of
//! empty input, zero-count tables, short tables, mismatched rule flags and
//! trailing garbage.

use vstd::prelude::*;

use crate::error::{err_at, sat_add_u32, ErrorKindView, ParseError, ParseErrorView};
use crate::scan::{
    find_char_in, find_sep_from, first_non_ws_in, hash_is_sep, is_sep_char, is_tail_of,
    is_ws_char, lemma_find_sep_bounds, lemma_find_sep_exact, lemma_munch_tail, lemma_split_tail,
    lemma_tail_refl, lemma_tail_trans, seq_starts_with, spec_munch, trim_end_in, trim_range,
};
use crate::coerce::spec_parse_u32;
use crate::table::{
    lemma_table_body_len, lemma_table_tail, spec_table, spec_table_body, spec_table_count_err,
};
use crate::rules::{
    lemma_affix_body_len, lemma_affix_tail, spec_affix_header, spec_affix_table, spec_rule_line,
    spec_rule_row,
};
use crate::scan::spec_line_split;
use crate::types::{AffixNode, NodeView, RuleGroupView, RuleType};
use crate::parser::{
    lemma_try_directive_shrinks, parse_post, spec_parse, spec_parse_from, spec_try_directive,
};
use crate::directives::spec_parse_comment;
use crate::scan::lemma_munch_shrinks;

verus! {

/// The number of directives the dispatch recognizes in `s`, walking the
/// input exactly as the parse does.
pub open spec fn spec_directive_count(s: Seq<char>) -> nat
    decreases s.len(),
    when true
{
    if s.len() == 0 {
        0
    } else {
        match spec_try_directive(s) {
            Err(_) => 0,
            Ok(Some((node, resid, nl))) => match spec_munch(resid) {
                Err(_) => 1,
                Ok(None) => 1,
                Ok(Some(r2)) => {
                    proof {
                        lemma_try_directive_shrinks(s);
                        lemma_munch_shrinks(resid);
                    }
                    1 + spec_directive_count(r2)
                },
            },
            Ok(None) => spec_directive_count(s.subrange(1, s.len() as int)),
        }
    }
}

proof fn lemma_count_nodes(s: Seq<char>, nlines: u32)
    ensures
        spec_parse_from(s, nlines) matches Ok(v) ==> v.len() == spec_directive_count(s),
    decreases s.len(),
{
    if s.len() > 0 {
        match spec_try_directive(s) {
            Err(_) => {},
            Ok(Some((node, resid, nl))) => {
                lemma_try_directive_shrinks(s);
                lemma_munch_shrinks(resid);
                match spec_munch(resid) {
                    Ok(Some(r2)) => {
                        lemma_count_nodes(r2, sat_add_u32(sat_add_u32(nlines, nl), 1));
                    },
                    _ => {},
                }
            },
            Ok(None) => {
                lemma_count_nodes(
                    s.subrange(1, s.len() as int),
                    if s[0] == '\n' {
                        sat_add_u32(nlines, 1)
                    } else {
                        nlines
                    },
                );
            },
        }
    }
}

/// A successful parse yields exactly one node per recognized directive,
/// in source order.
pub proof fn lemma_parse_counts_directives(s: Seq<char>)
    ensures
        spec_parse(s) matches Ok(v) ==> v.len() == spec_directive_count(s),
{
    lemma_count_nodes(s, 1u32);
}

/// A recognized rule group carries exactly as many rules as the integer
/// declared on its header line, and the header's flag.
pub proof fn lemma_rule_group_matches_header(s: Seq<char>, key: Seq<char>, kind: RuleType)
    ensures
        ({
            match spec_affix_table(s, key, kind) {
                Ok(Some((g, rr, nl))) => match spec_line_split(s, key) {
                    Some((work, resid)) => match spec_affix_header(work) {
                        Some((flag, xp, numtok)) => g.rules.len() <= u32::MAX
                            && spec_parse_u32(numtok) == Some(g.rules.len() as u32)
                            && g.flag == flag && g.kind == kind,
                        None => false,
                    },
                    None => false,
                },
                _ => true,
            }
        }),
{
    match spec_line_split(s, key) {
        Some((work, resid)) => {
            match spec_affix_header(work) {
                Some((flag, xp, numtok)) => {
                    match spec_parse_u32(numtok) {
                        Some(n) => {
                            match spec_munch(resid) {
                                Ok(Some(r1)) => {
                                    lemma_affix_body_len(r1, key, flag, n, 0);
                                },
                                _ => {},
                            }
                        },
                        None => {},
                    }
                },
                None => {},
            }
        },
        None => {},
    }
}

/// A recognized table carries exactly as many rows as the integer declared
/// on its header line.
pub proof fn lemma_table_matches_header(s: Seq<char>, key: Seq<char>)
    ensures
        ({
            match spec_table(s, key) {
                Ok(Some((rows, rr, nl))) => match spec_line_split(s, key) {
                    Some((work, resid)) => rows.len() <= u32::MAX && spec_parse_u32(work)
                        == Some(rows.len() as u32),
                    None => false,
                },
                _ => true,
            }
        }),
{
    match spec_line_split(s, key) {
        Some((work, resid)) => {
            match spec_parse_u32(work) {
                Some(n) => {
                    match spec_munch(resid) {
                        Ok(Some(r1)) => {
                            lemma_table_body_len(r1, key, n, 0);
                        },
                        _ => {},
                    }
                },
                None => {},
            }
        },
        None => {},
    }
}

/// An unrecognized or blank head produces no node: the parse continues one
/// character later, and the line counter advances exactly when that
/// character is a newline — so a later error still reports its true
/// source line.
pub proof fn lemma_skip_advances(s: Seq<char>, nlines: u32)
    requires
        s.len() > 0,
        spec_try_directive(s) == Ok::<Option<(NodeView, Seq<char>, u32)>, ParseErrorView>(None),
    ensures
        spec_parse_from(s, nlines) == spec_parse_from(
            s.subrange(1, s.len() as int),
            if s[0] == '\n' {
                sat_add_u32(nlines, 1)
            } else {
                nlines
            },
        ),
{
}

/// Parsing is deterministic: any two results that satisfy the contract of
/// [`crate::parser::parse_affix`] on the same input denote the same value.
pub proof fn lemma_parse_deterministic(
    s: &str,
    r1: Result<Vec<AffixNode>, ParseError>,
    r2: Result<Vec<AffixNode>, ParseError>,
)
    requires
        parse_post(s@, r1),
        parse_post(s@, r2),
    ensures
        ({
            match (r1, r2) {
                (Ok(v1), Ok(v2)) => v1.deep_view() == v2.deep_view(),
                (Err(e1), Err(e2)) => e1@ == e2@,
                _ => false,
            }
        }),
{
}

/// Empty input parses to the empty sequence of nodes.
pub proof fn lemma_parse_empty(s: Seq<char>)
    requires
        s.len() == 0,
    ensures
        spec_parse(s) == Ok::<Seq<NodeView>, ParseErrorView>(Seq::empty()),
{
}

/// A table declaring zero rows is legal: when a newline follows its
/// header, it yields an empty row sequence, consuming one line.
pub proof fn lemma_table_zero_rows(s: Seq<char>, key: Seq<char>)
    ensures
        ({
            match spec_line_split(s, key) {
                Some((work, resid)) => match spec_munch(resid) {
                    Ok(Some(r1)) => spec_parse_u32(work) == Some(0u32)
                        ==> spec_table(s, key) == Ok::<
                        Option<(Seq<Seq<char>>, Seq<char>, u32)>,
                        ParseErrorView,
                    >(Some((Seq::empty(), r1, 1u32))),
                    _ => true,
                },
                None => true,
            }
        }),
{
}

/// A table body that runs out of `KEY` rows at row `i` of `n` fails with
/// `TableCount { expected: n, received: i }` at intra-table line `i + 1`.
pub proof fn lemma_table_short_body(s: Seq<char>, key: Seq<char>, n: u32, i: u32)
    requires
        i < n,
        spec_line_split(s, key) is None,
    ensures
        spec_table_body(s, key, n, i) == Err::<(Seq<Seq<char>>, Seq<char>), ParseErrorView>(
            spec_table_count_err(n, i),
        ),
{
}

/// A rule body row whose flag differs from the header's fails with
/// `AffixFlagMismatch` carrying the offending line (key restored) and the
/// header flag, at the row's intra-group line.
pub proof fn lemma_rule_flag_mismatch(row: Seq<char>, key: Seq<char>, flag: Seq<char>, nlines: u32)
    ensures
        ({
            match spec_rule_line(row) {
                Some((f, strip, affix, cond, morph)) => f != flag ==> spec_rule_row(
                    row,
                    key,
                    flag,
                    nlines,
                ) == Err::<crate::types::AffixRuleView, ParseErrorView>(
                    err_at(
                        ErrorKindView::AffixFlagMismatch { s: key + seq![' '] + row, flag },
                        nlines,
                    ),
                ),
                None => true,
            }
        }),
{
}

/// Non-whitespace after a directive's payload on the same line — before
/// the newline and any comment — fails the newline muncher with exactly
/// the first offending character.
pub proof fn lemma_munch_trailing_garbage(s: Seq<char>)
    ensures
        ({
            match find_char_in(s, 0, s.len() as int, '\n') {
                Some(i) => {
                    let vend = match find_char_in(s, 0, i, '#') {
                        Some(h) => h,
                        None => i,
                    };
                    match first_non_ws_in(s, 0, vend) {
                        Some(j) => spec_munch(s) == Err::<Option<Seq<char>>, char>(s[j]),
                        None => true,
                    }
                },
                None => true,
            }
        }),
{
}

/// No directive of stage 1 recognizes a head that starts
/// with whitespace: every key begins with a printable character.
proof fn lemma_ws_head_group_one(s: Seq<char>)
    requires
        s.len() > 0,
        is_ws_char(s[0]),
    ensures
        crate::parser::spec_try_group_one(s) == Ok::<Option<(NodeView, Seq<char>, u32)>, ParseErrorView>(None),
{
    reveal_strlit("#");
    reveal_strlit("SET");
    reveal_strlit("FLAG");
    reveal_strlit("COMPLEXPREFIXES");
    reveal_strlit("LANG");
    reveal_strlit("IGNORE");
    reveal_strlit("AF");
    reveal_strlit("AM");
    reveal_strlit("KEY");
    reveal_strlit("TRY");
    reveal_strlit("NOSUGGEST");
    reveal_strlit("MAXCPDSUGS");
    reveal_strlit("MAXNGRAMSUGS");
    reveal_strlit("MAXDIFF");
    reveal_strlit("ONLYMAXDIFF");
    reveal_strlit("NOSPLITSUGS");
    reveal_strlit("SUGSWITHDOTS");
    assert(s[0] != "#"@[0]);
    assert(!seq_starts_with(s, "#"@));
    assert(s[0] != "SET"@[0]);
    assert(!seq_starts_with(s, "SET"@));
    assert(s[0] != "FLAG"@[0]);
    assert(!seq_starts_with(s, "FLAG"@));
    assert(s[0] != "COMPLEXPREFIXES"@[0]);
    assert(!seq_starts_with(s, "COMPLEXPREFIXES"@));
    assert(s[0] != "LANG"@[0]);
    assert(!seq_starts_with(s, "LANG"@));
    assert(s[0] != "IGNORE"@[0]);
    assert(!seq_starts_with(s, "IGNORE"@));
    assert(s[0] != "AF"@[0]);
    assert(!seq_starts_with(s, "AF"@));
    assert(s[0] != "AM"@[0]);
    assert(!seq_starts_with(s, "AM"@));
    assert(s[0] != "KEY"@[0]);
    assert(!seq_starts_with(s, "KEY"@));
    assert(s[0] != "TRY"@[0]);
    assert(!seq_starts_with(s, "TRY"@));
    assert(s[0] != "NOSUGGEST"@[0]);
    assert(!seq_starts_with(s, "NOSUGGEST"@));
    assert(s[0] != "MAXCPDSUGS"@[0]);
    assert(!seq_starts_with(s, "MAXCPDSUGS"@));
    assert(s[0] != "MAXNGRAMSUGS"@[0]);
    assert(!seq_starts_with(s, "MAXNGRAMSUGS"@));
    assert(s[0] != "MAXDIFF"@[0]);
    assert(!seq_starts_with(s, "MAXDIFF"@));
    assert(s[0] != "ONLYMAXDIFF"@[0]);
    assert(!seq_starts_with(s, "ONLYMAXDIFF"@));
    assert(s[0] != "NOSPLITSUGS"@[0]);
    assert(!seq_starts_with(s, "NOSPLITSUGS"@));
    assert(s[0] != "SUGSWITHDOTS"@[0]);
    assert(!seq_starts_with(s, "SUGSWITHDOTS"@));
}

/// No directive of stage 2 recognizes a head that starts
/// with whitespace: every key begins with a printable character.
proof fn lemma_ws_head_group_two(s: Seq<char>)
    requires
        s.len() > 0,
        is_ws_char(s[0]),
    ensures
        crate::parser::spec_try_group_two(s) == Ok::<Option<(NodeView, Seq<char>, u32)>, ParseErrorView>(None),
{
    reveal_strlit("REP");
    reveal_strlit("MAP");
    reveal_strlit("PHONE");
    reveal_strlit("WARN");
    reveal_strlit("FORBIDWARN");
    reveal_strlit("BREAK");
    reveal_strlit("COMPOUNDRULE");
    reveal_strlit("COMPOUNDMIN");
    reveal_strlit("COMPOUNDFLAG");
    reveal_strlit("COMPOUNDBEGIN");
    reveal_strlit("COMPOUNDLAST");
    reveal_strlit("COMPOUNDMIDDLE");
    reveal_strlit("ONLYINCOMPOUND");
    reveal_strlit("COMPOUNDPERMITFLAG");
    reveal_strlit("COMPOUNDFORBIDFLAG");
    reveal_strlit("COMPOUNDMORESUFFIXES");
    reveal_strlit("COMPOUNDROOT");
    reveal_strlit("COMPOUNDWORDMAX");
    assert(s[0] != "REP"@[0]);
    assert(!seq_starts_with(s, "REP"@));
    assert(s[0] != "MAP"@[0]);
    assert(!seq_starts_with(s, "MAP"@));
    assert(s[0] != "PHONE"@[0]);
    assert(!seq_starts_with(s, "PHONE"@));
    assert(s[0] != "WARN"@[0]);
    assert(!seq_starts_with(s, "WARN"@));
    assert(s[0] != "FORBIDWARN"@[0]);
    assert(!seq_starts_with(s, "FORBIDWARN"@));
    assert(s[0] != "BREAK"@[0]);
    assert(!seq_starts_with(s, "BREAK"@));
    assert(s[0] != "COMPOUNDRULE"@[0]);
    assert(!seq_starts_with(s, "COMPOUNDRULE"@));
    assert(s[0] != "COMPOUNDMIN"@[0]);
    assert(!seq_starts_with(s, "COMPOUNDMIN"@));
    assert(s[0] != "COMPOUNDFLAG"@[0]);
    assert(!seq_starts_with(s, "COMPOUNDFLAG"@));
    assert(s[0] != "COMPOUNDBEGIN"@[0]);
    assert(!seq_starts_with(s, "COMPOUNDBEGIN"@));
    assert(s[0] != "COMPOUNDLAST"@[0]);
    assert(!seq_starts_with(s, "COMPOUNDLAST"@));
    assert(s[0] != "COMPOUNDMIDDLE"@[0]);
    assert(!seq_starts_with(s, "COMPOUNDMIDDLE"@));
    assert(s[0] != "ONLYINCOMPOUND"@[0]);
    assert(!seq_starts_with(s, "ONLYINCOMPOUND"@));
    assert(s[0] != "COMPOUNDPERMITFLAG"@[0]);
    assert(!seq_starts_with(s, "COMPOUNDPERMITFLAG"@));
    assert(s[0] != "COMPOUNDFORBIDFLAG"@[0]);
    assert(!seq_starts_with(s, "COMPOUNDFORBIDFLAG"@));
    assert(s[0] != "COMPOUNDMORESUFFIXES"@[0]);
    assert(!seq_starts_with(s, "COMPOUNDMORESUFFIXES"@));
    assert(s[0] != "COMPOUNDROOT"@[0]);
    assert(!seq_starts_with(s, "COMPOUNDROOT"@));
    assert(s[0] != "COMPOUNDWORDMAX"@[0]);
    assert(!seq_starts_with(s, "COMPOUNDWORDMAX"@));
}

/// No directive of stage 3 recognizes a head that starts
/// with whitespace: every key begins with a printable character.
proof fn lemma_ws_head_group_three(s: Seq<char>)
    requires
        s.len() > 0,
        is_ws_char(s[0]),
    ensures
        crate::parser::spec_try_group_three(s) == Ok::<Option<(NodeView, Seq<char>, u32)>, ParseErrorView>(None),
{
    reveal_strlit("CHECKCOMPOUNDDUP");
    reveal_strlit("CHECKCOMPOUNDREP");
    reveal_strlit("CHECKCOMPOUNDCASE");
    reveal_strlit("CHECKCOMPOUNDTRIPLE");
    reveal_strlit("SIMPLIFIEDTRIPLE");
    reveal_strlit("CHECKCOMPOUNDPATTERN");
    reveal_strlit("FORCEUCASE");
    reveal_strlit("COMPOUNDSYLLABLE");
    reveal_strlit("SYLLABLENUM");
    reveal_strlit("PFX");
    reveal_strlit("SFX");
    assert(s[0] != "CHECKCOMPOUNDDUP"@[0]);
    assert(!seq_starts_with(s, "CHECKCOMPOUNDDUP"@));
    assert(s[0] != "CHECKCOMPOUNDREP"@[0]);
    assert(!seq_starts_with(s, "CHECKCOMPOUNDREP"@));
    assert(s[0] != "CHECKCOMPOUNDCASE"@[0]);
    assert(!seq_starts_with(s, "CHECKCOMPOUNDCASE"@));
    assert(s[0] != "CHECKCOMPOUNDTRIPLE"@[0]);
    assert(!seq_starts_with(s, "CHECKCOMPOUNDTRIPLE"@));
    assert(s[0] != "SIMPLIFIEDTRIPLE"@[0]);
    assert(!seq_starts_with(s, "SIMPLIFIEDTRIPLE"@));
    assert(s[0] != "CHECKCOMPOUNDPATTERN"@[0]);
    assert(!seq_starts_with(s, "CHECKCOMPOUNDPATTERN"@));
    assert(s[0] != "FORCEUCASE"@[0]);
    assert(!seq_starts_with(s, "FORCEUCASE"@));
    assert(s[0] != "COMPOUNDSYLLABLE"@[0]);
    assert(!seq_starts_with(s, "COMPOUNDSYLLABLE"@));
    assert(s[0] != "SYLLABLENUM"@[0]);
    assert(!seq_starts_with(s, "SYLLABLENUM"@));
    assert(s[0] != "PFX"@[0]);
    assert(!seq_starts_with(s, "PFX"@));
    assert(s[0] != "SFX"@[0]);
    assert(!seq_starts_with(s, "SFX"@));
}

/// No directive of stage 4 recognizes a head that starts
/// with whitespace: every key begins with a printable character.
proof fn lemma_ws_head_group_four(s: Seq<char>)
    requires
        s.len() > 0,
        is_ws_char(s[0]),
    ensures
        crate::parser::spec_try_group_four(s) == Ok::<Option<(NodeView, Seq<char>, u32)>, ParseErrorView>(None),
{
    reveal_strlit("CIRCUMFIX");
    reveal_strlit("FORBIDDENWORD");
    reveal_strlit("FULLSTRIP");
    reveal_strlit("KEEPCASE");
    reveal_strlit("ICONV");
    reveal_strlit("OCONV");
    reveal_strlit("LEMMA_PRESENT");
    reveal_strlit("NEEDAFFIX");
    reveal_strlit("PSEUDOROOT");
    reveal_strlit("SUBSTANDARD");
    reveal_strlit("WORDCHARS");
    reveal_strlit("CHECKSHARPS");
    reveal_strlit("NAME");
    reveal_strlit("HOME");
    reveal_strlit("VERSION");
    assert(s[0] != "CIRCUMFIX"@[0]);
    assert(!seq_starts_with(s, "CIRCUMFIX"@));
    assert(s[0] != "FORBIDDENWORD"@[0]);
    assert(!seq_starts_with(s, "FORBIDDENWORD"@));
    assert(s[0] != "FULLSTRIP"@[0]);
    assert(!seq_starts_with(s, "FULLSTRIP"@));
    assert(s[0] != "KEEPCASE"@[0]);
    assert(!seq_starts_with(s, "KEEPCASE"@));
    assert(s[0] != "ICONV"@[0]);
    assert(!seq_starts_with(s, "ICONV"@));
    assert(s[0] != "OCONV"@[0]);
    assert(!seq_starts_with(s, "OCONV"@));
    assert(s[0] != "LEMMA_PRESENT"@[0]);
    assert(!seq_starts_with(s, "LEMMA_PRESENT"@));
    assert(s[0] != "NEEDAFFIX"@[0]);
    assert(!seq_starts_with(s, "NEEDAFFIX"@));
    assert(s[0] != "PSEUDOROOT"@[0]);
    assert(!seq_starts_with(s, "PSEUDOROOT"@));
    assert(s[0] != "SUBSTANDARD"@[0]);
    assert(!seq_starts_with(s, "SUBSTANDARD"@));
    assert(s[0] != "WORDCHARS"@[0]);
    assert(!seq_starts_with(s, "WORDCHARS"@));
    assert(s[0] != "CHECKSHARPS"@[0]);
    assert(!seq_starts_with(s, "CHECKSHARPS"@));
    assert(s[0] != "NAME"@[0]);
    assert(!seq_starts_with(s, "NAME"@));
    assert(s[0] != "HOME"@[0]);
    assert(!seq_starts_with(s, "HOME"@));
    assert(s[0] != "VERSION"@[0]);
    assert(!seq_starts_with(s, "VERSION"@));
}

/// No directive recognizes a head that starts with whitespace.
pub proof fn lemma_ws_head_no_directive(s: Seq<char>)
    requires
        s.len() > 0,
        is_ws_char(s[0]),
    ensures
        spec_try_directive(s) == Ok::<Option<(NodeView, Seq<char>, u32)>, ParseErrorView>(None),
{
    reveal(spec_try_directive);
    lemma_ws_head_group_one(s);
    lemma_ws_head_group_two(s);
    lemma_ws_head_group_three(s);
    lemma_ws_head_group_four(s);
}

/// Is `s` made only of blank lines and well-terminated comment lines?
/// A comment line may not hide a stray non-whitespace character between a
/// mid-line carriage return and its newline: there the newline muncher,
/// and with it the parse, fails.
pub open spec fn comment_blank_input(s: Seq<char>) -> bool
    decreases s.len(),
    when true
{
    if s.len() == 0 {
        true
    } else if s[0] == '#' {
        match find_sep_from(s, 1, false) {
            None => true,
            Some(t) => {
                proof {
                    lemma_find_sep_bounds(s, 1, false);
                }
                match spec_munch(s.subrange(t, s.len() as int)) {
                    Err(_) => false,
                    Ok(None) => true,
                    Ok(Some(r2)) => {
                        proof {
                            lemma_munch_shrinks(s.subrange(t, s.len() as int));
                        }
                        comment_blank_input(r2)
                    },
                }
            },
        }
    } else if is_ws_char(s[0]) {
        comment_blank_input(s.subrange(1, s.len() as int))
    } else {
        false
    }
}

/// The number of comment lines such an input holds.
pub open spec fn comment_count(s: Seq<char>) -> nat
    decreases s.len(),
    when true
{
    if s.len() == 0 {
        0
    } else if s[0] == '#' {
        match find_sep_from(s, 1, false) {
            None => 1,
            Some(t) => {
                proof {
                    lemma_find_sep_bounds(s, 1, false);
                }
                match spec_munch(s.subrange(t, s.len() as int)) {
                    Err(_) => 1,
                    Ok(None) => 1,
                    Ok(Some(r2)) => {
                        proof {
                            lemma_munch_shrinks(s.subrange(t, s.len() as int));
                        }
                        1 + comment_count(r2)
                    },
                }
            },
        }
    } else if is_ws_char(s[0]) {
        comment_count(s.subrange(1, s.len() as int))
    } else {
        0
    }
}

proof fn lemma_comments_only_from(s: Seq<char>, nlines: u32)
    requires
        comment_blank_input(s),
    ensures
        spec_parse_from(s, nlines) == Ok::<Seq<NodeView>, ParseErrorView>(
            Seq::new(comment_count(s), |i: int| NodeView::Comment),
        ),
    decreases s.len(),
{
    reveal_strlit("#");
    if s.len() == 0 {
        assert(Seq::new(0, |i: int| NodeView::Comment) =~= Seq::<NodeView>::empty());
    } else if s[0] == '#' {
        reveal(spec_try_directive);
        assert(seq_starts_with(s, "#"@));
        assert(hash_is_sep("#"@) == false);
        let resid = match find_sep_from(s, 1, false) {
            Some(t) => s.subrange(t, s.len() as int),
            None => Seq::<char>::empty(),
        };
        assert(spec_parse_comment(s) == Ok::<Option<(NodeView, Seq<char>, u32)>, ParseErrorView>(
            Some((NodeView::Comment, resid, 0u32)),
        ));
        match find_sep_from(s, 1, false) {
            None => {
                assert(spec_munch(resid) == Ok::<Option<Seq<char>>, char>(None));
                assert(Seq::new(1, |i: int| NodeView::Comment) =~= seq![NodeView::Comment]);
            },
            Some(t) => {
                lemma_find_sep_bounds(s, 1, false);
                match spec_munch(resid) {
                    Err(_) => {},
                    Ok(None) => {
                        assert(Seq::new(1, |i: int| NodeView::Comment) =~= seq![
                            NodeView::Comment,
                        ]);
                    },
                    Ok(Some(r2)) => {
                        lemma_munch_shrinks(resid);
                        lemma_comments_only_from(r2, sat_add_u32(sat_add_u32(nlines, 0), 1));
                        assert(Seq::new(comment_count(s), |i: int| NodeView::Comment)
                            =~= seq![NodeView::Comment] + Seq::new(
                            comment_count(r2),
                            |i: int| NodeView::Comment,
                        ));
                    },
                }
            },
        }
    } else {
        lemma_ws_head_no_directive(s);
        lemma_comments_only_from(
            s.subrange(1, s.len() as int),
            if s[0] == '\n' {
                sat_add_u32(nlines, 1)
            } else {
                nlines
            },
        );
    }
}

/// Input made only of comment and blank lines parses to a sequence of
/// `Comment` nodes — one per comment line, and nothing else.
pub proof fn lemma_comments_and_blanks(s: Seq<char>)
    requires
        comment_blank_input(s),
    ensures
        spec_parse(s) == Ok::<Seq<NodeView>, ParseErrorView>(
            Seq::new(comment_count(s), |i: int| NodeView::Comment),
        ),
{
    lemma_comments_only_from(s, 1u32);
}


/// A payload fit for a free-text directive's canonical line: no line
/// terminator or comment introducer anywhere, and no whitespace at either
/// end (the recognizer trims, so an untrimmed payload cannot survive a
/// round trip).
pub open spec fn plain_payload(p: Seq<char>) -> bool {
    (forall|k: int|
        0 <= k < p.len() ==> !(p[k] == '\r' || p[k] == '\n' || p[k] == '#')) && (p.len() > 0
        ==> !is_ws_char(p[0]) && !is_ws_char(p[p.len() - 1]))
}

/// Round trip of a free-text node's canonical line: re-parsing
/// `LANG <payload>` followed by a newline yields exactly the one
/// `Language` node carrying that payload.
pub proof fn lemma_language_round_trip(p: Seq<char>)
    requires
        plain_payload(p),
    ensures
        spec_parse("LANG "@ + p + "\n"@) == Ok::<Seq<NodeView>, ParseErrorView>(
            seq![NodeView::Language(p)],
        ),
{
    reveal(spec_try_directive);
    reveal_strlit("LANG ");
    reveal_strlit("LANG");
    reveal_strlit("\n");
    reveal_strlit("#");
    reveal_strlit("SET");
    reveal_strlit("FLAG");
    reveal_strlit("COMPLEXPREFIXES");
    let t = "LANG "@ + p + "\n"@;
    let n = t.len() as int;
    assert(n == 6 + p.len());
    assert(t[0] == 'L');

    // Nothing before `LANG` in the dispatch order recognizes this head.
    assert(t[0] != "#"@[0]);
    assert(!seq_starts_with(t, "#"@));
    assert(t[0] != "SET"@[0]);
    assert(!seq_starts_with(t, "SET"@));
    assert(t[0] != "FLAG"@[0]);
    assert(!seq_starts_with(t, "FLAG"@));
    assert(t[0] != "COMPLEXPREFIXES"@[0]);
    assert(!seq_starts_with(t, "COMPLEXPREFIXES"@));

    // `LANG` recognizes it: the terminator is the final newline ...
    assert(seq_starts_with(t, "LANG"@));
    assert(hash_is_sep("LANG"@));
    assert(t[n - 1] == '\n');
    assert(forall|k: int| 4 <= k < n - 1 ==> !is_sep_char(t[k], true)) by {
        assert(t[4] == ' ');
        assert(forall|k: int| 5 <= k < n - 1 ==> t[k] == p[k - 5]);
    }
    lemma_find_sep_exact(t, 4, n - 1, true);

    // ... and the trimmed payload between them is exactly `p`.
    if p.len() == 0 {
        assert(first_non_ws_in(t, 5, n - 1) is None);
        assert(first_non_ws_in(t, 4, n - 1) is None);
        assert(trim_range(t, 4, n - 1) =~= p);
    } else {
        assert(t[5] == p[0]);
        assert(!is_ws_char(t[5]));
        assert(first_non_ws_in(t, 5, n - 1) == Some(5int));
        assert(is_ws_char(t[4]));
        assert(first_non_ws_in(t, 4, n - 1) == Some(5int));
        assert(t[n - 2] == p[p.len() - 1]);
        assert(!is_ws_char(t[n - 2]));
        assert(trim_end_in(t, 5, n - 1) == n - 1);
        assert(trim_range(t, 4, n - 1) =~= p);
    }
    let resid = t.subrange(n - 1, n);
    assert(spec_line_split(t, "LANG"@) == Some((p, resid)));

    // The residual is the lone newline: crossing it ends the input.
    assert(resid.len() == 1 && resid[0] == '\n');
    assert(find_char_in(resid, 0, 1, '\n') == Some(0int));
    assert(first_non_ws_in(resid, 0, 0) is None);
    let after = resid.subrange(1, 1);
    assert(spec_munch(resid) == Ok::<Option<Seq<char>>, char>(Some(after)));
    assert(after.len() == 0);

    assert(spec_parse_from(after, 2u32) == Ok::<Seq<NodeView>, ParseErrorView>(Seq::empty()));
    assert(seq![NodeView::Language(p)] + Seq::<NodeView>::empty() =~= seq![
        NodeView::Language(p),
    ]);
}

proof fn lemma_group_one_tail(s: Seq<char>)
    ensures
        crate::parser::spec_try_group_one(s) matches Ok(Some((n, resid, nl)))
            ==> is_tail_of(resid, s),
{
    lemma_split_tail(s, "#"@);
    lemma_split_tail(s, "SET"@);
    lemma_split_tail(s, "FLAG"@);
    lemma_split_tail(s, "COMPLEXPREFIXES"@);
    lemma_split_tail(s, "LANG"@);
    lemma_split_tail(s, "IGNORE"@);
    lemma_table_tail(s, "AF"@);
    lemma_table_tail(s, "AM"@);
    lemma_split_tail(s, "KEY"@);
    lemma_split_tail(s, "TRY"@);
    lemma_split_tail(s, "NOSUGGEST"@);
    lemma_split_tail(s, "MAXCPDSUGS"@);
    lemma_split_tail(s, "MAXNGRAMSUGS"@);
    lemma_split_tail(s, "MAXDIFF"@);
    lemma_split_tail(s, "ONLYMAXDIFF"@);
    lemma_split_tail(s, "NOSPLITSUGS"@);
    lemma_split_tail(s, "SUGSWITHDOTS"@);
}

proof fn lemma_group_two_tail(s: Seq<char>)
    ensures
        crate::parser::spec_try_group_two(s) matches Ok(Some((n, resid, nl)))
            ==> is_tail_of(resid, s),
{
    lemma_table_tail(s, "REP"@);
    lemma_table_tail(s, "MAP"@);
    lemma_table_tail(s, "PHONE"@);
    lemma_split_tail(s, "WARN"@);
    lemma_split_tail(s, "FORBIDWARN"@);
    lemma_table_tail(s, "BREAK"@);
    lemma_table_tail(s, "COMPOUNDRULE"@);
    lemma_split_tail(s, "COMPOUNDMIN"@);
    lemma_split_tail(s, "COMPOUNDFLAG"@);
    lemma_split_tail(s, "COMPOUNDBEGIN"@);
    lemma_split_tail(s, "COMPOUNDLAST"@);
    lemma_split_tail(s, "COMPOUNDMIDDLE"@);
    lemma_split_tail(s, "ONLYINCOMPOUND"@);
    lemma_split_tail(s, "COMPOUNDPERMITFLAG"@);
    lemma_split_tail(s, "COMPOUNDFORBIDFLAG"@);
    lemma_split_tail(s, "COMPOUNDMORESUFFIXES"@);
    lemma_split_tail(s, "COMPOUNDROOT"@);
    lemma_split_tail(s, "COMPOUNDWORDMAX"@);
}

proof fn lemma_group_three_tail(s: Seq<char>)
    ensures
        crate::parser::spec_try_group_three(s) matches Ok(Some((n, resid, nl)))
            ==> is_tail_of(resid, s),
{
    lemma_split_tail(s, "CHECKCOMPOUNDDUP"@);
    lemma_split_tail(s, "CHECKCOMPOUNDREP"@);
    lemma_split_tail(s, "CHECKCOMPOUNDCASE"@);
    lemma_split_tail(s, "CHECKCOMPOUNDTRIPLE"@);
    lemma_split_tail(s, "SIMPLIFIEDTRIPLE"@);
    lemma_table_tail(s, "CHECKCOMPOUNDPATTERN"@);
    lemma_split_tail(s, "FORCEUCASE"@);
    lemma_split_tail(s, "COMPOUNDSYLLABLE"@);
    lemma_split_tail(s, "SYLLABLENUM"@);
    lemma_affix_tail(s, "PFX"@, RuleType::Prefix);
    lemma_affix_tail(s, "SFX"@, RuleType::Suffix);
}

proof fn lemma_group_four_tail(s: Seq<char>)
    ensures
        crate::parser::spec_try_group_four(s) matches Ok(Some((n, resid, nl)))
            ==> is_tail_of(resid, s),
{
    lemma_split_tail(s, "CIRCUMFIX"@);
    lemma_split_tail(s, "FORBIDDENWORD"@);
    lemma_split_tail(s, "FULLSTRIP"@);
    lemma_split_tail(s, "KEEPCASE"@);
    lemma_table_tail(s, "ICONV"@);
    lemma_table_tail(s, "OCONV"@);
    lemma_split_tail(s, "LEMMA_PRESENT"@);
    lemma_split_tail(s, "NEEDAFFIX"@);
    lemma_split_tail(s, "PSEUDOROOT"@);
    lemma_split_tail(s, "SUBSTANDARD"@);
    lemma_split_tail(s, "WORDCHARS"@);
    lemma_split_tail(s, "CHECKSHARPS"@);
    lemma_split_tail(s, "NAME"@);
    lemma_split_tail(s, "HOME"@);
    lemma_split_tail(s, "VERSION"@);
}

proof fn lemma_group_one_no_rule_groups(s: Seq<char>)
    ensures
        crate::parser::spec_try_group_one(s) matches Ok(Some((n, rr, nl))) ==> !(n is Prefix)
            && !(n is Suffix),
{
}

proof fn lemma_group_two_no_rule_groups(s: Seq<char>)
    ensures
        crate::parser::spec_try_group_two(s) matches Ok(Some((n, rr, nl))) ==> !(n is Prefix)
            && !(n is Suffix),
{
}

proof fn lemma_group_four_no_rule_groups(s: Seq<char>)
    ensures
        crate::parser::spec_try_group_four(s) matches Ok(Some((n, rr, nl))) ==> !(n is Prefix)
            && !(n is Suffix),
{
}

proof fn lemma_group_three_sources(s: Seq<char>)
    ensures
        ({
            match crate::parser::spec_try_group_three(s) {
                Ok(Some((n, rr, nl))) => {
                    &&& (n matches NodeView::Prefix(g) ==> spec_affix_table(
                        s,
                        "PFX"@,
                        RuleType::Prefix,
                    ) == Ok::<Option<(RuleGroupView, Seq<char>, u32)>, ParseErrorView>(
                        Some((g, rr, nl)),
                    ))
                    &&& (n matches NodeView::Suffix(g) ==> spec_affix_table(
                        s,
                        "SFX"@,
                        RuleType::Suffix,
                    ) == Ok::<Option<(RuleGroupView, Seq<char>, u32)>, ParseErrorView>(
                        Some((g, rr, nl)),
                    ))
                },
                _ => true,
            }
        }),
{
}

/// A recognized directive's residual is a tail of the input.
pub proof fn lemma_try_directive_tail(s: Seq<char>)
    ensures
        spec_try_directive(s) matches Ok(Some((n, resid, nl))) ==> is_tail_of(resid, s),
{
    reveal(spec_try_directive);
    lemma_group_one_tail(s);
    lemma_group_two_tail(s);
    lemma_group_three_tail(s);
    lemma_group_four_tail(s);
}

/// A rule-group node the dispatch yields comes from the rule-group
/// recognizer on this very input, with the same residual and line count.
pub proof fn lemma_try_directive_group_source(s: Seq<char>)
    ensures
        ({
            match spec_try_directive(s) {
                Ok(Some((n, rr, nl))) => {
                    &&& (n matches NodeView::Prefix(g) ==> spec_affix_table(
                        s,
                        "PFX"@,
                        RuleType::Prefix,
                    ) == Ok::<Option<(RuleGroupView, Seq<char>, u32)>, ParseErrorView>(
                        Some((g, rr, nl)),
                    ))
                    &&& (n matches NodeView::Suffix(g) ==> spec_affix_table(
                        s,
                        "SFX"@,
                        RuleType::Suffix,
                    ) == Ok::<Option<(RuleGroupView, Seq<char>, u32)>, ParseErrorView>(
                        Some((g, rr, nl)),
                    ))
                },
                _ => true,
            }
        }),
{
    reveal(spec_try_directive);
    lemma_group_one_no_rule_groups(s);
    lemma_group_two_no_rule_groups(s);
    lemma_group_three_sources(s);
    lemma_group_four_no_rule_groups(s);
}

/// Is a rule-group node certified by a rule-group block at some tail of the
/// input?  Other nodes are unconstrained.
pub open spec fn group_evidence(node: NodeView, s: Seq<char>) -> bool {
    match node {
        NodeView::Prefix(g) => exists|t: Seq<char>|
            is_tail_of(t, s) && (match spec_affix_table(t, "PFX"@, RuleType::Prefix) {
                Ok(Some((g2, rr, nl))) => g2 == g,
                _ => false,
            }),
        NodeView::Suffix(g) => exists|t: Seq<char>|
            is_tail_of(t, s) && (match spec_affix_table(t, "SFX"@, RuleType::Suffix) {
                Ok(Some((g2, rr, nl))) => g2 == g,
                _ => false,
            }),
        _ => true,
    }
}

proof fn lemma_evidence_lift(node: NodeView, t: Seq<char>, s: Seq<char>)
    requires
        group_evidence(node, t),
        is_tail_of(t, s),
    ensures
        group_evidence(node, s),
{
    match node {
        NodeView::Prefix(g) => {
            let u = choose|u: Seq<char>|
                is_tail_of(u, t) && (match spec_affix_table(u, "PFX"@, RuleType::Prefix) {
                    Ok(Some((g2, rr, nl))) => g2 == g,
                    _ => false,
                });
            lemma_tail_trans(u, t, s);
        },
        NodeView::Suffix(g) => {
            let u = choose|u: Seq<char>|
                is_tail_of(u, t) && (match spec_affix_table(u, "SFX"@, RuleType::Suffix) {
                    Ok(Some((g2, rr, nl))) => g2 == g,
                    _ => false,
                });
            lemma_tail_trans(u, t, s);
        },
        _ => {},
    }
}

proof fn lemma_groups_from(s: Seq<char>, nlines: u32)
    ensures
        spec_parse_from(s, nlines) matches Ok(v) ==> forall|i: int|
            0 <= i < v.len() ==> group_evidence(v[i], s),
    decreases s.len(),
{
    if s.len() > 0 {
        match spec_try_directive(s) {
            Err(_) => {},
            Ok(Some((node, resid, nl))) => {
                lemma_try_directive_shrinks(s);
                lemma_try_directive_tail(s);
                lemma_try_directive_group_source(s);
                lemma_munch_shrinks(resid);
                lemma_munch_tail(resid);
                lemma_tail_refl(s);
                assert(group_evidence(node, s)) by {
                    match node {
                        NodeView::Prefix(g) => {
                            assert(is_tail_of(s, s) && (match spec_affix_table(
                                s,
                                "PFX"@,
                                RuleType::Prefix,
                            ) {
                                Ok(Some((g2, rr2, nl2))) => g2 == g,
                                _ => false,
                            }));
                        },
                        NodeView::Suffix(g) => {
                            assert(is_tail_of(s, s) && (match spec_affix_table(
                                s,
                                "SFX"@,
                                RuleType::Suffix,
                            ) {
                                Ok(Some((g2, rr2, nl2))) => g2 == g,
                                _ => false,
                            }));
                        },
                        _ => {},
                    }
                }
                match spec_munch(resid) {
                    Ok(Some(r2)) => {
                        let nl2 = sat_add_u32(sat_add_u32(nlines, nl), 1);
                        lemma_groups_from(r2, nl2);
                        lemma_tail_trans(r2, resid, s);
                        match spec_parse_from(r2, nl2) {
                            Ok(rest) => {
                                let v = seq![node] + rest;
                                assert(forall|i: int|
                                    0 <= i < v.len() ==> group_evidence(v[i], s)) by {
                                    assert(v[0] == node);
                                    assert(forall|i: int| 1 <= i < v.len() ==> v[i] == rest[i - 1]);
                                    assert forall|i: int| 1 <= i < v.len() implies group_evidence(
                                        v[i],
                                        s,
                                    ) by {
                                        lemma_evidence_lift(rest[i - 1], r2, s);
                                    }
                                }
                            },
                            Err(_) => {},
                        }
                    },
                    _ => {},
                }
            },
            Ok(None) => {
                let rest = s.subrange(1, s.len() as int);
                let nl2 = if s[0] == '\n' {
                    sat_add_u32(nlines, 1)
                } else {
                    nlines
                };
                lemma_groups_from(rest, nl2);
                assert(is_tail_of(rest, s)) by {
                    assert(rest =~= s.subrange(1, s.len() as int));
                }
                match spec_parse_from(rest, nl2) {
                    Ok(v) => {
                        assert forall|i: int| 0 <= i < v.len() implies group_evidence(
                            v[i],
                            s,
                        ) by {
                            lemma_evidence_lift(v[i], rest, s);
                        }
                    },
                    Err(_) => {},
                }
            },
        }
    }
}

/// Every `Prefix` or `Suffix` node of a successful parse is certified by a
/// rule-group block at some tail of the input — and so, with
/// [`lemma_rule_group_matches_header`], carries exactly as many rules as
/// the integer declared on that block's header line.
pub proof fn lemma_parse_groups_certified(s: Seq<char>)
    ensures
        spec_parse(s) matches Ok(v) ==> forall|i: int|
            0 <= i < v.len() ==> group_evidence(v[i], s),
{
    lemma_groups_from(s, 1u32);
}

} // verus!
