//! One recognizer per directive: each tries its key against the input head
//! and either stays out (`Ok(None)`), yields a node with the residual text
//! and the newlines it consumed, or fails with a positioned error.

use vstd::prelude::*;

use crate::error::{err0, ErrorKindView, ParseError, ParseErrorType, ParseErrorView};
use crate::scan::{find_char_in, line_splitter, scan_find_char, spec_line_split};
use crate::coerce::{
    bool_parser, char_parser, int_parser, spec_bool_dir, spec_char_dir, spec_int_dir,
    spec_string_dir, string_parser,
};
use crate::validate::{compound_syllable_from_str, encoding_from_str, spec_compound_syllable, spec_encoding};
use crate::table::{spec_table, table_parser};
use crate::rules::{affix_table_parser, spec_affix_table};
use crate::rows::{
    rows_to_conversions, rows_to_pairs, rows_to_patterns, rows_to_phonetics, rows_ws_free,
    spec_conv_rows, spec_map_rows, spec_pattern_rows, spec_phone_rows, spec_ws_free_rows,
};
use crate::types::{AffixNode, NodeView, RuleType};

verus! {

/// The result of trying one directive recognizer: nothing recognized, or a
/// node plus the residual text and the newlines consumed, or a positioned
/// error.
pub type ParseResult<'a> = Result<Option<(AffixNode, &'a str, u32)>, ParseError>;

/// Ghost counterpart of [`ParseResult`].
pub type SpecResult = Result<Option<(NodeView, Seq<char>, u32)>, ParseErrorView>;

/// Does the executable outcome denote exactly the ghost outcome?
pub open spec fn pr_matches(r: ParseResult<'_>, m: SpecResult) -> bool {
    match (r, m) {
        (Ok(None), Ok(None)) => true,
        (Ok(Some((node, resid, nl))), Ok(Some((nv, rr, nlv)))) => node@ == nv && resid@ == rr
            && nl == nlv,
        (Err(e), Err(ev)) => e@ == ev,
        _ => false,
    }
}

/// Outcome shape of a nullary boolean directive.
pub open spec fn bool_outcome(s: Seq<char>, key: Seq<char>, node: NodeView) -> SpecResult {
    match spec_bool_dir(s, key) {
        Ok(None) => Ok(None),
        Ok(Some(resid)) => Ok(Some((node, resid, 0u32))),
        Err(e) => Err(e),
    }
}

/// Outcome shape of a free-text directive.
pub open spec fn string_outcome(
    s: Seq<char>,
    key: Seq<char>,
    f: spec_fn(Seq<char>) -> NodeView,
) -> SpecResult {
    match spec_string_dir(s, key) {
        None => Ok(None),
        Some((work, resid)) => Ok(Some((f(work), resid, 0u32))),
    }
}

/// Outcome shape of a single-character directive.
pub open spec fn char_outcome(
    s: Seq<char>,
    key: Seq<char>,
    f: spec_fn(char) -> NodeView,
) -> SpecResult {
    match spec_char_dir(s, key) {
        Ok(None) => Ok(None),
        Ok(Some((c, resid))) => Ok(Some((f(c), resid, 0u32))),
        Err(e) => Err(e),
    }
}

/// Outcome shape of an integer directive.
pub open spec fn int_outcome(
    s: Seq<char>,
    key: Seq<char>,
    f: spec_fn(u32) -> NodeView,
) -> SpecResult {
    match spec_int_dir(s, key) {
        Ok(None) => Ok(None),
        Ok(Some((v, resid))) => Ok(Some((f(v), resid, 0u32))),
        Err(e) => Err(e),
    }
}

/// Outcome shape of a table whose rows must be whitespace-free.
pub open spec fn ws_table_outcome(
    s: Seq<char>,
    key: Seq<char>,
    f: spec_fn(Seq<Seq<char>>) -> NodeView,
) -> SpecResult {
    match spec_table(s, key) {
        Ok(None) => Ok(None),
        Err(e) => Err(e),
        Ok(Some((rows, rr, nl))) => match spec_ws_free_rows(rows, 0) {
            Some(e) => Err(e),
            None => Ok(Some((f(rows), rr, nl))),
        },
    }
}

/// Outcome shape of a conversion table (`REP`/`ICONV`/`OCONV`).
pub open spec fn conv_table_outcome(
    s: Seq<char>,
    key: Seq<char>,
    f: spec_fn(Seq<crate::types::ConversionView>) -> NodeView,
) -> SpecResult {
    match spec_table(s, key) {
        Ok(None) => Ok(None),
        Err(e) => Err(e),
        Ok(Some((rows, rr, nl))) => match spec_conv_rows(rows, 0, false) {
            Err(e) => Err(e),
            Ok(convs) => Ok(Some((f(convs), rr, nl))),
        },
    }
}

/// Collect a string's characters.
fn str_to_chars(s: &str) -> (r: Vec<char>)
    ensures
        r@ == s@,
{
    let n = s.unicode_len();
    let mut v: Vec<char> = Vec::new();
    let mut i: usize = 0;
    while i < n
        invariant
            0 <= i <= n,
            n == s@.len(),
            v@ == s@.subrange(0, i as int),
        decreases n - i,
    {
        v.push(s.get_char(i));
        proof {
            assert(v@ =~= s@.subrange(0, i + 1));
        }
        i += 1;
    }
    proof {
        assert(s@.subrange(0, n as int) =~= s@);
    }
    v
}

/// The payload split at every `'|'`; an empty payload yields one empty
/// group, as splitting does.
pub open spec fn spec_split_pipe(s: Seq<char>, i: int) -> Seq<Seq<char>>
    decreases s.len() - i,
    when 0 <= i <= s.len()
{
    match find_char_in(s, i, s.len() as int, '|') {
        Some(k) => {
            proof {
                crate::scan::lemma_find_char_bounds(s, i, s.len() as int, '|');
            }
            seq![s.subrange(i, k)] + spec_split_pipe(s, k + 1)
        },
        None => seq![s.subrange(i, s.len() as int)],
    }
}

/// Split a payload on `'|'` into owned groups.
fn split_pipe(s: &str) -> (r: Vec<String>)
    ensures
        r.deep_view() == spec_split_pipe(s@, 0),
{
    let n = s.unicode_len();
    let mut ret: Vec<String> = Vec::new();
    let mut pos: usize = 0;
    let mut fin: bool = false;
    proof {
        assert(ret.deep_view() =~= Seq::<Seq<char>>::empty());
        assert(Seq::<Seq<char>>::empty() + spec_split_pipe(s@, 0) =~= spec_split_pipe(s@, 0));
    }
    while !fin
        invariant
            0 <= pos <= n,
            n == s@.len(),
            !fin ==> spec_split_pipe(s@, 0) == ret.deep_view() + spec_split_pipe(s@, pos as int),
            fin ==> spec_split_pipe(s@, 0) == ret.deep_view(),
        decreases n - pos + (if fin {
            0int
        } else {
            1int
        }),
    {
        let ghost old_dv = ret.deep_view();
        match scan_find_char(s, pos, n, '|') {
            Some(k) => {
                let piece = s.substring_char(pos, k).to_owned();
                ret.push(piece);
                proof {
                    assert(ret.deep_view() =~= old_dv.push(s@.subrange(pos as int, k as int)));
                    assert(old_dv + (seq![s@.subrange(pos as int, k as int)] + spec_split_pipe(
                        s@,
                        k + 1,
                    )) =~= ret.deep_view() + spec_split_pipe(s@, k + 1));
                }
                pos = k + 1;
            },
            None => {
                let piece = s.substring_char(pos, n).to_owned();
                ret.push(piece);
                proof {
                    assert(ret.deep_view() =~= old_dv.push(
                        s@.subrange(pos as int, n as int),
                    ));
                    assert(old_dv + (seq![s@.subrange(pos as int, n as int)]) =~= ret.deep_view());
                }
                fin = true;
            },
        }
    }
    ret
}

// --- General directives ---

/// Ghost content of [`parse_comment`].
pub open spec fn spec_parse_comment(s: Seq<char>) -> SpecResult {
    match spec_line_split(s, "#"@) {
        None => Ok(None),
        Some((work, resid)) => Ok(Some((NodeView::Comment, resid, 0u32))),
    }
}

/// Consume a comment line.
pub fn parse_comment<'a>(s: &'a str) -> (r: ParseResult<'a>)
    ensures
        pr_matches(r, spec_parse_comment(s@)),
{
    match line_splitter(s, "#") {
        None => Ok(None),
        Some((_work, resid)) => Ok(Some((AffixNode::Comment, resid, 0))),
    }
}

/// Ghost content of [`parse_encoding`].
pub open spec fn spec_parse_encoding(s: Seq<char>) -> SpecResult {
    match spec_line_split(s, "SET"@) {
        None => Ok(None),
        Some((work, resid)) => match spec_encoding(work) {
            Some(enc) => Ok(Some((NodeView::Encoding(enc), resid, 0u32))),
            None => Err(err0(ErrorKindView::Encoding { s: work })),
        },
    }
}

/// `SET`: the file's encoding, from the closed identifier set.
pub fn parse_encoding<'a>(s: &'a str) -> (r: ParseResult<'a>)
    ensures
        pr_matches(r, spec_parse_encoding(s@)),
{
    match line_splitter(s, "SET") {
        None => Ok(None),
        Some((work, resid)) => match encoding_from_str(work) {
            Some(enc) => Ok(Some((AffixNode::Encoding(enc), resid, 0))),
            None => Err(
                ParseError::new_nospan(ParseErrorType::Encoding { s: work.to_owned() }),
            ),
        },
    }
}

/// Ghost content of [`parse_flag`].
pub open spec fn spec_parse_flag(s: Seq<char>) -> SpecResult {
    match spec_line_split(s, "FLAG"@) {
        None => Ok(None),
        Some((work, resid)) => match spec_encoding(work) {
            Some(enc) => Ok(Some((NodeView::Flag(enc), resid, 0u32))),
            None => Err(err0(ErrorKindView::Flag { s: work })),
        },
    }
}

/// `FLAG`: the flag convention, from the same closed identifier set.
pub fn parse_flag<'a>(s: &'a str) -> (r: ParseResult<'a>)
    ensures
        pr_matches(r, spec_parse_flag(s@)),
{
    match line_splitter(s, "FLAG") {
        None => Ok(None),
        Some((work, resid)) => match encoding_from_str(work) {
            Some(enc) => Ok(Some((AffixNode::Flag(enc), resid, 0))),
            None => Err(ParseError::new_nospan(ParseErrorType::Flag { s: work.to_owned() })),
        },
    }
}

/// Ghost content of [`parse_ignore_chars`].
pub open spec fn spec_parse_ignore_chars(s: Seq<char>) -> SpecResult {
    match spec_line_split(s, "IGNORE"@) {
        None => Ok(None),
        Some((work, resid)) => Ok(Some((NodeView::IgnoreChars(work), resid, 0u32))),
    }
}

/// `IGNORE`: characters to strip from words before lookup.
pub fn parse_ignore_chars<'a>(s: &'a str) -> (r: ParseResult<'a>)
    ensures
        pr_matches(r, spec_parse_ignore_chars(s@)),
{
    match line_splitter(s, "IGNORE") {
        None => Ok(None),
        Some((work, resid)) => {
            let chars = str_to_chars(work);
            proof {
                assert(chars.deep_view() =~= work@);
            }
            Ok(Some((AffixNode::IgnoreChars(chars), resid, 0)))
        },
    }
}

/// Ghost content of [`parse_neighbor_keys`].
pub open spec fn spec_parse_neighbor_keys(s: Seq<char>) -> SpecResult {
    match spec_line_split(s, "KEY"@) {
        None => Ok(None),
        Some((work, resid)) => Ok(
            Some((NodeView::NeighborKeys(spec_split_pipe(work, 0)), resid, 0u32)),
        ),
    }
}

/// `KEY`: keyboard-neighbor groups, separated by `'|'`.
pub fn parse_neighbor_keys<'a>(s: &'a str) -> (r: ParseResult<'a>)
    ensures
        pr_matches(r, spec_parse_neighbor_keys(s@)),
{
    match line_splitter(s, "KEY") {
        None => Ok(None),
        Some((work, resid)) => Ok(
            Some((AffixNode::NeighborKeys(split_pipe(work)), resid, 0)),
        ),
    }
}

/// Ghost content of [`parse_compound_syllable`].
pub open spec fn spec_parse_compound_syllable(s: Seq<char>) -> SpecResult {
    match spec_line_split(s, "COMPOUNDSYLLABLE"@) {
        None => Ok(None),
        Some((work, resid)) => match spec_compound_syllable(work) {
            Ok(cs) => Ok(Some((NodeView::CompoundSyllable(cs), resid, 0u32))),
            Err(k) => Err(err0(k)),
        },
    }
}

/// `COMPOUNDSYLLABLE`: a syllable limit and vowel set.
pub fn parse_compound_syllable<'a>(s: &'a str) -> (r: ParseResult<'a>)
    ensures
        pr_matches(r, spec_parse_compound_syllable(s@)),
{
    match line_splitter(s, "COMPOUNDSYLLABLE") {
        None => Ok(None),
        Some((work, resid)) => match compound_syllable_from_str(work) {
            Ok(cs) => Ok(Some((AffixNode::CompoundSyllable(cs), resid, 0))),
            Err(k) => Err(ParseError::new_nospan(k)),
        },
    }
}

/// Ghost content of [`parse_prefix`].
pub open spec fn spec_parse_prefix(s: Seq<char>) -> SpecResult {
    match spec_affix_table(s, "PFX"@, RuleType::Prefix) {
        Ok(None) => Ok(None),
        Ok(Some((g, rr, nl))) => Ok(Some((NodeView::Prefix(g), rr, nl))),
        Err(e) => Err(e),
    }
}

/// `PFX`: a prefix rule group.
pub fn parse_prefix<'a>(s: &'a str) -> (r: ParseResult<'a>)
    ensures
        pr_matches(r, spec_parse_prefix(s@)),
{
    match affix_table_parser(s, "PFX", RuleType::Prefix) {
        Ok(None) => Ok(None),
        Ok(Some((g, rr, nl))) => Ok(Some((AffixNode::Prefix(g), rr, nl))),
        Err(e) => Err(e),
    }
}

/// Ghost content of [`parse_suffix`].
pub open spec fn spec_parse_suffix(s: Seq<char>) -> SpecResult {
    match spec_affix_table(s, "SFX"@, RuleType::Suffix) {
        Ok(None) => Ok(None),
        Ok(Some((g, rr, nl))) => Ok(Some((NodeView::Suffix(g), rr, nl))),
        Err(e) => Err(e),
    }
}

/// `SFX`: a suffix rule group.
pub fn parse_suffix<'a>(s: &'a str) -> (r: ParseResult<'a>)
    ensures
        pr_matches(r, spec_parse_suffix(s@)),
{
    match affix_table_parser(s, "SFX", RuleType::Suffix) {
        Ok(None) => Ok(None),
        Ok(Some((g, rr, nl))) => Ok(Some((AffixNode::Suffix(g), rr, nl))),
        Err(e) => Err(e),
    }
}

// --- Boolean directives ---

/// Ghost content of [`parse_complex_prefixes`].
pub open spec fn spec_parse_complex_prefixes(s: Seq<char>) -> SpecResult {
    bool_outcome(s, "COMPLEXPREFIXES"@, NodeView::ComplexPrefixes)
}

/// `COMPLEXPREFIXES`: present means true.
pub fn parse_complex_prefixes<'a>(s: &'a str) -> (r: ParseResult<'a>)
    ensures
        pr_matches(r, spec_parse_complex_prefixes(s@)),
{
    match bool_parser(s, "COMPLEXPREFIXES") {
        Ok(None) => Ok(None),
        Ok(Some(resid)) => Ok(Some((AffixNode::ComplexPrefixes, resid, 0))),
        Err(e) => Err(e),
    }
}

/// Ghost content of [`parse_ngram_limit_to_diff_max`].
pub open spec fn spec_parse_ngram_limit_to_diff_max(s: Seq<char>) -> SpecResult {
    bool_outcome(s, "ONLYMAXDIFF"@, NodeView::NGramLimitToDiffMax)
}

/// `ONLYMAXDIFF`: present means true.
pub fn parse_ngram_limit_to_diff_max<'a>(s: &'a str) -> (r: ParseResult<'a>)
    ensures
        pr_matches(r, spec_parse_ngram_limit_to_diff_max(s@)),
{
    match bool_parser(s, "ONLYMAXDIFF") {
        Ok(None) => Ok(None),
        Ok(Some(resid)) => Ok(Some((AffixNode::NGramLimitToDiffMax, resid, 0))),
        Err(e) => Err(e),
    }
}

/// Ghost content of [`parse_no_split_suggestions`].
pub open spec fn spec_parse_no_split_suggestions(s: Seq<char>) -> SpecResult {
    bool_outcome(s, "NOSPLITSUGS"@, NodeView::NoSplitSuggestions)
}

/// `NOSPLITSUGS`: present means true.
pub fn parse_no_split_suggestions<'a>(s: &'a str) -> (r: ParseResult<'a>)
    ensures
        pr_matches(r, spec_parse_no_split_suggestions(s@)),
{
    match bool_parser(s, "NOSPLITSUGS") {
        Ok(None) => Ok(None),
        Ok(Some(resid)) => Ok(Some((AffixNode::NoSplitSuggestions, resid, 0))),
        Err(e) => Err(e),
    }
}

/// Ghost content of [`parse_keep_term_dots`].
pub open spec fn spec_parse_keep_term_dots(s: Seq<char>) -> SpecResult {
    bool_outcome(s, "SUGSWITHDOTS"@, NodeView::KeepTermDots)
}

/// `SUGSWITHDOTS`: present means true.
pub fn parse_keep_term_dots<'a>(s: &'a str) -> (r: ParseResult<'a>)
    ensures
        pr_matches(r, spec_parse_keep_term_dots(s@)),
{
    match bool_parser(s, "SUGSWITHDOTS") {
        Ok(None) => Ok(None),
        Ok(Some(resid)) => Ok(Some((AffixNode::KeepTermDots, resid, 0))),
        Err(e) => Err(e),
    }
}

/// Ghost content of [`parse_forbidden_warn`].
pub open spec fn spec_parse_forbidden_warn(s: Seq<char>) -> SpecResult {
    bool_outcome(s, "FORBIDWARN"@, NodeView::ForbidWarnWords)
}

/// `FORBIDWARN`: present means true.
pub fn parse_forbidden_warn<'a>(s: &'a str) -> (r: ParseResult<'a>)
    ensures
        pr_matches(r, spec_parse_forbidden_warn(s@)),
{
    match bool_parser(s, "FORBIDWARN") {
        Ok(None) => Ok(None),
        Ok(Some(resid)) => Ok(Some((AffixNode::ForbidWarnWords, resid, 0))),
        Err(e) => Err(e),
    }
}

/// Ghost content of [`parse_compound_more_suffixes`].
pub open spec fn spec_parse_compound_more_suffixes(s: Seq<char>) -> SpecResult {
    bool_outcome(s, "COMPOUNDMORESUFFIXES"@, NodeView::CompoundMoreSuffixes)
}

/// `COMPOUNDMORESUFFIXES`: present means true.
pub fn parse_compound_more_suffixes<'a>(s: &'a str) -> (r: ParseResult<'a>)
    ensures
        pr_matches(r, spec_parse_compound_more_suffixes(s@)),
{
    match bool_parser(s, "COMPOUNDMORESUFFIXES") {
        Ok(None) => Ok(None),
        Ok(Some(resid)) => Ok(Some((AffixNode::CompoundMoreSuffixes, resid, 0))),
        Err(e) => Err(e),
    }
}

/// Ghost content of [`parse_compound_forbid_duplication`].
pub open spec fn spec_parse_compound_forbid_duplication(s: Seq<char>) -> SpecResult {
    bool_outcome(s, "CHECKCOMPOUNDDUP"@, NodeView::CompoundForbidDup)
}

/// `CHECKCOMPOUNDDUP`: present means true.
pub fn parse_compound_forbid_duplication<'a>(s: &'a str) -> (r: ParseResult<'a>)
    ensures
        pr_matches(r, spec_parse_compound_forbid_duplication(s@)),
{
    match bool_parser(s, "CHECKCOMPOUNDDUP") {
        Ok(None) => Ok(None),
        Ok(Some(resid)) => Ok(Some((AffixNode::CompoundForbidDup, resid, 0))),
        Err(e) => Err(e),
    }
}

/// Ghost content of [`parse_compound_forbid_repeat`].
pub open spec fn spec_parse_compound_forbid_repeat(s: Seq<char>) -> SpecResult {
    bool_outcome(s, "CHECKCOMPOUNDREP"@, NodeView::CompoundForbidRepeat)
}

/// `CHECKCOMPOUNDREP`: present means true.
pub fn parse_compound_forbid_repeat<'a>(s: &'a str) -> (r: ParseResult<'a>)
    ensures
        pr_matches(r, spec_parse_compound_forbid_repeat(s@)),
{
    match bool_parser(s, "CHECKCOMPOUNDREP") {
        Ok(None) => Ok(None),
        Ok(Some(resid)) => Ok(Some((AffixNode::CompoundForbidRepeat, resid, 0))),
        Err(e) => Err(e),
    }
}

/// Ghost content of [`parse_compound_check_case`].
pub open spec fn spec_parse_compound_check_case(s: Seq<char>) -> SpecResult {
    bool_outcome(s, "CHECKCOMPOUNDCASE"@, NodeView::CompoundCheckCase)
}

/// `CHECKCOMPOUNDCASE`: present means true.
pub fn parse_compound_check_case<'a>(s: &'a str) -> (r: ParseResult<'a>)
    ensures
        pr_matches(r, spec_parse_compound_check_case(s@)),
{
    match bool_parser(s, "CHECKCOMPOUNDCASE") {
        Ok(None) => Ok(None),
        Ok(Some(resid)) => Ok(Some((AffixNode::CompoundCheckCase, resid, 0))),
        Err(e) => Err(e),
    }
}

/// Ghost content of [`parse_compound_check_triple`].
pub open spec fn spec_parse_compound_check_triple(s: Seq<char>) -> SpecResult {
    bool_outcome(s, "CHECKCOMPOUNDTRIPLE"@, NodeView::CompoundCheckTriple)
}

/// `CHECKCOMPOUNDTRIPLE`: present means true.
pub fn parse_compound_check_triple<'a>(s: &'a str) -> (r: ParseResult<'a>)
    ensures
        pr_matches(r, spec_parse_compound_check_triple(s@)),
{
    match bool_parser(s, "CHECKCOMPOUNDTRIPLE") {
        Ok(None) => Ok(None),
        Ok(Some(resid)) => Ok(Some((AffixNode::CompoundCheckTriple, resid, 0))),
        Err(e) => Err(e),
    }
}

/// Ghost content of [`parse_compound_simplify_triple`].
pub open spec fn spec_parse_compound_simplify_triple(s: Seq<char>) -> SpecResult {
    bool_outcome(s, "SIMPLIFIEDTRIPLE"@, NodeView::CompoundSimplifyTriple)
}

/// `SIMPLIFIEDTRIPLE`: present means true.
pub fn parse_compound_simplify_triple<'a>(s: &'a str) -> (r: ParseResult<'a>)
    ensures
        pr_matches(r, spec_parse_compound_simplify_triple(s@)),
{
    match bool_parser(s, "SIMPLIFIEDTRIPLE") {
        Ok(None) => Ok(None),
        Ok(Some(resid)) => Ok(Some((AffixNode::CompoundSimplifyTriple, resid, 0))),
        Err(e) => Err(e),
    }
}

/// Ghost content of [`parse_afx_full_strip`].
pub open spec fn spec_parse_afx_full_strip(s: Seq<char>) -> SpecResult {
    bool_outcome(s, "FULLSTRIP"@, NodeView::AfxFullStrip)
}

/// `FULLSTRIP`: present means true.
pub fn parse_afx_full_strip<'a>(s: &'a str) -> (r: ParseResult<'a>)
    ensures
        pr_matches(r, spec_parse_afx_full_strip(s@)),
{
    match bool_parser(s, "FULLSTRIP") {
        Ok(None) => Ok(None),
        Ok(Some(resid)) => Ok(Some((AffixNode::AfxFullStrip, resid, 0))),
        Err(e) => Err(e),
    }
}

/// Ghost content of [`parse_afx_check_sharps`].
pub open spec fn spec_parse_afx_check_sharps(s: Seq<char>) -> SpecResult {
    bool_outcome(s, "CHECKSHARPS"@, NodeView::AfxCheckSharps)
}

/// `CHECKSHARPS`: present means true.
pub fn parse_afx_check_sharps<'a>(s: &'a str) -> (r: ParseResult<'a>)
    ensures
        pr_matches(r, spec_parse_afx_check_sharps(s@)),
{
    match bool_parser(s, "CHECKSHARPS") {
        Ok(None) => Ok(None),
        Ok(Some(resid)) => Ok(Some((AffixNode::AfxCheckSharps, resid, 0))),
        Err(e) => Err(e),
    }
}

// --- Free-text directives ---

/// Ghost content of [`parse_lang`].
pub open spec fn spec_parse_lang(s: Seq<char>) -> SpecResult {
    string_outcome(s, "LANG"@, |w: Seq<char>| NodeView::Language(w))
}

/// `LANG`: a free-text payload, taken verbatim after trimming.
pub fn parse_lang<'a>(s: &'a str) -> (r: ParseResult<'a>)
    ensures
        pr_matches(r, spec_parse_lang(s@)),
{
    match string_parser(s, "LANG") {
        None => Ok(None),
        Some((work, resid)) => Ok(Some((AffixNode::Language(work), resid, 0))),
    }
}

/// Ghost content of [`parse_try_characters`].
pub open spec fn spec_parse_try_characters(s: Seq<char>) -> SpecResult {
    string_outcome(s, "TRY"@, |w: Seq<char>| NodeView::TryCharacters(w))
}

/// `TRY`: a free-text payload, taken verbatim after trimming.
pub fn parse_try_characters<'a>(s: &'a str) -> (r: ParseResult<'a>)
    ensures
        pr_matches(r, spec_parse_try_characters(s@)),
{
    match string_parser(s, "TRY") {
        None => Ok(None),
        Some((work, resid)) => Ok(Some((AffixNode::TryCharacters(work), resid, 0))),
    }
}

/// Ghost content of [`parse_syllable_num`].
pub open spec fn spec_parse_syllable_num(s: Seq<char>) -> SpecResult {
    string_outcome(s, "SYLLABLENUM"@, |w: Seq<char>| NodeView::SyllableNum(w))
}

/// `SYLLABLENUM`: a free-text payload, taken verbatim after trimming.
pub fn parse_syllable_num<'a>(s: &'a str) -> (r: ParseResult<'a>)
    ensures
        pr_matches(r, spec_parse_syllable_num(s@)),
{
    match string_parser(s, "SYLLABLENUM") {
        None => Ok(None),
        Some((work, resid)) => Ok(Some((AffixNode::SyllableNum(work), resid, 0))),
    }
}

/// Ghost content of [`parse_afx_word_chars`].
pub open spec fn spec_parse_afx_word_chars(s: Seq<char>) -> SpecResult {
    string_outcome(s, "WORDCHARS"@, |w: Seq<char>| NodeView::AfxWordChars(w))
}

/// `WORDCHARS`: a free-text payload, taken verbatim after trimming.
pub fn parse_afx_word_chars<'a>(s: &'a str) -> (r: ParseResult<'a>)
    ensures
        pr_matches(r, spec_parse_afx_word_chars(s@)),
{
    match string_parser(s, "WORDCHARS") {
        None => Ok(None),
        Some((work, resid)) => Ok(Some((AffixNode::AfxWordChars(work), resid, 0))),
    }
}

/// Ghost content of [`parse_name`].
pub open spec fn spec_parse_name(s: Seq<char>) -> SpecResult {
    string_outcome(s, "NAME"@, |w: Seq<char>| NodeView::Name(w))
}

/// `NAME`: a free-text payload, taken verbatim after trimming.
pub fn parse_name<'a>(s: &'a str) -> (r: ParseResult<'a>)
    ensures
        pr_matches(r, spec_parse_name(s@)),
{
    match string_parser(s, "NAME") {
        None => Ok(None),
        Some((work, resid)) => Ok(Some((AffixNode::Name(work), resid, 0))),
    }
}

/// Ghost content of [`parse_home`].
pub open spec fn spec_parse_home(s: Seq<char>) -> SpecResult {
    string_outcome(s, "HOME"@, |w: Seq<char>| NodeView::HomePage(w))
}

/// `HOME`: a free-text payload, taken verbatim after trimming.
pub fn parse_home<'a>(s: &'a str) -> (r: ParseResult<'a>)
    ensures
        pr_matches(r, spec_parse_home(s@)),
{
    match string_parser(s, "HOME") {
        None => Ok(None),
        Some((work, resid)) => Ok(Some((AffixNode::HomePage(work), resid, 0))),
    }
}

/// Ghost content of [`parse_version`].
pub open spec fn spec_parse_version(s: Seq<char>) -> SpecResult {
    string_outcome(s, "VERSION"@, |w: Seq<char>| NodeView::Version(w))
}

/// `VERSION`: a free-text payload, taken verbatim after trimming.
pub fn parse_version<'a>(s: &'a str) -> (r: ParseResult<'a>)
    ensures
        pr_matches(r, spec_parse_version(s@)),
{
    match string_parser(s, "VERSION") {
        None => Ok(None),
        Some((work, resid)) => Ok(Some((AffixNode::Version(work), resid, 0))),
    }
}

// --- Single-character flag directives ---

/// Ghost content of [`parse_nosuggest_flag`].
pub open spec fn spec_parse_nosuggest_flag(s: Seq<char>) -> SpecResult {
    char_outcome(s, "NOSUGGEST"@, |c: char| NodeView::NoSuggestFlag(c))
}

/// `NOSUGGEST`: a single-character flag.
pub fn parse_nosuggest_flag<'a>(s: &'a str) -> (r: ParseResult<'a>)
    ensures
        pr_matches(r, spec_parse_nosuggest_flag(s@)),
{
    match char_parser(s, "NOSUGGEST") {
        Ok(None) => Ok(None),
        Ok(Some((c, resid))) => Ok(Some((AffixNode::NoSuggestFlag(c), resid, 0))),
        Err(e) => Err(e),
    }
}

/// Ghost content of [`parse_warn_rare`].
pub open spec fn spec_parse_warn_rare(s: Seq<char>) -> SpecResult {
    char_outcome(s, "WARN"@, |c: char| NodeView::WarnRareFlag(c))
}

/// `WARN`: a single-character flag.
pub fn parse_warn_rare<'a>(s: &'a str) -> (r: ParseResult<'a>)
    ensures
        pr_matches(r, spec_parse_warn_rare(s@)),
{
    match char_parser(s, "WARN") {
        Ok(None) => Ok(None),
        Ok(Some((c, resid))) => Ok(Some((AffixNode::WarnRareFlag(c), resid, 0))),
        Err(e) => Err(e),
    }
}

/// Ghost content of [`parse_compound_flag`].
pub open spec fn spec_parse_compound_flag(s: Seq<char>) -> SpecResult {
    char_outcome(s, "COMPOUNDFLAG"@, |c: char| NodeView::CompoundFlag(c))
}

/// `COMPOUNDFLAG`: a single-character flag.
pub fn parse_compound_flag<'a>(s: &'a str) -> (r: ParseResult<'a>)
    ensures
        pr_matches(r, spec_parse_compound_flag(s@)),
{
    match char_parser(s, "COMPOUNDFLAG") {
        Ok(None) => Ok(None),
        Ok(Some((c, resid))) => Ok(Some((AffixNode::CompoundFlag(c), resid, 0))),
        Err(e) => Err(e),
    }
}

/// Ghost content of [`parse_compound_begin_flag`].
pub open spec fn spec_parse_compound_begin_flag(s: Seq<char>) -> SpecResult {
    char_outcome(s, "COMPOUNDBEGIN"@, |c: char| NodeView::CompoundBeginFlag(c))
}

/// `COMPOUNDBEGIN`: a single-character flag.
pub fn parse_compound_begin_flag<'a>(s: &'a str) -> (r: ParseResult<'a>)
    ensures
        pr_matches(r, spec_parse_compound_begin_flag(s@)),
{
    match char_parser(s, "COMPOUNDBEGIN") {
        Ok(None) => Ok(None),
        Ok(Some((c, resid))) => Ok(Some((AffixNode::CompoundBeginFlag(c), resid, 0))),
        Err(e) => Err(e),
    }
}

/// Ghost content of [`parse_compound_end_flag`].
pub open spec fn spec_parse_compound_end_flag(s: Seq<char>) -> SpecResult {
    char_outcome(s, "COMPOUNDLAST"@, |c: char| NodeView::CompoundEndFlag(c))
}

/// `COMPOUNDLAST`: a single-character flag.
pub fn parse_compound_end_flag<'a>(s: &'a str) -> (r: ParseResult<'a>)
    ensures
        pr_matches(r, spec_parse_compound_end_flag(s@)),
{
    match char_parser(s, "COMPOUNDLAST") {
        Ok(None) => Ok(None),
        Ok(Some((c, resid))) => Ok(Some((AffixNode::CompoundEndFlag(c), resid, 0))),
        Err(e) => Err(e),
    }
}

/// Ghost content of [`parse_compound_middle_flag`].
pub open spec fn spec_parse_compound_middle_flag(s: Seq<char>) -> SpecResult {
    char_outcome(s, "COMPOUNDMIDDLE"@, |c: char| NodeView::CompoundMiddleFlag(c))
}

/// `COMPOUNDMIDDLE`: a single-character flag.
pub fn parse_compound_middle_flag<'a>(s: &'a str) -> (r: ParseResult<'a>)
    ensures
        pr_matches(r, spec_parse_compound_middle_flag(s@)),
{
    match char_parser(s, "COMPOUNDMIDDLE") {
        Ok(None) => Ok(None),
        Ok(Some((c, resid))) => Ok(Some((AffixNode::CompoundMiddleFlag(c), resid, 0))),
        Err(e) => Err(e),
    }
}

/// Ghost content of [`parse_compound_only_flag`].
pub open spec fn spec_parse_compound_only_flag(s: Seq<char>) -> SpecResult {
    char_outcome(s, "ONLYINCOMPOUND"@, |c: char| NodeView::CompoundOnlyFlag(c))
}

/// `ONLYINCOMPOUND`: a single-character flag.
pub fn parse_compound_only_flag<'a>(s: &'a str) -> (r: ParseResult<'a>)
    ensures
        pr_matches(r, spec_parse_compound_only_flag(s@)),
{
    match char_parser(s, "ONLYINCOMPOUND") {
        Ok(None) => Ok(None),
        Ok(Some((c, resid))) => Ok(Some((AffixNode::CompoundOnlyFlag(c), resid, 0))),
        Err(e) => Err(e),
    }
}

/// Ghost content of [`parse_compound_permit_flag`].
pub open spec fn spec_parse_compound_permit_flag(s: Seq<char>) -> SpecResult {
    char_outcome(s, "COMPOUNDPERMITFLAG"@, |c: char| NodeView::CompoundPermitFlag(c))
}

/// `COMPOUNDPERMITFLAG`: a single-character flag.
pub fn parse_compound_permit_flag<'a>(s: &'a str) -> (r: ParseResult<'a>)
    ensures
        pr_matches(r, spec_parse_compound_permit_flag(s@)),
{
    match char_parser(s, "COMPOUNDPERMITFLAG") {
        Ok(None) => Ok(None),
        Ok(Some((c, resid))) => Ok(Some((AffixNode::CompoundPermitFlag(c), resid, 0))),
        Err(e) => Err(e),
    }
}

/// Ghost content of [`parse_compound_forbid_flag`].
pub open spec fn spec_parse_compound_forbid_flag(s: Seq<char>) -> SpecResult {
    char_outcome(s, "COMPOUNDFORBIDFLAG"@, |c: char| NodeView::CompoundForbidFlag(c))
}

/// `COMPOUNDFORBIDFLAG`: a single-character flag.
pub fn parse_compound_forbid_flag<'a>(s: &'a str) -> (r: ParseResult<'a>)
    ensures
        pr_matches(r, spec_parse_compound_forbid_flag(s@)),
{
    match char_parser(s, "COMPOUNDFORBIDFLAG") {
        Ok(None) => Ok(None),
        Ok(Some((c, resid))) => Ok(Some((AffixNode::CompoundForbidFlag(c), resid, 0))),
        Err(e) => Err(e),
    }
}

/// Ghost content of [`parse_compound_root`].
pub open spec fn spec_parse_compound_root(s: Seq<char>) -> SpecResult {
    char_outcome(s, "COMPOUNDROOT"@, |c: char| NodeView::CompoundRoot(c))
}

/// `COMPOUNDROOT`: a single-character flag.
pub fn parse_compound_root<'a>(s: &'a str) -> (r: ParseResult<'a>)
    ensures
        pr_matches(r, spec_parse_compound_root(s@)),
{
    match char_parser(s, "COMPOUNDROOT") {
        Ok(None) => Ok(None),
        Ok(Some((c, resid))) => Ok(Some((AffixNode::CompoundRoot(c), resid, 0))),
        Err(e) => Err(e),
    }
}

/// Ghost content of [`parse_compound_force_upper`].
pub open spec fn spec_parse_compound_force_upper(s: Seq<char>) -> SpecResult {
    char_outcome(s, "FORCEUCASE"@, |c: char| NodeView::CompoundForceUpper(c))
}

/// `FORCEUCASE`: a single-character flag.
pub fn parse_compound_force_upper<'a>(s: &'a str) -> (r: ParseResult<'a>)
    ensures
        pr_matches(r, spec_parse_compound_force_upper(s@)),
{
    match char_parser(s, "FORCEUCASE") {
        Ok(None) => Ok(None),
        Ok(Some((c, resid))) => Ok(Some((AffixNode::CompoundForceUpper(c), resid, 0))),
        Err(e) => Err(e),
    }
}

/// Ghost content of [`parse_circumfix_flag`].
pub open spec fn spec_parse_circumfix_flag(s: Seq<char>) -> SpecResult {
    char_outcome(s, "CIRCUMFIX"@, |c: char| NodeView::AfxCircumfixFlag(c))
}

/// `CIRCUMFIX`: a single-character flag.
pub fn parse_circumfix_flag<'a>(s: &'a str) -> (r: ParseResult<'a>)
    ensures
        pr_matches(r, spec_parse_circumfix_flag(s@)),
{
    match char_parser(s, "CIRCUMFIX") {
        Ok(None) => Ok(None),
        Ok(Some((c, resid))) => Ok(Some((AffixNode::AfxCircumfixFlag(c), resid, 0))),
        Err(e) => Err(e),
    }
}

/// Ghost content of [`parse_forbidden_word_flag`].
pub open spec fn spec_parse_forbidden_word_flag(s: Seq<char>) -> SpecResult {
    char_outcome(s, "FORBIDDENWORD"@, |c: char| NodeView::ForbiddenWordFlag(c))
}

/// `FORBIDDENWORD`: a single-character flag.
pub fn parse_forbidden_word_flag<'a>(s: &'a str) -> (r: ParseResult<'a>)
    ensures
        pr_matches(r, spec_parse_forbidden_word_flag(s@)),
{
    match char_parser(s, "FORBIDDENWORD") {
        Ok(None) => Ok(None),
        Ok(Some((c, resid))) => Ok(Some((AffixNode::ForbiddenWordFlag(c), resid, 0))),
        Err(e) => Err(e),
    }
}

/// Ghost content of [`parse_afx_keep_case_flag`].
pub open spec fn spec_parse_afx_keep_case_flag(s: Seq<char>) -> SpecResult {
    char_outcome(s, "KEEPCASE"@, |c: char| NodeView::AfxKeepCaseFlag(c))
}

/// `KEEPCASE`: a single-character flag.
pub fn parse_afx_keep_case_flag<'a>(s: &'a str) -> (r: ParseResult<'a>)
    ensures
        pr_matches(r, spec_parse_afx_keep_case_flag(s@)),
{
    match char_parser(s, "KEEPCASE") {
        Ok(None) => Ok(None),
        Ok(Some((c, resid))) => Ok(Some((AffixNode::AfxKeepCaseFlag(c), resid, 0))),
        Err(e) => Err(e),
    }
}

/// Ghost content of [`parse_afx_lemma_present_flag`].
pub open spec fn spec_parse_afx_lemma_present_flag(s: Seq<char>) -> SpecResult {
    char_outcome(s, "LEMMA_PRESENT"@, |c: char| NodeView::AfxLemmaPresentFlag(c))
}

/// `LEMMA_PRESENT`: a single-character flag.
pub fn parse_afx_lemma_present_flag<'a>(s: &'a str) -> (r: ParseResult<'a>)
    ensures
        pr_matches(r, spec_parse_afx_lemma_present_flag(s@)),
{
    match char_parser(s, "LEMMA_PRESENT") {
        Ok(None) => Ok(None),
        Ok(Some((c, resid))) => Ok(Some((AffixNode::AfxLemmaPresentFlag(c), resid, 0))),
        Err(e) => Err(e),
    }
}

/// Ghost content of [`parse_afx_needed_flag`].
pub open spec fn spec_parse_afx_needed_flag(s: Seq<char>) -> SpecResult {
    char_outcome(s, "NEEDAFFIX"@, |c: char| NodeView::AfxNeededFlag(c))
}

/// `NEEDAFFIX`: a single-character flag.
pub fn parse_afx_needed_flag<'a>(s: &'a str) -> (r: ParseResult<'a>)
    ensures
        pr_matches(r, spec_parse_afx_needed_flag(s@)),
{
    match char_parser(s, "NEEDAFFIX") {
        Ok(None) => Ok(None),
        Ok(Some((c, resid))) => Ok(Some((AffixNode::AfxNeededFlag(c), resid, 0))),
        Err(e) => Err(e),
    }
}

/// Ghost content of [`parse_afx_pseudoroot_flag`].
pub open spec fn spec_parse_afx_pseudoroot_flag(s: Seq<char>) -> SpecResult {
    char_outcome(s, "PSEUDOROOT"@, |c: char| NodeView::AfxPseudoRootFlag(c))
}

/// `PSEUDOROOT`: a single-character flag.
pub fn parse_afx_pseudoroot_flag<'a>(s: &'a str) -> (r: ParseResult<'a>)
    ensures
        pr_matches(r, spec_parse_afx_pseudoroot_flag(s@)),
{
    match char_parser(s, "PSEUDOROOT") {
        Ok(None) => Ok(None),
        Ok(Some((c, resid))) => Ok(Some((AffixNode::AfxPseudoRootFlag(c), resid, 0))),
        Err(e) => Err(e),
    }
}

/// Ghost content of [`parse_afx_substandard_flag`].
pub open spec fn spec_parse_afx_substandard_flag(s: Seq<char>) -> SpecResult {
    char_outcome(s, "SUBSTANDARD"@, |c: char| NodeView::AfxSubstandardFlag(c))
}

/// `SUBSTANDARD`: a single-character flag.
pub fn parse_afx_substandard_flag<'a>(s: &'a str) -> (r: ParseResult<'a>)
    ensures
        pr_matches(r, spec_parse_afx_substandard_flag(s@)),
{
    match char_parser(s, "SUBSTANDARD") {
        Ok(None) => Ok(None),
        Ok(Some((c, resid))) => Ok(Some((AffixNode::AfxSubstandardFlag(c), resid, 0))),
        Err(e) => Err(e),
    }
}

// --- Integer directives ---

/// Ghost content of [`parse_compound_suggestions_max`].
pub open spec fn spec_parse_compound_suggestions_max(s: Seq<char>) -> SpecResult {
    int_outcome(s, "MAXCPDSUGS"@, |v: u32| NodeView::CompoundSugMax(v))
}

/// `MAXCPDSUGS`: a non-negative integer payload.
pub fn parse_compound_suggestions_max<'a>(s: &'a str) -> (r: ParseResult<'a>)
    ensures
        pr_matches(r, spec_parse_compound_suggestions_max(s@)),
{
    match int_parser(s, "MAXCPDSUGS") {
        Ok(None) => Ok(None),
        Ok(Some((v, resid))) => Ok(Some((AffixNode::CompoundSugMax(v), resid, 0))),
        Err(e) => Err(e),
    }
}

/// Ghost content of [`parse_ngram_suggestions_max`].
pub open spec fn spec_parse_ngram_suggestions_max(s: Seq<char>) -> SpecResult {
    int_outcome(s, "MAXNGRAMSUGS"@, |v: u32| NodeView::NGramSugMax(v))
}

/// `MAXNGRAMSUGS`: a non-negative integer payload.
pub fn parse_ngram_suggestions_max<'a>(s: &'a str) -> (r: ParseResult<'a>)
    ensures
        pr_matches(r, spec_parse_ngram_suggestions_max(s@)),
{
    match int_parser(s, "MAXNGRAMSUGS") {
        Ok(None) => Ok(None),
        Ok(Some((v, resid))) => Ok(Some((AffixNode::NGramSugMax(v), resid, 0))),
        Err(e) => Err(e),
    }
}

/// Ghost content of [`parse_ngram_diff_max`].
pub open spec fn spec_parse_ngram_diff_max(s: Seq<char>) -> SpecResult {
    int_outcome(s, "MAXDIFF"@, |v: u32| NodeView::NGramDiffMax(v))
}

/// `MAXDIFF`: a non-negative integer payload.
pub fn parse_ngram_diff_max<'a>(s: &'a str) -> (r: ParseResult<'a>)
    ensures
        pr_matches(r, spec_parse_ngram_diff_max(s@)),
{
    match int_parser(s, "MAXDIFF") {
        Ok(None) => Ok(None),
        Ok(Some((v, resid))) => Ok(Some((AffixNode::NGramDiffMax(v), resid, 0))),
        Err(e) => Err(e),
    }
}

/// Ghost content of [`parse_compound_min_length`].
pub open spec fn spec_parse_compound_min_length(s: Seq<char>) -> SpecResult {
    int_outcome(s, "COMPOUNDMIN"@, |v: u32| NodeView::CompoundMinLen(v))
}

/// `COMPOUNDMIN`: a non-negative integer payload.
pub fn parse_compound_min_length<'a>(s: &'a str) -> (r: ParseResult<'a>)
    ensures
        pr_matches(r, spec_parse_compound_min_length(s@)),
{
    match int_parser(s, "COMPOUNDMIN") {
        Ok(None) => Ok(None),
        Ok(Some((v, resid))) => Ok(Some((AffixNode::CompoundMinLen(v), resid, 0))),
        Err(e) => Err(e),
    }
}

/// Ghost content of [`parse_compound_word_max`].
pub open spec fn spec_parse_compound_word_max(s: Seq<char>) -> SpecResult {
    int_outcome(s, "COMPOUNDWORDMAX"@, |v: u32| NodeView::CompoundWordMax(v))
}

/// `COMPOUNDWORDMAX`: a non-negative integer payload.
pub fn parse_compound_word_max<'a>(s: &'a str) -> (r: ParseResult<'a>)
    ensures
        pr_matches(r, spec_parse_compound_word_max(s@)),
{
    match int_parser(s, "COMPOUNDWORDMAX") {
        Ok(None) => Ok(None),
        Ok(Some((v, resid))) => Ok(Some((AffixNode::CompoundWordMax(v), resid, 0))),
        Err(e) => Err(e),
    }
}

// --- Tables of whitespace-free rows ---

/// Ghost content of [`parse_affix_alias`].
pub open spec fn spec_parse_affix_alias(s: Seq<char>) -> SpecResult {
    ws_table_outcome(s, "AF"@, |rows: Seq<Seq<char>>| NodeView::AffixAlias(rows))
}

/// `AF`: a counted table whose rows must hold no whitespace.
pub fn parse_affix_alias<'a>(s: &'a str) -> (r: ParseResult<'a>)
    ensures
        pr_matches(r, spec_parse_affix_alias(s@)),
{
    match table_parser(s, "AF") {
        Ok(None) => Ok(None),
        Err(e) => Err(e),
        Ok(Some((rows, rr, nl))) => match rows_ws_free(&rows) {
            Err(e) => Err(e),
            Ok(()) => Ok(Some((AffixNode::AffixAlias(rows), rr, nl))),
        },
    }
}

/// Ghost content of [`parse_morph_alias`].
pub open spec fn spec_parse_morph_alias(s: Seq<char>) -> SpecResult {
    ws_table_outcome(s, "AM"@, |rows: Seq<Seq<char>>| NodeView::MorphAlias(rows))
}

/// `AM`: a counted table whose rows must hold no whitespace.
pub fn parse_morph_alias<'a>(s: &'a str) -> (r: ParseResult<'a>)
    ensures
        pr_matches(r, spec_parse_morph_alias(s@)),
{
    match table_parser(s, "AM") {
        Ok(None) => Ok(None),
        Err(e) => Err(e),
        Ok(Some((rows, rr, nl))) => match rows_ws_free(&rows) {
            Err(e) => Err(e),
            Ok(()) => Ok(Some((AffixNode::MorphAlias(rows), rr, nl))),
        },
    }
}

/// Ghost content of [`parse_break_separator`].
pub open spec fn spec_parse_break_separator(s: Seq<char>) -> SpecResult {
    ws_table_outcome(s, "BREAK"@, |rows: Seq<Seq<char>>| NodeView::BreakSeparator(rows))
}

/// `BREAK`: a counted table whose rows must hold no whitespace.
pub fn parse_break_separator<'a>(s: &'a str) -> (r: ParseResult<'a>)
    ensures
        pr_matches(r, spec_parse_break_separator(s@)),
{
    match table_parser(s, "BREAK") {
        Ok(None) => Ok(None),
        Err(e) => Err(e),
        Ok(Some((rows, rr, nl))) => match rows_ws_free(&rows) {
            Err(e) => Err(e),
            Ok(()) => Ok(Some((AffixNode::BreakSeparator(rows), rr, nl))),
        },
    }
}

/// Ghost content of [`parse_compound_rule`].
pub open spec fn spec_parse_compound_rule(s: Seq<char>) -> SpecResult {
    ws_table_outcome(s, "COMPOUNDRULE"@, |rows: Seq<Seq<char>>| NodeView::CompoundRule(rows))
}

/// `COMPOUNDRULE`: a counted table whose rows must hold no whitespace.
pub fn parse_compound_rule<'a>(s: &'a str) -> (r: ParseResult<'a>)
    ensures
        pr_matches(r, spec_parse_compound_rule(s@)),
{
    match table_parser(s, "COMPOUNDRULE") {
        Ok(None) => Ok(None),
        Err(e) => Err(e),
        Ok(Some((rows, rr, nl))) => match rows_ws_free(&rows) {
            Err(e) => Err(e),
            Ok(()) => Ok(Some((AffixNode::CompoundRule(rows), rr, nl))),
        },
    }
}

// --- Conversion tables ---

/// Ghost content of [`parse_replacement`].
pub open spec fn spec_parse_replacement(s: Seq<char>) -> SpecResult {
    conv_table_outcome(s, "REP"@, |convs: Seq<crate::types::ConversionView>| NodeView::Replacement(convs))
}

/// `REP`: a counted table of conversion rows.
pub fn parse_replacement<'a>(s: &'a str) -> (r: ParseResult<'a>)
    ensures
        pr_matches(r, spec_parse_replacement(s@)),
{
    match table_parser(s, "REP") {
        Ok(None) => Ok(None),
        Err(e) => Err(e),
        Ok(Some((rows, rr, nl))) => match rows_to_conversions(&rows, false) {
            Err(e) => Err(e),
            Ok(convs) => Ok(Some((AffixNode::Replacement(convs), rr, nl))),
        },
    }
}

/// Ghost content of [`parse_afx_input_conversion`].
pub open spec fn spec_parse_afx_input_conversion(s: Seq<char>) -> SpecResult {
    conv_table_outcome(s, "ICONV"@, |convs: Seq<crate::types::ConversionView>| NodeView::AfxInputConversion(convs))
}

/// `ICONV`: a counted table of conversion rows.
pub fn parse_afx_input_conversion<'a>(s: &'a str) -> (r: ParseResult<'a>)
    ensures
        pr_matches(r, spec_parse_afx_input_conversion(s@)),
{
    match table_parser(s, "ICONV") {
        Ok(None) => Ok(None),
        Err(e) => Err(e),
        Ok(Some((rows, rr, nl))) => match rows_to_conversions(&rows, false) {
            Err(e) => Err(e),
            Ok(convs) => Ok(Some((AffixNode::AfxInputConversion(convs), rr, nl))),
        },
    }
}

/// Ghost content of [`parse_afx_output_conversion`].
pub open spec fn spec_parse_afx_output_conversion(s: Seq<char>) -> SpecResult {
    conv_table_outcome(s, "OCONV"@, |convs: Seq<crate::types::ConversionView>| NodeView::AfxOutputConversion(convs))
}

/// `OCONV`: a counted table of conversion rows.
pub fn parse_afx_output_conversion<'a>(s: &'a str) -> (r: ParseResult<'a>)
    ensures
        pr_matches(r, spec_parse_afx_output_conversion(s@)),
{
    match table_parser(s, "OCONV") {
        Ok(None) => Ok(None),
        Err(e) => Err(e),
        Ok(Some((rows, rr, nl))) => match rows_to_conversions(&rows, false) {
            Err(e) => Err(e),
            Ok(convs) => Ok(Some((AffixNode::AfxOutputConversion(convs), rr, nl))),
        },
    }
}

// --- The remaining special tables ---

/// Ghost content of [`parse_mapping`].
pub open spec fn spec_parse_mapping(s: Seq<char>) -> SpecResult {
    match spec_table(s, "MAP"@) {
        Ok(None) => Ok(None),
        Err(e) => Err(e),
        Ok(Some((rows, rr, nl))) => match spec_map_rows(rows, 0) {
            Err(e) => Err(e),
            Ok(pairs) => Ok(Some((NodeView::Mapping(pairs), rr, nl))),
        },
    }
}

/// `MAP`: a counted table; each row contributes its first two characters.
pub fn parse_mapping<'a>(s: &'a str) -> (r: ParseResult<'a>)
    ensures
        pr_matches(r, spec_parse_mapping(s@)),
{
    match table_parser(s, "MAP") {
        Ok(None) => Ok(None),
        Err(e) => Err(e),
        Ok(Some((rows, rr, nl))) => match rows_to_pairs(&rows) {
            Err(e) => Err(e),
            Ok(pairs) => Ok(Some((AffixNode::Mapping(pairs), rr, nl))),
        },
    }
}

/// Ghost content of [`parse_phonetic`].
pub open spec fn spec_parse_phonetic(s: Seq<char>) -> SpecResult {
    match spec_table(s, "PHONE"@) {
        Ok(None) => Ok(None),
        Err(e) => Err(e),
        Ok(Some((rows, rr, nl))) => match spec_phone_rows(rows, 0) {
            Err(e) => Err(e),
            Ok(ps) => Ok(Some((NodeView::Phonetic(ps), rr, nl))),
        },
    }
}

/// `PHONE`: a counted table of phonetic rows.
pub fn parse_phonetic<'a>(s: &'a str) -> (r: ParseResult<'a>)
    ensures
        pr_matches(r, spec_parse_phonetic(s@)),
{
    match table_parser(s, "PHONE") {
        Ok(None) => Ok(None),
        Err(e) => Err(e),
        Ok(Some((rows, rr, nl))) => match rows_to_phonetics(&rows) {
            Err(e) => Err(e),
            Ok(ps) => Ok(Some((AffixNode::Phonetic(ps), rr, nl))),
        },
    }
}

/// Ghost content of [`parse_compound_forbid_patterns`].
pub open spec fn spec_parse_compound_forbid_patterns(s: Seq<char>) -> SpecResult {
    match spec_table(s, "CHECKCOMPOUNDPATTERN"@) {
        Ok(None) => Ok(None),
        Err(e) => Err(e),
        Ok(Some((rows, rr, nl))) => match spec_pattern_rows(rows, 0) {
            Err(e) => Err(e),
            Ok(ps) => Ok(Some((NodeView::CompoundForbidPats(ps), rr, nl))),
        },
    }
}

/// `CHECKCOMPOUNDPATTERN`: a counted table of compound patterns.
pub fn parse_compound_forbid_patterns<'a>(s: &'a str) -> (r: ParseResult<'a>)
    ensures
        pr_matches(r, spec_parse_compound_forbid_patterns(s@)),
{
    match table_parser(s, "CHECKCOMPOUNDPATTERN") {
        Ok(None) => Ok(None),
        Err(e) => Err(e),
        Ok(Some((rows, rr, nl))) => match rows_to_patterns(&rows) {
            Err(e) => Err(e),
            Ok(ps) => Ok(Some((AffixNode::CompoundForbidPats(ps), rr, nl))),
        },
    }
}

} // verus!
