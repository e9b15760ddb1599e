//! The dispatcher: an ordered chain of all directive recognizers, and the
//! main entry point [`parse_affix`].
//!
//! The outer loop tries every recognizer against the input head.  A match
//! appends one node and advances past the directive and its newline; an
//! unrecognized head advances one character (counting newlines), which
//! skips blank lines and stray content and keeps the parser total.

use vstd::prelude::*;

use crate::error::{err0, sat_add, sat_add_u32, spec_add_offset, ErrorKindView, ParseError, ParseErrorView};
use crate::scan::{lemma_munch_shrinks, lemma_split_shrinks, munch_newline, spec_munch};
use crate::table::lemma_table_shrinks;
use crate::rules::lemma_affix_shrinks;
use crate::types::{AffixNode, NodeView, RuleType};
use crate::directives::{
    ParseResult, SpecResult, parse_affix_alias, parse_afx_check_sharps, parse_afx_full_strip,
    parse_afx_input_conversion, parse_afx_keep_case_flag, parse_afx_lemma_present_flag,
    parse_afx_needed_flag, parse_afx_output_conversion, parse_afx_pseudoroot_flag,
    parse_afx_substandard_flag, parse_afx_word_chars, parse_break_separator,
    parse_circumfix_flag, parse_comment, parse_complex_prefixes, parse_compound_begin_flag,
    parse_compound_check_case, parse_compound_check_triple, parse_compound_end_flag,
    parse_compound_flag, parse_compound_forbid_duplication, parse_compound_forbid_flag,
    parse_compound_forbid_patterns, parse_compound_forbid_repeat, parse_compound_force_upper,
    parse_compound_middle_flag, parse_compound_min_length, parse_compound_more_suffixes,
    parse_compound_only_flag, parse_compound_permit_flag, parse_compound_root,
    parse_compound_rule, parse_compound_simplify_triple, parse_compound_suggestions_max,
    parse_compound_syllable, parse_compound_word_max, parse_encoding, parse_flag,
    parse_forbidden_warn, parse_forbidden_word_flag, parse_home, parse_ignore_chars,
    parse_keep_term_dots, parse_lang, parse_mapping, parse_morph_alias, parse_name,
    parse_neighbor_keys, parse_ngram_diff_max, parse_ngram_limit_to_diff_max,
    parse_ngram_suggestions_max, parse_no_split_suggestions, parse_nosuggest_flag,
    parse_phonetic, parse_prefix, parse_replacement, parse_suffix, parse_syllable_num,
    parse_try_characters, parse_version, parse_warn_rare, pr_matches, spec_parse_affix_alias,
    spec_parse_afx_check_sharps, spec_parse_afx_full_strip, spec_parse_afx_input_conversion,
    spec_parse_afx_keep_case_flag, spec_parse_afx_lemma_present_flag,
    spec_parse_afx_needed_flag, spec_parse_afx_output_conversion,
    spec_parse_afx_pseudoroot_flag, spec_parse_afx_substandard_flag,
    spec_parse_afx_word_chars, spec_parse_break_separator, spec_parse_circumfix_flag,
    spec_parse_comment, spec_parse_complex_prefixes, spec_parse_compound_begin_flag,
    spec_parse_compound_check_case, spec_parse_compound_check_triple,
    spec_parse_compound_end_flag, spec_parse_compound_flag,
    spec_parse_compound_forbid_duplication, spec_parse_compound_forbid_flag,
    spec_parse_compound_forbid_patterns, spec_parse_compound_forbid_repeat,
    spec_parse_compound_force_upper, spec_parse_compound_middle_flag,
    spec_parse_compound_min_length, spec_parse_compound_more_suffixes,
    spec_parse_compound_only_flag, spec_parse_compound_permit_flag, spec_parse_compound_root,
    spec_parse_compound_rule, spec_parse_compound_simplify_triple,
    spec_parse_compound_suggestions_max, spec_parse_compound_syllable,
    spec_parse_compound_word_max, spec_parse_encoding, spec_parse_flag,
    spec_parse_forbidden_warn, spec_parse_forbidden_word_flag, spec_parse_home,
    spec_parse_ignore_chars, spec_parse_keep_term_dots, spec_parse_lang, spec_parse_mapping,
    spec_parse_morph_alias, spec_parse_name, spec_parse_neighbor_keys,
    spec_parse_ngram_diff_max, spec_parse_ngram_limit_to_diff_max,
    spec_parse_ngram_suggestions_max, spec_parse_no_split_suggestions,
    spec_parse_nosuggest_flag, spec_parse_phonetic, spec_parse_prefix, spec_parse_replacement,
    spec_parse_suffix, spec_parse_syllable_num, spec_parse_try_characters, spec_parse_version,
    spec_parse_warn_rare,
};

verus! {

/// Chain two recognizer outcomes: the second is consulted only when the
/// first did not recognize the head.
pub open spec fn or_else(a: SpecResult, b: SpecResult) -> SpecResult {
    match a {
        Ok(None) => b,
        _ => a,
    }
}

/// Stage 1 of the recognizer chain, in dispatch order.
pub open spec fn spec_try_group_one(s: Seq<char>) -> SpecResult {
    or_else(
        spec_parse_comment(s),
        or_else(
            spec_parse_encoding(s),
            or_else(
                spec_parse_flag(s),
                or_else(
                    spec_parse_complex_prefixes(s),
                    or_else(
                        spec_parse_lang(s),
                        or_else(
                            spec_parse_ignore_chars(s),
                            or_else(
                                spec_parse_affix_alias(s),
                                or_else(
                                    spec_parse_morph_alias(s),
                                    or_else(
                                        spec_parse_neighbor_keys(s),
                                        or_else(
                                            spec_parse_try_characters(s),
                                            or_else(
                                                spec_parse_nosuggest_flag(s),
                                                or_else(
                                                    spec_parse_compound_suggestions_max(s),
                                                    or_else(
                                                        spec_parse_ngram_suggestions_max(s),
                                                        or_else(
                                                            spec_parse_ngram_diff_max(s),
                                                            or_else(
                                                                spec_parse_ngram_limit_to_diff_max(s),
                                                                or_else(
                                                                    spec_parse_no_split_suggestions(s),
                                                                    or_else(
                                                                        spec_parse_keep_term_dots(s),
                                                                        Ok(None),
                                                                    ),
                                                                ),
                                                            ),
                                                        ),
                                                    ),
                                                ),
                                            ),
                                        ),
                                    ),
                                ),
                            ),
                        ),
                    ),
                ),
            ),
        ),
    )
}

/// A directive recognized by stage 1 leaves a strictly shorter residual.
pub proof fn lemma_group_one_shrinks(s: Seq<char>)
    ensures
        spec_try_group_one(s) matches Ok(Some((n, resid, nl))) ==> resid.len() < s.len(),
{
    reveal_strlit("#");
    reveal_strlit("SET");
    reveal_strlit("FLAG");
    reveal_strlit("COMPLEXPREFIXES");
    reveal_strlit("LANG");
    reveal_strlit("IGNORE");
    reveal_strlit("AF");
    reveal_strlit("AM");
    reveal_strlit("KEY");
    reveal_strlit("TRY");
    reveal_strlit("NOSUGGEST");
    reveal_strlit("MAXCPDSUGS");
    reveal_strlit("MAXNGRAMSUGS");
    reveal_strlit("MAXDIFF");
    reveal_strlit("ONLYMAXDIFF");
    reveal_strlit("NOSPLITSUGS");
    reveal_strlit("SUGSWITHDOTS");
    lemma_split_shrinks(s, "#"@);
    lemma_split_shrinks(s, "SET"@);
    lemma_split_shrinks(s, "FLAG"@);
    lemma_split_shrinks(s, "COMPLEXPREFIXES"@);
    lemma_split_shrinks(s, "LANG"@);
    lemma_split_shrinks(s, "IGNORE"@);
    lemma_table_shrinks(s, "AF"@);
    lemma_table_shrinks(s, "AM"@);
    lemma_split_shrinks(s, "KEY"@);
    lemma_split_shrinks(s, "TRY"@);
    lemma_split_shrinks(s, "NOSUGGEST"@);
    lemma_split_shrinks(s, "MAXCPDSUGS"@);
    lemma_split_shrinks(s, "MAXNGRAMSUGS"@);
    lemma_split_shrinks(s, "MAXDIFF"@);
    lemma_split_shrinks(s, "ONLYMAXDIFF"@);
    lemma_split_shrinks(s, "NOSPLITSUGS"@);
    lemma_split_shrinks(s, "SUGSWITHDOTS"@);
}

/// Try stage 1's recognizers in order.
fn try_group_one<'a>(s: &'a str) -> (r: ParseResult<'a>)
    ensures
        pr_matches(r, spec_try_group_one(s@)),
{
    match parse_comment(s) {
        Ok(None) => (),
        r => {
            return r;
        },
    }
    match parse_encoding(s) {
        Ok(None) => (),
        r => {
            return r;
        },
    }
    match parse_flag(s) {
        Ok(None) => (),
        r => {
            return r;
        },
    }
    match parse_complex_prefixes(s) {
        Ok(None) => (),
        r => {
            return r;
        },
    }
    match parse_lang(s) {
        Ok(None) => (),
        r => {
            return r;
        },
    }
    match parse_ignore_chars(s) {
        Ok(None) => (),
        r => {
            return r;
        },
    }
    match parse_affix_alias(s) {
        Ok(None) => (),
        r => {
            return r;
        },
    }
    match parse_morph_alias(s) {
        Ok(None) => (),
        r => {
            return r;
        },
    }
    match parse_neighbor_keys(s) {
        Ok(None) => (),
        r => {
            return r;
        },
    }
    match parse_try_characters(s) {
        Ok(None) => (),
        r => {
            return r;
        },
    }
    match parse_nosuggest_flag(s) {
        Ok(None) => (),
        r => {
            return r;
        },
    }
    match parse_compound_suggestions_max(s) {
        Ok(None) => (),
        r => {
            return r;
        },
    }
    match parse_ngram_suggestions_max(s) {
        Ok(None) => (),
        r => {
            return r;
        },
    }
    match parse_ngram_diff_max(s) {
        Ok(None) => (),
        r => {
            return r;
        },
    }
    match parse_ngram_limit_to_diff_max(s) {
        Ok(None) => (),
        r => {
            return r;
        },
    }
    match parse_no_split_suggestions(s) {
        Ok(None) => (),
        r => {
            return r;
        },
    }
    match parse_keep_term_dots(s) {
        Ok(None) => (),
        r => {
            return r;
        },
    }
    Ok(None)
}

/// Stage 2 of the recognizer chain, in dispatch order.
pub open spec fn spec_try_group_two(s: Seq<char>) -> SpecResult {
    or_else(
        spec_parse_replacement(s),
        or_else(
            spec_parse_mapping(s),
            or_else(
                spec_parse_phonetic(s),
                or_else(
                    spec_parse_warn_rare(s),
                    or_else(
                        spec_parse_forbidden_warn(s),
                        or_else(
                            spec_parse_break_separator(s),
                            or_else(
                                spec_parse_compound_rule(s),
                                or_else(
                                    spec_parse_compound_min_length(s),
                                    or_else(
                                        spec_parse_compound_flag(s),
                                        or_else(
                                            spec_parse_compound_begin_flag(s),
                                            or_else(
                                                spec_parse_compound_end_flag(s),
                                                or_else(
                                                    spec_parse_compound_middle_flag(s),
                                                    or_else(
                                                        spec_parse_compound_only_flag(s),
                                                        or_else(
                                                            spec_parse_compound_permit_flag(s),
                                                            or_else(
                                                                spec_parse_compound_forbid_flag(s),
                                                                or_else(
                                                                    spec_parse_compound_more_suffixes(s),
                                                                    or_else(
                                                                        spec_parse_compound_root(s),
                                                                        or_else(
                                                                            spec_parse_compound_word_max(s),
                                                                            Ok(None),
                                                                        ),
                                                                    ),
                                                                ),
                                                            ),
                                                        ),
                                                    ),
                                                ),
                                            ),
                                        ),
                                    ),
                                ),
                            ),
                        ),
                    ),
                ),
            ),
        ),
    )
}

/// A directive recognized by stage 2 leaves a strictly shorter residual.
pub proof fn lemma_group_two_shrinks(s: Seq<char>)
    ensures
        spec_try_group_two(s) matches Ok(Some((n, resid, nl))) ==> resid.len() < s.len(),
{
    reveal_strlit("REP");
    reveal_strlit("MAP");
    reveal_strlit("PHONE");
    reveal_strlit("WARN");
    reveal_strlit("FORBIDWARN");
    reveal_strlit("BREAK");
    reveal_strlit("COMPOUNDRULE");
    reveal_strlit("COMPOUNDMIN");
    reveal_strlit("COMPOUNDFLAG");
    reveal_strlit("COMPOUNDBEGIN");
    reveal_strlit("COMPOUNDLAST");
    reveal_strlit("COMPOUNDMIDDLE");
    reveal_strlit("ONLYINCOMPOUND");
    reveal_strlit("COMPOUNDPERMITFLAG");
    reveal_strlit("COMPOUNDFORBIDFLAG");
    reveal_strlit("COMPOUNDMORESUFFIXES");
    reveal_strlit("COMPOUNDROOT");
    reveal_strlit("COMPOUNDWORDMAX");
    lemma_table_shrinks(s, "REP"@);
    lemma_table_shrinks(s, "MAP"@);
    lemma_table_shrinks(s, "PHONE"@);
    lemma_split_shrinks(s, "WARN"@);
    lemma_split_shrinks(s, "FORBIDWARN"@);
    lemma_table_shrinks(s, "BREAK"@);
    lemma_table_shrinks(s, "COMPOUNDRULE"@);
    lemma_split_shrinks(s, "COMPOUNDMIN"@);
    lemma_split_shrinks(s, "COMPOUNDFLAG"@);
    lemma_split_shrinks(s, "COMPOUNDBEGIN"@);
    lemma_split_shrinks(s, "COMPOUNDLAST"@);
    lemma_split_shrinks(s, "COMPOUNDMIDDLE"@);
    lemma_split_shrinks(s, "ONLYINCOMPOUND"@);
    lemma_split_shrinks(s, "COMPOUNDPERMITFLAG"@);
    lemma_split_shrinks(s, "COMPOUNDFORBIDFLAG"@);
    lemma_split_shrinks(s, "COMPOUNDMORESUFFIXES"@);
    lemma_split_shrinks(s, "COMPOUNDROOT"@);
    lemma_split_shrinks(s, "COMPOUNDWORDMAX"@);
}

/// Try stage 2's recognizers in order.
fn try_group_two<'a>(s: &'a str) -> (r: ParseResult<'a>)
    ensures
        pr_matches(r, spec_try_group_two(s@)),
{
    match parse_replacement(s) {
        Ok(None) => (),
        r => {
            return r;
        },
    }
    match parse_mapping(s) {
        Ok(None) => (),
        r => {
            return r;
        },
    }
    match parse_phonetic(s) {
        Ok(None) => (),
        r => {
            return r;
        },
    }
    match parse_warn_rare(s) {
        Ok(None) => (),
        r => {
            return r;
        },
    }
    match parse_forbidden_warn(s) {
        Ok(None) => (),
        r => {
            return r;
        },
    }
    match parse_break_separator(s) {
        Ok(None) => (),
        r => {
            return r;
        },
    }
    match parse_compound_rule(s) {
        Ok(None) => (),
        r => {
            return r;
        },
    }
    match parse_compound_min_length(s) {
        Ok(None) => (),
        r => {
            return r;
        },
    }
    match parse_compound_flag(s) {
        Ok(None) => (),
        r => {
            return r;
        },
    }
    match parse_compound_begin_flag(s) {
        Ok(None) => (),
        r => {
            return r;
        },
    }
    match parse_compound_end_flag(s) {
        Ok(None) => (),
        r => {
            return r;
        },
    }
    match parse_compound_middle_flag(s) {
        Ok(None) => (),
        r => {
            return r;
        },
    }
    match parse_compound_only_flag(s) {
        Ok(None) => (),
        r => {
            return r;
        },
    }
    match parse_compound_permit_flag(s) {
        Ok(None) => (),
        r => {
            return r;
        },
    }
    match parse_compound_forbid_flag(s) {
        Ok(None) => (),
        r => {
            return r;
        },
    }
    match parse_compound_more_suffixes(s) {
        Ok(None) => (),
        r => {
            return r;
        },
    }
    match parse_compound_root(s) {
        Ok(None) => (),
        r => {
            return r;
        },
    }
    match parse_compound_word_max(s) {
        Ok(None) => (),
        r => {
            return r;
        },
    }
    Ok(None)
}

/// Stage 3 of the recognizer chain, in dispatch order.
pub open spec fn spec_try_group_three(s: Seq<char>) -> SpecResult {
    or_else(
        spec_parse_compound_forbid_duplication(s),
        or_else(
            spec_parse_compound_forbid_repeat(s),
            or_else(
                spec_parse_compound_check_case(s),
                or_else(
                    spec_parse_compound_check_triple(s),
                    or_else(
                        spec_parse_compound_simplify_triple(s),
                        or_else(
                            spec_parse_compound_forbid_patterns(s),
                            or_else(
                                spec_parse_compound_force_upper(s),
                                or_else(
                                    spec_parse_compound_syllable(s),
                                    or_else(
                                        spec_parse_syllable_num(s),
                                        or_else(
                                            spec_parse_prefix(s),
                                            or_else(
                                                spec_parse_suffix(s),
                                                Ok(None),
                                            ),
                                        ),
                                    ),
                                ),
                            ),
                        ),
                    ),
                ),
            ),
        ),
    )
}

/// A directive recognized by stage 3 leaves a strictly shorter residual.
pub proof fn lemma_group_three_shrinks(s: Seq<char>)
    ensures
        spec_try_group_three(s) matches Ok(Some((n, resid, nl))) ==> resid.len() < s.len(),
{
    reveal_strlit("CHECKCOMPOUNDDUP");
    reveal_strlit("CHECKCOMPOUNDREP");
    reveal_strlit("CHECKCOMPOUNDCASE");
    reveal_strlit("CHECKCOMPOUNDTRIPLE");
    reveal_strlit("SIMPLIFIEDTRIPLE");
    reveal_strlit("CHECKCOMPOUNDPATTERN");
    reveal_strlit("FORCEUCASE");
    reveal_strlit("COMPOUNDSYLLABLE");
    reveal_strlit("SYLLABLENUM");
    reveal_strlit("PFX");
    reveal_strlit("SFX");
    lemma_split_shrinks(s, "CHECKCOMPOUNDDUP"@);
    lemma_split_shrinks(s, "CHECKCOMPOUNDREP"@);
    lemma_split_shrinks(s, "CHECKCOMPOUNDCASE"@);
    lemma_split_shrinks(s, "CHECKCOMPOUNDTRIPLE"@);
    lemma_split_shrinks(s, "SIMPLIFIEDTRIPLE"@);
    lemma_table_shrinks(s, "CHECKCOMPOUNDPATTERN"@);
    lemma_split_shrinks(s, "FORCEUCASE"@);
    lemma_split_shrinks(s, "COMPOUNDSYLLABLE"@);
    lemma_split_shrinks(s, "SYLLABLENUM"@);
    lemma_affix_shrinks(s, "PFX"@, RuleType::Prefix);
    lemma_affix_shrinks(s, "SFX"@, RuleType::Suffix);
}

/// Try stage 3's recognizers in order.
fn try_group_three<'a>(s: &'a str) -> (r: ParseResult<'a>)
    ensures
        pr_matches(r, spec_try_group_three(s@)),
{
    match parse_compound_forbid_duplication(s) {
        Ok(None) => (),
        r => {
            return r;
        },
    }
    match parse_compound_forbid_repeat(s) {
        Ok(None) => (),
        r => {
            return r;
        },
    }
    match parse_compound_check_case(s) {
        Ok(None) => (),
        r => {
            return r;
        },
    }
    match parse_compound_check_triple(s) {
        Ok(None) => (),
        r => {
            return r;
        },
    }
    match parse_compound_simplify_triple(s) {
        Ok(None) => (),
        r => {
            return r;
        },
    }
    match parse_compound_forbid_patterns(s) {
        Ok(None) => (),
        r => {
            return r;
        },
    }
    match parse_compound_force_upper(s) {
        Ok(None) => (),
        r => {
            return r;
        },
    }
    match parse_compound_syllable(s) {
        Ok(None) => (),
        r => {
            return r;
        },
    }
    match parse_syllable_num(s) {
        Ok(None) => (),
        r => {
            return r;
        },
    }
    match parse_prefix(s) {
        Ok(None) => (),
        r => {
            return r;
        },
    }
    match parse_suffix(s) {
        Ok(None) => (),
        r => {
            return r;
        },
    }
    Ok(None)
}

/// Stage 4 of the recognizer chain, in dispatch order.
pub open spec fn spec_try_group_four(s: Seq<char>) -> SpecResult {
    or_else(
        spec_parse_circumfix_flag(s),
        or_else(
            spec_parse_forbidden_word_flag(s),
            or_else(
                spec_parse_afx_full_strip(s),
                or_else(
                    spec_parse_afx_keep_case_flag(s),
                    or_else(
                        spec_parse_afx_input_conversion(s),
                        or_else(
                            spec_parse_afx_output_conversion(s),
                            or_else(
                                spec_parse_afx_lemma_present_flag(s),
                                or_else(
                                    spec_parse_afx_needed_flag(s),
                                    or_else(
                                        spec_parse_afx_pseudoroot_flag(s),
                                        or_else(
                                            spec_parse_afx_substandard_flag(s),
                                            or_else(
                                                spec_parse_afx_word_chars(s),
                                                or_else(
                                                    spec_parse_afx_check_sharps(s),
                                                    or_else(
                                                        spec_parse_name(s),
                                                        or_else(
                                                            spec_parse_home(s),
                                                            or_else(
                                                                spec_parse_version(s),
                                                                Ok(None),
                                                            ),
                                                        ),
                                                    ),
                                                ),
                                            ),
                                        ),
                                    ),
                                ),
                            ),
                        ),
                    ),
                ),
            ),
        ),
    )
}

/// A directive recognized by stage 4 leaves a strictly shorter residual.
pub proof fn lemma_group_four_shrinks(s: Seq<char>)
    ensures
        spec_try_group_four(s) matches Ok(Some((n, resid, nl))) ==> resid.len() < s.len(),
{
    reveal_strlit("CIRCUMFIX");
    reveal_strlit("FORBIDDENWORD");
    reveal_strlit("FULLSTRIP");
    reveal_strlit("KEEPCASE");
    reveal_strlit("ICONV");
    reveal_strlit("OCONV");
    reveal_strlit("LEMMA_PRESENT");
    reveal_strlit("NEEDAFFIX");
    reveal_strlit("PSEUDOROOT");
    reveal_strlit("SUBSTANDARD");
    reveal_strlit("WORDCHARS");
    reveal_strlit("CHECKSHARPS");
    reveal_strlit("NAME");
    reveal_strlit("HOME");
    reveal_strlit("VERSION");
    lemma_split_shrinks(s, "CIRCUMFIX"@);
    lemma_split_shrinks(s, "FORBIDDENWORD"@);
    lemma_split_shrinks(s, "FULLSTRIP"@);
    lemma_split_shrinks(s, "KEEPCASE"@);
    lemma_table_shrinks(s, "ICONV"@);
    lemma_table_shrinks(s, "OCONV"@);
    lemma_split_shrinks(s, "LEMMA_PRESENT"@);
    lemma_split_shrinks(s, "NEEDAFFIX"@);
    lemma_split_shrinks(s, "PSEUDOROOT"@);
    lemma_split_shrinks(s, "SUBSTANDARD"@);
    lemma_split_shrinks(s, "WORDCHARS"@);
    lemma_split_shrinks(s, "CHECKSHARPS"@);
    lemma_split_shrinks(s, "NAME"@);
    lemma_split_shrinks(s, "HOME"@);
    lemma_split_shrinks(s, "VERSION"@);
}

/// Try stage 4's recognizers in order.
fn try_group_four<'a>(s: &'a str) -> (r: ParseResult<'a>)
    ensures
        pr_matches(r, spec_try_group_four(s@)),
{
    match parse_circumfix_flag(s) {
        Ok(None) => (),
        r => {
            return r;
        },
    }
    match parse_forbidden_word_flag(s) {
        Ok(None) => (),
        r => {
            return r;
        },
    }
    match parse_afx_full_strip(s) {
        Ok(None) => (),
        r => {
            return r;
        },
    }
    match parse_afx_keep_case_flag(s) {
        Ok(None) => (),
        r => {
            return r;
        },
    }
    match parse_afx_input_conversion(s) {
        Ok(None) => (),
        r => {
            return r;
        },
    }
    match parse_afx_output_conversion(s) {
        Ok(None) => (),
        r => {
            return r;
        },
    }
    match parse_afx_lemma_present_flag(s) {
        Ok(None) => (),
        r => {
            return r;
        },
    }
    match parse_afx_needed_flag(s) {
        Ok(None) => (),
        r => {
            return r;
        },
    }
    match parse_afx_pseudoroot_flag(s) {
        Ok(None) => (),
        r => {
            return r;
        },
    }
    match parse_afx_substandard_flag(s) {
        Ok(None) => (),
        r => {
            return r;
        },
    }
    match parse_afx_word_chars(s) {
        Ok(None) => (),
        r => {
            return r;
        },
    }
    match parse_afx_check_sharps(s) {
        Ok(None) => (),
        r => {
            return r;
        },
    }
    match parse_name(s) {
        Ok(None) => (),
        r => {
            return r;
        },
    }
    match parse_home(s) {
        Ok(None) => (),
        r => {
            return r;
        },
    }
    match parse_version(s) {
        Ok(None) => (),
        r => {
            return r;
        },
    }
    Ok(None)
}

/// The whole recognizer chain, in dispatch order.  Opaque: its body is a
/// large disjunction that callers never need; the dispatch loop relies on
/// [`try_directive`]'s contract and [`lemma_try_directive_shrinks`] alone.
#[verifier::opaque]
pub open spec fn spec_try_directive(s: Seq<char>) -> SpecResult {
    or_else(
        spec_try_group_one(s),
        or_else(spec_try_group_two(s), or_else(spec_try_group_three(s), spec_try_group_four(s))),
    )
}

/// A recognized directive leaves a strictly shorter residual.
pub proof fn lemma_try_directive_shrinks(s: Seq<char>)
    ensures
        spec_try_directive(s) matches Ok(Some((n, resid, nl))) ==> resid.len() < s.len(),
{
    reveal(spec_try_directive);
    lemma_group_one_shrinks(s);
    lemma_group_two_shrinks(s);
    lemma_group_three_shrinks(s);
    lemma_group_four_shrinks(s);
}

/// Try every directive recognizer against the input head, in order.
pub fn try_directive<'a>(s: &'a str) -> (r: ParseResult<'a>)
    ensures
        pr_matches(r, spec_try_directive(s@)),
{
    proof {
        reveal(spec_try_directive);
    }
    match try_group_one(s) {
        Ok(None) => (),
        r => {
            return r;
        },
    }
    match try_group_two(s) {
        Ok(None) => (),
        r => {
            return r;
        },
    }
    match try_group_three(s) {
        Ok(None) => (),
        r => {
            return r;
        },
    }
    try_group_four(s)
}

/// The whole parse, from a head position: try the recognizers; on a match,
/// append the node, cross the directive's newline and continue; on no
/// match, skip one character (counting a newline) and continue; stop at the
/// end of the input.  Errors are rebased to file coordinates by the running
/// line counter, which starts at 1 and saturates at `u32::MAX`.
pub open spec fn spec_parse_from(s: Seq<char>, nlines: u32) -> Result<Seq<NodeView>, ParseErrorView>
    decreases s.len(),
    when true
{
    if s.len() == 0 {
        Ok(Seq::empty())
    } else {
        match spec_try_directive(s) {
            Err(e) => Err(spec_add_offset(e, nlines, 0)),
            Ok(Some((node, resid, nl))) => {
                let nl2 = sat_add_u32(nlines, nl);
                match spec_munch(resid) {
                    Err(c) => Err(
                        spec_add_offset(err0(ErrorKindView::NonWhitespace { c }), nl2, 0),
                    ),
                    Ok(None) => Ok(seq![node]),
                    Ok(Some(r2)) => {
                        proof {
                            lemma_try_directive_shrinks(s);
                            lemma_munch_shrinks(resid);
                        }
                        match spec_parse_from(r2, sat_add_u32(nl2, 1)) {
                            Ok(rest) => Ok(seq![node] + rest),
                            Err(e) => Err(e),
                        }
                    },
                }
            },
            Ok(None) => {
                let nl2 = if s[0] == '\n' {
                    sat_add_u32(nlines, 1)
                } else {
                    nlines
                };
                spec_parse_from(s.subrange(1, s.len() as int), nl2)
            },
        }
    }
}

/// Ghost content of [`parse_affix`]: the parse of a whole file.
pub open spec fn spec_parse(s: Seq<char>) -> Result<Seq<NodeView>, ParseErrorView> {
    spec_parse_from(s, 1u32)
}

/// Does the executable result denote exactly the ghost parse of `s`?
pub open spec fn parse_post(s: Seq<char>, r: Result<Vec<AffixNode>, ParseError>) -> bool {
    match (r, spec_parse(s)) {
        (Ok(v), Ok(sv)) => v.deep_view() == sv,
        (Err(e), Err(ev)) => e@ == ev,
        _ => false,
    }
}

/// Prefix already-produced nodes onto the outcome for the remaining input.
pub open spec fn nodes_compose(
    acc: Seq<NodeView>,
    m: Result<Seq<NodeView>, ParseErrorView>,
) -> Result<Seq<NodeView>, ParseErrorView> {
    match m {
        Ok(rest) => Ok(acc + rest),
        Err(e) => Err(e),
    }
}

/// Parse an affix file: either every recognized directive as a node, in
/// source order with duplicates preserved, or the first error with its
/// file-coordinate line.
pub fn parse_affix(s: &str) -> (r: Result<Vec<AffixNode>, ParseError>)
    ensures
        parse_post(s@, r),
{
    let mut working: &str = s;
    let mut ret: Vec<AffixNode> = Vec::new();
    let mut nlines: u32 = 1;
    proof {
        assert(ret.deep_view() =~= Seq::<NodeView>::empty());
        match spec_parse(s@) {
            Ok(rest) => {
                assert(Seq::<NodeView>::empty() + rest =~= rest);
            },
            Err(_) => {},
        }
    }
    while !working.is_empty()
        invariant
            nodes_compose(ret.deep_view(), spec_parse_from(working@, nlines)) == spec_parse(s@),
        decreases working@.len(),
    {
        match try_directive(working) {
            Err(e) => {
                return Err(e.add_offset_ret(nlines, 0));
            },
            Ok(Some((node, resid, nl))) => {
                proof {
                    lemma_try_directive_shrinks(working@);
                    lemma_munch_shrinks(resid@);
                }
                let ghost old_working = working@;
                let ghost old_nlines = nlines;
                let ghost old_dv = ret.deep_view();
                let ghost nodev = node@;
                nlines = sat_add(nlines, nl);
                ret.push(node);
                proof {
                    assert(ret.deep_view() =~= old_dv.push(nodev));
                }
                match munch_newline(resid) {
                    Err(e) => {
                        return Err(e.add_offset_ret(nlines, 0));
                    },
                    Ok(None) => {
                        proof {
                            assert(spec_parse_from(old_working, old_nlines) == Ok::<
                                Seq<NodeView>,
                                ParseErrorView,
                            >(seq![nodev]));
                            assert(old_dv + seq![nodev] =~= old_dv.push(nodev));
                        }
                        return Ok(ret);
                    },
                    Ok(Some(next)) => {
                        nlines = sat_add(nlines, 1);
                        proof {
                            match spec_parse_from(next@, nlines) {
                                Ok(rest) => {
                                    assert(old_dv + (seq![nodev] + rest) =~= old_dv.push(nodev)
                                        + rest);
                                },
                                Err(_) => {},
                            }
                        }
                        working = next;
                    },
                }
            },
            Ok(None) => {
                let c0 = working.get_char(0);
                if c0 == '\n' {
                    nlines = sat_add(nlines, 1);
                }
                let n = working.unicode_len();
                working = working.substring_char(1, n);
            },
        }
    }
    proof {
        assert(spec_parse_from(working@, nlines) == Ok::<Seq<NodeView>, ParseErrorView>(
            Seq::empty(),
        ));
        assert(ret.deep_view() + Seq::<NodeView>::empty() =~= ret.deep_view());
    }
    Ok(ret)
}

} // verus!
