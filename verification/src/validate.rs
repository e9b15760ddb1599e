//! Per-directive payload validators: the row grammars for conversions,
//! mappings, phonetic rules, compound patterns, compound-syllable
//! expressions, morphological tags and encoding names.

use vstd::prelude::*;

use crate::error::{err_at, ErrorKindView, ParseError, ParseErrorType};
use crate::scan::{
    find_char_in, is_ws_char, lemma_nonws_run_bounds, lemma_ws_run_bounds, nonws_run_end,
    scan_find_char, scan_nonws_run, scan_ws_run, str_eq, ws_run_end,
};
use crate::coerce::{parse_u32_str, spec_parse_u32};
use crate::types::{
    CompoundPattern, CompoundPatternView, CompoundSyllable, CompoundSyllableView, Conversion,
    ConversionView, Encoding, MorphInfo, MorphInfoView, MorphTag, Phonetic, PhoneticView,
};

verus! {

/// The first two whitespace-separated tokens of `s`, with the end position
/// of the second; `None` when fewer than two tokens are present.  Text after
/// the second token is not inspected here.
pub open spec fn spec_two_tokens(s: Seq<char>) -> Option<(Seq<char>, Seq<char>, int)> {
    let a1 = ws_run_end(s, 0);
    if a1 >= s.len() {
        None
    } else {
        let e1 = nonws_run_end(s, a1);
        let a2 = ws_run_end(s, e1);
        if a2 >= s.len() {
            None
        } else {
            let e2 = nonws_run_end(s, a2);
            Some((s.subrange(a1, e1), s.subrange(a2, e2), e2))
        }
    }
}

/// Ghost content of [`conversion_from_str`]: a conversion row is its first
/// two tokens.
pub open spec fn spec_conversion(row: Seq<char>, bidirectional: bool) -> Result<
    ConversionView,
    ErrorKindView,
> {
    match spec_two_tokens(row) {
        Some((t1, t2, _)) => Ok(
            ConversionView { input: t1, output: t2, bidirectional },
        ),
        None => Err(ErrorKindView::Conversion { s: row }),
    }
}

/// Parse a `REP`/`ICONV`/`OCONV` row into its `(from, to)` pair.
pub fn conversion_from_str(row: &str, bidirectional: bool) -> (r: Result<
    Conversion,
    ParseErrorType,
>)
    ensures
        ({
            let m = spec_conversion(row@, bidirectional);
            match (r, m) {
                (Ok(c), Ok(cv)) => c@ == cv,
                (Err(k), Err(kv)) => k@ == kv,
                _ => false,
            }
        }),
{
    let n = row.unicode_len();
    let a1 = scan_ws_run(row, 0);
    if a1 == n {
        return Err(ParseErrorType::Conversion { s: row.to_owned() });
    }
    let e1 = scan_nonws_run(row, a1);
    let a2 = scan_ws_run(row, e1);
    if a2 == n {
        return Err(ParseErrorType::Conversion { s: row.to_owned() });
    }
    let e2 = scan_nonws_run(row, a2);
    let input = row.substring_char(a1, e1).to_owned();
    let output = row.substring_char(a2, e2).to_owned();
    Ok(Conversion { input, output, bidirectional })
}

/// Ghost content of [`phonetic_from_str`]: a phonetic row is its first two
/// tokens.
pub open spec fn spec_phonetic(row: Seq<char>) -> Result<PhoneticView, ErrorKindView> {
    match spec_two_tokens(row) {
        Some((t1, t2, _)) => Ok(PhoneticView { pattern: t1, replacement: t2 }),
        None => Err(ErrorKindView::Phonetic { s: row }),
    }
}

/// Parse a `PHONE` row into its pattern and transliteration.
pub fn phonetic_from_str(row: &str) -> (r: Result<Phonetic, ParseErrorType>)
    ensures
        ({
            let m = spec_phonetic(row@);
            match (r, m) {
                (Ok(p), Ok(pv)) => p@ == pv,
                (Err(k), Err(kv)) => k@ == kv,
                _ => false,
            }
        }),
{
    let n = row.unicode_len();
    let a1 = scan_ws_run(row, 0);
    if a1 == n {
        return Err(ParseErrorType::Phonetic { s: row.to_owned() });
    }
    let e1 = scan_nonws_run(row, a1);
    let a2 = scan_ws_run(row, e1);
    if a2 == n {
        return Err(ParseErrorType::Phonetic { s: row.to_owned() });
    }
    let e2 = scan_nonws_run(row, a2);
    let pattern = row.substring_char(a1, e1).to_owned();
    let replacement = row.substring_char(a2, e2).to_owned();
    Ok(Phonetic { pattern, replacement })
}

/// Split a token at its first `'/'`: the part before, and what follows the
/// slash when one is present.
pub open spec fn spec_slash_split(t: Seq<char>) -> (Seq<char>, Option<Seq<char>>) {
    match find_char_in(t, 0, t.len() as int, '/') {
        Some(k) => (t.subrange(0, k), Some(t.subrange(k + 1, t.len() as int))),
        None => (t, None),
    }
}

/// Ghost content of [`compound_pattern_from_str`]: two required tokens, an
/// optional third, and `/flag` suffixes split off the first two.
pub open spec fn spec_compound_pattern(row: Seq<char>) -> Result<
    CompoundPatternView,
    ErrorKindView,
> {
    match spec_two_tokens(row) {
        None => Err(ErrorKindView::CompoundPattern { s: row }),
        Some((t1, t2, e2)) => {
            let a3 = ws_run_end(row, e2);
            let rep = if a3 >= row.len() {
                None
            } else {
                Some(row.subrange(a3, nonws_run_end(row, a3)))
            };
            let (ec, ef) = spec_slash_split(t1);
            let (bc, bf) = spec_slash_split(t2);
            Ok(
                CompoundPatternView {
                    endchars: ec,
                    endflag: ef,
                    beginchars: bc,
                    beginflag: bf,
                    replacement: rep,
                },
            )
        },
    }
}

/// Split an owned token at its first `'/'`.
fn slash_split(t: &str) -> (r: (String, Option<String>))
    ensures
        ({
            let (c, f) = spec_slash_split(t@);
            r.0@ == c && match (r.1, f) {
                (Some(x), Some(xv)) => x@ == xv,
                (None, None) => true,
                _ => false,
            }
        }),
{
    let n = t.unicode_len();
    match scan_find_char(t, 0, n, '/') {
        Some(k) => {
            (t.substring_char(0, k).to_owned(), Some(t.substring_char(k + 1, n).to_owned()))
        },
        None => (t.to_owned(), None),
    }
}

/// Parse a `CHECKCOMPOUNDPATTERN` row.
pub fn compound_pattern_from_str(row: &str) -> (r: Result<CompoundPattern, ParseErrorType>)
    ensures
        ({
            let m = spec_compound_pattern(row@);
            match (r, m) {
                (Ok(p), Ok(pv)) => p@ == pv,
                (Err(k), Err(kv)) => k@ == kv,
                _ => false,
            }
        }),
{
    let n = row.unicode_len();
    let a1 = scan_ws_run(row, 0);
    if a1 == n {
        return Err(ParseErrorType::CompoundPattern { s: row.to_owned() });
    }
    let e1 = scan_nonws_run(row, a1);
    let a2 = scan_ws_run(row, e1);
    if a2 == n {
        return Err(ParseErrorType::CompoundPattern { s: row.to_owned() });
    }
    let e2 = scan_nonws_run(row, a2);
    let a3 = scan_ws_run(row, e2);
    let replacement: Option<String> = if a3 == n {
        None
    } else {
        let e3 = scan_nonws_run(row, a3);
        Some(row.substring_char(a3, e3).to_owned())
    };
    let (endchars, endflag) = slash_split(row.substring_char(a1, e1));
    let (beginchars, beginflag) = slash_split(row.substring_char(a2, e2));
    Ok(CompoundPattern { endchars, endflag, beginchars, beginflag, replacement })
}

/// Ghost content of [`compound_syllable_from_str`]: exactly two tokens, the
/// first a 32-bit count, the second the vowel set.
pub open spec fn spec_compound_syllable(w: Seq<char>) -> Result<
    CompoundSyllableView,
    ErrorKindView,
> {
    match spec_two_tokens(w) {
        None => Err(ErrorKindView::CompoundSyllable { s: w }),
        Some((t1, t2, e2)) => {
            if ws_run_end(w, e2) < w.len() {
                Err(ErrorKindView::CompoundSyllable { s: w })
            } else {
                match spec_parse_u32(t1) {
                    None => Err(ErrorKindView::CompoundSyllable { s: w }),
                    Some(v) => Ok(CompoundSyllableView { count: v, vowels: t2 }),
                }
            }
        },
    }
}

/// Parse a `COMPOUNDSYLLABLE` payload: `<count> <vowels>`.
pub fn compound_syllable_from_str(w: &str) -> (r: Result<CompoundSyllable, ParseErrorType>)
    ensures
        ({
            let m = spec_compound_syllable(w@);
            match (r, m) {
                (Ok(c), Ok(cv)) => c@ == cv,
                (Err(k), Err(kv)) => k@ == kv,
                _ => false,
            }
        }),
{
    let n = w.unicode_len();
    let a1 = scan_ws_run(w, 0);
    if a1 == n {
        return Err(ParseErrorType::CompoundSyllable { s: w.to_owned() });
    }
    let e1 = scan_nonws_run(w, a1);
    let a2 = scan_ws_run(w, e1);
    if a2 == n {
        return Err(ParseErrorType::CompoundSyllable { s: w.to_owned() });
    }
    let e2 = scan_nonws_run(w, a2);
    let a3 = scan_ws_run(w, e2);
    if a3 < n {
        return Err(ParseErrorType::CompoundSyllable { s: w.to_owned() });
    }
    let count = match parse_u32_str(w.substring_char(a1, e1)) {
        Some(v) => v,
        None => {
            return Err(ParseErrorType::CompoundSyllable { s: w.to_owned() });
        },
    };
    let vowels = w.substring_char(a2, e2).to_owned();
    Ok(CompoundSyllable { count, vowels })
}

/// The tag named by a two-letter prefix, if it is one of the closed set.
pub open spec fn morph_tag_of(a: char, b: char) -> Option<MorphTag> {
    if a == 's' && b == 't' {
        Some(MorphTag::Stem)
    } else if a == 'p' && b == 'h' {
        Some(MorphTag::Phone)
    } else if a == 'a' && b == 'l' {
        Some(MorphTag::Allomorph)
    } else if a == 'p' && b == 'o' {
        Some(MorphTag::PartOfSpeech)
    } else if a == 'd' && b == 's' {
        Some(MorphTag::DerivSuffix)
    } else if a == 'i' && b == 's' {
        Some(MorphTag::InflSuffix)
    } else if a == 't' && b == 's' {
        Some(MorphTag::TerminalSuffix)
    } else if a == 'd' && b == 'p' {
        Some(MorphTag::DerivPrefix)
    } else if a == 'i' && b == 'p' {
        Some(MorphTag::InflPrefix)
    } else if a == 't' && b == 'p' {
        Some(MorphTag::TerminalPrefix)
    } else if a == 's' && b == 'p' {
        Some(MorphTag::SurfacePrefix)
    } else if a == 'p' && b == 'a' {
        Some(MorphTag::CompoundPart)
    } else if a == 'f' && b == 'l' {
        Some(MorphTag::FlagRef)
    } else {
        None
    }
}

/// Decide [`morph_tag_of`].
fn morph_tag_from(a: char, b: char) -> (r: Option<MorphTag>)
    ensures
        r == morph_tag_of(a, b),
{
    if a == 's' && b == 't' {
        Some(MorphTag::Stem)
    } else if a == 'p' && b == 'h' {
        Some(MorphTag::Phone)
    } else if a == 'a' && b == 'l' {
        Some(MorphTag::Allomorph)
    } else if a == 'p' && b == 'o' {
        Some(MorphTag::PartOfSpeech)
    } else if a == 'd' && b == 's' {
        Some(MorphTag::DerivSuffix)
    } else if a == 'i' && b == 's' {
        Some(MorphTag::InflSuffix)
    } else if a == 't' && b == 's' {
        Some(MorphTag::TerminalSuffix)
    } else if a == 'd' && b == 'p' {
        Some(MorphTag::DerivPrefix)
    } else if a == 'i' && b == 'p' {
        Some(MorphTag::InflPrefix)
    } else if a == 't' && b == 'p' {
        Some(MorphTag::TerminalPrefix)
    } else if a == 's' && b == 'p' {
        Some(MorphTag::SurfacePrefix)
    } else if a == 'p' && b == 'a' {
        Some(MorphTag::CompoundPart)
    } else if a == 'f' && b == 'l' {
        Some(MorphTag::FlagRef)
    } else {
        None
    }
}

/// Ghost content of [`morph_from_token`]: a well-formed tag is
/// `<tag>:<value>` with a known two-letter tag; the value may be empty.
pub open spec fn spec_morph_token(tok: Seq<char>) -> Option<MorphInfoView> {
    if tok.len() < 3 {
        None
    } else if tok[2] != ':' {
        None
    } else {
        match morph_tag_of(tok[0], tok[1]) {
            Some(t) => Some(MorphInfoView { tag: t, value: tok.subrange(3, tok.len() as int) }),
            None => None,
        }
    }
}

/// Parse one morphological tag token.
pub fn morph_from_token(tok: &str) -> (r: Option<MorphInfo>)
    ensures
        ({
            let m = spec_morph_token(tok@);
            match (r, m) {
                (Some(mi), Some(mv)) => mi@ == mv,
                (None, None) => true,
                _ => false,
            }
        }),
{
    let n = tok.unicode_len();
    if n < 3 {
        return None;
    }
    if tok.get_char(2) != ':' {
        return None;
    }
    match morph_tag_from(tok.get_char(0), tok.get_char(1)) {
        Some(tag) => Some(MorphInfo { tag, value: tok.substring_char(3, n).to_owned() }),
        None => None,
    }
}

/// Ghost content of [`parse_morph_info`]: the morph field split on
/// whitespace, each token validated in order; the first malformed token is
/// the error.
pub open spec fn spec_morph_list(s: Seq<char>, i: int) -> Result<Seq<MorphInfoView>, Seq<char>>
    decreases s.len() - i,
    when 0 <= i <= s.len()
{
    let a = ws_run_end(s, i);
    if a >= s.len() {
        Ok(Seq::empty())
    } else {
        let e = nonws_run_end(s, a);
        let tok = s.subrange(a, e);
        match spec_morph_token(tok) {
            None => Err(tok),
            Some(m) => {
                proof {
                    lemma_ws_run_bounds(s, i);
                    lemma_nonws_run_bounds(s, a);
                }
                match spec_morph_list(s, e) {
                    Ok(rest) => Ok(seq![m] + rest),
                    Err(t) => Err(t),
                }
            },
        }
    }
}

/// Compose already-validated rows with the outcome for the remaining ones.
pub open spec fn compose_res<T, E>(acc: Seq<T>, m: Result<Seq<T>, E>) -> Result<Seq<T>, E> {
    match m {
        Ok(rest) => Ok(acc + rest),
        Err(e) => Err(e),
    }
}

/// Parse the whitespace-separated morphological tags of a rule body line.
/// A malformed token fails with [`ParseErrorType::MorphInfo`] at line
/// `nlines` (the intra-group line of the row being parsed).
pub fn parse_morph_info(s: &str, nlines: u32) -> (r: Result<Vec<MorphInfo>, ParseError>)
    ensures
        ({
            let m = spec_morph_list(s@, 0);
            match (r, m) {
                (Ok(v), Ok(lv)) => v.deep_view() == lv,
                (Err(e), Err(tok)) => e@ == err_at(
                    ErrorKindView::MorphInfo { s: tok },
                    nlines,
                ),
                _ => false,
            }
        }),
{
    let n = s.unicode_len();
    let mut pos: usize = 0;
    let mut ret: Vec<MorphInfo> = Vec::new();
    let mut a: usize = scan_ws_run(s, 0);
    while a < n
        invariant
            0 <= pos <= a <= n,
            n == s@.len(),
            a == ws_run_end(s@, pos as int),
            compose_res(ret.deep_view(), spec_morph_list(s@, pos as int)) == spec_morph_list(
                s@,
                0,
            ),
        decreases n - a,
    {
        proof {
            lemma_ws_run_bounds(s@, pos as int);
        }
        let e = scan_nonws_run(s, a);
        let tok = s.substring_char(a, e);
        match morph_from_token(tok) {
            None => {
                return Err(
                    ParseError::new(
                        ParseErrorType::MorphInfo { s: tok.to_owned() },
                        nlines,
                        0,
                    ),
                );
            },
            Some(m) => {
                let ghost old_dv = ret.deep_view();
                let ghost mv = m@;
                ret.push(m);
                proof {
                    assert(ret.deep_view() =~= old_dv.push(mv));
                    assert(old_dv.push(mv) + match spec_morph_list(s@, e as int) {
                        Ok(rest) => rest,
                        Err(_) => Seq::empty(),
                    } =~= old_dv + (seq![mv] + match spec_morph_list(s@, e as int) {
                        Ok(rest) => rest,
                        Err(_) => Seq::empty(),
                    }));
                }
            },
        }
        pos = e;
        a = scan_ws_run(s, e);
    }
    proof {
        assert(spec_morph_list(s@, pos as int) == Ok::<Seq<MorphInfoView>, Seq<char>>(
            Seq::empty(),
        ));
        assert(ret.deep_view() + Seq::<MorphInfoView>::empty() =~= ret.deep_view());
    }
    Ok(ret)
}

/// Ghost content of [`encoding_from_str`]: the closed identifier set.
pub open spec fn spec_encoding(w: Seq<char>) -> Option<Encoding> {
    if w == "UTF-8"@ {
        Some(Encoding::Utf8)
    } else if w == "ISO8859-1"@ {
        Some(Encoding::Iso8859t1)
    } else if w == "ISO8859-10"@ {
        Some(Encoding::Iso8859t10)
    } else if w == "ISO8859-13"@ {
        Some(Encoding::Iso8859t13)
    } else if w == "ISO8859-15"@ {
        Some(Encoding::Iso8859t15)
    } else if w == "KOI8-R"@ {
        Some(Encoding::Koi8R)
    } else if w == "KOI8-U"@ {
        Some(Encoding::Koi8U)
    } else if w == "cp1251"@ {
        Some(Encoding::Cp1251)
    } else if w == "ISCII-DEVANAGARI"@ {
        Some(Encoding::IsciiDevanagari)
    } else if w == "long"@ {
        Some(Encoding::Long)
    } else if w == "num"@ {
        Some(Encoding::Num)
    } else if w == "ascii"@ {
        Some(Encoding::Ascii)
    } else {
        None
    }
}

/// Recognize an encoding / flag-convention name.
pub fn encoding_from_str(w: &str) -> (r: Option<Encoding>)
    ensures
        r == spec_encoding(w@),
{
    if str_eq(w, "UTF-8") {
        Some(Encoding::Utf8)
    } else if str_eq(w, "ISO8859-1") {
        Some(Encoding::Iso8859t1)
    } else if str_eq(w, "ISO8859-10") {
        Some(Encoding::Iso8859t10)
    } else if str_eq(w, "ISO8859-13") {
        Some(Encoding::Iso8859t13)
    } else if str_eq(w, "ISO8859-15") {
        Some(Encoding::Iso8859t15)
    } else if str_eq(w, "KOI8-R") {
        Some(Encoding::Koi8R)
    } else if str_eq(w, "KOI8-U") {
        Some(Encoding::Koi8U)
    } else if str_eq(w, "cp1251") {
        Some(Encoding::Cp1251)
    } else if str_eq(w, "ISCII-DEVANAGARI") {
        Some(Encoding::IsciiDevanagari)
    } else if str_eq(w, "long") {
        Some(Encoding::Long)
    } else if str_eq(w, "num") {
        Some(Encoding::Num)
    } else if str_eq(w, "ascii") {
        Some(Encoding::Ascii)
    } else {
        None
    }
}

/// Does the row contain any whitespace character?
pub open spec fn contains_ws(row: Seq<char>) -> bool {
    exists|k: int| 0 <= k < row.len() && is_ws_char(row[k])
}

/// Decide [`contains_ws`].
pub fn row_has_ws(row: &str) -> (r: bool)
    ensures
        r == contains_ws(row@),
{
    let n = row.unicode_len();
    let mut j: usize = 0;
    while j < n
        invariant
            0 <= j <= n,
            n == row@.len(),
            forall|k: int| 0 <= k < j ==> !is_ws_char(row@[k]),
        decreases n - j,
    {
        if crate::scan::ws_char(row.get_char(j)) {
            return true;
        }
        j += 1;
    }
    false
}

/// Ghost content of a `MAP` row: its first two characters.
pub open spec fn spec_map_pair(row: Seq<char>) -> Result<(char, char), ErrorKindView> {
    if row.len() >= 2 {
        Ok((row[0], row[1]))
    } else {
        Err(ErrorKindView::CharCount { s: row, expected: 2u32 })
    }
}

/// Take the first two characters of a `MAP` row.
pub fn map_pair_from_row(row: &str) -> (r: Result<(char, char), ParseErrorType>)
    ensures
        ({
            let m = spec_map_pair(row@);
            match (r, m) {
                (Ok(p), Ok(pv)) => p == pv,
                (Err(k), Err(kv)) => k@ == kv,
                _ => false,
            }
        }),
{
    if row.unicode_len() >= 2 {
        Ok((row.get_char(0), row.get_char(1)))
    } else {
        Err(ParseErrorType::CharCount { s: row.to_owned(), expected: 2 })
    }
}

} // verus!
