//! Character-level machinery: character classes, bounded searches, trimming,
//! and the two line-oriented primitives every directive recognizer is built
//! on: [`line_splitter`] and [`munch_newline`].
//!
//! Each executable function is specified against a recursive mathematical
//! definition over `Seq<char>`; the rest of the parser's grammar is defined
//! in terms of these spec functions.

use vstd::prelude::*;

use crate::error::{ParseError, ParseErrorType, ParseErrorView, ErrorKindView};

verus! {

/// Whitespace, as this grammar defines it: the ASCII whitespace characters.
pub open spec fn is_ws_char(c: char) -> bool {
    c == ' ' || c == '\t' || c == '\n' || c == '\r' || c == '\u{b}' || c == '\u{c}'
}

/// A word character: ASCII alphanumeric or underscore.
pub open spec fn is_word_char(c: char) -> bool {
    ('a' as u32 <= c as u32 && c as u32 <= 'z' as u32)
        || ('A' as u32 <= c as u32 && c as u32 <= 'Z' as u32)
        || ('0' as u32 <= c as u32 && c as u32 <= '9' as u32)
        || c == '_'
}

/// A decimal digit.
pub open spec fn is_digit_char(c: char) -> bool {
    '0' as u32 <= c as u32 && c as u32 <= '9' as u32
}

/// Decide [`is_ws_char`].
pub fn ws_char(c: char) -> (r: bool)
    ensures
        r == is_ws_char(c),
{
    c == ' ' || c == '\t' || c == '\n' || c == '\r' || c == '\u{b}' || c == '\u{c}'
}

/// Decide [`is_word_char`].
pub fn word_char(c: char) -> (r: bool)
    ensures
        r == is_word_char(c),
{
    let u = c as u32;
    ('a' as u32 <= u && u <= 'z' as u32) || ('A' as u32 <= u && u <= 'Z' as u32) || ('0' as u32
        <= u && u <= '9' as u32) || c == '_'
}

/// Decide [`is_digit_char`].
pub fn digit_char(c: char) -> (r: bool)
    ensures
        r == is_digit_char(c),
{
    let u = c as u32;
    '0' as u32 <= u && u <= '9' as u32
}

/// First index in `[i, end)` holding exactly `c`, if any.
pub open spec fn find_char_in(s: Seq<char>, i: int, end: int, c: char) -> Option<int>
    decreases end - i,
    when i <= end
{
    if i >= end || end > s.len() {
        None
    } else if s[i] == c {
        Some(i)
    } else {
        find_char_in(s, i + 1, end, c)
    }
}

/// Is `c` a payload terminator?  `'#'` only counts when `hash_too` is set;
/// the comment directive keeps `'#'` as ordinary payload text.
pub open spec fn is_sep_char(c: char, hash_too: bool) -> bool {
    c == '\r' || c == '\n' || (hash_too && c == '#')
}

/// First index at or after `i` holding a terminator, if any.
pub open spec fn find_sep_from(s: Seq<char>, i: int, hash_too: bool) -> Option<int>
    decreases s.len() - i,
    when i <= s.len()
{
    if i >= s.len() {
        None
    } else if is_sep_char(s[i], hash_too) {
        Some(i)
    } else {
        find_sep_from(s, i + 1, hash_too)
    }
}

/// First index in `[i, end)` holding a non-whitespace character, if any.
pub open spec fn first_non_ws_in(s: Seq<char>, i: int, end: int) -> Option<int>
    decreases end - i,
    when i <= end
{
    if i >= end || end > s.len() {
        None
    } else if !is_ws_char(s[i]) {
        Some(i)
    } else {
        first_non_ws_in(s, i + 1, end)
    }
}

/// Shrink `j` down towards `a` past trailing whitespace: the end of the
/// trimmed region `[a, j)`.
pub open spec fn trim_end_in(s: Seq<char>, a: int, j: int) -> int
    decreases j - a,
    when a <= j <= s.len()
{
    if j <= a {
        a
    } else if is_ws_char(s[j - 1]) {
        trim_end_in(s, a, j - 1)
    } else {
        j
    }
}

/// The slice `s[from..end)` with surrounding whitespace removed.
pub open spec fn trim_range(s: Seq<char>, from: int, end: int) -> Seq<char> {
    match first_non_ws_in(s, from, end) {
        None => Seq::empty(),
        Some(a) => s.subrange(a, trim_end_in(s, a, end)),
    }
}

/// End of the whitespace run starting at `i`: the first index at or after
/// `i` holding a non-whitespace character, or the length.
pub open spec fn ws_run_end(s: Seq<char>, i: int) -> int
    decreases s.len() - i,
    when 0 <= i <= s.len()
{
    if i >= s.len() {
        i
    } else if is_ws_char(s[i]) {
        ws_run_end(s, i + 1)
    } else {
        i
    }
}

/// End of the non-whitespace token starting at `i`.
pub open spec fn nonws_run_end(s: Seq<char>, i: int) -> int
    decreases s.len() - i,
    when 0 <= i <= s.len()
{
    if i >= s.len() {
        i
    } else if !is_ws_char(s[i]) {
        nonws_run_end(s, i + 1)
    } else {
        i
    }
}

/// End of the word-character run starting at `i`.
pub open spec fn word_run_end(s: Seq<char>, i: int) -> int
    decreases s.len() - i,
    when 0 <= i <= s.len()
{
    if i >= s.len() {
        i
    } else if is_word_char(s[i]) {
        word_run_end(s, i + 1)
    } else {
        i
    }
}

/// Every run end lies between its start and the length, and a run that
/// starts on a member character advances at least one position.
pub proof fn lemma_ws_run_bounds(s: Seq<char>, i: int)
    requires
        0 <= i <= s.len(),
    ensures
        i <= ws_run_end(s, i) <= s.len(),
        ws_run_end(s, i) < s.len() ==> !is_ws_char(s[ws_run_end(s, i)]),
        i < s.len() && is_ws_char(s[i]) ==> ws_run_end(s, i) >= i + 1,
    decreases s.len() - i,
{
    if i < s.len() && is_ws_char(s[i]) {
        lemma_ws_run_bounds(s, i + 1);
    }
}

/// Bounds for [`nonws_run_end`], as for [`lemma_ws_run_bounds`].
pub proof fn lemma_nonws_run_bounds(s: Seq<char>, i: int)
    requires
        0 <= i <= s.len(),
    ensures
        i <= nonws_run_end(s, i) <= s.len(),
        nonws_run_end(s, i) < s.len() ==> is_ws_char(s[nonws_run_end(s, i)]),
        i < s.len() && !is_ws_char(s[i]) ==> nonws_run_end(s, i) >= i + 1,
    decreases s.len() - i,
{
    if i < s.len() && !is_ws_char(s[i]) {
        lemma_nonws_run_bounds(s, i + 1);
    }
}

/// Compute [`ws_run_end`].
pub fn scan_ws_run(s: &str, i: usize) -> (r: usize)
    requires
        i <= s@.len(),
    ensures
        r == ws_run_end(s@, i as int),
        i <= r <= s@.len(),
{
    let n = s.unicode_len();
    let mut j = i;
    while j < n && ws_at(s, j)
        invariant
            i <= j <= n,
            n == s@.len(),
            ws_run_end(s@, i as int) == ws_run_end(s@, j as int),
        decreases n - j,
    {
        j += 1;
    }
    j
}

/// Compute [`nonws_run_end`].
pub fn scan_nonws_run(s: &str, i: usize) -> (r: usize)
    requires
        i <= s@.len(),
    ensures
        r == nonws_run_end(s@, i as int),
        i <= r <= s@.len(),
{
    let n = s.unicode_len();
    let mut j = i;
    while j < n && !ws_at(s, j)
        invariant
            i <= j <= n,
            n == s@.len(),
            nonws_run_end(s@, i as int) == nonws_run_end(s@, j as int),
        decreases n - j,
    {
        j += 1;
    }
    j
}

/// Compute [`word_run_end`].
pub fn scan_word_run(s: &str, i: usize) -> (r: usize)
    requires
        i <= s@.len(),
    ensures
        r == word_run_end(s@, i as int),
        i <= r <= s@.len(),
{
    let n = s.unicode_len();
    let mut j = i;
    while j < n && word_at(s, j)
        invariant
            i <= j <= n,
            n == s@.len(),
            word_run_end(s@, i as int) == word_run_end(s@, j as int),
        decreases n - j,
    {
        j += 1;
    }
    j
}

/// A found character lies within the searched range.
pub proof fn lemma_find_char_bounds(s: Seq<char>, i: int, end: int, c: char)
    requires
        0 <= i <= end,
    ensures
        find_char_in(s, i, end, c) matches Some(j) ==> i <= j < end && j < s.len() && s[j] == c,
    decreases end - i,
{
    if i < end && end <= s.len() && s[i] != c {
        lemma_find_char_bounds(s, i + 1, end, c);
    }
}

/// A found terminator lies within the string, at or after the start.
pub proof fn lemma_find_sep_bounds(s: Seq<char>, i: int, hash_too: bool)
    requires
        0 <= i <= s.len(),
    ensures
        find_sep_from(s, i, hash_too) matches Some(j) ==> i <= j < s.len(),
    decreases s.len() - i,
{
    if i < s.len() && !is_sep_char(s[i], hash_too) {
        lemma_find_sep_bounds(s, i + 1, hash_too);
    }
}

/// Is `t` a tail of `s`: the text from some position to the end?
pub open spec fn is_tail_of(t: Seq<char>, s: Seq<char>) -> bool {
    exists|k: int| 0 <= k <= s.len() && t =~= s.subrange(k, s.len() as int)
}

/// Every sequence is a tail of itself.
pub proof fn lemma_tail_refl(s: Seq<char>)
    ensures
        is_tail_of(s, s),
{
    assert(s =~= s.subrange(0, s.len() as int));
}

/// A tail of a tail is a tail.
pub proof fn lemma_tail_trans(u: Seq<char>, t: Seq<char>, s: Seq<char>)
    requires
        is_tail_of(u, t),
        is_tail_of(t, s),
    ensures
        is_tail_of(u, s),
{
    let k1 = choose|k: int| 0 <= k <= t.len() && u =~= t.subrange(k, t.len() as int);
    let k2 = choose|k: int| 0 <= k <= s.len() && t =~= s.subrange(k, s.len() as int);
    assert(u =~= s.subrange(k2 + k1, s.len() as int));
}

/// The residual of a recognized line is a tail of the input.
pub proof fn lemma_split_tail(s: Seq<char>, key: Seq<char>)
    ensures
        spec_line_split(s, key) matches Some((w, resid)) ==> is_tail_of(resid, s),
{
    if seq_starts_with(s, key) {
        lemma_find_sep_bounds(s, key.len() as int, hash_is_sep(key));
        match find_sep_from(s, key.len() as int, hash_is_sep(key)) {
            Some(i) => {
                assert(s.subrange(i, s.len() as int) =~= s.subrange(i, s.len() as int));
            },
            None => {
                assert(Seq::<char>::empty() =~= s.subrange(s.len() as int, s.len() as int));
            },
        }
    }
}

/// What follows a crossed newline is a tail of the input.
pub proof fn lemma_munch_tail(s: Seq<char>)
    ensures
        spec_munch(s) matches Ok(Some(r)) ==> is_tail_of(r, s),
{
    lemma_find_char_bounds(s, 0, s.len() as int, '\n');
    match find_char_in(s, 0, s.len() as int, '\n') {
        Some(i) => {
            assert(s.subrange(i + 1, s.len() as int) =~= s.subrange(i + 1, s.len() as int));
        },
        None => {},
    }
}

/// The first terminator is `j` exactly when nothing before it is one.
pub proof fn lemma_find_sep_exact(s: Seq<char>, i: int, j: int, hash_too: bool)
    requires
        0 <= i <= j < s.len(),
        forall|k: int| i <= k < j ==> !is_sep_char(s[k], hash_too),
        is_sep_char(s[j], hash_too),
    ensures
        find_sep_from(s, i, hash_too) == Some(j),
    decreases j - i,
{
    if i < j {
        lemma_find_sep_exact(s, i + 1, j, hash_too);
    }
}

/// A non-empty key's split leaves a residual strictly shorter than the
/// input: the terminator, if any, lies at or after the key.
pub proof fn lemma_split_shrinks(s: Seq<char>, key: Seq<char>)
    requires
        key.len() >= 1,
    ensures
        spec_line_split(s, key) matches Some((w, resid)) ==> resid.len() < s.len(),
{
    if seq_starts_with(s, key) {
        lemma_find_sep_bounds(s, key.len() as int, hash_is_sep(key));
    }
}

/// Advancing past a newline leaves a strictly shorter residual.
pub proof fn lemma_munch_shrinks(s: Seq<char>)
    ensures
        spec_munch(s) matches Ok(Some(r)) ==> r.len() < s.len(),
{
    lemma_find_char_bounds(s, 0, s.len() as int, '\n');
}

/// Compute [`find_char_in`]: first occurrence of `c` in `[from, end)`.
pub fn scan_find_char(s: &str, from: usize, end: usize, c: char) -> (r: Option<usize>)
    requires
        from <= end <= s@.len(),
    ensures
        ({
            let m = find_char_in(s@, from as int, end as int, c);
            match (r, m) {
                (Some(j), Some(jv)) => j == jv && from <= j < end,
                (None, None) => true,
                _ => false,
            }
        }),
{
    let mut j = from;
    while j < end && !char_at_is(s, j, c)
        invariant
            from <= j <= end,
            end <= s@.len(),
            find_char_in(s@, from as int, end as int, c) == find_char_in(
                s@,
                j as int,
                end as int,
                c,
            ),
        decreases end - j,
    {
        j += 1;
    }
    if j < end {
        assert(find_char_in(s@, j as int, end as int, c) == Some(j as int));
        Some(j)
    } else {
        None
    }
}

/// Does `s` begin with `key`?
pub open spec fn seq_starts_with(s: Seq<char>, key: Seq<char>) -> bool {
    key.len() <= s.len() && (forall|k: int| 0 <= k < key.len() ==> s[k] == key[k])
}

/// Whether `'#'` terminates a payload for this key: it does for every key
/// except the comment key `"#"` itself.
pub open spec fn hash_is_sep(key: Seq<char>) -> bool {
    !(key.len() == 1 && key[0] == '#')
}

/// The mathematical content of [`line_splitter`]: `None` when `s` does not
/// begin with `key`; otherwise the trimmed payload between the key and the
/// nearest terminator, and the residual starting at that terminator.
pub open spec fn spec_line_split(s: Seq<char>, key: Seq<char>) -> Option<(Seq<char>, Seq<char>)> {
    if !seq_starts_with(s, key) {
        None
    } else {
        match find_sep_from(s, key.len() as int, hash_is_sep(key)) {
            Some(i) => Some(
                (trim_range(s, key.len() as int, i), s.subrange(i, s.len() as int)),
            ),
            None => Some((trim_range(s, key.len() as int, s.len() as int), Seq::empty())),
        }
    }
}

/// The mathematical content of [`munch_newline`]: `Ok(None)` when no newline
/// remains, `Ok(Some(rest))` for the text after the next newline when the
/// consumed line holds only whitespace and an optional comment, and
/// `Err(c)` naming the first offending character otherwise.
pub open spec fn spec_munch(s: Seq<char>) -> Result<Option<Seq<char>>, char> {
    match find_char_in(s, 0, s.len() as int, '\n') {
        None => Ok(None),
        Some(i) => {
            let vend = match find_char_in(s, 0, i, '#') {
                Some(h) => h,
                None => i,
            };
            match first_non_ws_in(s, 0, vend) {
                Some(j) => Err(s[j]),
                None => Ok(Some(s.subrange(i + 1, s.len() as int))),
            }
        },
    }
}

/// Does position `j` of `s` hold exactly the character `c`?
fn char_at_is(s: &str, j: usize, c: char) -> (r: bool)
    requires
        j < s@.len(),
    ensures
        r == (s@[j as int] == c),
{
    s.get_char(j) == c
}

/// Does position `j` of `s` hold a payload terminator?
fn sep_at(s: &str, j: usize, hash_too: bool) -> (r: bool)
    requires
        j < s@.len(),
    ensures
        r == is_sep_char(s@[j as int], hash_too),
{
    let c = s.get_char(j);
    c == '\r' || c == '\n' || (hash_too && c == '#')
}

/// Does position `j` of `s` hold whitespace?
fn ws_at(s: &str, j: usize) -> (r: bool)
    requires
        j < s@.len(),
    ensures
        r == is_ws_char(s@[j as int]),
{
    ws_char(s.get_char(j))
}

/// Does position `j` of `s` hold a word character?
fn word_at(s: &str, j: usize) -> (r: bool)
    requires
        j < s@.len(),
    ensures
        r == is_word_char(s@[j as int]),
{
    word_char(s.get_char(j))
}

/// Character-for-character string equality.
pub fn str_eq(a: &str, b: &str) -> (r: bool)
    ensures
        r == (a@ == b@),
{
    let an = a.unicode_len();
    let bn = b.unicode_len();
    if an != bn {
        assert(a@ != b@) by {
            assert(a@.len() != b@.len());
        }
        return false;
    }
    let mut i: usize = 0;
    while i < an
        invariant
            0 <= i <= an,
            an == a@.len(),
            an == b@.len(),
            forall|k: int| 0 <= k < i ==> a@[k] == b@[k],
        decreases an - i,
    {
        if a.get_char(i) != b.get_char(i) {
            return false;
        }
        i += 1;
    }
    proof {
        assert(a@ =~= b@);
    }
    true
}

/// The slice `s[from..end)` with surrounding whitespace removed.
pub fn trim_slice<'a>(s: &'a str, from: usize, end: usize) -> (r: &'a str)
    requires
        from <= end <= s@.len(),
    ensures
        r@ == trim_range(s@, from as int, end as int),
{
    let mut a = from;
    while a < end && ws_at(s, a)
        invariant
            from <= a <= end,
            end <= s@.len(),
            first_non_ws_in(s@, from as int, end as int) == first_non_ws_in(
                s@,
                a as int,
                end as int,
            ),
        decreases end - a,
    {
        a += 1;
    }
    if a == end {
        assert(first_non_ws_in(s@, from as int, end as int) is None);
        let r = s.substring_char(end, end);
        assert(r@ =~= trim_range(s@, from as int, end as int));
        return r;
    }
    assert(first_non_ws_in(s@, from as int, end as int) == Some(a as int));
    assert(!is_ws_char(s@[a as int]));
    let mut b = end;
    while b > a + 1 && ws_at(s, b - 1)
        invariant
            a < b <= end,
            end <= s@.len(),
            !is_ws_char(s@[a as int]),
            trim_end_in(s@, a as int, end as int) == trim_end_in(s@, a as int, b as int),
        decreases b,
    {
        b -= 1;
    }
    proof {
        if b == a + 1 {
            if is_ws_char(s@[b - 1]) {
                assert(false);
            }
        }
        assert(!is_ws_char(s@[b - 1]));
        assert(trim_end_in(s@, a as int, b as int) == b as int);
    }
    s.substring_char(a, b)
}

/// Split a directive line by its key.
///
/// Returns `None` when `s` does not start with `key`; otherwise the payload
/// between the key and the nearest line terminator (or comment introducer,
/// except for the comment key `"#"`), trimmed of surrounding whitespace, and
/// the residual beginning at the terminator (empty when none was found).
pub fn line_splitter<'a>(s: &'a str, key: &str) -> (r: Option<(&'a str, &'a str)>)
    ensures
        ({
            let m = spec_line_split(s@, key@);
            match (r, m) {
                (Some((work, resid)), Some((w, re))) => work@ == w && resid@ == re,
                (None, None) => true,
                _ => false,
            }
        }),
{
    let n = s.unicode_len();
    let kn = key.unicode_len();
    if n < kn {
        return None;
    }
    // Check the key prefix.
    let mut i: usize = 0;
    while i < kn
        invariant
            0 <= i <= kn,
            kn <= n,
            n == s@.len(),
            kn == key@.len(),
            forall|k: int| 0 <= k < i ==> s@[k] == key@[k],
        decreases kn - i,
    {
        if s.get_char(i) != key.get_char(i) {
            return None;
        }
        i += 1;
    }
    assert(seq_starts_with(s@, key@));

    let hash_too = !(kn == 1 && key.get_char(0) == '#');
    assert(hash_too == hash_is_sep(key@));

    // Find the nearest terminator at or after the key.
    let mut j: usize = kn;
    while j < n && !sep_at(s, j, hash_too)
        invariant
            kn <= j <= n,
            n == s@.len(),
            find_sep_from(s@, kn as int, hash_too) == find_sep_from(s@, j as int, hash_too),
        decreases n - j,
    {
        j += 1;
    }
    let i_end: usize = j;
    proof {
        if i_end < n {
            assert(find_sep_from(s@, kn as int, hash_too) == Some(i_end as int));
        } else {
            assert(find_sep_from(s@, kn as int, hash_too) is None);
        }
    }

    // Trim the payload range [kn, i_end).
    let mut a: usize = kn;
    while a < i_end && ws_at(s, a)
        invariant
            kn <= a <= i_end,
            i_end <= n,
            n == s@.len(),
            first_non_ws_in(s@, kn as int, i_end as int) == first_non_ws_in(
                s@,
                a as int,
                i_end as int,
            ),
        decreases i_end - a,
    {
        a += 1;
    }

    let work: &str;
    if a == i_end {
        assert(first_non_ws_in(s@, kn as int, i_end as int) is None);
        work = s.substring_char(i_end, i_end);
        assert(work@ =~= trim_range(s@, kn as int, i_end as int));
    } else {
        assert(first_non_ws_in(s@, kn as int, i_end as int) == Some(a as int));
        assert(!is_ws_char(s@[a as int]));
        // Shrink the end past trailing whitespace.
        let mut b: usize = i_end;
        while b > a + 1 && ws_at(s, b - 1)
            invariant
                a < b <= i_end,
                i_end <= n,
                n == s@.len(),
                !is_ws_char(s@[a as int]),
                trim_end_in(s@, a as int, i_end as int) == trim_end_in(s@, a as int, b as int),
            decreases b,
        {
            b -= 1;
        }
        proof {
            if b == a + 1 {
                if is_ws_char(s@[b - 1]) {
                    assert(false);
                }
            }
            assert(!is_ws_char(s@[b - 1]));
            assert(trim_end_in(s@, a as int, b as int) == b as int);
        }
        work = s.substring_char(a, b);
        assert(work@ == trim_range(s@, kn as int, i_end as int));
    }

    let resid: &str = if i_end < n {
        s.substring_char(i_end, n)
    } else {
        s.substring_char(n, n)
    };
    proof {
        if i_end < n {
            assert(resid@ == s@.subrange(i_end as int, n as int));
        } else {
            assert(resid@ =~= s@.subrange(i_end as int, n as int));
            assert(resid@ =~= Seq::<char>::empty());
        }
    }
    Some((work, resid))
}

/// Advance past the next newline.
///
/// `Ok(None)` when the residual holds no further newline (end of input);
/// otherwise the consumed line, up to an optional `'#'` comment, must be
/// pure whitespace, and the text after the newline is returned.  A stray
/// character fails with [`ParseErrorType::NonWhitespace`].
pub fn munch_newline<'a>(s: &'a str) -> (r: Result<Option<&'a str>, ParseError>)
    ensures
        ({
            let m = spec_munch(s@);
            match (r, m) {
                (Ok(None), Ok(None)) => true,
                (Ok(Some(rest)), Ok(Some(rv))) => rest@ == rv,
                (Err(e), Err(c)) => e@ == (ParseErrorView {
                    kind: ErrorKindView::NonWhitespace { c },
                    line: 0u32,
                    col: 0u32,
                }),
                _ => false,
            }
        }),
{
    let n = s.unicode_len();
    // Find the next newline.
    let mut j: usize = 0;
    while j < n && !char_at_is(s, j, '\n')
        invariant
            0 <= j <= n,
            n == s@.len(),
            find_char_in(s@, 0, n as int, '\n') == find_char_in(s@, j as int, n as int, '\n'),
        decreases n - j,
    {
        j += 1;
    }
    if j == n {
        assert(find_char_in(s@, 0, n as int, '\n') is None);
        return Ok(None);
    }
    let i_term: usize = j;
    assert(find_char_in(s@, 0, n as int, '\n') == Some(i_term as int));

    // Cut the validated range at the first '#'.
    let mut h: usize = 0;
    while h < i_term && !char_at_is(s, h, '#')
        invariant
            0 <= h <= i_term,
            i_term < n,
            n == s@.len(),
            find_char_in(s@, 0, i_term as int, '#') == find_char_in(
                s@,
                h as int,
                i_term as int,
                '#',
            ),
        decreases i_term - h,
    {
        h += 1;
    }
    let vend: usize = h;
    proof {
        if vend < i_term {
            assert(find_char_in(s@, 0, i_term as int, '#') == Some(vend as int));
        } else {
            assert(find_char_in(s@, 0, i_term as int, '#') is None);
        }
    }

    // The validated range must be pure whitespace.
    let mut v: usize = 0;
    while v < vend
        invariant
            0 <= v <= vend,
            vend <= i_term < n,
            n == s@.len(),
            find_char_in(s@, 0, n as int, '\n') == Some(i_term as int),
            vend < i_term ==> find_char_in(s@, 0, i_term as int, '#') == Some(vend as int),
            vend == i_term ==> find_char_in(s@, 0, i_term as int, '#') is None,
            first_non_ws_in(s@, 0, vend as int) == first_non_ws_in(s@, v as int, vend as int),
        decreases vend - v,
    {
        let c = s.get_char(v);
        if !ws_char(c) {
            assert(first_non_ws_in(s@, 0, vend as int) == Some(v as int));
            return Err(
                ParseError::new_nospan(ParseErrorType::NonWhitespace { c }),
            );
        }
        v += 1;
    }
    assert(first_non_ws_in(s@, 0, vend as int) is None);

    let rest = s.substring_char(i_term + 1, n);
    Ok(Some(rest))
}

} // verus!
