//! The error model: structured error kinds with a (line, column) position.
//!
//! Inner recognizers build errors with positions relative to the directive
//! they are parsing; the outer loop rebases them to file coordinates with
//! [`ParseError::add_offset_ret`].  Line arithmetic saturates at `u32::MAX`,
//! so no input can overflow the counter.

use vstd::prelude::*;

verus! {

/// Ghost mirror of [`ParseErrorType`]: the same taxonomy with text as `Seq<char>`.
pub enum ErrorKindView {
    BadBool { payload: Seq<char>, key: Seq<char> },
    BadChar { count: int, payload: Seq<char> },
    BadInt { payload: Seq<char> },
    ContainsWhitespace { row: Seq<char> },
    CharCount { s: Seq<char>, expected: u32 },
    TableCount { expected: u32, received: u32 },
    AffixBody { s: Seq<char> },
    AffixFlagMismatch { s: Seq<char>, flag: Seq<char> },
    AffixCrossProduct { s: Seq<char> },
    Encoding { s: Seq<char> },
    Flag { s: Seq<char> },
    NonWhitespace { c: char },
    Conversion { s: Seq<char> },
    MorphInfo { s: Seq<char> },
    Phonetic { s: Seq<char> },
    CompoundPattern { s: Seq<char> },
    CompoundSyllable { s: Seq<char> },
}

/// Ghost mirror of [`ParseError`].
pub struct ParseErrorView {
    pub kind: ErrorKindView,
    pub line: u32,
    pub col: u32,
}

/// The closed set of ways a parse can fail.
#[derive(Debug, Clone, PartialEq, Eq)]
pub enum ParseErrorType {
    /// A boolean directive carried a non-empty payload.
    BadBool { payload: String, key: String },
    /// A single-character directive carried `count` characters instead of one.
    BadChar { count: usize, payload: String },
    /// An integer payload was empty, held a non-digit, or overflowed 32 bits.
    BadInt { payload: String },
    /// A table row that must be a single token contained whitespace.
    ContainsWhitespace { row: String },
    /// A row needed at least `expected` characters.
    CharCount { s: String, expected: u32 },
    /// A table declared `expected` rows but only `received` were present.
    TableCount { expected: u32, received: u32 },
    /// A `PFX`/`SFX` header or body line did not match the rule grammar.
    AffixBody { s: String },
    /// A rule body line quoted a flag other than the header's `flag`.
    AffixFlagMismatch { s: String, flag: String },
    /// The cross-product column of a rule header was not `Y`/`y`/`N`/`n`.
    AffixCrossProduct { s: String },
    /// `SET` named an identifier outside the closed encoding set.
    Encoding { s: String },
    /// `FLAG` named an identifier outside the closed encoding set.
    Flag { s: String },
    /// A directive's line held a non-whitespace character after its payload.
    NonWhitespace { c: char },
    /// A conversion row did not provide the two required tokens.
    Conversion { s: String },
    /// A morphological tag was not `xx:value` with a known tag.
    MorphInfo { s: String },
    /// A phonetic row did not provide the two required tokens.
    Phonetic { s: String },
    /// A compound-pattern row did not provide its two required tokens.
    CompoundPattern { s: String },
    /// A `COMPOUNDSYLLABLE` payload was not `<count> <vowels>`.
    CompoundSyllable { s: String },
}

impl View for ParseErrorType {
    type V = ErrorKindView;

    open spec fn view(&self) -> ErrorKindView {
        match self {
            ParseErrorType::BadBool { payload, key } => ErrorKindView::BadBool {
                payload: payload@,
                key: key@,
            },
            ParseErrorType::BadChar { count, payload } => ErrorKindView::BadChar {
                count: *count as int,
                payload: payload@,
            },
            ParseErrorType::BadInt { payload } => ErrorKindView::BadInt { payload: payload@ },
            ParseErrorType::ContainsWhitespace { row } => ErrorKindView::ContainsWhitespace {
                row: row@,
            },
            ParseErrorType::CharCount { s, expected } => ErrorKindView::CharCount {
                s: s@,
                expected: *expected,
            },
            ParseErrorType::TableCount { expected, received } => ErrorKindView::TableCount {
                expected: *expected,
                received: *received,
            },
            ParseErrorType::AffixBody { s } => ErrorKindView::AffixBody { s: s@ },
            ParseErrorType::AffixFlagMismatch { s, flag } => ErrorKindView::AffixFlagMismatch {
                s: s@,
                flag: flag@,
            },
            ParseErrorType::AffixCrossProduct { s } => ErrorKindView::AffixCrossProduct { s: s@ },
            ParseErrorType::Encoding { s } => ErrorKindView::Encoding { s: s@ },
            ParseErrorType::Flag { s } => ErrorKindView::Flag { s: s@ },
            ParseErrorType::NonWhitespace { c } => ErrorKindView::NonWhitespace { c: *c },
            ParseErrorType::Conversion { s } => ErrorKindView::Conversion { s: s@ },
            ParseErrorType::MorphInfo { s } => ErrorKindView::MorphInfo { s: s@ },
            ParseErrorType::Phonetic { s } => ErrorKindView::Phonetic { s: s@ },
            ParseErrorType::CompoundPattern { s } => ErrorKindView::CompoundPattern { s: s@ },
            ParseErrorType::CompoundSyllable { s } => ErrorKindView::CompoundSyllable { s: s@ },
        }
    }
}

/// A parse failure: an error kind at a (line, column) position.
///
/// Positions start relative to the enclosing directive and are rebased to
/// file coordinates by the dispatch loop.  Columns are always 0 in this
/// design; diagnostics are line-granular.
#[derive(Debug, Clone, PartialEq, Eq)]
pub struct ParseError {
    pub kind: ParseErrorType,
    pub line: u32,
    pub col: u32,
}

impl View for ParseError {
    type V = ParseErrorView;

    open spec fn view(&self) -> ParseErrorView {
        ParseErrorView { kind: self.kind@, line: self.line, col: self.col }
    }
}

/// `a + b`, capped at `u32::MAX`.
pub open spec fn sat_add_u32(a: u32, b: u32) -> u32 {
    if a + b > u32::MAX {
        u32::MAX
    } else {
        (a + b) as u32
    }
}

/// Saturating addition on line counters.
pub fn sat_add(a: u32, b: u32) -> (r: u32)
    ensures
        r == sat_add_u32(a, b),
{
    if a > u32::MAX - b {
        u32::MAX
    } else {
        a + b
    }
}

/// An error kind at position (0, 0): how inner recognizers report before the
/// outer loop rebases them.
pub open spec fn err0(kind: ErrorKindView) -> ParseErrorView {
    ParseErrorView { kind, line: 0u32, col: 0u32 }
}

/// An error kind at line `line`, column 0.
pub open spec fn err_at(kind: ErrorKindView, line: u32) -> ParseErrorView {
    ParseErrorView { kind, line, col: 0u32 }
}

/// The ghost counterpart of [`ParseError::add_offset_ret`].
pub open spec fn spec_add_offset(e: ParseErrorView, line: u32, col: u32) -> ParseErrorView {
    ParseErrorView {
        kind: e.kind,
        line: sat_add_u32(e.line, line),
        col: sat_add_u32(e.col, col),
    }
}

impl ParseError {
    /// An error at an explicit position.
    pub fn new(kind: ParseErrorType, line: u32, col: u32) -> (r: ParseError)
        ensures
            r@ == (ParseErrorView { kind: kind@, line: line, col: col }),
    {
        ParseError { kind, line, col }
    }

    /// An error with no position of its own; the caller rebases it.
    pub fn new_nospan(kind: ParseErrorType) -> (r: ParseError)
        ensures
            r@ == (ParseErrorView { kind: kind@, line: 0u32, col: 0u32 }),
    {
        ParseError { kind, line: 0, col: 0 }
    }

    /// Rebase this error by an enclosing context's position.
    pub fn add_offset_ret(self, line: u32, col: u32) -> (r: ParseError)
        ensures
            r@ == spec_add_offset(self@, line, col),
    {
        let new_line = sat_add(self.line, line);
        let new_col = sat_add(self.col, col);
        ParseError { kind: self.kind, line: new_line, col: new_col }
    }
}

} // verus!
