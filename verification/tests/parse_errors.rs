//! Failing parses: each error kind, with the offending text and the
//! file-coordinate line it is reported at.

use affix::error::{ParseError, ParseErrorType};
use affix::parser::parse_affix;
use affix::types::AffixNode;

fn failed(s: &str) -> ParseError {
    let r: Result<Vec<AffixNode>, ParseError> = parse_affix(s);
    r.expect_err("parse should fail")
}

#[test]
fn affix_flag_mismatch_at_offending_row() {
    let e = failed("PFX A Y 2\nPFX A 0 re .\nPFX B 0 un .\n");
    assert_eq!(
        e,
        ParseError {
            kind: ParseErrorType::AffixFlagMismatch {
                s: "PFX B 0 un .".to_string(),
                flag: "A".to_string(),
            },
            line: 3,
            col: 0,
        }
    );
}

#[test]
fn map_row_needs_two_chars() {
    let e = failed("MAP 1\nMAP a\n");
    assert_eq!(
        e,
        ParseError {
            kind: ParseErrorType::CharCount { s: "a".to_string(), expected: 2 },
            line: 2,
            col: 0,
        }
    );
}

#[test]
fn table_shorter_than_count() {
    let e = failed("REP 2\nREP a b\n");
    assert_eq!(
        e,
        ParseError {
            kind: ParseErrorType::TableCount { expected: 2, received: 1 },
            line: 3,
            col: 0,
        }
    );
}

#[test]
fn table_header_without_newline() {
    let e = failed("REP 0");
    assert_eq!(
        e,
        ParseError {
            kind: ParseErrorType::TableCount { expected: 0, received: 0 },
            line: 2,
            col: 0,
        }
    );
}

#[test]
fn trailing_garbage_is_non_whitespace() {
    let e = failed("SET UTF-8\rX\n");
    assert_eq!(
        e,
        ParseError { kind: ParseErrorType::NonWhitespace { c: 'X' }, line: 1, col: 0 }
    );
}

#[test]
fn bad_bool_payload() {
    let e = failed("FULLSTRIP x\n");
    assert_eq!(
        e,
        ParseError {
            kind: ParseErrorType::BadBool {
                payload: "x".to_string(),
                key: "FULLSTRIP".to_string(),
            },
            line: 1,
            col: 0,
        }
    );
}

#[test]
fn bad_char_payload() {
    let e = failed("NOSUGGEST ab\n");
    assert_eq!(
        e,
        ParseError {
            kind: ParseErrorType::BadChar { count: 2, payload: "ab".to_string() },
            line: 1,
            col: 0,
        }
    );
}

#[test]
fn bad_int_payload() {
    let e = failed("MAXDIFF x\n");
    assert_eq!(
        e,
        ParseError {
            kind: ParseErrorType::BadInt { payload: "x".to_string() },
            line: 1,
            col: 0,
        }
    );
}

#[test]
fn bad_int_overflow() {
    let e = failed("COMPOUNDWORDMAX 4294967296\n");
    assert_eq!(
        e,
        ParseError {
            kind: ParseErrorType::BadInt { payload: "4294967296".to_string() },
            line: 1,
            col: 0,
        }
    );
}

#[test]
fn unknown_encoding_name() {
    let e = failed("SET bogus\n");
    assert_eq!(
        e,
        ParseError {
            kind: ParseErrorType::Encoding { s: "bogus".to_string() },
            line: 1,
            col: 0,
        }
    );
}

#[test]
fn unknown_flag_name() {
    let e = failed("FLAG bogus\n");
    assert_eq!(
        e,
        ParseError { kind: ParseErrorType::Flag { s: "bogus".to_string() }, line: 1, col: 0 }
    );
}

#[test]
fn cross_product_letter_rejected() {
    let e = failed("PFX A X 1\nPFX A 0 re .\n");
    assert_eq!(
        e,
        ParseError {
            kind: ParseErrorType::AffixCrossProduct { s: "X".to_string() },
            line: 1,
            col: 0,
        }
    );
}

#[test]
fn affix_header_malformed() {
    let e = failed("PFX A Y\nLANG x\n");
    assert_eq!(
        e,
        ParseError {
            kind: ParseErrorType::AffixBody { s: "\nLANG x\n".to_string() },
            line: 1,
            col: 0,
        }
    );
}

#[test]
fn affix_body_row_malformed() {
    let e = failed("PFX A Y 1\nPFX A 0\n");
    assert_eq!(
        e,
        ParseError {
            kind: ParseErrorType::AffixBody { s: "PFX A 0".to_string() },
            line: 2,
            col: 0,
        }
    );
}

#[test]
fn conversion_row_needs_two_tokens() {
    let e = failed("REP 1\nREP a\n");
    assert_eq!(
        e,
        ParseError {
            kind: ParseErrorType::Conversion { s: "a".to_string() },
            line: 2,
            col: 0,
        }
    );
}

#[test]
fn phonetic_row_needs_two_tokens() {
    let e = failed("PHONE 1\nPHONE a\n");
    assert_eq!(
        e,
        ParseError { kind: ParseErrorType::Phonetic { s: "a".to_string() }, line: 2, col: 0 }
    );
}

#[test]
fn compound_pattern_row_needs_two_tokens() {
    let e = failed("CHECKCOMPOUNDPATTERN 1\nCHECKCOMPOUNDPATTERN x\n");
    assert_eq!(
        e,
        ParseError {
            kind: ParseErrorType::CompoundPattern { s: "x".to_string() },
            line: 2,
            col: 0,
        }
    );
}

#[test]
fn compound_syllable_malformed() {
    let e = failed("COMPOUNDSYLLABLE x\n");
    assert_eq!(
        e,
        ParseError {
            kind: ParseErrorType::CompoundSyllable { s: "x".to_string() },
            line: 1,
            col: 0,
        }
    );
}

#[test]
fn morph_tag_malformed() {
    let e = failed("PFX A Y 1\nPFX A 0 re . zz:x\n");
    assert_eq!(
        e,
        ParseError {
            kind: ParseErrorType::MorphInfo { s: "zz:x".to_string() },
            line: 2,
            col: 0,
        }
    );
}

#[test]
fn rows_must_be_whitespace_free() {
    let e = failed("AF 1\nAF a b\n");
    assert_eq!(
        e,
        ParseError {
            kind: ParseErrorType::ContainsWhitespace { row: "a b".to_string() },
            line: 2,
            col: 0,
        }
    );
}

#[test]
fn error_line_counts_blanks_and_comments() {
    let e = failed("\n\n# c\nSET bogus\n");
    assert_eq!(
        e,
        ParseError {
            kind: ParseErrorType::Encoding { s: "bogus".to_string() },
            line: 4,
            col: 0,
        }
    );
}

#[test]
fn error_line_counts_multiline_directives() {
    let e = failed("REP 1\nREP a b\nSET bogus\n");
    assert_eq!(
        e,
        ParseError {
            kind: ParseErrorType::Encoding { s: "bogus".to_string() },
            line: 3,
            col: 0,
        }
    );
}
