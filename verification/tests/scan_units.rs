//! Unit tests for the line-splitting, trimming and integer primitives, and
//! for the full morphological tag set.

use affix::coerce::parse_u32_str;
use affix::parser::parse_affix;
use affix::scan::{line_splitter, munch_newline};
use affix::types::{AffixNode, MorphTag};

#[test]
fn splitter_cuts_at_comment() {
    let (work, resid) = line_splitter("SET UTF-8# tail\nrest", "SET").expect("key matches");
    assert_eq!(work, "UTF-8");
    assert_eq!(resid, "# tail\nrest");
}

#[test]
fn splitter_requires_key_prefix() {
    assert!(line_splitter("LANG en\n", "SET").is_none());
}

#[test]
fn splitter_comment_key_keeps_hash() {
    let (work, resid) = line_splitter("# a # b\nrest", "#").expect("key matches");
    assert_eq!(work, "a # b");
    assert_eq!(resid, "\nrest");
}

#[test]
fn splitter_without_terminator_consumes_all() {
    let (work, resid) = line_splitter("TRY abc", "TRY").expect("key matches");
    assert_eq!(work, "abc");
    assert_eq!(resid, "");
}

#[test]
fn munch_skips_blank_and_commented_tails() {
    assert_eq!(munch_newline("  # tail\nrest"), Ok(Some("rest")));
    assert_eq!(munch_newline("\r\nrest"), Ok(Some("rest")));
    assert_eq!(munch_newline("no newline"), Ok(None));
    let e = munch_newline(" x \nrest").expect_err("garbage before newline");
    assert_eq!(
        e.kind,
        affix::error::ParseErrorType::NonWhitespace { c: 'x' }
    );
}

#[test]
fn integer_parsing_bounds() {
    assert_eq!(parse_u32_str("0"), Some(0));
    assert_eq!(parse_u32_str("0042"), Some(42));
    assert_eq!(parse_u32_str("4294967295"), Some(u32::MAX));
    assert_eq!(parse_u32_str("4294967296"), None);
    assert_eq!(parse_u32_str(""), None);
    assert_eq!(parse_u32_str("12a"), None);
    assert_eq!(parse_u32_str("-1"), None);
}

#[test]
fn all_morph_tags_recognized() {
    let text = "SFX Z N 1\nSFX Z 0 s . st:a ph:b al:c po:d ds:e is:f ts:g dp:h ip:i tp:j sp:k pa:l fl:m\n";
    let nodes = parse_affix(text).expect("parse should succeed");
    let g = match &nodes[0] {
        AffixNode::Suffix(g) => g,
        _ => panic!("expected a suffix group"),
    };
    let morphs = g.rules[0].morph_info.as_ref().expect("morphs present");
    let tags: Vec<MorphTag> = morphs.iter().map(|m| m.tag).collect();
    assert_eq!(
        tags,
        vec![
            MorphTag::Stem,
            MorphTag::Phone,
            MorphTag::Allomorph,
            MorphTag::PartOfSpeech,
            MorphTag::DerivSuffix,
            MorphTag::InflSuffix,
            MorphTag::TerminalSuffix,
            MorphTag::DerivPrefix,
            MorphTag::InflPrefix,
            MorphTag::TerminalPrefix,
            MorphTag::SurfacePrefix,
            MorphTag::CompoundPart,
            MorphTag::FlagRef,
        ]
    );
    let values: Vec<&str> = morphs.iter().map(|m| m.value.as_str()).collect();
    assert_eq!(
        values,
        vec!["a", "b", "c", "d", "e", "f", "g", "h", "i", "j", "k", "l", "m"]
    );
}

#[test]
fn morph_value_may_be_empty() {
    let nodes = parse_affix("SFX Z N 1\nSFX Z 0 s . st:\n").expect("parse should succeed");
    let g = match &nodes[0] {
        AffixNode::Suffix(g) => g,
        _ => panic!("expected a suffix group"),
    };
    let morphs = g.rules[0].morph_info.as_ref().expect("morphs present");
    assert_eq!(morphs[0].tag, MorphTag::Stem);
    assert_eq!(morphs[0].value, "");
}
