//! Successful parses: one test per directive family, plus the boundary
//! behaviours of empty input, comment-only input and zero-count tables.

use affix::error::ParseError;
use affix::parser::parse_affix;
use affix::types::{
    AffixNode, AffixRule, CompoundPattern, CompoundSyllable, Conversion, Encoding, MorphInfo,
    MorphTag, Phonetic, RuleGroup, RuleType,
};

fn parsed(s: &str) -> Vec<AffixNode> {
    let r: Result<Vec<AffixNode>, ParseError> = parse_affix(s);
    r.expect("parse should succeed")
}

#[test]
fn set_utf8() {
    assert_eq!(parsed("SET UTF-8\n"), vec![AffixNode::Encoding(Encoding::Utf8)]);
}

#[test]
fn set_other_encodings() {
    assert_eq!(
        parsed("SET ISO8859-15\nSET KOI8-R\nSET cp1251\n"),
        vec![
            AffixNode::Encoding(Encoding::Iso8859t15),
            AffixNode::Encoding(Encoding::Koi8R),
            AffixNode::Encoding(Encoding::Cp1251),
        ]
    );
}

#[test]
fn flag_conventions() {
    assert_eq!(
        parsed("FLAG num\nFLAG long\nFLAG UTF-8\n"),
        vec![
            AffixNode::Flag(Encoding::Num),
            AffixNode::Flag(Encoding::Long),
            AffixNode::Flag(Encoding::Utf8),
        ]
    );
}

#[test]
fn prefix_single_rule() {
    let expected = AffixNode::Prefix(RuleGroup {
        flag: "A".to_string(),
        kind: RuleType::Prefix,
        can_combine: true,
        rules: vec![AffixRule {
            stripping_chars: None,
            affix: "re".to_string(),
            condition: None,
            morph_info: None,
        }],
    });
    assert_eq!(parsed("PFX A Y 1\nPFX A 0 re . \n"), vec![expected]);
}

#[test]
fn suffix_no_combine_with_strip_and_condition() {
    let expected = AffixNode::Suffix(RuleGroup {
        flag: "B9".to_string(),
        kind: RuleType::Suffix,
        can_combine: false,
        rules: vec![AffixRule {
            stripping_chars: Some("y".to_string()),
            affix: "ies".to_string(),
            condition: Some("[^aeiou]y".to_string()),
            morph_info: None,
        }],
    });
    assert_eq!(parsed("SFX B9 N 1\nSFX B9 y ies [^aeiou]y\n"), vec![expected]);
}

#[test]
fn rule_with_morph_info() {
    let nodes = parsed("SFX B N 1\nSFX B 0 ing . po:verb st:walk\n");
    let expected = AffixNode::Suffix(RuleGroup {
        flag: "B".to_string(),
        kind: RuleType::Suffix,
        can_combine: false,
        rules: vec![AffixRule {
            stripping_chars: None,
            affix: "ing".to_string(),
            condition: None,
            morph_info: Some(vec![
                MorphInfo { tag: MorphTag::PartOfSpeech, value: "verb".to_string() },
                MorphInfo { tag: MorphTag::Stem, value: "walk".to_string() },
            ]),
        }],
    });
    assert_eq!(nodes, vec![expected]);
}

#[test]
fn rep_table() {
    let expected = AffixNode::Replacement(vec![
        Conversion { input: "a".to_string(), output: "b".to_string(), bidirectional: false },
        Conversion { input: "c".to_string(), output: "d".to_string(), bidirectional: false },
    ]);
    assert_eq!(parsed("REP 2\nREP a b\nREP c d\n"), vec![expected]);
}

#[test]
fn iconv_and_oconv_tables() {
    assert_eq!(
        parsed("ICONV 1\nICONV aa a\nOCONV 1\nOCONV b bb\n"),
        vec![
            AffixNode::AfxInputConversion(vec![Conversion {
                input: "aa".to_string(),
                output: "a".to_string(),
                bidirectional: false,
            }]),
            AffixNode::AfxOutputConversion(vec![Conversion {
                input: "b".to_string(),
                output: "bb".to_string(),
                bidirectional: false,
            }]),
        ]
    );
}

#[test]
fn map_table_takes_first_two_chars() {
    assert_eq!(
        parsed("MAP 1\nMAP ab\n"),
        vec![AffixNode::Mapping(vec![('a', 'b')])]
    );
}

#[test]
fn phone_table() {
    assert_eq!(
        parsed("PHONE 1\nPHONE AH(AEIOUY)-^ *H\n"),
        vec![AffixNode::Phonetic(vec![Phonetic {
            pattern: "AH(AEIOUY)-^".to_string(),
            replacement: "*H".to_string(),
        }])]
    );
}

#[test]
fn compound_pattern_row_with_flags_and_replacement() {
    assert_eq!(
        parsed("CHECKCOMPOUNDPATTERN 1\nCHECKCOMPOUNDPATTERN ab/X cd/Y ef\n"),
        vec![AffixNode::CompoundForbidPats(vec![CompoundPattern {
            endchars: "ab".to_string(),
            endflag: Some("X".to_string()),
            beginchars: "cd".to_string(),
            beginflag: Some("Y".to_string()),
            replacement: Some("ef".to_string()),
        }])]
    );
}

#[test]
fn compound_syllable_payload() {
    assert_eq!(
        parsed("COMPOUNDSYLLABLE 10 aeiou\n"),
        vec![AffixNode::CompoundSyllable(CompoundSyllable {
            count: 10,
            vowels: "aeiou".to_string(),
        })]
    );
}

#[test]
fn affix_alias_table() {
    assert_eq!(
        parsed("AF 2\nAF ab\nAF cd\n"),
        vec![AffixNode::AffixAlias(vec!["ab".to_string(), "cd".to_string()])]
    );
}

#[test]
fn break_and_compound_rule_are_distinct() {
    assert_eq!(
        parsed("BREAK 1\nBREAK -\nCOMPOUNDRULE 1\nCOMPOUNDRULE n*1t\n"),
        vec![
            AffixNode::BreakSeparator(vec!["-".to_string()]),
            AffixNode::CompoundRule(vec!["n*1t".to_string()]),
        ]
    );
}

#[test]
fn neighbor_keys_split_on_pipe() {
    assert_eq!(
        parsed("KEY qwertyuiop|asdfghjkl|zxcvbnm\n"),
        vec![AffixNode::NeighborKeys(vec![
            "qwertyuiop".to_string(),
            "asdfghjkl".to_string(),
            "zxcvbnm".to_string(),
        ])]
    );
}

#[test]
fn ignore_chars_collects_codepoints() {
    assert_eq!(
        parsed("IGNORE abc\n"),
        vec![AffixNode::IgnoreChars(vec!['a', 'b', 'c'])]
    );
}

#[test]
fn boolean_directives() {
    assert_eq!(
        parsed("FULLSTRIP\nCHECKSHARPS\nCOMPLEXPREFIXES\nNOSPLITSUGS\n"),
        vec![
            AffixNode::AfxFullStrip,
            AffixNode::AfxCheckSharps,
            AffixNode::ComplexPrefixes,
            AffixNode::NoSplitSuggestions,
        ]
    );
}

#[test]
fn char_flag_directives() {
    assert_eq!(
        parsed("NOSUGGEST !\nKEEPCASE k\nFORCEUCASE U\n"),
        vec![
            AffixNode::NoSuggestFlag('!'),
            AffixNode::AfxKeepCaseFlag('k'),
            AffixNode::CompoundForceUpper('U'),
        ]
    );
}

#[test]
fn integer_directives() {
    assert_eq!(
        parsed("COMPOUNDMIN 3\nMAXDIFF 5\nCOMPOUNDWORDMAX 7\n"),
        vec![
            AffixNode::CompoundMinLen(3),
            AffixNode::NGramDiffMax(5),
            AffixNode::CompoundWordMax(7),
        ]
    );
}

#[test]
fn string_directives_trim_payload() {
    assert_eq!(
        parsed("LANG  en_US \nNAME demo\nHOME example\nVERSION 1\nWORDCHARS '-\nTRY abc\n"),
        vec![
            AffixNode::Language("en_US".to_string()),
            AffixNode::Name("demo".to_string()),
            AffixNode::HomePage("example".to_string()),
            AffixNode::Version("1".to_string()),
            AffixNode::AfxWordChars("'-".to_string()),
            AffixNode::TryCharacters("abc".to_string()),
        ]
    );
}

#[test]
fn comment_then_lang() {
    assert_eq!(
        parsed("# a comment\nLANG en_US\n"),
        vec![AffixNode::Comment, AffixNode::Language("en_US".to_string())]
    );
}

#[test]
fn comment_keeps_hash_in_payload() {
    assert_eq!(parsed("# a # nested hash\n"), vec![AffixNode::Comment]);
}

#[test]
fn trailing_comment_after_payload() {
    assert_eq!(
        parsed("LANG en#comment\nTRY abc # noise\n"),
        vec![
            AffixNode::Language("en".to_string()),
            AffixNode::TryCharacters("abc".to_string()),
        ]
    );
}

#[test]
fn empty_input_gives_empty_sequence() {
    assert_eq!(parsed(""), Vec::<AffixNode>::new());
}

#[test]
fn comments_and_blanks_only() {
    assert_eq!(
        parsed("# a\n\n   \n# b\n"),
        vec![AffixNode::Comment, AffixNode::Comment]
    );
}

#[test]
fn zero_count_table_is_legal() {
    assert_eq!(parsed("REP 0\n"), vec![AffixNode::Replacement(vec![])]);
    // A zero-count table's recognizer has already crossed the header's
    // newline, so the dispatch loop's own line-muncher consumes the line
    // that follows; a blank line there keeps the next directive intact.
    assert_eq!(
        parsed("REP 0\n\nLANG x\n"),
        vec![
            AffixNode::Replacement(vec![]),
            AffixNode::Language("x".to_string()),
        ]
    );
}

#[test]
fn unknown_lines_produce_no_nodes() {
    assert_eq!(
        parsed("whatever stray text\nLANG de\n"),
        vec![AffixNode::Language("de".to_string())]
    );
}

#[test]
fn no_trailing_newline_at_end_of_input() {
    assert_eq!(parsed("LANG fr"), vec![AffixNode::Language("fr".to_string())]);
}

#[test]
fn parse_is_deterministic_on_same_input() {
    let text = "SET UTF-8\nPFX A Y 1\nPFX A 0 re .\nREP 1\nREP a b\n";
    assert_eq!(parse_affix(text), parse_affix(text));
    let bad = "MAP 1\nMAP a\n";
    assert_eq!(parse_affix(bad), parse_affix(bad));
}

/// The canonical text of a node, for the round-trip check, where one exists.
fn canonical(node: &AffixNode) -> String {
    match node {
        AffixNode::Encoding(Encoding::Utf8) => "SET UTF-8\n".to_string(),
        AffixNode::Language(s) => format!("LANG {}\n", s),
        AffixNode::TryCharacters(s) => format!("TRY {}\n", s),
        AffixNode::CompoundMinLen(n) => format!("COMPOUNDMIN {}\n", n),
        AffixNode::AfxFullStrip => "FULLSTRIP\n".to_string(),
        AffixNode::NoSuggestFlag(c) => format!("NOSUGGEST {}\n", c),
        AffixNode::Replacement(convs) => {
            let mut t = format!("REP {}\n", convs.len());
            for c in convs {
                t.push_str(&format!("REP {} {}\n", c.input, c.output));
            }
            t
        }
        _ => panic!("no canonical form in this test"),
    }
}

#[test]
fn round_trip_canonical_forms() {
    let text = "SET UTF-8\nLANG en_US\nTRY abc\nCOMPOUNDMIN 3\nFULLSTRIP\nNOSUGGEST !\nREP 2\nREP a b\nREP c d\n";
    let nodes = parsed(text);
    let mut rendered = String::new();
    for node in &nodes {
        rendered.push_str(&canonical(node));
    }
    assert_eq!(parsed(&rendered), nodes);
}

#[test]
fn node_count_matches_directives() {
    let text = "# header\nSET UTF-8\nFLAG long\nLANG en\nstray\n\nREP 1\nREP a b\nPFX A Y 1\nPFX A 0 re .\n";
    let nodes = parsed(text);
    // One node per recognized directive: comment, SET, FLAG, LANG, REP, PFX.
    assert_eq!(nodes.len(), 6);
}

#[test]
fn duplicates_are_preserved_in_order() {
    assert_eq!(
        parsed("LANG a\nLANG b\nLANG a\n"),
        vec![
            AffixNode::Language("a".to_string()),
            AffixNode::Language("b".to_string()),
            AffixNode::Language("a".to_string()),
        ]
    );
}
