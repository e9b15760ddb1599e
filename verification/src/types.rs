//! The directive taxonomy: every recognized directive yields exactly one
//! [`AffixNode`] variant, carrying a typed payload.
//!
//! Each executable type has a ghost mirror (`...View`) with text as
//! `Seq<char>`, used by the contracts; `View`/`DeepView` impls connect the
//! two.

use vstd::prelude::*;

verus! {

/// The closed set of encoding / flag-convention identifiers accepted by the
/// `SET` and `FLAG` directives.
#[derive(Debug, Clone, Copy, PartialEq, Eq, Structural)]
pub enum Encoding {
    /// `UTF-8`
    Utf8,
    /// `ISO8859-1`
    Iso8859t1,
    /// `ISO8859-10`
    Iso8859t10,
    /// `ISO8859-13`
    Iso8859t13,
    /// `ISO8859-15`
    Iso8859t15,
    /// `KOI8-R`
    Koi8R,
    /// `KOI8-U`
    Koi8U,
    /// `cp1251`
    Cp1251,
    /// `ISCII-DEVANAGARI`
    IsciiDevanagari,
    /// `long`: two-character flags
    Long,
    /// `num`: numeric flags
    Num,
    /// `ascii`: single-byte flags
    Ascii,
}

/// Whether a rule group rewrites the front or the back of a stem.
#[derive(Debug, Clone, Copy, PartialEq, Eq, Structural)]
pub enum RuleType {
    Prefix,
    Suffix,
}

/// The closed set of two-letter morphological tag names.
#[derive(Debug, Clone, Copy, PartialEq, Eq, Structural)]
pub enum MorphTag {
    /// `st:` stem
    Stem,
    /// `ph:` phonetic transliteration
    Phone,
    /// `al:` allomorph
    Allomorph,
    /// `po:` part of speech
    PartOfSpeech,
    /// `ds:` derivational suffix
    DerivSuffix,
    /// `is:` inflectional suffix
    InflSuffix,
    /// `ts:` terminal suffix
    TerminalSuffix,
    /// `dp:` derivational prefix
    DerivPrefix,
    /// `ip:` inflectional prefix
    InflPrefix,
    /// `tp:` terminal prefix
    TerminalPrefix,
    /// `sp:` surface prefix
    SurfacePrefix,
    /// `pa:` part of compound
    CompoundPart,
    /// `fl:` flag
    FlagRef,
}

/// Ghost mirror of [`MorphInfo`].
pub struct MorphInfoView {
    pub tag: MorphTag,
    pub value: Seq<char>,
}

/// One morphological tag: a two-letter tag name and its value.
#[derive(Debug, Clone, PartialEq, Eq)]
pub struct MorphInfo {
    pub tag: MorphTag,
    pub value: String,
}

impl View for MorphInfo {
    type V = MorphInfoView;

    open spec fn view(&self) -> MorphInfoView {
        MorphInfoView { tag: self.tag, value: self.value@ }
    }
}

impl DeepView for MorphInfo {
    type V = MorphInfoView;

    open spec fn deep_view(&self) -> MorphInfoView {
        self.view()
    }
}

/// Ghost mirror of [`Conversion`].
pub struct ConversionView {
    pub input: Seq<char>,
    pub output: Seq<char>,
    pub bidirectional: bool,
}

/// A rewrite pair from a `REP`, `ICONV` or `OCONV` row.
#[derive(Debug, Clone, PartialEq, Eq)]
pub struct Conversion {
    pub input: String,
    pub output: String,
    pub bidirectional: bool,
}

impl View for Conversion {
    type V = ConversionView;

    open spec fn view(&self) -> ConversionView {
        ConversionView {
            input: self.input@,
            output: self.output@,
            bidirectional: self.bidirectional,
        }
    }
}

impl DeepView for Conversion {
    type V = ConversionView;

    open spec fn deep_view(&self) -> ConversionView {
        self.view()
    }
}

/// Ghost mirror of [`Phonetic`].
pub struct PhoneticView {
    pub pattern: Seq<char>,
    pub replacement: Seq<char>,
}

/// One `PHONE` row: a pattern and its transliteration.
#[derive(Debug, Clone, PartialEq, Eq)]
pub struct Phonetic {
    pub pattern: String,
    pub replacement: String,
}

impl View for Phonetic {
    type V = PhoneticView;

    open spec fn view(&self) -> PhoneticView {
        PhoneticView { pattern: self.pattern@, replacement: self.replacement@ }
    }
}

impl DeepView for Phonetic {
    type V = PhoneticView;

    open spec fn deep_view(&self) -> PhoneticView {
        self.view()
    }
}

/// Ghost mirror of [`CompoundPattern`].
pub struct CompoundPatternView {
    pub endchars: Seq<char>,
    pub endflag: Option<Seq<char>>,
    pub beginchars: Seq<char>,
    pub beginflag: Option<Seq<char>>,
    pub replacement: Option<Seq<char>>,
}

/// One `CHECKCOMPOUNDPATTERN` row: `endchars[/flag] beginchars[/flag]
/// [replacement]`.
#[derive(Debug, Clone, PartialEq, Eq)]
pub struct CompoundPattern {
    pub endchars: String,
    pub endflag: Option<String>,
    pub beginchars: String,
    pub beginflag: Option<String>,
    pub replacement: Option<String>,
}

impl View for CompoundPattern {
    type V = CompoundPatternView;

    open spec fn view(&self) -> CompoundPatternView {
        CompoundPatternView {
            endchars: self.endchars@,
            endflag: self.endflag.deep_view(),
            beginchars: self.beginchars@,
            beginflag: self.beginflag.deep_view(),
            replacement: self.replacement.deep_view(),
        }
    }
}

impl DeepView for CompoundPattern {
    type V = CompoundPatternView;

    open spec fn deep_view(&self) -> CompoundPatternView {
        self.view()
    }
}

/// Ghost mirror of [`CompoundSyllable`].
pub struct CompoundSyllableView {
    pub count: u32,
    pub vowels: Seq<char>,
}

/// The `COMPOUNDSYLLABLE` payload: a syllable limit and the vowel set.
#[derive(Debug, Clone, PartialEq, Eq)]
pub struct CompoundSyllable {
    pub count: u32,
    pub vowels: String,
}

impl View for CompoundSyllable {
    type V = CompoundSyllableView;

    open spec fn view(&self) -> CompoundSyllableView {
        CompoundSyllableView { count: self.count, vowels: self.vowels@ }
    }
}

impl DeepView for CompoundSyllable {
    type V = CompoundSyllableView;

    open spec fn deep_view(&self) -> CompoundSyllableView {
        self.view()
    }
}

/// Ghost mirror of [`AffixRule`].
pub struct AffixRuleView {
    pub stripping_chars: Option<Seq<char>>,
    pub affix: Seq<char>,
    pub condition: Option<Seq<char>>,
    pub morph_info: Option<Seq<MorphInfoView>>,
}

/// One body row of a `PFX`/`SFX` group.
///
/// A `"0"` stripping field means "strip nothing" (`None`); a `"."` condition
/// means "match anything" (`None`).
#[derive(Debug, Clone, PartialEq, Eq)]
pub struct AffixRule {
    pub stripping_chars: Option<String>,
    pub affix: String,
    pub condition: Option<String>,
    pub morph_info: Option<Vec<MorphInfo>>,
}

impl View for AffixRule {
    type V = AffixRuleView;

    open spec fn view(&self) -> AffixRuleView {
        AffixRuleView {
            stripping_chars: self.stripping_chars.deep_view(),
            affix: self.affix@,
            condition: self.condition.deep_view(),
            morph_info: self.morph_info.deep_view(),
        }
    }
}

impl DeepView for AffixRule {
    type V = AffixRuleView;

    open spec fn deep_view(&self) -> AffixRuleView {
        self.view()
    }
}

/// Ghost mirror of [`RuleGroup`].
pub struct RuleGroupView {
    pub flag: Seq<char>,
    pub kind: RuleType,
    pub can_combine: bool,
    pub rules: Seq<AffixRuleView>,
}

/// A whole `PFX`/`SFX` block: the flag it binds, whether its rules may
/// cross-product with the other kind, and its body rows.
///
/// Every rule's body line quoted exactly `flag`, and `rules.len()` equals
/// the count declared on the header line.
#[derive(Debug, Clone, PartialEq, Eq)]
pub struct RuleGroup {
    pub flag: String,
    pub kind: RuleType,
    pub can_combine: bool,
    pub rules: Vec<AffixRule>,
}

impl View for RuleGroup {
    type V = RuleGroupView;

    open spec fn view(&self) -> RuleGroupView {
        RuleGroupView {
            flag: self.flag@,
            kind: self.kind,
            can_combine: self.can_combine,
            rules: self.rules.deep_view(),
        }
    }
}

impl DeepView for RuleGroup {
    type V = RuleGroupView;

    open spec fn deep_view(&self) -> RuleGroupView {
        self.view()
    }
}

/// Ghost mirror of [`AffixNode`].
pub enum NodeView {
    Comment,
    Encoding(Encoding),
    Flag(Encoding),
    ComplexPrefixes,
    Language(Seq<char>),
    IgnoreChars(Seq<char>),
    AffixAlias(Seq<Seq<char>>),
    MorphAlias(Seq<Seq<char>>),
    NeighborKeys(Seq<Seq<char>>),
    TryCharacters(Seq<char>),
    NoSuggestFlag(char),
    CompoundSugMax(u32),
    NGramSugMax(u32),
    NGramDiffMax(u32),
    NGramLimitToDiffMax,
    NoSplitSuggestions,
    KeepTermDots,
    Replacement(Seq<ConversionView>),
    Mapping(Seq<(char, char)>),
    Phonetic(Seq<PhoneticView>),
    WarnRareFlag(char),
    ForbidWarnWords,
    BreakSeparator(Seq<Seq<char>>),
    CompoundRule(Seq<Seq<char>>),
    CompoundMinLen(u32),
    CompoundFlag(char),
    CompoundBeginFlag(char),
    CompoundEndFlag(char),
    CompoundMiddleFlag(char),
    CompoundOnlyFlag(char),
    CompoundPermitFlag(char),
    CompoundForbidFlag(char),
    CompoundMoreSuffixes,
    CompoundRoot(char),
    CompoundWordMax(u32),
    CompoundForbidDup,
    CompoundForbidRepeat,
    CompoundCheckCase,
    CompoundCheckTriple,
    CompoundSimplifyTriple,
    CompoundForbidPats(Seq<CompoundPatternView>),
    CompoundForceUpper(char),
    CompoundSyllable(CompoundSyllableView),
    SyllableNum(Seq<char>),
    Prefix(RuleGroupView),
    Suffix(RuleGroupView),
    AfxCircumfixFlag(char),
    ForbiddenWordFlag(char),
    AfxFullStrip,
    AfxKeepCaseFlag(char),
    AfxInputConversion(Seq<ConversionView>),
    AfxOutputConversion(Seq<ConversionView>),
    AfxLemmaPresentFlag(char),
    AfxNeededFlag(char),
    AfxPseudoRootFlag(char),
    AfxSubstandardFlag(char),
    AfxWordChars(Seq<char>),
    AfxCheckSharps,
    Name(Seq<char>),
    HomePage(Seq<char>),
    Version(Seq<char>),
}

/// The outcome of one recognized directive.  A successful parse yields the
/// file's directives as a sequence of these, in source order, preserving
/// duplicates.
#[derive(Debug, Clone, PartialEq)]
pub enum AffixNode {
    /// `#` a comment line
    Comment,
    /// `SET`
    Encoding(Encoding),
    /// `FLAG`
    Flag(Encoding),
    /// `COMPLEXPREFIXES`
    ComplexPrefixes,
    /// `LANG`
    Language(String),
    /// `IGNORE`
    IgnoreChars(Vec<char>),
    /// `AF`
    AffixAlias(Vec<String>),
    /// `AM`
    MorphAlias(Vec<String>),
    /// `KEY`
    NeighborKeys(Vec<String>),
    /// `TRY`
    TryCharacters(String),
    /// `NOSUGGEST`
    NoSuggestFlag(char),
    /// `MAXCPDSUGS`
    CompoundSugMax(u32),
    /// `MAXNGRAMSUGS`
    NGramSugMax(u32),
    /// `MAXDIFF`
    NGramDiffMax(u32),
    /// `ONLYMAXDIFF`
    NGramLimitToDiffMax,
    /// `NOSPLITSUGS`
    NoSplitSuggestions,
    /// `SUGSWITHDOTS`
    KeepTermDots,
    /// `REP`
    Replacement(Vec<Conversion>),
    /// `MAP`
    Mapping(Vec<(char, char)>),
    /// `PHONE`
    Phonetic(Vec<Phonetic>),
    /// `WARN`
    WarnRareFlag(char),
    /// `FORBIDWARN`
    ForbidWarnWords,
    /// `BREAK`
    BreakSeparator(Vec<String>),
    /// `COMPOUNDRULE`
    CompoundRule(Vec<String>),
    /// `COMPOUNDMIN`
    CompoundMinLen(u32),
    /// `COMPOUNDFLAG`
    CompoundFlag(char),
    /// `COMPOUNDBEGIN`
    CompoundBeginFlag(char),
    /// `COMPOUNDLAST`
    CompoundEndFlag(char),
    /// `COMPOUNDMIDDLE`
    CompoundMiddleFlag(char),
    /// `ONLYINCOMPOUND`
    CompoundOnlyFlag(char),
    /// `COMPOUNDPERMITFLAG`
    CompoundPermitFlag(char),
    /// `COMPOUNDFORBIDFLAG`
    CompoundForbidFlag(char),
    /// `COMPOUNDMORESUFFIXES`
    CompoundMoreSuffixes,
    /// `COMPOUNDROOT`
    CompoundRoot(char),
    /// `COMPOUNDWORDMAX`
    CompoundWordMax(u32),
    /// `CHECKCOMPOUNDDUP`
    CompoundForbidDup,
    /// `CHECKCOMPOUNDREP`
    CompoundForbidRepeat,
    /// `CHECKCOMPOUNDCASE`
    CompoundCheckCase,
    /// `CHECKCOMPOUNDTRIPLE`
    CompoundCheckTriple,
    /// `SIMPLIFIEDTRIPLE`
    CompoundSimplifyTriple,
    /// `CHECKCOMPOUNDPATTERN`
    CompoundForbidPats(Vec<CompoundPattern>),
    /// `FORCEUCASE`
    CompoundForceUpper(char),
    /// `COMPOUNDSYLLABLE`
    CompoundSyllable(CompoundSyllable),
    /// `SYLLABLENUM`
    SyllableNum(String),
    /// `PFX`
    Prefix(RuleGroup),
    /// `SFX`
    Suffix(RuleGroup),
    /// `CIRCUMFIX`
    AfxCircumfixFlag(char),
    /// `FORBIDDENWORD`
    ForbiddenWordFlag(char),
    /// `FULLSTRIP`
    AfxFullStrip,
    /// `KEEPCASE`
    AfxKeepCaseFlag(char),
    /// `ICONV`
    AfxInputConversion(Vec<Conversion>),
    /// `OCONV`
    AfxOutputConversion(Vec<Conversion>),
    /// `LEMMA_PRESENT`
    AfxLemmaPresentFlag(char),
    /// `NEEDAFFIX`
    AfxNeededFlag(char),
    /// `PSEUDOROOT`
    AfxPseudoRootFlag(char),
    /// `SUBSTANDARD`
    AfxSubstandardFlag(char),
    /// `WORDCHARS`
    AfxWordChars(String),
    /// `CHECKSHARPS`
    AfxCheckSharps,
    /// `NAME`
    Name(String),
    /// `HOME`
    HomePage(String),
    /// `VERSION`
    Version(String),
}

impl View for AffixNode {
    type V = NodeView;

    open spec fn view(&self) -> NodeView {
        match self {
            AffixNode::Comment => NodeView::Comment,
            AffixNode::Encoding(e) => NodeView::Encoding(*e),
            AffixNode::Flag(e) => NodeView::Flag(*e),
            AffixNode::ComplexPrefixes => NodeView::ComplexPrefixes,
            AffixNode::Language(s) => NodeView::Language(s@),
            AffixNode::IgnoreChars(v) => NodeView::IgnoreChars(v.deep_view()),
            AffixNode::AffixAlias(v) => NodeView::AffixAlias(v.deep_view()),
            AffixNode::MorphAlias(v) => NodeView::MorphAlias(v.deep_view()),
            AffixNode::NeighborKeys(v) => NodeView::NeighborKeys(v.deep_view()),
            AffixNode::TryCharacters(s) => NodeView::TryCharacters(s@),
            AffixNode::NoSuggestFlag(c) => NodeView::NoSuggestFlag(*c),
            AffixNode::CompoundSugMax(n) => NodeView::CompoundSugMax(*n),
            AffixNode::NGramSugMax(n) => NodeView::NGramSugMax(*n),
            AffixNode::NGramDiffMax(n) => NodeView::NGramDiffMax(*n),
            AffixNode::NGramLimitToDiffMax => NodeView::NGramLimitToDiffMax,
            AffixNode::NoSplitSuggestions => NodeView::NoSplitSuggestions,
            AffixNode::KeepTermDots => NodeView::KeepTermDots,
            AffixNode::Replacement(v) => NodeView::Replacement(v.deep_view()),
            AffixNode::Mapping(v) => NodeView::Mapping(v.deep_view()),
            AffixNode::Phonetic(v) => NodeView::Phonetic(v.deep_view()),
            AffixNode::WarnRareFlag(c) => NodeView::WarnRareFlag(*c),
            AffixNode::ForbidWarnWords => NodeView::ForbidWarnWords,
            AffixNode::BreakSeparator(v) => NodeView::BreakSeparator(v.deep_view()),
            AffixNode::CompoundRule(v) => NodeView::CompoundRule(v.deep_view()),
            AffixNode::CompoundMinLen(n) => NodeView::CompoundMinLen(*n),
            AffixNode::CompoundFlag(c) => NodeView::CompoundFlag(*c),
            AffixNode::CompoundBeginFlag(c) => NodeView::CompoundBeginFlag(*c),
            AffixNode::CompoundEndFlag(c) => NodeView::CompoundEndFlag(*c),
            AffixNode::CompoundMiddleFlag(c) => NodeView::CompoundMiddleFlag(*c),
            AffixNode::CompoundOnlyFlag(c) => NodeView::CompoundOnlyFlag(*c),
            AffixNode::CompoundPermitFlag(c) => NodeView::CompoundPermitFlag(*c),
            AffixNode::CompoundForbidFlag(c) => NodeView::CompoundForbidFlag(*c),
            AffixNode::CompoundMoreSuffixes => NodeView::CompoundMoreSuffixes,
            AffixNode::CompoundRoot(c) => NodeView::CompoundRoot(*c),
            AffixNode::CompoundWordMax(n) => NodeView::CompoundWordMax(*n),
            AffixNode::CompoundForbidDup => NodeView::CompoundForbidDup,
            AffixNode::CompoundForbidRepeat => NodeView::CompoundForbidRepeat,
            AffixNode::CompoundCheckCase => NodeView::CompoundCheckCase,
            AffixNode::CompoundCheckTriple => NodeView::CompoundCheckTriple,
            AffixNode::CompoundSimplifyTriple => NodeView::CompoundSimplifyTriple,
            AffixNode::CompoundForbidPats(v) => NodeView::CompoundForbidPats(v.deep_view()),
            AffixNode::CompoundForceUpper(c) => NodeView::CompoundForceUpper(*c),
            AffixNode::CompoundSyllable(cs) => NodeView::CompoundSyllable(cs@),
            AffixNode::SyllableNum(s) => NodeView::SyllableNum(s@),
            AffixNode::Prefix(g) => NodeView::Prefix(g@),
            AffixNode::Suffix(g) => NodeView::Suffix(g@),
            AffixNode::AfxCircumfixFlag(c) => NodeView::AfxCircumfixFlag(*c),
            AffixNode::ForbiddenWordFlag(c) => NodeView::ForbiddenWordFlag(*c),
            AffixNode::AfxFullStrip => NodeView::AfxFullStrip,
            AffixNode::AfxKeepCaseFlag(c) => NodeView::AfxKeepCaseFlag(*c),
            AffixNode::AfxInputConversion(v) => NodeView::AfxInputConversion(v.deep_view()),
            AffixNode::AfxOutputConversion(v) => NodeView::AfxOutputConversion(v.deep_view()),
            AffixNode::AfxLemmaPresentFlag(c) => NodeView::AfxLemmaPresentFlag(*c),
            AffixNode::AfxNeededFlag(c) => NodeView::AfxNeededFlag(*c),
            AffixNode::AfxPseudoRootFlag(c) => NodeView::AfxPseudoRootFlag(*c),
            AffixNode::AfxSubstandardFlag(c) => NodeView::AfxSubstandardFlag(*c),
            AffixNode::AfxWordChars(s) => NodeView::AfxWordChars(s@),
            AffixNode::AfxCheckSharps => NodeView::AfxCheckSharps,
            AffixNode::Name(s) => NodeView::Name(s@),
            AffixNode::HomePage(s) => NodeView::HomePage(s@),
            AffixNode::Version(s) => NodeView::Version(s@),
        }
    }
}

impl DeepView for AffixNode {
    type V = NodeView;

    open spec fn deep_view(&self) -> NodeView {
        self.view()
    }
}

} // verus!
