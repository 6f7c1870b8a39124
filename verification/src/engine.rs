//! The match engine: a literal matcher with optional pinyin and romaji
//! matching, built by the `ib_matcher` crate.
//!
//! The crate's values are opaque here. What a factory or an engine was built
//! from is named by [`factory_settings`], [`engine_settings`] and
//! [`engine_pattern`], what a search returns by [`best_match`], and the case
//! fold of a character by [`simple_fold`]; the four functions at the end of
//! this file are the only code that touches the crate, and their contracts
//! are taken on trust.
//!
//! The crate builds no engine for a pattern in which a character, other than
//! the last, takes another number of bytes once its case is folded. Such a
//! pattern is compiled as its folded spelling, which matches the same letters.
//! Nor does it build one for a pattern of any length: its automaton has a
//! limit of states, and a search goes one call deeper with every character
//! matched. A pattern is therefore compiled up to [`MAX_PATTERN`] characters.

use crate::config::Config;
use crate::config::ConfigModel;
use crate::text::char_width;
use crate::text::utf8_width;
use ib_matcher::matcher::IbMatcher;
use ib_matcher::matcher::MatchConfig;
use ib_matcher::matcher::PinyinMatchConfig;
use ib_matcher::matcher::RomajiMatchConfig;
use ib_matcher::pinyin::PinyinNotation;
use ib_matcher::unicode::case::CharCaseExt;
use vstd::prelude::*;

verus! {

/// The largest notation set: every notation that the engine knows.
pub const ALL_NOTATIONS: u32 = 0x3ff;

/// The number of characters up to which a pattern is compiled.
pub const MAX_PATTERN: usize = 1024;

/// How the engine matches pinyin.
#[derive(Clone, Copy, Debug, PartialEq, Eq, Structural)]
pub struct PinyinSettings {
    /// The notation set, by the bits of [`crate::config`].
    pub notations: u32,
    /// Whether a pattern may stop in the middle of a pinyin.
    pub allow_partial_pattern: bool,
}

/// How the engine matches romaji.
#[derive(Clone, Copy, Debug, PartialEq, Eq, Structural)]
pub struct RomajiSettings {
    /// Whether a pattern may stop in the middle of a kana.
    pub allow_partial_pattern: bool,
}

/// Everything but the pattern that an engine is built from.
#[derive(Clone, Copy, Debug, PartialEq, Eq, Structural)]
pub struct MatchSettings {
    /// Whether the pattern is analysed when an engine is built.
    pub analyze: bool,
    /// Whether the end of a pattern may match the start of a pinyin or romaji.
    pub pattern_partial: bool,
    /// Pinyin matching; `None` where it is off.
    pub pinyin: Option<PinyinSettings>,
    /// Romaji matching; `None` where it is off.
    pub romaji: Option<RomajiSettings>,
}

impl MatchSettings {
    /// The notation set holds known notations only.
    pub open spec fn well_formed(&self) -> bool {
        self.pinyin matches Some(pinyin) ==> pinyin.notations <= ALL_NOTATIONS
    }

    /// The settings of the engines that serve `config`.
    ///
    /// Patterns are analysed, and may end in the middle of a pinyin or
    /// romaji. Pinyin and romaji matching are each there only where the
    /// settings switch them on; a search that is off leaves no trace.
    pub open spec fn of_config(config: ConfigModel) -> MatchSettings {
        MatchSettings {
            analyze: true,
            pattern_partial: true,
            pinyin: if config.pinyin_search.enable {
                Some(
                    PinyinSettings {
                        notations: config.pinyin_search.notation_bits(),
                        allow_partial_pattern: config.pinyin_search.partial_match_allowed(),
                    },
                )
            } else {
                None
            },
            romaji: if config.romaji_search.enable {
                Some(
                    RomajiSettings {
                        allow_partial_pattern: config.romaji_search.allow_partial_match,
                    },
                )
            } else {
                None
            },
        }
    }

    /// The settings of the engines that serve `config`.
    pub fn from_config(config: &Config) -> (settings: MatchSettings)
        ensures
            settings == Self::of_config(config@),
            settings.well_formed(),
    {
        let pinyin = if config.pinyin_search.enable {
            Some(
                PinyinSettings {
                    notations: config.pinyin_search.notations(),
                    allow_partial_pattern: config.pinyin_search.allows_partial_match(),
                },
            )
        } else {
            None
        };
        let romaji = if config.romaji_search.enable {
            Some(RomajiSettings { allow_partial_pattern: config.romaji_search.allow_partial_match })
        } else {
            None
        };
        MatchSettings { analyze: true, pattern_partial: true, pinyin, romaji }
    }
}

/// The outside crate's `MatchConfig`, opaque to the verifier.
#[verifier::external_type_specification]
#[verifier::external_body]
pub struct ExMatchConfig<'a>(MatchConfig<'a>);

/// The settings that a `MatchConfig` of the outside crate was built with.
pub uninterp spec fn factory_settings(config: MatchConfig<'_>) -> MatchSettings;

/// The settings that an engine was built with.
pub uninterp spec fn engine_settings(engine: Engine<'_>) -> MatchSettings;

/// The pattern that an engine was built for.
pub uninterp spec fn engine_pattern(engine: Engine<'_>) -> Seq<char>;

/// The case fold of a character, by which the engine compares letters.
pub uninterp spec fn simple_fold(c: char) -> char;

/// The character takes as many bytes folded as it does unfolded.
pub open spec fn keeps_width(c: char) -> bool {
    utf8_width(simple_fold(c)) == utf8_width(c)
}

/// An engine can be built for the pattern as it is written: every character
/// but the last keeps its width when folded.
pub open spec fn builds_as_written(pattern: Seq<char>) -> bool {
    forall|k: int| 0 <= k < pattern.len() - 1 ==> keeps_width(#[trigger] pattern[k])
}

/// The character itself where it keeps its width when folded, else its fold.
pub open spec fn settled(c: char) -> char {
    if keeps_width(c) {
        c
    } else {
        simple_fold(c)
    }
}

/// The pattern with every character settled.
pub open spec fn settled_pattern(pattern: Seq<char>) -> Seq<char> {
    Seq::new(pattern.len(), |k: int| settled(pattern[k]))
}

/// Two texts spell the same letters: character by character, their folds
/// are the same.
pub open spec fn same_letters(a: Seq<char>, b: Seq<char>) -> bool {
    &&& a.len() == b.len()
    &&& forall|k: int| 0 <= k < a.len() ==> simple_fold(#[trigger] a[k]) == simple_fold(b[k])
}

/// The part of a pattern that is compiled: all of it up to [`MAX_PATTERN`]
/// characters, its first [`MAX_PATTERN`] characters beyond that.
pub open spec fn kept_prefix(pattern: Seq<char>) -> Seq<char> {
    if pattern.len() <= MAX_PATTERN {
        pattern
    } else {
        pattern.take(MAX_PATTERN as int)
    }
}

/// The text that the engine compiled from `pattern` is built for.
pub open spec fn compiled_pattern(pattern: Seq<char>) -> Seq<char> {
    built_pattern(kept_prefix(pattern))
}

/// The text that an engine for `pattern` is built for: the pattern itself
/// where that can be done, its settled spelling otherwise.
pub open spec fn built_pattern(pattern: Seq<char>) -> Seq<char> {
    if builds_as_written(pattern) {
        pattern
    } else {
        settled_pattern(pattern)
    }
}

/// The first match of `pattern` in `haystack` that an engine built with
/// `settings` finds: the byte offsets of its start and its end in the
/// haystack's UTF-8 encoding, or `None` where nothing matches.
pub uninterp spec fn best_match(
    settings: MatchSettings,
    pattern: Seq<char>,
    haystack: Seq<char>,
) -> Option<(usize, usize)>;

/// Builds engines: the phonetic configurations and their dictionaries, made
/// once and lent to every engine.
pub struct MatcherFactory {
    config: MatchConfig<'static>,
}

/// A compiled pattern. It is never changed after it is built, so any number
/// of searches may read it at once.
///
/// The matcher inside is the outside crate's `IbMatcher`. Its type is bounded
/// by a trait of that crate, which the verifier does not take in a
/// declaration, so the whole struct is kept out of the verifier's sight.
#[verifier::external_body]
pub struct Engine<'a> {
    matcher: IbMatcher<'a, str>,
}

impl MatcherFactory {
    /// The settings of the engines that this factory builds.
    pub closed spec fn settings(&self) -> MatchSettings {
        factory_settings(self.config)
    }

    /// A factory of engines with the given settings.
    pub fn new(settings: MatchSettings) -> (factory: Self)
        requires
            settings.well_formed(),
        ensures
            factory.settings() == settings,
    {
        MatcherFactory { config: build_config(settings) }
    }

    /// An engine for `pattern`. Every pattern has one: a pattern of more than
    /// [`MAX_PATTERN`] characters is compiled up to there, and where no
    /// engine can be built for a pattern as it is written, one is built for
    /// its settled spelling.
    pub fn compile<'a>(&'a self, pattern: &str) -> (engine: Engine<'a>)
        ensures
            engine.settings() == self.settings(),
            engine.pattern() == compiled_pattern(pattern@),
            same_letters(engine.pattern(), kept_prefix(pattern@)),
            engine.pattern().len() <= MAX_PATTERN,
    {
        let kept = keep_prefix(pattern);
        if can_build_as_written(kept) {
            build_engine(&self.config, kept)
        } else {
            let settled = settle_pattern(kept);
            build_engine(&self.config, settled.as_str())
        }
    }
}

/// The part of a pattern that is compiled.
pub fn keep_prefix(pattern: &str) -> (kept: &str)
    ensures
        kept@ == kept_prefix(pattern@),
        kept@.len() <= MAX_PATTERN,
{
    if pattern.unicode_len() <= MAX_PATTERN {
        pattern
    } else {
        pattern.substring_char(0, MAX_PATTERN)
    }
}

/// Whether the character takes as many bytes folded as it does unfolded.
fn char_keeps_width(c: char) -> (keeps: bool)
    ensures
        keeps == keeps_width(c),
{
    char_width(fold_char(c)) == char_width(c)
}

/// Whether an engine can be built for the pattern as it is written.
pub fn can_build_as_written(pattern: &str) -> (can: bool)
    ensures
        can == builds_as_written(pattern@),
{
    let mut can = true;
    let mut last_changes = false;
    for c in it: pattern.chars()
        invariant
            it.seq() == pattern@,
            can <==> forall|k: int| 0 <= k < it.index() - 1 ==> keeps_width(#[trigger] pattern@[k]),
            last_changes <==> it.index() > 0 && !keeps_width(pattern@[it.index() - 1]),
    {
        if last_changes {
            can = false;
        }
        last_changes = !char_keeps_width(c);
    }
    can
}

/// The settled spelling of a pattern, for which an engine can be built.
pub fn settle_pattern(pattern: &str) -> (text: String)
    ensures
        text@ == settled_pattern(pattern@),
        builds_as_written(text@),
        same_letters(text@, pattern@),
{
    let mut text = String::new();
    for c in it: pattern.chars()
        invariant
            it.seq() == pattern@,
            text@ == settled_pattern(pattern@.take(it.index() as int)),
            forall|k: int| 0 <= k < text@.len() ==> keeps_width(#[trigger] text@[k]),
            forall|k: int|
                0 <= k < text@.len() ==> simple_fold(#[trigger] text@[k]) == simple_fold(
                    pattern@[k],
                ),
    {
        let folded = fold_char(c);
        let kept = if char_width(folded) == char_width(c) {
            c
        } else {
            folded
        };
        text.push(kept);
        proof {
            assert(pattern@.take(it.index() + 1)[it.index() as int] == c);
            assert(text@ =~= settled_pattern(pattern@.take(it.index() + 1)));
        }
    }
    proof {
        assert(pattern@.take(pattern@.len() as int) == pattern@);
    }
    text
}

impl<'a> Engine<'a> {
    /// The settings that the engine was built with.
    pub open spec fn settings(&self) -> MatchSettings {
        engine_settings(*self)
    }

    /// The pattern that the engine was built for.
    pub open spec fn pattern(&self) -> Seq<char> {
        engine_pattern(*self)
    }

    /// What a search of `haystack` finds.
    pub open spec fn search(&self, haystack: Seq<char>) -> Option<(usize, usize)> {
        best_match(self.settings(), self.pattern(), haystack)
    }

    /// Searches `haystack` for the first match and gives its start and end,
    /// in bytes.
    pub fn find(&self, haystack: &str) -> (found: Option<(usize, usize)>)
        ensures
            found == self.search(haystack@),
    {
        find_match(self, haystack)
    }
}

/// Calls the builders of `MatchConfig`, `PinyinMatchConfig` and
/// `RomajiMatchConfig`. Claimed: the configuration holds exactly the settings
/// handed in, and a part that is `None` is left out of it. The notation set
/// must hold known bits only, as the dictionary is initialised per notation.
#[verifier::external_body]
fn build_config(settings: MatchSettings) -> (config: MatchConfig<'static>)
    requires
        settings.well_formed(),
    ensures
        factory_settings(config) == settings,
{
    MatchConfig::builder()
        .analyze(settings.analyze)
        .is_pattern_partial(settings.pattern_partial)
        .maybe_pinyin(settings.pinyin.map(|p| {
            PinyinMatchConfig::builder(PinyinNotation::from_bits_truncate(p.notations))
                .allow_partial_pattern(p.allow_partial_pattern)
                .build()
        }))
        .maybe_romaji(settings.romaji.map(|r| {
            RomajiMatchConfig::builder().allow_partial_pattern(r.allow_partial_pattern).build()
        }))
        .build()
}

/// Calls `CharCaseExt::to_simple_or_ascii_fold_case`, by which the engine
/// folds its pattern; in this build it is the simple case fold,
/// `to_simple_fold_case`. Claimed: the result depends on the character alone
/// and is given the name [`simple_fold`], and a fold is its own fold: the
/// crate's table maps no character that another one is mapped to.
#[verifier::external_body]
fn fold_char(c: char) -> (folded: char)
    ensures
        folded == simple_fold(c),
        simple_fold(folded) == folded,
{
    c.to_simple_or_ascii_fold_case()
}

/// Calls `IbMatcher::with_config` on a shallow clone of the configuration,
/// which borrows its dictionaries. Claimed: the engine is built with the
/// configuration's settings for the pattern handed in. The call walks the
/// pattern and its folded form in step and cuts the folded form at the byte
/// offsets of the pattern, so every character but the last must keep its
/// width when folded. It builds an automaton whose builder gives up beyond
/// a number of states, and a search with the engine calls itself once for
/// each character matched, so the pattern must be short.
#[verifier::external_body]
fn build_engine<'a>(config: &'a MatchConfig<'a>, pattern: &str) -> (engine: Engine<'a>)
    requires
        builds_as_written(pattern@),
        pattern@.len() <= MAX_PATTERN,
    ensures
        engine_settings(engine) == factory_settings(*config),
        engine_pattern(engine) == pattern@,
{
    Engine { matcher: IbMatcher::with_config(pattern, config.shallow_clone()) }
}

/// Calls `IbMatcher::find`. Claimed: the result depends on nothing but what
/// the engine was built from and the haystack; it is given the name
/// [`best_match`]. The search calls itself once for each character of the
/// pattern that it has matched; every engine is built by [`build_engine`],
/// for at most [`MAX_PATTERN`] characters, which bounds the depth.
#[verifier::external_body]
fn find_match(engine: &Engine<'_>, haystack: &str) -> (found: Option<(usize, usize)>)
    ensures
        found == best_match(engine_settings(*engine), engine_pattern(*engine), haystack@),
{
    engine.matcher.find(haystack).map(|m| (m.start(), m.end()))
}

} // verus!
