//! The configuration model: typed, nested settings with their defaults.
//!
//! The values here are passive. They are loaded once and then only read; the
//! one step that resolves policy before the settings leave the process lives
//! in [`crate::fixup`].

use vstd::prelude::*;

verus! {

/// Bit of the first-letter notation ("p", "y") in a notation set.
pub const NOTATION_ASCII_FIRST_LETTER: u32 = 0x1;

/// Bit of the plain full-pinyin notation ("pin", "yin").
pub const NOTATION_ASCII: u32 = 0x2;

/// Bit of the full-pinyin notation with a tone digit ("pin1", "yin1").
pub const NOTATION_ASCII_TONE: u32 = 0x4;

/// Bit of the Zhineng ABC double-pinyin scheme.
pub const NOTATION_DILETTER_ABC: u32 = 0x10;

/// Bit of the Pinyin Jiajia double-pinyin scheme.
pub const NOTATION_DILETTER_JIAJIA: u32 = 0x20;

/// Bit of the Microsoft double-pinyin scheme.
pub const NOTATION_DILETTER_MICROSOFT: u32 = 0x40;

/// Bit of the Thunisoft (Ziguang) double-pinyin scheme.
pub const NOTATION_DILETTER_THUNISOFT: u32 = 0x80;

/// Bit of the Xiaohe double-pinyin scheme.
pub const NOTATION_DILETTER_XIAOHE: u32 = 0x100;

/// Bit of the Ziranma double-pinyin scheme.
pub const NOTATION_DILETTER_ZRM: u32 = 0x200;

/// The terminal invocation used when the settings name none.
pub const DEFAULT_TERMINAL: &'static str = "wt -d ${fileDirname}";

/// `bit` when `on`, nothing otherwise.
pub open spec fn notation_bit(on: bool, bit: u32) -> u32 {
    if on {
        bit
    } else {
        0
    }
}

/// Whether the notation of `bit` is in the notation set `bits`.
pub open spec fn has_notation(bits: u32, bit: u32) -> bool {
    bits & bit != 0
}

/// Adds `bit` to the notation set `bits` when `on`.
fn include_notation(bits: u32, on: bool, bit: u32) -> (union: u32)
    ensures
        union == bits | notation_bit(on, bit),
{
    if on {
        bits | bit
    } else {
        assert(bits | 0 == bits) by (bit_vector);
        bits
    }
}

/// A union of distinct notation bits holds a notation exactly where its own
/// part is there.
proof fn lemma_union_of_notations(
    first_letter: u32,
    ascii: u32,
    tone: u32,
    abc: u32,
    jiajia: u32,
    microsoft: u32,
    thunisoft: u32,
    xiaohe: u32,
    zrm: u32,
)
    by (bit_vector)
    requires
        first_letter == 0 || first_letter == 0x1,
        ascii == 0 || ascii == 0x2,
        tone == 0 || tone == 0x4,
        abc == 0 || abc == 0x10,
        jiajia == 0 || jiajia == 0x20,
        microsoft == 0 || microsoft == 0x40,
        thunisoft == 0 || thunisoft == 0x80,
        xiaohe == 0 || xiaohe == 0x100,
        zrm == 0 || zrm == 0x200,
    ensures
        ({
            let bits = first_letter | ascii | tone | abc | jiajia | microsoft | thunisoft | xiaohe
                | zrm;
            &&& bits <= 0x3f7
            &&& bits & 0x1 != 0 <==> first_letter != 0
            &&& bits & 0x2 != 0 <==> ascii != 0
            &&& bits & 0x4 != 0 <==> tone != 0
            &&& bits & 0x10 != 0 <==> abc != 0
            &&& bits & 0x20 != 0 <==> jiajia != 0
            &&& bits & 0x40 != 0 <==> microsoft != 0
            &&& bits & 0x80 != 0 <==> thunisoft != 0
            &&& bits & 0x100 != 0 <==> xiaohe != 0
            &&& bits & 0x200 != 0 <==> zrm != 0
        }),
{
}

/// How the native core runs a phonetic search.
#[derive(Clone, Copy, Debug, PartialEq, Eq, Structural)]
pub enum PinyinSearchMode {
    /// Let the extension choose.
    Auto,
    /// Hook the host's PCRE2 matching.
    Pcre2,
    /// Hook the host's PCRE matching.
    Pcre,
    /// Rewrite the text of the search box.
    Edit,
}

impl Default for PinyinSearchMode {
    fn default() -> (mode: Self)
        ensures
            mode == PinyinSearchMode::Auto,
    {
        PinyinSearchMode::Auto
    }
}

/// General search settings.
#[derive(Clone, Copy, Debug, PartialEq, Eq, Structural)]
pub struct SearchConfig {
    pub enable: bool,
}

impl SearchConfig {
    /// The settings that hold when nothing is stored.
    pub open spec fn default_value() -> Self {
        SearchConfig { enable: true }
    }
}

impl Default for SearchConfig {
    fn default() -> (config: Self)
        ensures
            config == Self::default_value(),
    {
        SearchConfig { enable: true }
    }
}

/// Settings of the pinyin search.
#[derive(Clone, Copy, Debug, PartialEq, Eq, Structural)]
pub struct PinyinSearchConfig {
    pub enable: bool,
    pub mode: PinyinSearchMode,
    /// Whether a pattern may stop in the middle of a pinyin; unset means no.
    pub allow_partial_match: Option<bool>,
    pub initial_letter: bool,
    pub pinyin_ascii: bool,
    pub pinyin_ascii_digit: bool,
    pub double_pinyin_abc: bool,
    pub double_pinyin_jiajia: bool,
    pub double_pinyin_microsoft: bool,
    pub double_pinyin_thunisoft: bool,
    pub double_pinyin_xiaohe: bool,
    pub double_pinyin_zrm: bool,
}

impl PinyinSearchConfig {
    /// The settings that hold when nothing is stored.
    pub open spec fn default_value() -> Self {
        PinyinSearchConfig {
            enable: true,
            mode: PinyinSearchMode::Auto,
            allow_partial_match: None,
            initial_letter: true,
            pinyin_ascii: true,
            pinyin_ascii_digit: false,
            double_pinyin_abc: false,
            double_pinyin_jiajia: false,
            double_pinyin_microsoft: false,
            double_pinyin_thunisoft: false,
            double_pinyin_xiaohe: false,
            double_pinyin_zrm: false,
        }
    }

    /// The notation set: the union of the bits of the notations that are
    /// switched on.
    pub open spec fn notation_bits(&self) -> u32 {
        notation_bit(self.initial_letter, NOTATION_ASCII_FIRST_LETTER) | notation_bit(
            self.pinyin_ascii,
            NOTATION_ASCII,
        ) | notation_bit(self.pinyin_ascii_digit, NOTATION_ASCII_TONE) | notation_bit(
            self.double_pinyin_abc,
            NOTATION_DILETTER_ABC,
        ) | notation_bit(self.double_pinyin_jiajia, NOTATION_DILETTER_JIAJIA) | notation_bit(
            self.double_pinyin_microsoft,
            NOTATION_DILETTER_MICROSOFT,
        ) | notation_bit(self.double_pinyin_thunisoft, NOTATION_DILETTER_THUNISOFT) | notation_bit(
            self.double_pinyin_xiaohe,
            NOTATION_DILETTER_XIAOHE,
        ) | notation_bit(self.double_pinyin_zrm, NOTATION_DILETTER_ZRM)
    }

    /// A notation is in the notation set exactly where its switch is on, and
    /// the set holds nothing else.
    pub proof fn lemma_notations_are_the_switches(&self)
        ensures
            has_notation(self.notation_bits(), NOTATION_ASCII_FIRST_LETTER) <==> self.initial_letter,
            has_notation(self.notation_bits(), NOTATION_ASCII) <==> self.pinyin_ascii,
            has_notation(self.notation_bits(), NOTATION_ASCII_TONE) <==> self.pinyin_ascii_digit,
            has_notation(self.notation_bits(), NOTATION_DILETTER_ABC) <==> self.double_pinyin_abc,
            has_notation(self.notation_bits(), NOTATION_DILETTER_JIAJIA)
                <==> self.double_pinyin_jiajia,
            has_notation(self.notation_bits(), NOTATION_DILETTER_MICROSOFT)
                <==> self.double_pinyin_microsoft,
            has_notation(self.notation_bits(), NOTATION_DILETTER_THUNISOFT)
                <==> self.double_pinyin_thunisoft,
            has_notation(self.notation_bits(), NOTATION_DILETTER_XIAOHE)
                <==> self.double_pinyin_xiaohe,
            has_notation(self.notation_bits(), NOTATION_DILETTER_ZRM) <==> self.double_pinyin_zrm,
            self.notation_bits() <= 0x3f7,
    {
        lemma_union_of_notations(
            notation_bit(self.initial_letter, NOTATION_ASCII_FIRST_LETTER),
            notation_bit(self.pinyin_ascii, NOTATION_ASCII),
            notation_bit(self.pinyin_ascii_digit, NOTATION_ASCII_TONE),
            notation_bit(self.double_pinyin_abc, NOTATION_DILETTER_ABC),
            notation_bit(self.double_pinyin_jiajia, NOTATION_DILETTER_JIAJIA),
            notation_bit(self.double_pinyin_microsoft, NOTATION_DILETTER_MICROSOFT),
            notation_bit(self.double_pinyin_thunisoft, NOTATION_DILETTER_THUNISOFT),
            notation_bit(self.double_pinyin_xiaohe, NOTATION_DILETTER_XIAOHE),
            notation_bit(self.double_pinyin_zrm, NOTATION_DILETTER_ZRM),
        );
    }

    /// Whether a pattern may stop in the middle of a pinyin.
    pub open spec fn partial_match_allowed(&self) -> bool {
        match self.allow_partial_match {
            Some(allowed) => allowed,
            None => false,
        }
    }

    /// The romanization notations by which a pattern is read.
    pub fn notations(&self) -> (bits: u32)
        ensures
            bits == self.notation_bits(),
            bits <= 0x3f7,
    {
        let bits: u32 = if self.initial_letter {
            NOTATION_ASCII_FIRST_LETTER
        } else {
            0
        };
        let bits: u32 = include_notation(bits, self.pinyin_ascii, NOTATION_ASCII);
        let bits: u32 = include_notation(bits, self.pinyin_ascii_digit, NOTATION_ASCII_TONE);
        let bits: u32 = include_notation(bits, self.double_pinyin_abc, NOTATION_DILETTER_ABC);
        let bits: u32 = include_notation(bits, self.double_pinyin_jiajia, NOTATION_DILETTER_JIAJIA);
        let bits: u32 = include_notation(
            bits,
            self.double_pinyin_microsoft,
            NOTATION_DILETTER_MICROSOFT,
        );
        let bits: u32 = include_notation(
            bits,
            self.double_pinyin_thunisoft,
            NOTATION_DILETTER_THUNISOFT,
        );
        let bits: u32 = include_notation(bits, self.double_pinyin_xiaohe, NOTATION_DILETTER_XIAOHE);
        let bits: u32 = include_notation(bits, self.double_pinyin_zrm, NOTATION_DILETTER_ZRM);
        proof {
            self.lemma_notations_are_the_switches();
        }
        bits
    }

    /// Whether a pattern may stop in the middle of a pinyin.
    pub fn allows_partial_match(&self) -> (allowed: bool)
        ensures
            allowed == self.partial_match_allowed(),
    {
        match self.allow_partial_match {
            Some(allowed) => allowed,
            None => false,
        }
    }
}

impl Default for PinyinSearchConfig {
    fn default() -> (config: Self)
        ensures
            config == Self::default_value(),
    {
        PinyinSearchConfig {
            enable: true,
            mode: PinyinSearchMode::Auto,
            allow_partial_match: None,
            initial_letter: true,
            pinyin_ascii: true,
            pinyin_ascii_digit: false,
            double_pinyin_abc: false,
            double_pinyin_jiajia: false,
            double_pinyin_microsoft: false,
            double_pinyin_thunisoft: false,
            double_pinyin_xiaohe: false,
            double_pinyin_zrm: false,
        }
    }
}

/// Settings of the romaji search.
#[derive(Clone, Copy, Debug, PartialEq, Eq, Structural)]
pub struct RomajiSearchConfig {
    pub enable: bool,
    /// Whether a pattern may stop in the middle of a kana.
    pub allow_partial_match: bool,
}

impl RomajiSearchConfig {
    /// The settings that hold when nothing is stored.
    pub open spec fn default_value() -> Self {
        RomajiSearchConfig { enable: false, allow_partial_match: false }
    }
}

impl Default for RomajiSearchConfig {
    fn default() -> (config: Self)
        ensures
            config == Self::default_value(),
    {
        RomajiSearchConfig { enable: false, allow_partial_match: false }
    }
}

/// What quick select does in the result list.
#[derive(Debug)]
pub struct ResultListConfig {
    /// The terminal invocation; empty means [`DEFAULT_TERMINAL`].
    pub terminal: String,
}

/// A [`ResultListConfig`] as a mathematical value.
pub struct ResultListModel {
    pub terminal: Seq<char>,
}

impl View for ResultListConfig {
    type V = ResultListModel;

    open spec fn view(&self) -> ResultListModel {
        ResultListModel { terminal: self.terminal@ }
    }
}

/// The terminal invocation that a stored one stands for: the default where
/// none is set, else the stored one.
pub open spec fn terminal_command_of(terminal: Seq<char>) -> Seq<char> {
    if terminal.len() == 0 {
        DEFAULT_TERMINAL@
    } else {
        terminal
    }
}

impl ResultListConfig {
    /// The terminal invocation to use.
    pub fn terminal_command(&self) -> (command: &str)
        ensures
            command@ == terminal_command_of(self.terminal@),
    {
        if self.terminal.as_str().is_empty() {
            DEFAULT_TERMINAL
        } else {
            self.terminal.as_str()
        }
    }
}

impl Clone for ResultListConfig {
    fn clone(&self) -> (copy: Self)
        ensures
            copy == *self,
    {
        ResultListConfig { terminal: self.terminal.clone() }
    }
}

impl Default for ResultListConfig {
    fn default() -> (config: Self)
        ensures
            config@.terminal == Seq::<char>::empty(),
    {
        ResultListConfig { terminal: String::new() }
    }
}

/// Settings of quick select.
#[derive(Debug)]
pub struct QuickSelectConfig {
    pub enable: bool,
    pub result_list: ResultListConfig,
}

/// A [`QuickSelectConfig`] as a mathematical value.
pub struct QuickSelectModel {
    pub enable: bool,
    pub result_list: ResultListModel,
}

impl View for QuickSelectConfig {
    type V = QuickSelectModel;

    open spec fn view(&self) -> QuickSelectModel {
        QuickSelectModel { enable: self.enable, result_list: self.result_list@ }
    }
}

impl QuickSelectModel {
    /// The settings that hold when nothing is stored.
    pub open spec fn default_value() -> Self {
        QuickSelectModel {
            enable: true,
            result_list: ResultListModel { terminal: Seq::<char>::empty() },
        }
    }
}

impl Clone for QuickSelectConfig {
    fn clone(&self) -> (copy: Self)
        ensures
            copy == *self,
    {
        QuickSelectConfig { enable: self.enable, result_list: self.result_list.clone() }
    }
}

impl Default for QuickSelectConfig {
    fn default() -> (config: Self)
        ensures
            config@ == QuickSelectModel::default_value(),
    {
        QuickSelectConfig { enable: true, result_list: ResultListConfig::default() }
    }
}

/// Settings of the update check.
#[derive(Clone, Copy, Debug, PartialEq, Eq, Structural)]
pub struct UpdateConfig {
    pub enable: bool,
    /// Whether pre-releases are offered; unset means no.
    pub prerelease: Option<bool>,
}

impl UpdateConfig {
    /// The settings that hold when nothing is stored.
    pub open spec fn default_value() -> Self {
        UpdateConfig { enable: true, prerelease: None }
    }
}

impl Default for UpdateConfig {
    fn default() -> (config: Self)
        ensures
            config == Self::default_value(),
    {
        UpdateConfig { enable: true, prerelease: None }
    }
}

/// All settings of the extension.
#[derive(Debug)]
pub struct Config {
    pub search: SearchConfig,
    pub pinyin_search: PinyinSearchConfig,
    pub romaji_search: RomajiSearchConfig,
    pub quick_select: QuickSelectConfig,
    pub update: UpdateConfig,
}

/// A [`Config`] as a mathematical value.
pub struct ConfigModel {
    pub search: SearchConfig,
    pub pinyin_search: PinyinSearchConfig,
    pub romaji_search: RomajiSearchConfig,
    pub quick_select: QuickSelectModel,
    pub update: UpdateConfig,
}

impl View for Config {
    type V = ConfigModel;

    open spec fn view(&self) -> ConfigModel {
        ConfigModel {
            search: self.search,
            pinyin_search: self.pinyin_search,
            romaji_search: self.romaji_search,
            quick_select: self.quick_select@,
            update: self.update,
        }
    }
}

impl ConfigModel {
    /// The settings that hold when nothing is stored.
    pub open spec fn default_value() -> Self {
        ConfigModel {
            search: SearchConfig::default_value(),
            pinyin_search: PinyinSearchConfig::default_value(),
            romaji_search: RomajiSearchConfig::default_value(),
            quick_select: QuickSelectModel::default_value(),
            update: UpdateConfig::default_value(),
        }
    }
}

impl Clone for Config {
    fn clone(&self) -> (copy: Self)
        ensures
            copy == *self,
    {
        Config {
            search: self.search,
            pinyin_search: self.pinyin_search,
            romaji_search: self.romaji_search,
            quick_select: self.quick_select.clone(),
            update: self.update,
        }
    }
}

impl Default for Config {
    fn default() -> (config: Self)
        ensures
            config@ == ConfigModel::default_value(),
    {
        Config {
            search: SearchConfig::default(),
            pinyin_search: PinyinSearchConfig::default(),
            romaji_search: RomajiSearchConfig::default(),
            quick_select: QuickSelectConfig::default(),
            update: UpdateConfig::default(),
        }
    }
}

} // verus!
