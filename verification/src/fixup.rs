//! The step that makes the settings concrete before they are handed to the
//! native core: nothing automatic or unset is passed on.

use crate::config::terminal_command_of;
use crate::config::Config;
use crate::config::ConfigModel;
use crate::config::PinyinSearchConfig;
use crate::config::PinyinSearchMode;
use crate::config::QuickSelectConfig;
use crate::config::QuickSelectModel;
use crate::config::ResultListConfig;
use crate::config::ResultListModel;
use crate::config::UpdateConfig;
use crate::config::DEFAULT_TERMINAL;
use vstd::prelude::*;

verus! {

/// The mode that the native core is told: the automatic choice becomes
/// `Pcre2`, a chosen mode stays.
pub open spec fn resolved_mode(mode: PinyinSearchMode) -> PinyinSearchMode {
    match mode {
        PinyinSearchMode::Auto => PinyinSearchMode::Pcre2,
        chosen => chosen,
    }
}

/// The settings as the native core gets them.
///
/// Romaji search runs on the pinyin path, so pinyin search is switched on
/// where either of the two is; the mode is resolved; the terminal invocation
/// is spelled out. Everything else is passed on as it is.
pub open spec fn derived_model(config: ConfigModel) -> ConfigModel {
    ConfigModel {
        pinyin_search: PinyinSearchConfig {
            enable: config.pinyin_search.enable || config.romaji_search.enable,
            mode: resolved_mode(config.pinyin_search.mode),
            ..config.pinyin_search
        },
        quick_select: QuickSelectModel {
            result_list: ResultListModel {
                terminal: terminal_command_of(config.quick_select.result_list.terminal),
            },
            ..config.quick_select
        },
        ..config
    }
}

/// Nothing in the settings is left for the reader to resolve.
pub open spec fn is_concrete(config: ConfigModel) -> bool {
    &&& config.pinyin_search.mode != PinyinSearchMode::Auto
    &&& config.quick_select.result_list.terminal.len() > 0
    &&& config.romaji_search.enable ==> config.pinyin_search.enable
}

/// Settings that are ready for the native core.
#[derive(Debug)]
pub struct DerivedConfig {
    config: Config,
}

impl View for DerivedConfig {
    type V = ConfigModel;

    closed spec fn view(&self) -> ConfigModel {
        self.config@
    }
}

impl DerivedConfig {
    #[verifier::type_invariant]
    spec fn concrete(&self) -> bool {
        is_concrete(self.config@)
    }

    /// The settings to serialise.
    pub fn config(&self) -> (config: &Config)
        ensures
            config@ == self@,
            is_concrete(config@),
    {
        proof {
            use_type_invariant(self);
        }
        &self.config
    }

    /// The settings as they are written for the native core.
    pub fn into_written(self) -> (written: Config)
        ensures
            written@ == written_model(self@),
            is_concrete(written@),
    {
        proof {
            use_type_invariant(&self);
        }
        let allow_partial_match = Some(self.config.pinyin_search.allows_partial_match());
        let prerelease = Some(
            match self.config.update.prerelease {
                Some(on) => on,
                None => false,
            },
        );
        Config {
            search: self.config.search,
            pinyin_search: PinyinSearchConfig { allow_partial_match, ..self.config.pinyin_search },
            romaji_search: self.config.romaji_search,
            quick_select: self.config.quick_select,
            update: UpdateConfig { prerelease, ..self.config.update },
        }
    }

    /// Gives the settings up.
    pub fn into_config(self) -> (config: Config)
        ensures
            config@ == self@,
            is_concrete(config@),
    {
        proof {
            use_type_invariant(&self);
        }
        self.config
    }
}

/// The terminal invocation that stands for an unset one is not itself unset.
pub proof fn lemma_default_terminal_is_set()
    ensures
        DEFAULT_TERMINAL@.len() > 0,
        forall|terminal: Seq<char>| #[trigger] terminal_command_of(terminal).len() > 0,
{
    reveal_strlit("wt -d ${fileDirname}");
}

/// Makes the settings concrete for the native core. The settings handed in
/// are left as they are.
pub fn fixup(config: &Config) -> (derived: DerivedConfig)
    ensures
        derived@ == derived_model(config@),
        is_concrete(derived@),
        derived@.pinyin_search.enable == (config@.pinyin_search.enable
            || config@.romaji_search.enable),
        config@.pinyin_search.mode == PinyinSearchMode::Auto ==> derived@.pinyin_search.mode
            == PinyinSearchMode::Pcre2,
        config@.pinyin_search.mode != PinyinSearchMode::Auto ==> derived@.pinyin_search.mode
            == config@.pinyin_search.mode,
        derived@.quick_select.result_list.terminal == terminal_command_of(
            config@.quick_select.result_list.terminal,
        ),
{
    let mode = match config.pinyin_search.mode {
        PinyinSearchMode::Auto => PinyinSearchMode::Pcre2,
        chosen => chosen,
    };
    let terminal = config.quick_select.result_list.terminal_command().to_owned();
    proof {
        lemma_default_terminal_is_set();
    }
    DerivedConfig {
        config: Config {
            search: config.search,
            pinyin_search: PinyinSearchConfig {
                enable: config.pinyin_search.enable || config.romaji_search.enable,
                mode,
                ..config.pinyin_search
            },
            romaji_search: config.romaji_search,
            quick_select: QuickSelectConfig {
                enable: config.quick_select.enable,
                result_list: ResultListConfig { terminal },
            },
            update: config.update,
        },
    }
}

/// A switch that may be unset, read as its reader does: unset is off.
pub open spec fn switched_on(switch: Option<bool>) -> bool {
    match switch {
        Some(on) => on,
        None => false,
    }
}

/// The settings as they are written for the native core: a switch that is
/// unset is written as off. Settings that differ only in how they write down
/// a default are thereby written as the same text.
pub open spec fn written_model(config: ConfigModel) -> ConfigModel {
    ConfigModel {
        pinyin_search: PinyinSearchConfig {
            allow_partial_match: Some(switched_on(config.pinyin_search.allow_partial_match)),
            ..config.pinyin_search
        },
        update: UpdateConfig {
            prerelease: Some(switched_on(config.update.prerelease)),
            ..config.update
        },
        ..config
    }
}

/// What the native core is handed for `config`: the derived settings, as
/// they are written.
pub open spec fn handed_over_model(config: ConfigModel) -> ConfigModel {
    written_model(derived_model(config))
}

/// Two sets of settings that differ at most in how they write down a
/// default: an unset switch against one that is off, an unset terminal
/// invocation against the default one.
pub open spec fn same_but_for_defaults(a: ConfigModel, b: ConfigModel) -> bool {
    &&& a.search == b.search
    &&& PinyinSearchConfig { allow_partial_match: None, ..a.pinyin_search }
        == PinyinSearchConfig { allow_partial_match: None, ..b.pinyin_search }
    &&& switched_on(a.pinyin_search.allow_partial_match) == switched_on(
        b.pinyin_search.allow_partial_match,
    )
    &&& a.romaji_search == b.romaji_search
    &&& a.quick_select.enable == b.quick_select.enable
    &&& terminal_command_of(a.quick_select.result_list.terminal) == terminal_command_of(
        b.quick_select.result_list.terminal,
    )
    &&& a.update.enable == b.update.enable
    &&& switched_on(a.update.prerelease) == switched_on(b.update.prerelease)
}

/// The default settings as a settings file states them: every default is
/// written out.
pub open spec fn stored_default() -> ConfigModel {
    let default = ConfigModel::default_value();
    ConfigModel {
        pinyin_search: PinyinSearchConfig {
            allow_partial_match: Some(false),
            ..default.pinyin_search
        },
        quick_select: QuickSelectModel {
            result_list: ResultListModel { terminal: DEFAULT_TERMINAL@ },
            ..default.quick_select
        },
        update: UpdateConfig { prerelease: Some(false), ..default.update },
        ..default
    }
}

/// Settings that are concrete are handed on as they are: the step changes
/// nothing the second time.
pub proof fn lemma_concrete_is_fixed(config: ConfigModel)
    requires
        is_concrete(config),
    ensures
        derived_model(config) == config,
        derived_model(derived_model(config)) == derived_model(config),
{
}

/// What the step hands on is concrete, whatever it is given.
pub proof fn lemma_derived_is_concrete(config: ConfigModel)
    ensures
        is_concrete(derived_model(config)),
        derived_model(derived_model(config)) == derived_model(config),
{
    lemma_default_terminal_is_set();
}

/// Settings that differ only in whether the terminal invocation is unset or
/// is the default one are handed on as the same value, and so serialise to
/// the same text.
pub proof fn lemma_unset_terminal_is_forgotten(a: ConfigModel, b: ConfigModel)
    requires
        a.search == b.search,
        a.pinyin_search == b.pinyin_search,
        a.romaji_search == b.romaji_search,
        a.quick_select.enable == b.quick_select.enable,
        terminal_command_of(a.quick_select.result_list.terminal) == terminal_command_of(
            b.quick_select.result_list.terminal,
        ),
        a.update == b.update,
    ensures
        derived_model(a) == derived_model(b),
{
}

/// Settings that differ at most in how they write down a default are handed
/// over as the same value, and so as the same text. Derived, they differ at
/// most in how they write down an unset switch; the terminal invocation is
/// the same in both.
pub proof fn lemma_defaults_survive(a: ConfigModel, b: ConfigModel)
    requires
        same_but_for_defaults(a, b),
    ensures
        handed_over_model(a) == handed_over_model(b),
        same_but_for_defaults(derived_model(a), derived_model(b)),
        derived_model(a).quick_select == derived_model(b).quick_select,
        derived_model(a).search == derived_model(b).search,
        derived_model(a).romaji_search == derived_model(b).romaji_search,
        derived_model(a).pinyin_search.enable == derived_model(b).pinyin_search.enable,
        derived_model(a).pinyin_search.mode == derived_model(b).pinyin_search.mode,
{
    lemma_default_terminal_is_set();
}

/// The default settings read back from a settings file and the default
/// settings made in code are handed over as the same value, and so as the
/// same text.
pub proof fn lemma_stored_default_is_default()
    ensures
        handed_over_model(stored_default()) == handed_over_model(ConfigModel::default_value()),
        same_but_for_defaults(stored_default(), ConfigModel::default_value()),
        same_but_for_defaults(
            derived_model(stored_default()),
            derived_model(ConfigModel::default_value()),
        ),
        derived_model(stored_default()).quick_select == derived_model(
            ConfigModel::default_value(),
        ).quick_select,
{
    lemma_default_terminal_is_set();
    lemma_defaults_survive(stored_default(), ConfigModel::default_value());
}

} // verus!
