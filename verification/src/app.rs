//! The life cycle of the extension inside its host: created, started,
//! stopped, once each and in that order.
//!
//! The controller decides; its caller acts. It is handed what the caller
//! found out about the host, and hands back what the native core is to be
//! started with.

use crate::config::Config;
use crate::config::ConfigModel;
use crate::engine::MatchSettings;
use crate::engine::MatcherFactory;
use crate::fixup::fixup;
use crate::fixup::handed_over_model;
use crate::fixup::is_concrete;
use crate::text::encode_wide;
use crate::text::wide_text;
use vstd::prelude::*;

verus! {

/// The version of the host, as negotiated over its window.
#[derive(Clone, Copy, Debug, PartialEq, Eq, Structural)]
pub struct Version {
    pub major: u32,
    pub minor: u32,
    pub revision: u32,
    pub build: u32,
}

/// Where the host is reached: the handle of its window, and the version it
/// answered with.
#[derive(Clone, Copy, Debug, PartialEq, Eq, Structural)]
pub struct HostAddress {
    pub window: usize,
    pub version: Version,
}

/// Where the controller stands in its life.
#[derive(Clone, Copy, Debug, PartialEq, Eq, Structural)]
pub enum Lifecycle {
    Created,
    Started,
    Stopped,
}

impl Lifecycle {
    /// The place of a state in the order in which the states are passed.
    pub open spec fn rank(self) -> nat {
        match self {
            Lifecycle::Created => 0,
            Lifecycle::Started => 1,
            Lifecycle::Stopped => 2,
        }
    }
}

/// What the native core is started with. It is made for one call and kept by
/// nobody after it.
#[derive(Debug)]
pub struct StartupHandoff {
    /// Whether the host takes part.
    pub host: bool,
    /// The derived settings as they are written, to be serialised for the
    /// native core.
    pub config: Config,
    /// The handle of the host's window, or zero.
    pub ipc_window: usize,
    /// The instance name in UTF-16, closed by two zero units.
    pub instance_name: Vec<u16>,
}

/// The settings that a controller starts out with: those supplied, else those
/// stored, else the defaults, each as it is.
pub open spec fn initial_config(
    supplied: Option<ConfigModel>,
    stored: Option<ConfigModel>,
) -> ConfigModel {
    match supplied {
        Some(config) => config,
        None => match stored {
            Some(config) => config,
            None => ConfigModel::default_value(),
        },
    }
}

/// The settings in `config`, if any, as a mathematical value.
pub open spec fn model_of(config: Option<Config>) -> Option<ConfigModel> {
    match config {
        Some(config) => Some(config@),
        None => None,
    }
}

/// The text of `name`, or the empty text.
pub open spec fn name_or_empty(name: Option<&str>) -> Seq<char> {
    match name {
        Some(name) => name@,
        None => Seq::empty(),
    }
}

/// The window handle that the native core is told: zero where the host's
/// address is not known.
pub open spec fn window_or_zero(host: Option<HostAddress>) -> usize {
    match host {
        Some(address) => address.window,
        None => 0,
    }
}

/// The controller: the settings, what is known of the host, and the factory
/// of match engines.
///
/// `O` is what a scan of the image of the host's executable finds. The
/// controller keeps it for those who need it and never looks inside.
pub struct App<O> {
    config: Config,
    host: Option<HostAddress>,
    offsets: Option<O>,
    factory: MatcherFactory,
    state: Lifecycle,
}

impl<O> App<O> {
    #[verifier::type_invariant]
    spec fn factory_serves_config(&self) -> bool {
        self.factory.settings() == MatchSettings::of_config(self.config@)
    }

    /// The settings.
    pub closed spec fn settings(&self) -> ConfigModel {
        self.config@
    }

    /// The address of the host, where it is known.
    pub closed spec fn host(&self) -> Option<HostAddress> {
        self.host
    }

    /// What was found in the host's image, where the scan succeeded.
    pub closed spec fn process_offsets(&self) -> Option<O> {
        self.offsets
    }

    /// Where the controller stands in its life.
    pub closed spec fn lifecycle(&self) -> Lifecycle {
        self.state
    }

    /// The settings of the engines that the controller's factory builds.
    pub closed spec fn match_settings(&self) -> MatchSettings {
        self.factory.settings()
    }

    /// A controller in the state `Created`.
    ///
    /// `config` is what the host supplied, `stored` what was read from
    /// storage, `host` the host's address if it shows it by now, `offsets`
    /// what a scan of the host's image found. A scan that failed, like a
    /// host that does not show its address yet, is `None` and stops nothing.
    pub fn new(
        config: Option<Config>,
        stored: Option<Config>,
        host: Option<HostAddress>,
        offsets: Option<O>,
    ) -> (app: App<O>)
        ensures
            app.settings() == initial_config(model_of(config), model_of(stored)),
            app.host() == host,
            app.process_offsets() == offsets,
            app.lifecycle() == Lifecycle::Created,
            app.match_settings() == MatchSettings::of_config(app.settings()),
    {
        let config = match config {
            Some(config) => config,
            None => match stored {
                Some(config) => config,
                None => Config::default(),
            },
        };
        let factory = MatcherFactory::new(MatchSettings::from_config(&config));
        App { config, host, offsets, factory, state: Lifecycle::Created }
    }

    /// Starts the controller, once: hands back what the native core is to be
    /// started with, or `None` where the controller is not in the state
    /// `Created`, which then changes nothing.
    pub fn start(&mut self, host_present: bool, instance_name: Option<&str>) -> (handoff: Option<
        StartupHandoff,
    >)
        ensures
            final(self).settings() == old(self).settings(),
            final(self).host() == old(self).host(),
            final(self).process_offsets() == old(self).process_offsets(),
            final(self).match_settings() == old(self).match_settings(),
            old(self).lifecycle() == Lifecycle::Created ==> final(self).lifecycle()
                == Lifecycle::Started,
            old(self).lifecycle() != Lifecycle::Created ==> final(self).lifecycle() == old(
                self,
            ).lifecycle(),
            old(self).lifecycle().rank() <= final(self).lifecycle().rank(),
            handoff is Some <==> old(self).lifecycle() == Lifecycle::Created,
            handoff matches Some(record) ==> {
                &&& record.host == host_present
                &&& record.config@ == handed_over_model(old(self).settings())
                &&& is_concrete(record.config@)
                &&& record.ipc_window == window_or_zero(old(self).host())
                &&& record.instance_name@ == wide_text(name_or_empty(instance_name))
            },
    {
        proof {
            use_type_invariant(&*self);
        }
        match self.state {
            Lifecycle::Created => {
                let ipc_window = match self.host {
                    Some(address) => address.window,
                    None => 0,
                };
                let instance_name = match instance_name {
                    Some(name) => encode_wide(name),
                    None => {
                        proof {
                            reveal_strlit("");
                            assert(""@ =~= Seq::<char>::empty());
                        }
                        encode_wide("")
                    },
                };
                let config = fixup(&self.config).into_written();
                self.state = Lifecycle::Started;
                Some(StartupHandoff { host: host_present, config, ipc_window, instance_name })
            },
            _ => None,
        }
    }

    /// Stops the controller: says whether the native core is to be stopped
    /// now. That is so the first time, and never again.
    pub fn stop(&mut self) -> (stop_core: bool)
        ensures
            stop_core == (old(self).lifecycle() != Lifecycle::Stopped),
            final(self).lifecycle() == Lifecycle::Stopped,
            old(self).lifecycle().rank() <= final(self).lifecycle().rank(),
            final(self).settings() == old(self).settings(),
            final(self).host() == old(self).host(),
            final(self).process_offsets() == old(self).process_offsets(),
            final(self).match_settings() == old(self).match_settings(),
    {
        proof {
            use_type_invariant(&*self);
        }
        let stop_core = match self.state {
            Lifecycle::Stopped => false,
            _ => true,
        };
        self.state = Lifecycle::Stopped;
        stop_core
    }

    /// The settings.
    pub fn config(&self) -> (config: &Config)
        ensures
            config@ == self.settings(),
    {
        &self.config
    }

    /// Gives up the controller for its settings.
    pub fn into_config(self) -> (config: Config)
        ensures
            config@ == self.settings(),
    {
        self.config
    }

    /// The version of the host. It is known once the host has shown its
    /// address; to ask before that is a mistake of the caller.
    pub fn version(&self) -> (version: Version)
        requires
            self.host() is Some,
        ensures
            self.host() matches Some(address) && version == address.version,
    {
        match self.host {
            Some(address) => address.version,
            None => Version { major: 0, minor: 0, revision: 0, build: 0 },
        }
    }

    /// The address of the host, where it is known.
    pub fn host_address(&self) -> (host: Option<HostAddress>)
        ensures
            host == self.host(),
    {
        self.host
    }

    /// What was found in the host's image, where the scan succeeded.
    pub fn offsets(&self) -> (offsets: Option<&O>)
        ensures
            offsets is Some <==> self.process_offsets() is Some,
            offsets matches Some(found) ==> Some(*found) == self.process_offsets(),
    {
        self.offsets.as_ref()
    }

    /// Where the controller stands in its life.
    pub fn state(&self) -> (state: Lifecycle)
        ensures
            state == self.lifecycle(),
    {
        self.state
    }

    /// The factory of match engines.
    pub fn factory(&self) -> (factory: &MatcherFactory)
        ensures
            factory.settings() == self.match_settings(),
            factory.settings() == MatchSettings::of_config(self.settings()),
    {
        proof {
            use_type_invariant(self);
        }
        &self.factory
    }
}

} // verus!
