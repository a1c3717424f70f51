//! Loading a configuration and holding the one in force.
//!
//! The store owns the current configuration. It hands out read access only,
//! and changes by whole-value replacement only, so a reader sees the old
//! configuration or the new one and never a mixture. A caller that shares the
//! store between a watcher and the polling loop keeps it behind a lock; every
//! operation here is a short critical section that does no I/O.

use crate::model::{Config, ConfigView};
use vstd::prelude::*;

verus! {

/// Why a configuration could not be loaded.
#[derive(Clone, Copy, Debug, PartialEq, Eq, Structural)]
pub enum LoadError {
    /// The backing resource could not be opened.
    Unreadable,
    /// The contents are not a configuration: a field is missing or has the
    /// wrong type.
    Malformed,
}

/// What came of reading the backing resource of the configuration.
#[derive(Debug)]
pub enum Source {
    /// The resource could not be opened.
    Unopened,
    /// The resource was read, but its contents did not parse into a
    /// configuration.
    Unparsed,
    /// The resource was read and its contents parsed into this configuration.
    Parsed(Config),
}

/// Turns what came of reading the backing resource into a configuration or
/// the reason why there is none.
///
/// Nothing but the structure is judged: a parsed configuration is accepted as
/// it is, with an empty list of mappings or with several mappings for one
/// display.
pub fn load(source: Source) -> (loaded: Result<Config, LoadError>)
    ensures
        match source {
            Source::Unopened => loaded == Err::<Config, LoadError>(LoadError::Unreadable),
            Source::Unparsed => loaded == Err::<Config, LoadError>(LoadError::Malformed),
            Source::Parsed(config) => loaded == Ok::<Config, LoadError>(config),
        },
{
    match source {
        Source::Unopened => Err(LoadError::Unreadable),
        Source::Unparsed => Err(LoadError::Malformed),
        Source::Parsed(config) => Ok(config),
    }
}

/// The configuration in force once a change notification with `source` has
/// been handled, where `held` was in force before: the parsed configuration
/// if there is one, else `held`.
pub open spec fn after_reload(held: ConfigView, source: Source) -> ConfigView {
    match source {
        Source::Parsed(config) => config@,
        _ => held,
    }
}

/// Reload attempts are independent and idempotent. Handling the same
/// notification twice leaves in force what handling it once does; a reload
/// that succeeds leaves in force what it would have left without the
/// attempts before it; a reload that fails changes nothing. An editor that
/// writes a file in several steps does no harm.
pub proof fn lemma_reloads_are_independent(held: ConfigView, first: Source, second: Source)
    ensures
        after_reload(after_reload(held, first), first) == after_reload(held, first),
        second is Parsed ==> after_reload(after_reload(held, first), second) == after_reload(
            held,
            second,
        ),
        !(second is Parsed) ==> after_reload(after_reload(held, first), second) == after_reload(
            held,
            first,
        ),
{
}

/// The holder of the configuration in force.
#[derive(Debug)]
pub struct ConfigStore {
    current: Config,
}

impl View for ConfigStore {
    type V = ConfigView;

    /// The configuration in force.
    closed spec fn view(&self) -> ConfigView {
        self.current@
    }
}

impl ConfigStore {
    /// A store that holds `initial`.
    pub fn new(initial: Config) -> (store: ConfigStore)
        ensures
            store@ == initial@,
    {
        ConfigStore { current: initial }
    }

    /// The store at start-up: there is one only if the first load succeeds.
    /// Without a valid initial configuration the caller must not go on.
    pub fn open(source: Source) -> (opened: Result<ConfigStore, LoadError>)
        ensures
            match source {
                Source::Unopened => opened matches Err(e) && e == LoadError::Unreadable,
                Source::Unparsed => opened matches Err(e) && e == LoadError::Malformed,
                Source::Parsed(config) => opened matches Ok(store) && store@ == config@,
            },
    {
        match load(source) {
            Ok(config) => Ok(ConfigStore::new(config)),
            Err(e) => Err(e),
        }
    }

    /// Puts `new` in force in place of the configuration held so far.
    pub fn replace(&mut self, new: Config)
        ensures
            final(self)@ == new@,
    {
        self.current = new;
    }

    /// The configuration in force, for reading.
    pub fn read(&self) -> (config: &Config)
        ensures
            config@ == self@,
    {
        &self.current
    }

    /// Handles one change notification: loads from `source` and, if that
    /// succeeds, puts the loaded configuration in force. If it fails the
    /// configuration held so far stays in force, and the reason is returned
    /// for the caller to report. A broken edit never blanks out a working
    /// configuration.
    pub fn reload(&mut self, source: Source) -> (outcome: Result<(), LoadError>)
        ensures
            final(self)@ == after_reload(old(self)@, source),
            match source {
                Source::Unopened => outcome == Err::<(), LoadError>(LoadError::Unreadable),
                Source::Unparsed => outcome == Err::<(), LoadError>(LoadError::Malformed),
                Source::Parsed(_) => outcome == Ok::<(), LoadError>(()),
            },
    {
        match load(source) {
            Ok(config) => {
                self.replace(config);
                Ok(())
            },
            Err(e) => Err(e),
        }
    }

    /// The scene to switch to when the pointer has just entered `monitor`,
    /// under the configuration in force. The answer is a copy: once it is
    /// returned the caller needs the store no longer and can release it
    /// before talking to the remote service.
    pub fn scene_for(&self, monitor: &Option<String>) -> (scene: Option<String>)
        ensures
            scene.deep_view() == self@.scene_for(monitor.deep_view()),
    {
        self.current.scene_for(monitor)
    }
}

} // verus!
