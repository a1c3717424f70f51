//! The transition rule: what one tick of the polling loop decides.
//!
//! The loop remembers the display that the pointer was on at the previous
//! tick. A tick compares the display it is on now with the remembered one.
//! Only a change does anything: the new display is remembered, whatever
//! follows, and the configuration is then asked for a scene.

use crate::model::{Config, ConfigView};
use vstd::prelude::*;

verus! {

/// The pause between two ticks, in milliseconds, unless the caller sets
/// another.
pub const DEFAULT_TICK_MILLIS: u64 = 10;

/// What one tick decides: the display to remember from now on, and the scene
/// to ask the remote service for, if any.
pub struct Outcome {
    pub cached_monitor: Option<Seq<char>>,
    pub dispatch: Option<Seq<char>>,
}

/// The transition rule. `cached` is the display remembered from the previous
/// tick, `current` the display the pointer is on now; `None` stands for "on
/// no display" and is compared like any other identity.
///
/// Without a change nothing happens. On a change the new display is
/// remembered unconditionally, also when the configuration is disabled or has
/// no scene for it, so that a pointer that lingers never asks twice.
pub open spec fn step(
    cached: Option<Seq<char>>,
    current: Option<Seq<char>>,
    config: ConfigView,
) -> Outcome {
    if current == cached {
        Outcome { cached_monitor: cached, dispatch: None }
    } else {
        Outcome { cached_monitor: current, dispatch: config.scene_for(current) }
    }
}

/// Whether two display identities are the same, "on no display" included.
pub fn same_monitor(a: &Option<String>, b: &Option<String>) -> (same: bool)
    ensures
        same == (a.deep_view() == b.deep_view()),
{
    match (a, b) {
        (Some(x), Some(y)) => *x == *y,
        (None, None) => true,
        _ => false,
    }
}

/// The state of the polling loop: the display remembered from the previous
/// tick, and the pause between ticks.
#[derive(Debug)]
pub struct TransitionLoop {
    cached_monitor: Option<String>,
    tick_millis: u64,
}

impl View for TransitionLoop {
    type V = Option<Seq<char>>;

    /// The remembered display.
    closed spec fn view(&self) -> Option<Seq<char>> {
        self.cached_monitor.deep_view()
    }
}

impl TransitionLoop {
    /// The pause between ticks that this loop was set up with.
    pub closed spec fn spec_tick_millis(&self) -> u64 {
        self.tick_millis
    }

    /// Starts the loop from the display found by the one unconditional
    /// lookup that precedes the first tick. That display is remembered as
    /// it is: being on it at the start is no entry. The pause between ticks
    /// is the default.
    pub fn start(initial: Option<String>) -> (this: TransitionLoop)
        ensures
            this@ == initial.deep_view(),
            this.spec_tick_millis() == DEFAULT_TICK_MILLIS,
    {
        TransitionLoop { cached_monitor: initial, tick_millis: DEFAULT_TICK_MILLIS }
    }

    /// The same loop with another pause between ticks.
    pub fn with_tick_millis(self, millis: u64) -> (this: TransitionLoop)
        ensures
            this@ == self@,
            this.spec_tick_millis() == millis,
    {
        TransitionLoop { cached_monitor: self.cached_monitor, tick_millis: millis }
    }

    /// The pause between ticks, in milliseconds.
    #[verifier::when_used_as_spec(spec_tick_millis)]
    pub fn tick_millis(&self) -> (millis: u64)
        ensures
            millis == self.spec_tick_millis(),
    {
        self.tick_millis
    }

    /// The display remembered from the previous tick.
    pub fn cached_monitor(&self) -> (cached: &Option<String>)
        ensures
            cached.deep_view() == self@,
    {
        &self.cached_monitor
    }

    /// The first half of a tick: compares `current` with the remembered
    /// display and remembers `current`. Says whether the display changed.
    ///
    /// A caller that keeps the configuration behind a lock calls this first
    /// and takes the lock only when the answer is `true`.
    pub fn observe(&mut self, current: Option<String>) -> (changed: bool)
        ensures
            changed == (current.deep_view() != old(self)@),
            final(self)@ == current.deep_view(),
            final(self).spec_tick_millis() == old(self).spec_tick_millis(),
    {
        if same_monitor(&current, &self.cached_monitor) {
            false
        } else {
            self.cached_monitor = current;
            true
        }
    }

    /// One whole tick: applies the transition rule to the display the
    /// pointer is on now and the configuration in force, and returns the
    /// scene to ask the remote service for, if any.
    pub fn tick(&mut self, current: Option<String>, config: &Config) -> (dispatch: Option<String>)
        ensures
            final(self)@ == step(old(self)@, current.deep_view(), config@).cached_monitor,
            dispatch.deep_view() == step(old(self)@, current.deep_view(), config@).dispatch,
            final(self).spec_tick_millis() == old(self).spec_tick_millis(),
    {
        if self.observe(current) {
            config.scene_for(&self.cached_monitor)
        } else {
            None
        }
    }
}

} // verus!
