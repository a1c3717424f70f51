//! The configuration snapshot and the rule that picks a scene for a display.

use crate::search::{first_where, is_first, lemma_first_absent, lemma_first_found};
use vstd::prelude::*;

verus! {

/// One rule: when the pointer enters the display called `monitor_name`,
/// switch to the scene called `scene_name`.
#[derive(Debug)]
pub struct Mapping {
    pub monitor_name: String,
    pub scene_name: String,
}

/// A configuration snapshot. A snapshot is never edited in place: a changed
/// configuration is a new value that replaces the old one whole.
#[derive(Debug)]
pub struct Config {
    /// Global switch: while it is off nothing is dispatched.
    pub enabled: bool,
    /// Credential for the remote session. It is carried, never interpreted.
    pub connection_secret: String,
    /// The rules, in the order in which they are tried.
    pub mappings: Vec<Mapping>,
}

/// A mapping as a pair of character sequences.
pub struct MappingView {
    pub monitor_name: Seq<char>,
    pub scene_name: Seq<char>,
}

/// A configuration as mathematical data.
pub struct ConfigView {
    pub enabled: bool,
    pub connection_secret: Seq<char>,
    pub mappings: Seq<MappingView>,
}

impl View for Mapping {
    type V = MappingView;

    open spec fn view(&self) -> MappingView {
        MappingView { monitor_name: self.monitor_name@, scene_name: self.scene_name@ }
    }
}

impl View for Config {
    type V = ConfigView;

    open spec fn view(&self) -> ConfigView {
        ConfigView {
            enabled: self.enabled,
            connection_secret: self.connection_secret@,
            mappings: self.mappings@.map_values(|m: Mapping| m@),
        }
    }
}

/// The test "this mapping names `monitor`". A mapping fires only for a display
/// whose name is exactly its `monitor_name`.
pub open spec fn names(monitor: Seq<char>) -> spec_fn(MappingView) -> bool {
    |m: MappingView| m.monitor_name == monitor
}

impl ConfigView {
    /// The position of the first mapping that names `monitor`, if any mapping
    /// names it.
    pub open spec fn first_match(self, monitor: Seq<char>) -> Option<int> {
        first_where(self.mappings, names(monitor))
    }

    /// The scene to switch to when the pointer has just entered `monitor`.
    ///
    /// There is none while the configuration is disabled, none when the
    /// pointer is on no display, and none when no mapping names the display.
    /// Otherwise it is the scene of the first mapping that names the display:
    /// later mappings for the same display are never used.
    pub open spec fn scene_for(self, monitor: Option<Seq<char>>) -> Option<Seq<char>> {
        match monitor {
            Some(name) if self.enabled => match self.first_match(name) {
                Some(i) => Some(self.mappings[i].scene_name),
                None => None,
            },
            _ => None,
        }
    }
}

impl Config {
    /// The scene to switch to when the pointer has just entered `monitor`,
    /// copied out of the configuration so that the caller can let go of the
    /// configuration before it talks to the remote service.
    pub fn scene_for(&self, monitor: &Option<String>) -> (scene: Option<String>)
        ensures
            scene.deep_view() == self@.scene_for(monitor.deep_view()),
    {
        if !self.enabled {
            return None;
        }
        match monitor {
            None => None,
            Some(name) => {
                let mut i: usize = 0;
                while i < self.mappings.len()
                    invariant
                        self.enabled,
                        monitor.deep_view() == Some(name@),
                        i <= self.mappings.len(),
                        forall|j: int| 0 <= j < i ==> !names(name@)(#[trigger] self@.mappings[j]),
                    decreases self.mappings.len() - i,
                {
                    if self.mappings[i].monitor_name == *name {
                        let scene = self.mappings[i].scene_name.clone();
                        proof {
                            assert(self@.mappings[i as int] == self.mappings@[i as int]@);
                            assert(is_first(self@.mappings, names(name@), i as int));
                            lemma_first_found(self@.mappings, names(name@), i as int);
                        }
                        return Some(scene);
                    }
                    i += 1;
                }
                proof {
                    lemma_first_absent(self@.mappings, names(name@));
                }
                None
            },
        }
    }
}

} // verus!
