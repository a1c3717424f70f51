//! What holds of every run of the polling loop, proved from the transition
//! rule.
//!
//! A run is a sequence of ticks. Each tick sees for itself where the displays
//! are, where the pointer is and which configuration is in force, so a run in
//! which the configuration is reloaded between two ticks, or a display is
//! plugged in, is a run like any other.

use crate::locator::{enclosing, located, MonitorRegion, Point};
use crate::model::{names, ConfigView};
use crate::search::{lemma_first_absent, lemma_first_exists};
use crate::transition::step;
use vstd::prelude::*;

verus! {

/// What one tick sees.
pub struct Sample {
    /// The regions of the displays, in the order in which they are listed.
    pub regions: Seq<MonitorRegion>,
    /// The pointer position.
    pub point: Point,
    /// The configuration in force.
    pub config: ConfigView,
}

impl Sample {
    /// The display under the pointer; `None` when it is on no display.
    pub open spec fn monitor(self) -> Option<Seq<char>> {
        located(self.regions, self.point)
    }
}

/// The display remembered once the ticks for `samples` have run in order,
/// with `cached` remembered at the start.
pub open spec fn cached_after(
    cached: Option<Seq<char>>,
    samples: Seq<Sample>,
) -> Option<Seq<char>>
    decreases samples.len(),
{
    if samples.len() == 0 {
        cached
    } else {
        step(
            cached_after(cached, samples.drop_last()),
            samples.last().monitor(),
            samples.last().config,
        ).cached_monitor
    }
}

/// The scene that tick `i` of the run asks for, if it asks for one.
pub open spec fn dispatch_at(
    cached: Option<Seq<char>>,
    samples: Seq<Sample>,
    i: int,
) -> Option<Seq<char>>
    recommends
        0 <= i < samples.len(),
{
    step(cached_after(cached, samples.take(i)), samples[i].monitor(), samples[i].config).dispatch
}

/// How many ticks of the run ask for a scene.
pub open spec fn dispatch_count(cached: Option<Seq<char>>, samples: Seq<Sample>) -> nat
    decreases samples.len(),
{
    if samples.len() == 0 {
        0
    } else {
        let earlier = dispatch_count(cached, samples.drop_last());
        if dispatch_at(cached, samples, samples.len() - 1) is Some {
            earlier + 1
        } else {
            earlier
        }
    }
}

/// After any tick the remembered display is the one that tick saw: the
/// loop never lags behind the pointer, whatever the configuration says.
pub proof fn lemma_cache_follows_pointer(cached: Option<Seq<char>>, samples: Seq<Sample>)
    requires
        samples.len() > 0,
    ensures
        cached_after(cached, samples) == samples.last().monitor(),
{
}

/// A tick asks for a scene only when the pointer has entered a display: the
/// display it sees differs from the one seen by the tick before (for the
/// first tick, from the one remembered at the start), it is a display and
/// not "none", and the configuration in force is enabled.
pub proof fn lemma_dispatch_only_on_entry(
    cached: Option<Seq<char>>,
    samples: Seq<Sample>,
    i: int,
)
    requires
        0 <= i < samples.len(),
        dispatch_at(cached, samples, i) is Some,
    ensures
        samples[i].monitor() is Some,
        samples[i].config.enabled,
        i == 0 ==> samples[i].monitor() != cached,
        i > 0 ==> samples[i].monitor() != samples[i - 1].monitor(),
{
    let before = samples.take(i);
    if i > 0 {
        lemma_cache_follows_pointer(cached, before);
        assert(before.last() == samples[i - 1]);
    }
}

/// While the pointer lingers on one display the remote service is asked at
/// most once: over a run whose pointer positions all resolve to the same
/// display, only the first tick can ask for a scene, and not even that one
/// when the display was already the remembered one.
pub proof fn lemma_lingering_dispatches_at_most_once(
    cached: Option<Seq<char>>,
    samples: Seq<Sample>,
    monitor: Option<Seq<char>>,
)
    requires
        forall|i: int| 0 <= i < samples.len() ==> (#[trigger] samples[i]).monitor() == monitor,
    ensures
        dispatch_count(cached, samples) <= 1,
        forall|i: int| 1 <= i < samples.len() ==> dispatch_at(cached, samples, i) is None,
        cached == monitor ==> dispatch_count(cached, samples) == 0,
    decreases samples.len(),
{
    assert forall|i: int| 1 <= i < samples.len() implies dispatch_at(cached, samples, i) is None by {
        if dispatch_at(cached, samples, i) is Some {
            lemma_dispatch_only_on_entry(cached, samples, i);
            assert(samples[i].monitor() == monitor);
            assert(samples[i - 1].monitor() == monitor);
        }
    }
    if samples.len() > 0 {
        let earlier = samples.drop_last();
        assert forall|i: int| 0 <= i < earlier.len() implies (#[trigger] earlier[i]).monitor()
            == monitor by {
            assert(earlier[i] == samples[i]);
        }
        lemma_lingering_dispatches_at_most_once(cached, earlier, monitor);
        if samples.len() == 1 {
            assert(earlier.len() == 0);
            assert(samples.take(0).len() == 0);
        }
    }
}

/// A pointer outside every region is on no display, and a tick that sees no
/// display asks for nothing, whatever was remembered and whatever the
/// configuration maps.
pub proof fn lemma_outside_every_region_no_dispatch(
    regions: Seq<MonitorRegion>,
    point: Point,
    cached: Option<Seq<char>>,
    config: ConfigView,
)
    requires
        forall|i: int| 0 <= i < regions.len() ==> !(#[trigger] regions[i]).encloses(point),
    ensures
        located(regions, point) is None,
        step(cached, located(regions, point), config).dispatch is None,
        step(cached, located(regions, point), config).cached_monitor is None,
{
    assert forall|i: int| 0 <= i < regions.len() implies !enclosing(point)(#[trigger] regions[i]) by {
        assert(!regions[i].encloses(point));
    }
    lemma_first_absent(regions, enclosing(point));
}

/// Under a disabled configuration a tick asks for nothing, yet remembers the
/// display it saw. So when the configuration is enabled afterwards and the
/// pointer is still on that display, the next tick asks for nothing either:
/// only the next change of display does.
pub proof fn lemma_disabled_remembers_without_dispatch(
    cached: Option<Seq<char>>,
    current: Option<Seq<char>>,
    disabled: ConfigView,
    later: ConfigView,
)
    requires
        !disabled.enabled,
    ensures
        step(cached, current, disabled).dispatch is None,
        step(cached, current, disabled).cached_monitor == current,
        step(step(cached, current, disabled).cached_monitor, current, later).dispatch is None,
{
}

/// First match wins: where two mappings name the same display, the later of
/// the two is never used. What a tick for that display asks for, if
/// anything, is the scene of the first mapping that names the display, and
/// that mapping stands at or before the earlier of the two. So where the
/// scenes of the first and of the later mapping differ, the scene of the
/// later one is never asked for.
pub proof fn lemma_first_mapping_wins(
    cached: Option<Seq<char>>,
    config: ConfigView,
    i: int,
    j: int,
)
    requires
        0 <= i < j < config.mappings.len(),
        config.mappings[i].monitor_name == config.mappings[j].monitor_name,
    ensures
        ({
            let name = config.mappings[j].monitor_name;
            let dispatch = step(cached, Some(name), config).dispatch;
            &&& config.first_match(name) matches Some(k)
            &&& 0 <= k <= i
            &&& config.mappings[k].monitor_name == name
            &&& dispatch matches Some(scene) ==> scene == config.mappings[k].scene_name
            &&& config.enabled && cached != Some(name) ==> dispatch == Some(
                config.mappings[k].scene_name,
            )
            &&& config.mappings[k].scene_name != config.mappings[j].scene_name ==> dispatch
                != Some(config.mappings[j].scene_name)
        }),
{
    let name = config.mappings[j].monitor_name;
    assert(names(name)(config.mappings[i]));
    lemma_first_exists(config.mappings, names(name), i);
}

} // verus!
