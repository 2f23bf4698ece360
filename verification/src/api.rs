//! What the server tells its clients of its targets.
use crate::config;
use crate::probe::specifier::ProbeSpecifier;
use crate::probe::{probe_is_up, selector_matches, ProbeInfo};
use vstd::prelude::*;

verus! {

/// One target as clients see it: its configuration, and whether its probe
/// is attached at the moment.
#[derive(Debug)]
pub struct Target {
    pub name: String,
    pub chip: String,
    pub probe: ProbeSpecifier,
    pub connect_under_reset: bool,
    pub speed: Option<u32>,
    pub up: bool,
    pub power_reset: bool,
    pub cycle_delay_millis: u64,
    pub max_settle_time_millis: u64,
}

/// The targets as clients see them.
#[derive(Debug)]
pub struct TargetList {
    pub targets: Vec<Target>,
}

/// A target is up when some attached probe matches its selector.
pub open spec fn is_up(target: config::Target, probes: Seq<ProbeInfo>) -> bool {
    exists|i: int| 0 <= i < probes.len() && selector_matches(target.probe@, #[trigger] probes[i]@)
}

/// `shown` is `target` as clients see it while `probes` are attached.
pub open spec fn shows(shown: Target, target: config::Target, probes: Seq<ProbeInfo>) -> bool {
    &&& shown.name@ == target.name@
    &&& shown.chip@ == target.chip@
    &&& shown.probe@ == target.probe@
    &&& shown.connect_under_reset == target.connect_under_reset
    &&& shown.speed == target.speed
    &&& shown.up == is_up(target, probes)
    &&& shown.power_reset == target.power_reset
    &&& shown.cycle_delay_millis == target.cycle_delay_millis
    &&& shown.max_settle_time_millis == target.max_settle_time_millis
}

/// Shows one target.
pub fn target_status(target: &config::Target, probes: &Vec<ProbeInfo>) -> (shown: Target)
    ensures
        shows(shown, *target, probes@),
{
    Target {
        name: target.name.clone(),
        chip: target.chip.clone(),
        probe: ProbeSpecifier {
            vid_pid: target.probe.vid_pid,
            serial: match &target.probe.serial {
                Some(s) => Some(s.clone()),
                None => None,
            },
        },
        connect_under_reset: target.connect_under_reset,
        speed: target.speed,
        up: probe_is_up(probes, &target.probe),
        power_reset: target.power_reset,
        cycle_delay_millis: target.cycle_delay_millis,
        max_settle_time_millis: target.max_settle_time_millis,
    }
}

/// Shows all targets, in the order of the configuration.
pub fn targets(configured: &Vec<config::Target>, probes: &Vec<ProbeInfo>) -> (list: TargetList)
    ensures
        list.targets.len() == configured.len(),
        forall|i: int|
            0 <= i < configured.len() ==> shows(
                #[trigger] list.targets[i],
                configured[i],
                probes@,
            ),
{
    let mut shown: Vec<Target> = Vec::new();
    let mut i: usize = 0;
    while i < configured.len()
        invariant
            i <= configured.len(),
            shown.len() == i,
            forall|j: int| 0 <= j < i ==> shows(#[trigger] shown[j], configured[j], probes@),
        decreases configured.len() - i,
    {
        shown.push(target_status(&configured[i], probes));
        i += 1;
    }
    TargetList { targets: shown }
}

} // verus!
