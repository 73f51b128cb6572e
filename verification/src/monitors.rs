//! The monitor list, republished through a coalescing latest-value. The
//! compositor reports refresh rate and scale as fractions; they are kept in
//! milli-units so the bookkeeping stays in integers. Fetching and decoding
//! the monitor list is the embedding application's transport concern; which
//! events trigger a refresh, and how a (possibly failed) refresh result is
//! committed, is fixed here.

use vstd::prelude::*;

use crate::events::HyprlandEvent;
use crate::latest::{LatestEventValue, LatestEventValueListener};

verus! {

/// The workspace shown on a monitor.
#[derive(Clone, Debug)]
pub struct MonitorWorkspace {
    pub id: u32,
    pub name: String,
}

/// One monitor, as the compositor reports it.
#[derive(Clone, Debug)]
pub struct HyprlandMonitor {
    pub id: i32,
    pub name: String,
    pub description: String,
    pub make: String,
    pub model: String,
    pub serial: String,
    pub width: u32,
    pub height: u32,
    pub refresh_rate_millihertz: i64,
    pub x: u32,
    pub y: u32,
    pub active_workspace: MonitorWorkspace,
    pub special_workspace: MonitorWorkspace,
    pub reserved: Vec<u32>,
    pub scale_millis: i64,
    pub transform: u32,
    pub focused: bool,
    pub dpms_status: bool,
    pub vrr: bool,
    pub actively_tearing: bool,
    pub disabled: bool,
    pub current_format: String,
    pub available_modes: Vec<String>,
}

/// The monitor list behind a coalescing latest-value.
pub struct HyprlandMonitors {
    pub monitors: LatestEventValue<Vec<HyprlandMonitor>>,
}

impl HyprlandMonitors {
    pub fn new() -> (r: Self)
        ensures
            r.monitors.iteration == 0,
            r.monitors.value@ == Seq::<HyprlandMonitor>::empty(),
    {
        HyprlandMonitors { monitors: LatestEventValue { iteration: 0, value: Vec::new() } }
    }

    /// A listener for the monitor list's latest-value.
    pub fn get_monitor_state_emitter(&self) -> (r: LatestEventValueListener)
        ensures
            r.last_seen_iteration == 0,
    {
        LatestEventValueListener::new()
    }

    /// Commits the outcome of an authoritative refresh: a decoded list
    /// replaces the current one; a failed fetch or decode (`None`) changes
    /// nothing, so listeners are not woken for it.
    pub fn apply_refresh_result(&mut self, parsed: Option<Vec<HyprlandMonitor>>)
        requires
            old(self).monitors.iteration < i64::MAX,
        ensures
            match parsed {
                Option::Some(list) => final(self).monitors == old(self).monitors.updated(list),
                Option::None => *final(self) == *old(self),
            },
    {
        match parsed {
            Option::Some(list) => self.monitors.update(list),
            Option::None => {},
        }
    }
}

/// The compositor events on which the monitor list refreshes.
pub fn monitor_event_triggers_refresh(event: &HyprlandEvent) -> (r: bool)
    ensures
        r == match event {
            HyprlandEvent::MonitorAdded(_) => true,
            HyprlandEvent::MonitorRemoved(_) => true,
            _ => false,
        },
{
    match event {
        HyprlandEvent::MonitorAdded(_) => true,
        HyprlandEvent::MonitorRemoved(_) => true,
        _ => false,
    }
}

} // verus!
