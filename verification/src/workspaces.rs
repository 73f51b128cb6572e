//! The workspace list and the active-workspace id, each republished through a
//! coalescing latest-value. Fetching and decoding the workspace list is the
//! embedding application's transport concern; which events trigger a refresh
//! and how the active workspace is tracked is fixed here.

use vstd::prelude::*;

use crate::events::{FocusedMon, HyprlandEvent, WorkspaceV2};
use crate::latest::{LatestEventValue, LatestEventValueListener};
use crate::text::{parse_i32_spec, parse_i32_str, str_eq};

verus! {

/// One workspace, as the compositor reports it.
#[derive(Clone, Debug)]
pub struct HyprlandWorkspace {
    pub id: i32,
    pub name: String,
    pub monitor: String,
    pub monitor_id: i32,
    pub windows: i32,
    pub has_fullscreen: bool,
    pub last_window: String,
    pub last_window_title: String,
}

/// First workspace carrying `name`, if any.
pub open spec fn first_workspace_named(l: Seq<HyprlandWorkspace>, name: Seq<char>) -> Option<int>
    decreases l.len(),
{
    if l.len() == 0 {
        Option::None
    } else if l[0].name@ == name {
        Option::Some(0)
    } else {
        match first_workspace_named(l.subrange(1, l.len() as int), name) {
            Option::None => Option::None,
            Option::Some(i) => Option::Some(i + 1),
        }
    }
}

pub proof fn lemma_first_workspace_named_first(l: Seq<HyprlandWorkspace>, name: Seq<char>, i: int)
    requires
        0 <= i < l.len(),
        l[i].name@ == name,
        forall|j: int| 0 <= j < i ==> (#[trigger] l[j]).name@ != name,
    ensures
        first_workspace_named(l, name) == Option::Some(i),
    decreases l.len(),
{
    if i == 0 {
    } else {
        let t = l.subrange(1, l.len() as int);
        assert(forall|j: int| 0 <= j < i - 1 ==> #[trigger] t[j] == l[j + 1]);
        lemma_first_workspace_named_first(t, name, i - 1);
    }
}

pub proof fn lemma_first_workspace_named_none(l: Seq<HyprlandWorkspace>, name: Seq<char>)
    requires
        forall|j: int| 0 <= j < l.len() ==> (#[trigger] l[j]).name@ != name,
    ensures
        first_workspace_named(l, name) is None,
    decreases l.len(),
{
    if l.len() == 0 {
    } else {
        let t = l.subrange(1, l.len() as int);
        assert(forall|j: int| 0 <= j < t.len() ==> #[trigger] t[j] == l[j + 1]);
        lemma_first_workspace_named_none(t, name);
    }
}

pub proof fn lemma_first_workspace_named_valid(l: Seq<HyprlandWorkspace>, name: Seq<char>)
    ensures
        first_workspace_named(l, name) matches Option::Some(i) ==> 0 <= i < l.len() && l[i].name@
            == name,
    decreases l.len(),
{
    if l.len() == 0 {
    } else if l[0].name@ == name {
    } else {
        lemma_first_workspace_named_valid(l.subrange(1, l.len() as int), name);
    }
}

/// The id of the first workspace named `name` ("first match wins").
pub fn find_workspace_id_by_name(workspaces: &Vec<HyprlandWorkspace>, name: &str) -> (r: Option<
    i32,
>)
    ensures
        match first_workspace_named(workspaces@, name@) {
            Option::Some(i) => r == Option::Some(workspaces@[i].id),
            Option::None => r is None,
        },
{
    let n = workspaces.len();
    let mut i: usize = 0;
    while i < n
        invariant
            n == workspaces@.len(),
            0 <= i <= n,
            forall|j: int| 0 <= j < i ==> (#[trigger] workspaces@[j]).name@ != name@,
        decreases n - i,
    {
        if str_eq(workspaces[i].name.as_str(), name) {
            proof {
                lemma_first_workspace_named_first(workspaces@, name@, i as int);
            }
            return Option::Some(workspaces[i].id);
        }
        i = i + 1;
    }
    proof {
        lemma_first_workspace_named_none(workspaces@, name@);
    }
    Option::None
}

/// The workspace list and the active-workspace id.
pub struct HyprlandWorkspaces {
    pub workspaces: LatestEventValue<Vec<HyprlandWorkspace>>,
    pub active_workspace_id: LatestEventValue<i32>,
}

impl HyprlandWorkspaces {
    pub fn new() -> (r: Self)
        ensures
            r.workspaces.iteration == 0,
            r.workspaces.value@ == Seq::<HyprlandWorkspace>::empty(),
            r.active_workspace_id.iteration == 0,
            r.active_workspace_id.value == 0,
    {
        HyprlandWorkspaces {
            workspaces: LatestEventValue { iteration: 0, value: Vec::new() },
            active_workspace_id: LatestEventValue { iteration: 0, value: 0 },
        }
    }

    /// A listener for the workspace list's latest-value.
    pub fn get_workspaces_state_emitter(&self) -> (r: LatestEventValueListener)
        ensures
            r.last_seen_iteration == 0,
    {
        LatestEventValueListener::new()
    }

    /// A listener for the active-workspace id's latest-value.
    pub fn get_active_workspace_id_state(&self) -> (r: LatestEventValueListener)
        ensures
            r.last_seen_iteration == 0,
    {
        LatestEventValueListener::new()
    }

    /// Commits the outcome of an authoritative refresh: a decoded list
    /// replaces the current one; a failed fetch or decode (`None`) changes
    /// nothing, so listeners are not woken for it.
    pub fn apply_refresh_result(&mut self, parsed: Option<Vec<HyprlandWorkspace>>)
        requires
            old(self).workspaces.iteration < i64::MAX,
        ensures
            final(self).active_workspace_id == old(self).active_workspace_id,
            match parsed {
                Option::Some(list) => final(self).workspaces == old(self).workspaces.updated(list),
                Option::None => *final(self) == *old(self),
            },
    {
        match parsed {
            Option::Some(list) => self.workspaces.update(list),
            Option::None => {},
        }
    }

    /// A workspace-change event: the event's workspace id becomes the active
    /// one; an id that does not parse as a number changes nothing.
    pub fn handle_workspace_change(&mut self, workspace: &WorkspaceV2)
        requires
            old(self).active_workspace_id.iteration < i64::MAX,
        ensures
            final(self).workspaces == old(self).workspaces,
            match parse_i32_spec(workspace.id@) {
                Option::Some(id) => final(self).active_workspace_id == old(
                    self,
                ).active_workspace_id.updated(id),
                Option::None => *final(self) == *old(self),
            },
    {
        match parse_i32_str(workspace.id.as_str()) {
            Option::Some(id) => self.active_workspace_id.update(id),
            Option::None => {},
        }
    }

    /// A focused-monitor event names the workspace now shown; the first
    /// workspace of that name becomes the active one, and an unknown name
    /// changes nothing (the list may be mid-refresh).
    pub fn handle_focused_monitor(&mut self, focused_mon: &FocusedMon)
        requires
            old(self).active_workspace_id.iteration < i64::MAX,
        ensures
            final(self).workspaces == old(self).workspaces,
            match first_workspace_named(old(self).workspaces.value@, focused_mon.name@) {
                Option::Some(i) => final(self).active_workspace_id == old(
                    self,
                ).active_workspace_id.updated(old(self).workspaces.value@[i].id),
                Option::None => *final(self) == *old(self),
            },
    {
        let found = find_workspace_id_by_name(&self.workspaces.value, focused_mon.name.as_str());
        match found {
            Option::Some(id) => self.active_workspace_id.update(id),
            Option::None => {},
        }
    }
}

/// The compositor events on which the workspace list refreshes. Workspace
/// events with a v2 twin refresh on the v1 form only, so one compositor
/// notification does not refresh twice.
pub fn workspace_event_triggers_refresh(event: &HyprlandEvent) -> (r: bool)
    ensures
        r == match event {
            HyprlandEvent::MoveWindowV2(_) => true,
            HyprlandEvent::MonitorAddedV2(_) => true,
            HyprlandEvent::MonitorRemoved(_) => true,
            HyprlandEvent::CreateWorkspace(_) => true,
            HyprlandEvent::MoveWorkspace(_) => true,
            HyprlandEvent::RenameWorkspace(_) => true,
            HyprlandEvent::ActiveSpecial(_) => true,
            HyprlandEvent::DestroyWorkspace(_) => true,
            _ => false,
        },
{
    match event {
        HyprlandEvent::MoveWindowV2(_) => true,
        HyprlandEvent::MonitorAddedV2(_) => true,
        HyprlandEvent::MonitorRemoved(_) => true,
        HyprlandEvent::CreateWorkspace(_) => true,
        HyprlandEvent::MoveWorkspace(_) => true,
        HyprlandEvent::RenameWorkspace(_) => true,
        HyprlandEvent::ActiveSpecial(_) => true,
        HyprlandEvent::DestroyWorkspace(_) => true,
        _ => false,
    }
}

} // verus!
