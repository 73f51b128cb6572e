//! Tests of the window reconciler: authoritative refreshes, incremental
//! toplevel reconciliation by the identifier suffix rule, close events, and
//! the content-equality short-circuit.

use twbar_core::events::{EventData, HyprlandEvent};
use twbar_core::wayland_manager::ExtForeignToplevel;
use twbar_core::windows::{
    find_matching_window, window_event_triggers_refresh, HyprlandWindow, HyprlandWindowEvent,
    HyprlandWindows,
};
use twbar_core::workspaces::{
    find_workspace_id_by_name, workspace_event_triggers_refresh, HyprlandWorkspace,
    HyprlandWorkspaces,
};
use twbar_core::monitors::{monitor_event_triggers_refresh, HyprlandMonitors, HyprlandMonitor};
use twbar_core::latest::LatestEventValueListener;

fn window_at(address: &str, title: &str) -> HyprlandWindow {
    HyprlandWindow {
        address: address.to_string(),
        title: title.to_string(),
        ..Default::default()
    }
}

fn toplevel(id: u32, identifier: &str, title: &str) -> ExtForeignToplevel {
    ExtForeignToplevel {
        id,
        title: title.to_string(),
        app_id: String::new(),
        identifier: identifier.to_string(),
    }
}

#[test]
fn toplevel_event_patches_matching_window_without_duplicate() {
    let mut r = HyprlandWindows::new();
    r.apply_authoritative_refresh(vec![window_at("0x5cf2a10", "old title")]);
    r.apply_toplevel(&toplevel(1, "1234->05cf2a10", "new title"));
    assert_eq!(r.windows.value.len(), 1);
    assert_eq!(r.windows.value[0].address, "0x5cf2a10");
    assert_eq!(r.windows.value[0].title, "new title");
}

#[test]
fn toplevel_event_without_match_synthesizes_provisional_window() {
    let mut r = HyprlandWindows::new();
    let mut sub = r.window_events.subscribe();
    r.apply_toplevel(&toplevel(1, "1234->77aa", "fresh"));
    assert_eq!(r.windows.value.len(), 1);
    assert_eq!(r.windows.value[0].address, "0x77aa");
    assert_eq!(r.windows.value[0].title, "fresh");
    assert_eq!(r.windows.value[0].class, "");
    match r.window_events.recv(&mut sub) {
        Some(HyprlandWindowEvent::NewWindow(w)) => assert_eq!(w.address, "0x77aa"),
        other => panic!("expected a new-window event, got {:?}", other),
    }
}

#[test]
fn toplevel_patch_is_observable_as_modified_window() {
    let mut r = HyprlandWindows::new();
    r.apply_authoritative_refresh(vec![window_at("0x5cf2a10", "old")]);
    let mut sub = r.window_events.subscribe();
    r.apply_toplevel(&toplevel(1, "9->5cf2a10", "new"));
    match r.window_events.recv(&mut sub) {
        Some(HyprlandWindowEvent::ModifiedWindow(w)) => {
            assert_eq!(w.address, "0x5cf2a10");
            assert_eq!(w.title, "new");
        }
        other => panic!("expected a modified-window event, got {:?}", other),
    }
}

#[test]
fn snapshot_and_subscribe_misses_nothing_and_duplicates_nothing() {
    let mut r = HyprlandWindows::new();
    r.apply_toplevel(&toplevel(1, "a->1", "before"));
    let (snapshot, mut sub) = r.snapshot_and_subscribe();
    assert_eq!(snapshot.len(), 1);
    assert_eq!(snapshot[0].title, "before");
    assert!(r.window_events.recv(&mut sub).is_none());
    r.apply_toplevel(&toplevel(2, "b->2", "after"));
    match r.window_events.recv(&mut sub) {
        Some(HyprlandWindowEvent::NewWindow(w)) => assert_eq!(w.title, "after"),
        other => panic!("expected only the event after the snapshot, got {:?}", other),
    }
    assert!(r.window_events.recv(&mut sub).is_none());
}

#[test]
fn close_event_removes_window_and_is_observable() {
    let mut r = HyprlandWindows::new();
    r.apply_authoritative_refresh(vec![
        window_at("0x5cf2a10", "doomed"),
        window_at("0xaa", "stays"),
    ]);
    let mut sub = r.window_events.subscribe();
    r.apply_close_event("0x5cf2a10");
    assert_eq!(r.windows.value.len(), 1);
    assert_eq!(r.windows.value[0].address, "0xaa");
    match r.window_events.recv(&mut sub) {
        Some(HyprlandWindowEvent::ClosedWindow(addr)) => assert_eq!(addr, "0x5cf2a10"),
        other => panic!("expected a closed-window event, got {:?}", other),
    }
}

#[test]
fn refresh_with_equal_content_does_not_advance_iteration() {
    let mut r = HyprlandWindows::new();
    r.apply_authoritative_refresh(vec![window_at("0x1", "one")]);
    let after_first = r.windows.iteration;
    let mut listener = LatestEventValueListener::new();
    assert!(listener.next(&r.windows).is_some());
    r.apply_authoritative_refresh(vec![window_at("0x1", "one")]);
    assert_eq!(r.windows.iteration, after_first);
    assert!(listener.next(&r.windows).is_none());
    r.apply_authoritative_refresh(vec![window_at("0x1", "changed")]);
    assert_eq!(r.windows.iteration, after_first + 1);
    let seen = listener.next(&r.windows).expect("changed table");
    assert_eq!(seen[0].title, "changed");
}

#[test]
fn removed_toplevel_drops_first_match_only() {
    let mut r = HyprlandWindows::new();
    r.apply_authoritative_refresh(vec![
        window_at("0x77", "first"),
        window_at("0x77", "second"),
    ]);
    r.apply_toplevel_removed(&toplevel(1, "x->77", "ignored"));
    assert_eq!(r.windows.value.len(), 1);
    assert_eq!(r.windows.value[0].title, "second");
    r.apply_toplevel_removed(&toplevel(1, "x->99", "ignored"));
    assert_eq!(r.windows.value.len(), 1);
}

#[test]
fn matching_strips_leading_zeros_and_takes_first() {
    let windows = vec![
        window_at("0xother", "zero"),
        window_at("0x5cf2a10", "one"),
        window_at("0x5cf2a10", "two"),
    ];
    assert_eq!(find_matching_window(&windows, "app-1234->0005cf2a10"), Some(1));
    assert_eq!(find_matching_window(&windows, "app-1234->beef"), None);
}

#[test]
fn update_from_event_applies_move_and_open() {
    let mut w = HyprlandWindow::default();
    let open = HyprlandEvent::parse("openwindow>>5cf2a10,1,firefox,GitHub").unwrap();
    w.update_from_event(&open);
    assert_eq!(w.address, "0x5cf2a10");
    assert_eq!(w.class, "firefox");
    assert_eq!(w.initial_class, "firefox");
    assert_eq!(w.title, "GitHub");
    assert_eq!(w.initial_title, "GitHub");
    let moved = HyprlandEvent::parse("movewindow>>ignored,web");
    assert!(moved.is_some());
    let move_v2 = twbar_core::events::MoveWindowV2::parse("5cf2a10,4,web").unwrap();
    w.update_from_event(&HyprlandEvent::MoveWindowV2(move_v2));
    assert_eq!(w.workspace.id, 4);
    assert_eq!(w.workspace.name, "web");
    assert_eq!(w.title, "GitHub");
}

#[test]
fn refresh_trigger_events() {
    let close = HyprlandEvent::parse("closewindow>>1").unwrap();
    let ws = HyprlandEvent::parse("workspace>>1").unwrap();
    assert!(window_event_triggers_refresh(&close));
    assert!(!window_event_triggers_refresh(&ws));
    let mon_removed = HyprlandEvent::parse("monitorremoved>>DP-1").unwrap();
    assert!(monitor_event_triggers_refresh(&mon_removed));
    assert!(!monitor_event_triggers_refresh(&close));
    let create_ws = HyprlandEvent::parse("createworkspace>>web").unwrap();
    let create_ws_v2 = HyprlandEvent::parse("createworkspacev2>>4,web").unwrap();
    assert!(workspace_event_triggers_refresh(&create_ws));
    assert!(!workspace_event_triggers_refresh(&create_ws_v2));
}

fn workspace(id: i32, name: &str) -> HyprlandWorkspace {
    HyprlandWorkspace {
        id,
        name: name.to_string(),
        monitor: String::new(),
        monitor_id: 0,
        windows: 0,
        has_fullscreen: false,
        last_window: String::new(),
        last_window_title: String::new(),
    }
}

#[test]
fn workspace_state_tracks_active_id() {
    let mut w = HyprlandWorkspaces::new();
    w.apply_refresh_result(Some(vec![workspace(1, "web"), workspace(2, "web"), workspace(3, "mail")]));
    assert_eq!(w.workspaces.iteration, 1);
    w.apply_refresh_result(None);
    assert_eq!(w.workspaces.iteration, 1);

    let ws_v2 = twbar_core::events::WorkspaceV2 { id: "3".to_string(), name: "mail".to_string() };
    w.handle_workspace_change(&ws_v2);
    assert_eq!(w.active_workspace_id.value, 3);

    let bad = twbar_core::events::WorkspaceV2 { id: "x".to_string(), name: "?".to_string() };
    let before = w.active_workspace_id.iteration;
    w.handle_workspace_change(&bad);
    assert_eq!(w.active_workspace_id.iteration, before);

    let focused = twbar_core::events::FocusedMon { id: "DP-1".to_string(), name: "web".to_string() };
    w.handle_focused_monitor(&focused);
    assert_eq!(w.active_workspace_id.value, 1);

    let unknown = twbar_core::events::FocusedMon { id: "DP-1".to_string(), name: "nope".to_string() };
    let before = w.active_workspace_id.iteration;
    w.handle_focused_monitor(&unknown);
    assert_eq!(w.active_workspace_id.iteration, before);

    assert_eq!(find_workspace_id_by_name(&w.workspaces.value, "web"), Some(1));
    assert_eq!(find_workspace_id_by_name(&w.workspaces.value, "nope"), None);
}

#[test]
fn monitor_state_commits_only_decoded_lists() {
    let mut m = HyprlandMonitors::new();
    let monitor = HyprlandMonitor {
        id: 0,
        name: "DP-1".to_string(),
        description: String::new(),
        make: String::new(),
        model: String::new(),
        serial: String::new(),
        width: 3840,
        height: 2160,
        refresh_rate_millihertz: 60_000,
        x: 0,
        y: 0,
        active_workspace: twbar_core::monitors::MonitorWorkspace { id: 1, name: "web".to_string() },
        special_workspace: twbar_core::monitors::MonitorWorkspace { id: 0, name: String::new() },
        reserved: vec![0, 30, 0, 0],
        scale_millis: 1500,
        transform: 0,
        focused: true,
        dpms_status: true,
        vrr: false,
        actively_tearing: false,
        disabled: false,
        current_format: String::new(),
        available_modes: vec![],
    };
    m.apply_refresh_result(Some(vec![monitor]));
    assert_eq!(m.monitors.iteration, 1);
    assert_eq!(m.monitors.value[0].name, "DP-1");
    m.apply_refresh_result(None);
    assert_eq!(m.monitors.iteration, 1);
}
