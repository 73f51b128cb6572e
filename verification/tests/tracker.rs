//! Tests of the Wayland toplevel/output tracker state machine, including the
//! ext protocol's missing-done quirk and the event-source core.

use twbar_core::events::{HyprlandEvents, HyprlandEvent};
use twbar_core::wayland_manager::{
    ExtToplevelEvent, OutputEvent, OutputHeadEvent, WaylandManager, WaylandWindowEvent,
    WlrToplevelEvent,
};

#[test]
fn ext_new_object_commits_only_on_done() {
    let mut m = WaylandManager::new();
    let mut sub = m.window_events.subscribe();
    m.handle_ext_event(5, ExtToplevelEvent::Title("GitHub".to_string()));
    m.handle_ext_event(5, ExtToplevelEvent::AppId("firefox".to_string()));
    m.handle_ext_event(5, ExtToplevelEvent::Identifier("1234->5cf2a10".to_string()));
    assert!(m.ext_windows.get(5).is_none());
    assert!(m.window_events.recv(&mut sub).is_none());
    m.handle_ext_event(5, ExtToplevelEvent::Done);
    let w = m.ext_windows.get(5).expect("committed window");
    assert_eq!(w.title, "GitHub");
    assert_eq!(w.app_id, "firefox");
    assert_eq!(w.identifier, "1234->5cf2a10");
    match m.window_events.recv(&mut sub) {
        Some(WaylandWindowEvent::NewWindowExt(nw)) => assert_eq!(nw.title, "GitHub"),
        other => panic!("expected a new-window event, got {:?}", other),
    }
}

#[test]
fn ext_update_to_known_object_commits_immediately() {
    let mut m = WaylandManager::new();
    m.handle_ext_event(5, ExtToplevelEvent::Title("old".to_string()));
    m.handle_ext_event(5, ExtToplevelEvent::Done);
    let mut sub = m.window_events.subscribe();
    m.handle_ext_event(5, ExtToplevelEvent::Title("new".to_string()));
    assert_eq!(m.ext_windows.get(5).expect("window").title, "new");
    match m.window_events.recv(&mut sub) {
        Some(WaylandWindowEvent::UpdatedWindowExt(uw)) => assert_eq!(uw.title, "new"),
        other => panic!("expected an updated-window event, got {:?}", other),
    }
}

#[test]
fn ext_closed_removes_known_object() {
    let mut m = WaylandManager::new();
    m.handle_ext_event(5, ExtToplevelEvent::Title("win".to_string()));
    m.handle_ext_event(5, ExtToplevelEvent::Done);
    let mut sub = m.window_events.subscribe();
    m.handle_ext_event(5, ExtToplevelEvent::Closed);
    assert!(m.ext_windows.get(5).is_none());
    match m.window_events.recv(&mut sub) {
        Some(WaylandWindowEvent::RemovedWindowExt(rw)) => assert_eq!(rw.title, "win"),
        other => panic!("expected a removed-window event, got {:?}", other),
    }
}

#[test]
fn wlr_accumulates_until_done() {
    let mut m = WaylandManager::new();
    let mut sub = m.window_events.subscribe();
    m.handle_wlr_event(9, WlrToplevelEvent::Title("term".to_string()));
    m.handle_wlr_event(9, WlrToplevelEvent::AppId("kitty".to_string()));
    m.handle_wlr_event(9, WlrToplevelEvent::OutputEnter(3));
    m.handle_wlr_event(9, WlrToplevelEvent::OutputEnter(3));
    m.handle_wlr_event(9, WlrToplevelEvent::OutputEnter(4));
    m.handle_wlr_event(9, WlrToplevelEvent::OutputLeave(3));
    assert!(m.zwlr_windows.get(9).is_none());
    assert!(m.window_events.recv(&mut sub).is_none());
    m.handle_wlr_event(9, WlrToplevelEvent::Done);
    let w = m.zwlr_windows.get(9).expect("committed window");
    assert_eq!(w.title, "term");
    assert_eq!(w.app_id, "kitty");
    assert_eq!(w.output, vec![4]);
    match m.window_events.recv(&mut sub) {
        Some(WaylandWindowEvent::NewWindowWlr(nw)) => assert_eq!(nw.title, "term"),
        other => panic!("expected a new-window event, got {:?}", other),
    }
}

#[test]
fn wlr_update_waits_for_done_even_on_known_object() {
    let mut m = WaylandManager::new();
    m.handle_wlr_event(9, WlrToplevelEvent::Title("one".to_string()));
    m.handle_wlr_event(9, WlrToplevelEvent::Done);
    m.handle_wlr_event(9, WlrToplevelEvent::Title("two".to_string()));
    assert_eq!(m.zwlr_windows.get(9).expect("window").title, "one");
    m.handle_wlr_event(9, WlrToplevelEvent::Done);
    assert_eq!(m.zwlr_windows.get(9).expect("window").title, "two");
}

#[test]
fn wlr_closed_is_committed_on_done() {
    let mut m = WaylandManager::new();
    m.handle_wlr_event(9, WlrToplevelEvent::Title("gone".to_string()));
    m.handle_wlr_event(9, WlrToplevelEvent::Done);
    let mut sub = m.window_events.subscribe();
    m.handle_wlr_event(9, WlrToplevelEvent::Closed);
    assert!(m.zwlr_windows.get(9).is_some());
    m.handle_wlr_event(9, WlrToplevelEvent::Done);
    assert!(m.zwlr_windows.get(9).is_none());
    match m.window_events.recv(&mut sub) {
        Some(WaylandWindowEvent::RemovedWindowWlr(rw)) => assert_eq!(rw.title, "gone"),
        other => panic!("expected a removed-window event, got {:?}", other),
    }
}

#[test]
fn outputs_commit_on_manager_done_and_drop_on_finished() {
    let mut m = WaylandManager::new();
    let mut sub = m.output_events.subscribe();
    m.handle_output_event(2, OutputHeadEvent::Name("DP-1".to_string()));
    m.handle_output_event(2, OutputHeadEvent::Enabled(true));
    m.handle_output_event(2, OutputHeadEvent::PhysicalSize(600, 340));
    m.handle_output_manager_done();
    match m.output_events.recv(&mut sub) {
        Some(OutputEvent::OutputsUpdated(os)) => {
            assert_eq!(os.len(), 1);
            assert_eq!(os[0].name, "DP-1");
            assert_eq!(os[0].wl_output_id, 2);
            assert!(os[0].enabled);
            assert_eq!(os[0].size, (600, 340));
        }
        None => panic!("expected an outputs-updated event"),
    }
    m.handle_output_event(2, OutputHeadEvent::Finished);
    assert!(m.outputs.get(2).is_none());
    m.handle_output_manager_done();
    match m.output_events.recv(&mut sub) {
        Some(OutputEvent::OutputsUpdated(os)) => assert!(os.is_empty()),
        None => panic!("expected an outputs-updated event"),
    }
}

#[test]
fn window_listener_snapshot_replays_known_windows() {
    let mut m = WaylandManager::new();
    m.handle_ext_event(5, ExtToplevelEvent::Title("a".to_string()));
    m.handle_ext_event(5, ExtToplevelEvent::Done);
    m.handle_wlr_event(9, WlrToplevelEvent::Title("b".to_string()));
    m.handle_wlr_event(9, WlrToplevelEvent::Done);
    let (snapshot, mut sub) = m.create_window_listener();
    assert_eq!(snapshot.len(), 2);
    match &snapshot[0] {
        WaylandWindowEvent::NewWindowExt(w) => assert_eq!(w.title, "a"),
        other => panic!("expected the ext window first, got {:?}", other),
    }
    match &snapshot[1] {
        WaylandWindowEvent::NewWindowWlr(w) => assert_eq!(w.title, "b"),
        other => panic!("expected the wlr window second, got {:?}", other),
    }
    assert!(m.window_events.recv(&mut sub).is_none());
}

#[test]
fn event_source_updates_active_window_and_broadcasts() {
    let mut ev = HyprlandEvents::new();
    let mut stream = ev.get_event_stream();
    let mut emitter = ev.get_active_window_emitter();
    assert!(emitter.next(&ev.active_window).is_none());
    assert!(ev.handle_line("activewindow>>firefox,GitHub"));
    assert!(!ev.handle_line("garbage line"));
    assert!(ev.handle_line("workspace>>3"));
    let aw = emitter.next(&ev.active_window).expect("active window");
    assert_eq!(aw.title, "GitHub");
    match ev.events.recv(&mut stream) {
        Some(HyprlandEvent::ActiveWindow(aw)) => assert_eq!(aw.title, "GitHub"),
        other => panic!("expected the active-window event, got {:?}", other),
    }
    match ev.events.recv(&mut stream) {
        Some(HyprlandEvent::Workspace(name)) => assert_eq!(name, "3"),
        other => panic!("expected the workspace event, got {:?}", other),
    }
    assert!(ev.events.recv(&mut stream).is_none());
}
