//! Tests of the event-line parser.

use twbar_core::events::{EventData, HyprlandEvent, MonitorAddedV2, MoveWindowV2};

#[test]
fn active_window_parses() {
    match HyprlandEvent::parse("activewindow>>firefox,GitHub") {
        Some(HyprlandEvent::ActiveWindow(aw)) => assert_eq!(aw.title, "GitHub"),
        other => panic!("expected an active-window event, got {:?}", other),
    }
}

#[test]
fn active_window_missing_comma_yields_no_event() {
    assert!(HyprlandEvent::parse("activewindow>>firefox").is_none());
}

#[test]
fn open_window_parses() {
    match HyprlandEvent::parse("openwindow>>5cf2a10,1,firefox,GitHub - Mozilla Firefox") {
        Some(HyprlandEvent::OpenWindow(ow)) => {
            assert_eq!(ow.address, "0x5cf2a10");
            assert_eq!(ow.workspace_name, "1");
            assert_eq!(ow.class, "firefox");
            assert_eq!(ow.title, "GitHub - Mozilla Firefox");
        }
        other => panic!("expected an open-window event, got {:?}", other),
    }
}

#[test]
fn open_window_with_too_few_fields_yields_no_event() {
    assert!(HyprlandEvent::parse("openwindow>>5cf2a10,1,firefox").is_none());
}

#[test]
fn open_window_title_keeps_commas() {
    match HyprlandEvent::parse("openwindow>>1a,2,cls,Hello, World") {
        Some(HyprlandEvent::OpenWindow(ow)) => assert_eq!(ow.title, "Hello, World"),
        other => panic!("expected an open-window event, got {:?}", other),
    }
}

#[test]
fn close_window_gets_hex_prefix() {
    match HyprlandEvent::parse("closewindow>>5cf2a10") {
        Some(HyprlandEvent::CloseWindow(addr)) => assert_eq!(addr, "0x5cf2a10"),
        other => panic!("expected a close-window event, got {:?}", other),
    }
}

#[test]
fn active_window_v2_gets_hex_prefix() {
    match HyprlandEvent::parse("activewindowv2>>5cf2a10") {
        Some(HyprlandEvent::ActiveWindowV2(addr)) => assert_eq!(addr, "0x5cf2a10"),
        other => panic!("expected an active-window-v2 event, got {:?}", other),
    }
}

#[test]
fn workspace_carries_payload_verbatim() {
    match HyprlandEvent::parse("workspace>>3") {
        Some(HyprlandEvent::Workspace(name)) => assert_eq!(name, "3"),
        other => panic!("expected a workspace event, got {:?}", other),
    }
}

#[test]
fn workspace_v2_splits_id_and_name() {
    match HyprlandEvent::parse("workspacev2>>4,web") {
        Some(HyprlandEvent::WorkspaceV2(w)) => {
            assert_eq!(w.id, "4");
            assert_eq!(w.name, "web");
        }
        other => panic!("expected a workspace-v2 event, got {:?}", other),
    }
}

#[test]
fn fullscreen_is_true_only_for_one() {
    match HyprlandEvent::parse("fullscreen>>1") {
        Some(HyprlandEvent::Fullscreen(b)) => assert!(b),
        other => panic!("expected a fullscreen event, got {:?}", other),
    }
    match HyprlandEvent::parse("fullscreen>>0") {
        Some(HyprlandEvent::Fullscreen(b)) => assert!(!b),
        other => panic!("expected a fullscreen event, got {:?}", other),
    }
}

#[test]
fn unknown_command_yields_no_event() {
    assert!(HyprlandEvent::parse("somenewkind>>payload").is_none());
}

#[test]
fn line_without_separator_yields_no_event() {
    assert!(HyprlandEvent::parse("workspace").is_none());
}

#[test]
fn monitor_added_v2_needs_three_fields() {
    match MonitorAddedV2::parse("1,DP-1,Dell U2720Q") {
        Some(m) => {
            assert_eq!(m.id, "1");
            assert_eq!(m.name, "DP-1");
            assert_eq!(m.description, "Dell U2720Q");
        }
        None => panic!("expected a parsed monitor"),
    }
    assert!(MonitorAddedV2::parse("1,DP-1").is_none());
}

#[test]
fn move_window_v2_parses_numeric_workspace() {
    match MoveWindowV2::parse("5cf2a10,7,web") {
        Some(m) => {
            assert_eq!(m.window_address, "0x5cf2a10");
            assert_eq!(m.workspace_id, 7);
            assert_eq!(m.workspace_name, "web");
        }
        None => panic!("expected a parsed move-window event"),
    }
}

#[test]
fn move_window_v2_rejects_bad_number() {
    assert!(MoveWindowV2::parse("5cf2a10,seven,web").is_none());
}

#[test]
fn move_window_uses_v1_form() {
    match HyprlandEvent::parse("movewindow>>0x5cf2a10,web") {
        Some(HyprlandEvent::MoveWindow(m)) => {
            assert_eq!(m.window_address, "0x5cf2a10");
            assert_eq!(m.workspace_name, "web");
        }
        other => panic!("expected a move-window event, got {:?}", other),
    }
}

#[test]
fn extra_separator_splits_at_first() {
    match HyprlandEvent::parse("workspace>>a>>b") {
        Some(HyprlandEvent::Workspace(name)) => assert_eq!(name, "a>>b"),
        other => panic!("expected a workspace event, got {:?}", other),
    }
}
