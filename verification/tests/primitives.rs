//! Tests of the two publish primitives, the command builders, the numeric
//! helpers, and the lenient JSON boolean rule.

use twbar_core::broadcast::RaceFreeBroadcaster;
use twbar_core::commands::HyprlandCommands;
use twbar_core::json::{lenient_bool, JsonScalar};
use twbar_core::keyed::KeyedTable;
use twbar_core::latest::{LatestEventValue, LatestEventValueListener};
use twbar_core::text::{i32_to_dec_string, parse_i32_str, u64_to_dec_string};
use twbar_core::xdg_applications::XdgApplicationsCache;

#[test]
fn listener_coalesces_to_last_update() {
    let mut latest: LatestEventValue<i32> = LatestEventValue::new();
    let mut listener = LatestEventValueListener::new();
    latest.update(10);
    latest.update(20);
    latest.update(30);
    assert_eq!(listener.next(&latest), Some(&30));
    assert_eq!(latest.iteration, 3);
}

#[test]
fn listener_sees_nothing_without_updates() {
    let latest: LatestEventValue<i32> = LatestEventValue::new();
    let mut listener = LatestEventValueListener::new();
    assert_eq!(listener.next(&latest), None);
}

#[test]
fn listener_sees_each_value_once() {
    let mut latest: LatestEventValue<i32> = LatestEventValue::new();
    let mut listener = LatestEventValueListener::new();
    latest.update(1);
    assert_eq!(listener.next(&latest), Some(&1));
    assert_eq!(listener.next(&latest), None);
    latest.update(2);
    assert_eq!(listener.next(&latest), Some(&2));
    assert_eq!(listener.next(&latest), None);
}

#[test]
fn update_fn_none_does_not_wake() {
    let mut latest: LatestEventValue<i32> = LatestEventValue::new();
    latest.update(5);
    let before = latest.iteration;
    latest.update_fn(|_current| None);
    assert_eq!(latest.iteration, before);
    latest.update_fn(|current| Some(current + 1));
    assert_eq!(latest.iteration, before + 1);
    assert_eq!(latest.value, 6);
}

#[test]
fn subscriber_sees_exactly_events_after_subscription() {
    let mut b: RaceFreeBroadcaster<i32> = RaceFreeBroadcaster::new(8);
    b.publish(1);
    let mut sub = b.subscribe();
    b.publish(2);
    b.publish(3);
    assert_eq!(b.recv(&mut sub), Some(&2));
    assert_eq!(b.recv(&mut sub), Some(&3));
    assert_eq!(b.recv(&mut sub), None);
}

#[test]
fn overflow_drops_oldest_not_newest() {
    let mut b: RaceFreeBroadcaster<i32> = RaceFreeBroadcaster::new(2);
    let mut sub = b.subscribe();
    b.publish(1);
    b.publish(2);
    b.publish(3);
    assert_eq!(b.recv(&mut sub), Some(&2));
    assert_eq!(b.recv(&mut sub), Some(&3));
    assert_eq!(b.recv(&mut sub), None);
}

#[test]
fn focus_command_text() {
    let c = HyprlandCommands::set_active_window_command("0x5cf2a10");
    assert_eq!(c, "dispatch focuswindow address:0x5cf2a10");
}

#[test]
fn workspace_command_text() {
    assert_eq!(HyprlandCommands::set_active_workspace_command(3), "dispatch workspace 3");
    assert_eq!(HyprlandCommands::set_active_workspace_command(-5), "dispatch workspace -5");
}

#[test]
fn decimal_rendering() {
    assert_eq!(u64_to_dec_string(0), "0");
    assert_eq!(u64_to_dec_string(90210), "90210");
    assert_eq!(i32_to_dec_string(0), "0");
    assert_eq!(i32_to_dec_string(-1), "-1");
    assert_eq!(i32_to_dec_string(i32::MAX), "2147483647");
    assert_eq!(i32_to_dec_string(i32::MIN), "-2147483648");
}

#[test]
fn decimal_parsing() {
    assert_eq!(parse_i32_str("0"), Some(0));
    assert_eq!(parse_i32_str("007"), Some(7));
    assert_eq!(parse_i32_str("+12"), Some(12));
    assert_eq!(parse_i32_str("-12"), Some(-12));
    assert_eq!(parse_i32_str("2147483647"), Some(i32::MAX));
    assert_eq!(parse_i32_str("-2147483648"), Some(i32::MIN));
    assert_eq!(parse_i32_str("2147483648"), None);
    assert_eq!(parse_i32_str("-2147483649"), None);
    assert_eq!(parse_i32_str("99999999999999999999"), None);
    assert_eq!(parse_i32_str(""), None);
    assert_eq!(parse_i32_str("-"), None);
    assert_eq!(parse_i32_str("+"), None);
    assert_eq!(parse_i32_str("12a"), None);
    assert_eq!(parse_i32_str(" 12"), None);
}

#[test]
fn lenient_bool_accepts_the_documented_shapes() {
    assert_eq!(lenient_bool(&JsonScalar::Bool(true)), Some(true));
    assert_eq!(lenient_bool(&JsonScalar::Bool(false)), Some(false));
    assert_eq!(lenient_bool(&JsonScalar::Text("yes".to_string())), Some(true));
    assert_eq!(lenient_bool(&JsonScalar::Text("1".to_string())), Some(true));
    assert_eq!(lenient_bool(&JsonScalar::Text("no".to_string())), Some(false));
    assert_eq!(lenient_bool(&JsonScalar::Integer(0)), Some(false));
    assert_eq!(lenient_bool(&JsonScalar::Integer(-3)), Some(true));
    assert_eq!(lenient_bool(&JsonScalar::Null), Some(false));
    assert_eq!(lenient_bool(&JsonScalar::NonIntegerNumber), None);
    assert_eq!(lenient_bool(&JsonScalar::Composite), None);
}

#[test]
fn keyed_table_replaces_and_removes() {
    let mut t: KeyedTable<i32> = KeyedTable::new();
    t.set(7, 70);
    t.set(8, 80);
    t.set(7, 71);
    assert_eq!(t.len(), 2);
    assert_eq!(t.get(7), Some(&71));
    assert_eq!(t.get(8), Some(&80));
    assert_eq!(t.get(9), None);
    assert!(t.remove_key(7));
    assert!(!t.remove_key(7));
    assert_eq!(t.get(7), None);
    assert_eq!(t.len(), 1);
}

#[test]
fn application_cache_starts_empty() {
    let _cache = XdgApplicationsCache::new();
}
