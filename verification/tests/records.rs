use emanager::battery::{BatteryState, ChargeStatus};
use emanager::error::Error;
use emanager::hypr::{Hypr, HyprEvent, Layout, WorkspaceState};
use emanager::notifier::Notifier;
use emanager::notify::Urgency;
use emanager::stater::Stater;
use emanager::volume::VolumeState;
use emanager::wifi::WifiState;

#[test]
fn record_lines_are_json() {
    let s = VolumeState::new(42, false, true);
    assert_eq!(
        s.log(),
        "{\"value\":42,\"muted\":false,\"working\":true,\"icon\":\"\u{f057e} \"}"
    );
    let s = BatteryState::new(77, ChargeStatus::Discharging);
    assert_eq!(
        s.log(),
        "{\"value\":77,\"status\":\"Discharging\",\"icon\":\"\u{f241} \"}"
    );
    let w = WifiState::new(true, "home", 80);
    assert_eq!(
        w.log(),
        "{\"active\":true,\"ssid\":\"home\",\"icon\":\"\u{f0928} \"}"
    );
}

#[test]
fn record_escapes_what_json_requires() {
    let w = WifiState::new(true, "a\"b\\c", 80);
    assert_eq!(
        w.log(),
        "{\"active\":true,\"ssid\":\"a\\\"b\\\\c\",\"icon\":\"\u{f0928} \"}"
    );
    let w = WifiState::new(true, "tab\tname", 80);
    assert_eq!(
        w.log(),
        "{\"active\":true,\"ssid\":\"tab\\u0009name\",\"icon\":\"\u{f0928} \"}"
    );
}

#[test]
fn volume_notification_texts() {
    let note = VolumeState::new(42, false, true).notify();
    assert_eq!(note.summary, "Volume");
    assert_eq!(note.body, "Set to 42%");
    assert_eq!(note.value, Some(42));
    let note = VolumeState::new(42, true, true).notify();
    assert_eq!(note.body, "Muted");
    assert_eq!(note.value, None);
    let note = VolumeState::new(0, false, false).notify();
    assert_eq!(note.body, "No output");
}

#[test]
fn store_slot_rules() {
    let st = Stater::new("volume");
    assert_eq!(st.file, "/home/emanuel/.local/state/emanager/volume");
    assert!(!st.should_truncate(65536));
    assert!(st.should_truncate(65537));
    assert_eq!(st.last_line("{\"a\":1}\n{\"a\":2}\n"), Ok("{\"a\":2}".to_string()));
    assert_eq!(st.last_line("one line, no newline"), Ok("one line, no newline".to_string()));
    assert_eq!(st.last_line("a\r\nb\r\n"), Ok("b".to_string()));
    assert_eq!(st.last_line(""), Err(Error::NotFound));
}

#[test]
fn notifier_channel() {
    let n = Notifier::new("volume");
    assert_eq!(n.key, "volume.id");
    // without a compositor nothing is shown at all
    assert!(n
        .prepare(false, "7aa2f7", Some(3), "Volume", "Muted", None, None)
        .is_none());
    let req = n
        .prepare(true, "7aa2f7", Some(3), "Volume", "Muted", None, Some(40))
        .expect("a show request");
    assert_eq!(req.replaces_id, Some(3));
    assert_eq!(req.summary, "Volume");
    assert_eq!(req.body, "Muted");
    assert_eq!(req.urgency, Urgency::Normal);
    assert_eq!(req.value, Some(40));
    assert_eq!(req.frcolor, "#7aa2f7ee");
    // a first send has no identifier to replace
    let req = n
        .prepare(true, "9ece6a", None, "Volume", "No output", Some(Urgency::Critical), None)
        .expect("a show request");
    assert_eq!(req.replaces_id, None);
    assert_eq!(req.urgency, Urgency::Critical);
    assert_eq!(Notifier::record_id(42), "42");
    assert_eq!(Notifier::read_id("42"), Some(42));
    assert_eq!(Notifier::read_id("nonsense"), None);
}

#[test]
fn color_rotation() {
    assert_eq!(Hypr::get_color(None), "7aa2f7");
    assert_eq!(Hypr::get_color(Some("\"9ece6a\"")), "9ece6a");
    assert_eq!(Hypr::get_color(Some("not a record")), "7aa2f7");
    let palette = ["7aa2f7", "9ece6a", "e0af68", "bb9af7", "7dcfff", "c0caf5"];
    for _ in 0..20 {
        let c = Hypr::rand_color("7aa2f7");
        assert_ne!(c, "7aa2f7");
        assert!(palette.contains(&c.as_str()));
    }
    let plan = Hypr::change_color("9ece6a");
    assert_ne!(plan.color, "9ece6a");
    assert_eq!(plan.keyword, "general:col.active_border");
    assert_eq!(plan.keyword_value, format!("rgba({}ee)", plan.color));
    assert_eq!(plan.record, format!("\"{}\"", plan.color));
}

#[test]
fn layout_change() {
    let plan = Hypr::change_layout(Layout::Fr);
    assert_eq!(plan.keyword, "input:kb_layout");
    assert_eq!(plan.keyword_value, "fr");
    assert_eq!(plan.record, "\"Fr\"");
    assert_eq!(Layout::parse("us"), Some(Layout::Us));
    assert_eq!(Layout::parse("de"), None);
}

#[test]
fn workspace_completion() {
    let done = Hypr::change_workspace(vec![WorkspaceState::new(3, 2, true)]);
    let ids: Vec<i32> = done.iter().map(|w| w.id).collect();
    assert_eq!(ids, vec![1, 2, 3, 4, 5]);
    assert_eq!(done[2].windows, 2);
    assert!(done[2].active);
    assert_eq!(done[0].windows, 0);
    assert!(!done[0].active);
    // a workspace beyond the tracked range is kept and ordered
    let done = Hypr::change_workspace(vec![
        WorkspaceState::new(7, 1, false),
        WorkspaceState::new(2, 3, true),
    ]);
    let ids: Vec<i32> = done.iter().map(|w| w.id).collect();
    assert_eq!(ids, vec![1, 2, 3, 4, 5, 7]);
}

#[test]
fn workspace_record_line() {
    let line = Hypr::workspaces_log(&vec![
        WorkspaceState::new(1, 0, false),
        WorkspaceState::new(2, 3, true),
    ]);
    assert_eq!(
        line,
        "[{\"id\":1,\"windows\":0,\"active\":false},{\"id\":2,\"windows\":3,\"active\":true}]"
    );
    assert_eq!(Hypr::workspaces_log(&vec![]), "[]");
    // compositor special workspaces carry negative ids
    let line = Hypr::workspaces_log(&vec![WorkspaceState::new(-99, 1, false)]);
    assert_eq!(line, "[{\"id\":-99,\"windows\":1,\"active\":false}]");
}

#[test]
fn compositor_event_steps() {
    assert_eq!(
        Hypr::listen_step("workspace>>3", false),
        HyprEvent::Workspaces
    );
    assert_eq!(
        Hypr::listen_step("activewindowv2>>5566", true),
        HyprEvent::Color
    );
    assert_eq!(
        Hypr::listen_step("activewindowv2>>5566", false),
        HyprEvent::Ignore
    );
    assert_eq!(Hypr::listen_step("openlayer>>bar", true), HyprEvent::Ignore);
}
