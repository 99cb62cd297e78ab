use emanager::watcher::{Snapshot, Watcher};
use emanager::wifi::{Wifi, WifiState};

fn snap_a() -> Snapshot {
    Snapshot::Wifi(WifiState::new(true, "home", 70))
}

fn snap_b() -> Snapshot {
    Snapshot::Wifi(WifiState::new(false, "", 0))
}

#[test]
fn transition_dedup_scenario() {
    // A, A, B, B, A: the baseline fires once, then each change of value.
    let mut w = Watcher::new();
    let n = w.run(vec![snap_a(), snap_a(), snap_b(), snap_b(), snap_a()]);
    assert_eq!(n, 3);
    // the record left behind is the last snapshot, A
    match w.last {
        Some(s) => assert!(s.same_as(&snap_a())),
        None => panic!("watcher saw nothing"),
    }
}

#[test]
fn empty_run_changes_nothing() {
    let mut w = Watcher::new();
    assert_eq!(w.run(vec![]), 0);
    assert!(w.last.is_none());
}

#[test]
fn refresh_idempotent() {
    let mut w = Watcher::new();
    assert!(w.observe(snap_a()));
    // the identical snapshot again: no second notify-and-persist cycle
    assert!(!w.observe(snap_a()));
    assert!(w.observe(snap_b()));
}

#[test]
fn wifi_connect_scenario() {
    // active=false -> true with ssid "home": exactly one connect message
    let prev = WifiState::new(false, "", 0);
    let cur = Wifi::get_state("yes:home:70\n");
    let mut w = Watcher::new();
    assert!(w.observe(Snapshot::Wifi(WifiState::new(false, "", 0))));
    let fired = w.observe(Snapshot::Wifi(Wifi::get_state("yes:home:70\n")));
    assert!(fired);
    let note = cur.notify(Some(&prev)).expect("a connect notification");
    assert_eq!(note.summary, "Wi-Fi");
    assert_eq!(note.body, "Connected to 'home'");
    // the same observation again: no change, no notification
    assert!(!w.observe(Snapshot::Wifi(Wifi::get_state("yes:home:70\n"))));
    let again = Wifi::get_state("yes:home:70\n");
    assert!(again.notify(Some(&cur)).is_none());
}

#[test]
fn wifi_disconnect_names_old_network() {
    let prev = WifiState::new(true, "home", 70);
    let cur = Wifi::get_state("no::\n");
    let note = cur.notify(Some(&prev)).expect("a disconnect notification");
    assert_eq!(note.body, "Disconnected from 'home'");
}

#[test]
fn wifi_scan_parsing() {
    let s = Wifi::get_state("no:other:12\nyes:work:30\n");
    assert!(s.active);
    assert_eq!(s.ssid, "work");
    let down = Wifi::get_state("");
    assert!(!down.active);
    assert_eq!(down.ssid, "");
    // unreadable signal counts as zero, the name still comes through
    let odd = Wifi::get_state("yes:cafe:strong\n");
    assert!(odd.active);
    assert_eq!(odd.ssid, "cafe");
}
