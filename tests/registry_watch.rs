use locked_in::registry::{EnumeratedDevice, HidDeviceKey, HidDevices, UsagePair};
use locked_in::watcher::{
    decode_image_path, decode_window_text, owning_process, FocusPoll, FocusWatcher,
    EVENT_SYSTEM_FOREGROUND, OBJID_WINDOW, OVERLAY_WINDOW_CLASS,
};
use locked_in::window::WindowMetadata;

fn enumerated(vid: u16, pid: u16, page: u16, usage: u16, product: &str, tag: &'static str) -> EnumeratedDevice<&'static str> {
    EnumeratedDevice {
        key: HidDeviceKey { vendor_id: vid, product_id: pid, usage_page: page, usage },
        manufacturer_string: "Maker".to_string(),
        product_string: product.to_string(),
        info: tag,
    }
}

fn key(vid: u16, pid: u16, page: u16, usage: u16) -> HidDeviceKey {
    HidDeviceKey { vendor_id: vid, product_id: pid, usage_page: page, usage }
}

#[test]
fn catalog_merges_usages_per_vendor_and_product() {
    let mut reg = HidDevices::new();
    reg.refresh(vec![
        enumerated(1, 2, 0x01, 0x06, "Keyboard", "a"),
        enumerated(1, 2, 0xff60, 0x61, "Keyboard raw", "b"),
        enumerated(3, 4, 0x01, 0x02, "Mouse", "c"),
        enumerated(1, 2, 0x01, 0x06, "Keyboard again", "d"),
    ]);
    let list = reg.get_metadata_list();
    assert_eq!(list.len(), 2);
    assert_eq!((list[0].vendor_id, list[0].product_id), (1, 2));
    assert_eq!(list[0].product_string, "Keyboard");
    assert_eq!(
        list[0].usages,
        vec![UsagePair { usage_page: 0x01, usage: 0x06 }, UsagePair { usage_page: 0xff60, usage: 0x61 }]
    );
    assert_eq!((list[1].vendor_id, list[1].product_id), (3, 4));
    assert_eq!(list[1].usages, vec![UsagePair { usage_page: 0x01, usage: 0x02 }]);
}

#[test]
fn resolution_takes_first_match_and_reports_missing() {
    let mut reg = HidDevices::new();
    reg.refresh(vec![
        enumerated(1, 2, 0x01, 0x06, "Keyboard", "first"),
        enumerated(1, 2, 0x01, 0x06, "Keyboard", "second"),
        enumerated(1, 2, 0xff60, 0x61, "Keyboard", "raw"),
    ]);
    assert_eq!(reg.get(&key(1, 2, 0x01, 0x06)), Some(&"first"));
    assert_eq!(reg.get(&key(1, 2, 0xff60, 0x61)), Some(&"raw"));
    assert_eq!(reg.get(&key(1, 2, 0xff60, 0x06)), None);
    assert_eq!(reg.get(&key(2, 1, 0x01, 0x06)), None);
}

#[test]
fn empty_registry_lists_and_resolves_nothing() {
    let reg: HidDevices<u8> = HidDevices::new();
    assert!(reg.get_metadata_list().is_empty());
    assert_eq!(reg.get(&key(0, 0, 0, 0)), None);
}

#[test]
fn refresh_replaces_catalog_and_index_together() {
    let mut reg = HidDevices::new();
    reg.refresh(vec![enumerated(1, 2, 0x01, 0x06, "Old", "old")]);
    let before = (reg.get(&key(1, 2, 0x01, 0x06)).copied(), reg.get_metadata_list().len());
    assert_eq!(before, (Some("old"), 1));
    reg.refresh(vec![
        enumerated(5, 6, 0x01, 0x06, "New", "new"),
        enumerated(7, 8, 0x01, 0x06, "Other", "other"),
    ]);
    assert_eq!(reg.get(&key(1, 2, 0x01, 0x06)), None);
    assert_eq!(reg.get(&key(5, 6, 0x01, 0x06)), Some(&"new"));
    let list = reg.get_metadata_list();
    assert_eq!(list.len(), 2);
    assert_eq!(list[0].product_string, "New");
}

#[test]
fn identities_differing_in_one_field_stay_apart() {
    let mut reg = HidDevices::new();
    reg.refresh(vec![
        enumerated(0xffff, 0, 0, 0, "a", "vid"),
        enumerated(0, 0xffff, 0, 0, "b", "pid"),
        enumerated(0, 0, 0xffff, 0, "c", "page"),
        enumerated(0, 0, 0, 0xffff, "d", "usage"),
    ]);
    assert_eq!(reg.get(&key(0xffff, 0, 0, 0)), Some(&"vid"));
    assert_eq!(reg.get(&key(0, 0xffff, 0, 0)), Some(&"pid"));
    assert_eq!(reg.get(&key(0, 0, 0xffff, 0)), Some(&"page"));
    assert_eq!(reg.get(&key(0, 0, 0, 0xffff)), Some(&"usage"));
}

fn titled(t: &str) -> WindowMetadata {
    WindowMetadata { title: Some(t.to_string()), class: None, exe: None }
}

#[test]
fn burst_of_three_is_seen_once_as_the_last() {
    let mut watcher = FocusWatcher::new();
    let mut sub = watcher.subscribe();
    watcher.publish(titled("one"));
    watcher.publish(titled("two"));
    watcher.publish(titled("three"));
    let mut passes = Vec::new();
    loop {
        match watcher.poll(&mut sub) {
            FocusPoll::Changed(w) => passes.push(w.title.unwrap()),
            _ => break,
        }
    }
    assert_eq!(passes, vec!["three".to_string()]);
}

#[test]
fn fresh_subscription_waits_then_closes() {
    let mut watcher = FocusWatcher::new();
    watcher.publish(titled("before"));
    let mut sub = watcher.subscribe();
    assert!(matches!(watcher.poll(&mut sub), FocusPoll::Pending));
    watcher.publish(titled("after"));
    watcher.close();
    match watcher.poll(&mut sub) {
        FocusPoll::Changed(w) => assert_eq!(w.title.as_deref(), Some("after")),
        _ => panic!("expected the last snapshot before closing"),
    }
    assert!(matches!(watcher.poll(&mut sub), FocusPoll::Closed));
}

#[test]
fn snapshot_is_replaced_wholesale() {
    let mut watcher = FocusWatcher::new();
    assert_eq!(watcher.get_focused_window().title, None);
    watcher.publish(WindowMetadata {
        title: Some("Editor".to_string()),
        class: Some("EditorClass".to_string()),
        exe: Some("C:\\editor.exe".to_string()),
    });
    watcher.publish(titled("Only title"));
    let w = watcher.get_focused_window();
    assert_eq!(w.title.as_deref(), Some("Only title"));
    assert_eq!(w.class, None);
    assert_eq!(w.exe, None);
}

#[test]
fn foreground_events_are_filtered() {
    let mut watcher = FocusWatcher::new();
    let mut sub = watcher.subscribe();
    assert!(!watcher.on_foreground_event(EVENT_SYSTEM_FOREGROUND + 1, OBJID_WINDOW, titled("x")));
    assert!(!watcher.on_foreground_event(EVENT_SYSTEM_FOREGROUND, OBJID_WINDOW - 1, titled("x")));
    let overlay = WindowMetadata { title: None, class: Some(OVERLAY_WINDOW_CLASS.to_string()), exe: None };
    assert!(!watcher.on_foreground_event(EVENT_SYSTEM_FOREGROUND, OBJID_WINDOW, overlay));
    assert!(matches!(watcher.poll(&mut sub), FocusPoll::Pending));
    let similar = WindowMetadata {
        title: None,
        class: Some("XamlExplorerHostIslandWindowX".to_string()),
        exe: None,
    };
    assert!(watcher.on_foreground_event(EVENT_SYSTEM_FOREGROUND, OBJID_WINDOW, similar));
    assert!(watcher.on_foreground_event(EVENT_SYSTEM_FOREGROUND, OBJID_WINDOW, titled("Notepad")));
    match watcher.poll(&mut sub) {
        FocusPoll::Changed(w) => assert_eq!(w.title.as_deref(), Some("Notepad")),
        _ => panic!("expected a change"),
    }
}

#[test]
fn window_text_is_truncated_to_the_copied_count() {
    let buf: Vec<u16> = "Google Chrome\0\0\0".encode_utf16().collect();
    assert_eq!(decode_window_text(&buf, 6), Some("Google".to_string()));
    assert_eq!(decode_window_text(&buf, 13), Some("Google Chrome".to_string()));
    assert_eq!(decode_window_text(&buf, 0), None);
    assert_eq!(decode_window_text(&buf, -1), None);
    let short: Vec<u16> = "ab".encode_utf16().collect();
    assert_eq!(decode_window_text(&short, 10), Some("ab".to_string()));
}

#[test]
fn invalid_utf16_degrades_to_replacement_character() {
    let buf: Vec<u16> = vec![0x0041, 0xd800, 0x0042];
    assert_eq!(decode_window_text(&buf, 3), Some("A\u{fffd}B".to_string()));
}

#[test]
fn image_path_needs_a_successful_query() {
    let buf: Vec<u16> = "C:\\Apps\\chrome.exe\0\0".encode_utf16().collect();
    assert_eq!(decode_image_path(true, &buf, 18), Some("C:\\Apps\\chrome.exe".to_string()));
    assert_eq!(decode_image_path(false, &buf, 18), None);
}

#[test]
fn zero_process_id_is_absent() {
    assert_eq!(owning_process(0), None);
    assert_eq!(owning_process(4242), Some(4242));
}
