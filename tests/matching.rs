use locked_in::config::{Event, FocusedWindowChangedConfig, Rule};
use locked_in::window::WindowMetadata;

fn titled(t: &str) -> WindowMetadata {
    WindowMetadata { title: Some(t.to_string()), class: None, exe: None }
}

fn config_with(inclusions: Vec<WindowMetadata>, exclusions: Vec<WindowMetadata>) -> FocusedWindowChangedConfig {
    FocusedWindowChangedConfig {
        inclusions,
        exclusions,
        on_match_reports: vec![vec![0x01]],
        on_no_match_reports: vec![vec![0x02]],
    }
}

#[test]
fn title_inclusion_matches_containing_title() {
    let cfg = config_with(vec![titled("Chrome")], vec![]);
    assert!(cfg.matches(&titled("Google Chrome")));
    assert_eq!(cfg.select_reports(&titled("Google Chrome")), &vec![vec![0x01u8]]);
    assert!(!cfg.matches(&titled("Notepad")));
    assert_eq!(cfg.select_reports(&titled("Notepad")), &vec![vec![0x02u8]]);
}

#[test]
fn exclusion_wins_over_inclusion() {
    let exclusion = WindowMetadata { title: None, class: Some("Popup".to_string()), exe: None };
    let cfg = config_with(vec![titled("Chrome")], vec![exclusion]);
    let window = WindowMetadata {
        title: Some("Google Chrome".to_string()),
        class: Some("Popup".to_string()),
        exe: None,
    };
    assert!(!cfg.matches(&window));
    assert_eq!(cfg.select_reports(&window), &vec![vec![0x02u8]]);
}

#[test]
fn unset_pattern_never_matches() {
    let pattern = WindowMetadata::default();
    let windows = [
        WindowMetadata::default(),
        titled(""),
        titled("Google Chrome"),
        WindowMetadata {
            title: Some("a".to_string()),
            class: Some("b".to_string()),
            exe: Some("C:\\c.exe".to_string()),
        },
    ];
    for w in windows.iter() {
        assert!(!w.match_any(&pattern));
    }
}

#[test]
fn empty_pattern_text_matches_nothing() {
    assert!(!titled("Google Chrome").match_any(&titled("")));
    let class = WindowMetadata { title: None, class: Some(String::new()), exe: None };
    let window = WindowMetadata { title: None, class: Some("Popup".to_string()), exe: None };
    assert!(!window.match_any(&class));
}

#[test]
fn window_matches_patterns_of_the_exclusion_example() {
    let window = WindowMetadata {
        title: Some("Google Chrome".to_string()),
        class: Some("Popup".to_string()),
        exe: None,
    };
    assert!(window.match_any(&titled("Chrome")));
    assert!(window.match_any(&WindowMetadata { title: None, class: Some("Popup".to_string()), exe: None }));
}

#[test]
fn pattern_is_found_inside_window_value_not_the_reverse() {
    assert!(titled("Google Chrome").match_any(&titled("Chrome")));
    assert!(!titled("Chrome").match_any(&titled("Google Chrome")));
    assert!(!titled("Google Chrome").match_any(&titled("chrome")));
}

#[test]
fn any_populated_field_is_enough() {
    let pattern = WindowMetadata {
        title: Some("Nothing like it".to_string()),
        class: Some("Popup".to_string()),
        exe: None,
    };
    let window = WindowMetadata {
        title: Some("Google Chrome".to_string()),
        class: Some("MyPopupWindow".to_string()),
        exe: None,
    };
    assert!(window.match_any(&pattern));
}

#[test]
fn exe_matches_by_exact_path() {
    let pattern = WindowMetadata { title: None, class: None, exe: Some("C:\\Apps\\chrome.exe".to_string()) };
    let same = WindowMetadata { title: None, class: None, exe: Some("C:\\Apps\\chrome.exe".to_string()) };
    let longer = WindowMetadata { title: None, class: None, exe: Some("C:\\Apps\\chrome.exe.bak".to_string()) };
    let absent = WindowMetadata::default();
    assert!(same.match_any(&pattern));
    assert!(!longer.match_any(&pattern));
    assert!(!absent.match_any(&pattern));
}

#[test]
fn no_inclusions_never_fire_match() {
    let cfg = config_with(vec![], vec![]);
    assert!(!cfg.matches(&titled("Google Chrome")));
    assert_eq!(cfg.select_reports(&titled("Google Chrome")), &vec![vec![0x02u8]]);
}

#[test]
fn any_of_several_inclusions_suffices() {
    let cfg = config_with(vec![titled("Firefox"), titled("Chrome")], vec![titled("Incognito")]);
    assert!(cfg.matches(&titled("Google Chrome")));
    assert!(!cfg.matches(&titled("Google Chrome Incognito")));
}

#[test]
fn rule_holds_its_event_configuration() {
    let rule = Rule {
        name: "browser".to_string(),
        event: Event::FocusedWindowChanged(config_with(vec![titled("Chrome")], vec![])),
        devices: vec![],
    };
    match &rule.event {
        Event::FocusedWindowChanged(cfg) => assert!(cfg.matches(&titled("Google Chrome"))),
    }
}
