use clicknfocus::focus::{should_focus, FocusConfig, WindowInfo};
use std::cell::RefCell;

fn make_config() -> FocusConfig {
    FocusConfig {
        raise: false,
        ignore_bundle_ids: vec!["com.example.ignored".to_string()],
        own_pid: 999,
    }
}

fn make_window(pid: i32, bundle_id: &str, role: &str, window_id: u64) -> WindowInfo {
    WindowInfo {
        pid,
        bundle_id: Some(bundle_id.to_string()),
        role: Some(role.to_string()),
        window_id,
        cg_window_id: None,
    }
}

#[test]
fn test_should_focus_normal_window() {
    let config = make_config();
    let info = make_window(100, "com.example.app", "AXWindow", 1);
    assert!(should_focus(&info, &config, None));
}

#[test]
fn test_skip_own_process() {
    let config = make_config();
    let info = make_window(999, "com.example.self", "AXWindow", 1);
    assert!(!should_focus(&info, &config, None));
}

#[test]
fn test_skip_menu_bar() {
    let config = make_config();
    let info = make_window(100, "com.apple.systemuiserver", "AXMenuBar", 2);
    assert!(!should_focus(&info, &config, None));
}

#[test]
fn test_skip_menu_item() {
    let config = make_config();
    let info = make_window(100, "com.apple.systemuiserver", "AXMenuItem", 3);
    assert!(!should_focus(&info, &config, None));
}

#[test]
fn test_skip_dock() {
    let config = make_config();
    let info = make_window(200, "com.apple.dock", "AXWindow", 4);
    assert!(!should_focus(&info, &config, None));
}

#[test]
fn test_skip_user_ignored_bundle() {
    let config = make_config();
    let info = make_window(300, "com.example.ignored", "AXWindow", 5);
    assert!(!should_focus(&info, &config, None));
}

#[test]
fn test_skip_same_window() {
    let config = make_config();
    let info = make_window(100, "com.example.app", "AXWindow", 42);
    assert!(!should_focus(&info, &config, Some(42)));
}

#[test]
fn test_focus_different_window_same_app() {
    let config = make_config();
    let info = make_window(100, "com.example.app", "AXWindow", 43);
    // Different window_id from the last focused one -- should focus
    assert!(should_focus(&info, &config, Some(42)));
}

#[test]
fn test_focus_window_no_bundle_id() {
    let config = make_config();
    let info = WindowInfo {
        pid: 100,
        bundle_id: None,
        role: Some("AXWindow".to_string()),
        window_id: 10,
        cg_window_id: None,
    };
    assert!(should_focus(&info, &config, None));
}

#[test]
fn test_focus_window_no_role() {
    let config = make_config();
    let info = WindowInfo {
        pid: 100,
        bundle_id: Some("com.example.app".to_string()),
        role: None,
        window_id: 11,
        cg_window_id: None,
    };
    assert!(should_focus(&info, &config, None));
}

#[test]
fn test_skip_menu_role() {
    let config = make_config();
    let info = make_window(100, "com.apple.systemuiserver", "AXMenu", 12);
    assert!(!should_focus(&info, &config, None));
}

// --- Flow with a stand-in for the Accessibility API ---

/// Stand-in for the Accessibility API: windows at positions, and a record of
/// activations.
struct MockResolver {
    windows: Vec<(f64, f64, WindowInfo)>,
    activated: RefCell<Vec<(WindowInfo, bool)>>,
}

impl MockResolver {
    fn new() -> Self {
        Self { windows: Vec::new(), activated: RefCell::new(Vec::new()) }
    }

    fn add_window(&mut self, x: f64, y: f64, info: WindowInfo) {
        self.windows.push((x, y, info));
    }

    fn window_at_position(&self, x: f64, y: f64) -> Option<WindowInfo> {
        self.windows
            .iter()
            .find(|(wx, wy, _)| (wx - x).abs() < 1.0 && (wy - y).abs() < 1.0)
            .map(|(_, _, info)| info.clone())
    }

    fn activate(&self, info: &WindowInfo, raise: bool) {
        self.activated.borrow_mut().push((info.clone(), raise));
    }
}

#[test]
fn test_full_focus_flow_with_mock() {
    let mut resolver = MockResolver::new();
    let window = make_window(100, "com.test.safari", "AXWindow", 42);
    resolver.add_window(500.0, 300.0, window);
    let config = make_config();

    let info = resolver.window_at_position(500.0, 300.0).unwrap();

    // Should focus: new window, different app, not ignored
    assert!(should_focus(&info, &config, None));

    resolver.activate(&info, config.raise);

    let activated = resolver.activated.borrow();
    assert_eq!(activated.len(), 1);
    assert_eq!(activated[0].0.pid, 100);
    assert!(!activated[0].1); // raise=false (default config)
}

#[test]
fn test_full_focus_flow_skip_same_window() {
    let mut resolver = MockResolver::new();
    let window = make_window(100, "com.test.safari", "AXWindow", 42);
    resolver.add_window(500.0, 300.0, window);
    let config = make_config();

    let info = resolver.window_at_position(500.0, 300.0).unwrap();

    // Should NOT focus: same window already focused
    assert!(!should_focus(&info, &config, Some(42)));

    // No activation should happen
    let activated = resolver.activated.borrow();
    assert_eq!(activated.len(), 0);
}

#[test]
fn own_process_is_skipped_even_with_empty_ignore_list() {
    let config = FocusConfig { raise: true, ignore_bundle_ids: Vec::new(), own_pid: 7 };
    let info = make_window(7, "com.example.app", "AXWindow", 1);
    assert!(!should_focus(&info, &config, None));
    let other = make_window(8, "com.example.app", "AXWindow", 1);
    assert!(should_focus(&other, &config, None));
}

#[test]
fn ignore_list_matches_whole_bundle_ids_only() {
    let config = FocusConfig {
        raise: false,
        ignore_bundle_ids: vec!["com.a".to_string(), "com.b".to_string()],
        own_pid: 1,
    };
    assert!(!should_focus(&make_window(2, "com.b", "AXWindow", 5), &config, None));
    assert!(should_focus(&make_window(2, "com.bb", "AXWindow", 5), &config, None));
    assert!(should_focus(&make_window(2, "com", "AXWindow", 5), &config, None));
}

#[test]
fn dock_is_skipped_whatever_the_ignore_list() {
    let config = FocusConfig { raise: false, ignore_bundle_ids: Vec::new(), own_pid: 1 };
    assert!(!should_focus(&make_window(2, "com.apple.dock", "AXWindow", 5), &config, None));
    assert!(should_focus(&make_window(2, "com.apple.dockx", "AXWindow", 5), &config, None));
}

#[test]
fn similar_roles_are_not_system_roles() {
    let config = make_config();
    assert!(should_focus(&make_window(2, "com.x", "AXMenuButton", 5), &config, None));
    assert!(!should_focus(&make_window(2, "com.x", "AXMenu", 5), &config, Some(6)));
}
