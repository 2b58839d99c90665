use clicknfocus::ax::{
    error_string, window_id_from_query, window_info_from_parts, ScanStage, WalkQuery, WalkStage,
    WalkStep, WindowScan, WindowWalk, AX_ERROR_FAILURE, AX_ERROR_SUCCESS, AX_MAX_PARENT_WALK_DEPTH,
};

#[test]
fn error_strings() {
    assert_eq!(error_string(0), "success");
    assert_eq!(error_string(-25200), "failure");
    assert_eq!(error_string(-25201), "illegal argument");
    assert_eq!(error_string(-25202), "invalid UI element");
    assert_eq!(error_string(-25203), "invalid UI element observer");
    assert_eq!(error_string(-25204), "cannot complete");
    assert_eq!(error_string(-25205), "attribute unsupported");
    assert_eq!(error_string(-25206), "action unsupported");
    assert_eq!(error_string(-25207), "notification unsupported");
    assert_eq!(error_string(-25208), "not implemented");
    assert_eq!(error_string(-25209), "notification already registered");
    assert_eq!(error_string(-25210), "notification not registered");
    assert_eq!(error_string(-25211), "API disabled");
    assert_eq!(error_string(-25212), "no value");
    assert_eq!(error_string(-25213), "parameterized attribute unsupported");
    assert_eq!(error_string(-25214), "not enough precision");
    assert_eq!(error_string(-25215), "unknown error");
    assert_eq!(error_string(1), "unknown error");
}

#[test]
fn window_id_needs_success_and_nonzero() {
    assert_eq!(window_id_from_query(AX_ERROR_SUCCESS, 77), Some(77));
    assert_eq!(window_id_from_query(AX_ERROR_SUCCESS, 0), None);
    assert_eq!(window_id_from_query(AX_ERROR_FAILURE, 77), None);
}

#[test]
fn window_identity_prefers_cg_id() {
    let a = window_info_from_parts(5, Some("com.x".to_string()), None, Some(31), 0xdead_beef);
    assert_eq!(a.window_id, 31);
    assert_eq!(a.cg_window_id, Some(31));
    assert_eq!(a.pid, 5);
    assert_eq!(a.bundle_id.as_deref(), Some("com.x"));
    assert_eq!(a.role, None);
    let b = window_info_from_parts(5, None, Some("AXWindow".to_string()), None, 0xdead_beef);
    assert_eq!(b.window_id, 0xdead_beef);
    assert_eq!(b.cg_window_id, None);
}

#[test]
fn walk_finds_window_element() {
    let mut walk = WindowWalk::new();
    assert_eq!(walk.start_level(false), WalkStep::Query(WalkQuery::Role));
    assert_eq!(walk.on_role(&Some("AXWindow".to_string())), WalkStep::FoundElement);
    assert_eq!(walk.stage(), WalkStage::Finished);
}

#[test]
fn walk_uses_window_attribute_then_parents() {
    let mut walk = WindowWalk::new();
    assert_eq!(walk.start_level(false), WalkStep::Query(WalkQuery::Role));
    assert_eq!(walk.on_role(&Some("AXButton".to_string())), WalkStep::Query(WalkQuery::WindowAttribute));
    assert_eq!(walk.on_window_attribute(false), WalkStep::Query(WalkQuery::Parent));
    assert_eq!(walk.on_parent(true), WalkStep::Ascend);
    assert_eq!(walk.start_level(false), WalkStep::Query(WalkQuery::Role));
    assert_eq!(walk.on_role(&None), WalkStep::Query(WalkQuery::WindowAttribute));
    assert_eq!(walk.on_window_attribute(true), WalkStep::FoundWindowAttribute);
}

#[test]
fn walk_gives_up_without_parent_or_time() {
    let mut walk = WindowWalk::new();
    walk.start_level(false);
    walk.on_role(&None);
    walk.on_window_attribute(false);
    assert_eq!(walk.on_parent(false), WalkStep::GiveUp);

    let mut walk = WindowWalk::new();
    assert_eq!(walk.start_level(true), WalkStep::GiveUp);
    assert_eq!(walk.stage(), WalkStage::Finished);
}

#[test]
fn walk_climbs_at_most_the_maximum_depth() {
    let mut walk = WindowWalk::new();
    let mut climbed = 0u32;
    loop {
        assert_eq!(walk.start_level(false), WalkStep::Query(WalkQuery::Role));
        walk.on_role(&Some("AXGroup".to_string()));
        match walk.on_window_attribute(false) {
            WalkStep::Query(WalkQuery::Parent) => {
                assert_eq!(walk.on_parent(true), WalkStep::Ascend);
                climbed += 1;
            }
            WalkStep::GiveUp => break,
            other => panic!("unexpected step {:?}", other),
        }
    }
    assert_eq!(climbed, AX_MAX_PARENT_WALK_DEPTH);
    assert_eq!(climbed, 32);
}

#[test]
fn scan_finds_first_matching_window() {
    let ids = [Some(4u32), None, Some(9), Some(9)];
    let mut scan = WindowScan::new(9, ids.len());
    let mut found = None;
    while let Some(i) = scan.next_probe(false) {
        if scan.on_window_id(ids[i]) {
            found = Some(i);
            break;
        }
    }
    assert_eq!(found, Some(2));
    assert_eq!(scan.stage(), ScanStage::Finished);
}

#[test]
fn scan_stops_at_end_or_deadline() {
    let mut scan = WindowScan::new(9, 2);
    assert_eq!(scan.next_probe(false), Some(0));
    assert!(!scan.on_window_id(Some(1)));
    assert_eq!(scan.next_probe(false), Some(1));
    assert!(!scan.on_window_id(None));
    assert_eq!(scan.next_probe(false), None);

    let mut scan = WindowScan::new(9, 5);
    assert_eq!(scan.next_probe(false), Some(0));
    assert!(!scan.on_window_id(Some(3)));
    assert_eq!(scan.next_probe(true), None);
    assert_eq!(scan.stage(), ScanStage::Finished);
}
