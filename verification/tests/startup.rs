use clicknfocus::cli::Args;
use clicknfocus::permissions::{permission_wait_step, PermissionCheck, PermissionWait};

#[test]
fn args_become_focus_config() {
    let args = Args { raise: true, ignore: vec!["com.apple.dock".to_string(), "com.a".to_string()], verbose: false };
    let config = args.into_focus_config(4242);
    assert!(config.raise);
    assert_eq!(config.ignore_bundle_ids, vec!["com.apple.dock".to_string(), "com.a".to_string()]);
    assert_eq!(config.own_pid, 4242);
}

#[test]
fn permission_wait_decisions() {
    assert_eq!(permission_wait_step(PermissionCheck::Prompting, true, false), PermissionWait::Proceed);
    assert_eq!(permission_wait_step(PermissionCheck::Prompting, false, true), PermissionWait::PollNow);
    assert_eq!(permission_wait_step(PermissionCheck::Polling, true, true), PermissionWait::Proceed);
    assert_eq!(permission_wait_step(PermissionCheck::Polling, false, false), PermissionWait::PollAfterInterval);
    assert_eq!(permission_wait_step(PermissionCheck::Polling, false, true), PermissionWait::GiveUp);
}
