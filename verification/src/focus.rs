//! Which windows may receive focus.

use vstd::prelude::*;

verus! {

/// Information about a window resolved from a screen position.
#[derive(Debug, Clone, PartialEq, Eq)]
pub struct WindowInfo {
    /// The process ID owning the window.
    pub pid: i32,
    /// The bundle identifier of the owning app (e.g. "com.apple.Safari"), if available.
    pub bundle_id: Option<String>,
    /// The AX role of the element under the cursor (e.g. "AXWindow", "AXMenuBar").
    pub role: Option<String>,
    /// An identifier for the window, used to detect "same window" across calls.
    pub window_id: u64,
    /// The CoreGraphics window id, when it could be read.
    pub cg_window_id: Option<u32>,
}

/// The mathematical model of a [`WindowInfo`]: strings are taken by their characters.
pub struct WindowInfoView {
    pub pid: i32,
    pub bundle_id: Option<Seq<char>>,
    pub role: Option<Seq<char>>,
    pub window_id: u64,
    pub cg_window_id: Option<u32>,
}

/// The characters of an optional string.
pub open spec fn opt_string_view(o: Option<String>) -> Option<Seq<char>> {
    match o {
        Some(s) => Some(s@),
        None => None,
    }
}

impl View for WindowInfo {
    type V = WindowInfoView;

    open spec fn view(&self) -> WindowInfoView {
        WindowInfoView {
            pid: self.pid,
            bundle_id: opt_string_view(self.bundle_id),
            role: opt_string_view(self.role),
            window_id: self.window_id,
            cg_window_id: self.cg_window_id,
        }
    }
}

/// Configuration for the focus decision engine.
pub struct FocusConfig {
    /// Whether to also raise windows when focusing.
    pub raise: bool,
    /// Bundle IDs to ignore (never focus these apps).
    pub ignore_bundle_ids: Vec<String>,
    /// Our own process ID (never focus ourselves).
    pub own_pid: i32,
}

/// The mathematical model of a [`FocusConfig`].
pub struct FocusConfigView {
    pub raise: bool,
    pub ignore_bundle_ids: Seq<Seq<char>>,
    pub own_pid: i32,
}

impl View for FocusConfig {
    type V = FocusConfigView;

    open spec fn view(&self) -> FocusConfigView {
        FocusConfigView {
            raise: self.raise,
            ignore_bundle_ids: self.ignore_bundle_ids@.map_values(|s: String| s@),
            own_pid: self.own_pid,
        }
    }
}

/// Roles that are never focused (system UI elements): menu bar, menu, menu item.
pub open spec fn is_system_role(role: Seq<char>) -> bool {
    ||| role == "AXMenuBar"@
    ||| role == "AXMenu"@
    ||| role == "AXMenuItem"@
}

/// Bundle IDs that are always skipped, whatever the configuration says (the Dock).
pub open spec fn is_always_skipped_bundle(bundle: Seq<char>) -> bool {
    bundle == "com.apple.dock"@
}

/// A window may be focused unless it belongs to our own process, its element has a
/// system role, its app is the Dock or on the ignore list, or it is the window that
/// was focused last.
pub open spec fn focus_allowed(
    info: WindowInfoView,
    config: FocusConfigView,
    last_focused_window_id: Option<u64>,
) -> bool {
    &&& info.pid != config.own_pid
    &&& !(info.role matches Some(r) && is_system_role(r))
    &&& !(info.bundle_id matches Some(b) && is_always_skipped_bundle(b))
    &&& !(info.bundle_id matches Some(b) && config.ignore_bundle_ids.contains(b))
    &&& !(last_focused_window_id matches Some(id) && info.window_id == id)
}

fn is_system_role_name(role: &String) -> (res: bool)
    ensures
        res == is_system_role(role@),
{
    let menu_bar = "AXMenuBar".to_owned();
    let menu = "AXMenu".to_owned();
    let menu_item = "AXMenuItem".to_owned();
    *role == menu_bar || *role == menu || *role == menu_item
}

fn is_always_skipped_bundle_name(bundle: &String) -> (res: bool)
    ensures
        res == is_always_skipped_bundle(bundle@),
{
    let dock = "com.apple.dock".to_owned();
    *bundle == dock
}

fn is_ignored_bundle(config: &FocusConfig, bundle: &String) -> (res: bool)
    ensures
        res == config@.ignore_bundle_ids.contains(bundle@),
{
    let n = config.ignore_bundle_ids.len();
    let mut i: usize = 0;
    while i < n
        invariant
            n == config.ignore_bundle_ids.len(),
            0 <= i <= n,
            forall|j: int| 0 <= j < i ==> config.ignore_bundle_ids@[j]@ != bundle@,
        decreases n - i,
    {
        if config.ignore_bundle_ids[i] == *bundle {
            assert(config@.ignore_bundle_ids[i as int] == bundle@);
            return true;
        }
        i += 1;
    }
    assert(!config@.ignore_bundle_ids.contains(bundle@)) by {
        if config@.ignore_bundle_ids.contains(bundle@) {
            let k = choose|k: int|
                0 <= k < config@.ignore_bundle_ids.len() && config@.ignore_bundle_ids[k]
                    == bundle@;
            assert(config.ignore_bundle_ids@[k]@ == bundle@);
        }
    }
    false
}

/// Decides whether the given window should be focused, considering the window that
/// was focused last and the configuration. Returns true if activation should proceed.
pub fn should_focus(
    info: &WindowInfo,
    config: &FocusConfig,
    last_focused_window_id: Option<u64>,
) -> (res: bool)
    ensures
        res == focus_allowed(info@, config@, last_focused_window_id),
        info.pid == config.own_pid ==> !res,
        info@.role matches Some(r) && is_system_role(r) ==> !res,
        info@.bundle_id matches Some(b) && is_always_skipped_bundle(b) ==> !res,
        info@.bundle_id matches Some(b) && config@.ignore_bundle_ids.contains(b) ==> !res,
        last_focused_window_id == Some(info.window_id) ==> !res,
        info.pid != config.own_pid
            && (info@.role matches Some(r) ==> r != "AXMenuBar"@ && r != "AXMenu"@ && r
            != "AXMenuItem"@)
            && (info@.bundle_id matches Some(b) ==> b != "com.apple.dock"@
            && !config@.ignore_bundle_ids.contains(b))
            && last_focused_window_id != Some(info.window_id) ==> res,
{
    // Skip our own process.
    if info.pid == config.own_pid {
        return false;
    }
    // Skip system UI roles.
    if let Some(role) = &info.role {
        if is_system_role_name(role) {
            return false;
        }
    }
    if let Some(bundle) = &info.bundle_id {
        // Skip always-ignored bundles (the Dock).
        if is_always_skipped_bundle_name(bundle) {
            return false;
        }
        // Skip the user-configured ignore list.
        if is_ignored_bundle(config, bundle) {
            return false;
        }
    }
    // Skip the window that is already focused.
    if let Some(last_id) = last_focused_window_id {
        if info.window_id == last_id {
            return false;
        }
    }
    true
}

/// Only the listed reasons refuse focus: a window of another process whose role is
/// none of "AXMenuBar", "AXMenu", "AXMenuItem" (or unknown), whose bundle id is not
/// "com.apple.dock" and not on the ignore list (or unknown), and which is not the
/// window focused last, may be focused, whatever its role and bundle id otherwise are.
pub proof fn lemma_ordinary_window_may_be_focused(
    info: WindowInfoView,
    config: FocusConfigView,
    last_focused_window_id: Option<u64>,
)
    requires
        info.pid != config.own_pid,
        info.role matches Some(r) ==> r != "AXMenuBar"@ && r != "AXMenu"@ && r != "AXMenuItem"@,
        info.bundle_id matches Some(b) ==> b != "com.apple.dock"@
            && !config.ignore_bundle_ids.contains(b),
        last_focused_window_id != Some(info.window_id),
    ensures
        focus_allowed(info, config, last_focused_window_id),
{
}

/// Each listed reason alone refuses focus: our own process, the roles "AXMenuBar",
/// "AXMenu" and "AXMenuItem", the bundle id "com.apple.dock", an ignored bundle id,
/// and the window focused last.
pub proof fn lemma_listed_reasons_refuse_focus(
    info: WindowInfoView,
    config: FocusConfigView,
    last_focused_window_id: Option<u64>,
)
    ensures
        info.pid == config.own_pid ==> !focus_allowed(info, config, last_focused_window_id),
        info.role == Some("AXMenuBar"@) ==> !focus_allowed(info, config, last_focused_window_id),
        info.role == Some("AXMenu"@) ==> !focus_allowed(info, config, last_focused_window_id),
        info.role == Some("AXMenuItem"@) ==> !focus_allowed(info, config, last_focused_window_id),
        info.bundle_id == Some("com.apple.dock"@) ==> !focus_allowed(
            info,
            config,
            last_focused_window_id,
        ),
        (info.bundle_id matches Some(b) && config.ignore_bundle_ids.contains(b)) ==> !focus_allowed(
            info,
            config,
            last_focused_window_id,
        ),
        last_focused_window_id == Some(info.window_id) ==> !focus_allowed(
            info,
            config,
            last_focused_window_id,
        ),
{
}

} // verus!
