//! Decisions taken while querying the macOS Accessibility API: error texts, window
//! identity, and the two bounded searches for the window under the cursor.

use vstd::prelude::*;

use crate::focus::{opt_string_view, WindowInfo};

verus! {

/// `AXError` codes of the Accessibility API.
pub const AX_ERROR_SUCCESS: i32 = 0;
pub const AX_ERROR_FAILURE: i32 = -25200;
pub const AX_ERROR_ILLEGAL_ARGUMENT: i32 = -25201;
pub const AX_ERROR_INVALID_UI_ELEMENT: i32 = -25202;
pub const AX_ERROR_INVALID_UI_ELEMENT_OBSERVER: i32 = -25203;
pub const AX_ERROR_CANNOT_COMPLETE: i32 = -25204;
pub const AX_ERROR_ATTRIBUTE_UNSUPPORTED: i32 = -25205;
pub const AX_ERROR_ACTION_UNSUPPORTED: i32 = -25206;
pub const AX_ERROR_NOTIFICATION_UNSUPPORTED: i32 = -25207;
pub const AX_ERROR_NOT_IMPLEMENTED: i32 = -25208;
pub const AX_ERROR_NOTIFICATION_ALREADY_REGISTERED: i32 = -25209;
pub const AX_ERROR_NOTIFICATION_NOT_REGISTERED: i32 = -25210;
pub const AX_ERROR_API_DISABLED: i32 = -25211;
pub const AX_ERROR_NO_VALUE: i32 = -25212;
pub const AX_ERROR_PARAMETERIZED_ATTRIBUTE_UNSUPPORTED: i32 = -25213;
pub const AX_ERROR_NOT_ENOUGH_PRECISION: i32 = -25214;

/// The human-readable text of an `AXError` code.
pub open spec fn ax_error_text(err: i32) -> Seq<char> {
    if err == AX_ERROR_SUCCESS {
        "success"@
    } else if err == AX_ERROR_FAILURE {
        "failure"@
    } else if err == AX_ERROR_ILLEGAL_ARGUMENT {
        "illegal argument"@
    } else if err == AX_ERROR_INVALID_UI_ELEMENT {
        "invalid UI element"@
    } else if err == AX_ERROR_INVALID_UI_ELEMENT_OBSERVER {
        "invalid UI element observer"@
    } else if err == AX_ERROR_CANNOT_COMPLETE {
        "cannot complete"@
    } else if err == AX_ERROR_ATTRIBUTE_UNSUPPORTED {
        "attribute unsupported"@
    } else if err == AX_ERROR_ACTION_UNSUPPORTED {
        "action unsupported"@
    } else if err == AX_ERROR_NOTIFICATION_UNSUPPORTED {
        "notification unsupported"@
    } else if err == AX_ERROR_NOT_IMPLEMENTED {
        "not implemented"@
    } else if err == AX_ERROR_NOTIFICATION_ALREADY_REGISTERED {
        "notification already registered"@
    } else if err == AX_ERROR_NOTIFICATION_NOT_REGISTERED {
        "notification not registered"@
    } else if err == AX_ERROR_API_DISABLED {
        "API disabled"@
    } else if err == AX_ERROR_NO_VALUE {
        "no value"@
    } else if err == AX_ERROR_PARAMETERIZED_ATTRIBUTE_UNSUPPORTED {
        "parameterized attribute unsupported"@
    } else if err == AX_ERROR_NOT_ENOUGH_PRECISION {
        "not enough precision"@
    } else {
        "unknown error"@
    }
}

/// Convert an `AXError` code to a human-readable string.
pub fn error_string(err: i32) -> (s: &'static str)
    ensures
        s@ == ax_error_text(err),
{
    if err == AX_ERROR_SUCCESS {
        "success"
    } else if err == AX_ERROR_FAILURE {
        "failure"
    } else if err == AX_ERROR_ILLEGAL_ARGUMENT {
        "illegal argument"
    } else if err == AX_ERROR_INVALID_UI_ELEMENT {
        "invalid UI element"
    } else if err == AX_ERROR_INVALID_UI_ELEMENT_OBSERVER {
        "invalid UI element observer"
    } else if err == AX_ERROR_CANNOT_COMPLETE {
        "cannot complete"
    } else if err == AX_ERROR_ATTRIBUTE_UNSUPPORTED {
        "attribute unsupported"
    } else if err == AX_ERROR_ACTION_UNSUPPORTED {
        "action unsupported"
    } else if err == AX_ERROR_NOTIFICATION_UNSUPPORTED {
        "notification unsupported"
    } else if err == AX_ERROR_NOT_IMPLEMENTED {
        "not implemented"
    } else if err == AX_ERROR_NOTIFICATION_ALREADY_REGISTERED {
        "notification already registered"
    } else if err == AX_ERROR_NOTIFICATION_NOT_REGISTERED {
        "notification not registered"
    } else if err == AX_ERROR_API_DISABLED {
        "API disabled"
    } else if err == AX_ERROR_NO_VALUE {
        "no value"
    } else if err == AX_ERROR_PARAMETERIZED_ATTRIBUTE_UNSUPPORTED {
        "parameterized attribute unsupported"
    } else if err == AX_ERROR_NOT_ENOUGH_PRECISION {
        "not enough precision"
    } else {
        "unknown error"
    }
}

/// The CoreGraphics window id read for a window element: only a successful read of
/// a non-zero id counts.
pub fn window_id_from_query(err: i32, raw_window_id: u32) -> (id: Option<u32>)
    ensures
        id == (if err == AX_ERROR_SUCCESS && raw_window_id != 0 {
            Some(raw_window_id)
        } else {
            None
        }),
{
    if err == AX_ERROR_SUCCESS && raw_window_id != 0 {
        Some(raw_window_id)
    } else {
        None
    }
}

/// The identity used to recognise "the same window" across lookups: its stable
/// CoreGraphics window id when known, otherwise the address of the element, which
/// differs per lookup and so merely disables the same-window check.
pub open spec fn window_identity(cg_window_id: Option<u32>, element_address: u64) -> u64 {
    match cg_window_id {
        Some(id) => id as u64,
        None => element_address,
    }
}

/// Assemble the [`WindowInfo`] of a window resolved under the cursor.
pub fn window_info_from_parts(
    pid: i32,
    bundle_id: Option<String>,
    role: Option<String>,
    cg_window_id: Option<u32>,
    element_address: u64,
) -> (info: WindowInfo)
    ensures
        info.pid == pid,
        info@.bundle_id == opt_string_view(bundle_id),
        info@.role == opt_string_view(role),
        info.bundle_id == bundle_id,
        info.role == role,
        info.cg_window_id == cg_window_id,
        info.window_id == window_identity(cg_window_id, element_address),
        cg_window_id matches Some(id) ==> info.window_id == id as u64,
        cg_window_id is None ==> info.window_id == element_address,
{
    let window_id = match cg_window_id {
        Some(id) => id as u64,
        None => element_address,
    };
    WindowInfo { pid, bundle_id, role, window_id, cg_window_id }
}

/// Two windows with the same known CoreGraphics id get the same identity, and
/// windows with different known ids get different identities.
pub proof fn lemma_identity_follows_cg_window_id(
    a: u32,
    address_a: u64,
    b: u32,
    address_b: u64,
)
    ensures
        (window_identity(Some(a), address_a) == window_identity(Some(b), address_b)) <==> a == b,
{
}

/// Maximum number of parents the walk from the element under the cursor up to its
/// window may climb. Bounds the walk on cyclic or excessively deep trees.
pub const AX_MAX_PARENT_WALK_DEPTH: u32 = 32;

/// Where a [`WindowWalk`] stands.
#[derive(Debug, Clone, Copy, PartialEq, Eq)]
pub enum WalkStage {
    /// At a new element: the time budget is checked first.
    LevelStart,
    /// Waiting for the role of the current element.
    AwaitRole,
    /// Waiting for whether the current element has a window attribute.
    AwaitWindowAttribute,
    /// Waiting for whether the current element has a parent.
    AwaitParent,
    /// The walk has ended.
    Finished,
}

/// What the caller of a [`WindowWalk`] asks of the Accessibility API next.
#[derive(Debug, Clone, Copy, PartialEq, Eq)]
pub enum WalkQuery {
    Role,
    WindowAttribute,
    Parent,
}

/// The outcome of one step of a [`WindowWalk`].
#[derive(Debug, Clone, Copy, PartialEq, Eq)]
pub enum WalkStep {
    /// Ask the given question about the current element.
    Query(WalkQuery),
    /// The current element is itself a window: it is the result.
    FoundElement,
    /// The current element's window attribute is the result.
    FoundWindowAttribute,
    /// Move to the parent, which becomes the current element.
    Ascend,
    /// No window is found.
    GiveUp,
}

/// The walk from an element up its parents to the window that holds it, bounded
/// by [`AX_MAX_PARENT_WALK_DEPTH`] parents and by a time budget. At each element the
/// walk checks the budget, then the element's role ("AXWindow" ends the walk), then
/// its window attribute, then climbs to its parent.
pub struct WindowWalk {
    remaining_depth: u32,
    stage: WalkStage,
    ascended: Ghost<nat>,
}

/// The mathematical model of a [`WindowWalk`].
pub struct WindowWalkView {
    pub remaining_depth: nat,
    pub stage: WalkStage,
    /// How many parents the walk has climbed.
    pub ascended: nat,
}

impl View for WindowWalk {
    type V = WindowWalkView;

    closed spec fn view(&self) -> WindowWalkView {
        WindowWalkView {
            remaining_depth: self.remaining_depth as nat,
            stage: self.stage,
            ascended: self.ascended@,
        }
    }
}

impl WindowWalk {
    #[verifier::type_invariant]
    spec fn depth_accounted(self) -> bool {
        self.ascended@ + self.remaining_depth == AX_MAX_PARENT_WALK_DEPTH
    }

    /// A walk starting at the element under the cursor.
    pub fn new() -> (w: WindowWalk)
        ensures
            w@.stage == WalkStage::LevelStart,
            w@.remaining_depth == AX_MAX_PARENT_WALK_DEPTH,
            w@.ascended == 0,
    {
        WindowWalk {
            remaining_depth: AX_MAX_PARENT_WALK_DEPTH,
            stage: WalkStage::LevelStart,
            ascended: Ghost(0),
        }
    }

    /// The stage the walk is in.
    pub fn stage(&self) -> (s: WalkStage)
        ensures
            s == self@.stage,
    {
        self.stage
    }

    /// Start at the current element: give up if the time budget is spent, else ask
    /// for its role.
    pub fn start_level(&mut self, deadline_passed: bool) -> (step: WalkStep)
        requires
            old(self)@.stage == WalkStage::LevelStart,
        ensures
            final(self)@.remaining_depth == old(self)@.remaining_depth,
            final(self)@.ascended == old(self)@.ascended,
            deadline_passed ==> step == WalkStep::GiveUp && final(self)@.stage
                == WalkStage::Finished,
            !deadline_passed ==> step == WalkStep::Query(WalkQuery::Role) && final(self)@.stage
                == WalkStage::AwaitRole,
    {
        proof {
            use_type_invariant(&*self);
        }
        let (stage, step) = if deadline_passed {
            (WalkStage::Finished, WalkStep::GiveUp)
        } else {
            (WalkStage::AwaitRole, WalkStep::Query(WalkQuery::Role))
        };
        *self = WindowWalk { stage, ..*self };
        step
    }

    /// The role of the current element: an "AXWindow" element is the result, else
    /// ask for its window attribute.
    pub fn on_role(&mut self, role: &Option<String>) -> (step: WalkStep)
        requires
            old(self)@.stage == WalkStage::AwaitRole,
        ensures
            final(self)@.remaining_depth == old(self)@.remaining_depth,
            final(self)@.ascended == old(self)@.ascended,
            opt_string_view(*role) == Some("AXWindow"@) ==> step == WalkStep::FoundElement
                && final(self)@.stage == WalkStage::Finished,
            opt_string_view(*role) != Some("AXWindow"@) ==> step == WalkStep::Query(
                WalkQuery::WindowAttribute,
            ) && final(self)@.stage == WalkStage::AwaitWindowAttribute,
    {
        let is_window = match role {
            Some(r) => {
                let window_role = "AXWindow".to_owned();
                *r == window_role
            },
            None => false,
        };
        proof {
            use_type_invariant(&*self);
        }
        let (stage, step) = if is_window {
            (WalkStage::Finished, WalkStep::FoundElement)
        } else {
            (WalkStage::AwaitWindowAttribute, WalkStep::Query(WalkQuery::WindowAttribute))
        };
        *self = WindowWalk { stage, ..*self };
        step
    }

    /// Whether the current element has a window attribute: if so it is the result;
    /// else give up when no parent may be climbed any more, or ask for the parent.
    pub fn on_window_attribute(&mut self, present: bool) -> (step: WalkStep)
        requires
            old(self)@.stage == WalkStage::AwaitWindowAttribute,
        ensures
            final(self)@.remaining_depth == old(self)@.remaining_depth,
            final(self)@.ascended == old(self)@.ascended,
            present ==> step == WalkStep::FoundWindowAttribute && final(self)@.stage
                == WalkStage::Finished,
            !present && old(self)@.remaining_depth == 0 ==> step == WalkStep::GiveUp
                && final(self)@.stage == WalkStage::Finished,
            !present && old(self)@.remaining_depth > 0 ==> step == WalkStep::Query(
                WalkQuery::Parent,
            ) && final(self)@.stage == WalkStage::AwaitParent,
    {
        proof {
            use_type_invariant(&*self);
        }
        let (stage, step) = if present {
            (WalkStage::Finished, WalkStep::FoundWindowAttribute)
        } else if self.remaining_depth == 0 {
            (WalkStage::Finished, WalkStep::GiveUp)
        } else {
            (WalkStage::AwaitParent, WalkStep::Query(WalkQuery::Parent))
        };
        *self = WindowWalk { stage, ..*self };
        step
    }

    /// Whether the current element has a parent: climb to it, or give up.
    pub fn on_parent(&mut self, present: bool) -> (step: WalkStep)
        requires
            old(self)@.stage == WalkStage::AwaitParent,
            old(self)@.remaining_depth > 0,
        ensures
            present ==> step == WalkStep::Ascend && final(self)@.stage == WalkStage::LevelStart
                && final(self)@.remaining_depth == old(self)@.remaining_depth - 1
                && final(self)@.ascended == old(self)@.ascended + 1,
            !present ==> step == WalkStep::GiveUp && final(self)@.stage == WalkStage::Finished
                && final(self)@.remaining_depth == old(self)@.remaining_depth
                && final(self)@.ascended == old(self)@.ascended,
            final(self)@.ascended + final(self)@.remaining_depth == AX_MAX_PARENT_WALK_DEPTH,
            final(self)@.ascended <= AX_MAX_PARENT_WALK_DEPTH,
    {
        proof {
            use_type_invariant(&*self);
        }
        if present {
            *self = WindowWalk {
                remaining_depth: self.remaining_depth - 1,
                stage: WalkStage::LevelStart,
                ascended: Ghost(self.ascended@ + 1),
            };
            WalkStep::Ascend
        } else {
            *self = WindowWalk { stage: WalkStage::Finished, ..*self };
            WalkStep::GiveUp
        }
    }
}

/// Where a [`WindowScan`] stands.
#[derive(Debug, Clone, Copy, PartialEq, Eq)]
pub enum ScanStage {
    /// Ready to pick the next window to look at.
    Probing,
    /// Waiting for the CoreGraphics id of the window that was picked.
    AwaitWindowId,
    /// The scan has ended.
    Finished,
}

/// The scan of an application's windows, in order, for the one whose CoreGraphics
/// window id is `target`, giving up when the list ends or the time budget is spent.
pub struct WindowScan {
    target: u32,
    count: usize,
    next: usize,
    stage: ScanStage,
    observed: Ghost<Seq<Option<u32>>>,
}

/// The mathematical model of a [`WindowScan`].
pub struct WindowScanView {
    pub target: u32,
    pub count: nat,
    /// The index of the window looked at next (or being looked at).
    pub next: nat,
    pub stage: ScanStage,
    /// The ids read so far, by index; `None` where no id could be read.
    pub observed: Seq<Option<u32>>,
}

impl View for WindowScan {
    type V = WindowScanView;

    closed spec fn view(&self) -> WindowScanView {
        WindowScanView {
            target: self.target,
            count: self.count as nat,
            next: self.next as nat,
            stage: self.stage,
            observed: self.observed@,
        }
    }
}

impl WindowScan {
    #[verifier::type_invariant]
    spec fn scan_consistent(self) -> bool {
        &&& self.next <= self.count
        &&& self.stage == ScanStage::AwaitWindowId ==> self.next < self.count
        &&& self.stage != ScanStage::Finished ==> self.observed@.len() == self.next
        &&& self.observed@.len() <= self.count
        &&& forall|j: int|
            0 <= j < self.next && j < self.observed@.len() ==> self.observed@[j] != Some(
                self.target,
            )
    }

    /// A scan over `count` windows for the id `target`.
    pub fn new(target: u32, count: usize) -> (s: WindowScan)
        ensures
            s@.target == target,
            s@.count == count,
            s@.next == 0,
            s@.stage == ScanStage::Probing,
            s@.observed == Seq::<Option<u32>>::empty(),
    {
        WindowScan { target, count, next: 0, stage: ScanStage::Probing, observed: Ghost(Seq::empty()) }
    }

    /// The stage the scan is in.
    pub fn stage(&self) -> (s: ScanStage)
        ensures
            s == self@.stage,
    {
        self.stage
    }

    /// The index of the next window to look at, or `None` when the list is done or
    /// the time budget is spent (the scan then ends).
    pub fn next_probe(&mut self, deadline_passed: bool) -> (probe: Option<usize>)
        requires
            old(self)@.stage == ScanStage::Probing,
        ensures
            final(self)@.target == old(self)@.target,
            final(self)@.count == old(self)@.count,
            final(self)@.next == old(self)@.next,
            final(self)@.observed == old(self)@.observed,
            probe == (if deadline_passed || old(self)@.next >= old(self)@.count {
                None
            } else {
                Some(old(self)@.next as usize)
            }),
            probe is None ==> final(self)@.stage == ScanStage::Finished,
            probe is Some ==> final(self)@.stage == ScanStage::AwaitWindowId,
    {
        proof {
            use_type_invariant(&*self);
        }
        if deadline_passed || self.next >= self.count {
            *self = WindowScan { stage: ScanStage::Finished, ..*self };
            None
        } else {
            *self = WindowScan { stage: ScanStage::AwaitWindowId, ..*self };
            Some(self.next)
        }
    }

    /// The CoreGraphics id of the window picked by [`Self::next_probe`] (`None` when
    /// the slot held no element or no id could be read). Returns true when it is the
    /// target: the window at that index is the result, and no earlier window had
    /// the target id.
    pub fn on_window_id(&mut self, id: Option<u32>) -> (found: bool)
        requires
            old(self)@.stage == ScanStage::AwaitWindowId,
        ensures
            final(self)@.target == old(self)@.target,
            final(self)@.count == old(self)@.count,
            final(self)@.observed == old(self)@.observed.push(id),
            found == (id == Some(old(self)@.target)),
            found ==> final(self)@.stage == ScanStage::Finished && final(self)@.next == old(
                self,
            )@.next,
            !found ==> final(self)@.stage == ScanStage::Probing && final(self)@.next == old(
                self,
            )@.next + 1,
            found ==> forall|j: int|
                0 <= j < old(self)@.next ==> old(self)@.observed[j] != Some(old(self)@.target),
    {
        proof {
            use_type_invariant(&*self);
        }
        let observed = Ghost(self.observed@.push(id));
        let found = match id {
            Some(v) => v == self.target,
            None => false,
        };
        if found {
            *self = WindowScan { stage: ScanStage::Finished, observed, ..*self };
        } else {
            *self = WindowScan { next: self.next + 1, stage: ScanStage::Probing, observed, ..*self };
        }
        found
    }
}

} // verus!
