//! Decisions of the event tap: which mouse-downs are redirected to a background
//! window, and what the tap does with every event it receives.

use vstd::prelude::*;

use crate::focus::{focus_allowed, should_focus, FocusConfig, FocusConfigView, WindowInfo, WindowInfoView};

verus! {

/// Value written to the event's source user data on synthetic re-posted clicks,
/// so that the tap recognises and passes through its own events ("clnf" in ASCII).
pub const SYNTHETIC_EVENT_MAGIC: i64 = 0x636C6E66;

/// The kinds of events the tap receives.
#[derive(Debug, Clone, Copy, PartialEq, Eq)]
pub enum TapEventKind {
    LeftMouseDown,
    RightMouseDown,
    OtherMouseDown,
    /// macOS disabled the tap because a callback took too long.
    TapDisabledByTimeout,
    /// macOS disabled the tap because of user input.
    TapDisabledByUserInput,
    /// Any other event type.
    Other,
}

/// The mouse button a synthetic mouse-down is created for.
#[derive(Debug, Clone, Copy, PartialEq, Eq)]
pub enum MouseButton {
    Left,
    Right,
    Center,
}

pub open spec fn button_for(kind: TapEventKind) -> MouseButton {
    match kind {
        TapEventKind::RightMouseDown => MouseButton::Right,
        TapEventKind::OtherMouseDown => MouseButton::Center,
        _ => MouseButton::Left,
    }
}

/// Map a mouse-down event kind to the button of the synthetic click: right to right,
/// other to center, and left (and anything else) to left.
pub fn mouse_button_for_event_type(kind: TapEventKind) -> (button: MouseButton)
    ensures
        button == button_for(kind),
        kind == TapEventKind::RightMouseDown ==> button == MouseButton::Right,
        kind == TapEventKind::OtherMouseDown ==> button == MouseButton::Center,
        kind != TapEventKind::RightMouseDown && kind != TapEventKind::OtherMouseDown ==> button
            == MouseButton::Left,
{
    match kind {
        TapEventKind::RightMouseDown => MouseButton::Right,
        TapEventKind::OtherMouseDown => MouseButton::Center,
        _ => MouseButton::Left,
    }
}

/// The window a mouse-down should be redirected to, given the window under the
/// cursor and the pid of the frontmost app: the window must exist and be allowed by
/// [`should_focus`], and its app must not already be frontmost.
pub open spec fn redirect_target(
    window: Option<WindowInfo>,
    config: FocusConfigView,
    last_focused_window_id: Option<u64>,
    frontmost_pid: Option<i32>,
) -> Option<WindowInfo> {
    match window {
        Some(w) => if focus_allowed(w@, config, last_focused_window_id) && frontmost_pid != Some(
            w.pid,
        ) {
            Some(w)
        } else {
            None
        },
        None => None,
    }
}

/// First stage of the redirect decision: the window under the cursor, if there is
/// one and [`should_focus`] allows it. Only for such a window does the frontmost app
/// need to be looked up.
pub fn redirect_candidate(
    window: Option<WindowInfo>,
    config: &FocusConfig,
    last_focused_window_id: Option<u64>,
) -> (res: Option<WindowInfo>)
    ensures
        res == (match window {
            Some(w) => if focus_allowed(w@, config@, last_focused_window_id) {
                Some(w)
            } else {
                None
            },
            None => None,
        }),
{
    match window {
        Some(w) => {
            if should_focus(&w, config, last_focused_window_id) {
                Some(w)
            } else {
                None
            }
        },
        None => None,
    }
}

/// Second stage of the redirect decision: a candidate whose app is already
/// frontmost is a normal in-app click and passes through.
pub fn confirm_redirect(candidate: WindowInfo, frontmost_pid: Option<i32>) -> (res: Option<
    WindowInfo,
>)
    ensures
        res == (if frontmost_pid == Some(candidate.pid) {
            None
        } else {
            Some(candidate)
        }),
{
    match frontmost_pid {
        Some(front_pid) => {
            if candidate.pid == front_pid {
                None
            } else {
                Some(candidate)
            }
        },
        None => Some(candidate),
    }
}

/// Decide whether a mouse-down should be redirected (drop original, activate
/// target, re-post), returning the target window, or `None` to let the click pass
/// through. `window` is the window under the cursor and `frontmost_pid` the pid of
/// the frontmost app.
pub fn resolve_redirect_target(
    window: Option<WindowInfo>,
    config: &FocusConfig,
    last_focused_window_id: Option<u64>,
    frontmost_pid: Option<i32>,
) -> (res: Option<WindowInfo>)
    ensures
        res == redirect_target(window, config@, last_focused_window_id, frontmost_pid),
        res matches Some(t) ==> frontmost_pid != Some(t.pid),
        res matches Some(t) ==> focus_allowed(t@, config@, last_focused_window_id),
{
    match redirect_candidate(window, config, last_focused_window_id) {
        Some(candidate) => confirm_redirect(candidate, frontmost_pid),
        None => None,
    }
}

/// What the tap does first with an event it receives.
#[derive(Debug, Clone, Copy, PartialEq, Eq)]
pub enum TapDecision {
    /// macOS disabled the tap: re-enable it and let the event pass.
    ReenableTap,
    /// Let the event pass unchanged.
    PassThrough,
    /// Look up the window under the cursor and decide on a redirect.
    ResolveTarget,
}

/// What the tap does with a mouse-down once the redirect decision is made.
#[derive(Debug, PartialEq, Eq)]
pub enum ClickAction {
    /// Let the click pass through.
    PassThrough,
    /// Drop the click, activate `target` (raising it if `raise`) and re-post a
    /// synthetic click tagged with [`SYNTHETIC_EVENT_MAGIC`].
    Redirect { target: WindowInfo, raise: bool },
}

/// The state the event tap keeps between events.
pub struct TapState {
    config: FocusConfig,
    last_focused_window_id: Option<u64>,
}

/// The mathematical model of a [`TapState`].
pub struct TapStateView {
    pub config: FocusConfigView,
    pub last_focused_window_id: Option<u64>,
}

impl View for TapState {
    type V = TapStateView;

    closed spec fn view(&self) -> TapStateView {
        TapStateView { config: self.config@, last_focused_window_id: self.last_focused_window_id }
    }
}

pub open spec fn is_tap_disabled(kind: TapEventKind) -> bool {
    kind == TapEventKind::TapDisabledByTimeout || kind == TapEventKind::TapDisabledByUserInput
}

/// The first decision on an event: tap-disabled notifications re-enable the tap,
/// our own synthetic events pass through, everything else is resolved.
pub open spec fn decide_event(kind: TapEventKind, user_data: i64) -> TapDecision {
    if is_tap_disabled(kind) {
        TapDecision::ReenableTap
    } else if user_data == SYNTHETIC_EVENT_MAGIC {
        TapDecision::PassThrough
    } else {
        TapDecision::ResolveTarget
    }
}

/// The state after finishing a click on `candidate` with the given frontmost pid:
/// a redirect records the target as the last focused window.
pub open spec fn state_after_click(
    state: TapStateView,
    candidate: Option<WindowInfo>,
    frontmost_pid: Option<i32>,
) -> TapStateView {
    match candidate {
        Some(c) => if frontmost_pid != Some(c.pid) {
            TapStateView { last_focused_window_id: Some(c.window_id), ..state }
        } else {
            state
        },
        None => state,
    }
}

/// The candidate of a click in `state`: the window under the cursor, if it may be
/// focused.
pub open spec fn candidate_in(state: TapStateView, window: Option<WindowInfo>) -> Option<
    WindowInfo,
> {
    match window {
        Some(w) => if focus_allowed(w@, state.config, state.last_focused_window_id) {
            Some(w)
        } else {
            None
        },
        None => None,
    }
}

/// What the tap does with a click on `candidate` in `state`.
pub open spec fn click_action(
    state: TapStateView,
    candidate: Option<WindowInfo>,
    frontmost_pid: Option<i32>,
) -> ClickAction {
    match candidate {
        Some(c) => if frontmost_pid != Some(c.pid) {
            ClickAction::Redirect { target: c, raise: state.config.raise }
        } else {
            ClickAction::PassThrough
        },
        None => ClickAction::PassThrough,
    }
}

impl TapState {
    /// A fresh tap state: nothing focused yet.
    pub fn new(config: FocusConfig) -> (s: TapState)
        ensures
            s@.config == config@,
            s@.last_focused_window_id is None,
    {
        TapState { config, last_focused_window_id: None }
    }

    /// The configuration the tap runs with.
    pub fn config(&self) -> (c: &FocusConfig)
        ensures
            c@ == self@.config,
    {
        &self.config
    }

    /// The window id of the last window a click was redirected to.
    pub fn last_focused_window_id(&self) -> (id: Option<u64>)
        ensures
            id == self@.last_focused_window_id,
    {
        self.last_focused_window_id
    }

    /// First decision on an event of `kind` whose source user data is `user_data`.
    pub fn on_event(&self, kind: TapEventKind, user_data: i64) -> (d: TapDecision)
        ensures
            d == decide_event(kind, user_data),
            is_tap_disabled(kind) ==> d == TapDecision::ReenableTap,
            !is_tap_disabled(kind) && user_data == SYNTHETIC_EVENT_MAGIC ==> d
                == TapDecision::PassThrough,
            kind != TapEventKind::TapDisabledByTimeout && kind
                != TapEventKind::TapDisabledByUserInput && user_data != SYNTHETIC_EVENT_MAGIC ==> d
                == TapDecision::ResolveTarget,
    {
        match kind {
            TapEventKind::TapDisabledByTimeout | TapEventKind::TapDisabledByUserInput => {
                TapDecision::ReenableTap
            },
            _ => {
                if user_data == SYNTHETIC_EVENT_MAGIC {
                    TapDecision::PassThrough
                } else {
                    TapDecision::ResolveTarget
                }
            },
        }
    }

    /// First stage of a click: the window under the cursor if it may be focused in
    /// this state (see [`redirect_candidate`]).
    pub fn click_candidate(&self, window: Option<WindowInfo>) -> (res: Option<WindowInfo>)
        ensures
            res == candidate_in(self@, window),
    {
        redirect_candidate(window, &self.config, self.last_focused_window_id)
    }

    /// Second stage of a click: given the candidate and the frontmost app's pid,
    /// either pass the click through, or redirect it and remember the target as
    /// the last focused window.
    pub fn finish_click(&mut self, candidate: Option<WindowInfo>, frontmost_pid: Option<i32>) -> (action: ClickAction)
        ensures
            final(self)@ == state_after_click(old(self)@, candidate, frontmost_pid),
            action == click_action(old(self)@, candidate, frontmost_pid),
            final(self)@.config == old(self)@.config,
            action matches ClickAction::Redirect { target, raise } ==> raise == old(
                self,
            )@.config.raise && final(self)@.last_focused_window_id == Some(target.window_id),
            action == ClickAction::PassThrough ==> final(self)@ == old(self)@,
    {
        match candidate {
            Some(c) => match confirm_redirect(c, frontmost_pid) {
                Some(target) => {
                    self.last_focused_window_id = Some(target.window_id);
                    ClickAction::Redirect { target, raise: self.config.raise }
                },
                None => ClickAction::PassThrough,
            },
            None => ClickAction::PassThrough,
        }
    }
}

/// A click handled in two stages (candidate, then frontmost check) is redirected
/// exactly to the window that [`resolve_redirect_target`] names, and only then.
pub proof fn lemma_two_stage_click_is_resolve_redirect_target(
    state: TapStateView,
    window: Option<WindowInfo>,
    frontmost_pid: Option<i32>,
)
    ensures
        ({
            let action = click_action(state, candidate_in(state, window), frontmost_pid);
            let target = redirect_target(
                window,
                state.config,
                state.last_focused_window_id,
                frontmost_pid,
            );
            &&& (action == ClickAction::PassThrough <==> target is None)
            &&& (target matches Some(t) ==> action == ClickAction::Redirect {
                target: t,
                raise: state.config.raise,
            })
        }),
{
}

/// Once a click was redirected to a window, a later click on the same window (same
/// window id) is never redirected again: it passes through.
pub proof fn lemma_redirected_window_is_not_redirected_again(
    state: TapStateView,
    window: Option<WindowInfo>,
    frontmost_pid: Option<i32>,
    next_window: WindowInfo,
    next_frontmost_pid: Option<i32>,
)
    requires
        click_action(state, candidate_in(state, window), frontmost_pid) matches ClickAction::Redirect {
            target,
            ..
        } && next_window.window_id == target.window_id,
    ensures
        ({
            let after = state_after_click(state, candidate_in(state, window), frontmost_pid);
            &&& candidate_in(after, Some(next_window)) is None
            &&& click_action(after, candidate_in(after, Some(next_window)), next_frontmost_pid)
                == ClickAction::PassThrough
        }),
{
}

/// Every event other than a tap-disabled notification, and not tagged with
/// [`SYNTHETIC_EVENT_MAGIC`], is resolved, whatever mouse button it is for; a
/// tap-disabled notification always re-enables the tap.
pub proof fn lemma_untagged_events_are_resolved(kind: TapEventKind, user_data: i64)
    ensures
        kind != TapEventKind::TapDisabledByTimeout && kind != TapEventKind::TapDisabledByUserInput
            && user_data != SYNTHETIC_EVENT_MAGIC ==> decide_event(kind, user_data)
            == TapDecision::ResolveTarget,
        kind == TapEventKind::TapDisabledByTimeout ==> decide_event(kind, user_data)
            == TapDecision::ReenableTap,
        kind == TapEventKind::TapDisabledByUserInput ==> decide_event(kind, user_data)
            == TapDecision::ReenableTap,
{
}

/// A click never changes the configuration: the state after it differs from the
/// state before at most in the last focused window, and a redirect carries the
/// configured `raise`, so any sequence of clicks raises only if configured to.
pub proof fn lemma_clicks_keep_configuration(
    state: TapStateView,
    candidate: Option<WindowInfo>,
    frontmost_pid: Option<i32>,
    next_candidate: Option<WindowInfo>,
    next_frontmost_pid: Option<i32>,
)
    ensures
        state_after_click(state, candidate, frontmost_pid).config == state.config,
        click_action(state, candidate, frontmost_pid) matches ClickAction::Redirect { raise, .. }
            ==> raise == state.config.raise,
        ({
            let after = state_after_click(state, candidate, frontmost_pid);
            click_action(after, next_candidate, next_frontmost_pid) matches ClickAction::Redirect {
                raise,
                ..
            } ==> raise == state.config.raise
        }),
        click_action(state, candidate, frontmost_pid) matches ClickAction::Redirect { target, .. }
            ==> state_after_click(state, candidate, frontmost_pid).last_focused_window_id == Some(
            target.window_id,
        ),
{
}

/// A click that passes through leaves the tap state unchanged.
pub proof fn lemma_pass_through_keeps_state(
    state: TapStateView,
    candidate: Option<WindowInfo>,
    frontmost_pid: Option<i32>,
)
    requires
        click_action(state, candidate, frontmost_pid) == ClickAction::PassThrough,
    ensures
        state_after_click(state, candidate, frontmost_pid) == state,
{
}

/// The fields of the synthetic mouse-down re-posted after a redirect. It copies the
/// original event's modifier flags, click state (double clicks) and exact button
/// number, and is tagged with [`SYNTHETIC_EVENT_MAGIC`] as its source user data.
#[derive(Debug, Clone, Copy, PartialEq, Eq)]
pub struct SyntheticClick {
    pub button: MouseButton,
    pub flags: u64,
    pub click_state: i64,
    pub button_number: i64,
    pub user_data: i64,
}

/// Plan the synthetic mouse-down that replaces a dropped click of `kind` whose
/// flags, click state and button number are given.
pub fn plan_synthetic_click(kind: TapEventKind, flags: u64, click_state: i64, button_number: i64) -> (click: SyntheticClick)
    ensures
        click.button == button_for(kind),
        click.flags == flags,
        click.click_state == click_state,
        click.button_number == button_number,
        click.user_data == SYNTHETIC_EVENT_MAGIC,
{
    SyntheticClick {
        button: mouse_button_for_event_type(kind),
        flags,
        click_state,
        button_number,
        user_data: SYNTHETIC_EVENT_MAGIC,
    }
}

/// A re-posted synthetic click, when the tap receives it, is passed through and
/// never redirected again, so a redirect cannot loop.
pub proof fn lemma_reposted_click_passes_through(
    kind: TapEventKind,
    click: SyntheticClick,
)
    requires
        click.user_data == SYNTHETIC_EVENT_MAGIC,
        !is_tap_disabled(kind),
    ensures
        decide_event(kind, click.user_data) == TapDecision::PassThrough,
{
}

} // verus!
