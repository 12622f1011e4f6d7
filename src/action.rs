//! What every verb offers: the primitive steps of its action, a wait on its
//! check-zone, and the firing protocol.
use crate::engine::{begun, Awaiting, FireStep, Firing, VerbConfig};
use crate::frame::Frame;
use crate::geometry::{physical_rect, Screen, ScreenCoordinates, ScreenRect};
use vstd::prelude::*;

verus! {

/// A mouse button.
#[derive(Debug, Clone, Copy, PartialEq, Eq, Structural)]
pub enum MouseButton {
    Left,
    Middle,
    Right,
}

/// One blocking operation of the automation layer.
#[derive(Debug, Clone, PartialEq, Eq)]
pub enum Primitive {
    /// Move the cursor to the point.
    MoveTo(ScreenCoordinates),
    /// Click the button where the cursor is.
    Click(MouseButton),
    /// Capture the whole screen; the frame is the reference for the change
    /// the action must cause.
    CaptureBefore,
    /// Type the text.
    TypeText(String),
    /// Press and release the Return key.
    TapReturn,
}

/// The action of a verb.
pub trait GuiAction {
    /// The primitive steps that perform the action, in order.
    fn execute(&self) -> Vec<Primitive>;
}

/// Waiting on the check-zone of a verb.
pub trait CheckUIState {
    /// The rectangle watched for the interface's reaction.
    spec fn watched_zone(&self) -> ScreenRect;

    /// Begins waiting, at `now_ms`, for the watched zone to stay as it is in
    /// `before` (`is_same`) or to differ from it, for at most `timeout_ms`.
    fn check_ui_state(
        &self,
        timeout_ms: u64,
        is_same: bool,
        before: Frame,
        now_ms: u64,
        config: &VerbConfig,
        screen: &Screen,
    ) -> (r: Awaiting)
        requires
            self.watched_zone().wf(screen),
        ensures
            r == (Awaiting {
                is_same,
                before,
                zone: physical_rect(self.watched_zone(), screen.scale_percent as int),
                start_ms: now_ms,
                timeout_ms,
                poll_interval_ms: config.poll_interval_ms,
                tolerance_permille: config.tolerance_permille,
            }),
    ;
}

/// A verb: an action that must leave the interface visibly changed.
pub trait GuiVerb: GuiAction + CheckUIState {
    /// The wait, in milliseconds, used when no timeout is given.
    spec fn standard_timeout(&self) -> u64;

    /// Begins firing at `now_ms`: the watched zone must first stay as it is
    /// in `baseline`, then the action is performed, then the zone must
    /// change, each within the timeout.
    fn fire(
        &self,
        baseline: Frame,
        now_ms: u64,
        timeout: Option<u64>,
        config: &VerbConfig,
        screen: &Screen,
    ) -> (r: (Firing, FireStep))
        requires
            self.watched_zone().wf(screen),
            baseline.wf(),
        ensures
            r.0 == begun(
                self.watched_zone(),
                baseline,
                now_ms,
                match timeout {
                    Some(t) => t,
                    None => self.standard_timeout(),
                },
                *config,
                *screen,
            ),
            r.0.wf(),
            r.1 == FireStep::Capture,
    ;
}

} // verus!
