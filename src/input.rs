//! Typing text into a target.
use crate::action::{CheckUIState, GuiAction, GuiVerb, MouseButton, Primitive};
use crate::engine::{Awaiting, FireStep, Firing, VerbConfig};
use crate::frame::Frame;
use crate::geometry::{Screen, ScreenCoordinates, ScreenRect};
use crate::location::{resolution, TargetFactory};
use crate::strategy::{LocateError, TemplateMatch};
use vstd::prelude::*;

verus! {

/// The wait, in milliseconds, of a text input when no timeout is given.
pub const INPUT_TIMEOUT_MS: u64 = 5000;

/// Clicks into a text box, types a string and, if asked, presses Return;
/// watches a zone for the reaction.
#[derive(Debug, Clone, PartialEq, Eq)]
pub struct Input {
    pub target: ScreenCoordinates,
    pub input_string: String,
    pub submit: bool,
    pub check_zone: ScreenRect,
}

impl Input {
    pub open spec fn wf(&self, screen: &Screen) -> bool {
        self.target.wf(screen) && self.check_zone.wf(screen)
    }

    /// Resolves the target, from what the search reported for a template,
    /// and watches the given zone or the target's default one. Without
    /// `submit`, Return is not pressed. A target that cannot be resolved
    /// makes no input.
    pub fn new(
        target_factory: &TargetFactory,
        found: Option<TemplateMatch>,
        input_string: String,
        submit: Option<bool>,
        check_zone: Option<ScreenRect>,
        config: &VerbConfig,
        screen: &Screen,
    ) -> (r: Result<Input, LocateError>)
        requires
            screen.wf(),
            target_factory.wf(screen),
            check_zone matches Some(z) ==> z.wf(screen),
        ensures
            ({
                match resolution(
                    target_factory,
                    found,
                    check_zone,
                    config.check_zone_size as int,
                    *screen,
                ) {
                    Err(e) => r == Err::<Input, LocateError>(e),
                    Ok(t) => r matches Ok(i) && i.target == t.point && i.check_zone == t.check_zone
                        && i.input_string@ == input_string@ && i.submit == (submit == Some(true)),
                }
            }),
            r matches Ok(i) ==> i.wf(screen),
    {
        let submit = match submit {
            Some(s) => s,
            None => false,
        };
        match target_factory.resolve(found, check_zone, config.check_zone_size, screen) {
            Err(e) => Err(e),
            Ok(t) => Ok(Input { target: t.point, input_string, submit, check_zone: t.check_zone }),
        }
    }
}

impl GuiAction for Input {
    /// Moves to the target and clicks it, captures the reference frame, types
    /// the string, then presses Return if asked to submit.
    fn execute(&self) -> (r: Vec<Primitive>)
        ensures
            r@ == if self.submit {
                seq![
                    Primitive::MoveTo(self.target),
                    Primitive::Click(MouseButton::Left),
                    Primitive::CaptureBefore,
                    Primitive::TypeText(self.input_string),
                    Primitive::TapReturn,
                ]
            } else {
                seq![
                    Primitive::MoveTo(self.target),
                    Primitive::Click(MouseButton::Left),
                    Primitive::CaptureBefore,
                    Primitive::TypeText(self.input_string),
                ]
            },
    {
        let mut steps: Vec<Primitive> = Vec::new();
        steps.push(Primitive::MoveTo(self.target));
        steps.push(Primitive::Click(MouseButton::Left));
        steps.push(Primitive::CaptureBefore);
        steps.push(Primitive::TypeText(self.input_string.clone()));
        if self.submit {
            steps.push(Primitive::TapReturn);
        }
        assert(steps@ =~= if self.submit {
            seq![
                Primitive::MoveTo(self.target),
                Primitive::Click(MouseButton::Left),
                Primitive::CaptureBefore,
                Primitive::TypeText(self.input_string),
                Primitive::TapReturn,
            ]
        } else {
            seq![
                Primitive::MoveTo(self.target),
                Primitive::Click(MouseButton::Left),
                Primitive::CaptureBefore,
                Primitive::TypeText(self.input_string),
            ]
        });
        steps
    }
}

impl CheckUIState for Input {
    open spec fn watched_zone(&self) -> ScreenRect {
        self.check_zone
    }

    fn check_ui_state(
        &self,
        timeout_ms: u64,
        is_same: bool,
        before: Frame,
        now_ms: u64,
        config: &VerbConfig,
        screen: &Screen,
    ) -> (r: Awaiting) {
        Awaiting::start(is_same, before, &self.check_zone, now_ms, timeout_ms, config, screen)
    }
}

impl GuiVerb for Input {
    open spec fn standard_timeout(&self) -> u64 {
        INPUT_TIMEOUT_MS
    }

    fn fire(
        &self,
        baseline: Frame,
        now_ms: u64,
        timeout: Option<u64>,
        config: &VerbConfig,
        screen: &Screen,
    ) -> (r: (Firing, FireStep)) {
        let timeout_ms = match timeout {
            Some(t) => t,
            None => INPUT_TIMEOUT_MS,
        };
        Firing::start(&self.check_zone, baseline, now_ms, timeout_ms, config, screen)
    }
}

} // verus!
