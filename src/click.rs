//! Clicking at a target.
use crate::action::{CheckUIState, GuiAction, GuiVerb, MouseButton, Primitive};
use crate::engine::{Awaiting, FireStep, Firing, VerbConfig};
use crate::frame::Frame;
use crate::geometry::{Screen, ScreenCoordinates, ScreenRect};
use crate::location::{resolution, TargetFactory};
use crate::strategy::{LocateError, TemplateMatch};
use vstd::prelude::*;

verus! {

/// The wait, in milliseconds, of a click when no timeout is given.
pub const CLICK_TIMEOUT_MS: u64 = 500;

/// Clicks a mouse button at a point, and watches a zone for the reaction.
#[derive(Debug, Clone, Copy, PartialEq, Eq, Structural)]
pub struct Click {
    pub target: ScreenCoordinates,
    pub button: MouseButton,
    pub check_zone: ScreenRect,
}

impl Click {
    pub open spec fn wf(&self, screen: &Screen) -> bool {
        self.target.wf(screen) && self.check_zone.wf(screen)
    }

    /// Resolves the target, from what the search reported for a template,
    /// and watches the given zone or the target's default one. A target
    /// that cannot be resolved makes no click.
    pub fn new(
        target_factory: &TargetFactory,
        found: Option<TemplateMatch>,
        button: MouseButton,
        check_zone: Option<ScreenRect>,
        config: &VerbConfig,
        screen: &Screen,
    ) -> (r: Result<Click, LocateError>)
        requires
            screen.wf(),
            target_factory.wf(screen),
            check_zone matches Some(z) ==> z.wf(screen),
        ensures
            ({
                match resolution(
                    target_factory,
                    found,
                    check_zone,
                    config.check_zone_size as int,
                    *screen,
                ) {
                    Err(e) => r == Err::<Click, LocateError>(e),
                    Ok(t) => r == Ok::<Click, LocateError>(
                        Click { target: t.point, button, check_zone: t.check_zone },
                    ),
                }
            }),
            r matches Ok(c) ==> c.wf(screen),
    {
        match target_factory.resolve(found, check_zone, config.check_zone_size, screen) {
            Err(e) => Err(e),
            Ok(t) => Ok(Click { target: t.point, button, check_zone: t.check_zone }),
        }
    }
}

impl GuiAction for Click {
    /// Moves to the target, captures the reference frame, then clicks.
    fn execute(&self) -> (r: Vec<Primitive>)
        ensures
            r@ == seq![
                Primitive::MoveTo(self.target),
                Primitive::CaptureBefore,
                Primitive::Click(self.button),
            ],
    {
        let mut steps: Vec<Primitive> = Vec::new();
        steps.push(Primitive::MoveTo(self.target));
        steps.push(Primitive::CaptureBefore);
        steps.push(Primitive::Click(self.button));
        assert(steps@ =~= seq![
            Primitive::MoveTo(self.target),
            Primitive::CaptureBefore,
            Primitive::Click(self.button),
        ]);
        steps
    }
}

impl CheckUIState for Click {
    open spec fn watched_zone(&self) -> ScreenRect {
        self.check_zone
    }

    fn check_ui_state(
        &self,
        timeout_ms: u64,
        is_same: bool,
        before: Frame,
        now_ms: u64,
        config: &VerbConfig,
        screen: &Screen,
    ) -> (r: Awaiting) {
        Awaiting::start(is_same, before, &self.check_zone, now_ms, timeout_ms, config, screen)
    }
}

impl GuiVerb for Click {
    open spec fn standard_timeout(&self) -> u64 {
        CLICK_TIMEOUT_MS
    }

    fn fire(
        &self,
        baseline: Frame,
        now_ms: u64,
        timeout: Option<u64>,
        config: &VerbConfig,
        screen: &Screen,
    ) -> (r: (Firing, FireStep)) {
        let timeout_ms = match timeout {
            Some(t) => t,
            None => CLICK_TIMEOUT_MS,
        };
        Firing::start(&self.check_zone, baseline, now_ms, timeout_ms, config, screen)
    }
}

} // verus!
