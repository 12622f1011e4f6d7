//! The verification engine and the firing protocol of a verb.
//!
//! Waiting for the interface is a state machine. The caller captures frames,
//! reads a monotonic clock and sleeps; the machine decides, from each frame
//! and the time it was taken, whether the awaited state has been reached,
//! whether the deadline has passed, or how long to sleep before the next
//! capture. Firing a verb chains two waits around the verb's action: first
//! for the check-zone to be stable, then for it to change.
use crate::errors::{OutOfBoundsError, UIActionTimeOutError};
use crate::frame::{frames_match, frames_same, zone_error, zone_within, Frame};
use crate::geometry::{physical_rect, PhysicalRect, Screen, ScreenRect};
use crate::location::DEFAULT_CHECK_ZONE_SIZE;
use vstd::prelude::*;

verus! {

/// Share of differing check-zone pixels, in thousandths, up to which two
/// frames count as the same: none may differ.
pub const DEFAULT_TOLERANCE_PERMILLE: u32 = 0;

/// Sleep between two captures, in milliseconds.
pub const DEFAULT_POLL_INTERVAL_MS: u64 = 100;

/// The tunable constants of verification.
#[derive(Debug, Clone, Copy, PartialEq, Eq, Structural)]
pub struct VerbConfig {
    /// Thousandths of the check-zone's pixels that may differ between two
    /// frames that count as the same.
    pub tolerance_permille: u32,
    /// Sleep between two captures, in milliseconds.
    pub poll_interval_ms: u64,
    /// Side of the square watched around a fixed point, in scaled units.
    pub check_zone_size: u64,
}

impl Default for VerbConfig {
    fn default() -> (r: VerbConfig)
        ensures
            r == (VerbConfig {
                tolerance_permille: DEFAULT_TOLERANCE_PERMILLE,
                poll_interval_ms: DEFAULT_POLL_INTERVAL_MS,
                check_zone_size: DEFAULT_CHECK_ZONE_SIZE,
            }),
    {
        VerbConfig {
            tolerance_permille: DEFAULT_TOLERANCE_PERMILLE,
            poll_interval_ms: DEFAULT_POLL_INTERVAL_MS,
            check_zone_size: DEFAULT_CHECK_ZONE_SIZE,
        }
    }
}

/// A wait for the check-zone to stay the same as (`is_same`) or to differ
/// from the reference frame `before`, begun at `start_ms`.
#[derive(Debug)]
pub struct Awaiting {
    pub is_same: bool,
    pub before: Frame,
    pub zone: PhysicalRect,
    pub start_ms: u64,
    pub timeout_ms: u64,
    pub poll_interval_ms: u64,
    pub tolerance_permille: u32,
}

/// What one poll decided.
#[derive(Debug, Clone, Copy, PartialEq, Eq, Structural)]
pub enum Tick {
    /// The awaited state holds; the time since the wait began.
    Succeeded { elapsed_ms: u64 },
    /// The deadline passed first.
    TimedOut(UIActionTimeOutError),
    /// Sleep this long, then capture again.
    Wait { sleep_ms: u64 },
}

/// Time from `start` to `now` on a clock that should not go back; a clock
/// that did counts as no time.
pub open spec fn elapsed_since(start: u64, now: u64) -> int {
    if now >= start {
        now - start
    } else {
        0
    }
}

/// What a poll of the wait `aw` decides for a frame captured at `now`.
///
/// The zone must fit both frames. The wait succeeds as soon as the frames'
/// sameness is the awaited one. Otherwise it times out once the timeout has
/// elapsed, and else asks for a sleep of one full poll interval, so that
/// captures never come closer together than that; a deadline that passes
/// during the sleep is caught at the next capture.
pub open spec fn tick_outcome(aw: &Awaiting, current: &Frame, now: u64) -> Result<
    Tick,
    OutOfBoundsError,
> {
    let elapsed = elapsed_since(aw.start_ms, now);
    if !zone_within(aw.zone, &aw.before) {
        Err(zone_error(aw.zone, &aw.before))
    } else if !zone_within(aw.zone, current) {
        Err(zone_error(aw.zone, current))
    } else if frames_same(&aw.before, current, aw.zone, aw.tolerance_permille as int)
        == aw.is_same {
        Ok(Tick::Succeeded { elapsed_ms: elapsed as u64 })
    } else if elapsed >= aw.timeout_ms {
        Ok(
            Tick::TimedOut(
                UIActionTimeOutError {
                    timeout_ms: aw.timeout_ms,
                    elapsed_ms: elapsed as u64,
                    is_same: aw.is_same,
                },
            ),
        )
    } else {
        Ok(Tick::Wait { sleep_ms: aw.poll_interval_ms })
    }
}

/// A wait gives up only once its timeout has elapsed, and between two
/// captures always asks to sleep exactly one poll interval; so on a clock
/// that only sleeps move, it gives up at the first capture at or after its
/// deadline, at most one poll interval late.
pub proof fn lemma_wait_respects_deadline(aw: &Awaiting, current: &Frame, now: u64)
    ensures
        tick_outcome(aw, current, now) matches Ok(Tick::TimedOut(t)) ==> t.elapsed_ms
            >= aw.timeout_ms && t.timeout_ms == aw.timeout_ms && t.is_same == aw.is_same,
        tick_outcome(aw, current, now) matches Ok(Tick::Wait { sleep_ms }) ==> sleep_ms
            == aw.poll_interval_ms && elapsed_since(aw.start_ms, now) < aw.timeout_ms,
{
}

/// A wait for a change that keeps seeing its zone unchanged ends with a
/// timeout, late by less than one poll interval plus `slack`. Here `t0` is
/// a capture at which it still waited, and `t1` the next capture, taken one
/// sleep plus at most `slack` later. Before the deadline it waits again; at
/// or after it, it reports the timeout, with the elapsed time and the change
/// that was awaited.
pub proof fn lemma_unchanged_zone_times_out(
    aw: &Awaiting,
    earlier: &Frame,
    t0: u64,
    current: &Frame,
    t1: u64,
    slack: int,
)
    requires
        !aw.is_same,
        aw.start_ms <= t0 <= t1,
        tick_outcome(aw, earlier, t0) == Ok::<Tick, OutOfBoundsError>(
            Tick::Wait { sleep_ms: aw.poll_interval_ms },
        ),
        zone_within(aw.zone, current),
        frames_same(&aw.before, current, aw.zone, aw.tolerance_permille as int),
        slack >= 0,
        t1 <= t0 + aw.poll_interval_ms + slack,
    ensures
        t1 - aw.start_ms < aw.timeout_ms ==> tick_outcome(aw, current, t1) == Ok::<
            Tick,
            OutOfBoundsError,
        >(Tick::Wait { sleep_ms: aw.poll_interval_ms }),
        t1 - aw.start_ms >= aw.timeout_ms ==> tick_outcome(aw, current, t1) == Ok::<
            Tick,
            OutOfBoundsError,
        >(
            Tick::TimedOut(
                UIActionTimeOutError {
                    timeout_ms: aw.timeout_ms,
                    elapsed_ms: (t1 - aw.start_ms) as u64,
                    is_same: false,
                },
            ),
        ) && t1 - aw.start_ms < aw.timeout_ms + aw.poll_interval_ms + slack,
{
}

/// A wait for a change succeeds at the first capture that shows its zone
/// changed, whether or not the deadline has passed, and reports the time
/// since the wait began. Here `t0` is a capture at which it still waited and
/// `t1` the next one, taken one sleep plus at most `slack` later; the success
/// comes no later than one poll interval plus `slack` after `t0`.
pub proof fn lemma_changed_zone_succeeds(
    aw: &Awaiting,
    earlier: &Frame,
    t0: u64,
    current: &Frame,
    t1: u64,
    slack: int,
)
    requires
        !aw.is_same,
        aw.start_ms <= t0 <= t1,
        tick_outcome(aw, earlier, t0) == Ok::<Tick, OutOfBoundsError>(
            Tick::Wait { sleep_ms: aw.poll_interval_ms },
        ),
        zone_within(aw.zone, current),
        !frames_same(&aw.before, current, aw.zone, aw.tolerance_permille as int),
        slack >= 0,
        t1 <= t0 + aw.poll_interval_ms + slack,
    ensures
        tick_outcome(aw, current, t1) == Ok::<Tick, OutOfBoundsError>(
            Tick::Succeeded { elapsed_ms: (t1 - aw.start_ms) as u64 },
        ),
        t1 - aw.start_ms <= t0 - aw.start_ms + aw.poll_interval_ms + slack,
{
}

/// A check-zone wider or taller than a captured frame gives the bounds
/// error: the frames are never compared on a silently cropped zone.
pub proof fn lemma_oversized_zone_rejected(aw: &Awaiting, current: &Frame, now: u64)
    requires
        aw.zone.width > current.width || aw.zone.height > current.height,
    ensures
        tick_outcome(aw, current, now) is Err,
{
}

impl Awaiting {
    /// Begins a wait at `now_ms` on the physical image of `zone`.
    pub fn start(
        is_same: bool,
        before: Frame,
        zone: &ScreenRect,
        now_ms: u64,
        timeout_ms: u64,
        config: &VerbConfig,
        screen: &Screen,
    ) -> (r: Awaiting)
        requires
            zone.wf(screen),
        ensures
            r == (Awaiting {
                is_same,
                before,
                zone: physical_rect(*zone, screen.scale_percent as int),
                start_ms: now_ms,
                timeout_ms,
                poll_interval_ms: config.poll_interval_ms,
                tolerance_permille: config.tolerance_permille,
            }),
    {
        Awaiting {
            is_same,
            before,
            zone: zone.to_physical(screen),
            start_ms: now_ms,
            timeout_ms,
            poll_interval_ms: config.poll_interval_ms,
            tolerance_permille: config.tolerance_permille,
        }
    }

    /// Decides one poll, for a frame captured at `now_ms`.
    pub fn tick(&self, current: &Frame, now_ms: u64) -> (r: Result<Tick, OutOfBoundsError>)
        requires
            self.before.wf(),
            current.wf(),
        ensures
            r == tick_outcome(self, current, now_ms),
    {
        let elapsed: u64 = if now_ms >= self.start_ms {
            now_ms - self.start_ms
        } else {
            0
        };
        let same = match frames_match(&self.before, current, &self.zone, self.tolerance_permille) {
            Ok(same) => same,
            Err(e) => {
                return Err(e);
            },
        };
        if same == self.is_same {
            Ok(Tick::Succeeded { elapsed_ms: elapsed })
        } else if elapsed >= self.timeout_ms {
            Ok(
                Tick::TimedOut(
                    UIActionTimeOutError {
                        timeout_ms: self.timeout_ms,
                        elapsed_ms: elapsed,
                        is_same: self.is_same,
                    },
                ),
            )
        } else {
            Ok(Tick::Wait { sleep_ms: self.poll_interval_ms })
        }
    }
}

/// Why firing a verb failed.
#[derive(Debug, Clone, Copy, PartialEq, Eq, Structural)]
pub enum VerbError {
    /// The check-zone does not fit a captured frame.
    OutOfBounds(OutOfBoundsError),
    /// The interface did not reach the awaited state in time.
    TimedOut(UIActionTimeOutError),
}

/// Where a verb's firing stands.
#[derive(Debug)]
pub enum FirePhase {
    /// Waiting for the check-zone to be stable before acting.
    Stabilizing(Awaiting),
    /// Waiting for the caller to perform the action.
    Acting,
    /// Waiting for the check-zone to change after the action.
    Confirming(Awaiting),
    /// Over; the last step said how it ended.
    Finished,
}

/// What the caller must do next.
#[derive(Debug, Clone, Copy, PartialEq, Eq, Structural)]
pub enum FireStep {
    /// Capture a frame and hand it to `on_frame` with the time.
    Capture,
    /// Sleep this many milliseconds, then capture.
    Sleep { ms: u64 },
    /// Perform the verb's action and hand the frame captured just before it
    /// to `on_performed`.
    Perform,
    /// Stop: the interface changed, this many milliseconds after the action.
    Succeeded { elapsed_ms: u64 },
    /// Stop: the verb failed.
    Failed(VerbError),
}

/// A verb being fired.
#[derive(Debug)]
pub struct Firing {
    pub phase: FirePhase,
    pub zone: PhysicalRect,
    pub timeout_ms: u64,
    pub poll_interval_ms: u64,
    pub tolerance_permille: u32,
}

/// The firing that begins at `now_ms` with a stability check of `zone`
/// against `baseline`.
pub open spec fn begun(
    zone: ScreenRect,
    baseline: Frame,
    now_ms: u64,
    timeout_ms: u64,
    config: VerbConfig,
    screen: Screen,
) -> Firing {
    Firing {
        phase: FirePhase::Stabilizing(
            Awaiting {
                is_same: true,
                before: baseline,
                zone: physical_rect(zone, screen.scale_percent as int),
                start_ms: now_ms,
                timeout_ms,
                poll_interval_ms: config.poll_interval_ms,
                tolerance_permille: config.tolerance_permille,
            },
        ),
        zone: physical_rect(zone, screen.scale_percent as int),
        timeout_ms,
        poll_interval_ms: config.poll_interval_ms,
        tolerance_permille: config.tolerance_permille,
    }
}

impl Firing {
    /// The reference frame of the current wait is well formed.
    pub open spec fn wf(&self) -> bool {
        match self.phase {
            FirePhase::Stabilizing(aw) => aw.before.wf(),
            FirePhase::Confirming(aw) => aw.before.wf(),
            _ => true,
        }
    }

    /// Begins firing: first the check-zone must stay as it is in `baseline`.
    /// The first step is a capture.
    pub fn start(
        zone: &ScreenRect,
        baseline: Frame,
        now_ms: u64,
        timeout_ms: u64,
        config: &VerbConfig,
        screen: &Screen,
    ) -> (r: (Firing, FireStep))
        requires
            zone.wf(screen),
            baseline.wf(),
        ensures
            r.0 == begun(*zone, baseline, now_ms, timeout_ms, *config, *screen),
            r.0.wf(),
            r.1 == FireStep::Capture,
    {
        let physical = zone.to_physical(screen);
        let aw = Awaiting::start(true, baseline, zone, now_ms, timeout_ms, config, screen);
        (
            Firing {
                phase: FirePhase::Stabilizing(aw),
                zone: physical,
                timeout_ms,
                poll_interval_ms: config.poll_interval_ms,
                tolerance_permille: config.tolerance_permille,
            },
            FireStep::Capture,
        )
    }

    /// Takes a frame captured at `now_ms` while waiting. A stable zone leads
    /// to the action; a changed zone after the action ends the firing with
    /// success; a passed deadline or a zone that does not fit ends it with
    /// the error.
    pub fn on_frame(&mut self, frame: Frame, now_ms: u64) -> (step: FireStep)
        requires
            old(self).wf(),
            old(self).phase is Stabilizing || old(self).phase is Confirming,
            frame.wf(),
        ensures
            final(self).wf(),
            final(self).zone == old(self).zone,
            final(self).timeout_ms == old(self).timeout_ms,
            final(self).poll_interval_ms == old(self).poll_interval_ms,
            final(self).tolerance_permille == old(self).tolerance_permille,
            ({
                match old(self).phase {
                    FirePhase::Stabilizing(aw) => match tick_outcome(&aw, &frame, now_ms) {
                        Err(e) => step == FireStep::Failed(VerbError::OutOfBounds(e))
                            && final(self).phase is Finished,
                        Ok(Tick::Succeeded { .. }) => step == FireStep::Perform
                            && final(self).phase is Acting,
                        Ok(Tick::TimedOut(t)) => step == FireStep::Failed(VerbError::TimedOut(t))
                            && final(self).phase is Finished,
                        Ok(Tick::Wait { sleep_ms }) => step == FireStep::Sleep { ms: sleep_ms }
                            && final(self).phase == old(self).phase,
                    },
                    FirePhase::Confirming(aw) => match tick_outcome(&aw, &frame, now_ms) {
                        Err(e) => step == FireStep::Failed(VerbError::OutOfBounds(e))
                            && final(self).phase is Finished,
                        Ok(Tick::Succeeded { elapsed_ms }) => step == FireStep::Succeeded { elapsed_ms }
                            && final(self).phase is Finished,
                        Ok(Tick::TimedOut(t)) => step == FireStep::Failed(VerbError::TimedOut(t))
                            && final(self).phase is Finished,
                        Ok(Tick::Wait { sleep_ms }) => step == FireStep::Sleep { ms: sleep_ms }
                            && final(self).phase == old(self).phase,
                    },
                    _ => false,
                }
            }),
    {
        let (outcome, confirming) = match &self.phase {
            FirePhase::Stabilizing(aw) => (aw.tick(&frame, now_ms), false),
            FirePhase::Confirming(aw) => (aw.tick(&frame, now_ms), true),
            _ => {
                return FireStep::Capture;
            },
        };
        match outcome {
            Err(e) => {
                self.phase = FirePhase::Finished;
                FireStep::Failed(VerbError::OutOfBounds(e))
            },
            Ok(Tick::Succeeded { elapsed_ms }) => {
                if confirming {
                    self.phase = FirePhase::Finished;
                    FireStep::Succeeded { elapsed_ms }
                } else {
                    self.phase = FirePhase::Acting;
                    FireStep::Perform
                }
            },
            Ok(Tick::TimedOut(t)) => {
                self.phase = FirePhase::Finished;
                FireStep::Failed(VerbError::TimedOut(t))
            },
            Ok(Tick::Wait { sleep_ms }) => FireStep::Sleep { ms: sleep_ms },
        }
    }

    /// Takes the frame captured just before the action was performed, at
    /// `now_ms`, and begins waiting for the zone to change from it.
    pub fn on_performed(&mut self, before: Frame, now_ms: u64) -> (step: FireStep)
        requires
            old(self).phase is Acting,
            before.wf(),
        ensures
            final(self).phase == FirePhase::Confirming(
                Awaiting {
                    is_same: false,
                    before,
                    zone: old(self).zone,
                    start_ms: now_ms,
                    timeout_ms: old(self).timeout_ms,
                    poll_interval_ms: old(self).poll_interval_ms,
                    tolerance_permille: old(self).tolerance_permille,
                },
            ),
            final(self).zone == old(self).zone,
            final(self).timeout_ms == old(self).timeout_ms,
            final(self).poll_interval_ms == old(self).poll_interval_ms,
            final(self).tolerance_permille == old(self).tolerance_permille,
            final(self).wf(),
            step == FireStep::Capture,
    {
        self.phase = FirePhase::Confirming(
            Awaiting {
                is_same: false,
                before,
                zone: self.zone,
                start_ms: now_ms,
                timeout_ms: self.timeout_ms,
                poll_interval_ms: self.poll_interval_ms,
                tolerance_permille: self.tolerance_permille,
            },
        );
        FireStep::Capture
    }
}

} // verus!
