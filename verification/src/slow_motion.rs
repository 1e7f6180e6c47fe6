//! Phases of the slow-motion controller: entering, holding, and leaving slow
//! motion, driven by messages and by the end of each timed phase.

use vstd::prelude::*;

verus! {

/// Where the slow-motion controller is in its cycle.
#[derive(Clone, Copy, Debug, PartialEq, Eq, Structural)]
pub enum SlowMotionPhase {
    /// Normal speed.
    Idle,
    /// Easing from normal speed down to the slow time scale.
    TransitionIn,
    /// Holding the slow time scale.
    Active,
    /// Easing from the slow time scale back to normal speed.
    TransitionOut,
}

/// The idle phase is the default.
impl Default for SlowMotionPhase {
    fn default() -> (r: SlowMotionPhase)
        ensures
            r == SlowMotionPhase::Idle,
    {
        SlowMotionPhase::Idle
    }
}

/// Phase and activity flag of the slow-motion controller. `is_active` is what
/// other effects read: slow motion is on, or still easing in or out.
#[derive(Clone, Copy, Debug, PartialEq, Eq, Structural)]
pub struct SlowMotionControl {
    pub phase: SlowMotionPhase,
    pub is_active: bool,
}

/// What a controller looks like after `phase_done` is reported for its
/// current phase: the end of an easing for the transitions, the end of the
/// allowed slow-motion time for `Active`.
pub open spec fn control_after_update(c: SlowMotionControl, phase_done: bool) -> SlowMotionControl {
    if !phase_done {
        c
    } else {
        match c.phase {
            SlowMotionPhase::Idle => c,
            SlowMotionPhase::TransitionIn => SlowMotionControl {
                phase: SlowMotionPhase::Active,
                is_active: c.is_active,
            },
            SlowMotionPhase::Active => SlowMotionControl {
                phase: SlowMotionPhase::TransitionOut,
                is_active: c.is_active,
            },
            SlowMotionPhase::TransitionOut => SlowMotionControl {
                phase: SlowMotionPhase::Idle,
                is_active: false,
            },
        }
    }
}

/// Whether the phase timer starts over on that update: when slow motion is
/// reached, and when its time runs out.
pub open spec fn update_restarts_timer(c: SlowMotionControl, phase_done: bool) -> bool {
    phase_done && (c.phase == SlowMotionPhase::TransitionIn || c.phase == SlowMotionPhase::Active)
}

/// Which of the controller's clocks a message sets back to zero: the phase
/// timer, and the timer that measures time spent holding slow motion.
#[derive(Clone, Copy, Debug, PartialEq, Eq, Structural)]
pub struct SlowMotionClocks {
    pub timer: bool,
    pub active_timer: bool,
}

/// Clocks that entering slow motion restarts: both.
pub open spec fn clocks_on_enter() -> SlowMotionClocks {
    SlowMotionClocks { timer: true, active_timer: true }
}

/// Clocks that exiting restarts from `c`: the phase timer, unless the
/// controller is idle and nothing happens.
pub open spec fn clocks_on_exit(c: SlowMotionControl) -> SlowMotionClocks {
    SlowMotionClocks { timer: c.phase != SlowMotionPhase::Idle, active_timer: false }
}

/// Controller after an exit request in `c`: idle stays idle, any other phase
/// starts easing out, still active until the easing ends.
pub open spec fn control_after_exit(c: SlowMotionControl) -> SlowMotionControl {
    if c.phase == SlowMotionPhase::Idle {
        c
    } else {
        SlowMotionControl { phase: SlowMotionPhase::TransitionOut, is_active: true }
    }
}

/// Controller after entering slow motion.
pub open spec fn control_after_enter() -> SlowMotionControl {
    SlowMotionControl { phase: SlowMotionPhase::TransitionIn, is_active: true }
}

impl SlowMotionControl {
    /// The controller's invariant: it is active exactly when slow motion is
    /// on or transitioning, that is, whenever it is not idle.
    pub open spec fn wf(self) -> bool {
        self.is_active == (self.phase != SlowMotionPhase::Idle)
    }

    /// An idle, inactive controller.
    pub fn new() -> (r: SlowMotionControl)
        ensures
            r.phase == SlowMotionPhase::Idle,
            !r.is_active,
            r.wf(),
    {
        SlowMotionControl { phase: SlowMotionPhase::Idle, is_active: false }
    }

    /// Enter slow motion: start easing in, and become active. Both clocks
    /// restart.
    pub fn enter(&mut self) -> (clocks: SlowMotionClocks)
        requires
            old(self).wf(),
        ensures
            *final(self) == control_after_enter(),
            clocks == clocks_on_enter(),
            final(self).phase == SlowMotionPhase::TransitionIn,
            final(self).is_active,
            clocks.timer && clocks.active_timer,
            final(self).wf(),
    {
        self.phase = SlowMotionPhase::TransitionIn;
        self.is_active = true;
        SlowMotionClocks { timer: true, active_timer: true }
    }

    /// Exit slow motion: start easing out, staying active until the easing
    /// ends, and restart the phase timer. An idle controller is left as it
    /// is.
    pub fn exit(&mut self) -> (clocks: SlowMotionClocks)
        requires
            old(self).wf(),
        ensures
            *final(self) == control_after_exit(*old(self)),
            clocks == clocks_on_exit(*old(self)),
            old(self).phase != SlowMotionPhase::Idle ==> final(self).phase
                == SlowMotionPhase::TransitionOut && final(self).is_active && clocks.timer,
            old(self).phase == SlowMotionPhase::Idle ==> *final(self) == *old(self) && !clocks.timer,
            !clocks.active_timer,
            final(self).wf(),
    {
        if self.phase == SlowMotionPhase::Idle {
            SlowMotionClocks { timer: false, active_timer: false }
        } else {
            self.phase = SlowMotionPhase::TransitionOut;
            SlowMotionClocks { timer: true, active_timer: false }
        }
    }

    /// Toggle: exit when active, enter otherwise. Returns whether it entered
    /// and which clocks restart.
    pub fn toggle(&mut self) -> (r: (bool, SlowMotionClocks))
        requires
            old(self).wf(),
        ensures
            r.0 == !old(self).is_active,
            r.0 ==> final(self).phase == SlowMotionPhase::TransitionIn && final(self).is_active
                && r.1.timer && r.1.active_timer,
            !r.0 ==> final(self).phase == SlowMotionPhase::TransitionOut && final(self).is_active
                && r.1.timer && !r.1.active_timer,
            r.0 ==> *final(self) == control_after_enter() && r.1 == clocks_on_enter(),
            !r.0 ==> *final(self) == control_after_exit(*old(self)) && r.1 == clocks_on_exit(
                *old(self),
            ),
            final(self).wf(),
    {
        if self.is_active {
            let clocks = self.exit();
            (false, clocks)
        } else {
            let clocks = self.enter();
            (true, clocks)
        }
    }

    /// Per-frame step, given whether the current phase has run its course.
    /// Returns whether the phase timer starts over.
    pub fn update(&mut self, phase_done: bool) -> (restart_timer: bool)
        requires
            old(self).wf(),
        ensures
            *final(self) == control_after_update(*old(self), phase_done),
            restart_timer == update_restarts_timer(*old(self), phase_done),
            !phase_done ==> *final(self) == *old(self) && !restart_timer,
            old(self).phase == SlowMotionPhase::Idle ==> *final(self) == *old(self) && !restart_timer,
            old(self).phase == SlowMotionPhase::Active ==> (final(self).phase
                == SlowMotionPhase::Active <==> !phase_done),
            phase_done && old(self).phase == SlowMotionPhase::TransitionIn ==> final(self).phase
                == SlowMotionPhase::Active && final(self).is_active && restart_timer,
            phase_done && old(self).phase == SlowMotionPhase::Active ==> final(self).phase
                == SlowMotionPhase::TransitionOut && final(self).is_active && restart_timer,
            phase_done && old(self).phase == SlowMotionPhase::TransitionOut ==> final(self).phase
                == SlowMotionPhase::Idle && !final(self).is_active && !restart_timer,
            final(self).wf(),
    {
        if !phase_done {
            return false;
        }
        match self.phase {
            SlowMotionPhase::Idle => false,
            SlowMotionPhase::TransitionIn => {
                self.phase = SlowMotionPhase::Active;
                true
            },
            SlowMotionPhase::Active => {
                self.phase = SlowMotionPhase::TransitionOut;
                true
            },
            SlowMotionPhase::TransitionOut => {
                self.phase = SlowMotionPhase::Idle;
                self.is_active = false;
                false
            },
        }
    }
}

/// Every message and every update keeps the controller's invariant: it is
/// active exactly when it is not idle.
pub proof fn lemma_steps_keep_invariant(c: SlowMotionControl, phase_done: bool)
    requires
        c.wf(),
    ensures
        control_after_update(c, phase_done).wf(),
        control_after_exit(c).wf(),
        control_after_enter().wf(),
{
}

/// Exiting and toggling never leave a controller easing out while inactive:
/// an exit from idle changes nothing.
pub proof fn lemma_exit_from_idle_is_no_op(c: SlowMotionControl)
    requires
        c.wf(),
        c.phase == SlowMotionPhase::Idle,
    ensures
        control_after_exit(c) == c,
        !clocks_on_exit(c).timer,
        !clocks_on_exit(c).active_timer,
{
}

/// A frame on which the current phase has not run its course changes
/// nothing and restarts no timer; an idle controller never moves on its own;
/// holding slow motion ends only when its time is reported up.
pub proof fn lemma_update_moves_only_when_done(c: SlowMotionControl, phase_done: bool)
    requires
        c.wf(),
    ensures
        control_after_update(c, false) == c,
        !update_restarts_timer(c, false),
        c.phase == SlowMotionPhase::Idle ==> control_after_update(c, phase_done) == c
            && !update_restarts_timer(c, phase_done),
        c.phase == SlowMotionPhase::Active ==> (control_after_update(c, phase_done).phase
            == SlowMotionPhase::Active <==> !phase_done),
{
}

/// An exit request in any phase but idle starts easing out, keeps the
/// controller active, and restarts the phase timer but not the time spent
/// holding slow motion.
pub proof fn lemma_exit_eases_out(c: SlowMotionControl)
    requires
        c.wf(),
        c.phase != SlowMotionPhase::Idle,
    ensures
        control_after_exit(c).phase == SlowMotionPhase::TransitionOut,
        control_after_exit(c).is_active,
        clocks_on_exit(c).timer,
        !clocks_on_exit(c).active_timer,
{
}

/// Entering, from any state, starts easing in, active, with both clocks
/// restarted.
pub proof fn lemma_enter_eases_in()
    ensures
        control_after_enter().phase == SlowMotionPhase::TransitionIn,
        control_after_enter().is_active,
        clocks_on_enter().timer,
        clocks_on_enter().active_timer,
{
}

/// Slow motion, once entered, runs in order: easing in, holding, easing out,
/// and back to idle and inactive, one phase per completed phase.
pub proof fn lemma_full_cycle(c: SlowMotionControl)
    requires
        c.wf(),
        c.phase == SlowMotionPhase::TransitionIn,
    ensures
        control_after_update(c, true).phase == SlowMotionPhase::Active,
        control_after_update(control_after_update(c, true), true).phase
            == SlowMotionPhase::TransitionOut,
        control_after_update(control_after_update(control_after_update(c, true), true), true)
            == (SlowMotionControl { phase: SlowMotionPhase::Idle, is_active: false }),
{
}

} // verus!
