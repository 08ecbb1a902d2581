//! The countdown that closes the session.

use vstd::prelude::*;

verus! {

/// Seconds a countdown starts with.
pub const CLOSE_AFTER_SEC: i32 = 10;

/// Where the countdown stands.
#[derive(Clone, Copy, Debug, PartialEq, Eq, Structural)]
pub enum TimerState {
    /// No countdown is under way.
    Idle,
    /// The countdown runs, with this many seconds left.
    Running { remaining: i32 },
    /// The countdown ran out and the session was asked to close.
    Expired,
    /// A pointer press stopped the countdown.
    Cancelled,
}

/// What a tick asks of the host.
#[derive(Clone, Copy, Debug, PartialEq, Eq, Structural)]
pub enum TickOutcome {
    /// The surface is gone or the session has expired: stop ticking.
    Stopped,
    /// Nothing counts down: show no remaining time, keep ticking.
    Blank,
    /// Show this many seconds, keep ticking.
    Remaining(i32),
    /// The countdown reached zero: show zero, close the session, stop
    /// ticking.
    Expired,
}

/// The auto-close countdown: whether the feature is switched on, and where
/// the countdown stands.
#[derive(Clone, Copy, Debug, PartialEq, Eq, Structural)]
pub struct AutoCloseTimer {
    pub armed: bool,
    pub state: TimerState,
}

impl AutoCloseTimer {
    /// A countdown runs or is cancelled only while the feature is on, and a
    /// running one has between one and ten seconds left.
    pub open spec fn wf(self) -> bool {
        match self.state {
            TimerState::Idle => true,
            TimerState::Running { remaining } => self.armed && 1 <= remaining <= CLOSE_AFTER_SEC,
            TimerState::Expired => true,
            TimerState::Cancelled => self.armed,
        }
    }

    /// The seconds to display, if any.
    pub open spec fn display(self) -> Option<i32> {
        match self.state {
            TimerState::Running { remaining } => if self.armed {
                Some(remaining)
            } else {
                None
            },
            _ => None,
        }
    }

    /// The timer after the feature is switched on or off. Switching it off
    /// ends any countdown; switching it on starts none: the next generated
    /// password does.
    pub open spec fn armed_as(self, on: bool) -> AutoCloseTimer {
        if self.state is Expired {
            AutoCloseTimer { armed: on, state: TimerState::Expired }
        } else if on && self.armed {
            self
        } else {
            AutoCloseTimer { armed: on, state: TimerState::Idle }
        }
    }

    /// The timer after a password was generated: with the feature on, a
    /// fresh countdown, whatever went before short of expiry.
    pub open spec fn restarted(self) -> AutoCloseTimer {
        if self.armed && !(self.state is Expired) {
            AutoCloseTimer {
                armed: true,
                state: TimerState::Running { remaining: CLOSE_AFTER_SEC },
            }
        } else {
            self
        }
    }

    /// Whether a pointer press cancels: only a running countdown can be
    /// cancelled.
    pub open spec fn cancels(self) -> bool {
        self.armed && self.state is Running
    }

    /// The timer after a pointer press.
    pub open spec fn pressed(self) -> AutoCloseTimer {
        if self.cancels() {
            AutoCloseTimer { armed: true, state: TimerState::Cancelled }
        } else {
            self
        }
    }

    /// What a tick asks of the host, given whether the surface is visible.
    pub open spec fn tick_outcome(self, visible: bool) -> TickOutcome {
        if !visible || self.state is Expired {
            TickOutcome::Stopped
        } else if !self.armed {
            TickOutcome::Blank
        } else {
            match self.state {
                TimerState::Running { remaining } => if remaining <= 1 {
                    TickOutcome::Expired
                } else {
                    TickOutcome::Remaining((remaining - 1) as i32)
                },
                _ => TickOutcome::Blank,
            }
        }
    }

    /// The timer after a tick: a running countdown loses a second and
    /// expires when none is left; nothing else changes.
    pub open spec fn ticked(self, visible: bool) -> AutoCloseTimer {
        match self.tick_outcome(visible) {
            TickOutcome::Remaining(remaining) => AutoCloseTimer {
                armed: self.armed,
                state: TimerState::Running { remaining },
            },
            TickOutcome::Expired => AutoCloseTimer { armed: self.armed, state: TimerState::Expired },
            _ => self,
        }
    }

    /// The timer after `n` ticks with the surface visible.
    pub open spec fn after_ticks(self, n: nat) -> AutoCloseTimer
        decreases n,
    {
        if n == 0 {
            self
        } else {
            self.after_ticks((n - 1) as nat).ticked(true)
        }
    }

    /// A timer with no countdown under way.
    pub fn new(armed: bool) -> (timer: Self)
        ensures
            timer == (AutoCloseTimer { armed, state: TimerState::Idle }),
            timer.wf(),
    {
        AutoCloseTimer { armed, state: TimerState::Idle }
    }

    /// The seconds to display, if any.
    pub fn remaining(&self) -> (seconds: Option<i32>)
        ensures
            seconds == self.display(),
    {
        match self.state {
            TimerState::Running { remaining } => if self.armed {
                Some(remaining)
            } else {
                None
            },
            _ => None,
        }
    }

    /// Switches the feature on or off.
    pub fn set_armed(&mut self, on: bool)
        ensures
            *final(self) == old(self).armed_as(on),
            old(self).wf() ==> final(self).wf(),
    {
        if let TimerState::Expired = self.state {
            self.armed = on;
        } else if !(on && self.armed) {
            self.armed = on;
            self.state = TimerState::Idle;
        }
    }

    /// A password was generated.
    pub fn password_generated(&mut self)
        ensures
            *final(self) == old(self).restarted(),
            old(self).wf() ==> final(self).wf(),
    {
        if self.armed {
            if let TimerState::Expired = self.state {
            } else {
                self.state = TimerState::Running { remaining: CLOSE_AFTER_SEC };
            }
        }
    }

    /// The pointer was pressed somewhere on the surface. Returns whether the
    /// countdown was cancelled, in which case the display is to be cleared.
    pub fn pointer_pressed(&mut self) -> (cancelled: bool)
        ensures
            cancelled == old(self).cancels(),
            *final(self) == old(self).pressed(),
            cancelled ==> final(self).display() is None,
            old(self).wf() ==> final(self).wf(),
    {
        if self.armed {
            if let TimerState::Running { remaining: _ } = self.state {
                self.state = TimerState::Cancelled;
                return true;
            }
        }
        false
    }

    /// One second passed; `visible` says whether the surface is still
    /// there to be seen.
    pub fn tick(&mut self, visible: bool) -> (outcome: TickOutcome)
        ensures
            outcome == old(self).tick_outcome(visible),
            *final(self) == old(self).ticked(visible),
            old(self).wf() ==> final(self).wf(),
    {
        if !visible {
            return TickOutcome::Stopped;
        }
        match self.state {
            TimerState::Expired => TickOutcome::Stopped,
            TimerState::Running { remaining } => {
                if !self.armed {
                    TickOutcome::Blank
                } else if remaining <= 1 {
                    self.state = TimerState::Expired;
                    TickOutcome::Expired
                } else {
                    self.state = TimerState::Running { remaining: remaining - 1 };
                    TickOutcome::Remaining(remaining - 1)
                }
            },
            _ => TickOutcome::Blank,
        }
    }

    /// Where a fresh countdown stands after `n` visible ticks: `10 - n`
    /// seconds are left before the tenth, and it is expired from the tenth
    /// on.
    pub proof fn lemma_countdown(self, n: nat)
        requires
            self.armed,
            !(self.state is Expired),
        ensures
            self.restarted().after_ticks(n) == (AutoCloseTimer {
                armed: true,
                state: if n < 10 {
                    TimerState::Running { remaining: (10 - n) as i32 }
                } else {
                    TimerState::Expired
                },
            }),
        decreases n,
    {
        if n > 0 {
            self.lemma_countdown((n - 1) as nat);
        }
    }

    /// Switching the feature on and then generating a password sets the
    /// remaining time to exactly ten seconds, and of the visible ticks that
    /// follow the tenth, and only the tenth, signals expiry.
    pub proof fn lemma_expires_on_tenth_tick(self, n: nat)
        requires
            !(self.state is Expired),
            n >= 1,
        ensures
            self.armed_as(true).restarted().display() == Some(CLOSE_AFTER_SEC),
            self.armed_as(true).restarted().after_ticks((n - 1) as nat).tick_outcome(true)
                is Expired <==> n == 10,
    {
        self.armed_as(true).lemma_countdown((n - 1) as nat);
    }

    /// A pointer press during a running countdown clears the display at
    /// once, and no number of ticks brings a decrement back: the timer stays
    /// as the press left it until the next generated password, which starts
    /// a fresh countdown of ten seconds.
    pub proof fn lemma_press_stops_countdown(self, n: nat)
        requires
            self.cancels(),
        ensures
            self.pressed().display() is None,
            self.pressed().after_ticks(n) == self.pressed(),
            self.pressed().after_ticks(n).tick_outcome(true) == TickOutcome::Blank,
            self.pressed().after_ticks(n).restarted().display() == Some(CLOSE_AFTER_SEC),
        decreases n,
    {
        if n > 0 {
            self.lemma_press_stops_countdown((n - 1) as nat);
        }
    }

    /// Switching the feature off ends the countdown and clears the display;
    /// switching it back on starts none until a password is generated.
    pub proof fn lemma_rearm_waits_for_generation(self, n: nat)
        requires
            !(self.state is Expired),
        ensures
            self.armed_as(false).state is Idle,
            self.armed_as(false).display() is None,
            self.armed_as(false).armed_as(true).after_ticks(n).display() is None,
            self.armed_as(false).armed_as(true).restarted().display() == Some(CLOSE_AFTER_SEC),
    {
        self.armed_as(false).armed_as(true).lemma_idle_stays(n);
    }

    /// An idle timer stays idle under ticks.
    proof fn lemma_idle_stays(self, n: nat)
        requires
            self.state is Idle,
        ensures
            self.after_ticks(n) == self,
        decreases n,
    {
        if n > 0 {
            self.lemma_idle_stays((n - 1) as nat);
        }
    }
}

} // verus!
