//! The shutdown coordinator: the UI-visible graceful-shutdown protocol
//! that runs when the user closes the window while the node may still be
//! mid-transaction.
//!
//! The coordinator is a step machine: each [`ShutdownCoordinator::step`]
//! takes the supervisor's current liveness and decides the next phase and
//! the next action.  The surrounding application performs each action —
//! emitting a status event, invoking the supervisor, sleeping one of the
//! fixed delays — re-reads `is_running()` and steps again, until the
//! machine releases the window.  The policy is poll-then-escalate: a
//! well-behaved process gets a bounded grace period
//! ([`MAX_POLL_ATTEMPTS`] polls of [`POLL_INTERVAL_MS`] each, about three
//! seconds) to exit cleanly before a forced kill, so worst-case shutdown
//! latency stays bounded while an avoidable hard kill is avoided.

use vstd::prelude::*;

verus! {

/// Fixed interval between two liveness polls, in milliseconds.
pub const POLL_INTERVAL_MS: u64 = 100;

/// Fixed budget of liveness polls before escalating to a forced kill.
pub const MAX_POLL_ATTEMPTS: u32 = 30;

/// Every how many polls an updated status (elapsed seconds) is emitted.
pub const PROGRESS_EVERY: u32 = 10;

/// Fixed settle delay after a forced kill, in milliseconds.
pub const SETTLE_DELAY_MS: u64 = 500;

/// Fixed delay before the window is released, for the UI close animation,
/// in milliseconds.
pub const CLOSE_DELAY_MS: u64 = 500;

/// Phase of the shutdown protocol.
#[derive(Clone, Copy, Debug, PartialEq, Eq, Structural)]
pub enum ShutdownPhase {
    /// Initial: a close request arrived; nothing has been decided yet.
    CloseRequested,
    /// The close is suspended and the graceful termination request has
    /// been issued.
    AwaitingGraceful,
    /// `attempts` liveness polls have been completed.
    Polling { attempts: u32 },
    /// The poll budget was exhausted while the process still ran; it is
    /// being killed.
    ForceKilling,
    /// The final status has been emitted; the UI is animating the close.
    Closing,
    /// Terminal: the window has been released.
    Released,
}

/// What the application must do after a step.
#[derive(Clone, Copy, Debug, PartialEq, Eq, Structural)]
pub enum ShutdownAction {
    /// Permit the window to close now.
    Release,
    /// Emit the begin-shutdown statuses and invoke the supervisor's
    /// graceful `shutdown()`.
    BeginGraceful,
    /// Sleep one [`POLL_INTERVAL_MS`]; when `report_seconds` is not zero,
    /// emit an updated status naming that many elapsed seconds.
    Poll { report_seconds: u32 },
    /// Emit the force-stop status, call the supervisor's `force_kill()`,
    /// then sleep [`SETTLE_DELAY_MS`].
    ForceKill,
    /// Emit the final closing status, then sleep [`CLOSE_DELAY_MS`].
    FinishClose,
}

/// The transition function of the protocol: from the current phase and
/// the supervisor's current liveness to the next phase and the action the
/// application must perform.
pub open spec fn spec_step(phase: ShutdownPhase, running: bool) -> (ShutdownPhase, ShutdownAction) {
    match phase {
        ShutdownPhase::CloseRequested => if !running {
            // Fast path: nothing to shut down, close at once.
            (ShutdownPhase::Released, ShutdownAction::Release)
        } else {
            (ShutdownPhase::AwaitingGraceful, ShutdownAction::BeginGraceful)
        },
        ShutdownPhase::AwaitingGraceful => if !running {
            (ShutdownPhase::Closing, ShutdownAction::FinishClose)
        } else {
            (
                ShutdownPhase::Polling { attempts: 1 },
                ShutdownAction::Poll { report_seconds: 0 },
            )
        },
        ShutdownPhase::Polling { attempts } => if !running {
            (ShutdownPhase::Closing, ShutdownAction::FinishClose)
        } else if attempts < MAX_POLL_ATTEMPTS {
            let next = (attempts + 1) as u32;
            (
                ShutdownPhase::Polling { attempts: next },
                ShutdownAction::Poll {
                    report_seconds: if next % PROGRESS_EVERY == 0 {
                        (next / PROGRESS_EVERY) as u32
                    } else {
                        0u32
                    },
                },
            )
        } else {
            (ShutdownPhase::ForceKilling, ShutdownAction::ForceKill)
        },
        ShutdownPhase::ForceKilling => (ShutdownPhase::Closing, ShutdownAction::FinishClose),
        ShutdownPhase::Closing => (ShutdownPhase::Released, ShutdownAction::Release),
        ShutdownPhase::Released => (ShutdownPhase::Released, ShutdownAction::Release),
    }
}

/// A phase the protocol can actually reach: the poll counter stays within
/// the budget.
pub open spec fn phase_wf(phase: ShutdownPhase) -> bool {
    match phase {
        ShutdownPhase::Polling { attempts } => 1 <= attempts <= MAX_POLL_ATTEMPTS,
        _ => true,
    }
}

/// Ephemeral session driving one shutdown; created when a close request
/// arrives, destroyed once the window is permitted to close.
pub struct ShutdownCoordinator {
    phase: ShutdownPhase,
}

impl ShutdownCoordinator {
    /// Current phase of the protocol.
    pub closed spec fn phase(&self) -> ShutdownPhase {
        self.phase
    }

    /// Starts a session in the initial phase.
    pub fn new() -> (r: ShutdownCoordinator)
        ensures
            r.phase() == ShutdownPhase::CloseRequested,
            phase_wf(r.phase()),
    {
        ShutdownCoordinator { phase: ShutdownPhase::CloseRequested }
    }

    /// Performs one transition of [`spec_step`] on the supervisor's
    /// current liveness and returns the action the caller must perform.
    pub fn step(&mut self, running: bool) -> (a: ShutdownAction)
        requires
            phase_wf(old(self).phase()),
        ensures
            phase_wf(final(self).phase()),
            (final(self).phase(), a) == spec_step(old(self).phase(), running),
    {
        let (next, action): (ShutdownPhase, ShutdownAction) = match self.phase {
            ShutdownPhase::CloseRequested => if !running {
                (ShutdownPhase::Released, ShutdownAction::Release)
            } else {
                (ShutdownPhase::AwaitingGraceful, ShutdownAction::BeginGraceful)
            },
            ShutdownPhase::AwaitingGraceful => if !running {
                (ShutdownPhase::Closing, ShutdownAction::FinishClose)
            } else {
                (ShutdownPhase::Polling { attempts: 1 }, ShutdownAction::Poll { report_seconds: 0 })
            },
            ShutdownPhase::Polling { attempts } => if !running {
                (ShutdownPhase::Closing, ShutdownAction::FinishClose)
            } else if attempts < MAX_POLL_ATTEMPTS {
                let next_attempts = attempts + 1;
                (
                    ShutdownPhase::Polling { attempts: next_attempts },
                    ShutdownAction::Poll {
                        report_seconds: if next_attempts % PROGRESS_EVERY == 0 {
                            next_attempts / PROGRESS_EVERY
                        } else {
                            0
                        },
                    },
                )
            } else {
                (ShutdownPhase::ForceKilling, ShutdownAction::ForceKill)
            },
            ShutdownPhase::ForceKilling => (ShutdownPhase::Closing, ShutdownAction::FinishClose),
            ShutdownPhase::Closing => (ShutdownPhase::Released, ShutdownAction::Release),
            ShutdownPhase::Released => (ShutdownPhase::Released, ShutdownAction::Release),
        };
        self.phase = next;
        action
    }

    /// True once the protocol has released the window; no further action
    /// will be requested.
    pub fn is_released(&self) -> (r: bool)
        ensures
            r == (self.phase() == ShutdownPhase::Released),
    {
        match self.phase {
            ShutdownPhase::Released => true,
            _ => false,
        }
    }
}

/// The actions of a whole session: from `phase`, one transition per
/// observed liveness value, until the window is released or the
/// observations run out.
pub open spec fn protocol_run(phase: ShutdownPhase, liveness: Seq<bool>) -> Seq<ShutdownAction>
    decreases liveness.len(),
{
    if liveness.len() == 0 || phase == ShutdownPhase::Released {
        Seq::empty()
    } else {
        let next = spec_step(phase, liveness[0]);
        seq![next.1] + protocol_run(next.0, liveness.drop_first())
    }
}

/// How many of the actions are polls.
pub open spec fn polls_in(actions: Seq<ShutdownAction>) -> int
    decreases actions.len(),
{
    if actions.len() == 0 {
        0
    } else {
        (if actions[0] is Poll {
            1int
        } else {
            0int
        }) + polls_in(actions.drop_first())
    }
}

/// The polls a phase may still perform before it must escalate or close.
pub open spec fn poll_budget(phase: ShutdownPhase) -> int {
    match phase {
        ShutdownPhase::CloseRequested => MAX_POLL_ATTEMPTS as int,
        ShutdownPhase::AwaitingGraceful => MAX_POLL_ATTEMPTS as int,
        ShutdownPhase::Polling { attempts } => MAX_POLL_ATTEMPTS - attempts,
        ShutdownPhase::ForceKilling => 0,
        ShutdownPhase::Closing => 0,
        ShutdownPhase::Released => 0,
    }
}

/// Law: however the process's liveness evolves, one shutdown session
/// performs at most [`MAX_POLL_ATTEMPTS`] polls — the waiting before the
/// protocol escalates or closes is bounded.
pub proof fn lemma_poll_budget_bounds_session(phase: ShutdownPhase, liveness: Seq<bool>)
    requires
        phase_wf(phase),
    ensures
        polls_in(protocol_run(phase, liveness)) <= poll_budget(phase),
        poll_budget(phase) <= MAX_POLL_ATTEMPTS,
    decreases liveness.len(),
{
    if liveness.len() == 0 || phase == ShutdownPhase::Released {
    } else {
        let (p2, a) = spec_step(phase, liveness[0]);
        let rest = protocol_run(p2, liveness.drop_first());
        lemma_poll_budget_bounds_session(p2, liveness.drop_first());
        assert((seq![a] + rest).drop_first() =~= rest);
        if a is Poll {
            assert(poll_budget(p2) <= poll_budget(phase) - 1);
        } else {
            assert(poll_budget(p2) <= poll_budget(phase));
        }
    }
}

/// A strictly decreasing measure of the remaining protocol work.
pub open spec fn phase_measure(phase: ShutdownPhase) -> int {
    match phase {
        ShutdownPhase::CloseRequested => MAX_POLL_ATTEMPTS + 5,
        ShutdownPhase::AwaitingGraceful => MAX_POLL_ATTEMPTS + 4,
        ShutdownPhase::Polling { attempts } => MAX_POLL_ATTEMPTS + 3 - attempts,
        ShutdownPhase::ForceKilling => 2,
        ShutdownPhase::Closing => 1,
        ShutdownPhase::Released => 0,
    }
}

/// Law: every step brings the protocol strictly closer to releasing the
/// window, whatever liveness reports — a shutdown session always
/// terminates and the application cannot become unclosable.
pub proof fn lemma_protocol_terminates(phase: ShutdownPhase, running: bool)
    requires
        phase_wf(phase),
        phase != ShutdownPhase::Released,
    ensures
        0 <= phase_measure(spec_step(phase, running).0) < phase_measure(phase),
{
}

/// Law: a forced kill is decided exactly when the full poll budget has
/// been spent and the process still runs — never earlier.
pub proof fn lemma_force_kill_only_after_budget(phase: ShutdownPhase, running: bool)
    requires
        phase_wf(phase),
    ensures
        spec_step(phase, running).1 == ShutdownAction::ForceKill <==> (phase
            == (ShutdownPhase::Polling { attempts: MAX_POLL_ATTEMPTS }) && running),
{
}

/// Law: once the process has exited, the protocol neither polls again nor
/// force-kills; it proceeds straight to closing or releasing.
pub proof fn lemma_exit_goes_straight_to_close(phase: ShutdownPhase)
    ensures
        spec_step(phase, false).1 != ShutdownAction::ForceKill,
        forall|s: u32| spec_step(phase, false).1 != (ShutdownAction::Poll { report_seconds: s }),
{
}

} // verus!
