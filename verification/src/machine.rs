//! Transition state machine and race guard: sequences watchdog events into
//! power transitions.
//!
//! The machine starts waiting for idleness. On an idle signal it either
//! powers the outputs off at once (direct policy) or first records when the
//! signal arrived and waits for an independent confirmation (debounced
//! policy): if the gap between the first idle observation and the
//! confirmation exceeds the guard window, the whole cycle is abandoned
//! without powering off — a stale idle signal means something else kept the
//! system busy. A resume signal while the outputs are off powers every
//! known output back on and ends the cycle. Signals that arrive in a state
//! where they carry no meaning are ignored.

use vstd::prelude::*;

use crate::power::{command_seq, power_commands, PowerCommand, PowerMode};
use crate::registry::{caps_ok, CapabilityError, Registry};

verus! {

/// How an idle signal is acted upon.
#[derive(Clone, Copy, PartialEq, Eq, Structural, Debug)]
pub enum Policy {
    /// Power off immediately on the idle signal.
    Direct,
    /// Power off only once idleness is confirmed within `guard_ms`
    /// milliseconds of the idle signal; a later confirmation aborts the
    /// cycle without any power-off.
    Debounced { guard_ms: u64 },
}

/// Where the machine stands in the on/off/on cycle.
#[derive(Clone, Copy, PartialEq, Eq, Structural, Debug)]
pub enum Phase {
    /// Armed; no idle signal seen yet (or the last one was ignored).
    WaitingForIdle,
    /// Debounced policy only: an idle signal arrived at `idled_at_ms` and
    /// the machine awaits confirmation of sustained idleness.
    DebounceWait { idled_at_ms: u64 },
    /// The outputs have been commanded off; awaiting resume.
    Off,
    /// The cycle is over: either resumed (outputs back on) or aborted by
    /// the race guard.
    Done,
}

/// A signal delivered by the event loop. `Idled` and `Resumed` come from
/// the watchdog; `IdleConfirmed` from the debounced policy's independent
/// idle-timeout mechanism; `Other` stands for any housekeeping signal,
/// which the machine must ignore.
#[derive(Clone, Copy, PartialEq, Eq, Structural, Debug)]
pub enum Event {
    Idled,
    IdleConfirmed,
    Resumed,
    Other,
}

/// What one reaction to an event asks of the event loop: power commands to
/// issue, and, when the debounce wait has just begun, the width in
/// milliseconds of the confirmation timer to arm.
#[derive(Debug)]
pub struct Step {
    pub commands: Vec<PowerCommand>,
    pub arm_confirmation_ms: Option<u64>,
}

/// The controller's working state: the known outputs it drives, the chosen
/// policy, its phase in the cycle, the power state it has most recently
/// asserted (tracked logically, never read back from the server), and
/// whether the race guard abandoned the cycle.
#[derive(Debug)]
pub struct Controller {
    /// Registry names of the outputs every power transition targets.
    pub outputs: Vec<u32>,
    pub policy: Policy,
    pub phase: Phase,
    /// The mode last asserted over the outputs, if any.
    pub asserted: Option<PowerMode>,
    /// True when the race guard ended the cycle without powering off.
    pub aborted: bool,
}

/// Milliseconds from `t0` to `now`, zero if the clock ran backwards.
pub open spec fn elapsed_ms(t0: u64, now: u64) -> int {
    if now >= t0 {
        now - t0
    } else {
        0
    }
}

/// The race guard rejects a confirmation that arrived more than the guard
/// window after the idle signal it confirms.
pub open spec fn guard_expired(guard_ms: u64, t0: u64, now: u64) -> bool {
    elapsed_ms(t0, now) > guard_ms
}

/// The power mode the machine asserts over the full output set in reaction
/// to `ev` at time `now`, if any.
pub open spec fn emitted_mode(c: Controller, ev: Event, now: u64) -> Option<PowerMode> {
    match (c.phase, ev) {
        (Phase::WaitingForIdle, Event::Idled) => match c.policy {
            Policy::Direct => Some(PowerMode::Off),
            Policy::Debounced { .. } => None,
        },
        (Phase::DebounceWait { idled_at_ms }, Event::IdleConfirmed) => match c.policy {
            Policy::Debounced { guard_ms } => if !guard_expired(guard_ms, idled_at_ms, now) {
                Some(PowerMode::Off)
            } else {
                None
            },
            Policy::Direct => None,
        },
        (Phase::Off, Event::Resumed) => Some(PowerMode::On),
        _ => None,
    }
}

/// The phase the machine moves to in reaction to `ev` at time `now`.
pub open spec fn next_phase(c: Controller, ev: Event, now: u64) -> Phase {
    match (c.phase, ev) {
        (Phase::WaitingForIdle, Event::Idled) => match c.policy {
            Policy::Direct => Phase::Off,
            Policy::Debounced { .. } => Phase::DebounceWait { idled_at_ms: now },
        },
        (Phase::DebounceWait { idled_at_ms }, Event::IdleConfirmed) => match c.policy {
            Policy::Debounced { guard_ms } => if !guard_expired(guard_ms, idled_at_ms, now) {
                Phase::Off
            } else {
                Phase::Done
            },
            Policy::Direct => c.phase,
        },
        (Phase::DebounceWait { .. }, Event::Resumed) => Phase::WaitingForIdle,
        (Phase::Off, Event::Resumed) => Phase::Done,
        _ => c.phase,
    }
}

/// Whether reacting to `ev` at time `now` triggers the race guard's abort.
pub open spec fn next_aborted(c: Controller, ev: Event, now: u64) -> bool {
    c.aborted || match (c.phase, ev) {
        (Phase::DebounceWait { idled_at_ms }, Event::IdleConfirmed) => match c.policy {
            Policy::Debounced { guard_ms } => guard_expired(guard_ms, idled_at_ms, now),
            Policy::Direct => false,
        },
        _ => false,
    }
}

/// The logical power state after reacting to `ev` at time `now`: updated by
/// an emitted transition, otherwise unchanged.
pub open spec fn next_asserted(c: Controller, ev: Event, now: u64) -> Option<PowerMode> {
    match emitted_mode(c, ev, now) {
        Some(m) => Some(m),
        None => c.asserted,
    }
}

/// The guard-window confirmation timer one reaction asks the event loop to
/// arm: the debounced policy wants an independent idle-timeout of the
/// guard's width exactly when the debounce wait begins.
pub open spec fn confirmation_to_arm(c: Controller, ev: Event) -> Option<u64> {
    match (c.phase, ev, c.policy) {
        (Phase::WaitingForIdle, Event::Idled, Policy::Debounced { guard_ms }) => Some(guard_ms),
        _ => None,
    }
}

/// The whole controller state after reacting to `ev` at time `now`.
pub open spec fn step_state(c: Controller, ev: Event, now: u64) -> Controller {
    Controller {
        outputs: c.outputs,
        policy: c.policy,
        phase: next_phase(c, ev, now),
        asserted: next_asserted(c, ev, now),
        aborted: next_aborted(c, ev, now),
    }
}

/// The controller state after asserting `mode` over its outputs: only the
/// tracked power state changes.
pub open spec fn after_set_power(c: Controller, mode: PowerMode) -> Controller {
    Controller { asserted: Some(mode), ..c }
}

impl Controller {
    /// Build the controller from the discovery results, gating on the two
    /// required capabilities: construction succeeds exactly when both the
    /// power-control and the idle-signal capability are present, and the
    /// error names the missing one, power control first. On success the
    /// machine owns the known-output set and waits for idleness, with no
    /// power state asserted yet.
    pub fn new(reg: &Registry, policy: Policy) -> (r: Result<Controller, CapabilityError>)
        ensures
            r is Ok <==> caps_ok(*reg),
            r matches Ok(c) ==> {
                &&& c.outputs@ == reg.outputs@
                &&& c.policy == policy
                &&& c.phase is WaitingForIdle
                &&& c.asserted is None
                &&& !c.aborted
            },
            !reg.has_power_manager ==> r == Result::<Controller, CapabilityError>::Err(
                CapabilityError::PowerControlMissing,
            ),
            reg.has_power_manager && !reg.has_idle_notifier ==> r == Result::<
                Controller,
                CapabilityError,
            >::Err(CapabilityError::IdleSignalMissing),
    {
        match reg.check_capabilities() {
            Err(e) => Err(e),
            Ok(()) => Ok(
                Controller {
                    outputs: reg.outputs.clone(),
                    policy,
                    phase: Phase::WaitingForIdle,
                    asserted: None,
                    aborted: false,
                },
            ),
        }
    }

    /// Assert `mode` on every currently known output: one command per
    /// output, covering the full set, and record `mode` as the power state
    /// now believed in effect. Nothing else changes.
    pub fn set_power(&mut self, mode: PowerMode) -> (cmds: Vec<PowerCommand>)
        ensures
            *final(self) == after_set_power(*old(self), mode),
            cmds@ == command_seq(old(self).outputs@, mode),
    {
        self.asserted = Some(mode);
        power_commands(&self.outputs, mode)
    }

    /// React to one event at wall-clock time `now_ms`: move to the next
    /// phase and return what the event loop must do — issue the power
    /// commands of this step (the full output set when a transition fires,
    /// none otherwise), and arm the confirmation timer when the debounce
    /// wait has just begun.
    pub fn handle_event(&mut self, ev: Event, now_ms: u64) -> (step: Step)
        ensures
            *final(self) == step_state(*old(self), ev, now_ms),
            step.commands@ == match emitted_mode(*old(self), ev, now_ms) {
                Some(m) => command_seq(old(self).outputs@, m),
                None => Seq::<PowerCommand>::empty(),
            },
            step.arm_confirmation_ms == confirmation_to_arm(*old(self), ev),
    {
        let mut cmds: Vec<PowerCommand> = Vec::new();
        let mut arm_confirmation_ms: Option<u64> = None;
        match (self.phase, ev) {
            (Phase::WaitingForIdle, Event::Idled) => {
                match self.policy {
                    Policy::Direct => {
                        cmds = self.set_power(PowerMode::Off);
                        self.phase = Phase::Off;
                    },
                    Policy::Debounced { guard_ms } => {
                        self.phase = Phase::DebounceWait { idled_at_ms: now_ms };
                        arm_confirmation_ms = Some(guard_ms);
                    },
                }
            },
            (Phase::DebounceWait { idled_at_ms }, Event::IdleConfirmed) => {
                match self.policy {
                    Policy::Debounced { guard_ms } => {
                        let gap: u64 = if now_ms >= idled_at_ms {
                            now_ms - idled_at_ms
                        } else {
                            0
                        };
                        if gap <= guard_ms {
                            cmds = self.set_power(PowerMode::Off);
                            self.phase = Phase::Off;
                        } else {
                            self.phase = Phase::Done;
                            self.aborted = true;
                        }
                    },
                    Policy::Direct => {},
                }
            },
            (Phase::DebounceWait { .. }, Event::Resumed) => {
                self.phase = Phase::WaitingForIdle;
            },
            (Phase::Off, Event::Resumed) => {
                cmds = self.set_power(PowerMode::On);
                self.phase = Phase::Done;
            },
            _ => {},
        }
        Step { commands: cmds, arm_confirmation_ms }
    }

    /// The cycle is over and the event loop may stop.
    pub fn is_done(&self) -> (r: bool)
        ensures
            r == (self.phase is Done),
    {
        match self.phase {
            Phase::Done => true,
            _ => false,
        }
    }

    /// When the debounced policy awaits confirmation of sustained
    /// idleness, the time the idle signal arrived; `None` otherwise.
    pub fn awaiting_confirmation(&self) -> (r: Option<u64>)
        ensures
            self.phase matches Phase::DebounceWait { idled_at_ms } ==> r == Some(idled_at_ms),
            !(self.phase is DebounceWait) ==> r is None,
    {
        match self.phase {
            Phase::DebounceWait { idled_at_ms } => Some(idled_at_ms),
            _ => None,
        }
    }
}

} // verus!
