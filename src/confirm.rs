//! The confirmation gate between a verdict, the user's choice and execution,
//! and what the executor decides around running a command.

use vstd::prelude::*;
use crate::safety::{SafetyCheckResult, SafetyLevel};

verus! {

/// What the user chose to do with a command.
#[derive(Debug, Clone, Copy, PartialEq, Eq, Structural)]
pub enum UserAction {
    Run,
    Copy,
    Abort,
}

/// Where a request stands in its confirmation.
#[derive(Debug, Clone, Copy, PartialEq, Eq, Structural)]
pub enum GateState {
    Prompting,
    Confirming,
    Executing,
    Copying,
    Aborted,
}

/// An input to the confirmation: the user's choice, or the answer to the second
/// confirmation.
#[derive(Debug, Clone, Copy, PartialEq, Eq, Structural)]
pub enum GateEvent {
    Choose(UserAction),
    Confirm(bool),
}

/// The state a request starts in: a forced `Safe` command runs at once.
pub open spec fn initial_state(level: SafetyLevel, force: bool) -> GateState {
    if force && level == SafetyLevel::Safe {
        GateState::Executing
    } else {
        GateState::Prompting
    }
}

/// `Run` on a `Safe` command runs it; on any other it asks again, force or not.
pub open spec fn after_run(level: SafetyLevel) -> GateState {
    if level == SafetyLevel::Safe {
        GateState::Executing
    } else {
        GateState::Confirming
    }
}

/// One transition. Events that do not apply in a state leave it unchanged,
/// and the three outcomes are final.
pub open spec fn step(s: GateState, level: SafetyLevel, e: GateEvent) -> GateState {
    match (s, e) {
        (GateState::Prompting, GateEvent::Choose(UserAction::Run)) => after_run(level),
        (GateState::Prompting, GateEvent::Choose(UserAction::Copy)) => GateState::Copying,
        (GateState::Prompting, GateEvent::Choose(UserAction::Abort)) => GateState::Aborted,
        (GateState::Confirming, GateEvent::Confirm(yes)) => if yes && level
            != SafetyLevel::Blocked {
            GateState::Executing
        } else {
            GateState::Aborted
        },
        _ => s,
    }
}

/// The state after a sequence of events, from the initial one.
pub open spec fn run_events(level: SafetyLevel, force: bool, es: Seq<GateEvent>) -> GateState
    decreases es.len(),
{
    if es.len() == 0 {
        initial_state(level, force)
    } else {
        step(run_events(level, force, es.drop_last()), level, es.last())
    }
}

/// The confirmation of one request.
pub struct ConfirmationGate {
    level: SafetyLevel,
    force: bool,
    state: GateState,
}

impl ConfirmationGate {
    pub closed spec fn spec_level(&self) -> SafetyLevel {
        self.level
    }

    pub closed spec fn spec_force(&self) -> bool {
        self.force
    }

    pub closed spec fn spec_state(&self) -> GateState {
        self.state
    }

    /// A gate for a command of `level`, with or without the force flag.
    pub fn new(level: SafetyLevel, force: bool) -> (r: Self)
        ensures
            r.spec_level() == level,
            r.spec_force() == force,
            r.spec_state() == initial_state(level, force),
    {
        let state = if force && level == SafetyLevel::Safe {
            GateState::Executing
        } else {
            GateState::Prompting
        };
        ConfirmationGate { level, force, state }
    }

    pub fn state(&self) -> (r: GateState)
        ensures
            r == self.spec_state(),
    {
        self.state
    }

    /// Feeds one event to the confirmation.
    pub fn handle(&mut self, e: GateEvent)
        ensures
            final(self).spec_level() == old(self).spec_level(),
            final(self).spec_force() == old(self).spec_force(),
            final(self).spec_state() == step(old(self).spec_state(), old(self).spec_level(), e),
    {
        let next = match (self.state, e) {
            (GateState::Prompting, GateEvent::Choose(UserAction::Run)) => {
                if self.level == SafetyLevel::Safe {
                    GateState::Executing
                } else {
                    GateState::Confirming
                }
            },
            (GateState::Prompting, GateEvent::Choose(UserAction::Copy)) => GateState::Copying,
            (GateState::Prompting, GateEvent::Choose(UserAction::Abort)) => GateState::Aborted,
            (GateState::Confirming, GateEvent::Confirm(yes)) => {
                if yes && self.level != SafetyLevel::Blocked {
                    GateState::Executing
                } else {
                    GateState::Aborted
                }
            },
            (s, _) => s,
        };
        self.state = next;
    }
}

/// The outcome of a whole interaction: the user's choice and, where it
/// asks, the answer to the second confirmation.
pub open spec fn resolve_spec(
    level: SafetyLevel,
    force: bool,
    action: UserAction,
    confirmed: bool,
) -> GateState {
    let s0 = initial_state(level, force);
    let s1 = step(s0, level, GateEvent::Choose(action));
    step(s1, level, GateEvent::Confirm(confirmed))
}

/// Runs the confirmation for `verdict` to its outcome: `Executing`, `Copying` or `Aborted`.
pub fn resolve(verdict: &SafetyCheckResult, force: bool, action: UserAction, confirmed: bool) -> (r:
    GateState)
    ensures
        r == resolve_spec(verdict.level, force, action, confirmed),
        r == GateState::Executing || r == GateState::Copying || r == GateState::Aborted,
{
    let mut gate = ConfirmationGate::new(verdict.level, force);
    gate.handle(GateEvent::Choose(action));
    gate.handle(GateEvent::Confirm(confirmed));
    gate.state()
}

/// A `Blocked` command never reaches `Executing`, whatever the force flag and
/// whatever events, confirmations included, it receives.
pub proof fn lemma_blocked_never_executes(force: bool, es: Seq<GateEvent>)
    ensures
        run_events(SafetyLevel::Blocked, force, es) != GateState::Executing,
    decreases es.len(),
{
    if es.len() > 0 {
        lemma_blocked_never_executes(force, es.drop_last());
    }
}

/// A `Warning` or `Dangerous` command reaches `Executing` only after an
/// explicit second confirmation, whatever the force flag.
pub proof fn lemma_risky_needs_confirmation(level: SafetyLevel, force: bool, es: Seq<GateEvent>)
    requires
        level == SafetyLevel::Warning || level == SafetyLevel::Dangerous,
        run_events(level, force, es) == GateState::Executing,
    ensures
        exists|i: int| 0 <= i < es.len() && es[i] == GateEvent::Confirm(true),
    decreases es.len(),
{
    if es.len() > 0 {
        let prev = es.drop_last();
        if run_events(level, force, prev) == GateState::Executing {
            lemma_risky_needs_confirmation(level, force, prev);
            let i = choose|i: int| 0 <= i < prev.len() && prev[i] == GateEvent::Confirm(true);
            assert(es[i] == prev[i]);
        } else {
            assert(es[es.len() - 1] == GateEvent::Confirm(true));
        }
    }
}

/// Once an outcome is reached, no event changes it.
pub proof fn lemma_outcomes_final(level: SafetyLevel, s: GateState, e: GateEvent)
    requires
        s == GateState::Executing || s == GateState::Copying || s == GateState::Aborted,
    ensures
        step(s, level, e) == s,
{
}

} // verus!
