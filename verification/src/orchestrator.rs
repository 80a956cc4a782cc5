//! The top-level session state machine. The surrounding program performs
//! the outside work (checking for a running session, issuing the calls,
//! attaching) and reports each outcome back; the decisions of what happens
//! next are made here.

use vstd::prelude::*;

verus! {

/// Where a run stands. A session that already runs is attached to directly;
/// an absent one is compiled, executed and then attached to.
#[derive(Clone, Copy, Debug, PartialEq, Eq, Structural)]
pub enum Phase {
    Unchecked,
    Exists,
    Absent,
    Compiled,
    Executed,
    Attached,
}

/// The outside work a phase calls for.
#[derive(Clone, Copy, Debug, PartialEq, Eq, Structural)]
pub enum Action {
    CheckSession,
    Compile,
    Execute,
    Attach,
    Done,
}

/// What the surrounding program reports back after performing an action.
#[derive(Clone, Copy, Debug, PartialEq, Eq, Structural)]
pub enum Outcome {
    SessionFound,
    SessionMissing,
    CompiledOk,
    ExecutedOk,
    AttachedOk,
}

/// The action each phase calls for: an existing session is attached to with
/// nothing compiled or executed; an absent one walks compile, execute,
/// attach; the attached phase is terminal.
pub open spec fn action_spec(p: Phase) -> Action {
    match p {
        Phase::Unchecked => Action::CheckSession,
        Phase::Exists => Action::Attach,
        Phase::Absent => Action::Compile,
        Phase::Compiled => Action::Execute,
        Phase::Executed => Action::Attach,
        Phase::Attached => Action::Done,
    }
}

/// The outcomes that can answer a phase's action.
pub open spec fn outcome_fits(p: Phase, o: Outcome) -> bool {
    match p {
        Phase::Unchecked => o == Outcome::SessionFound || o == Outcome::SessionMissing,
        Phase::Exists => o == Outcome::AttachedOk,
        Phase::Absent => o == Outcome::CompiledOk,
        Phase::Compiled => o == Outcome::ExecutedOk,
        Phase::Executed => o == Outcome::AttachedOk,
        Phase::Attached => false,
    }
}

/// The phase an outcome leads to.
pub open spec fn step_spec(p: Phase, o: Outcome) -> Phase {
    match p {
        Phase::Unchecked => if o == Outcome::SessionFound {
            Phase::Exists
        } else {
            Phase::Absent
        },
        Phase::Exists => Phase::Attached,
        Phase::Absent => Phase::Compiled,
        Phase::Compiled => Phase::Executed,
        Phase::Executed => Phase::Attached,
        Phase::Attached => Phase::Attached,
    }
}

/// The action a phase calls for.
pub fn next_action(p: &Phase) -> (a: Action)
    ensures
        a == action_spec(*p),
{
    match p {
        Phase::Unchecked => Action::CheckSession,
        Phase::Exists => Action::Attach,
        Phase::Absent => Action::Compile,
        Phase::Compiled => Action::Execute,
        Phase::Executed => Action::Attach,
        Phase::Attached => Action::Done,
    }
}

/// Advance the machine by one reported outcome. A failed attach or a failed
/// session creation is terminal for the caller and reported upward, so no
/// failure outcome moves the machine.
pub fn step(p: &Phase, o: &Outcome) -> (q: Phase)
    requires
        outcome_fits(*p, *o),
    ensures
        q == step_spec(*p, *o),
{
    match p {
        Phase::Unchecked => {
            if matches!(o, Outcome::SessionFound) {
                Phase::Exists
            } else {
                Phase::Absent
            }
        },
        Phase::Exists => Phase::Attached,
        Phase::Absent => Phase::Compiled,
        Phase::Compiled => Phase::Executed,
        Phase::Executed => Phase::Attached,
        Phase::Attached => Phase::Attached,
    }
}

/// An existing session is only ever attached to: from the phase that found
/// it, every reachable step is an attach or the end.
pub proof fn lemma_exists_skips_compilation(o: Outcome)
    ensures
        action_spec(Phase::Exists) == Action::Attach,
        action_spec(step_spec(Phase::Exists, o)) == Action::Done,
{
}

} // verus!
