//! The order of work in one run: the progress session's messages, its
//! activation, the command itself, and the deactivation that follows every
//! activation the session accepted. A failed session call ends the run at
//! once, with no further call on the session.
//!
//! The caller performs each action and reports what came of it as the next
//! event; the controller decides what to do next.
use vstd::prelude::*;

use crate::invocation::{Invocation, words};
use crate::outcome::{ExecutionResult, RunError};

verus! {

/// Where a run stands.
#[derive(Debug, PartialEq, Eq)]
pub enum Phase {
    /// Nothing has been done yet.
    Ready,
    /// The status message was sent to the progress session.
    Announcing,
    /// The done message was sent to the progress session.
    Registering,
    /// The progress session was asked to activate.
    Activating,
    /// The command is being executed.
    Running,
    /// The progress session was asked to deactivate; the run's outcome waits
    /// until that call returns.
    Deactivating(Result<ExecutionResult, RunError>),
    /// The run is over.
    Finished,
}

/// What the caller reports to the controller.
#[derive(Debug, PartialEq, Eq)]
pub enum Event {
    /// Start the run.
    Begin,
    /// The last progress-session call succeeded.
    Delivered,
    /// The last progress-session call failed, for the cause given.
    Undelivered(String),
    /// The command ran (or could not be spawned or waited on).
    Ran(Result<ExecutionResult, RunError>),
}

/// What the caller is to do next.
#[derive(Debug, PartialEq, Eq)]
pub enum Action {
    /// Send the status message to the progress session.
    SendStatus,
    /// Send the done message to the progress session.
    SendDone,
    /// Activate the progress indicator.
    Activate,
    /// Spawn the invocation and wait for it.
    Execute,
    /// Deactivate the progress indicator.
    Deactivate,
    /// The run is over, with this outcome.
    Finish(Result<ExecutionResult, RunError>),
    /// The event was not expected here; there is nothing to do.
    Idle,
}

/// The decisions of one run.
pub struct RunController {
    /// What to run; `None` when the command string held no word.
    pub invocation: Option<Invocation>,
    /// Whether a progress session accompanies the run.
    pub session: bool,
    /// Whether a status message is to be sent.
    pub has_status: bool,
    /// Whether a done message is to be sent.
    pub has_done: bool,
    pub phase: Phase,
}

/// The first message for the session, or its activation.
pub open spec fn opening(c: RunController, from_status: bool) -> (RunController, Action) {
    if from_status && c.has_status {
        (RunController { phase: Phase::Announcing, ..c }, Action::SendStatus)
    } else if c.has_done {
        (RunController { phase: Phase::Registering, ..c }, Action::SendDone)
    } else {
        (RunController { phase: Phase::Activating, ..c }, Action::Activate)
    }
}

/// The controller's transition: the next controller and the action to take.
pub open spec fn next(c: RunController, e: Event) -> (RunController, Action) {
    match (c.phase, e) {
        (Phase::Ready, Event::Begin) => if c.invocation is None {
            (
                RunController { phase: Phase::Finished, ..c },
                Action::Finish(Err(RunError::InvalidCommand)),
            )
        } else if !c.session {
            (RunController { phase: Phase::Running, ..c }, Action::Execute)
        } else {
            opening(c, true)
        },
        (Phase::Announcing, Event::Delivered) => opening(c, false),
        (Phase::Registering, Event::Delivered) => (
            RunController { phase: Phase::Activating, ..c },
            Action::Activate,
        ),
        (Phase::Announcing, Event::Undelivered(m)) => (
            RunController { phase: Phase::Finished, ..c },
            Action::Finish(Err(RunError::Channel(m))),
        ),
        (Phase::Registering, Event::Undelivered(m)) => (
            RunController { phase: Phase::Finished, ..c },
            Action::Finish(Err(RunError::Channel(m))),
        ),
        (Phase::Activating, Event::Delivered) => (
            RunController { phase: Phase::Running, ..c },
            Action::Execute,
        ),
        (Phase::Activating, Event::Undelivered(m)) => (
            RunController { phase: Phase::Finished, ..c },
            Action::Finish(Err(RunError::Channel(m))),
        ),
        (Phase::Running, Event::Ran(o)) => if c.session {
            (RunController { phase: Phase::Deactivating(o), ..c }, Action::Deactivate)
        } else {
            (RunController { phase: Phase::Finished, ..c }, Action::Finish(o))
        },
        (Phase::Deactivating(o), Event::Delivered) => (
            RunController { phase: Phase::Finished, ..c },
            Action::Finish(o),
        ),
        (Phase::Deactivating(o), Event::Undelivered(m)) => (
            RunController { phase: Phase::Finished, ..c },
            Action::Finish(
                match o {
                    Ok(_) => Err(RunError::Channel(m)),
                    Err(e) => Err(e),
                },
            ),
        ),
        _ => (c, Action::Idle),
    }
}

impl RunController {
    /// A controller for running `command` in `cwd`. The command string is
    /// split on white space; the invocation is `None` when it holds no word.
    pub fn new(
        command: &str,
        cwd: Option<String>,
        session: bool,
        has_status: bool,
        has_done: bool,
    ) -> (r: RunController)
        ensures
            r.invocation is None <==> words(command@).len() == 0,
            r.invocation matches Some(inv) ==> {
                &&& inv.program@ == words(command@)[0]
                &&& crate::invocation::strings_view(inv.args@) == words(command@).drop_first()
                &&& inv.cwd == cwd
            },
            r.session == session,
            r.has_status == has_status,
            r.has_done == has_done,
            r.phase is Ready,
    {
        let invocation = match Invocation::parse(command, cwd) {
            Ok(inv) => Some(inv),
            Err(_) => None,
        };
        RunController::with_invocation(invocation, session, has_status, has_done)
    }

    /// A controller for running an invocation parsed earlier; `None` stands
    /// for a command string that held no word.
    pub fn with_invocation(
        invocation: Option<Invocation>,
        session: bool,
        has_status: bool,
        has_done: bool,
    ) -> (r: RunController)
        ensures
            r == (RunController { invocation, session, has_status, has_done, phase: Phase::Ready }),
    {
        RunController { invocation, session, has_status, has_done, phase: Phase::Ready }
    }

    /// Takes one event and returns the next controller and the action to
    /// perform (see `next`).
    pub fn step(self, e: Event) -> (r: (RunController, Action))
        ensures
            r == next(self, e),
    {
        let RunController { invocation, session, has_status, has_done, phase } = self;
        match (phase, e) {
            (Phase::Ready, Event::Begin) => {
                if invocation.is_none() {
                    (
                        RunController { invocation, session, has_status, has_done, phase: Phase::Finished },
                        Action::Finish(Err(RunError::InvalidCommand)),
                    )
                } else if !session {
                    (
                        RunController { invocation, session, has_status, has_done, phase: Phase::Running },
                        Action::Execute,
                    )
                } else if has_status {
                    (
                        RunController { invocation, session, has_status, has_done, phase: Phase::Announcing },
                        Action::SendStatus,
                    )
                } else if has_done {
                    (
                        RunController { invocation, session, has_status, has_done, phase: Phase::Registering },
                        Action::SendDone,
                    )
                } else {
                    (
                        RunController { invocation, session, has_status, has_done, phase: Phase::Activating },
                        Action::Activate,
                    )
                }
            },
            (Phase::Announcing, Event::Delivered) => {
                if has_done {
                    (
                        RunController { invocation, session, has_status, has_done, phase: Phase::Registering },
                        Action::SendDone,
                    )
                } else {
                    (
                        RunController { invocation, session, has_status, has_done, phase: Phase::Activating },
                        Action::Activate,
                    )
                }
            },
            (Phase::Registering, Event::Delivered) => (
                RunController { invocation, session, has_status, has_done, phase: Phase::Activating },
                Action::Activate,
            ),
            (Phase::Announcing, Event::Undelivered(m)) => (
                RunController { invocation, session, has_status, has_done, phase: Phase::Finished },
                Action::Finish(Err(RunError::Channel(m))),
            ),
            (Phase::Registering, Event::Undelivered(m)) => (
                RunController { invocation, session, has_status, has_done, phase: Phase::Finished },
                Action::Finish(Err(RunError::Channel(m))),
            ),
            (Phase::Activating, Event::Delivered) => (
                RunController { invocation, session, has_status, has_done, phase: Phase::Running },
                Action::Execute,
            ),
            (Phase::Activating, Event::Undelivered(m)) => (
                RunController { invocation, session, has_status, has_done, phase: Phase::Finished },
                Action::Finish(Err(RunError::Channel(m))),
            ),
            (Phase::Running, Event::Ran(o)) => {
                if session {
                    (
                        RunController { invocation, session, has_status, has_done, phase: Phase::Deactivating(o) },
                        Action::Deactivate,
                    )
                } else {
                    (
                        RunController { invocation, session, has_status, has_done, phase: Phase::Finished },
                        Action::Finish(o),
                    )
                }
            },
            (Phase::Deactivating(o), Event::Delivered) => (
                RunController { invocation, session, has_status, has_done, phase: Phase::Finished },
                Action::Finish(o),
            ),
            (Phase::Deactivating(o), Event::Undelivered(m)) => {
                let verdict = match o {
                    Ok(_) => Err(RunError::Channel(m)),
                    Err(e) => Err(e),
                };
                (
                    RunController { invocation, session, has_status, has_done, phase: Phase::Finished },
                    Action::Finish(verdict),
                )
            },
            (phase, _) => (
                RunController { invocation, session, has_status, has_done, phase },
                Action::Idle,
            ),
        }
    }
}

/// The controller and the actions that come of feeding it `evs` in order.
pub open spec fn replay(c: RunController, evs: Seq<Event>) -> (RunController, Seq<Action>)
    decreases evs.len(),
{
    if evs.len() == 0 {
        (c, seq![])
    } else {
        let (before, acts) = replay(c, evs.drop_last());
        let (after, a) = next(before, evs.last());
        (after, acts.push(a))
    }
}

/// How many of `acts` are `a`.
pub open spec fn count(acts: Seq<Action>, a: Action) -> nat
    decreases acts.len(),
{
    if acts.len() == 0 {
        0
    } else {
        count(acts.drop_last(), a) + if acts.last() == a {
            1nat
        } else {
            0nat
        }
    }
}

/// How far the protocol has come after `acts`, phase by phase.
pub open spec fn signals_balanced(c: RunController, acts: Seq<Action>) -> bool {
    let on = count(acts, Action::Activate);
    let off = count(acts, Action::Deactivate);
    let ran = count(acts, Action::Execute);
    &&& !c.session ==> on == 0
    &&& ran > 0 ==> on == (if c.session {
        1nat
    } else {
        0nat
    })
    &&& match c.phase {
        Phase::Ready => on == 0 && off == 0 && ran == 0,
        Phase::Announcing => c.session && on == 0 && off == 0 && ran == 0,
        Phase::Registering => c.session && on == 0 && off == 0 && ran == 0,
        Phase::Activating => c.session && on == 1 && off == 0 && ran == 0,
        Phase::Running => off == 0 && ran == 1,
        Phase::Deactivating(_) => c.session && on == 1 && off == 1 && ran == 1,
        Phase::Finished => off <= on <= 1 && ran <= 1 && (ran > 0 ==> off == on),
    }
}

proof fn lemma_signals_balanced(c: RunController, evs: Seq<Event>)
    requires
        c.phase is Ready,
    ensures
        signals_balanced(replay(c, evs).0, replay(c, evs).1),
        replay(c, evs).0.session == c.session,
        replay(c, evs).0.invocation == c.invocation,
    decreases evs.len(),
{
    if evs.len() > 0 {
        lemma_signals_balanced(c, evs.drop_last());
        let (before, acts) = replay(c, evs.drop_last());
        let (after, a) = next(before, evs.last());
        assert(acts.push(a).drop_last() =~= acts);
        assert(count(acts.push(a), Action::Activate) == count(acts, Action::Activate) + if a
            == Action::Activate {
            1nat
        } else {
            0nat
        });
        assert(count(acts.push(a), Action::Deactivate) == count(acts, Action::Deactivate) + if a
            == Action::Deactivate {
            1nat
        } else {
            0nat
        });
        assert(count(acts.push(a), Action::Execute) == count(acts, Action::Execute) + if a
            == Action::Execute {
            1nat
        } else {
            0nat
        });
    }
}

/// An activation that the session accepted is followed by exactly one
/// deactivation, whatever the events: at every point of a run there have
/// been at most one activation and no more deactivations than activations;
/// with a session, the command is executed only after an activation that
/// was accepted; and a finished run whose command was executed has
/// deactivated as often as it activated. This holds when the command fails
/// or exits with a non-zero status, and when the deactivation itself fails.
/// An activation that fails is not followed by a deactivation (see
/// `lemma_failed_signal_ends_run`).
pub proof fn lemma_activation_paired(c: RunController, evs: Seq<Event>)
    requires
        c.phase is Ready,
    ensures
        ({
            let (end, acts) = replay(c, evs);
            &&& count(acts, Action::Activate) <= 1
            &&& count(acts, Action::Deactivate) <= count(acts, Action::Activate)
            &&& c.session && count(acts, Action::Execute) > 0 ==> count(acts, Action::Activate)
                == 1
            &&& end.phase is Finished && count(acts, Action::Execute) > 0 ==> count(
                acts,
                Action::Deactivate,
            ) == count(acts, Action::Activate)
            &&& !c.session ==> count(acts, Action::Activate) == 0
        }),
{
    lemma_signals_balanced(c, evs);
}

/// A failed call on the progress session before the command runs (the
/// status message, the done message or the activation) ends the run at once
/// with a channel error: no process is spawned and the session is not
/// called again.
pub proof fn lemma_failed_signal_ends_run(c: RunController, m: String, e: Event)
    requires
        c.phase is Announcing || c.phase is Registering || c.phase is Activating,
    ensures
        next(c, Event::Undelivered(m)).0.phase is Finished,
        next(c, Event::Undelivered(m)).1 == Action::Finish(Err(RunError::Channel(m))),
        next(next(c, Event::Undelivered(m)).0, e).1 is Idle,
{
}

/// Once a run is deactivating, the next answer of the session, whatever it
/// is, finishes the run.
pub proof fn lemma_deactivation_finishes(c: RunController, e: Event)
    requires
        c.phase is Deactivating,
        e is Delivered || e is Undelivered,
    ensures
        next(c, e).0.phase is Finished,
        next(c, e).1 is Finish,
{
}

proof fn lemma_invalid_stays(c: RunController, evs: Seq<Event>)
    requires
        c.phase is Ready,
        c.invocation is None,
    ensures
        replay(c, evs).0.phase is Ready || replay(c, evs).0.phase is Finished,
        replay(c, evs).0.invocation is None,
        forall|i: int|
            0 <= i < replay(c, evs).1.len() ==> {
                ||| replay(c, evs).1[i] is Idle
                ||| replay(c, evs).1[i] == Action::Finish(Err(RunError::InvalidCommand))
            },
    decreases evs.len(),
{
    if evs.len() > 0 {
        lemma_invalid_stays(c, evs.drop_last());
    }
}

/// A command string without a word fails with `InvalidCommand` as soon as
/// the run begins: no process is spawned and the progress session is not
/// signalled, whatever events follow.
pub proof fn lemma_invalid_command_spawns_nothing(c: RunController, evs: Seq<Event>)
    requires
        c.phase is Ready,
        c.invocation is None,
    ensures
        ({
            let acts = replay(c, evs).1;
            &&& forall|i: int|
                0 <= i < acts.len() ==> !(acts[i] is Execute) && !(acts[i] is SendStatus) && !(
                acts[i] is SendDone) && !(acts[i] is Activate) && !(acts[i] is Deactivate)
            &&& evs.len() > 0 && evs[0] is Begin ==> acts[0] == Action::Finish(
                Err(RunError::InvalidCommand),
            )
        }),
{
    lemma_invalid_stays(c, evs);
    if evs.len() > 0 {
        lemma_first_action(c, evs);
    }
}

proof fn lemma_first_action(c: RunController, evs: Seq<Event>)
    requires
        evs.len() > 0,
    ensures
        replay(c, evs).1.len() == evs.len(),
        replay(c, evs).1[0] == next(c, evs[0]).1,
    decreases evs.len(),
{
    let (before, acts) = replay(c, evs.drop_last());
    if evs.len() > 1 {
        lemma_first_action(c, evs.drop_last());
        assert(evs.drop_last()[0] == evs[0]);
        assert(acts.push(next(before, evs.last()).1)[0] == acts[0]);
    } else {
        assert(evs.drop_last().len() == 0);
        assert(before == c);
        assert(acts.len() == 0);
    }
}

/// The outcome of the command reaches the caller as it came: a run that
/// exits with a non-zero status is deactivated and finished with that
/// result, not with an error.
pub proof fn lemma_outcome_passes_through(
    c: RunController,
    o: Result<ExecutionResult, RunError>,
)
    requires
        c.phase is Running,
    ensures
        c.session ==> next(c, Event::Ran(o)).1 is Deactivate,
        c.session ==> next(next(c, Event::Ran(o)).0, Event::Delivered).1 == Action::Finish(o),
        !c.session ==> next(c, Event::Ran(o)).1 == Action::Finish(o),
{
}

} // verus!
