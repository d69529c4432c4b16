//! The decisions of the forwarding task.
//!
//! The task itself waits on the queue and on the peer, which is not done
//! here. After each wait it asks `step` what to do with what the queue gave.
use crate::record::LogRecord;
use vstd::prelude::*;

verus! {

/// Where the forwarding task stands.
#[derive(Clone, Copy, Debug, PartialEq, Eq, Structural)]
pub enum Phase {
    /// Producers exist; the task waits for the next record or for closure.
    Running,
    /// Every producer is gone; records that were queued are still delivered.
    Draining,
    /// The queue is closed and empty; the task is over.
    Terminated,
}

/// What the forwarding task does next.
#[derive(Debug, PartialEq, Eq)]
pub enum Action {
    /// Send this record to the peer, wait until that is done, then receive
    /// again.
    Notify(LogRecord),
    /// Leave the loop.
    Stop,
}

impl Phase {
    /// Position of the phase in the task's life.
    pub open spec fn rank(self) -> nat {
        match self {
            Phase::Running => 0,
            Phase::Draining => 1,
            Phase::Terminated => 2,
        }
    }
}

/// The task's rule. `received` is what the queue gave: a record, or nothing
/// once it is closed and empty. `producers_gone` says whether the queue was
/// seen closed. A record is passed on unchanged, exactly once; nothing ends
/// the task but the queue running dry after closure; a task that is over
/// stays so.
pub open spec fn spec_step(phase: Phase, received: Option<LogRecord>, producers_gone: bool) -> (
    Phase,
    Action,
) {
    match (phase, received) {
        (Phase::Terminated, _) => (Phase::Terminated, Action::Stop),
        (_, None) => (Phase::Terminated, Action::Stop),
        (Phase::Draining, Some(record)) => (Phase::Draining, Action::Notify(record)),
        (Phase::Running, Some(record)) => (
            if producers_gone {
                Phase::Draining
            } else {
                Phase::Running
            },
            Action::Notify(record),
        ),
    }
}

/// Decides what the task does with what the queue gave, and where it stands
/// afterwards.
pub fn step(phase: Phase, received: Option<LogRecord>, producers_gone: bool) -> (next: (
    Phase,
    Action,
))
    ensures
        next == spec_step(phase, received, producers_gone),
{
    match phase {
        Phase::Terminated => (Phase::Terminated, Action::Stop),
        Phase::Draining => match received {
            Some(record) => (Phase::Draining, Action::Notify(record)),
            None => (Phase::Terminated, Action::Stop),
        },
        Phase::Running => match received {
            Some(record) => {
                let phase = if producers_gone {
                    Phase::Draining
                } else {
                    Phase::Running
                };
                (phase, Action::Notify(record))
            },
            None => (Phase::Terminated, Action::Stop),
        },
    }
}

/// What the queue gave at one wait, and whether it was seen closed then.
pub type Poll = (Option<LogRecord>, bool);

/// The phase the task is in after the given polls.
pub open spec fn phase_after(phase: Phase, polls: Seq<Poll>) -> Phase
    decreases polls.len(),
{
    if polls.len() == 0 {
        phase
    } else {
        phase_after(spec_step(phase, polls[0].0, polls[0].1).0, polls.drop_first())
    }
}

/// The records the task sends to the peer over the given polls, in the order
/// in which it sends them.
pub open spec fn forwarded(phase: Phase, polls: Seq<Poll>) -> Seq<LogRecord>
    decreases polls.len(),
{
    if polls.len() == 0 {
        Seq::empty()
    } else {
        let (next, action) = spec_step(phase, polls[0].0, polls[0].1);
        let rest = forwarded(next, polls.drop_first());
        match action {
            Action::Notify(record) => seq![record] + rest,
            Action::Stop => rest,
        }
    }
}

/// The number of polls before the first one that gave nothing.
pub open spec fn polls_before_closure(polls: Seq<Poll>) -> nat
    decreases polls.len(),
{
    if polls.len() == 0 || polls[0].0 is None {
        0
    } else {
        1 + polls_before_closure(polls.drop_first())
    }
}

/// The task never goes back: a step leaves it in the same phase or a later
/// one.
pub proof fn step_never_goes_back(phase: Phase, received: Option<LogRecord>, producers_gone: bool)
    ensures
        phase.rank() <= spec_step(phase, received, producers_gone).0.rank(),
{
}

/// A record that the queue gave is sent to the peer, as it is, unless the
/// task is over; nothing else ever is.
pub proof fn step_notifies_what_was_received(
    phase: Phase,
    received: Option<LogRecord>,
    producers_gone: bool,
)
    ensures
        spec_step(phase, received, producers_gone).1 is Notify <==> phase != Phase::Terminated
            && received is Some,
        spec_step(phase, received, producers_gone).1 matches Action::Notify(record)
            ==> received == Some(record),
{
}

/// Closure: once the queue gives nothing the task is over, whatever phase it
/// was in, and it sends nothing more.
pub proof fn closure_terminates(phase: Phase, producers_gone: bool, later: Seq<Poll>)
    ensures
        spec_step(phase, None, producers_gone) == (Phase::Terminated, Action::Stop),
        forwarded(Phase::Terminated, later) == Seq::<LogRecord>::empty(),
        phase_after(Phase::Terminated, later) == Phase::Terminated,
    decreases later.len(),
{
    if later.len() > 0 {
        closure_terminates(Phase::Terminated, later[0].1, later.drop_first());
    }
}

/// Ordering: a task that is not over sends exactly the records that the
/// queue gave before it first gave nothing, each once and in the order in
/// which the queue gave them.
pub proof fn forwarding_keeps_order(phase: Phase, polls: Seq<Poll>)
    requires
        phase != Phase::Terminated,
    ensures
        forwarded(phase, polls).len() == polls_before_closure(polls),
        polls_before_closure(polls) <= polls.len(),
        forall|i: int|
            0 <= i < polls_before_closure(polls) ==> polls[i].0 == Some(
                #[trigger] forwarded(phase, polls)[i],
            ),
    decreases polls.len(),
{
    if polls.len() == 0 {
    } else if polls[0].0 is None {
        closure_terminates(phase, polls[0].1, polls.drop_first());
    } else {
        let (next, action) = spec_step(phase, polls[0].0, polls[0].1);
        let rest = polls.drop_first();
        forwarding_keeps_order(next, rest);
        let sent = forwarded(phase, polls);
        assert(sent == seq![polls[0].0->0] + forwarded(next, rest));
        assert forall|i: int| 0 <= i < polls_before_closure(polls) implies polls[i].0 == Some(
            #[trigger] sent[i],
        ) by {
            if i > 0 {
                assert(sent[i] == forwarded(next, rest)[i - 1]);
                assert(rest[i - 1] == polls[i]);
            }
        }
    }
}

/// The task is over after the polls exactly if it was over before or one of
/// the polls gave nothing.
pub proof fn terminated_only_by_closure(phase: Phase, polls: Seq<Poll>)
    ensures
        phase_after(phase, polls) == Phase::Terminated <==> phase == Phase::Terminated
            || polls_before_closure(polls) < polls.len(),
    decreases polls.len(),
{
    if polls.len() == 0 {
    } else if phase == Phase::Terminated || polls[0].0 is None {
        closure_terminates(phase, polls[0].1, polls.drop_first());
    } else {
        terminated_only_by_closure(spec_step(phase, polls[0].0, polls[0].1).0, polls.drop_first());
    }
}

} // verus!
