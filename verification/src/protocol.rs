//! The life cycle of a mailbox task as a state machine: its two phases, the
//! two shutdown policies, and the decision taken on each thing the task can
//! observe on its channels.
//!
//! Everything here is a total function on plain values. The task itself
//! (see [`crate::actor`]) only feeds these functions with what its channels
//! report and acts on the answer.

use core::task::Poll;
use vstd::prelude::*;

verus! {

/// The phase of a mailbox task. `Terminated` is final: no step leaves it.
#[derive(Clone, Copy, Debug, PartialEq, Eq, Structural)]
pub enum Phase {
    /// The task owns its receivers and its state and processes messages.
    Running,
    /// The task has stopped; its receivers and its state are about to be
    /// dropped or already are.
    Terminated,
}

/// What makes a running mailbox task stop.
#[derive(Clone, Copy, Debug, PartialEq, Eq, Structural)]
pub enum ShutdownPolicy {
    /// The task stops as soon as the keep-alive channel is closed, that is
    /// when the last strong handle is gone. Messages still buffered in the
    /// mailbox are not processed. Weak handles do not keep the task running.
    KeepAlive,
    /// The task never looks at the keep-alive channel and stops when the
    /// mailbox is closed and drained, that is when every handle, strong or
    /// weak, is gone and every buffered message has been processed.
    MailboxClosed,
}

/// What the keep-alive channel reports when it is polled.
#[derive(Clone, Copy, Debug, PartialEq, Eq, Structural)]
pub enum Liveness {
    /// At least one strong handle exists.
    Held,
    /// Every strong handle has been dropped.
    Released,
    /// A payload arrived on the keep-alive channel, which never carries one.
    Violated,
}

/// One decision of a mailbox task that is ready to act.
#[derive(Debug, PartialEq, Eq)]
pub enum Step<M> {
    /// Hand this message to the state and go on.
    Deliver(M),
    /// Terminate in good order.
    Stop,
    /// Terminate because the keep-alive channel carried a payload.
    Abort,
}

/// The fatal error of a mailbox task whose keep-alive channel carried a
/// payload.
#[derive(Clone, Copy, Debug, PartialEq, Eq, Structural)]
pub struct ProtocolViolation;

/// Reading of one poll of the keep-alive channel.
pub open spec fn liveness_of(signal: Poll<Option<()>>) -> Liveness {
    match signal {
        Poll::Pending => Liveness::Held,
        Poll::Ready(None) => Liveness::Released,
        Poll::Ready(Some(_)) => Liveness::Violated,
    }
}

/// Reading of one poll of the mailbox: a message is delivered; a mailbox
/// that is closed and drained stops the task under
/// [`ShutdownPolicy::MailboxClosed`] and leaves it waiting for the keep-alive
/// channel under [`ShutdownPolicy::KeepAlive`]; an empty open mailbox leaves
/// it waiting.
pub open spec fn mailbox_step_of<M>(policy: ShutdownPolicy, polled: Poll<Option<M>>) -> Poll<
    Step<M>,
> {
    match polled {
        Poll::Ready(Some(msg)) => Poll::Ready(Step::Deliver(msg)),
        Poll::Ready(None) => match policy {
            ShutdownPolicy::KeepAlive => Poll::Pending,
            ShutdownPolicy::MailboxClosed => Poll::Ready(Step::Stop),
        },
        Poll::Pending => Poll::Pending,
    }
}

/// The phase in which a task is after it has decided `step`.
pub open spec fn phase_after_of<M>(step: Poll<Step<M>>) -> Phase {
    match step {
        Poll::Ready(Step::Stop) | Poll::Ready(Step::Abort) => Phase::Terminated,
        _ => Phase::Running,
    }
}

/// One transition of the mailbox task: from its policy, its phase and what
/// its two channels report, to its next phase and its decision.
///
/// - A terminated task stays terminated and decides `Stop`, whatever the
///   channels report.
/// - Under [`ShutdownPolicy::KeepAlive`] the keep-alive channel is read first:
///   once it is released the task stops, and a payload on it aborts the task;
///   in both cases the mailbox plays no part.
/// - Otherwise the mailbox decides, as [`mailbox_step_of`] says.
pub open spec fn transition<M>(
    policy: ShutdownPolicy,
    phase: Phase,
    keep_alive: Poll<Option<()>>,
    mailbox: Poll<Option<M>>,
) -> (Phase, Poll<Step<M>>) {
    if phase == Phase::Terminated {
        (Phase::Terminated, Poll::Ready(Step::Stop))
    } else if policy == ShutdownPolicy::KeepAlive && liveness_of(keep_alive) == Liveness::Released {
        (Phase::Terminated, Poll::Ready(Step::Stop))
    } else if policy == ShutdownPolicy::KeepAlive && liveness_of(keep_alive) == Liveness::Violated {
        (Phase::Terminated, Poll::Ready(Step::Abort))
    } else {
        let step = mailbox_step_of(policy, mailbox);
        (phase_after_of(step), step)
    }
}

/// What a finished or unfinished run of the task reports to whoever drives
/// it: nothing yet while it runs, success after `Stop`, the violation after
/// `Abort`.
pub open spec fn outcome_of<M>(step: Poll<Step<M>>) -> Poll<Result<(), ProtocolViolation>> {
    match step {
        Poll::Ready(Step::Stop) => Poll::Ready(Ok(())),
        Poll::Ready(Step::Abort) => Poll::Ready(Err(ProtocolViolation)),
        _ => Poll::Pending,
    }
}

/// How a run of the task ends on a transition: in the phase the transition
/// leads to, and with the [`outcome_of`] its decision.
pub open spec fn last_step<M>(last: (Phase, Poll<Step<M>>)) -> (
    Phase,
    Poll<Result<(), ProtocolViolation>>,
) {
    (last.0, outcome_of(last.1))
}

/// Reads one poll of the keep-alive channel.
pub fn liveness(signal: Poll<Option<()>>) -> (r: Liveness)
    ensures
        r == liveness_of(signal),
{
    match signal {
        Poll::Pending => Liveness::Held,
        Poll::Ready(None) => Liveness::Released,
        Poll::Ready(Some(_)) => Liveness::Violated,
    }
}

/// Decides on one poll of the mailbox.
pub fn mailbox_step<M>(policy: ShutdownPolicy, polled: Poll<Option<M>>) -> (r: Poll<Step<M>>)
    ensures
        r == mailbox_step_of(policy, polled),
{
    match polled {
        Poll::Ready(Some(msg)) => Poll::Ready(Step::Deliver(msg)),
        Poll::Ready(None) => match policy {
            ShutdownPolicy::KeepAlive => Poll::Pending,
            ShutdownPolicy::MailboxClosed => Poll::Ready(Step::Stop),
        },
        Poll::Pending => Poll::Pending,
    }
}

/// The phase in which a task is after it has decided `step`.
pub fn phase_after<M>(step: &Poll<Step<M>>) -> (r: Phase)
    ensures
        r == phase_after_of(*step),
{
    match step {
        Poll::Ready(Step::Stop) => Phase::Terminated,
        Poll::Ready(Step::Abort) => Phase::Terminated,
        _ => Phase::Running,
    }
}

impl ProtocolViolation {
    /// The text of the error.
    pub fn message(&self) -> (r: &'static str)
        ensures
            r@ == "Actor keep alive channel should never receive a message"@,
    {
        "Actor keep alive channel should never receive a message"
    }
}

/// A terminated task never runs again, and never delivers or aborts.
pub proof fn lemma_terminated_is_final<M>(
    policy: ShutdownPolicy,
    keep_alive: Poll<Option<()>>,
    mailbox: Poll<Option<M>>,
)
    ensures
        transition(policy, Phase::Terminated, keep_alive, mailbox) == (
            Phase::Terminated,
            Poll::<Step<M>>::Ready(Step::Stop),
        ),
{
}

/// The next phase of a transition is the one that its decision announces: a
/// running task terminates exactly when it decides `Stop` or `Abort`.
pub proof fn lemma_phase_follows_step<M>(
    policy: ShutdownPolicy,
    phase: Phase,
    keep_alive: Poll<Option<()>>,
    mailbox: Poll<Option<M>>,
)
    ensures
        transition(policy, phase, keep_alive, mailbox).0 == phase_after_of(
            transition(policy, phase, keep_alive, mailbox).1,
        ),
{
}

/// Under the keep-alive policy a running task whose keep-alive channel is
/// released terminates in this one transition, whatever the mailbox holds
/// and however many weak handles keep it open, and it delivers nothing.
pub proof fn lemma_release_stops_at_once<M>(mailbox: Poll<Option<M>>)
    ensures
        transition(ShutdownPolicy::KeepAlive, Phase::Running, Poll::Ready(None), mailbox) == (
            Phase::Terminated,
            Poll::<Step<M>>::Ready(Step::Stop),
        ),
{
}

/// While a strong handle is held, a running task under the keep-alive policy
/// never terminates: it delivers what the mailbox yields and waits otherwise,
/// also when the mailbox reports itself closed.
pub proof fn lemma_held_keeps_running<M>(mailbox: Poll<Option<M>>)
    ensures
        transition(ShutdownPolicy::KeepAlive, Phase::Running, Poll::Pending, mailbox).0
            == Phase::Running,
        mailbox matches Poll::Ready(Some(msg)) ==> transition(
            ShutdownPolicy::KeepAlive,
            Phase::Running,
            Poll::Pending,
            mailbox,
        ).1 == Poll::Ready(Step::Deliver(msg)),
        !(mailbox matches Poll::Ready(Some(_))) ==> transition(
            ShutdownPolicy::KeepAlive,
            Phase::Running,
            Poll::Pending,
            mailbox,
        ).1 == Poll::<Step<M>>::Pending,
{
}

/// A task aborts only under the keep-alive policy, only while running, and
/// only when the keep-alive channel carried a payload.
pub proof fn lemma_abort_only_on_violation<M>(
    policy: ShutdownPolicy,
    phase: Phase,
    keep_alive: Poll<Option<()>>,
    mailbox: Poll<Option<M>>,
)
    ensures
        transition(policy, phase, keep_alive, mailbox).1 == Poll::<Step<M>>::Ready(Step::Abort)
            <==> (phase == Phase::Running && policy == ShutdownPolicy::KeepAlive && liveness_of(
            keep_alive,
        ) == Liveness::Violated),
{
}

/// Under the mailbox-closed policy the keep-alive channel plays no part, and
/// a running task stops exactly when the mailbox is closed and drained.
pub proof fn lemma_mailbox_policy_ignores_keep_alive<M>(
    phase: Phase,
    first: Poll<Option<()>>,
    second: Poll<Option<()>>,
    mailbox: Poll<Option<M>>,
)
    ensures
        transition(ShutdownPolicy::MailboxClosed, phase, first, mailbox) == transition(
            ShutdownPolicy::MailboxClosed,
            phase,
            second,
            mailbox,
        ),
        transition(ShutdownPolicy::MailboxClosed, Phase::Running, first, mailbox).0
            == Phase::Terminated <==> mailbox == Poll::<Option<M>>::Ready(None),
{
}

} // verus!
