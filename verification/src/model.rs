//! A model of one actor and its handles, and what follows from it.
//!
//! The model is ghost: it is never run. It writes down, as plain values, the
//! things that in the running library live inside the channels: how many
//! handles of each kind exist, which messages are buffered, which have been
//! handled. Its moves are the operations of the handles and the step of the
//! mailbox task. The task's move is [`crate::protocol::transition`], the
//! very function that [`crate::actor::Actor::poll_step`] is specified by,
//! applied to what the model says the channels report. An enqueue is read as
//! [`crate::handle::rejection_of`] reads an immediate send.
//!
//! What the channels report is the part taken on trust: a bounded channel
//! hands out messages in the order in which it accepted them, reports itself
//! closed to the receiver once every sender is gone and the buffer is empty,
//! and reports itself closed to the senders once the receiver is gone.

use crate::actor::{Actor, Round};
use crate::handle::{rejection_of, Rejected};
use crate::protocol::{transition, Phase, ShutdownPolicy, Step};
use crate::state::ActorState;
use core::task::Poll;
use tokio::sync::mpsc::error::TrySendError;
use vstd::prelude::*;

verus! {

/// One actor as a whole: the task, its mailbox, and the handles to it.
pub struct System<M> {
    /// What makes the task stop.
    pub policy: ShutdownPolicy,
    /// How many messages the mailbox buffers at most.
    pub capacity: nat,
    /// Whether the task still runs.
    pub phase: Phase,
    /// How many strong handles exist.
    pub strong: nat,
    /// How many weak handles exist.
    pub weak: nat,
    /// The messages in the mailbox, oldest first.
    pub buffered: Seq<M>,
    /// The messages the state has handled, in the order it handled them.
    pub handled: Seq<M>,
    /// Every message the mailbox has ever accepted, in the order of
    /// acceptance.
    pub accepted: Seq<M>,
}

/// One thing that can happen to an actor.
pub enum Move<M> {
    /// A strong handle is cloned.
    CloneStrong,
    /// A strong handle is downgraded: one more weak handle.
    Downgrade,
    /// A weak handle is cloned.
    CloneWeak,
    /// A strong handle is dropped.
    DropStrong,
    /// A weak handle is dropped.
    DropWeak,
    /// Some handle, strong or weak, tries to place this message in the
    /// mailbox. A send that suspends is a run of such attempts.
    Enqueue(M),
    /// The mailbox task looks at its channels and takes one step.
    Poll,
}

/// The actor right after construction: running, one strong handle, nothing
/// sent yet.
pub open spec fn init<M>(policy: ShutdownPolicy, capacity: nat) -> System<M> {
    System {
        policy,
        capacity,
        phase: Phase::Running,
        strong: 1,
        weak: 0,
        buffered: Seq::empty(),
        handled: Seq::empty(),
        accepted: Seq::empty(),
    }
}

/// What the keep-alive channel reports to the task: closed once no strong
/// handle is left, nothing otherwise, and never a payload.
pub open spec fn keep_alive_report<M>(s: System<M>) -> Poll<Option<()>> {
    if s.strong == 0 {
        Poll::Ready(None)
    } else {
        Poll::Pending
    }
}

/// What the mailbox reports to the task: its oldest message if it has one;
/// closed if it is empty and no handle of either kind is left; nothing
/// otherwise.
pub open spec fn mailbox_report<M>(s: System<M>) -> Poll<Option<M>> {
    if s.buffered.len() > 0 {
        Poll::Ready(Some(s.buffered.first()))
    } else if s.strong + s.weak == 0 {
        Poll::Ready(None)
    } else {
        Poll::Pending
    }
}

/// What the mailbox reports to a handle that tries to send `msg`: closed
/// once the task has terminated, full while it holds as many messages as it
/// has room for, accepted otherwise.
pub open spec fn send_report<M>(s: System<M>, msg: M) -> Result<(), TrySendError<M>> {
    if s.phase == Phase::Terminated {
        Err(TrySendError::Closed(msg))
    } else if s.buffered.len() >= s.capacity {
        Err(TrySendError::Full(msg))
    } else {
        Ok(())
    }
}

/// Whether a move can happen: a handle has to exist to be cloned, dropped,
/// downgraded or sent on.
pub open spec fn enabled<M>(s: System<M>, mv: Move<M>) -> bool {
    match mv {
        Move::CloneStrong | Move::Downgrade | Move::DropStrong => s.strong > 0,
        Move::CloneWeak | Move::DropWeak => s.weak > 0,
        Move::Enqueue(_) => s.strong + s.weak > 0,
        Move::Poll => true,
    }
}

/// What an enqueue returns to its caller.
pub open spec fn enqueue_result<M>(s: System<M>, msg: M) -> Result<(), Rejected<M>> {
    rejection_of(send_report(s, msg))
}

/// The decision of the task when it is polled in `s`.
pub open spec fn task_step<M>(s: System<M>) -> Poll<Step<M>> {
    transition(s.policy, s.phase, keep_alive_report(s), mailbox_report(s)).1
}

/// The actor after a move. A move that cannot happen changes nothing.
pub open spec fn next<M>(s: System<M>, mv: Move<M>) -> System<M> {
    if !enabled(s, mv) {
        s
    } else {
        match mv {
            Move::CloneStrong => System { strong: s.strong + 1, ..s },
            Move::Downgrade | Move::CloneWeak => System { weak: s.weak + 1, ..s },
            Move::DropStrong => System { strong: (s.strong - 1) as nat, ..s },
            Move::DropWeak => System { weak: (s.weak - 1) as nat, ..s },
            Move::Enqueue(msg) => if enqueue_result(s, msg) is Ok {
                System { buffered: s.buffered.push(msg), accepted: s.accepted.push(msg), ..s }
            } else {
                s
            },
            Move::Poll => {
                let (phase, step) = transition(
                    s.policy,
                    s.phase,
                    keep_alive_report(s),
                    mailbox_report(s),
                );
                match step {
                    Poll::Ready(Step::Deliver(msg)) => System {
                        phase,
                        buffered: s.buffered.drop_first(),
                        handled: s.handled.push(msg),
                        ..s
                    },
                    _ => System { phase, ..s },
                }
            },
        }
    }
}

/// The actor after a sequence of moves, first move first.
pub open spec fn run<M>(s: System<M>, moves: Seq<Move<M>>) -> System<M>
    decreases moves.len(),
{
    if moves.len() == 0 {
        s
    } else {
        next(run(s, moves.drop_last()), moves.last())
    }
}

/// What holds of an actor at all times: the mailbox has room for at least
/// one message and never holds more than it has room for, and the messages
/// ever accepted are exactly those already handled followed by those still
/// buffered, in that order.
pub open spec fn consistent<M>(s: System<M>) -> bool {
    &&& 0 < s.capacity
    &&& s.buffered.len() <= s.capacity
    &&& s.accepted == s.handled + s.buffered
}

/// A freshly constructed actor is consistent.
pub proof fn lemma_init_consistent<M>(policy: ShutdownPolicy, capacity: nat)
    requires
        0 < capacity,
    ensures
        consistent(init::<M>(policy, capacity)),
{
}

/// Every move keeps an actor consistent, leaves its policy and its capacity
/// alone, and only ever extends what was accepted and what was handled.
pub proof fn lemma_next_consistent<M>(s: System<M>, mv: Move<M>)
    requires
        consistent(s),
    ensures
        consistent(next(s, mv)),
        next(s, mv).policy == s.policy,
        next(s, mv).capacity == s.capacity,
        s.accepted.is_prefix_of(next(s, mv).accepted),
        s.handled.is_prefix_of(next(s, mv).handled),
{
    let t = next(s, mv);
    if enabled(s, mv) {
        match mv {
            Move::Enqueue(msg) => {
                if enqueue_result(s, msg) is Ok {
                    assert(t.accepted =~= t.handled + t.buffered);
                }
            },
            Move::Poll => {
                if let Poll::Ready(Step::Deliver(msg)) = task_step(s) {
                    assert(msg == s.buffered.first());
                    assert(t.accepted =~= t.handled + t.buffered);
                }
            },
            _ => {},
        }
    }
}

/// Messages are handled in the order in which the mailbox accepted them,
/// each at most once and none skipped: after any moves whatever, by any
/// number of handles, what the state has handled is a prefix of what was
/// accepted, and the rest is what is still buffered. Both histories only
/// grow. In particular the messages of one caller, who sends one after the
/// other, are handled in the order of the calls.
pub proof fn lemma_fifo<M>(s: System<M>, moves: Seq<Move<M>>)
    requires
        consistent(s),
    ensures
        consistent(run(s, moves)),
        run(s, moves).handled.is_prefix_of(run(s, moves).accepted),
        run(s, moves).accepted == run(s, moves).handled + run(s, moves).buffered,
        s.accepted.is_prefix_of(run(s, moves).accepted),
        s.handled.is_prefix_of(run(s, moves).handled),
        run(s, moves).policy == s.policy,
        run(s, moves).capacity == s.capacity,
    decreases moves.len(),
{
    if moves.len() > 0 {
        let before = run(s, moves.drop_last());
        lemma_fifo(s, moves.drop_last());
        lemma_next_consistent(before, moves.last());
    }
}

/// A round of the running task is the step of the model, as far as the
/// channels report to the task what the model says they report: the round
/// decides as the model's task does and leaves the task in the model's next
/// phase, and if the model's task handles a message, the oldest one
/// buffered, then that is the message which the round handed to the state as
/// it found it.
pub proof fn lemma_round_is_model_step<M, S: ActorState<Message = M>>(
    s: System<M>,
    round: Round<M, S>,
)
    requires
        round.sound(),
        round.found@.policy == s.policy,
        round.found@.phase == s.phase,
        round.keep_alive == keep_alive_report(s),
        round.mailbox == mailbox_report(s),
    ensures
        round.step() == task_step(s),
        round.left@.phase == next(s, Move::Poll).phase,
        round.delivers() <==> next(s, Move::Poll).handled == s.handled.push(s.buffered.first())
            && s.buffered.len() > 0 && next(s, Move::Poll).buffered == s.buffered.drop_first(),
        round.delivers() ==> Actor::<M, S>::handed(round.found@.state, s.buffered.first()),
        !round.delivers() ==> next(s, Move::Poll).handled == s.handled && round.left@.state
            == round.found@.state,
{
    assert(s.handled.push(s.buffered.first()).len() == s.handled.len() + 1);
}

/// The task handles one message at a time and in turn: a step of the task
/// handles at most one message, and the one it handles is the next in the
/// order of acceptance, the one before which exactly as many were accepted
/// as have been handled. No other move handles anything.
pub proof fn lemma_one_at_a_time<M>(s: System<M>, mv: Move<M>)
    requires
        consistent(s),
    ensures
        !(mv is Poll) ==> next(s, mv).handled == s.handled,
        next(s, Move::Poll).handled == s.handled || (s.handled.len() < s.accepted.len() && next(
            s,
            Move::Poll,
        ).handled == s.handled.push(s.accepted[s.handled.len() as int])),
{
    if s.buffered.len() > 0 {
        assert(s.accepted[s.handled.len() as int] == s.buffered.first());
    }
}

/// Counting from zero, the message handled as number `k` is the message
/// accepted as number `k`, whichever handle sent it and whatever else
/// happened: there is no gap and no repeat. A state that answers each
/// message with the number of messages it has handled before therefore
/// answers the message accepted as number `k` with `k`.
pub proof fn lemma_kth_handled_is_kth_accepted<M>(s: System<M>, moves: Seq<Move<M>>, k: int)
    requires
        consistent(s),
        0 <= k < run(s, moves).handled.len(),
    ensures
        k < run(s, moves).accepted.len(),
        run(s, moves).handled[k] == run(s, moves).accepted[k],
{
    lemma_fifo(s, moves);
}

/// A mailbox without room carries nothing: if the capacity were zero, no
/// message would ever be accepted, and none handled, whatever is tried.
pub proof fn lemma_no_room_no_message<M>(s: System<M>, moves: Seq<Move<M>>)
    requires
        s.capacity == 0,
        s.buffered.len() == 0,
    ensures
        run(s, moves).accepted == s.accepted,
        run(s, moves).handled == s.handled,
        run(s, moves).buffered == s.buffered,
        run(s, moves).capacity == 0,
    decreases moves.len(),
{
    if moves.len() > 0 {
        lemma_no_room_no_message(s, moves.drop_last());
    }
}

/// Under the keep-alive policy, once no strong handle is left the very next
/// step of the task terminates it, however many weak handles exist and
/// whatever is still buffered; the buffered messages are not handled.
pub proof fn lemma_no_strong_handle_terminates<M>(s: System<M>)
    requires
        s.policy == ShutdownPolicy::KeepAlive,
        s.strong == 0,
    ensures
        next(s, Move::Poll).phase == Phase::Terminated,
        next(s, Move::Poll).handled == s.handled,
        next(s, Move::Poll).buffered == s.buffered,
{
}

/// Under the keep-alive policy, dropping the last strong handle and polling
/// the task once terminates it.
pub proof fn lemma_last_drop_terminates<M>(s: System<M>)
    requires
        s.policy == ShutdownPolicy::KeepAlive,
        s.strong == 1,
    ensures
        next(next(s, Move::DropStrong), Move::Poll).phase == Phase::Terminated,
{
    lemma_no_strong_handle_terminates(next(s, Move::DropStrong));
}

/// While a strong handle exists, the task under the keep-alive policy keeps
/// running, and it handles the oldest buffered message whenever there is one.
pub proof fn lemma_strong_handle_keeps_running<M>(s: System<M>)
    requires
        s.policy == ShutdownPolicy::KeepAlive,
        s.phase == Phase::Running,
        s.strong > 0,
    ensures
        next(s, Move::Poll).phase == Phase::Running,
        s.buffered.len() > 0 ==> next(s, Move::Poll).handled == s.handled.push(s.buffered.first())
            && next(s, Move::Poll).buffered == s.buffered.drop_first(),
        s.buffered.len() == 0 ==> next(s, Move::Poll) == s,
{
}

/// Under the mailbox-closed policy the task stops exactly when the mailbox
/// is empty and no handle of either kind is left; a weak handle alone keeps
/// it running.
pub proof fn lemma_mailbox_policy_stops_when_drained<M>(s: System<M>)
    requires
        s.policy == ShutdownPolicy::MailboxClosed,
        s.phase == Phase::Running,
    ensures
        next(s, Move::Poll).phase == Phase::Terminated <==> s.buffered.len() == 0 && s.strong
            + s.weak == 0,
{
}

/// What an enqueue does, by a strong or a weak handle alike.
///
/// - While the task runs and the mailbox has room, the message is accepted
///   and joins the buffer behind everything accepted before.
/// - While the task runs and the mailbox is at capacity, the message is not
///   placed: the caller keeps it and has to wait for room.
/// - Once the task has terminated, the enqueue fails, every time, and the
///   caller gets the message back.
/// In the last two cases nothing changes.
pub proof fn lemma_enqueue<M>(s: System<M>, msg: M)
    requires
        s.strong + s.weak > 0,
    ensures
        s.phase == Phase::Running && s.buffered.len() < s.capacity ==> enqueue_result(s, msg)
            == Ok::<(), Rejected<M>>(()) && next(s, Move::Enqueue(msg)).buffered
            == s.buffered.push(msg) && next(s, Move::Enqueue(msg)).accepted == s.accepted.push(
            msg,
        ),
        s.phase == Phase::Running && s.buffered.len() >= s.capacity ==> enqueue_result(s, msg)
            == Err::<(), Rejected<M>>(Rejected::Full(msg)) && next(s, Move::Enqueue(msg)) == s,
        s.phase == Phase::Terminated ==> enqueue_result(s, msg) == Err::<(), Rejected<M>>(
            Rejected::Closed(msg),
        ) && next(s, Move::Enqueue(msg)) == s,
{
}

/// A caller that found the mailbox at capacity does not wait in vain: as
/// long as the task runs, its next step takes the oldest message out, and
/// the enqueue that follows is accepted, with the message last in line.
pub proof fn lemma_room_after_delivery<M>(s: System<M>, msg: M)
    requires
        consistent(s),
        s.phase == Phase::Running,
        s.policy == ShutdownPolicy::KeepAlive ==> s.strong > 0,
        s.strong + s.weak > 0,
        s.buffered.len() == s.capacity,
    ensures
        ({
            let t = next(s, Move::Poll);
            &&& t.phase == Phase::Running
            &&& t.handled == s.handled.push(s.buffered.first())
            &&& enqueue_result(t, msg) == Ok::<(), Rejected<M>>(())
            &&& next(t, Move::Enqueue(msg)).buffered == s.buffered.drop_first().push(msg)
            &&& next(t, Move::Enqueue(msg)).accepted == s.accepted.push(msg)
        }),
{
}

/// A weak handle made while the task ran still exists after every strong
/// handle is gone, and from the moment the task has terminated each enqueue
/// through it fails and hands the message back.
pub proof fn lemma_weak_handle_fails_after_termination<M>(s: System<M>, msg: M)
    requires
        s.policy == ShutdownPolicy::KeepAlive,
        s.strong == 1,
        s.weak > 0,
    ensures
        ({
            let t = next(next(s, Move::DropStrong), Move::Poll);
            &&& t.weak == s.weak
            &&& t.phase == Phase::Terminated
            &&& enqueue_result(t, msg) == Err::<(), Rejected<M>>(Rejected::Closed(msg))
        }),
{
    lemma_last_drop_terminates(s);
}

/// The task of an actor never aborts: no operation of a handle puts a
/// payload on the keep-alive channel, so the task never finds one.
pub proof fn lemma_never_aborts<M>(s: System<M>)
    ensures
        task_step(s) != Poll::<Step<M>>::Ready(Step::Abort),
{
}

/// A terminated actor stays terminated: no move restarts the task, and
/// nothing more is accepted or handled.
pub proof fn lemma_terminated_is_final<M>(s: System<M>, moves: Seq<Move<M>>)
    requires
        s.phase == Phase::Terminated,
    ensures
        run(s, moves).phase == Phase::Terminated,
        run(s, moves).handled == s.handled,
        run(s, moves).accepted == s.accepted,
        run(s, moves).buffered == s.buffered,
    decreases moves.len(),
{
    if moves.len() > 0 {
        lemma_terminated_is_final(s, moves.drop_last());
    }
}

} // verus!
