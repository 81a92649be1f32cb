//! The mailbox task: the one owner of a state, of the receiving end of its
//! mailbox and of the receiving end of its keep-alive channel.
//!
//! A task is driven by polling. [`Actor::poll_step`] looks at the channels
//! once and decides on one step; [`Actor::poll`] is the whole run loop of a
//! state that handles its messages without suspending.

use crate::channel::polled_on;
use crate::protocol::{
    last_step, liveness, liveness_of, mailbox_step, outcome_of, phase_after, transition, Liveness,
    Phase, ProtocolViolation, ShutdownPolicy, Step,
};
use crate::state::ActorState;
use core::task::{Context, Poll};
use tokio::sync::mpsc::Receiver;
use vstd::prelude::*;

verus! {

/// A mailbox task.
#[verifier::reject_recursive_types(M)]
pub struct Actor<M, S> {
    receiver: Receiver<M>,
    state: S,
    keep_alive: Receiver<()>,
    policy: ShutdownPolicy,
    phase: Phase,
}

/// What a mailbox task is, apart from its channels.
pub struct ActorView<S> {
    /// The state the task owns.
    pub state: S,
    /// What makes the task stop.
    pub policy: ShutdownPolicy,
    /// Whether the task still runs.
    pub phase: Phase,
}

impl<M, S> View for Actor<M, S> {
    type V = ActorView<S>;

    closed spec fn view(&self) -> ActorView<S> {
        ActorView { state: self.state, policy: self.policy, phase: self.phase }
    }
}

impl<M, S> Actor<M, S> {
    /// The receiving ends the task owns: of the mailbox, and of the
    /// keep-alive channel.
    pub closed spec fn channels(&self) -> (Receiver<M>, Receiver<()>) {
        (self.receiver, self.keep_alive)
    }

    /// A running task under the keep-alive policy.
    pub fn new(receiver: Receiver<M>, state: S, keep_alive: Receiver<()>) -> (r: Self)
        ensures
            r@ == (ActorView { state, policy: ShutdownPolicy::KeepAlive, phase: Phase::Running }),
            r.channels() == (receiver, keep_alive),
    {
        Self {
            receiver,
            state,
            keep_alive,
            policy: ShutdownPolicy::KeepAlive,
            phase: Phase::Running,
        }
    }

    /// A running task under the given policy.
    pub fn with_policy(
        receiver: Receiver<M>,
        state: S,
        keep_alive: Receiver<()>,
        policy: ShutdownPolicy,
    ) -> (r: Self)
        ensures
            r@ == (ActorView { state, policy, phase: Phase::Running }),
            r.channels() == (receiver, keep_alive),
    {
        Self { receiver, state, keep_alive, policy, phase: Phase::Running }
    }

    /// The phase of the task.
    pub fn phase(&self) -> (r: Phase)
        ensures
            r == self@.phase,
    {
        self.phase
    }

    /// The shutdown policy of the task.
    pub fn policy(&self) -> (r: ShutdownPolicy)
        ensures
            r == self@.policy,
    {
        self.policy
    }

    /// The state, for the one who drives the task to hand a message to.
    /// Whatever is done through the borrow changes the state and nothing
    /// else.
    pub fn state_mut(&mut self) -> (r: &mut S)
        ensures
            *r == old(self)@.state,
            final(self)@ == (ActorView { state: *final(r), ..old(self)@ }),
            final(self).channels() == old(self).channels(),
    {
        &mut self.state
    }

    /// The two reports are what the task's own channels gave when it looked
    /// at them as a step does: under the keep-alive policy the keep-alive
    /// channel is polled, and the mailbox is polled unless the keep-alive
    /// channel has already decided, that is under the mailbox-closed policy
    /// or when the keep-alive channel reports that it is held. A report of a
    /// channel that is not polled stands for nothing.
    pub open spec fn looked(&self, keep_alive: Poll<Option<()>>, mailbox: Poll<Option<M>>) -> bool {
        &&& self@.policy == ShutdownPolicy::KeepAlive ==> polled_on(self.channels().1, keep_alive)
        &&& (self@.policy == ShutdownPolicy::MailboxClosed || liveness_of(keep_alive)
            == Liveness::Held) ==> polled_on(self.channels().0, mailbox)
    }

    /// Looks at the channels once and decides on the next step.
    ///
    /// What the channels report depends on the handles and on the tasks that
    /// hold them. Whatever they report, the reports are those of polling
    /// the task's own receivers, as [`Actor::looked`] says, and the decision
    /// and the next phase are those of [`transition`] on them. The policy
    /// stays, and the state is not touched: a message that is to be delivered
    /// is handed out, not handled. A channel that the step does not poll is
    /// left as it was: the keep-alive channel under the mailbox-closed policy,
    /// and the mailbox when the keep-alive channel ends the task, so nothing
    /// that is still buffered is taken out. A channel that the step does
    /// poll is polled once: its receiver is left as that one poll left it. A
    /// terminated task is left exactly as it was.
    ///
    /// On `Pending` the task has registered the context's waker with every
    /// channel it has looked at.
    pub fn poll_step(&mut self, cx: &mut Context<'_>) -> (r: Poll<Step<M>>)
        ensures
            exists|keep_alive: Poll<Option<()>>, mailbox: Poll<Option<M>>|
                (final(self)@.phase, r) == #[trigger] transition(
                    old(self)@.policy,
                    old(self)@.phase,
                    keep_alive,
                    mailbox,
                ) && (old(self)@.phase == Phase::Running ==> old(self).looked(keep_alive, mailbox)),
            final(self)@.policy == old(self)@.policy,
            final(self)@.state == old(self)@.state,
            old(self)@.policy == ShutdownPolicy::MailboxClosed ==> final(self).channels().1 == old(
                self,
            ).channels().1,
            old(self)@.policy == ShutdownPolicy::KeepAlive && final(self)@.phase
                == Phase::Terminated ==> final(self).channels().0 == old(self).channels().0,
            old(self)@.phase == Phase::Terminated ==> *final(self) == *old(self),
            final(self).channels().1 == old(self).channels().1 || exists|
                polling: &mut Receiver<()>,
                cx: &mut Context<'_>,
                polled: Poll<Option<()>>,
            |
                *polling == old(self).channels().1 && *final(polling) == final(self).channels().1
                    && #[trigger] call_ensures(Receiver::<()>::poll_recv, (polling, cx), polled),
            final(self).channels().0 == old(self).channels().0 || exists|
                polling: &mut Receiver<M>,
                cx: &mut Context<'_>,
                polled: Poll<Option<M>>,
            |
                *polling == old(self).channels().0 && *final(polling) == final(self).channels().0
                    && #[trigger] call_ensures(Receiver::<M>::poll_recv, (polling, cx), polled),
    {
        if let Phase::Terminated = self.phase {
            assert((self@.phase, Poll::<Step<M>>::Ready(Step::Stop)) == transition(
                self@.policy,
                self@.phase,
                Poll::Pending,
                Poll::<Option<M>>::Pending,
            ));
            return Poll::Ready(Step::Stop);
        }
        let ghost mut signal: Poll<Option<()>> = Poll::Pending;
        if let ShutdownPolicy::KeepAlive = self.policy {
            let polled = self.keep_alive.poll_recv(cx);
            proof {
                signal = polled;
            }
            match liveness(polled) {
                Liveness::Held => {},
                Liveness::Released => {
                    self.phase = Phase::Terminated;
                    assert((self@.phase, Poll::<Step<M>>::Ready(Step::Stop)) == transition(
                        old(self)@.policy,
                        old(self)@.phase,
                        signal,
                        Poll::<Option<M>>::Pending,
                    ));
                    return Poll::Ready(Step::Stop);
                },
                Liveness::Violated => {
                    self.phase = Phase::Terminated;
                    assert((self@.phase, Poll::<Step<M>>::Ready(Step::Abort)) == transition(
                        old(self)@.policy,
                        old(self)@.phase,
                        signal,
                        Poll::<Option<M>>::Pending,
                    ));
                    return Poll::Ready(Step::Abort);
                },
            }
        }
        let polled = self.receiver.poll_recv(cx);
        let ghost mailbox = polled;
        let step = mailbox_step(self.policy, polled);
        self.phase = phase_after(&step);
        assert((self@.phase, step) == transition(
            old(self)@.policy,
            old(self)@.phase,
            signal,
            mailbox,
        ));
        step
    }
}

/// One round of a run of the mailbox task, written down: how the round found
/// the task, what the two channels reported, and how the round left the
/// task.
#[verifier::reject_recursive_types(M)]
pub struct Round<M, S> {
    /// The task as the round found it.
    pub found: Actor<M, S>,
    /// What the keep-alive channel reported, if it was polled.
    pub keep_alive: Poll<Option<()>>,
    /// What the mailbox reported, if it was polled.
    pub mailbox: Poll<Option<M>>,
    /// The task as the round left it.
    pub left: Actor<M, S>,
}

impl<M, S: ActorState<Message = M>> Round<M, S> {
    /// The step of the round: the decision of [`transition`] on the reports.
    pub open spec fn step(self) -> Poll<Step<M>> {
        transition(self.found@.policy, self.found@.phase, self.keep_alive, self.mailbox).1
    }

    /// The step of the round is the delivery of a message.
    pub open spec fn delivers(self) -> bool {
        self.step() matches Poll::Ready(Step::Deliver(_))
    }

    /// What a round does, and what it leaves alone.
    ///
    /// - The reports are those of polling the receivers of the task as the
    ///   round found it, as [`Actor::looked`] says.
    /// - The policy stays, and the phase is the one [`transition`] leads to.
    /// - If the step is a delivery, its message was handed to the state as
    ///   the round found it; if not, the state is left as it was.
    /// - A channel that the round does not poll is left as it was: the
    ///   keep-alive channel under the mailbox-closed policy, and the mailbox
    ///   when the keep-alive channel ends the task.
    /// - A task that was found terminated is left exactly as it was.
    pub open spec fn sound(self) -> bool {
        let next = transition(
            self.found@.policy,
            self.found@.phase,
            self.keep_alive,
            self.mailbox,
        );
        &&& self.found@.phase == Phase::Running ==> self.found.looked(self.keep_alive, self.mailbox)
        &&& self.left@.policy == self.found@.policy
        &&& self.left@.phase == next.0
        &&& match next.1 {
            Poll::Ready(Step::Deliver(msg)) => Actor::<M, S>::handed(self.found@.state, msg),
            _ => self.left@.state == self.found@.state,
        }
        &&& self.found@.policy == ShutdownPolicy::MailboxClosed ==> self.left.channels().1
            == self.found.channels().1
        &&& self.found@.policy == ShutdownPolicy::KeepAlive && self.left@.phase
            == Phase::Terminated ==> self.left.channels().0 == self.found.channels().0
        &&& self.found@.phase == Phase::Terminated ==> self.left == self.found
    }

    /// The round was taken: it is the record of one call of the round of the
    /// run loop, on a task that was as `found` when the call was made and
    /// as `left` when it returned.
    pub closed spec fn taken(self) -> bool {
        exists|
            task: &mut Actor<M, S>,
            cx: &mut Context<'_>,
            done: (Option<Poll<Result<(), ProtocolViolation>>>, Ghost<Round<M, S>>),
        |
            done.1@ == self && #[trigger] call_ensures(Actor::<M, S>::round, (task, cx), done)
    }

    /// A round that was taken is sound.
    pub proof fn lemma_taken_is_sound(self)
        requires
            self.taken(),
        ensures
            self.sound(),
    {
    }

    /// A round that was taken is one step and at most one delivery, and
    /// nothing else: the channels are left as one call of
    /// [`Actor::poll_step`] on the task as it was found left them, and the
    /// state is left either as it was found or as one call of
    /// `handle_message` on it left it.
    pub proof fn lemma_taken_is_one_step(self)
        requires
            self.taken(),
        ensures
            exists|task: &mut Actor<M, S>, cx: &mut Context<'_>, step: Poll<Step<M>>|
                *task == self.found && final(task).channels() == self.left.channels()
                    && #[trigger] call_ensures(Actor::<M, S>::poll_step, (task, cx), step),
            self.left@.state == self.found@.state || exists|handling: &mut S, msg: M|
                *handling == self.found@.state && *final(handling) == self.left@.state
                    && #[trigger] call_ensures(
                    <S as ActorState>::handle_message,
                    (handling, msg),
                    (),
                ),
    {
    }
}

impl<M, S: ActorState<Message = M>> Actor<M, S> {
    /// `msg` was handed to a state that was as `state` at that moment: one
    /// call of `handle_message` was made on it with `msg`.
    pub open spec fn handed(state: S, msg: M) -> bool {
        exists|handling: &mut S|
            *handling == state && #[trigger] call_ensures(
                <S as ActorState>::handle_message,
                (handling, msg),
                (),
            )
    }

    /// A run of the task as a sequence of rounds, from the task as it was
    /// found, `start`, to the task as it is left, `end`, with the result `r`.
    ///
    /// - There is at least one round; the first found the task as `start`,
    ///   each later one found it as the round before left it, and the last
    ///   left it as `end`. So nothing touches the task between the rounds.
    /// - Every round was taken, and is therefore sound, as
    ///   [`Round::lemma_taken_is_sound`] shows.
    /// - Every round but the last is a delivery.
    /// - The result is [`outcome_of`] the step of the last round: the end of
    ///   the task if that round ended it, `Pending` if the task waits for
    ///   its channels or yields after a delivery.
    pub open spec fn ran(
        start: Self,
        rounds: Seq<Round<M, S>>,
        end: Self,
        r: Poll<Result<(), ProtocolViolation>>,
    ) -> bool {
        &&& rounds.len() > 0
        &&& rounds.first().found == start
        &&& rounds.last().left == end
        &&& forall|i: int| 0 <= i < rounds.len() ==> (#[trigger] rounds[i]).taken()
        &&& forall|i: int| 0 <= i < rounds.len() - 1 ==> #[trigger] Self::went_on(rounds, i)
        &&& r == outcome_of(rounds.last().step())
    }

    /// Round `i` of the rounds is a delivery, and the next round found the
    /// task as round `i` left it.
    pub open spec fn went_on(rounds: Seq<Round<M, S>>, i: int) -> bool {
        rounds[i].delivers() && rounds[i + 1].found == rounds[i].left
    }

    /// One round of the run loop: one step, and the delivery if the step is
    /// one. Returns the result of the run if the round ends it, and nothing
    /// if the round delivered; beside it the record of the round.
    fn round(&mut self, cx: &mut Context<'_>) -> (done: (
        Option<Poll<Result<(), ProtocolViolation>>>,
        Ghost<Round<M, S>>,
    ))
        ensures
            done.1@.found == *old(self),
            done.1@.left == *final(self),
            done.1@.sound(),
            done.0 == if done.1@.delivers() {
                None
            } else {
                Some(outcome_of(done.1@.step()))
            },
            exists|task: &mut Actor<M, S>, cx: &mut Context<'_>, step: Poll<Step<M>>|
                *task == *old(self) && final(task).channels() == final(self).channels()
                    && #[trigger] call_ensures(Actor::<M, S>::poll_step, (task, cx), step),
            final(self)@.state == old(self)@.state || exists|handling: &mut S, msg: M|
                *handling == old(self)@.state && *final(handling) == final(self)@.state
                    && #[trigger] call_ensures(
                    <S as ActorState>::handle_message,
                    (handling, msg),
                    (),
                ),
    {
        let ghost found = *self;
        let step = self.poll_step(cx);
        let ghost (keep_alive, mailbox) = choose|
            keep_alive: Poll<Option<()>>,
            mailbox: Poll<Option<M>>,
        |
            (self@.phase, step) == #[trigger] transition(
                found@.policy,
                found@.phase,
                keep_alive,
                mailbox,
            ) && (found@.phase == Phase::Running ==> found.looked(keep_alive, mailbox));
        let outcome = match step {
            Poll::Ready(Step::Deliver(msg)) => {
                self.state.handle_message(msg);
                None
            },
            Poll::Ready(Step::Stop) => Some(Poll::Ready(Ok(()))),
            Poll::Ready(Step::Abort) => Some(Poll::Ready(Err(ProtocolViolation))),
            Poll::Pending => Some(Poll::Pending),
        };
        (outcome, Ghost(Round { found, keep_alive, mailbox, left: *self }))
    }

    /// The run loop of a state that handles its messages without suspending.
    ///
    /// Each round takes one step of [`Actor::poll_step`] and hands a message
    /// that is to be delivered to the state, so messages are handled one at
    /// a time and in the order in which the mailbox yields them. The loop
    /// ends when a step is not a delivery: `Pending` while the task waits for
    /// its channels, `Ready` once it has terminated, with the violation if it
    /// was aborted. After as many deliveries in a row as the mailbox has
    /// room for, and one more, the task wakes itself and yields, so that
    /// other tasks get their turn.
    ///
    /// Whatever the channels report, the run is a sequence of rounds as
    /// [`Actor::ran`] says: each round polls the receivers of the task as the
    /// round before left it, every round but the last hands the message that
    /// the mailbox yielded to the state as the round before left it, and the
    /// last round fixes the phase and the result. So no message that the
    /// mailbox yields is dropped, none is handled twice, and none is handled
    /// out of turn. In particular the task is terminated exactly when the
    /// result is `Ready`, an error is reported only under the keep-alive
    /// policy, and a task that was terminated before reports `Ready(Ok(()))`
    /// and is left exactly as it was. The policy stays.
    pub fn poll(&mut self, cx: &mut Context<'_>) -> (r: Poll<Result<(), ProtocolViolation>>)
        ensures
            exists|rounds: Seq<Round<M, S>>| #[trigger] Self::ran(*old(self), rounds, *final(self), r),
            final(self)@.policy == old(self)@.policy,
            r is Ready <==> final(self)@.phase == Phase::Terminated,
            r matches Poll::Ready(Err(_)) ==> old(self)@.policy == ShutdownPolicy::KeepAlive
                && old(self)@.phase == Phase::Running,
            old(self)@.phase == Phase::Terminated ==> r == Poll::<
                Result<(), ProtocolViolation>,
            >::Ready(Ok(())) && *final(self) == *old(self),
    {
        let mut budget: usize = self.receiver.max_capacity();
        let ghost mut rounds: Seq<Round<M, S>> = Seq::empty();
        loop
            invariant
                self@.policy == old(self)@.policy,
                self@.phase == old(self)@.phase,
                rounds.len() == 0 ==> *self == *old(self),
                rounds.len() > 0 ==> rounds.first().found == *old(self) && rounds.last().left
                    == *self && self@.phase == Phase::Running,
                forall|i: int| 0 <= i < rounds.len() ==> (#[trigger] rounds[i]).taken(),
                forall|i: int| 0 <= i < rounds.len() - 1 ==> #[trigger] Self::went_on(rounds, i),
                rounds.len() > 0 ==> rounds.last().delivers(),
            decreases budget,
        {
            let ghost before = rounds;
            let (outcome, round) = self.round(cx);
            proof {
                assert(round@.taken());
                rounds = before.push(round@);
                assert forall|i: int| 0 <= i < rounds.len() implies (#[trigger] rounds[i]).taken() by {
                    if i < before.len() {
                        assert(rounds[i] == before[i]);
                    }
                }
                assert forall|i: int| 0 <= i < rounds.len() - 1 implies #[trigger] Self::went_on(
                    rounds,
                    i,
                ) by {
                    assert(rounds[i] == before[i]);
                    if i < before.len() - 1 {
                        assert(Self::went_on(before, i));
                        assert(rounds[i + 1] == before[i + 1]);
                    }
                }
            }
            match outcome {
                Some(r) => {
                    assert(Self::ran(*old(self), rounds, *self, r));
                    return r;
                },
                None => {},
            }
            if budget == 0 {
                cx.waker().wake_by_ref();
                let r = Poll::Pending;
                assert(Self::ran(*old(self), rounds, *self, r));
                return r;
            }
            budget = budget - 1;
        }
    }

    /// What a run says of its rounds, spelled out: every round is sound; the
    /// first polled the receivers of the task as the run found it; every
    /// round but the last found a message in the mailbox and handed it to
    /// the state as the round before left it; the last round left the state
    /// as it found it, and its step is what the result reads.
    pub proof fn lemma_ran(
        start: Self,
        rounds: Seq<Round<M, S>>,
        end: Self,
        r: Poll<Result<(), ProtocolViolation>>,
    )
        requires
            Self::ran(start, rounds, end, r),
        ensures
            forall|i: int| 0 <= i < rounds.len() ==> (#[trigger] rounds[i]).sound(),
            start@.phase == Phase::Running ==> start.looked(
                rounds.first().keep_alive,
                rounds.first().mailbox,
            ),
            forall|i: int|
                0 <= i < rounds.len() - 1 ==> ((#[trigger] rounds[i]).mailbox matches Poll::Ready(
                    Some(msg),
                ) && Self::handed(rounds[i].found@.state, msg)) && rounds[i].left@.phase
                    == Phase::Running,
            !rounds.last().delivers() ==> end@.state == rounds.last().found@.state,
            (end@.phase, r) == last_step(
                transition(
                    rounds.last().found@.policy,
                    rounds.last().found@.phase,
                    rounds.last().keep_alive,
                    rounds.last().mailbox,
                ),
            ),
    {
        assert forall|i: int| 0 <= i < rounds.len() implies (#[trigger] rounds[i]).sound() by {
            rounds[i].lemma_taken_is_sound();
        }
        assert forall|i: int| 0 <= i < rounds.len() - 1 implies ((#[trigger] rounds[i]).mailbox matches Poll::Ready(
            Some(msg),
        ) && Self::handed(rounds[i].found@.state, msg)) && rounds[i].left@.phase
            == Phase::Running by {
            assert(Self::went_on(rounds, i));
            assert(rounds[i].sound());
        }
    }
}

} // verus!
