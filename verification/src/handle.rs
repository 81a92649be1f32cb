//! The handles by which callers reach a mailbox task: strong ones, which
//! keep the task running, and weak ones, which can only enqueue.

use crate::actor::{Actor, ActorView};
use crate::channel::{channel_of, launch, no_runtime, sent_on, spawned};
use crate::protocol::ProtocolViolation;
use crate::protocol::{Phase, ShutdownPolicy};
use crate::state::ActorState;
use core::future::Future;
use tokio::sync::mpsc::error::{SendError, TrySendError};
use tokio::sync::mpsc::{Receiver, Sender};
use tokio::task::JoinHandle;
use vstd::future::FutureAdditionalSpecFns;
use vstd::prelude::*;

verus! {

/// The largest capacity a mailbox can have.
pub const MAX_CAPACITY: usize = usize::MAX / 8;

/// Why an actor cannot be constructed as asked.
#[derive(Clone, Copy, Debug, PartialEq, Eq, Structural)]
pub enum ConfigError {
    /// A mailbox of capacity zero could never carry a message.
    ZeroCapacity,
    /// The capacity is above [`MAX_CAPACITY`].
    CapacityTooLarge,
    /// The calling thread is inside of no Tokio runtime, so there is nothing
    /// to spawn the mailbox task on.
    NoRuntime,
}

/// A message that an immediate enqueue could not place, handed back.
#[derive(Debug, PartialEq, Eq)]
pub enum Rejected<M> {
    /// The mailbox is at capacity; the task may still run.
    Full(M),
    /// The task has terminated and its receiver is gone.
    Closed(M),
}

/// A handle that can enqueue messages but does not keep the task running.
#[derive(Debug)]
#[verifier::reject_recursive_types(M)]
pub struct ActorHandleWeak<M> {
    sender: Sender<M>,
}

/// A handle that can enqueue messages and keeps the task running: under
/// [`ShutdownPolicy::KeepAlive`] the task stops once the last strong handle
/// is dropped.
#[derive(Debug)]
#[verifier::reject_recursive_types(M)]
pub struct ActorHandle<M> {
    sender: ActorHandleWeak<M>,
    keep_alive: Sender<()>,
}

/// Says whether a mailbox can be made with this capacity.
pub fn check_capacity(channel_buffer: usize) -> (r: Result<(), ConfigError>)
    ensures
        r == capacity_verdict(channel_buffer),
{
    if channel_buffer == 0 {
        Err(ConfigError::ZeroCapacity)
    } else if channel_buffer > MAX_CAPACITY {
        Err(ConfigError::CapacityTooLarge)
    } else {
        Ok(())
    }
}

/// A capacity is accepted exactly when it is at least one and at most
/// [`MAX_CAPACITY`].
pub open spec fn capacity_verdict(channel_buffer: usize) -> Result<(), ConfigError> {
    if channel_buffer == 0 {
        Err(ConfigError::ZeroCapacity)
    } else if channel_buffer > MAX_CAPACITY {
        Err(ConfigError::CapacityTooLarge)
    } else {
        Ok(())
    }
}

/// A mailbox of capacity zero is refused, and so is one above
/// [`MAX_CAPACITY`]; every capacity between is accepted, and no capacity is
/// refused for want of a runtime. So whoever asks [`check_capacity`] first,
/// as [`ActorHandle::try_new`] does, makes no channel and spawns no task for
/// a capacity that could carry no message.
pub proof fn lemma_capacity_verdict(channel_buffer: usize)
    ensures
        capacity_verdict(0) == Err::<(), ConfigError>(ConfigError::ZeroCapacity),
        capacity_verdict(channel_buffer) is Ok <==> 0 < channel_buffer <= MAX_CAPACITY,
        capacity_verdict(channel_buffer) == Err::<(), ConfigError>(ConfigError::ZeroCapacity)
            <==> channel_buffer == 0,
        capacity_verdict(channel_buffer) == Err::<(), ConfigError>(ConfigError::CapacityTooLarge)
            <==> channel_buffer > MAX_CAPACITY,
{
}

impl<M> Rejected<M> {
    /// The message that was not enqueued.
    pub open spec fn message(self) -> M {
        match self {
            Rejected::Full(msg) => msg,
            Rejected::Closed(msg) => msg,
        }
    }

    /// Gives the message back.
    pub fn into_message(self) -> (r: M)
        ensures
            r == self.message(),
    {
        match self {
            Rejected::Full(msg) => msg,
            Rejected::Closed(msg) => msg,
        }
    }
}

/// The library's reading of the result of an immediate send.
pub open spec fn rejection_of<M>(sent: Result<(), TrySendError<M>>) -> Result<(), Rejected<M>> {
    match sent {
        Ok(()) => Ok(()),
        Err(TrySendError::Full(msg)) => Err(Rejected::Full(msg)),
        Err(TrySendError::Closed(msg)) => Err(Rejected::Closed(msg)),
    }
}

/// Reads the result of an immediate send on the mailbox channel.
pub fn rejection<M>(sent: Result<(), TrySendError<M>>) -> (r: Result<(), Rejected<M>>)
    ensures
        r == rejection_of(sent),
{
    match sent {
        Ok(()) => Ok(()),
        Err(TrySendError::Full(msg)) => Err(Rejected::Full(msg)),
        Err(TrySendError::Closed(msg)) => Err(Rejected::Closed(msg)),
    }
}

impl<M> ActorHandleWeak<M> {
    /// The sending end of the mailbox that this handle holds.
    pub closed spec fn mailbox(&self) -> Sender<M> {
        self.sender
    }

    /// The future of enqueuing `msg`: the one that `Sender::send` returns
    /// for `msg` on the mailbox sender of this handle. Awaited, it suspends
    /// while the mailbox is at capacity. It resolves to `Ok` once the message
    /// is in the mailbox, and to an error once the task has terminated and
    /// dropped its receiver; the error then holds `msg`, so the message is
    /// not lost.
    pub fn ask(&self, msg: M) -> (r: impl Future<Output = Result<(), SendError<M>>> + '_)
        ensures
            call_ensures(Sender::<M>::send, (&self.mailbox(), msg), r),
            r@ matches Err(unsent) ==> unsent.0 == msg,
    {
        self.sender.send(msg)
    }

    /// Enqueues `msg` if that can be done at once, and hands it back if the
    /// mailbox is at capacity or the task has terminated.
    ///
    /// The message is offered once, to the mailbox sender of this handle,
    /// and the result is what [`rejection_of`] makes of the answer: `Ok` when
    /// the mailbox took the message, `Full` when it was at capacity,
    /// `Closed` when the receiver was gone. Which answer comes depends on
    /// the task and on the other handles; whichever comes, a rejection holds
    /// `msg`.
    pub fn try_ask(&self, msg: M) -> (r: Result<(), Rejected<M>>)
        ensures
            exists|sent: Result<(), TrySendError<M>>|
                #![trigger sent_on(self.mailbox(), msg, sent)]
                sent_on(self.mailbox(), msg, sent) && r == rejection_of(sent),
            r matches Err(rejected) ==> rejected.message() == msg,
    {
        let sent = self.sender.try_send(msg);
        assert(sent_on(self.mailbox(), msg, sent));
        rejection(sent)
    }
}

impl<M> Clone for ActorHandleWeak<M> {
    /// One more weak handle on the same mailbox.
    fn clone(&self) -> (r: Self)
        ensures
            cloned(self.mailbox(), r.mailbox()),
    {
        ActorHandleWeak { sender: self.sender.clone() }
    }
}

impl<M> ActorHandle<M> {
    /// The sending end of the mailbox that this handle holds.
    pub closed spec fn mailbox(&self) -> Sender<M> {
        self.sender.sender
    }

    /// The sending end of the keep-alive channel that this handle holds.
    pub closed spec fn keep_alive(&self) -> Sender<()> {
        self.keep_alive
    }

    /// This handle is the first one of an actor: its two sending ends come
    /// straight from the making of a mailbox of the given capacity and of a
    /// keep-alive channel of capacity one.
    pub open spec fn first_of(&self, channel_buffer: usize) -> bool {
        exists|receiver: Receiver<M>, keep_alive: Receiver<()>|
            #[trigger] channel_of(channel_buffer, self.mailbox(), receiver) && #[trigger] channel_of(
                1,
                self.keep_alive(),
                keep_alive,
            )
    }

    /// `actor` is the task of this handle, fresh from construction: it is
    /// running, under `policy`, holds `state`, and owns the receiving ends
    /// of the two channels whose sending ends this handle holds, the mailbox
    /// made with the given capacity and the keep-alive channel made with
    /// capacity one.
    pub open spec fn wired_to<S>(
        &self,
        actor: Actor<M, S>,
        state: S,
        channel_buffer: usize,
        policy: ShutdownPolicy,
    ) -> bool {
        &&& actor@ == (ActorView { state, policy, phase: Phase::Running })
        &&& channel_of(channel_buffer, self.mailbox(), actor.channels().0)
        &&& channel_of(1, self.keep_alive(), actor.channels().1)
    }

    /// This handle is the first one of an actor that runs: the task of the
    /// handle, fresh from construction as [`ActorHandle::wired_to`] says,
    /// was given to a runtime, and `join` is the join handle of it.
    pub open spec fn spawned_with<S>(
        &self,
        state: S,
        channel_buffer: usize,
        policy: ShutdownPolicy,
        join: JoinHandle<Result<(), ProtocolViolation>>,
    ) -> bool where M: Send + 'static, S: ActorState<Message = M> + Send + 'static {
        exists|actor: Actor<M, S>| #[trigger]
            spawned(actor, join) && self.wired_to(actor, state, channel_buffer, policy)
    }

    /// As [`ActorHandle::spawned_with`], of some join handle.
    pub open spec fn running_with<S>(
        &self,
        state: S,
        channel_buffer: usize,
        policy: ShutdownPolicy,
    ) -> bool where M: Send + 'static, S: ActorState<Message = M> + Send + 'static {
        exists|join: JoinHandle<Result<(), ProtocolViolation>>| #[trigger]
            self.spawned_with(state, channel_buffer, policy, join)
    }

    /// Makes a mailbox of the given capacity and a keep-alive channel of
    /// capacity one, and returns the first strong handle, which holds the
    /// two sending ends, together with a running task that owns the two
    /// receiving ends and `state`. The task is not spawned: whoever takes it
    /// has to drive it.
    pub fn wire<S>(state: S, channel_buffer: usize, policy: ShutdownPolicy) -> (r: (
        Self,
        Actor<M, S>,
    ))
        requires
            0 < channel_buffer <= MAX_CAPACITY,
        ensures
            r.0.wired_to(r.1, state, channel_buffer, policy),
            r.0.first_of(channel_buffer),
    {
        let (sender, receiver) = tokio::sync::mpsc::channel(channel_buffer);
        let (keep_alive, keep_alive_rx) = tokio::sync::mpsc::channel(1);
        let ghost ends = (receiver, keep_alive_rx);
        let actor = Actor::with_policy(receiver, state, keep_alive_rx, policy);
        let sender = ActorHandleWeak { sender };
        let handle = Self { sender, keep_alive };
        assert(channel_of(channel_buffer, handle.mailbox(), ends.0) && channel_of(
            1,
            handle.keep_alive(),
            ends.1,
        ));
        (handle, actor)
    }

    /// Spawns a mailbox task on the runtime of the calling thread, under the
    /// given policy and with a mailbox of the given capacity. Returns the
    /// first strong handle to it together with the join handle of the task.
    ///
    /// The join handle resolves when the task has terminated: to `Ok(())`
    /// after a shutdown in good order, to the [`ProtocolViolation`] if a
    /// payload on the keep-alive channel aborted the task. So the violation
    /// is not lost: whoever keeps the join handle sees it.
    ///
    /// Nothing is made and nothing is spawned for a capacity that no mailbox
    /// can have. On a thread that is inside of no runtime the task cannot be
    /// spawned, and the error says so.
    pub fn spawn<S>(state: S, channel_buffer: usize, policy: ShutdownPolicy) -> (r: Result<
        (Self, JoinHandle<Result<(), ProtocolViolation>>),
        ConfigError,
    >) where M: Send + 'static, S: ActorState<Message = M> + Send + 'static
        ensures
            capacity_verdict(channel_buffer) matches Err(refused) ==> r matches Err(error)
                && error == refused,
            capacity_verdict(channel_buffer) is Ok ==> (r matches Err(error) && error
                == ConfigError::NoRuntime && no_runtime()) || (r matches Ok(made)
                && made.0.spawned_with(state, channel_buffer, policy, made.1)),
    {
        match check_capacity(channel_buffer) {
            Ok(()) => {
                let (handle, actor) = Self::wire(state, channel_buffer, policy);
                match launch(actor) {
                    Some(join) => Ok((handle, join)),
                    None => Err(ConfigError::NoRuntime),
                }
            },
            Err(refused) => Err(refused),
        }
    }

    /// Spawns a mailbox task under the given policy, with a mailbox of the
    /// given capacity, and returns the first strong handle to it. The task
    /// that is given to the runtime is running, holds `state` as it was
    /// passed in, and owns the receiving ends of the two channels whose
    /// sending ends the handle holds, as [`ActorHandle::running_with`] says.
    /// Its join handle is let go; [`ActorHandle::spawn`] hands it out.
    ///
    /// On a thread that is inside of no Tokio runtime there is nothing to
    /// spawn the task on. The task is then dropped at once, with its state
    /// and its receivers, and the handle that is returned is one to an
    /// actor that has terminated: every enqueue through it fails and hands
    /// the message back. [`ActorHandle::spawn`] and [`ActorHandle::try_new`]
    /// report that case as an error.
    pub fn with_policy<S>(state: S, channel_buffer: usize, policy: ShutdownPolicy) -> (r: Self) where
        M: Send + 'static,
        S: ActorState<Message = M> + Send + 'static,

        requires
            0 < channel_buffer <= MAX_CAPACITY,
        ensures
            r.running_with(state, channel_buffer, policy) || (r.first_of(channel_buffer)
                && no_runtime()),
    {
        let (handle, actor) = Self::wire(state, channel_buffer, policy);
        let join = launch(actor);
        assert(join matches Some(task) ==> handle.spawned_with(
            state,
            channel_buffer,
            policy,
            task,
        ));
        handle
    }

    /// Spawns a mailbox task under the keep-alive policy, with a mailbox of
    /// the given capacity, and returns the first strong handle to it; see
    /// [`ActorHandle::with_policy`], also for what happens on a thread that
    /// is inside of no Tokio runtime.
    pub fn new<S>(state: S, channel_buffer: usize) -> (r: Self) where
        M: Send + 'static,
        S: ActorState<Message = M> + Send + 'static,

        requires
            0 < channel_buffer <= MAX_CAPACITY,
        ensures
            r.running_with(state, channel_buffer, ShutdownPolicy::KeepAlive) || (r.first_of(
                channel_buffer,
            ) && no_runtime()),
    {
        Self::with_policy(state, channel_buffer, ShutdownPolicy::KeepAlive)
    }

    /// As [`ActorHandle::new`], for any capacity and on any thread: a
    /// capacity that no mailbox can have is refused before any channel is
    /// made or any task spawned, and a thread that is inside of no Tokio
    /// runtime is reported as [`ConfigError::NoRuntime`].
    pub fn try_new<S>(state: S, channel_buffer: usize) -> (r: Result<Self, ConfigError>) where
        M: Send + 'static,
        S: ActorState<Message = M> + Send + 'static,

        ensures
            capacity_verdict(channel_buffer) matches Err(refused) ==> r matches Err(error)
                && error == refused,
            capacity_verdict(channel_buffer) is Ok ==> (r matches Err(error) && error
                == ConfigError::NoRuntime && no_runtime()) || (r matches Ok(handle)
                && handle.running_with(state, channel_buffer, ShutdownPolicy::KeepAlive)),
    {
        match Self::spawn(state, channel_buffer, ShutdownPolicy::KeepAlive) {
            Ok((handle, join)) => {
                assert(handle.spawned_with(
                    state,
                    channel_buffer,
                    ShutdownPolicy::KeepAlive,
                    join,
                ));
                Ok(handle)
            },
            Err(error) => Err(error),
        }
    }

    /// The future of enqueuing `msg`; see [`ActorHandleWeak::ask`]. It is
    /// the future that `Sender::send` returns for `msg` on the mailbox sender
    /// of this handle, the sender of which a downgrade gives a clone; the
    /// keep-alive channel plays no part.
    pub fn ask(&self, msg: M) -> (r: impl Future<Output = Result<(), SendError<M>>> + '_)
        ensures
            call_ensures(Sender::<M>::send, (&self.mailbox(), msg), r),
            r@ matches Err(unsent) ==> unsent.0 == msg,
    {
        self.sender.sender.send(msg)
    }

    /// Enqueues `msg` if that can be done at once; see
    /// [`ActorHandleWeak::try_ask`]. The message is offered once, to the
    /// mailbox sender of this handle; the keep-alive channel plays no part.
    pub fn try_ask(&self, msg: M) -> (r: Result<(), Rejected<M>>)
        ensures
            exists|sent: Result<(), TrySendError<M>>|
                #![trigger sent_on(self.mailbox(), msg, sent)]
                sent_on(self.mailbox(), msg, sent) && r == rejection_of(sent),
            r matches Err(rejected) ==> rejected.message() == msg,
    {
        let r = self.sender.try_ask(msg);
        assert(self.mailbox() == self.sender.mailbox());
        r
    }

    /// A weak handle on the same mailbox: a clone of the mailbox sender
    /// alone, without a sending end of the keep-alive channel.
    pub fn downgrade(&self) -> (r: ActorHandleWeak<M>)
        ensures
            cloned(self.mailbox(), r.mailbox()),
    {
        self.sender.clone()
    }
}

impl<M> Clone for ActorHandle<M> {
    /// One more strong handle: a clone of both sending ends.
    fn clone(&self) -> (r: Self)
        ensures
            cloned(self.mailbox(), r.mailbox()),
            cloned(self.keep_alive(), r.keep_alive()),
    {
        ActorHandle { sender: self.sender.clone(), keep_alive: self.keep_alive.clone() }
    }
}

} // verus!
