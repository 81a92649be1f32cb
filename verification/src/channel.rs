//! The primitives this library stands on and does not verify: Tokio's bounded
//! channel, Tokio's task spawning, and the waker of `core::task`.
//!
//! Each declaration here says what it takes from the outside code; where it
//! states nothing, nothing is assumed. None of that is proved. The spec
//! functions beside them give names to the fact that a call was made:
//! [`channel_of`], [`sent_on`], [`polled_on`], [`spawned`], [`no_runtime`]. Such a fact is
//! known only where the call stands, so a contract that states it says
//! which call the function made, on which object, and with what.

use crate::actor::Actor;
use crate::protocol::ProtocolViolation;
use crate::state::ActorState;
use core::future::Future;
use core::task::{Context, Poll, Waker};
use tokio::sync::mpsc::error::{SendError, TrySendError};
use tokio::sync::mpsc::{Receiver, Sender};
use tokio::task::JoinHandle;
use vstd::future::FutureAdditionalSpecFns;
use vstd::prelude::*;

verus! {

/// `tokio::sync::mpsc::Sender`: a sending end of a bounded channel. Opaque.
#[verifier::external_type_specification]
#[verifier::external_body]
#[verifier::reject_recursive_types(T)]
pub struct ExSender<T>(Sender<T>);

/// `tokio::sync::mpsc::Receiver`: the receiving end of a bounded channel.
/// Opaque.
#[verifier::external_type_specification]
#[verifier::external_body]
#[verifier::reject_recursive_types(T)]
pub struct ExReceiver<T>(Receiver<T>);

/// `tokio::sync::mpsc::error::SendError`: the error of a send on a closed
/// channel, a tuple struct whose one public field is the value that was not
/// sent.
#[verifier::external_type_specification]
pub struct ExSendError<T>(SendError<T>);

/// `tokio::sync::mpsc::error::TrySendError`: the error of an immediate send,
/// `Full` or `Closed`, each variant holding the value that was not sent.
#[verifier::external_type_specification]
pub struct ExTrySendError<T>(TrySendError<T>);

/// `core::task::Poll`: `Ready` with a value, or `Pending`.
#[verifier::external_type_specification]
pub struct ExPoll<T>(Poll<T>);

/// `core::task::Context`: the context in which a task is polled. Opaque.
#[verifier::external_type_specification]
#[verifier::external_body]
pub struct ExContext<'a>(Context<'a>);

/// `core::task::Waker`: the handle by which a task is woken. Opaque.
#[verifier::external_type_specification]
#[verifier::external_body]
pub struct ExWaker(Waker);

/// `tokio::runtime::Handle`: a handle on a runtime. Opaque.
#[verifier::external_type_specification]
#[verifier::external_body]
pub struct ExRuntimeHandle(tokio::runtime::Handle);

/// `tokio::runtime::TryCurrentError`: the error of asking for the runtime of
/// a thread that is inside of none. Opaque.
#[verifier::external_type_specification]
#[verifier::external_body]
pub struct ExTryCurrentError(tokio::runtime::TryCurrentError);

/// `tokio::task::JoinError`: the error to which a join handle resolves when
/// its task was cancelled or has panicked. Opaque. The library never holds
/// one; it is declared because `JoinHandle` is a future of it.
#[verifier::external_type_specification]
#[verifier::external_body]
pub struct ExJoinError(tokio::task::JoinError);

/// `tokio::task::JoinHandle`: the handle on which the end of a spawned task
/// can be awaited. Opaque.
#[verifier::external_type_specification]
#[verifier::external_body]
#[verifier::reject_recursive_types(T)]
pub struct ExJoinHandle<T>(JoinHandle<T>);

/// `tokio::sync::mpsc::channel` panics on a capacity of zero and on one above
/// an eighth of `usize::MAX`, the most permits its semaphore takes; every
/// other capacity is left in. Nothing is assumed of the two ends it returns.
pub assume_specification<T>[ tokio::sync::mpsc::channel::<T> ](buffer: usize) -> (r: (
    Sender<T>,
    Receiver<T>,
))
    requires
        0 < buffer <= usize::MAX / 8,
;

/// `tx` and `rx` are the two ends that one call of
/// `tokio::sync::mpsc::channel` with this capacity has returned.
pub open spec fn channel_of<T>(buffer: usize, tx: Sender<T>, rx: Receiver<T>) -> bool {
    call_ensures(tokio::sync::mpsc::channel::<T>, (buffer,), (tx, rx))
}

/// `Sender::clone` makes one more sending end of the same channel. Nothing
/// is assumed of it.
pub assume_specification<T>[ <Sender<T> as Clone>::clone ](tx: &Sender<T>) -> (r: Sender<T>);

/// `Sender::try_send` either accepts the message, or finds the channel full
/// or closed. Whether it accepts depends on the other tasks, so nothing is
/// assumed of that; what is assumed is that each error holds the very message
/// that was passed in.
pub assume_specification<T>[ Sender::<T>::try_send ](tx: &Sender<T>, message: T) -> (r: Result<
    (),
    TrySendError<T>,
>)
    ensures
        r matches Err(TrySendError::Full(unsent)) ==> unsent == message,
        r matches Err(TrySendError::Closed(unsent)) ==> unsent == message,
;

/// `sent` is what one call of `Sender::try_send` on `tx` with `message` has
/// returned.
pub open spec fn sent_on<T>(tx: Sender<T>, message: T, sent: Result<(), TrySendError<T>>) -> bool {
    call_ensures(Sender::<T>::try_send, (&tx, message), sent)
}

/// `Receiver::poll_recv` reports a message, the end of the channel, or that
/// neither is there yet; in the last case it has registered the context's
/// waker. What it reports depends on the senders, so nothing is assumed of
/// it.
pub assume_specification<T>[ Receiver::<T>::poll_recv ](
    rx: &mut Receiver<T>,
    cx: &mut Context<'_>,
) -> (r: Poll<Option<T>>);

/// `polled` is what one call of `Receiver::poll_recv` has returned on a
/// receiver that was as `rx` when the call was made.
pub open spec fn polled_on<T>(rx: Receiver<T>, polled: Poll<Option<T>>) -> bool {
    exists|polling: &mut Receiver<T>, cx: &mut Context<'_>|
        *polling == rx && #[trigger] call_ensures(Receiver::<T>::poll_recv, (polling, cx), polled)
}

/// `Receiver::max_capacity` returns the capacity the channel was made with.
/// Nothing is assumed of the number.
pub assume_specification<T>[ Receiver::<T>::max_capacity ](rx: &Receiver<T>) -> (r: usize);

/// `Context::waker` hands out the waker of the task being polled.
pub assume_specification<'a>[ Context::<'a>::waker ](cx: &Context<'a>) -> (r: &'a Waker);

/// `Waker::wake_by_ref` asks the executor to poll the task again.
pub assume_specification[ Waker::wake_by_ref ](waker: &Waker);

/// `Sender::send`, called but not awaited, returns the future of sending
/// `value`. Awaited, that future suspends while the channel is full and
/// resolves to `Ok` once the value is in the channel, or to an error once
/// the receiver is gone. Which of the two depends on the other tasks; what
/// is assumed is that the error, if that is what the future resolves to,
/// holds the very value that was passed in.
pub assume_specification<'a, T>[ Sender::<T>::send ](tx: &'a Sender<T>, value: T) -> (r: impl Future<
    Output = Result<(), SendError<T>>,
> + use<'a, T>)
    ensures
        r@ matches Err(unsent) ==> unsent.0 == value,
;

/// `Handle::try_current` returns a handle on the runtime that the calling
/// thread is inside of, or an error if it is inside of none. It never
/// panics. Which of the two comes depends on the thread, so nothing is
/// assumed of it.
pub assume_specification[ tokio::runtime::Handle::try_current ]() -> (r: Result<
    tokio::runtime::Handle,
    tokio::runtime::TryCurrentError,
>);

/// A call of `Handle::try_current` found the calling thread inside of no
/// runtime.
pub open spec fn no_runtime() -> bool {
    exists|error: tokio::runtime::TryCurrentError|
        #[trigger] call_ensures(
            tokio::runtime::Handle::try_current,
            (),
            Err::<tokio::runtime::Handle, tokio::runtime::TryCurrentError>(error),
        )
}

/// `Handle::spawn` on the future that `core::future::poll_fn` makes of
/// [`Actor::poll`]: from now on the runtime polls the mailbox task until it
/// reports `Ready`, and then drops it. What the task reports, `Ok` or the
/// protocol violation, is what the join handle resolves to; the join handle
/// is handed back. `Handle::spawn` takes any future on any runtime and does
/// not panic. Nothing is assumed of the join handle.
#[verifier::external_body]
fn spawn_mailbox<M, S>(runtime: &tokio::runtime::Handle, actor: Actor<M, S>) -> (r: JoinHandle<
    Result<(), ProtocolViolation>,
>) where M: Send + 'static, S: ActorState<Message = M> + Send + 'static {
    let mut actor = actor;
    runtime.spawn(core::future::poll_fn(move |cx| actor.poll(cx)))
}

/// The mailbox task `actor` has been given to a runtime, and `join` is the
/// join handle of it: one call was made that spawned the task, as it was
/// at that moment, to be polled by [`Actor::poll`] until it terminates.
pub closed spec fn spawned<M, S>(
    actor: Actor<M, S>,
    join: JoinHandle<Result<(), ProtocolViolation>>,
) -> bool where M: Send + 'static, S: ActorState<Message = M> + Send + 'static {
    exists|runtime: tokio::runtime::Handle| #[trigger]
        call_ensures(spawn_mailbox::<M, S>, (&runtime, actor), join)
}

/// Gives the mailbox task to the runtime that the calling thread is inside
/// of and returns the join handle of the task. On a thread that is inside
/// of no runtime nothing is spawned: the task is dropped, and with it its
/// state and its receivers.
pub(crate) fn launch<M, S>(actor: Actor<M, S>) -> (r: Option<
    JoinHandle<Result<(), ProtocolViolation>>,
>) where M: Send + 'static, S: ActorState<Message = M> + Send + 'static
    ensures
        r matches Some(join) ==> spawned(actor, join),
        r is None ==> no_runtime(),
{
    match tokio::runtime::Handle::try_current() {
        Ok(runtime) => Some(spawn_mailbox(&runtime, actor)),
        Err(_) => None,
    }
}

} // verus!
