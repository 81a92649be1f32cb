//! The two capabilities a state type can have to be driven by a mailbox
//! task: handling a message without suspending, or handling it with a future
//! that the task awaits before it takes the next message.

use core::future::Future;
use vstd::prelude::*;

verus! {

/// A state that handles each message to completion without suspending.
///
/// The mailbox task owns the state and is its only caller: it hands over one
/// message at a time, in the order in which the mailbox yields them. What a
/// message does to the state, and whether it answers through a reply channel
/// carried in the message, is up to the implementation.
pub trait ActorState {
    /// The messages this state understands.
    type Message;

    /// Consumes one message.
    fn handle_message(&mut self, msg: Self::Message);
}

/// A state that may suspend while it handles a message.
///
/// `handle_message` returns the future of handling `msg`. The mailbox task
/// awaits that future to its end before it looks at its channels again, so
/// messages are still handled strictly one after the other.
pub trait ActorStateAsync {
    /// The messages this state understands.
    type Message;

    /// The future of handling one message. It borrows the state for as long
    /// as it lives.
    type Handling<'a>: Future<Output = ()> + Send where Self: 'a;

    /// Starts handling one message.
    fn handle_message<'a>(&'a mut self, msg: Self::Message) -> Self::Handling<'a>;
}

} // verus!
