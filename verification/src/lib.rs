//! Actors on Tokio: a state owned by one background task, changed only by
//! the messages that the task takes from a bounded mailbox, one at a time,
//! and reached from outside through strong and weak handles.

pub mod actor;
pub mod channel;
pub mod handle;
pub mod model;
pub mod protocol;
pub mod state;

pub use actor::{Actor, ActorView, Round};
pub use handle::{
    check_capacity, rejection, ActorHandle, ActorHandleWeak, ConfigError, Rejected, MAX_CAPACITY,
};
pub use protocol::{
    liveness, mailbox_step, phase_after, Liveness, Phase, ProtocolViolation, ShutdownPolicy, Step,
};
pub use state::{ActorState, ActorStateAsync};
