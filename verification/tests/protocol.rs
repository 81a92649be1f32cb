use std::task::Poll;
use vanilla_tokio_actor::{
    check_capacity, liveness, mailbox_step, phase_after, rejection, ConfigError, Liveness, Phase,
    ProtocolViolation, Rejected, ShutdownPolicy, Step, MAX_CAPACITY,
};

use tokio::sync::mpsc::error::TrySendError;

#[test]
fn liveness_reads_each_report() {
    assert_eq!(liveness(Poll::Pending), Liveness::Held);
    assert_eq!(liveness(Poll::Ready(None)), Liveness::Released);
    assert_eq!(liveness(Poll::Ready(Some(()))), Liveness::Violated);
}

#[test]
fn mailbox_step_delivers_a_message_under_either_policy() {
    assert_eq!(
        mailbox_step(ShutdownPolicy::KeepAlive, Poll::Ready(Some(7u32))),
        Poll::Ready(Step::Deliver(7u32))
    );
    assert_eq!(
        mailbox_step(ShutdownPolicy::MailboxClosed, Poll::Ready(Some(8u32))),
        Poll::Ready(Step::Deliver(8u32))
    );
}

#[test]
fn mailbox_step_waits_on_an_empty_mailbox() {
    assert_eq!(
        mailbox_step::<u32>(ShutdownPolicy::KeepAlive, Poll::Pending),
        Poll::Pending
    );
    assert_eq!(
        mailbox_step::<u32>(ShutdownPolicy::MailboxClosed, Poll::Pending),
        Poll::Pending
    );
}

#[test]
fn mailbox_step_on_a_closed_mailbox_depends_on_the_policy() {
    assert_eq!(
        mailbox_step::<u32>(ShutdownPolicy::KeepAlive, Poll::Ready(None)),
        Poll::Pending
    );
    assert_eq!(
        mailbox_step::<u32>(ShutdownPolicy::MailboxClosed, Poll::Ready(None)),
        Poll::Ready(Step::Stop)
    );
}

#[test]
fn phase_after_each_step() {
    assert_eq!(phase_after::<u32>(&Poll::Pending), Phase::Running);
    assert_eq!(
        phase_after(&Poll::Ready(Step::Deliver(1u32))),
        Phase::Running
    );
    assert_eq!(
        phase_after::<u32>(&Poll::Ready(Step::Stop)),
        Phase::Terminated
    );
    assert_eq!(
        phase_after::<u32>(&Poll::Ready(Step::Abort)),
        Phase::Terminated
    );
}

#[test]
fn protocol_violation_has_its_text() {
    assert_eq!(
        ProtocolViolation.message(),
        "Actor keep alive channel should never receive a message"
    );
}

#[test]
fn capacity_zero_is_refused() {
    assert_eq!(check_capacity(0), Err(ConfigError::ZeroCapacity));
}

#[test]
fn capacity_bounds_are_exact() {
    assert_eq!(check_capacity(1), Ok(()));
    assert_eq!(check_capacity(8), Ok(()));
    assert_eq!(MAX_CAPACITY, usize::MAX / 8);
    assert_eq!(check_capacity(MAX_CAPACITY), Ok(()));
    assert_eq!(
        check_capacity(MAX_CAPACITY + 1),
        Err(ConfigError::CapacityTooLarge)
    );
    assert_eq!(
        check_capacity(usize::MAX),
        Err(ConfigError::CapacityTooLarge)
    );
}

#[test]
fn rejection_reads_each_send_result() {
    assert_eq!(rejection::<u32>(Ok(())), Ok(()));
    assert_eq!(
        rejection(Err(TrySendError::Full(5u32))),
        Err(Rejected::Full(5u32))
    );
    assert_eq!(
        rejection(Err(TrySendError::Closed(6u32))),
        Err(Rejected::Closed(6u32))
    );
}

#[test]
fn rejected_gives_the_message_back() {
    assert_eq!(Rejected::Full(String::from("a")).into_message(), "a");
    assert_eq!(Rejected::Closed(String::from("b")).into_message(), "b");
}
