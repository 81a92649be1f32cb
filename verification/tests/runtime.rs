use std::future::{poll_fn, Future};
use std::pin::Pin;
use std::sync::atomic::{AtomicBool, Ordering};
use std::sync::Arc;
use std::time::Duration;

use tokio::sync::mpsc::error::SendError;
use tokio::sync::oneshot;
use vanilla_tokio_actor::{
    Actor, ActorHandle, ActorHandleWeak, ActorState, ActorStateAsync, ConfigError, Rejected,
    ShutdownPolicy, Step, MAX_CAPACITY,
};

struct EmptyState;

impl ActorState for EmptyState {
    type Message = ();

    fn handle_message(&mut self, _msg: Self::Message) {}
}

enum CounterMessage {
    GetUniqueId { respond_to: oneshot::Sender<u32> },
}

struct CounterState {
    unique_id: u32,
}

impl ActorState for CounterState {
    type Message = CounterMessage;

    fn handle_message(&mut self, msg: Self::Message) {
        match msg {
            CounterMessage::GetUniqueId { respond_to } => {
                let id = self.unique_id;
                self.unique_id += 1;
                let _ = respond_to.send(id);
            }
        }
    }
}

async fn get_unique_id(handle: &ActorHandle<CounterMessage>) -> u32 {
    let (send, recv) = oneshot::channel();
    let _ = handle
        .ask(CounterMessage::GetUniqueId { respond_to: send })
        .await;
    recv.await.unwrap()
}

enum LogMessage {
    Record(usize, u32),
    Report(oneshot::Sender<Vec<(usize, u32)>>),
}

struct LogState {
    log: Vec<(usize, u32)>,
    dropped: Arc<AtomicBool>,
}

impl LogState {
    fn new() -> (Self, Arc<AtomicBool>) {
        let dropped = Arc::new(AtomicBool::new(false));
        (LogState { log: Vec::new(), dropped: dropped.clone() }, dropped)
    }
}

impl Drop for LogState {
    fn drop(&mut self) {
        self.dropped.store(true, Ordering::SeqCst);
    }
}

impl ActorState for LogState {
    type Message = LogMessage;

    fn handle_message(&mut self, msg: Self::Message) {
        match msg {
            LogMessage::Record(who, seq) => self.log.push((who, seq)),
            LogMessage::Report(respond_to) => {
                let _ = respond_to.send(self.log.clone());
            }
        }
    }
}

fn current_thread() -> tokio::runtime::Runtime {
    tokio::runtime::Builder::new_current_thread()
        .enable_time()
        .build()
        .unwrap()
}

fn multi_thread() -> tokio::runtime::Runtime {
    tokio::runtime::Builder::new_multi_thread()
        .worker_threads(4)
        .enable_time()
        .build()
        .unwrap()
}

#[test]
fn weak() {
    current_thread().block_on(async {
        let handle = ActorHandle::new(EmptyState, 1);
        let weak = handle.downgrade();
        handle.ask(()).await.unwrap();
        weak.ask(()).await.unwrap();
        handle.ask(()).await.unwrap();
        weak.ask(()).await.unwrap();
        drop(handle);
        assert!(weak.ask(()).await.is_err());
    });
}

#[test]
fn weak_on_a_multi_thread_runtime() {
    multi_thread().block_on(async {
        let (handle, join) =
            ActorHandle::spawn(EmptyState, 1, ShutdownPolicy::KeepAlive).unwrap();
        let weak = handle.downgrade();
        handle.ask(()).await.unwrap();
        weak.ask(()).await.unwrap();
        handle.ask(()).await.unwrap();
        weak.ask(()).await.unwrap();
        drop(handle);
        assert_eq!(join.await.unwrap(), Ok(()));
        assert!(weak.ask(()).await.is_err());
    });
}

#[test]
fn spawn_hands_out_a_join_handle_that_resolves_when_the_task_ends() {
    current_thread().block_on(async {
        let (state, dropped) = LogState::new();
        let (handle, join) = ActorHandle::spawn(state, 2, ShutdownPolicy::KeepAlive).unwrap();
        let weak = handle.downgrade();
        handle.ask(LogMessage::Record(0, 0)).await.unwrap();
        let (send, recv) = oneshot::channel();
        handle.ask(LogMessage::Report(send)).await.unwrap();
        assert_eq!(recv.await.unwrap(), vec![(0, 0)]);
        assert!(!join.is_finished());
        drop(handle);
        assert_eq!(join.await.unwrap(), Ok(()));
        assert!(dropped.load(Ordering::SeqCst));
        assert!(weak.ask(LogMessage::Record(0, 1)).await.is_err());
    });
}

#[test]
fn spawn_under_the_mailbox_closed_policy_ends_when_every_handle_is_gone() {
    current_thread().block_on(async {
        let (state, _dropped) = LogState::new();
        let (handle, join) =
            ActorHandle::spawn(state, 2, ShutdownPolicy::MailboxClosed).unwrap();
        let weak = handle.downgrade();
        drop(handle);
        weak.ask(LogMessage::Record(1, 1)).await.unwrap();
        let (send, recv) = oneshot::channel();
        weak.ask(LogMessage::Report(send)).await.unwrap();
        assert_eq!(recv.await.unwrap(), vec![(1, 1)]);
        drop(weak);
        assert_eq!(join.await.unwrap(), Ok(()));
    });
}

#[test]
fn spawn_refuses_a_capacity_of_zero() {
    let refused = current_thread().block_on(async {
        ActorHandle::spawn(EmptyState, 0, ShutdownPolicy::KeepAlive)
    });
    assert_eq!(refused.err(), Some(ConfigError::ZeroCapacity));
}

#[test]
fn spawn_refuses_a_capacity_that_is_too_large() {
    let refused = current_thread().block_on(async {
        ActorHandle::spawn(EmptyState, MAX_CAPACITY + 1, ShutdownPolicy::KeepAlive)
    });
    assert_eq!(refused.err(), Some(ConfigError::CapacityTooLarge));
}

#[test]
fn spawn_reports_a_thread_without_a_runtime() {
    let refused = ActorHandle::spawn(EmptyState, 1, ShutdownPolicy::KeepAlive);
    assert_eq!(refused.err(), Some(ConfigError::NoRuntime));
}

#[test]
fn try_new_reports_a_thread_without_a_runtime() {
    let refused = ActorHandle::try_new(EmptyState, 1);
    assert_eq!(refused.err(), Some(ConfigError::NoRuntime));
}

#[test]
fn try_new_looks_at_the_capacity_before_the_runtime() {
    let refused = ActorHandle::try_new(EmptyState, 0);
    assert_eq!(refused.err(), Some(ConfigError::ZeroCapacity));
}

#[test]
fn new_without_a_runtime_gives_a_handle_to_a_terminated_actor() {
    let (state, dropped) = LogState::new();
    let handle = ActorHandle::new(state, 4);
    assert!(dropped.load(Ordering::SeqCst));
    let weak = handle.downgrade();
    assert!(matches!(
        handle.try_ask(LogMessage::Record(1, 2)),
        Err(Rejected::Closed(LogMessage::Record(1, 2)))
    ));
    assert!(matches!(
        weak.try_ask(LogMessage::Record(3, 4)),
        Err(Rejected::Closed(LogMessage::Record(3, 4)))
    ));
    let result = current_thread().block_on(handle.ask(LogMessage::Record(5, 6)));
    assert!(matches!(result, Err(SendError(LogMessage::Record(5, 6)))));
}

#[test]
fn with_policy_without_a_runtime_gives_a_handle_to_a_terminated_actor() {
    let (state, dropped) = LogState::new();
    let handle = ActorHandle::with_policy(state, 4, ShutdownPolicy::MailboxClosed);
    assert!(dropped.load(Ordering::SeqCst));
    assert!(matches!(
        handle.try_ask(LogMessage::Record(1, 2)),
        Err(Rejected::Closed(LogMessage::Record(1, 2)))
    ));
}

#[test]
fn counter_round_trips_are_gap_free_across_tasks() {
    multi_thread().block_on(async {
        let handle = ActorHandle::new(CounterState { unique_id: 0 }, 8);
        assert_eq!(get_unique_id(&handle).await, 0);
        assert_eq!(get_unique_id(&handle).await, 1);
        assert_eq!(get_unique_id(&handle).await, 2);
        let other = tokio::spawn({
            let handle = handle.clone();
            async move { get_unique_id(&handle).await }
        });
        assert_eq!(other.await.unwrap(), 3);
        assert_eq!(get_unique_id(&handle).await, 4);
    });
}

#[test]
fn one_caller_is_served_in_the_order_of_its_calls() {
    current_thread().block_on(async {
        let (state, _dropped) = LogState::new();
        let handle = ActorHandle::new(state, 3);
        for seq in 0..100u32 {
            handle.ask(LogMessage::Record(0, seq)).await.unwrap();
        }
        let (send, recv) = oneshot::channel();
        handle.ask(LogMessage::Report(send)).await.unwrap();
        let log = recv.await.unwrap();
        let expected: Vec<(usize, u32)> = (0..100u32).map(|seq| (0, seq)).collect();
        assert_eq!(log, expected);
    });
}

#[test]
fn concurrent_callers_on_a_mailbox_of_one_lose_and_repeat_nothing() {
    multi_thread().block_on(async {
        let (state, _dropped) = LogState::new();
        let handle = ActorHandle::new(state, 1);
        let mut callers = Vec::new();
        for who in 0..8usize {
            let weak = handle.downgrade();
            callers.push(tokio::spawn(async move {
                for seq in 0..50u32 {
                    weak.ask(LogMessage::Record(who, seq)).await.unwrap();
                }
            }));
        }
        for caller in callers {
            caller.await.unwrap();
        }
        let (send, recv) = oneshot::channel();
        handle.ask(LogMessage::Report(send)).await.unwrap();
        let log = recv.await.unwrap();
        assert_eq!(log.len(), 400);
        for who in 0..8usize {
            let of_caller: Vec<u32> = log
                .iter()
                .filter(|entry| entry.0 == who)
                .map(|entry| entry.1)
                .collect();
            let expected: Vec<u32> = (0..50u32).collect();
            assert_eq!(of_caller, expected);
        }
    });
}

#[test]
fn ask_hands_the_message_back_once_the_task_is_gone() {
    current_thread().block_on(async {
        let (state, dropped) = LogState::new();
        let handle = ActorHandle::new(state, 1);
        let weak = handle.downgrade();
        weak.ask(LogMessage::Record(1, 1)).await.unwrap();
        drop(handle);
        let result = weak.ask(LogMessage::Record(7, 42)).await;
        match result {
            Err(SendError(LogMessage::Record(who, seq))) => {
                assert_eq!((who, seq), (7, 42));
            }
            _ => panic!("the enqueue should have failed with the message"),
        }
        assert!(dropped.load(Ordering::SeqCst));
        let again = weak.ask(LogMessage::Record(8, 43)).await;
        assert!(matches!(again, Err(SendError(LogMessage::Record(8, 43)))));
    });
}

#[test]
fn strong_handle_ask_hands_the_message_back_once_the_task_is_gone() {
    let (handle, actor) =
        ActorHandle::<u32>::wire(CounterState { unique_id: 0 }, 2, ShutdownPolicy::KeepAlive);
    drop(actor);
    let result = current_thread().block_on(handle.ask(17));
    assert_eq!(result, Err(SendError(17)));
}

#[test]
fn dropping_the_last_strong_handle_stops_the_task_despite_weak_handles() {
    current_thread().block_on(async {
        let (state, dropped) = LogState::new();
        let handle = ActorHandle::new(state, 8);
        let second = handle.clone();
        let weak = handle.downgrade();
        let weak2 = weak.clone();
        weak.ask(LogMessage::Record(0, 0)).await.unwrap();
        drop(handle);
        tokio::time::sleep(Duration::from_millis(20)).await;
        assert!(!dropped.load(Ordering::SeqCst));
        weak2.ask(LogMessage::Record(0, 1)).await.unwrap();
        drop(second);
        tokio::time::sleep(Duration::from_millis(20)).await;
        assert!(dropped.load(Ordering::SeqCst));
        assert!(weak.ask(LogMessage::Record(0, 2)).await.is_err());
        assert!(weak2.ask(LogMessage::Record(0, 3)).await.is_err());
    });
}

#[test]
fn a_reply_wait_fails_instead_of_hanging_when_no_reply_will_come() {
    current_thread().block_on(async {
        let handle = ActorHandle::new(CounterState { unique_id: 0 }, 8);
        let weak = handle.downgrade();
        let (send, recv) = oneshot::channel();
        weak.ask(CounterMessage::GetUniqueId { respond_to: send })
            .await
            .unwrap();
        drop(handle);
        assert!(recv.await.is_err());
        let (send, recv) = oneshot::channel();
        let refused = weak.ask(CounterMessage::GetUniqueId { respond_to: send }).await;
        assert!(refused.is_err());
        drop(refused);
        assert!(recv.await.is_err());
    });
}

#[test]
fn try_new_refuses_a_capacity_of_zero_before_anything_runs() {
    let refused = ActorHandle::try_new(EmptyState, 0);
    assert_eq!(refused.err(), Some(ConfigError::ZeroCapacity));
}

#[test]
fn try_new_refuses_a_capacity_that_is_too_large() {
    let refused = ActorHandle::try_new(EmptyState, MAX_CAPACITY + 1);
    assert_eq!(refused.err(), Some(ConfigError::CapacityTooLarge));
}

#[test]
fn try_new_spawns_for_a_capacity_of_one() {
    current_thread().block_on(async {
        let handle = ActorHandle::try_new(CounterState { unique_id: 5 }, 1).unwrap();
        assert_eq!(get_unique_id(&handle).await, 5);
        assert_eq!(get_unique_id(&handle).await, 6);
    });
}

#[test]
fn mailbox_closed_policy_lets_weak_handles_keep_the_task_running() {
    current_thread().block_on(async {
        let (state, dropped) = LogState::new();
        let handle = ActorHandle::with_policy(state, 2, ShutdownPolicy::MailboxClosed);
        let weak: ActorHandleWeak<LogMessage> = handle.downgrade();
        drop(handle);
        tokio::time::sleep(Duration::from_millis(20)).await;
        assert!(!dropped.load(Ordering::SeqCst));
        weak.ask(LogMessage::Record(3, 1)).await.unwrap();
        weak.ask(LogMessage::Record(3, 2)).await.unwrap();
        let (send, recv) = oneshot::channel();
        weak.ask(LogMessage::Report(send)).await.unwrap();
        assert_eq!(recv.await.unwrap(), vec![(3, 1), (3, 2)]);
        drop(weak);
        tokio::time::sleep(Duration::from_millis(20)).await;
        assert!(dropped.load(Ordering::SeqCst));
    });
}

#[test]
fn with_policy_keep_alive_behaves_as_new() {
    current_thread().block_on(async {
        let handle = ActorHandle::with_policy(EmptyState, 1, ShutdownPolicy::KeepAlive);
        let weak = handle.downgrade();
        handle.ask(()).await.unwrap();
        weak.ask(()).await.unwrap();
        drop(handle);
        assert!(weak.ask(()).await.is_err());
    });
}

struct SlowCounter {
    next: u32,
}

impl ActorStateAsync for SlowCounter {
    type Message = oneshot::Sender<u32>;
    type Handling<'a> = Pin<Box<dyn Future<Output = ()> + Send + 'a>>;

    fn handle_message<'a>(&'a mut self, msg: Self::Message) -> Self::Handling<'a> {
        Box::pin(async move {
            tokio::time::sleep(Duration::from_millis(1)).await;
            let id = self.next;
            self.next += 1;
            let _ = msg.send(id);
        })
    }
}

async fn drive<M, S>(mut actor: Actor<M, S>)
where
    S: ActorStateAsync<Message = M>,
{
    loop {
        match poll_fn(|cx| actor.poll_step(cx)).await {
            Step::Deliver(msg) => actor.state_mut().handle_message(msg).await,
            _ => break,
        }
    }
}

#[test]
fn a_suspending_state_is_driven_one_message_at_a_time() {
    multi_thread().block_on(async {
        let (handle, actor) =
            ActorHandle::wire(SlowCounter { next: 0 }, 4, ShutdownPolicy::KeepAlive);
        let task = tokio::spawn(drive(actor));
        let mut replies = Vec::new();
        for _ in 0..6 {
            let (send, recv) = oneshot::channel();
            handle.ask(send).await.unwrap();
            replies.push(recv);
        }
        let mut ids = Vec::new();
        for reply in replies {
            ids.push(reply.await.unwrap());
        }
        assert_eq!(ids, vec![0, 1, 2, 3, 4, 5]);
        let weak = handle.downgrade();
        drop(handle);
        task.await.unwrap();
        let (send, _recv) = oneshot::channel();
        assert!(weak.ask(send).await.is_err());
    });
}
