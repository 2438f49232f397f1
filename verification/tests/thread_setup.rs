use codex_bridge::thread_setup::bridge::ThreadSetupBridge;
use codex_bridge::thread_setup::protocol::is_valid_client_thread_id;
use codex_bridge::thread_setup::protocol::is_valid_identifier;
use codex_bridge::thread_setup::protocol::is_valid_resolved_id;
use codex_bridge::thread_setup::protocol::ThreadSetupFailureCode;
use codex_bridge::thread_setup::protocol::ThreadSetupStatus;
use codex_bridge::thread_setup::protocol::ThreadSetupStatusError;
use codex_bridge::thread_setup::protocol::ThreadSetupStatusReadParams;
use codex_bridge::thread_setup::registry::ConnectionId;
use codex_bridge::thread_setup::registry::ThreadSetupStatusHandle;
use codex_bridge::thread_setup::registry::ThreadSetupStatusRegistry;
use codex_bridge::thread_setup::registry::ThreadSetupSubscription;
use codex_bridge::thread_setup::waiting::WaitEvent;
use codex_bridge::thread_setup::waiting::WaitStep;
use std::sync::Arc;
use std::sync::Mutex;
use std::time::Duration;
use tokio::sync::Barrier;

const OWNER: ConnectionId = ConnectionId(1);
const OTHER_OWNER: ConnectionId = ConnectionId(2);

/// One millisecond.
const MS: u128 = 1_000_000;

/// One minute.
const MINUTE: u128 = 60_000 * MS;

fn ready(thread_id: &str, host_id: &str) -> ThreadSetupStatus {
    ThreadSetupStatus::Ready {
        thread_id: thread_id.to_string(),
        host_id: host_id.to_string(),
    }
}

/// Looks at the status that a waiter's channel shows.
fn look(
    handle: &ThreadSetupStatusHandle,
    registry: &mut ThreadSetupStatusRegistry,
    now_ns: u128,
    id: &str,
    subscription: &ThreadSetupSubscription,
) -> WaitStep {
    let step = handle.wait_look(registry, id, &subscription.receiver);
    let status = subscription.receiver.borrow().clone();
    assert_eq!(
        handle.wait_step(registry, now_ns, id, WaitEvent::Observed { status }),
        step
    );
    step
}

#[test]
fn bridge_exposes_pending_ready_failed_lifecycle_and_preserves_connection_scope() {
    let mut registry = ThreadSetupStatusRegistry::new();
    let owner = ThreadSetupBridge::from(registry.handle_for(OWNER));
    let other_owner = ThreadSetupBridge::from(registry.handle_for(OTHER_OWNER));

    owner.register_pending(&mut registry, 0, "client-thread-bridge").unwrap();
    assert_eq!(
        owner.read(&mut registry, 1, "client-thread-bridge"),
        Ok(ThreadSetupStatus::Pending)
    );
    assert_eq!(
        other_owner.read(&mut registry, 2, "client-thread-bridge"),
        Err(ThreadSetupStatusError::AccessDenied)
    );

    owner
        .mark_ready(&mut registry, 3, "client-thread-bridge", "thread-bridge", "host-bridge")
        .unwrap();
    assert_eq!(
        owner.read(&mut registry, 4, "client-thread-bridge"),
        Ok(ThreadSetupStatus::Ready {
            thread_id: "thread-bridge".to_string(),
            host_id: "host-bridge".to_string(),
        })
    );

    owner.register_pending(&mut registry, 5, "client-thread-failed").unwrap();
    owner
        .mark_failed(
            &mut registry,
            6,
            "client-thread-failed",
            ThreadSetupFailureCode::SetupFailed,
        )
        .unwrap();
    assert_eq!(
        owner.read(&mut registry, 7, "client-thread-failed"),
        Ok(ThreadSetupStatus::Failed {
            code: ThreadSetupFailureCode::SetupFailed,
        })
    );
}

#[test]
fn immediate_ready_status_is_resolvable() {
    let mut registry = ThreadSetupStatusRegistry::new();
    let handle = registry.handle_for(OWNER);

    handle.register(&mut registry, 0, "client-thread-1").unwrap();
    handle
        .complete_ready(&mut registry, 0, "client-thread-1", "thread-1", "host-1")
        .unwrap();

    assert_eq!(
        handle.get_thread_setup_status(&mut registry, 0, "client-thread-1"),
        Ok(ThreadSetupStatus::Ready {
            thread_id: "thread-1".to_string(),
            host_id: "host-1".to_string(),
        })
    );
}

#[test]
fn pending_then_ready_is_observed_without_polling_thread_list() {
    let mut registry = ThreadSetupStatusRegistry::new();
    let handle = registry.handle_for(OWNER);
    handle.register(&mut registry, 0, "client-thread-2").unwrap();

    let subscription = handle
        .begin_wait(&mut registry, 1, "client-thread-2", false)
        .unwrap();
    assert_eq!(
        look(&handle, &mut registry, 2, "client-thread-2", &subscription),
        WaitStep::Continue
    );
    handle
        .complete_ready(&mut registry, 3, "client-thread-2", "thread-2", "host-2")
        .unwrap();
    assert!(subscription.receiver.has_changed().unwrap());

    assert_eq!(
        look(&handle, &mut registry, 4, "client-thread-2", &subscription),
        WaitStep::Finished {
            answer: Ok(ThreadSetupStatus::Ready {
                thread_id: "thread-2".to_string(),
                host_id: "host-2".to_string(),
            })
        }
    );
}

#[test]
fn pending_then_failed_returns_only_sanitized_failure_code() {
    let mut registry = ThreadSetupStatusRegistry::new();
    let handle = registry.handle_for(OWNER);
    handle.register(&mut registry, 0, "client-thread-3").unwrap();

    let subscription = handle
        .begin_wait(&mut registry, 0, "client-thread-3", false)
        .unwrap();
    handle
        .complete_failed(
            &mut registry,
            0,
            "client-thread-3",
            ThreadSetupFailureCode::SetupFailed,
        )
        .unwrap();

    assert_eq!(
        look(&handle, &mut registry, 0, "client-thread-3", &subscription),
        WaitStep::Finished {
            answer: Ok(ThreadSetupStatus::Failed {
                code: ThreadSetupFailureCode::SetupFailed,
            })
        }
    );
}

#[test]
fn malformed_unknown_and_cross_owner_handles_do_not_resolve() {
    let mut registry = ThreadSetupStatusRegistry::new();
    let owner = registry.handle_for(OWNER);
    let other_owner = registry.handle_for(OTHER_OWNER);
    owner.register(&mut registry, 0, "client-thread-4").unwrap();

    assert_eq!(
        owner.get_thread_setup_status(&mut registry, 0, "not a valid handle"),
        Err(ThreadSetupStatusError::InvalidHandle)
    );
    assert_eq!(
        owner.get_thread_setup_status(&mut registry, 0, "client-thread-unknown"),
        Err(ThreadSetupStatusError::UnknownHandle)
    );
    assert_eq!(
        other_owner.get_thread_setup_status(&mut registry, 0, "client-thread-4"),
        Err(ThreadSetupStatusError::AccessDenied)
    );
    assert_eq!(
        other_owner.complete_failed(
            &mut registry,
            0,
            "client-thread-4",
            ThreadSetupFailureCode::Cancelled
        ),
        Err(ThreadSetupStatusError::AccessDenied)
    );
}

#[test]
fn repeated_reads_are_idempotent_and_repeated_completion_is_safe() {
    let mut registry = ThreadSetupStatusRegistry::new();
    let handle = registry.handle_for(OWNER);
    handle.register(&mut registry, 0, "client-thread-5").unwrap();
    handle
        .complete_ready(&mut registry, 0, "client-thread-5", "thread-5", "host-5")
        .unwrap();

    let first = handle
        .get_thread_setup_status(&mut registry, 1, "client-thread-5")
        .unwrap();
    let second = handle
        .get_thread_setup_status(&mut registry, 2, "client-thread-5")
        .unwrap();
    assert_eq!(first, second);
    assert_eq!(
        handle.complete_ready(&mut registry, 3, "client-thread-5", "thread-5", "host-5"),
        Ok(())
    );
    assert_eq!(
        handle.complete_failed(
            &mut registry,
            4,
            "client-thread-5",
            ThreadSetupFailureCode::Cancelled
        ),
        Err(ThreadSetupStatusError::AlreadyCompleted)
    );
}

#[test]
fn wait_has_bounded_timeout_and_explicit_cancellation() {
    let mut registry = ThreadSetupStatusRegistry::new();
    let handle = registry.handle_for(OWNER);
    handle.register(&mut registry, 0, "client-thread-timeout").unwrap();
    handle
        .begin_wait(&mut registry, 0, "client-thread-timeout", false)
        .unwrap();
    assert_eq!(
        handle.wait_step(&mut registry, 20 * MS, "client-thread-timeout", WaitEvent::TimedOut),
        WaitStep::Finished {
            answer: Err(ThreadSetupStatusError::TimedOut)
        }
    );

    handle
        .register(&mut registry, 20 * MS, "client-thread-cancel")
        .unwrap();
    handle
        .begin_wait(&mut registry, 20 * MS, "client-thread-cancel", false)
        .unwrap();
    assert_eq!(
        handle.wait_step(&mut registry, 25 * MS, "client-thread-cancel", WaitEvent::Cancelled),
        WaitStep::Finished {
            answer: Err(ThreadSetupStatusError::Cancelled)
        }
    );
}

#[test]
fn terminal_status_is_retained_then_explicitly_cleaned() {
    let mut registry = ThreadSetupStatusRegistry::new_with_durations(
        Duration::from_millis(50).as_nanos(),
        Duration::from_millis(30).as_nanos(),
    );
    let handle = registry.handle_for(OWNER);
    handle
        .register(&mut registry, 0, "client-thread-retained")
        .unwrap();
    handle
        .complete_ready(
            &mut registry,
            0,
            "client-thread-retained",
            "thread-retained",
            "host-retained",
        )
        .unwrap();

    assert!(handle
        .get_thread_setup_status(&mut registry, 5 * MS, "client-thread-retained")
        .is_ok());
    assert_eq!(handle.cleanup_expired(&mut registry, 45 * MS), 1);
    assert_eq!(
        handle.get_thread_setup_status(&mut registry, 45 * MS, "client-thread-retained"),
        Err(ThreadSetupStatusError::UnknownHandle)
    );
}

#[test]
fn concurrent_status_reads_and_completion_are_race_safe() {
    let runtime = tokio::runtime::Builder::new_multi_thread().build().unwrap();
    runtime.block_on(async {
        let registry = Arc::new(Mutex::new(ThreadSetupStatusRegistry::new()));
        let handle = registry.lock().unwrap().handle_for(OWNER);
        handle
            .register(&mut registry.lock().unwrap(), 0, "client-thread-race")
            .unwrap();
        let barrier = Arc::new(Barrier::new(33));
        let mut readers = Vec::new();
        for _ in 0..32 {
            let reader_registry = Arc::clone(&registry);
            let reader_barrier = Arc::clone(&barrier);
            readers.push(tokio::spawn(async move {
                reader_barrier.wait().await;
                let mut shared = reader_registry.lock().unwrap();
                handle.get_thread_setup_status(&mut shared, 1, "client-thread-race")
            }));
        }
        let completion_registry = Arc::clone(&registry);
        let completion_barrier = Arc::clone(&barrier);
        let completion = tokio::spawn(async move {
            completion_barrier.wait().await;
            let mut shared = completion_registry.lock().unwrap();
            handle.complete_ready(&mut shared, 1, "client-thread-race", "thread-race", "host-race")
        });

        for reader in readers {
            match reader.await.unwrap().unwrap() {
                ThreadSetupStatus::Pending | ThreadSetupStatus::Ready { .. } => {}
                ThreadSetupStatus::Failed { .. } => panic!("unexpected failed status"),
            }
        }
        completion.await.unwrap().unwrap();
        let mut shared = registry.lock().unwrap();
        assert_eq!(
            handle.get_thread_setup_status(&mut shared, 2, "client-thread-race"),
            Ok(ThreadSetupStatus::Ready {
                thread_id: "thread-race".to_string(),
                host_id: "host-race".to_string(),
            })
        );
    });
}

#[test]
fn closing_an_authority_cleans_all_of_its_handles() {
    let mut registry = ThreadSetupStatusRegistry::new();
    let handle = registry.handle_for(OWNER);
    handle.register(&mut registry, 0, "client-thread-closed").unwrap();
    registry.connection_closed(OWNER);

    assert_eq!(
        handle.get_thread_setup_status(&mut registry, 0, "client-thread-closed"),
        Err(ThreadSetupStatusError::UnknownHandle)
    );
}

#[test]
fn closing_an_authority_keeps_the_handles_of_others() {
    let mut registry = ThreadSetupStatusRegistry::new();
    let owner = registry.handle_for(OWNER);
    let other_owner = registry.handle_for(OTHER_OWNER);
    owner.register(&mut registry, 0, "a").unwrap();
    owner.register(&mut registry, 0, "b").unwrap();
    other_owner.register(&mut registry, 0, "c").unwrap();
    registry.connection_closed(OWNER);

    assert_eq!(
        owner.get_thread_setup_status(&mut registry, 0, "b"),
        Err(ThreadSetupStatusError::UnknownHandle)
    );
    assert_eq!(
        other_owner.get_thread_setup_status(&mut registry, 0, "c"),
        Ok(ThreadSetupStatus::Pending)
    );
}

#[test]
fn registering_again_is_idempotent_and_nobody_else_may() {
    let mut registry = ThreadSetupStatusRegistry::new();
    let owner = registry.handle_for(OWNER);
    let other_owner = registry.handle_for(OTHER_OWNER);
    assert_eq!(owner.register(&mut registry, 0, "shared"), Ok(()));
    owner
        .complete_ready(&mut registry, 1, "shared", "t", "h")
        .unwrap();
    assert_eq!(owner.register(&mut registry, 2, "shared"), Ok(()));
    assert_eq!(
        owner.get_thread_setup_status(&mut registry, 3, "shared"),
        Ok(ready("t", "h"))
    );
    assert_eq!(
        other_owner.register(&mut registry, 4, "shared"),
        Err(ThreadSetupStatusError::AccessDenied)
    );
    assert_eq!(
        owner.register(&mut registry, 5, ""),
        Err(ThreadSetupStatusError::InvalidHandle)
    );
}

#[test]
fn pending_handles_live_ten_minutes_and_terminal_ones_five() {
    let mut registry = ThreadSetupStatusRegistry::new();
    let handle = registry.handle_for(OWNER);
    handle.register(&mut registry, 7, "a").unwrap();
    assert_eq!(
        handle.get_thread_setup_status(&mut registry, 10 * MINUTE + 6, "a"),
        Ok(ThreadSetupStatus::Pending)
    );
    assert_eq!(
        handle.get_thread_setup_status(&mut registry, 10 * MINUTE + 7, "a"),
        Err(ThreadSetupStatusError::UnknownHandle)
    );

    handle.register(&mut registry, 11 * MINUTE, "b").unwrap();
    handle
        .complete_failed(&mut registry, 12 * MINUTE, "b", ThreadSetupFailureCode::TimedOut)
        .unwrap();
    assert_eq!(handle.cleanup_expired(&mut registry, 17 * MINUTE - 1), 0);
    assert_eq!(handle.cleanup_expired(&mut registry, 17 * MINUTE), 1);
}

#[test]
fn cleaning_up_is_scoped_to_the_connection() {
    let mut registry = ThreadSetupStatusRegistry::new_with_durations(10, 10);
    let owner = registry.handle_for(OWNER);
    let other_owner = ThreadSetupBridge::from(registry.handle_for(OTHER_OWNER));
    owner.register(&mut registry, 0, "a").unwrap();
    other_owner.register_pending(&mut registry, 0, "b").unwrap();
    other_owner.register_pending(&mut registry, 5, "c").unwrap();

    assert_eq!(owner.cleanup_expired(&mut registry, 10), 1);
    assert_eq!(owner.cleanup_expired(&mut registry, 10), 0);
    assert_eq!(other_owner.cleanup_expired(&mut registry, 10), 1);
    assert_eq!(registry.purge_expired(15, None), 1);
    assert_eq!(registry.purge_expired(15, None), 0);
}

#[test]
fn malformed_completions_are_refused() {
    let mut registry = ThreadSetupStatusRegistry::new();
    let handle = registry.handle_for(OWNER);
    handle.register(&mut registry, 0, "a").unwrap();
    assert_eq!(
        handle.complete_ready(&mut registry, 0, "a", "not valid", "h"),
        Err(ThreadSetupStatusError::InvalidValue)
    );
    assert_eq!(
        handle.complete_ready(&mut registry, 0, "a", "t", ""),
        Err(ThreadSetupStatusError::InvalidValue)
    );
    assert_eq!(
        handle.complete_ready(&mut registry, 0, "not valid", "not valid", "h"),
        Err(ThreadSetupStatusError::InvalidValue)
    );
    assert_eq!(
        handle.complete_ready(&mut registry, 0, "not valid", "t", "h"),
        Err(ThreadSetupStatusError::InvalidHandle)
    );
    assert_eq!(
        handle.complete_ready(&mut registry, 0, "b", "t", "h"),
        Err(ThreadSetupStatusError::UnknownHandle)
    );
    assert_eq!(
        handle.get_thread_setup_status(&mut registry, 0, "a"),
        Ok(ThreadSetupStatus::Pending)
    );
}

#[test]
fn waits_begin_only_on_handles_that_can_be_read() {
    let mut registry = ThreadSetupStatusRegistry::new();
    let owner = ThreadSetupBridge::from(registry.handle_for(OWNER));
    let other_owner = registry.handle_for(OTHER_OWNER);
    owner.register_pending(&mut registry, 3, "a").unwrap();

    assert_eq!(
        owner.begin_wait(&mut registry, 3, "not valid", true).err(),
        Some(ThreadSetupStatusError::Cancelled)
    );
    assert_eq!(
        owner.begin_wait(&mut registry, 3, "not valid", false).err(),
        Some(ThreadSetupStatusError::InvalidHandle)
    );
    assert_eq!(
        owner.begin_wait(&mut registry, 3, "b", false).err(),
        Some(ThreadSetupStatusError::UnknownHandle)
    );
    assert_eq!(
        other_owner.begin_wait(&mut registry, 3, "a", false).err(),
        Some(ThreadSetupStatusError::AccessDenied)
    );
    let subscription = owner.begin_wait(&mut registry, 3, "a", false).unwrap();
    assert_eq!(subscription.expires_at_ns, 10 * MINUTE + 3);
    assert_eq!(*subscription.receiver.borrow(), ThreadSetupStatus::Pending);
}

#[test]
fn a_late_waiter_sees_the_terminal_status_at_once() {
    let mut registry = ThreadSetupStatusRegistry::new();
    let handle = registry.handle_for(OWNER);
    handle.register(&mut registry, 0, "a").unwrap();
    handle.complete_ready(&mut registry, 0, "a", "t", "h").unwrap();
    let subscription = handle.begin_wait(&mut registry, 1, "a", false).unwrap();
    assert_eq!(*subscription.receiver.borrow(), ready("t", "h"));
    assert_eq!(
        look(&handle, &mut registry, 1, "a", &subscription),
        WaitStep::Finished { answer: Ok(ready("t", "h")) }
    );
}

#[test]
fn a_terminal_status_wins_over_the_end_of_a_wait() {
    let mut registry = ThreadSetupStatusRegistry::new();
    let owner = ThreadSetupBridge::from(registry.handle_for(OWNER));
    owner.register_pending(&mut registry, 0, "a").unwrap();
    owner
        .mark_failed(&mut registry, 0, "a", ThreadSetupFailureCode::Cancelled)
        .unwrap();
    for event in [WaitEvent::TimedOut, WaitEvent::Cancelled, WaitEvent::Expired] {
        assert_eq!(
            owner.wait_step(&mut registry, 1, "a", event),
            WaitStep::Finished {
                answer: Ok(ThreadSetupStatus::Failed { code: ThreadSetupFailureCode::Cancelled })
            }
        );
    }
}

#[test]
fn waits_end_when_the_handle_is_gone() {
    let mut registry = ThreadSetupStatusRegistry::new_with_durations(10, 10);
    let handle = registry.handle_for(OWNER);
    let gone = || WaitStep::Finished { answer: Err(ThreadSetupStatusError::UnknownHandle) };
    handle.register(&mut registry, 0, "a").unwrap();
    let subscription = handle.begin_wait(&mut registry, 0, "a", false).unwrap();

    assert_eq!(handle.wait_step(&mut registry, 5, "a", WaitEvent::Expired), gone());
    assert_eq!(handle.wait_step(&mut registry, 10, "a", WaitEvent::TimedOut), gone());
    assert!(subscription.receiver.has_changed().is_err());
    assert_eq!(handle.wait_step(&mut registry, 10, "a", WaitEvent::ChannelClosed), gone());
    assert_eq!(
        handle.wait_step(&mut registry, 10, "not valid", WaitEvent::Cancelled),
        WaitStep::Finished { answer: Err(ThreadSetupStatusError::InvalidHandle) }
    );
}

#[test]
fn identifiers_are_bounded_and_plain() {
    assert!(is_valid_client_thread_id("aZ09-_.~:"));
    assert!(!is_valid_client_thread_id(""));
    assert!(!is_valid_client_thread_id("a b"));
    assert!(!is_valid_client_thread_id("a/b"));
    assert!(!is_valid_client_thread_id("\u{e9}"));
    assert!(is_valid_client_thread_id(&"x".repeat(128)));
    assert!(!is_valid_client_thread_id(&"x".repeat(129)));
    assert!(is_valid_resolved_id(&"x".repeat(256)));
    assert!(!is_valid_resolved_id(&"x".repeat(257)));
    assert!(is_valid_identifier("xx", 2));
    assert!(!is_valid_identifier("xxx", 2));
    assert!(!is_valid_identifier("x", 0));
}

#[test]
fn errors_have_words() {
    let words = [
        (ThreadSetupStatusError::InvalidHandle, "invalid thread setup handle"),
        (ThreadSetupStatusError::UnknownHandle, "unknown thread setup handle"),
        (ThreadSetupStatusError::AccessDenied, "thread setup handle access denied"),
        (ThreadSetupStatusError::AlreadyCompleted, "thread setup already completed"),
        (ThreadSetupStatusError::InvalidValue, "invalid thread setup value"),
        (ThreadSetupStatusError::TimedOut, "thread setup wait timed out"),
        (ThreadSetupStatusError::Cancelled, "thread setup wait cancelled"),
    ];
    for (error, message) in words {
        assert_eq!(error.message(), message);
    }
}

#[test]
fn read_parameters_are_values() {
    let params = ThreadSetupStatusReadParams { client_thread_id: "a".to_string() };
    assert_eq!(params.clone(), params);
    assert!(ready("t", "h").clone().same_as(&ready("t", "h")));
    assert!(!ready("t", "h").same_as(&ready("t", "i")));
    assert!(!ThreadSetupStatus::Pending.same_as(&ready("t", "h")));
}

#[test]
fn waiters_keep_their_channel_through_other_uses() {
    let mut registry = ThreadSetupStatusRegistry::new_with_durations(100, 100);
    let owner = ThreadSetupBridge::from(registry.handle_for(OWNER));
    let other_owner = registry.handle_for(OTHER_OWNER);
    other_owner.register(&mut registry, 0, "gone").unwrap();
    owner.register_pending(&mut registry, 50, "a").unwrap();
    owner.register_pending(&mut registry, 50, "b").unwrap();
    let waiting = owner.begin_wait(&mut registry, 60, "a", false).unwrap();
    let elsewhere = owner.begin_wait(&mut registry, 60, "b", false).unwrap();

    other_owner.register(&mut registry, 110, "c").unwrap();
    registry.connection_closed(OTHER_OWNER);
    owner.register_pending(&mut registry, 110, "a").unwrap();
    assert_eq!(owner.wait_look(&registry, "a", &waiting.receiver), WaitStep::Continue);
    owner.mark_ready(&mut registry, 120, "a", "t", "h").unwrap();

    assert_eq!(
        owner.wait_look(&registry, "a", &waiting.receiver),
        WaitStep::Finished { answer: Ok(ready("t", "h")) }
    );
    assert_eq!(owner.wait_look(&registry, "b", &elsewhere.receiver), WaitStep::Continue);
    assert!(waiting.receiver.has_changed().unwrap());
    assert!(!elsewhere.receiver.has_changed().unwrap());
}

#[test]
fn completed_handles_stay_completed() {
    let mut registry = ThreadSetupStatusRegistry::new_with_durations(100, 100);
    let owner = registry.handle_for(OWNER);
    let other_owner = registry.handle_for(OTHER_OWNER);
    owner.register(&mut registry, 0, "a").unwrap();
    owner.complete_ready(&mut registry, 1, "a", "t", "h").unwrap();
    let _ = owner.register(&mut registry, 2, "a");
    let _ = other_owner.register(&mut registry, 3, "a");
    let _ = owner.complete_failed(&mut registry, 4, "a", ThreadSetupFailureCode::Cancelled);
    let _ = other_owner.complete_ready(&mut registry, 5, "a", "x", "y");
    let _ = owner.complete_ready(&mut registry, 6, "a", "t", "h");
    owner.cleanup_expired(&mut registry, 7);
    assert_eq!(
        owner.get_thread_setup_status(&mut registry, 100, "a"),
        Ok(ready("t", "h"))
    );
    assert_eq!(
        owner.get_thread_setup_status(&mut registry, 101, "a"),
        Err(ThreadSetupStatusError::UnknownHandle)
    );
}

#[test]
fn completing_again_answers_by_the_status_held() {
    let mut registry = ThreadSetupStatusRegistry::new();
    let handle = registry.handle_for(OWNER);
    handle.register(&mut registry, 0, "a").unwrap();
    assert_eq!(handle.complete(&mut registry, 1, "a", ready("t", "h")), Ok(()));
    assert_eq!(handle.complete(&mut registry, 2, "a", ready("t", "h")), Ok(()));
    assert_eq!(
        handle.complete(&mut registry, 3, "a", ready("t", "other")),
        Err(ThreadSetupStatusError::AlreadyCompleted)
    );
    assert_eq!(
        handle.get_thread_setup_status(&mut registry, 5 * MINUTE, "a"),
        Ok(ready("t", "h"))
    );
    assert_eq!(
        handle.get_thread_setup_status(&mut registry, 5 * MINUTE + 1, "a"),
        Err(ThreadSetupStatusError::UnknownHandle)
    );
}

#[test]
fn times_at_the_end_of_the_clock_are_fine_where_nothing_is_added() {
    let mut registry = ThreadSetupStatusRegistry::new_with_durations(u128::MAX, 1);
    let handle = registry.handle_for(OWNER);
    handle.register(&mut registry, 0, "a").unwrap();
    assert_eq!(handle.register(&mut registry, u128::MAX - 1, "a"), Ok(()));
    assert_eq!(
        handle.register(&mut registry, u128::MAX, "not valid"),
        Err(ThreadSetupStatusError::InvalidHandle)
    );
}
