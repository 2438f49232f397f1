//! The adapter through which embedders drive thread setup.

#[allow(unused_imports)]
use super::channel;
#[allow(unused_imports)]
use super::registry;
use super::protocol::ThreadSetupFailureCode;
use super::protocol::ThreadSetupStatus;
use super::protocol::ThreadSetupStatusError;
use super::protocol::ThreadSetupStatusView;
use super::registry::ConnectionId;
use super::registry::ThreadSetupEntryView;
use super::registry::ThreadSetupStatusHandle;
use super::registry::ThreadSetupStatusRegistry;
use super::registry::ThreadSetupSubscription;
#[allow(unused_imports)]
use super::waiting;
use super::waiting::WaitEvent;
use super::waiting::WaitStep;
use vstd::prelude::*;

verus! {

/// Host-facing adapter for asynchronous thread setup.
///
/// Desktop or other embedders should depend on this adapter instead of reaching
/// into the registry implementation. The adapter keeps the lifecycle explicit:
/// register a pending client handle, publish either a ready identity pair or a
/// sanitized failure code, and read the same connection-scoped state exposed by
/// `thread/setupStatus/read`.
#[derive(Debug, Clone, Copy)]
pub struct ThreadSetupBridge {
    handle: ThreadSetupStatusHandle,
}

impl From<ThreadSetupStatusHandle> for ThreadSetupBridge {
    fn from(handle: ThreadSetupStatusHandle) -> (bridge: Self) {
        ThreadSetupBridge { handle }
    }
}

impl vstd::std_specs::convert::FromSpecImpl<ThreadSetupStatusHandle> for ThreadSetupBridge {
    open spec fn obeys_from_spec() -> bool {
        true
    }

    closed spec fn from_spec(handle: ThreadSetupStatusHandle) -> Self {
        ThreadSetupBridge { handle }
    }
}

/// A bridge acts for the connection of the handle that it is made from.
pub proof fn law_bridge_keeps_connection(handle: ThreadSetupStatusHandle)
    ensures
        <ThreadSetupBridge as vstd::std_specs::convert::FromSpec<
            ThreadSetupStatusHandle,
        >>::from_spec(handle).authority() == handle.authority(),
{
}

impl ThreadSetupBridge {
    /// The connection that the bridge acts for.
    pub closed spec fn authority(&self) -> ConnectionId {
        self.handle.authority()
    }

    /// Registers a client-owned setup handle in the pending state.
    pub fn register_pending(
        &self,
        registry: &mut ThreadSetupStatusRegistry,
        now_ns: u128,
        client_thread_id: &str,
    ) -> (result: Result<(), ThreadSetupStatusError>)
        requires
            old(registry).wf(),
            old(registry)@.makes_pending(now_ns, client_thread_id@) ==> now_ns + old(
                registry,
            )@.pending_retention_ns <= u128::MAX,
        ensures
            final(registry).wf(),
            (final(registry)@, result) == old(registry)@.registered(
                self.authority(),
                now_ns,
                client_thread_id@,
            ),
            old(registry).keeps_watchers(
                *final(registry),
                old(registry)@.kept(now_ns, client_thread_id@).entries.dom(),
            ),
    {
        self.handle.register(registry, now_ns, client_thread_id)
    }

    /// Publishes the canonical thread and host identities for a successful setup.
    pub fn mark_ready(
        &self,
        registry: &mut ThreadSetupStatusRegistry,
        now_ns: u128,
        client_thread_id: &str,
        thread_id: &str,
        host_id: &str,
    ) -> (result: Result<(), ThreadSetupStatusError>)
        requires
            old(registry).wf(),
            old(registry)@.makes_terminal(self.authority(), now_ns, client_thread_id@) ==> now_ns
                + old(registry)@.terminal_retention_ns <= u128::MAX,
        ensures
            final(registry).wf(),
            (final(registry)@, result) == old(registry)@.completed_ready(
                self.authority(),
                now_ns,
                client_thread_id@,
                thread_id@,
                host_id@,
            ),
            old(registry).keeps_watchers(*final(registry), final(registry)@.entries.dom()),
    {
        self.handle.complete_ready(registry, now_ns, client_thread_id, thread_id, host_id)
    }

    /// Publishes a sanitized terminal failure category.
    pub fn mark_failed(
        &self,
        registry: &mut ThreadSetupStatusRegistry,
        now_ns: u128,
        client_thread_id: &str,
        code: ThreadSetupFailureCode,
    ) -> (result: Result<(), ThreadSetupStatusError>)
        requires
            old(registry).wf(),
            old(registry)@.makes_terminal(self.authority(), now_ns, client_thread_id@) ==> now_ns
                + old(registry)@.terminal_retention_ns <= u128::MAX,
        ensures
            final(registry).wf(),
            (final(registry)@, result) == old(registry)@.completed(
                self.authority(),
                now_ns,
                client_thread_id@,
                ThreadSetupStatusView::Failed { code },
            ),
            old(registry).keeps_watchers(*final(registry), final(registry)@.entries.dom()),
    {
        self.handle.complete_failed(registry, now_ns, client_thread_id, code)
    }

    /// Reads the status that the app-server exposes through
    /// `thread/setupStatus/read`.
    pub fn read(
        &self,
        registry: &mut ThreadSetupStatusRegistry,
        now_ns: u128,
        client_thread_id: &str,
    ) -> (result: Result<ThreadSetupStatus, ThreadSetupStatusError>)
        requires
            old(registry).wf(),
        ensures
            final(registry).wf(),
            (final(registry)@, registry::status_result_view(result)) == old(registry)@.read(
                self.authority(),
                now_ns,
                client_thread_id@,
            ),
            old(registry).keeps_watchers(*final(registry), final(registry)@.entries.dom()),
    {
        self.handle.get_thread_setup_status(registry, now_ns, client_thread_id)
    }

    /// Begins to wait for a terminal status using the same bounded, connection-scoped
    /// state as [`Self::read`].
    pub fn begin_wait(
        &self,
        registry: &mut ThreadSetupStatusRegistry,
        now_ns: u128,
        client_thread_id: &str,
        cancelled: bool,
    ) -> (result: Result<ThreadSetupSubscription, ThreadSetupStatusError>)
        requires
            old(registry).wf(),
        ensures
            final(registry).wf(),
            cancelled ==> {
                &&& result matches Err(error) && error == ThreadSetupStatusError::Cancelled
                &&& final(registry)@ == old(registry)@
            },
            !cancelled ==> ({
                let (after, found) = old(registry)@.looked_up(
                    self.authority(),
                    now_ns,
                    client_thread_id@,
                );
                &&& final(registry)@ == after
                &&& match result {
                    Ok(subscription) => {
                        &&& found is Ok
                        &&& channel::subscribed_to(subscription.receiver)
                            == seq![found->Ok_0.status]
                        &&& subscription.expires_at_ns == found->Ok_0.expires_at_ns
                        &&& final(registry).watched_by(client_thread_id@, subscription.receiver)
                    },
                    Err(error) => found == Err::<ThreadSetupEntryView, _>(error),
                }
            }),
            old(registry).keeps_watchers(*final(registry), final(registry)@.entries.dom()),
    {
        self.handle.begin_wait(registry, now_ns, client_thread_id, cancelled)
    }

    /// Looks at the status that the channel shows to one who waits, and decides what it amounts
    /// to. Who watches the handle is shown the status that the registry holds of it.
    pub fn wait_look(
        &self,
        registry: &ThreadSetupStatusRegistry,
        client_thread_id: &str,
        receiver: &tokio::sync::watch::Receiver<ThreadSetupStatus>,
    ) -> (step: WaitStep)
        requires
            registry.wf(),
        ensures
            registry.watched_by(client_thread_id@, *receiver) ==> {
                &&& registry@.entries.contains_key(client_thread_id@)
                &&& step@ == waiting::observed(registry@.entries[client_thread_id@].status)
                &&& registry@.entries[client_thread_id@].status !is Pending ==> step is Finished
                    && registry::status_result_view(step->answer) == Ok::<_, ThreadSetupStatusError>(
                    registry@.entries[client_thread_id@].status,
                )
                &&& registry@.entries[client_thread_id@].status is Pending ==> step is Continue
            },
            exists|status: ThreadSetupStatusView| step@ == #[trigger] waiting::observed(status),
    {
        self.handle.wait_look(registry, client_thread_id, receiver)
    }

    /// Decides what an event amounts to while a handle is awaited.
    pub fn wait_step(
        &self,
        registry: &mut ThreadSetupStatusRegistry,
        now_ns: u128,
        client_thread_id: &str,
        event: WaitEvent,
    ) -> (step: WaitStep)
        requires
            old(registry).wf(),
        ensures
            final(registry).wf(),
            (final(registry)@, step@) == old(registry)@.waited(
                self.authority(),
                now_ns,
                client_thread_id@,
                event@,
            ),
            event is Observed && event->status !is Pending ==> step == (WaitStep::Finished {
                answer: Ok(event->status),
            }),
            event is Observed && event->status is Pending ==> step is Continue,
            old(registry).keeps_watchers(*final(registry), final(registry)@.entries.dom()),
    {
        self.handle.wait_step(registry, now_ns, client_thread_id, event)
    }

    /// Removes expired handles owned by this bridge's connection.
    pub fn cleanup_expired(&self, registry: &mut ThreadSetupStatusRegistry, now_ns: u128) -> (removed:
        usize)
        requires
            old(registry).wf(),
        ensures
            final(registry).wf(),
            final(registry)@ == old(registry)@.purged(now_ns, Some(self.authority())),
            old(registry).keeps_watchers(*final(registry), final(registry)@.entries.dom()),
            removed == old(registry)@.entries.dom().len() - final(registry)@.entries.dom().len(),
    {
        self.handle.cleanup_expired(registry, now_ns)
    }
}

} // verus!
