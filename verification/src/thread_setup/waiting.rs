//! Waiting for a setup to come to an end: what each thing that can happen meanwhile amounts to.

#[allow(unused_imports)]
use super::channel;
#[allow(unused_imports)]
use super::registry;
use super::protocol::ThreadSetupStatus;
use super::protocol::ThreadSetupStatusError;
use super::protocol::ThreadSetupStatusView;
use super::registry::ConnectionId;
use super::registry::ThreadSetupEntryView;
use super::registry::ThreadSetupStatusHandle;
use super::registry::ThreadSetupStatusRegistry;
use super::registry::ThreadSetupStatusRegistryView;
use super::registry::ThreadSetupSubscription;
use vstd::prelude::*;

verus! {

/// What can happen while a setup is awaited.
#[derive(Debug)]
pub enum WaitEvent {
    /// The channel shows a status: the one it held from the start, or a new one.
    Observed { status: ThreadSetupStatus },
    /// The channel was closed: the handle is gone.
    ChannelClosed,
    /// The time has come at which the handle expires.
    Expired,
    /// The wait was cancelled.
    Cancelled,
    /// The time allowed for the wait is over.
    TimedOut,
}

/// What a [`WaitEvent`] holds.
pub enum WaitEventView {
    Observed { status: ThreadSetupStatusView },
    ChannelClosed,
    Expired,
    Cancelled,
    TimedOut,
}

impl View for WaitEvent {
    type V = WaitEventView;

    open spec fn view(&self) -> WaitEventView {
        match *self {
            WaitEvent::Observed { status } => WaitEventView::Observed { status: status@ },
            WaitEvent::ChannelClosed => WaitEventView::ChannelClosed,
            WaitEvent::Expired => WaitEventView::Expired,
            WaitEvent::Cancelled => WaitEventView::Cancelled,
            WaitEvent::TimedOut => WaitEventView::TimedOut,
        }
    }
}

/// What to do next.
#[derive(Debug, PartialEq, Eq)]
pub enum WaitStep {
    /// Wait on.
    Continue,
    /// The wait is over, with this answer.
    Finished { answer: Result<ThreadSetupStatus, ThreadSetupStatusError> },
}

/// What a [`WaitStep`] holds.
pub enum WaitStepView {
    Continue,
    Finished { answer: Result<ThreadSetupStatusView, ThreadSetupStatusError> },
}

impl View for WaitStep {
    type V = WaitStepView;

    open spec fn view(&self) -> WaitStepView {
        match *self {
            WaitStep::Continue => WaitStepView::Continue,
            WaitStep::Finished { answer } => WaitStepView::Finished {
                answer: registry::status_result_view(answer),
            },
        }
    }
}

/// The answer to a wait that ends for another reason than the setup's end: a terminal status if
/// there is one by now, the error if the handle cannot be read, else the reason.
pub open spec fn last_look(
    found: Result<ThreadSetupStatusView, ThreadSetupStatusError>,
    reason: ThreadSetupStatusError,
) -> Result<ThreadSetupStatusView, ThreadSetupStatusError> {
    match found {
        Ok(status) => if status.terminal() {
            Ok(status)
        } else {
            Err(reason)
        },
        Err(error) => Err(error),
    }
}

/// What a status that the channel shows amounts to: the end of the wait, or none yet.
pub open spec fn observed(status: ThreadSetupStatusView) -> WaitStepView {
    if status.terminal() {
        WaitStepView::Finished { answer: Ok(status) }
    } else {
        WaitStepView::Continue
    }
}

impl ThreadSetupStatusRegistryView {
    /// What an event amounts to for a connection that waits for a handle.
    pub open spec fn waited(
        self,
        authority: ConnectionId,
        now_ns: u128,
        id: Seq<char>,
        event: WaitEventView,
    ) -> (Self, WaitStepView) {
        match event {
            WaitEventView::Observed { status } => (self, observed(status)),
            WaitEventView::ChannelClosed => (
                self,
                WaitStepView::Finished { answer: Err(ThreadSetupStatusError::UnknownHandle) },
            ),
            WaitEventView::Expired => {
                let (after, found) = self.read(authority, now_ns, id);
                let answer = last_look(found, ThreadSetupStatusError::UnknownHandle);
                (
                    if found is Ok && answer is Err {
                        after.purged(now_ns, Some(authority))
                    } else {
                        after
                    },
                    WaitStepView::Finished { answer },
                )
            },
            WaitEventView::Cancelled => {
                let (after, found) = self.read(authority, now_ns, id);
                (
                    after,
                    WaitStepView::Finished {
                        answer: last_look(found, ThreadSetupStatusError::Cancelled),
                    },
                )
            },
            WaitEventView::TimedOut => {
                let (after, found) = self.read(authority, now_ns, id);
                (
                    after,
                    WaitStepView::Finished {
                        answer: last_look(found, ThreadSetupStatusError::TimedOut),
                    },
                )
            },
        }
    }
}

impl ThreadSetupStatusHandle {
    /// Begins to wait for a handle, unless the wait is cancelled already.
    pub fn begin_wait(
        &self,
        registry: &mut ThreadSetupStatusRegistry,
        now_ns: u128,
        client_thread_id: &str,
        cancelled: bool,
    ) -> (result: Result<ThreadSetupSubscription, ThreadSetupStatusError>)
        requires
            old(registry).wf(),
        ensures
            final(registry).wf(),
            cancelled ==> {
                &&& result matches Err(error) && error == ThreadSetupStatusError::Cancelled
                &&& final(registry)@ == old(registry)@
            },
            !cancelled ==> ({
                let (after, found) = old(registry)@.looked_up(
                    self.authority(),
                    now_ns,
                    client_thread_id@,
                );
                &&& final(registry)@ == after
                &&& match result {
                    Ok(subscription) => {
                        &&& found is Ok
                        &&& channel::subscribed_to(subscription.receiver)
                            == seq![found->Ok_0.status]
                        &&& subscription.expires_at_ns == found->Ok_0.expires_at_ns
                        &&& final(registry).watched_by(client_thread_id@, subscription.receiver)
                    },
                    Err(error) => found == Err::<ThreadSetupEntryView, _>(error),
                }
            }),
            old(registry).keeps_watchers(*final(registry), final(registry)@.entries.dom()),
    {
        if cancelled {
            return Err(ThreadSetupStatusError::Cancelled);
        }
        self.subscribe(registry, now_ns, client_thread_id)
    }

    /// Looks at a handle one last time before a wait ends for another reason.
    fn look_once_more(
        &self,
        registry: &mut ThreadSetupStatusRegistry,
        now_ns: u128,
        client_thread_id: &str,
        reason: ThreadSetupStatusError,
    ) -> (result: (Result<ThreadSetupStatus, ThreadSetupStatusError>, bool))
        requires
            old(registry).wf(),
        ensures
            final(registry).wf(),
            ({
                let (after, found) = old(registry)@.read(
                    self.authority(),
                    now_ns,
                    client_thread_id@,
                );
                &&& final(registry)@ == after
                &&& registry::status_result_view(result.0) == last_look(found, reason)
                &&& result.1 == (found is Ok && last_look(found, reason) is Err)
            }),
            old(registry).keeps_watchers(*final(registry), final(registry)@.entries.dom()),
    {
        match self.get_thread_setup_status(registry, now_ns, client_thread_id) {
            Ok(status) => if status.is_terminal() {
                (Ok(status), false)
            } else {
                (Err(reason), true)
            },
            Err(error) => (Err(error), false),
        }
    }

    /// Looks at the status that the channel shows to one who waits, and decides what it amounts
    /// to. Who watches the handle is shown the status that the registry holds of it.
    pub fn wait_look(
        &self,
        registry: &ThreadSetupStatusRegistry,
        client_thread_id: &str,
        receiver: &tokio::sync::watch::Receiver<ThreadSetupStatus>,
    ) -> (step: WaitStep)
        requires
            registry.wf(),
        ensures
            registry.watched_by(client_thread_id@, *receiver) ==> {
                &&& registry@.entries.contains_key(client_thread_id@)
                &&& step@ == observed(registry@.entries[client_thread_id@].status)
                &&& registry@.entries[client_thread_id@].status !is Pending ==> step is Finished
                    && registry::status_result_view(step->answer) == Ok::<_, ThreadSetupStatusError>(
                    registry@.entries[client_thread_id@].status,
                )
                &&& registry@.entries[client_thread_id@].status is Pending ==> step is Continue
            },
            exists|status: ThreadSetupStatusView| step@ == #[trigger] observed(status),
    {
        let status = registry.shown(client_thread_id, receiver);
        let ghost shown = status@;
        let step = if status.is_terminal() {
            WaitStep::Finished { answer: Ok(status) }
        } else {
            WaitStep::Continue
        };
        proof {
            assert(step@ == observed(shown));
        }
        step
    }

    /// Decides what an event amounts to while a handle is awaited.
    pub fn wait_step(
        &self,
        registry: &mut ThreadSetupStatusRegistry,
        now_ns: u128,
        client_thread_id: &str,
        event: WaitEvent,
    ) -> (step: WaitStep)
        requires
            old(registry).wf(),
        ensures
            final(registry).wf(),
            (final(registry)@, step@) == old(registry)@.waited(
                self.authority(),
                now_ns,
                client_thread_id@,
                event@,
            ),
            event is Observed && event->status !is Pending ==> step == (WaitStep::Finished {
                answer: Ok(event->status),
            }),
            event is Observed && event->status is Pending ==> step is Continue,
            old(registry).keeps_watchers(*final(registry), final(registry)@.entries.dom()),
    {
        match event {
            WaitEvent::Observed { status } => if status.is_terminal() {
                WaitStep::Finished { answer: Ok(status) }
            } else {
                WaitStep::Continue
            },
            WaitEvent::ChannelClosed => WaitStep::Finished {
                answer: Err(ThreadSetupStatusError::UnknownHandle),
            },
            WaitEvent::Expired => {
                let (answer, still_pending) = self.look_once_more(
                    registry,
                    now_ns,
                    client_thread_id,
                    ThreadSetupStatusError::UnknownHandle,
                );
                if still_pending {
                    let _ = self.cleanup_expired(registry, now_ns);
                }
                WaitStep::Finished { answer }
            },
            WaitEvent::Cancelled => {
                let (answer, _) = self.look_once_more(
                    registry,
                    now_ns,
                    client_thread_id,
                    ThreadSetupStatusError::Cancelled,
                );
                WaitStep::Finished { answer }
            },
            WaitEvent::TimedOut => {
                let (answer, _) = self.look_once_more(
                    registry,
                    now_ns,
                    client_thread_id,
                    ThreadSetupStatusError::TimedOut,
                );
                WaitStep::Finished { answer }
            },
        }
    }
}

} // verus!
