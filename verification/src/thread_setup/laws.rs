//! What holds of setup handles over several calls.

#[allow(unused_imports)]
use super::protocol;
use super::protocol::ThreadSetupFailureCode;
use super::protocol::ThreadSetupStatus;
use super::protocol::ThreadSetupStatusError;
use super::protocol::ThreadSetupStatusView;
#[allow(unused_imports)]
use super::registry;
use super::registry::ConnectionId;
use super::registry::ThreadSetupEntryView;
use super::registry::ThreadSetupStatusRegistryView;
#[allow(unused_imports)]
use super::waiting;
use super::waiting::WaitEvent;
use super::waiting::WaitEventView;
use super::waiting::WaitStep;
use super::waiting::WaitStepView;
use vstd::prelude::*;

verus! {

/// Purging at one time purges for that time: doing it again removes nothing.
pub proof fn law_purging_is_idempotent(
    registry: ThreadSetupStatusRegistryView,
    now_ns: u128,
    authority: Option<ConnectionId>,
)
    ensures
        registry.purged(now_ns, None).purged(now_ns, authority) == registry.purged(now_ns, None),
{
    assert(registry.purged(now_ns, None).purged(now_ns, authority).entries =~= registry.purged(
        now_ns,
        None,
    ).entries);
}

/// Registering a handle again on its connection changes nothing, as long as it has not expired.
pub proof fn law_registering_is_idempotent(
    registry: ThreadSetupStatusRegistryView,
    authority: ConnectionId,
    now_ns: u128,
    id: Seq<char>,
    later_ns: u128,
)
    requires
        registry.registered(authority, now_ns, id).1 is Ok,
        registry.registered(authority, now_ns, id).0.entries[id].expires_at_ns > later_ns,
    ensures
        ({
            let once = registry.registered(authority, now_ns, id).0;
            once.registered(authority, later_ns, id) == (
                once.purged(later_ns, None),
                Ok::<(), ThreadSetupStatusError>(()),
            )
        }),
{
}

/// The handle is there and has not expired.
pub open spec fn live(
    registry: ThreadSetupStatusRegistryView,
    now_ns: u128,
    id: Seq<char>,
) -> bool {
    registry.entries.contains_key(id) && registry.entries[id].expires_at_ns > now_ns
}

/// Every live handle but this one is as it was.
pub open spec fn others_unchanged(
    before: ThreadSetupStatusRegistryView,
    after: ThreadSetupStatusRegistryView,
    now_ns: u128,
    id: Seq<char>,
) -> bool {
    forall|other: Seq<char>| other != id && #[trigger] live(before, now_ns, other)
        ==> after.entries.contains_key(other) && after.entries[other] == before.entries[other]
}

/// No handle but this one is new or changed, and handles are kept for the same times.
pub open spec fn nothing_appears(
    before: ThreadSetupStatusRegistryView,
    after: ThreadSetupStatusRegistryView,
    id: Seq<char>,
) -> bool {
    &&& after.pending_retention_ns == before.pending_retention_ns
    &&& after.terminal_retention_ns == before.terminal_retention_ns
    &&& forall|other: Seq<char>| other != id && #[trigger] after.entries.contains_key(other)
        ==> before.entries.contains_key(other) && after.entries[other] == before.entries[other]
}

/// An identifier is well formed exactly when it is not empty, no longer than the most allowed (a
/// client's 128, a resolved one 256), and of ASCII letters, digits, `-`, `_`, `.`, `~` and `:`.
pub proof fn law_identifiers_are_short_and_plain(value: Seq<char>, max_length: int)
    ensures
        protocol::valid_identifier(value, max_length) <==> value.len() != 0 && value.len()
            <= max_length && forall|i: int|
            0 <= i < value.len() ==> {
                let c = #[trigger] value[i] as int;
                48 <= c <= 57 || 65 <= c <= 90 || 97 <= c <= 122 || c == 45 || c == 95 || c == 46
                    || c == 126 || c == 58
            },
        protocol::valid_client_thread_id(value) <==> protocol::valid_identifier(value, 128),
        protocol::valid_resolved_id(value) <==> protocol::valid_identifier(value, 256),
{
    if value.len() != 0 && value.len() <= max_length && forall|i: int|
        0 <= i < value.len() ==> {
            let c = #[trigger] value[i] as int;
            48 <= c <= 57 || 65 <= c <= 90 || 97 <= c <= 122 || c == 45 || c == 95 || c == 46 || c
                == 126 || c == 58
        } {
        assert forall|i: int| 0 <= i < value.len() implies protocol::identifier_char(
            #[trigger] value[i],
        ) by {
            let c = value[i] as int;
        }
    }
    if protocol::valid_identifier(value, max_length) {
        assert forall|i: int| 0 <= i < value.len() implies {
            let c = #[trigger] value[i] as int;
            48 <= c <= 57 || 65 <= c <= 90 || 97 <= c <= 122 || c == 45 || c == 95 || c == 46 || c
                == 126 || c == 58
        } by {
            assert(protocol::identifier_char(value[i]));
        }
    }
}

/// Purging takes exactly the handles whose time has come, of all connections or of one; closing
/// takes exactly those of one connection; and neither changes a handle that stays.
pub proof fn law_dropping_takes_what_it_says(
    registry: ThreadSetupStatusRegistryView,
    now_ns: u128,
    authority: ConnectionId,
    id: Seq<char>,
)
    ensures
        registry.purged(now_ns, None).entries.contains_key(id) <==> registry.entries.contains_key(
            id,
        ) && now_ns < registry.entries[id].expires_at_ns,
        registry.purged(now_ns, Some(authority)).entries.contains_key(id)
            <==> registry.entries.contains_key(id) && (now_ns < registry.entries[id].expires_at_ns
            || registry.entries[id].authority != authority),
        registry.closed(authority).entries.contains_key(id) <==> registry.entries.contains_key(id)
            && registry.entries[id].authority != authority,
        registry.kept(now_ns, id).entries.contains_key(id) ==> registry.entries.contains_key(id),
        nothing_appears(registry, registry.purged(now_ns, None), seq![]),
        nothing_appears(registry, registry.purged(now_ns, Some(authority)), seq![]),
        nothing_appears(registry, registry.closed(authority), seq![]),
        registry.purged(now_ns, None).entries.contains_key(id) ==> registry.purged(
            now_ns,
            None,
        ).entries[id] == registry.entries[id],
        registry.purged(now_ns, Some(authority)).entries.contains_key(id) ==> registry.purged(
            now_ns,
            Some(authority),
        ).entries[id] == registry.entries[id],
        registry.closed(authority).entries.contains_key(id) ==> registry.closed(
            authority,
        ).entries[id] == registry.entries[id],
{
}

/// A use of a handle keeps every live handle, and a use of a malformed one keeps them all.
pub proof fn law_uses_keep_live_handles(
    registry: ThreadSetupStatusRegistryView,
    now_ns: u128,
    id: Seq<char>,
    other: Seq<char>,
)
    ensures
        registry.kept(now_ns, id).entries.contains_key(other) <==> registry.entries.contains_key(
            other,
        ) && (protocol::valid_client_thread_id(id) ==> now_ns
            < registry.entries[other].expires_at_ns),
{
}

/// Looking a handle up: a malformed one is invalid, one that is not live is unknown, that of
/// another connection is denied, and an own live one is found as it is held. A read answers with
/// the status of what a lookup finds, and both leave the registry alike: without what expired,
/// and with everything live as it was.
pub proof fn law_looking_up_decides(
    registry: ThreadSetupStatusRegistryView,
    authority: ConnectionId,
    now_ns: u128,
    id: Seq<char>,
    other: Seq<char>,
)
    ensures
        ({
            let (after, found) = registry.looked_up(authority, now_ns, id);
            let (left, answer) = registry.read(authority, now_ns, id);
            let well_formed = protocol::valid_client_thread_id(id);
            let own = registry.entries[id].authority == authority;
            &&& found is Ok <==> well_formed && live(registry, now_ns, id) && own
            &&& found matches Ok(entry) ==> entry == registry.entries[id]
            &&& found == Err::<ThreadSetupEntryView, _>(ThreadSetupStatusError::InvalidHandle)
                <==> !well_formed
            &&& found == Err::<ThreadSetupEntryView, _>(ThreadSetupStatusError::UnknownHandle)
                <==> well_formed && !live(registry, now_ns, id)
            &&& found == Err::<ThreadSetupEntryView, _>(ThreadSetupStatusError::AccessDenied)
                <==> well_formed && live(registry, now_ns, id) && !own
            &&& answer is Ok <==> found is Ok
            &&& answer matches Ok(status) ==> status == registry.entries[id].status
            &&& answer matches Err(error) ==> found == Err::<ThreadSetupEntryView, _>(error)
            &&& left == after
            &&& nothing_appears(registry, after, seq![])
            &&& live(registry, now_ns, other) ==> after.entries.contains_key(other)
                && after.entries[other] == registry.entries[other]
            &&& well_formed && after.entries.contains_key(other) ==> live(registry, now_ns, other)
        }),
{
}

/// Completing with identities is completing with the ready status that carries them, unless one
/// of them is malformed: then the value is invalid and nothing happens, whatever the handle.
pub proof fn law_ready_carries_its_identities(
    registry: ThreadSetupStatusRegistryView,
    authority: ConnectionId,
    now_ns: u128,
    id: Seq<char>,
    thread_id: Seq<char>,
    host_id: Seq<char>,
)
    ensures
        protocol::valid_resolved_id(thread_id) && protocol::valid_resolved_id(host_id)
            ==> registry.completed_ready(authority, now_ns, id, thread_id, host_id)
            == registry.completed(
            authority,
            now_ns,
            id,
            ThreadSetupStatusView::Ready { thread_id, host_id },
        ),
        !protocol::valid_resolved_id(thread_id) || !protocol::valid_resolved_id(host_id)
            ==> registry.completed_ready(authority, now_ns, id, thread_id, host_id) == (
            registry,
            Err::<(), _>(ThreadSetupStatusError::InvalidValue),
        ),
{
}

/// A wait that is shown a terminal status ends with that very status, failure code and identities
/// included; one that is shown a pending status goes on; neither touches the registry.
pub proof fn law_waits_answer_the_status_shown(
    registry: ThreadSetupStatusRegistryView,
    authority: ConnectionId,
    now_ns: u128,
    id: Seq<char>,
    status: ThreadSetupStatusView,
)
    ensures
        registry.waited(authority, now_ns, id, WaitEventView::Observed { status }).0 == registry,
        status !is Pending ==> registry.waited(
            authority,
            now_ns,
            id,
            WaitEventView::Observed { status },
        ).1 == (WaitStepView::Finished { answer: Ok(status) }),
        status is Pending ==> registry.waited(
            authority,
            now_ns,
            id,
            WaitEventView::Observed { status },
        ).1 is Continue,
        status !is Pending ==> waiting::observed(status) == (WaitStepView::Finished {
            answer: Ok(status),
        }),
        status is Pending ==> waiting::observed(status) is Continue,
{
}

/// For a handle that is own, live and completed, a wait answers exactly what a read answers,
/// whatever ends the wait: the status shown, the expiry, the cancellation or the time.
pub proof fn law_waits_answer_what_reads_answer(
    registry: ThreadSetupStatusRegistryView,
    authority: ConnectionId,
    now_ns: u128,
    id: Seq<char>,
    event: WaitEventView,
)
    requires
        protocol::valid_client_thread_id(id),
        live(registry, now_ns, id),
        registry.entries[id].authority == authority,
        registry.entries[id].status !is Pending,
        event !is ChannelClosed,
        event matches WaitEventView::Observed { status } ==> status == registry.entries[id].status,
    ensures
        registry.waited(authority, now_ns, id, event).1 == (WaitStepView::Finished {
            answer: registry.read(authority, now_ns, id).1,
        }),
        registry.read(authority, now_ns, id).1 == Ok::<_, ThreadSetupStatusError>(
            registry.entries[id].status,
        ),
{
}

/// A wait for a handle that cannot be read ends with the reason why it cannot; one for a pending
/// handle ends with what ended it: gone when the channel closed or the handle expired, cancelled,
/// or timed out. Ending changes no more of the registry than a read does.
pub proof fn law_waits_end_for_a_reason(
    registry: ThreadSetupStatusRegistryView,
    authority: ConnectionId,
    now_ns: u128,
    id: Seq<char>,
)
    ensures
        ({
            let answer = registry.read(authority, now_ns, id).1;
            let ended = |event: WaitEventView| registry.waited(authority, now_ns, id, event).1;
            &&& ended(WaitEventView::ChannelClosed) == (WaitStepView::Finished {
                answer: Err(ThreadSetupStatusError::UnknownHandle),
            })
            &&& registry.waited(authority, now_ns, id, WaitEventView::ChannelClosed).0 == registry
            &&& answer is Err ==> {
                &&& ended(WaitEventView::Expired) == (WaitStepView::Finished { answer })
                &&& ended(WaitEventView::Cancelled) == (WaitStepView::Finished { answer })
                &&& ended(WaitEventView::TimedOut) == (WaitStepView::Finished { answer })
            }
            &&& answer == Ok::<_, ThreadSetupStatusError>(ThreadSetupStatusView::Pending) ==> {
                &&& ended(WaitEventView::Expired) == (WaitStepView::Finished {
                    answer: Err(ThreadSetupStatusError::UnknownHandle),
                })
                &&& ended(WaitEventView::Cancelled) == (WaitStepView::Finished {
                    answer: Err(ThreadSetupStatusError::Cancelled),
                })
                &&& ended(WaitEventView::TimedOut) == (WaitStepView::Finished {
                    answer: Err(ThreadSetupStatusError::TimedOut),
                })
            }
            &&& registry.waited(authority, now_ns, id, WaitEventView::Cancelled).0 == registry.read(
                authority,
                now_ns,
                id,
            ).0
            &&& registry.waited(authority, now_ns, id, WaitEventView::TimedOut).0 == registry.read(
                authority,
                now_ns,
                id,
            ).0
            &&& registry.waited(authority, now_ns, id, WaitEventView::Expired).0 == registry.read(
                authority,
                now_ns,
                id,
            ).0
        }),
{
    law_purging_is_idempotent(registry, now_ns, Some(authority));
}

/// Registering: a malformed handle is invalid; the live handle of another connection is denied;
/// an own live handle stays as it is; and any other becomes pending, for the time that pending
/// handles are kept. No other live handle changes, and a refusal changes no live handle.
pub proof fn law_registering_decides(
    registry: ThreadSetupStatusRegistryView,
    authority: ConnectionId,
    now_ns: u128,
    id: Seq<char>,
)
    requires
        registry.makes_pending(now_ns, id) ==> now_ns + registry.pending_retention_ns <= u128::MAX,
    ensures
        ({
            let (after, answer) = registry.registered(authority, now_ns, id);
            let denied = live(registry, now_ns, id) && registry.entries[id].authority != authority;
            &&& answer == (if !protocol::valid_client_thread_id(id) {
                Err::<(), _>(ThreadSetupStatusError::InvalidHandle)
            } else if denied {
                Err(ThreadSetupStatusError::AccessDenied)
            } else {
                Ok(())
            })
            &&& others_unchanged(registry, after, now_ns, id)
            &&& nothing_appears(registry, after, id)
            &&& answer is Err && !live(registry, now_ns, id) && after.entries.contains_key(id)
                ==> registry.entries.contains_key(id)
            &&& live(registry, now_ns, id) ==> after.entries.contains_key(id) && after.entries[id]
                == registry.entries[id]
            &&& answer is Ok && !live(registry, now_ns, id) ==> after.entries.contains_key(id)
                && after.entries[id] == (ThreadSetupEntryView {
                authority,
                status: ThreadSetupStatusView::Pending,
                expires_at_ns: (now_ns + registry.pending_retention_ns) as u128,
            })
        }),
{
}

/// Completing: a malformed handle is invalid; one that is not live is unknown; that of another
/// connection is denied; an own pending one takes the status, for the time that completed handles
/// are kept; an own completed one stays as it is, which is fine only for the status that it has.
/// No other live handle changes, and a refusal changes no live handle.
pub proof fn law_completing_decides(
    registry: ThreadSetupStatusRegistryView,
    authority: ConnectionId,
    now_ns: u128,
    id: Seq<char>,
    status: ThreadSetupStatusView,
)
    requires
        status.terminal(),
        registry.makes_terminal(authority, now_ns, id) ==> now_ns
            + registry.terminal_retention_ns <= u128::MAX,
    ensures
        ({
            let (after, answer) = registry.completed(authority, now_ns, id, status);
            let held = registry.entries[id];
            &&& answer == (if !protocol::valid_client_thread_id(id) {
                Err::<(), _>(ThreadSetupStatusError::InvalidHandle)
            } else if !live(registry, now_ns, id) {
                Err(ThreadSetupStatusError::UnknownHandle)
            } else if held.authority != authority {
                Err(ThreadSetupStatusError::AccessDenied)
            } else if held.status.terminal() && held.status != status {
                Err(ThreadSetupStatusError::AlreadyCompleted)
            } else {
                Ok(())
            })
            &&& others_unchanged(registry, after, now_ns, id)
            &&& nothing_appears(registry, after, id)
            &&& after.entries.contains_key(id) ==> registry.entries.contains_key(id)
            &&& live(registry, now_ns, id) ==> after.entries.contains_key(id) && after.entries[id]
                == (if answer is Ok && held.status is Pending {
                ThreadSetupEntryView {
                    authority,
                    status,
                    expires_at_ns: (now_ns + registry.terminal_retention_ns) as u128,
                }
            } else {
                held
            })
        }),
{
}

/// One use of the registry by a connection.
pub enum SetupCallView {
    Register { authority: ConnectionId, now_ns: u128, id: Seq<char> },
    CompleteReady {
        authority: ConnectionId,
        now_ns: u128,
        id: Seq<char>,
        thread_id: Seq<char>,
        host_id: Seq<char>,
    },
    CompleteFailed {
        authority: ConnectionId,
        now_ns: u128,
        id: Seq<char>,
        code: ThreadSetupFailureCode,
    },
    Read { authority: ConnectionId, now_ns: u128, id: Seq<char> },
    CleanUp { authority: ConnectionId, now_ns: u128 },
}

impl SetupCallView {
    /// The time of the use.
    pub open spec fn at_ns(self) -> u128 {
        match self {
            SetupCallView::Register { now_ns, .. } => now_ns,
            SetupCallView::CompleteReady { now_ns, .. } => now_ns,
            SetupCallView::CompleteFailed { now_ns, .. } => now_ns,
            SetupCallView::Read { now_ns, .. } => now_ns,
            SetupCallView::CleanUp { now_ns, .. } => now_ns,
        }
    }

    /// The registry after the use.
    pub open spec fn applied_to(
        self,
        registry: ThreadSetupStatusRegistryView,
    ) -> ThreadSetupStatusRegistryView {
        match self {
            SetupCallView::Register { authority, now_ns, id } => registry.registered(
                authority,
                now_ns,
                id,
            ).0,
            SetupCallView::CompleteReady { authority, now_ns, id, thread_id, host_id } => {
                registry.completed_ready(authority, now_ns, id, thread_id, host_id).0
            },
            SetupCallView::CompleteFailed { authority, now_ns, id, code } => registry.completed(
                authority,
                now_ns,
                id,
                ThreadSetupStatusView::Failed { code },
            ).0,
            SetupCallView::Read { authority, now_ns, id } => registry.read(
                authority,
                now_ns,
                id,
            ).0,
            SetupCallView::CleanUp { authority, now_ns } => registry.purged(
                now_ns,
                Some(authority),
            ),
        }
    }
}

/// The registry after the first `n` of a list of uses.
pub open spec fn after_calls(
    registry: ThreadSetupStatusRegistryView,
    calls: Seq<SetupCallView>,
    n: int,
) -> ThreadSetupStatusRegistryView
    decreases n,
{
    if n <= 0 {
        registry
    } else {
        calls[n - 1].applied_to(after_calls(registry, calls, n - 1))
    }
}

/// A completed handle stays as it is for as long as it lives: no sequence of uses, by whichever
/// connections, changes its status or its expiry, or makes it pending again.
pub proof fn law_completed_handles_stay_completed(
    registry: ThreadSetupStatusRegistryView,
    calls: Seq<SetupCallView>,
    n: int,
    id: Seq<char>,
)
    requires
        0 <= n <= calls.len(),
        registry.entries.contains_key(id),
        registry.entries[id].status.terminal(),
        forall|i: int|
            0 <= i < n ==> (#[trigger] calls[i]).at_ns() < registry.entries[id].expires_at_ns,
    ensures
        after_calls(registry, calls, n).entries.contains_key(id),
        after_calls(registry, calls, n).entries[id] == registry.entries[id],
    decreases n,
{
    if n > 0 {
        law_completed_handles_stay_completed(registry, calls, n - 1, id);
        assert(calls[n - 1].at_ns() < registry.entries[id].expires_at_ns);
    }
}

/// A handle just registered reads as pending until it expires.
pub proof fn law_registered_handle_reads_pending(
    registry: ThreadSetupStatusRegistryView,
    authority: ConnectionId,
    now_ns: u128,
    id: Seq<char>,
    later_ns: u128,
)
    requires
        protocol::valid_client_thread_id(id),
        !registry.purged(now_ns, None).entries.contains_key(id),
        now_ns + registry.pending_retention_ns <= u128::MAX,
    ensures
        ({
            let after = registry.registered(authority, now_ns, id).0;
            after.read(authority, later_ns, id).1 == if later_ns < now_ns
                + registry.pending_retention_ns {
                Ok(ThreadSetupStatusView::Pending)
            } else {
                Err(ThreadSetupStatusError::UnknownHandle)
            }
        }),
{
}

/// No connection gets at the handle of another: to it, every use of the handle is denied, and
/// none of them changes anything but that expired handles go.
pub proof fn law_handles_are_connection_scoped(
    registry: ThreadSetupStatusRegistryView,
    stranger: ConnectionId,
    now_ns: u128,
    id: Seq<char>,
    status: ThreadSetupStatusView,
)
    requires
        protocol::valid_client_thread_id(id),
        registry.entries.contains_key(id),
        registry.entries[id].authority != stranger,
        registry.entries[id].expires_at_ns > now_ns,
    ensures
        ({
            let kept = registry.purged(now_ns, None);
            &&& registry.registered(stranger, now_ns, id) == (
                kept,
                Err::<(), _>(ThreadSetupStatusError::AccessDenied),
            )
            &&& registry.completed(stranger, now_ns, id, status) == (
                kept,
                Err::<(), _>(ThreadSetupStatusError::AccessDenied),
            )
            &&& registry.read(stranger, now_ns, id) == (
                kept,
                Err::<ThreadSetupStatusView, _>(ThreadSetupStatusError::AccessDenied),
            )
            &&& registry.looked_up(stranger, now_ns, id) == (
                kept,
                Err::<ThreadSetupEntryView, _>(ThreadSetupStatusError::AccessDenied),
            )
        }),
{
}

/// What a handle was completed with is what reads of it give back until it expires.
pub proof fn law_completed_status_is_read_back(
    registry: ThreadSetupStatusRegistryView,
    authority: ConnectionId,
    now_ns: u128,
    id: Seq<char>,
    status: ThreadSetupStatusView,
    later_ns: u128,
)
    requires
        registry.completed(authority, now_ns, id, status).1 is Ok,
    ensures
        ({
            let after = registry.completed(authority, now_ns, id, status).0;
            let (unchanged, answer) = after.read(authority, later_ns, id);
            &&& unchanged == after.purged(later_ns, None)
            &&& answer == if later_ns < after.entries[id].expires_at_ns {
                Ok(status)
            } else {
                Err(ThreadSetupStatusError::UnknownHandle)
            }
        }),
{
}

/// The first completion stands: completing the handle again with the same status is fine and
/// changes nothing; any other status is refused and changes nothing.
pub proof fn law_first_completion_stands(
    registry: ThreadSetupStatusRegistryView,
    authority: ConnectionId,
    now_ns: u128,
    id: Seq<char>,
    status: ThreadSetupStatusView,
    later_ns: u128,
    other: ThreadSetupStatusView,
)
    requires
        status.terminal(),
        registry.completed(authority, now_ns, id, status).1 is Ok,
        registry.completed(authority, now_ns, id, status).0.entries[id].expires_at_ns > later_ns,
    ensures
        ({
            let after = registry.completed(authority, now_ns, id, status).0;
            after.completed(authority, later_ns, id, other) == (
                after.purged(later_ns, None),
                if other == status {
                    Ok(())
                } else {
                    Err(ThreadSetupStatusError::AlreadyCompleted)
                },
            )
        }),
{
}

/// A connection that closes takes all of its handles with it, and no other.
pub proof fn law_closing_takes_own_handles_only(
    registry: ThreadSetupStatusRegistryView,
    authority: ConnectionId,
    now_ns: u128,
    id: Seq<char>,
)
    requires
        protocol::valid_client_thread_id(id),
    ensures
        ({
            let after = registry.closed(authority);
            &&& after.read(authority, now_ns, id).1 is Err
            &&& registry.entries.contains_key(id) && registry.entries[id].authority == authority
                ==> forall|reader: ConnectionId| (#[trigger] after.read(reader, now_ns, id)).1
                == Err::<ThreadSetupStatusView, _>(ThreadSetupStatusError::UnknownHandle)
            &&& registry.entries.contains_key(id) && registry.entries[id].authority != authority
                ==> after.entries.contains_key(id) && after.entries[id] == registry.entries[id]
        }),
{
}

/// Reading changes nothing but that expired handles go, and reading again at the same time gives
/// the same answer.
pub proof fn law_reads_are_idempotent(
    registry: ThreadSetupStatusRegistryView,
    authority: ConnectionId,
    now_ns: u128,
    id: Seq<char>,
)
    ensures
        ({
            let once = registry.read(authority, now_ns, id);
            &&& once.0 == registry || once.0 == registry.purged(now_ns, None)
            &&& once.0.read(authority, now_ns, id) == once
        }),
{
    law_purging_is_idempotent(registry, now_ns, None);
}

/// Cleaning up takes exactly the expired handles of one connection.
pub proof fn law_cleanup_is_scoped(
    registry: ThreadSetupStatusRegistryView,
    authority: ConnectionId,
    now_ns: u128,
    id: Seq<char>,
)
    requires
        registry.entries.contains_key(id),
    ensures
        ({
            let after = registry.purged(now_ns, Some(authority));
            &&& after.entries.contains_key(id) <==> registry.entries[id].authority != authority
                || registry.entries[id].expires_at_ns > now_ns
            &&& after.entries.contains_key(id) ==> after.entries[id] == registry.entries[id]
        }),
{
}

/// A wait never ends with a pending status, and only a status that is shown and still pending
/// lets it go on.
pub proof fn law_waits_end_with_terminal_statuses(
    registry: ThreadSetupStatusRegistryView,
    authority: ConnectionId,
    now_ns: u128,
    id: Seq<char>,
    event: WaitEventView,
)
    ensures
        match registry.waited(authority, now_ns, id, event).1 {
            WaitStepView::Finished { answer } => answer matches Ok(status) ==> status.terminal(),
            WaitStepView::Continue => event == (WaitEventView::Observed {
                status: ThreadSetupStatusView::Pending,
            }),
        },
{
}

/// The end of a wait means what it says: it times out only when its time is over, and is
/// cancelled only when it was cancelled, each with the handle live and still pending.
pub proof fn law_wait_errors_mean_what_they_say(
    registry: ThreadSetupStatusRegistryView,
    authority: ConnectionId,
    now_ns: u128,
    id: Seq<char>,
    event: WaitEventView,
    error: ThreadSetupStatusError,
)
    requires
        registry.waited(authority, now_ns, id, event).1 == (WaitStepView::Finished {
            answer: Err(error),
        }),
        error == ThreadSetupStatusError::TimedOut || error == ThreadSetupStatusError::Cancelled,
    ensures
        error == ThreadSetupStatusError::TimedOut ==> event is TimedOut,
        error == ThreadSetupStatusError::Cancelled ==> event is Cancelled,
        live(registry, now_ns, id),
        registry.entries[id].authority == authority,
        registry.entries[id].status is Pending,
{
}

/// A setup that has come to an end wins over the end of the wait: whether the wait is cancelled,
/// runs out of time or meets the handle's expiry, the terminal status is answered if it can be
/// read.
pub proof fn law_terminal_status_wins(
    registry: ThreadSetupStatusRegistryView,
    authority: ConnectionId,
    now_ns: u128,
    id: Seq<char>,
    status: ThreadSetupStatusView,
)
    requires
        status.terminal(),
        registry.read(authority, now_ns, id).1 == Ok::<_, ThreadSetupStatusError>(status),
    ensures
        registry.waited(authority, now_ns, id, WaitEventView::Cancelled).1
            == (WaitStepView::Finished { answer: Ok(status) }),
        registry.waited(authority, now_ns, id, WaitEventView::TimedOut).1
            == (WaitStepView::Finished { answer: Ok(status) }),
        registry.waited(authority, now_ns, id, WaitEventView::Expired).1
            == (WaitStepView::Finished { answer: Ok(status) }),
{
}

/// Only well-formed identities and failure categories come out of a registry.
pub proof fn law_read_statuses_are_sanitized(
    registry: ThreadSetupStatusRegistryView,
    authority: ConnectionId,
    now_ns: u128,
    id: Seq<char>,
)
    requires
        registry.wf(),
    ensures
        registry.read(authority, now_ns, id).1 matches Ok(status) ==> match status {
            ThreadSetupStatusView::Pending => true,
            ThreadSetupStatusView::Ready { thread_id, host_id } => {
                &&& protocol::valid_resolved_id(thread_id)
                &&& protocol::valid_resolved_id(host_id)
            },
            ThreadSetupStatusView::Failed { code } => true,
        },
{
}

/// What a status, an event and a step show of themselves is what they hold, failure codes and
/// identities included.
pub proof fn law_statuses_show_what_they_hold(
    status: ThreadSetupStatus,
    event: WaitEvent,
    answer: Result<ThreadSetupStatus, ThreadSetupStatusError>,
)
    ensures
        status is Pending <==> status@ is Pending,
        status is Ready <==> status@ is Ready,
        status is Failed <==> status@ is Failed,
        status is Ready ==> status@->thread_id == status->thread_id@,
        status is Ready ==> status@->host_id == status->host_id@,
        status is Failed ==> status@->code == status->code,
        status@.terminal() <==> status is Ready || status is Failed,
        event is Observed <==> event@ is Observed,
        event is ChannelClosed <==> event@ is ChannelClosed,
        event is Expired <==> event@ is Expired,
        event is Cancelled <==> event@ is Cancelled,
        event is TimedOut <==> event@ is TimedOut,
        event is Observed ==> event@->status == event->status@,
        WaitStep::Continue@ is Continue,
        answer is Ok ==> registry::status_result_view(answer) == Ok::<_, ThreadSetupStatusError>(
            answer->Ok_0@,
        ),
        answer is Err ==> registry::status_result_view(answer) == Err::<ThreadSetupStatusView, _>(
            answer->Err_0,
        ),
        (WaitStep::Finished { answer })@ == (WaitStepView::Finished {
            answer: registry::status_result_view(answer),
        }),
{
}

/// The words in which each error is told.
pub proof fn law_errors_are_told_in_fixed_words()
    ensures
        ThreadSetupStatusError::InvalidHandle.words() == "invalid thread setup handle"@,
        ThreadSetupStatusError::UnknownHandle.words() == "unknown thread setup handle"@,
        ThreadSetupStatusError::AccessDenied.words() == "thread setup handle access denied"@,
        ThreadSetupStatusError::AlreadyCompleted.words() == "thread setup already completed"@,
        ThreadSetupStatusError::InvalidValue.words() == "invalid thread setup value"@,
        ThreadSetupStatusError::TimedOut.words() == "thread setup wait timed out"@,
        ThreadSetupStatusError::Cancelled.words() == "thread setup wait cancelled"@,
{
}

/// A new registry has no handles and keeps them for the times that it is given; by default a
/// pending handle for ten minutes and a completed one for five.
pub proof fn law_registries_start_empty(pending_ns: u128, terminal_ns: u128, id: Seq<char>)
    ensures
        !ThreadSetupStatusRegistryView::fresh(pending_ns, terminal_ns).entries.contains_key(id),
        ThreadSetupStatusRegistryView::fresh(pending_ns, terminal_ns).pending_retention_ns
            == pending_ns,
        ThreadSetupStatusRegistryView::fresh(pending_ns, terminal_ns).terminal_retention_ns
            == terminal_ns,
        registry::DEFAULT_PENDING_RETENTION_NS == 10 * 60 * 1_000_000_000,
        registry::DEFAULT_TERMINAL_RETENTION_NS == 5 * 60 * 1_000_000_000,
{
}

/// A use of a well-formed handle leaves no expired handle behind, whether it registers, completes
/// or reads, and whether it is refused or not; and a use of a malformed one changes nothing.
pub proof fn law_uses_drop_what_expired(
    registry: ThreadSetupStatusRegistryView,
    authority: ConnectionId,
    now_ns: u128,
    id: Seq<char>,
    status: ThreadSetupStatusView,
    other: Seq<char>,
)
    requires
        registry.makes_pending(now_ns, id) ==> now_ns + registry.pending_retention_ns <= u128::MAX,
        registry.makes_terminal(authority, now_ns, id) ==> now_ns
            + registry.terminal_retention_ns <= u128::MAX,
    ensures
        protocol::valid_client_thread_id(id) && other != id && registry.registered(
            authority,
            now_ns,
            id,
        ).0.entries.contains_key(other) ==> live(registry, now_ns, other),
        protocol::valid_client_thread_id(id) && registry.completed(
            authority,
            now_ns,
            id,
            status,
        ).0.entries.contains_key(other) ==> live(registry, now_ns, other),
        protocol::valid_client_thread_id(id) && registry.read(
            authority,
            now_ns,
            id,
        ).0.entries.contains_key(other) ==> live(registry, now_ns, other),
        !protocol::valid_client_thread_id(id) ==> registry.registered(authority, now_ns, id).0
            == registry,
        !protocol::valid_client_thread_id(id) ==> registry.completed(
            authority,
            now_ns,
            id,
            status,
        ).0 == registry,
        !protocol::valid_client_thread_id(id) ==> registry.read(authority, now_ns, id).0 == registry,
{
}

/// A new handle is put in exactly when a well-formed identifier has no live handle; a handle takes
/// its terminal status exactly when it is well formed, live, own and pending.
pub proof fn law_handles_are_made_when_they_can_be(
    registry: ThreadSetupStatusRegistryView,
    authority: ConnectionId,
    now_ns: u128,
    id: Seq<char>,
)
    ensures
        registry.makes_pending(now_ns, id) <==> protocol::valid_client_thread_id(id) && !live(
            registry,
            now_ns,
            id,
        ),
        registry.makes_terminal(authority, now_ns, id) <==> protocol::valid_client_thread_id(id)
            && live(registry, now_ns, id) && registry.entries[id].authority == authority
            && registry.entries[id].status is Pending,
{
}

/// A status tells no more than it may exactly when it is not ready, or its identities are well
/// formed.
pub proof fn law_sanitized_statuses_are_plain(status: ThreadSetupStatusView)
    ensures
        registry::sanitized(status) <==> {
            ||| status is Pending
            ||| status is Failed
            ||| status is Ready && protocol::valid_resolved_id(status->thread_id)
                && protocol::valid_resolved_id(status->host_id)
        },
{
}

} // verus!
