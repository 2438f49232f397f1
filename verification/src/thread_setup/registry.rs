//! The registry of setup handles: who owns each, what became of it, and until when it is kept.
//!
//! Times are nanoseconds of a monotonic clock that the caller reads.

#[allow(unused_imports)]
use super::channel;
use super::channel::join_channel;
use super::channel::latest;
use super::channel::open_channel;
use super::channel::publish;
#[allow(unused_imports)]
use super::protocol;
use super::protocol::is_valid_client_thread_id;
use super::protocol::is_valid_resolved_id;
use super::protocol::ThreadSetupFailureCode;
use super::protocol::ThreadSetupStatus;
use super::protocol::ThreadSetupStatusError;
use super::protocol::ThreadSetupStatusView;
use crate::text::str_eq;
use vstd::prelude::*;

verus! {

/// How long a pending handle is kept: ten minutes.
pub const DEFAULT_PENDING_RETENTION_NS: u128 = 600_000_000_000;

/// How long a completed handle is kept: five minutes.
pub const DEFAULT_TERMINAL_RETENTION_NS: u128 = 300_000_000_000;

/// The connection that a handle belongs to.
#[derive(Debug, Clone, Copy, PartialEq, Eq, Structural)]
pub struct ConnectionId(pub u64);

/// One handle of the registry.
struct Entry {
    client_thread_id: String,
    authority: ConnectionId,
    status: ThreadSetupStatus,
    expires_at_ns: u128,
    status_tx: tokio::sync::watch::Sender<ThreadSetupStatus>,
}

/// The owner of a handle, its status, and the time from which it has expired.
pub struct ThreadSetupEntryView {
    pub authority: ConnectionId,
    pub status: ThreadSetupStatusView,
    pub expires_at_ns: u128,
}

impl ThreadSetupEntryView {
    /// The entry has expired and is one of those looked at: all, or those of one connection.
    pub open spec fn expired(self, now_ns: u128, authority: Option<ConnectionId>) -> bool {
        self.expires_at_ns <= now_ns && (authority matches Some(owner) ==> self.authority == owner)
    }
}

/// The handles by their client thread identifiers, and how long they are kept.
pub struct ThreadSetupStatusRegistryView {
    pub entries: Map<Seq<char>, ThreadSetupEntryView>,
    pub pending_retention_ns: u128,
    pub terminal_retention_ns: u128,
}

impl ThreadSetupStatusRegistryView {
    /// Every handle is well formed, and so are the identities that it resolved to.
    pub open spec fn wf(self) -> bool {
        &&& self.entries.dom().finite()
        &&& forall|id: Seq<char>| #[trigger]
            self.entries.contains_key(id) ==> {
                &&& protocol::valid_client_thread_id(id)
                &&& sanitized(self.entries[id].status)
            }
    }

    /// A registry without handles.
    pub open spec fn fresh(pending_retention_ns: u128, terminal_retention_ns: u128) -> Self {
        ThreadSetupStatusRegistryView {
            entries: Map::empty(),
            pending_retention_ns,
            terminal_retention_ns,
        }
    }

    /// The registry without the handles that `drop` holds of.
    pub open spec fn without(self, drop: spec_fn(ThreadSetupEntryView) -> bool) -> Self {
        ThreadSetupStatusRegistryView {
            entries: self.entries.restrict(
                self.entries.dom().filter(|id: Seq<char>| !drop(self.entries[id])),
            ),
            ..self
        }
    }

    /// The registry without the expired handles, of all connections or of one.
    pub open spec fn purged(self, now_ns: u128, authority: Option<ConnectionId>) -> Self {
        self.without(|entry: ThreadSetupEntryView| entry.expired(now_ns, authority))
    }

    /// The registry without the handles of one connection.
    pub open spec fn closed(self, authority: ConnectionId) -> Self {
        self.without(|entry: ThreadSetupEntryView| entry.authority == authority)
    }

    /// The registry with a handle put in.
    pub open spec fn with(self, id: Seq<char>, entry: ThreadSetupEntryView) -> Self {
        ThreadSetupStatusRegistryView { entries: self.entries.insert(id, entry), ..self }
    }

    /// The registry as a use of a handle at this time leaves the handles that it had: without the
    /// expired ones, unless the handle is malformed.
    pub open spec fn kept(self, now_ns: u128, id: Seq<char>) -> Self {
        if protocol::valid_client_thread_id(id) {
            self.purged(now_ns, None)
        } else {
            self
        }
    }

    /// Why a connection may not use a handle, once expired ones are gone, if it may not.
    pub open spec fn barred(self, authority: ConnectionId, id: Seq<char>) -> Option<
        ThreadSetupStatusError,
    > {
        if !self.entries.contains_key(id) {
            Some(ThreadSetupStatusError::UnknownHandle)
        } else if self.entries[id].authority != authority {
            Some(ThreadSetupStatusError::AccessDenied)
        } else {
            None
        }
    }

    /// To register the handle is to put a new one in.
    pub open spec fn makes_pending(self, now_ns: u128, id: Seq<char>) -> bool {
        protocol::valid_client_thread_id(id) && !self.purged(now_ns, None).entries.contains_key(id)
    }

    /// To complete the handle is to give it its terminal status.
    pub open spec fn makes_terminal(
        self,
        authority: ConnectionId,
        now_ns: u128,
        id: Seq<char>,
    ) -> bool {
        let kept = self.purged(now_ns, None);
        protocol::valid_client_thread_id(id) && kept.barred(authority, id) is None
            && kept.entries[id].status is Pending
    }

    /// A connection registers a handle: a new one is pending; its own stays as it is; that of
    /// another connection is denied.
    pub open spec fn registered(self, authority: ConnectionId, now_ns: u128, id: Seq<char>) -> (
        Self,
        Result<(), ThreadSetupStatusError>,
    ) {
        if !protocol::valid_client_thread_id(id) {
            (self, Err(ThreadSetupStatusError::InvalidHandle))
        } else {
            let kept = self.purged(now_ns, None);
            match kept.barred(authority, id) {
                Some(ThreadSetupStatusError::UnknownHandle) => (
                    kept.with(
                        id,
                        ThreadSetupEntryView {
                            authority,
                            status: ThreadSetupStatusView::Pending,
                            expires_at_ns: (now_ns + self.pending_retention_ns) as u128,
                        },
                    ),
                    Ok(()),
                ),
                Some(error) => (kept, Err(error)),
                None => (kept, Ok(())),
            }
        }
    }

    /// A connection completes a handle with a terminal status: a pending one takes it; one that
    /// has it stays as it is; one that has another is completed already.
    pub open spec fn completed(
        self,
        authority: ConnectionId,
        now_ns: u128,
        id: Seq<char>,
        status: ThreadSetupStatusView,
    ) -> (Self, Result<(), ThreadSetupStatusError>) {
        if !protocol::valid_client_thread_id(id) {
            (self, Err(ThreadSetupStatusError::InvalidHandle))
        } else {
            let kept = self.purged(now_ns, None);
            match kept.barred(authority, id) {
                Some(error) => (kept, Err(error)),
                None => if kept.entries[id].status is Pending {
                    (
                        kept.with(
                            id,
                            ThreadSetupEntryView {
                                authority,
                                status,
                                expires_at_ns: (now_ns + self.terminal_retention_ns) as u128,
                            },
                        ),
                        Ok(()),
                    )
                } else if kept.entries[id].status == status {
                    (kept, Ok(()))
                } else {
                    (kept, Err(ThreadSetupStatusError::AlreadyCompleted))
                },
            }
        }
    }

    /// A connection completes a handle with the identities that it resolved to.
    pub open spec fn completed_ready(
        self,
        authority: ConnectionId,
        now_ns: u128,
        id: Seq<char>,
        thread_id: Seq<char>,
        host_id: Seq<char>,
    ) -> (Self, Result<(), ThreadSetupStatusError>) {
        if !protocol::valid_resolved_id(thread_id) || !protocol::valid_resolved_id(host_id) {
            (self, Err(ThreadSetupStatusError::InvalidValue))
        } else {
            self.completed(
                authority,
                now_ns,
                id,
                ThreadSetupStatusView::Ready { thread_id, host_id },
            )
        }
    }

    /// A connection looks a handle up.
    pub open spec fn looked_up(self, authority: ConnectionId, now_ns: u128, id: Seq<char>) -> (
        Self,
        Result<ThreadSetupEntryView, ThreadSetupStatusError>,
    ) {
        if !protocol::valid_client_thread_id(id) {
            (self, Err(ThreadSetupStatusError::InvalidHandle))
        } else {
            let kept = self.purged(now_ns, None);
            match kept.barred(authority, id) {
                Some(error) => (kept, Err(error)),
                None => (kept, Ok(kept.entries[id])),
            }
        }
    }

    /// A connection reads the status of a handle.
    pub open spec fn read(self, authority: ConnectionId, now_ns: u128, id: Seq<char>) -> (
        Self,
        Result<ThreadSetupStatusView, ThreadSetupStatusError>,
    ) {
        let (after, found) = self.looked_up(authority, now_ns, id);
        (
            after,
            match found {
                Ok(entry) => Ok(entry.status),
                Err(error) => Err(error),
            },
        )
    }
}

/// A status that carries no more than well-formed identities or a failure category.
pub open spec fn sanitized(status: ThreadSetupStatusView) -> bool {
    status matches ThreadSetupStatusView::Ready { thread_id, host_id }
        ==> protocol::valid_resolved_id(thread_id) && protocol::valid_resolved_id(host_id)
}

/// The view of what a reading answers.
pub open spec fn status_result_view(
    result: Result<ThreadSetupStatus, ThreadSetupStatusError>,
) -> Result<ThreadSetupStatusView, ThreadSetupStatusError> {
    match result {
        Ok(status) => Ok(status@),
        Err(error) => Err(error),
    }
}

/// The registry of setup handles.
pub struct ThreadSetupStatusRegistry {
    entries: Vec<Entry>,
    pending_retention_ns: u128,
    terminal_retention_ns: u128,
}

impl View for Entry {
    type V = ThreadSetupEntryView;

    closed spec fn view(&self) -> ThreadSetupEntryView {
        ThreadSetupEntryView {
            authority: self.authority,
            status: self.status@,
            expires_at_ns: self.expires_at_ns,
        }
    }
}

/// The identifier of the entry at an index.
spec fn id_at(entries: Seq<Entry>, i: int) -> Seq<char> {
    entries[i].client_thread_id@
}

/// The entry at index `i` stands under the identifier `id`.
spec fn stands_at(entries: Seq<Entry>, i: int, id: Seq<char>) -> bool {
    0 <= i < entries.len() && id_at(entries, i) == id
}

/// No two entries stand under the same identifier.
spec fn distinct(entries: Seq<Entry>) -> bool {
    forall|i: int, j: int|
        0 <= i < j < entries.len() ==> #[trigger] id_at(entries, i) != #[trigger] id_at(entries, j)
}

/// The identifiers of a list of entries.
spec fn ids(entries: Seq<Entry>) -> Seq<Seq<char>> {
    entries.map_values(|entry: Entry| entry.client_thread_id@)
}

/// A list of entries as a map.
spec fn entry_map(entries: Seq<Entry>) -> Map<Seq<char>, ThreadSetupEntryView> {
    Map::new(
        |id: Seq<char>| exists|i: int| stands_at(entries, i, id),
        |id: Seq<char>| entries[choose|i: int| stands_at(entries, i, id)]@,
    )
}

/// The channel of an entry holds the entry's status.
spec fn in_step(entry: Entry) -> bool {
    channel::channel_value(entry.status_tx) == seq![entry.status@]
}

/// The receiver is joined to the channel of the entry that stands under an identifier.
spec fn watched(
    entries: Seq<Entry>,
    id: Seq<char>,
    receiver: tokio::sync::watch::Receiver<ThreadSetupStatus>,
) -> bool {
    exists|i: int| #[trigger]
        stands_at(entries, i, id) && channel::joined_to(receiver, entries[i].status_tx)
}

/// The entry stands at index `k`.
spec fn holds_at(entries: Seq<Entry>, k: int, entry: Entry) -> bool {
    0 <= k < entries.len() && entries[k] == entry
}

/// The entry is one of the list.
spec fn among(entries: Seq<Entry>, entry: Entry) -> bool {
    exists|k: int| holds_at(entries, k, entry)
}

/// Every entry of `after` is one of `before`.
spec fn drawn_from(before: Seq<Entry>, after: Seq<Entry>) -> bool {
    forall|j: int| 0 <= j < after.len() ==> among(before, #[trigger] after[j])
}

proof fn lemma_drawn_entries_stay_watched(
    before: Seq<Entry>,
    after: Seq<Entry>,
    id: Seq<char>,
    receiver: tokio::sync::watch::Receiver<ThreadSetupStatus>,
)
    requires
        distinct(before),
        drawn_from(before, after),
        watched(before, id, receiver),
        entry_map(after).contains_key(id),
    ensures
        watched(after, id, receiver),
{
    let i = choose|i: int| #[trigger]
        stands_at(before, i, id) && channel::joined_to(receiver, before[i].status_tx);
    let j = choose|j: int| stands_at(after, j, id);
    assert(among(before, after[j]));
    let k = choose|k: int| holds_at(before, k, after[j]);
    assert(id_at(before, k) == id && id_at(before, i) == id);
    assert(k == i);
    assert(stands_at(after, j, id));
}

proof fn lemma_entry_at(entries: Seq<Entry>, i: int)
    requires
        distinct(entries),
        0 <= i < entries.len(),
    ensures
        entry_map(entries).contains_key(id_at(entries, i)),
        entry_map(entries)[id_at(entries, i)] == entries[i]@,
{
    let id = id_at(entries, i);
    assert(stands_at(entries, i, id));
    let j = choose|j: int| stands_at(entries, j, id);
    assert(id_at(entries, j) == id_at(entries, i));
}

proof fn lemma_map_size(entries: Seq<Entry>)
    requires
        distinct(entries),
    ensures
        entry_map(entries).dom().finite(),
        entry_map(entries).dom().len() == entries.len(),
{
    let list = ids(entries);
    assert forall|i: int, j: int|
        0 <= i < list.len() && 0 <= j < list.len() && i != j implies list[i] != list[j] by {
        if i < j {
            assert(id_at(entries, i) != id_at(entries, j));
        } else {
            assert(id_at(entries, j) != id_at(entries, i));
        }
    }
    list.unique_seq_to_set();
    assert(entry_map(entries).dom() =~= list.to_set()) by {
        assert forall|id: Seq<char>| #[trigger]
            entry_map(entries).dom().contains(id) <==> list.to_set().contains(id) by {
            if entry_map(entries).dom().contains(id) {
                let i = choose|i: int| stands_at(entries, i, id);
                assert(list[i] == id);
            }
            if list.contains(id) {
                let i = choose|i: int| 0 <= i < list.len() && list[i] == id;
                assert(stands_at(entries, i, id));
            }
        }
    }
}

proof fn lemma_pushed(entries: Seq<Entry>, entry: Entry)
    requires
        distinct(entries),
        !entry_map(entries).contains_key(entry.client_thread_id@),
    ensures
        distinct(entries.push(entry)),
        entry_map(entries.push(entry)) == entry_map(entries).insert(
            entry.client_thread_id@,
            entry@,
        ),
{
    let after = entries.push(entry);
    let new_id = entry.client_thread_id@;
    assert forall|i: int, j: int| 0 <= i < j < after.len() implies #[trigger] id_at(after, i)
        != #[trigger] id_at(after, j) by {
        assert(id_at(after, i) == id_at(entries, i));
        if j < entries.len() {
            assert(id_at(after, j) == id_at(entries, j));
        } else {
            assert(stands_at(entries, i, id_at(entries, i)));
        }
    }
    let expected = entry_map(entries).insert(new_id, entry@);
    assert forall|id: Seq<char>| #[trigger]
        entry_map(after).contains_key(id) <==> expected.contains_key(id) by {
        if entry_map(after).contains_key(id) {
            let i = choose|i: int| stands_at(after, i, id);
            if i < entries.len() {
                assert(stands_at(entries, i, id));
            }
        }
        if entry_map(entries).contains_key(id) {
            let i = choose|i: int| stands_at(entries, i, id);
            assert(stands_at(after, i, id));
        }
        assert(stands_at(after, entries.len() as int, new_id));
    }
    assert forall|id: Seq<char>| #[trigger]
        entry_map(after).contains_key(id) implies entry_map(after)[id] == expected[id] by {
        let i = choose|i: int| stands_at(after, i, id);
        lemma_entry_at(after, i);
        if i < entries.len() {
            lemma_entry_at(entries, i);
            assert(id_at(entries, i) == id);
            assert(id != new_id);
        }
    }
    assert(entry_map(after) =~= expected);
}

proof fn lemma_updated(entries: Seq<Entry>, at: int, entry: Entry)
    requires
        distinct(entries),
        0 <= at < entries.len(),
        entry.client_thread_id@ == id_at(entries, at),
    ensures
        distinct(entries.update(at, entry)),
        entry_map(entries.update(at, entry)) == entry_map(entries).insert(
            id_at(entries, at),
            entry@,
        ),
{
    let after = entries.update(at, entry);
    assert forall|i: int| 0 <= i < after.len() implies #[trigger] id_at(after, i) == id_at(
        entries,
        i,
    ) by {}
    assert forall|i: int, j: int| 0 <= i < j < after.len() implies #[trigger] id_at(after, i)
        != #[trigger] id_at(after, j) by {
        assert(id_at(entries, i) != id_at(entries, j));
    }
    let expected = entry_map(entries).insert(id_at(entries, at), entry@);
    assert forall|id: Seq<char>| #[trigger]
        entry_map(after).contains_key(id) <==> expected.contains_key(id) by {
        if entry_map(after).contains_key(id) {
            let i = choose|i: int| stands_at(after, i, id);
            assert(stands_at(entries, i, id));
        }
        if entry_map(entries).contains_key(id) {
            let i = choose|i: int| stands_at(entries, i, id);
            assert(stands_at(after, i, id));
        }
        assert(stands_at(after, at, id_at(entries, at)));
    }
    assert forall|id: Seq<char>| #[trigger]
        entry_map(after).contains_key(id) implies entry_map(after)[id] == expected[id] by {
        let i = choose|i: int| stands_at(after, i, id);
        lemma_entry_at(after, i);
        lemma_entry_at(entries, i);
        if i != at {
            assert(id_at(entries, i) != id_at(entries, at));
        }
    }
    assert(entry_map(after) =~= expected);
}

proof fn lemma_swap_removed(entries: Seq<Entry>, at: int)
    requires
        distinct(entries),
        0 <= at < entries.len(),
    ensures
        distinct(entries.update(at, entries.last()).drop_last()),
        entry_map(entries.update(at, entries.last()).drop_last()) == entry_map(entries).remove(
            id_at(entries, at),
        ),
{
    let last = entries.len() - 1;
    let after = entries.update(at, entries.last()).drop_last();
    let origin = |i: int| if i == at { last } else { i };
    assert forall|i: int| 0 <= i < after.len() implies #[trigger] after[i] == entries[origin(
        i,
    )] by {}
    assert forall|i: int, j: int| 0 <= i < j < after.len() implies #[trigger] id_at(after, i)
        != #[trigger] id_at(after, j) by {
        let a = origin(i);
        let b = origin(j);
        assert(id_at(after, i) == id_at(entries, a));
        assert(id_at(after, j) == id_at(entries, b));
        if a < b {
            assert(id_at(entries, a) != id_at(entries, b));
        } else {
            assert(id_at(entries, b) != id_at(entries, a));
        }
    }
    let gone = id_at(entries, at);
    let expected = entry_map(entries).remove(gone);
    assert forall|id: Seq<char>| #[trigger]
        entry_map(after).contains_key(id) <==> expected.contains_key(id) by {
        if entry_map(after).contains_key(id) {
            let i = choose|i: int| stands_at(after, i, id);
            let a = origin(i);
            assert(stands_at(entries, a, id));
            if a < at {
                assert(id_at(entries, a) != id_at(entries, at));
            } else {
                assert(id_at(entries, at) != id_at(entries, a));
            }
        }
        if expected.contains_key(id) {
            let i = choose|i: int| stands_at(entries, i, id);
            assert(i != at);
            if i == last {
                assert(stands_at(after, at, id));
            } else {
                assert(stands_at(after, i, id));
            }
        }
    }
    assert forall|id: Seq<char>| #[trigger]
        entry_map(after).contains_key(id) implies entry_map(after)[id] == expected[id] by {
        let i = choose|i: int| stands_at(after, i, id);
        lemma_entry_at(after, i);
        lemma_entry_at(entries, origin(i));
        assert(id_at(entries, origin(i)) == id);
    }
    assert(entry_map(after) =~= expected);
}

impl View for ThreadSetupStatusRegistry {
    type V = ThreadSetupStatusRegistryView;

    closed spec fn view(&self) -> ThreadSetupStatusRegistryView {
        ThreadSetupStatusRegistryView {
            entries: entry_map(self.entries@),
            pending_retention_ns: self.pending_retention_ns,
            terminal_retention_ns: self.terminal_retention_ns,
        }
    }
}

/// Which entries are to go.
enum Doomed {
    /// Those that have expired, of all connections or of one.
    Expired { now_ns: u128, authority: Option<ConnectionId> },
    /// Those of one connection.
    OwnedBy { owner: ConnectionId },
}

impl Doomed {
    /// The entry is to go.
    spec fn strikes(self, entry: ThreadSetupEntryView) -> bool {
        match self {
            Doomed::Expired { now_ns, authority } => entry.expired(now_ns, authority),
            Doomed::OwnedBy { owner } => entry.authority == owner,
        }
    }

    /// Decides whether the entry is to go.
    fn hits(&self, entry: &Entry) -> (doomed: bool)
        ensures
            doomed == self.strikes(entry@),
    {
        match self {
            Doomed::Expired { now_ns, authority } => entry.expires_at_ns <= *now_ns
                && match authority {
                Some(owner) => entry.authority == *owner,
                None => true,
            },
            Doomed::OwnedBy { owner } => entry.authority == *owner,
        }
    }
}

impl ThreadSetupStatusRegistry {
    /// No two entries stand under the same identifier, and every channel holds the status of its
    /// entry.
    pub closed spec fn intact(&self) -> bool {
        &&& distinct(self.entries@)
        &&& forall|i: int| 0 <= i < self.entries@.len() ==> in_step(#[trigger] self.entries@[i])
    }

    /// The registry is intact, and what it holds is well formed.
    pub open spec fn wf(&self) -> bool {
        &&& self.intact()
        &&& self@.wf()
    }

    /// What the channel of a handle holds.
    pub closed spec fn published(&self, id: Seq<char>) -> Seq<ThreadSetupStatusView> {
        channel::channel_value(
            self.entries@[choose|i: int| stands_at(self.entries@, i, id)].status_tx,
        )
    }

    /// The receiver is joined to the channel of a handle.
    pub closed spec fn watched_by(
        &self,
        id: Seq<char>,
        receiver: tokio::sync::watch::Receiver<ThreadSetupStatus>,
    ) -> bool {
        watched(self.entries@, id, receiver)
    }

    /// Whoever watches one of these handles still watches it in `after`.
    pub open spec fn keeps_watchers(&self, after: Self, ids: Set<Seq<char>>) -> bool {
        forall|id: Seq<char>, receiver: tokio::sync::watch::Receiver<ThreadSetupStatus>|
            #![trigger self.watched_by(id, receiver)]
            #![trigger after.watched_by(id, receiver)]
            ids.contains(id) && self.watched_by(id, receiver) ==> after.watched_by(id, receiver)
    }

    /// The receiver is joined to a channel of the registry that holds this status.
    pub closed spec fn shows(
        &self,
        receiver: tokio::sync::watch::Receiver<ThreadSetupStatus>,
        status: ThreadSetupStatusView,
    ) -> bool {
        exists|i: int|
            0 <= i < self.entries@.len() && channel::joined_to(
                receiver,
                (#[trigger] self.entries@[i]).status_tx,
            ) && channel::channel_value(self.entries@[i].status_tx) == seq![status]
    }

    /// An empty registry that keeps handles for the default times.
    pub fn new() -> (registry: Self)
        ensures
            registry.wf(),
            registry@ == ThreadSetupStatusRegistryView::fresh(
                DEFAULT_PENDING_RETENTION_NS,
                DEFAULT_TERMINAL_RETENTION_NS,
            ),
    {
        Self::new_with_durations(DEFAULT_PENDING_RETENTION_NS, DEFAULT_TERMINAL_RETENTION_NS)
    }

    /// An empty registry that keeps pending and completed handles for these times.
    pub fn new_with_durations(pending_retention_ns: u128, terminal_retention_ns: u128) -> (registry:
        Self)
        ensures
            registry.wf(),
            registry@ == ThreadSetupStatusRegistryView::fresh(
                pending_retention_ns,
                terminal_retention_ns,
            ),
    {
        let registry = ThreadSetupStatusRegistry {
            entries: Vec::new(),
            pending_retention_ns,
            terminal_retention_ns,
        };
        proof {
            assert(registry@.entries =~= Map::empty());
        }
        registry
    }

    /// The handle through which a connection uses the registry.
    pub fn handle_for(&self, authority: ConnectionId) -> (handle: ThreadSetupStatusHandle)
        ensures
            handle.authority() == authority,
    {
        ThreadSetupStatusHandle { authority }
    }

    /// Drops entries, and answers how many went.
    fn drop_entries(&mut self, doomed: Doomed) -> (removed: usize)
        requires
            old(self).wf(),
        ensures
            final(self).wf(),
            final(self)@ == old(self)@.without(|entry: ThreadSetupEntryView| doomed.strikes(entry)),
            old(self).keeps_watchers(*final(self), final(self)@.entries.dom()),
            removed == old(self)@.entries.dom().len() - final(self)@.entries.dom().len(),
    {
        let ghost start = self@.entries;
        let mut removed: usize = 0;
        let mut i: usize = 0;
        let total: usize = self.entries.len();
        proof {
            lemma_map_size(self.entries@);
            assert forall|j: int| 0 <= j < self.entries@.len() implies among(
                old(self).entries@,
                #[trigger] self.entries@[j],
            ) by {
                assert(holds_at(old(self).entries@, j, self.entries@[j]));
            }
        }
        while i < self.entries.len()
            invariant
                start == old(self)@.entries,
                start.dom().finite(),
                old(self)@.wf(),
                drawn_from(old(self).entries@, self.entries@),
                self@.pending_retention_ns == old(self)@.pending_retention_ns,
                self@.terminal_retention_ns == old(self)@.terminal_retention_ns,
                distinct(self.entries@),
                forall|j: int|
                    0 <= j < self.entries@.len() ==> in_step(#[trigger] self.entries@[j]),
                forall|id: Seq<char>| #[trigger]
                    self@.entries.contains_key(id) ==> start.contains_key(id)
                        && self@.entries[id] == start[id],
                forall|id: Seq<char>| #[trigger]
                    start.contains_key(id) && !self@.entries.contains_key(id) ==> doomed.strikes(
                        start[id],
                    ),
                i <= self.entries@.len(),
                forall|j: int| 0 <= j < i ==> !doomed.strikes((#[trigger] self.entries@[j])@),
                removed + self.entries@.len() == total,
                total == start.dom().len(),
            decreases self.entries@.len() - i,
        {
            let ghost before = self.entries@;
            let ghost held = self@.entries;
            if doomed.hits(&self.entries[i]) {
                proof {
                    lemma_swap_removed(before, i as int);
                    lemma_entry_at(before, i as int);
                }
                let _ = self.entries.swap_remove(i);
                removed += 1;
                proof {
                    assert(self@.entries == held.remove(id_at(before, i as int)));
                    assert forall|id: Seq<char>| #[trigger]
                        self@.entries.contains_key(id) implies start.contains_key(id)
                        && self@.entries[id] == start[id] by {
                        assert(held.contains_key(id));
                    }
                    assert forall|j: int| 0 <= j < self.entries@.len() implies in_step(
                        #[trigger] self.entries@[j],
                    ) by {
                        if j == i {
                            assert(in_step(before[before.len() - 1]));
                        } else {
                            assert(in_step(before[j]));
                        }
                    }
                    assert forall|j: int| 0 <= j < self.entries@.len() implies among(
                        old(self).entries@,
                        #[trigger] self.entries@[j],
                    ) by {
                        if j == i {
                            assert(self.entries@[j] == before[before.len() - 1]);
                        } else {
                            assert(self.entries@[j] == before[j]);
                        }
                    }
                    assert forall|j: int| 0 <= j < i implies !doomed.strikes(
                        (#[trigger] self.entries@[j])@,
                    ) by {
                        assert(self.entries@[j] == before[j]);
                    }
                }
            } else {
                i += 1;
            }
        }
        proof {
            lemma_map_size(self.entries@);
            let expected = old(self)@.without(
                |entry: ThreadSetupEntryView| doomed.strikes(entry),
            );
            assert forall|id: Seq<char>| #[trigger]
                self@.entries.contains_key(id) <==> expected.entries.contains_key(id) by {
                if self@.entries.contains_key(id) {
                    let j = choose|j: int| stands_at(self.entries@, j, id);
                    lemma_entry_at(self.entries@, j);
                    assert(!doomed.strikes(self.entries@[j]@));
                }
            }
            assert(self@.entries =~= expected.entries);
            assert forall|
                id: Seq<char>,
                receiver: tokio::sync::watch::Receiver<ThreadSetupStatus>,
            |
                #![trigger self.watched_by(id, receiver)]
                self@.entries.dom().contains(id) && old(self).watched_by(
                    id,
                    receiver,
                ) implies self.watched_by(id, receiver) by {
                lemma_drawn_entries_stay_watched(
                    old(self).entries@,
                    self.entries@,
                    id,
                    receiver,
                );
            }
        }
        removed
    }

    /// Drops the expired handles, of all connections or of one, and answers how many went.
    pub fn purge_expired(&mut self, now_ns: u128, authority: Option<ConnectionId>) -> (removed:
        usize)
        requires
            old(self).wf(),
        ensures
            final(self).wf(),
            final(self)@ == old(self)@.purged(now_ns, authority),
            old(self).keeps_watchers(*final(self), final(self)@.entries.dom()),
            removed == old(self)@.entries.dom().len() - final(self)@.entries.dom().len(),
    {
        let removed: usize = self.drop_entries(Doomed::Expired { now_ns, authority });
        proof {
            assert(self@.entries =~= old(self)@.purged(now_ns, authority).entries);
        }
        removed
    }

    /// Drops the handles of a connection that is gone.
    pub fn connection_closed(&mut self, authority: ConnectionId)
        requires
            old(self).wf(),
        ensures
            final(self).wf(),
            final(self)@ == old(self)@.closed(authority),
            old(self).keeps_watchers(*final(self), final(self)@.entries.dom()),
    {
        let _ = self.drop_entries(Doomed::OwnedBy { owner: authority });
        proof {
            assert(self@.entries =~= old(self)@.closed(authority).entries);
        }
    }

    /// Finds the entry that stands under an identifier.
    fn find(&self, client_thread_id: &str) -> (found: Option<usize>)
        requires
            self.wf(),
        ensures
            match found {
                Some(i) => {
                    &&& i < self.entries@.len()
                    &&& id_at(self.entries@, i as int) == client_thread_id@
                    &&& self@.entries.contains_key(client_thread_id@)
                    &&& self@.entries[client_thread_id@] == self.entries@[i as int]@
                },
                None => !self@.entries.contains_key(client_thread_id@),
            },
    {
        let mut i: usize = 0;
        while i < self.entries.len()
            invariant
                self.wf(),
                i <= self.entries@.len(),
                forall|j: int|
                    0 <= j < i ==> #[trigger] id_at(self.entries@, j) != client_thread_id@,
            decreases self.entries@.len() - i,
        {
            if str_eq(self.entries[i].client_thread_id.as_str(), client_thread_id) {
                proof {
                    lemma_entry_at(self.entries@, i as int);
                }
                return Some(i);
            }
            i += 1;
        }
        None
    }

    /// Reads the status that a receiver is shown: that of the handle, where it watches the handle.
    pub(crate) fn shown(
        &self,
        client_thread_id: &str,
        receiver: &tokio::sync::watch::Receiver<ThreadSetupStatus>,
    ) -> (status: ThreadSetupStatus)
        requires
            self.wf(),
        ensures
            self.watched_by(client_thread_id@, *receiver) ==> {
                &&& self@.entries.contains_key(client_thread_id@)
                &&& status@ == self@.entries[client_thread_id@].status
            },
    {
        match self.find(client_thread_id) {
            Some(i) => {
                let status = latest(receiver, Some(&self.entries[i].status_tx));
                proof {
                    assert(in_step(self.entries@[i as int]));
                    if self.watched_by(client_thread_id@, *receiver) {
                        let k = choose|k: int| #[trigger]
                            stands_at(self.entries@, k, client_thread_id@) && channel::joined_to(
                                *receiver,
                                self.entries@[k].status_tx,
                            );
                        assert(id_at(self.entries@, k) == id_at(self.entries@, i as int));
                        assert(k == i);
                        assert(seq![status@][0] == seq![self.entries@[i as int].status@][0]);
                    }
                }
                status
            },
            None => {
                proof {
                    if self.watched_by(client_thread_id@, *receiver) {
                        let k = choose|k: int| #[trigger]
                            stands_at(self.entries@, k, client_thread_id@) && channel::joined_to(
                                *receiver,
                                self.entries@[k].status_tx,
                            );
                        lemma_entry_at(self.entries@, k);
                    }
                }
                latest(receiver, None)
            },
        }
    }

    /// Finds the entry of a handle that a connection may use.
    fn usable(&self, authority: ConnectionId, client_thread_id: &str) -> (found: Result<
        usize,
        ThreadSetupStatusError,
    >)
        requires
            self.wf(),
        ensures
            match found {
                Ok(i) => {
                    &&& self@.barred(authority, client_thread_id@) is None
                    &&& i < self.entries@.len()
                    &&& id_at(self.entries@, i as int) == client_thread_id@
                    &&& self@.entries[client_thread_id@] == self.entries@[i as int]@
                },
                Err(error) => self@.barred(authority, client_thread_id@) == Some(error),
            },
    {
        match self.find(client_thread_id) {
            None => Err(ThreadSetupStatusError::UnknownHandle),
            Some(i) => if self.entries[i].authority != authority {
                Err(ThreadSetupStatusError::AccessDenied)
            } else {
                Ok(i)
            },
        }
    }
}

/// The channel of every handle holds the status that the registry holds.
pub proof fn law_channels_hold_the_status(registry: ThreadSetupStatusRegistry, id: Seq<char>)
    requires
        registry.wf(),
        registry@.entries.contains_key(id),
    ensures
        registry.published(id) == seq![registry@.entries[id].status],
{
    let i = choose|i: int| stands_at(registry.entries@, i, id);
    assert(in_step(registry.entries@[i]));
}

/// Those who wait for a handle and those who read it see one status: whoever watches a handle is
/// shown the status that the registry holds of it.
pub proof fn law_waiters_and_readers_see_one_status(
    registry: ThreadSetupStatusRegistry,
    id: Seq<char>,
    receiver: tokio::sync::watch::Receiver<ThreadSetupStatus>,
)
    requires
        registry.wf(),
        registry.watched_by(id, receiver),
    ensures
        registry@.entries.contains_key(id),
        registry.shows(receiver, registry@.entries[id].status),
{
    let i = choose|i: int| #[trigger]
        stands_at(registry.entries@, i, id) && channel::joined_to(
            receiver,
            registry.entries@[i].status_tx,
        );
    lemma_entry_at(registry.entries@, i);
    assert(in_step(registry.entries@[i]));
}

/// A completion is shown to those who wait already: whoever watched the handle before watches it
/// still, and is shown the status that it was completed with.
pub proof fn law_completions_are_shown_to_waiters(
    before: ThreadSetupStatusRegistry,
    after: ThreadSetupStatusRegistry,
    authority: ConnectionId,
    now_ns: u128,
    id: Seq<char>,
    status: ThreadSetupStatusView,
    receiver: tokio::sync::watch::Receiver<ThreadSetupStatus>,
)
    requires
        before.wf(),
        after.wf(),
        before.keeps_watchers(after, after@.entries.dom()),
        (after@, Ok::<(), ThreadSetupStatusError>(())) == before@.completed(
            authority,
            now_ns,
            id,
            status,
        ),
        before.watched_by(id, receiver),
    ensures
        after.watched_by(id, receiver),
        after.shows(receiver, status),
{
    assert(after@.entries.dom().contains(id));
    law_waiters_and_readers_see_one_status(after, id, receiver);
}

/// Connection-scoped host API for asynchronous thread setup state.
///
/// A handle is bound to the app-server connection that created it. Hosts use
/// it to register the opaque client handle before setup begins and to publish
/// only the terminal identities or a sanitized failure code. The same registry
/// is read through `thread/setupStatus/read`.
#[derive(Debug, Clone, Copy)]
pub struct ThreadSetupStatusHandle {
    authority: ConnectionId,
}

/// A place among those who wait for a handle: the channel, and when the handle expires.
pub struct ThreadSetupSubscription {
    /// The channel of the handle. No borrow of its value may be held across a use of the registry:
    /// a completion would wait for it.
    pub receiver: tokio::sync::watch::Receiver<ThreadSetupStatus>,
    pub expires_at_ns: u128,
}

impl ThreadSetupStatusHandle {
    /// The connection that the handle acts for.
    pub closed spec fn authority(&self) -> ConnectionId {
        self.authority
    }

    /// Registers a pending handle. Re-registering the same handle on the same
    /// connection is idempotent; another connection cannot claim it.
    pub fn register(
        &self,
        registry: &mut ThreadSetupStatusRegistry,
        now_ns: u128,
        client_thread_id: &str,
    ) -> (result: Result<(), ThreadSetupStatusError>)
        requires
            old(registry).wf(),
            old(registry)@.makes_pending(now_ns, client_thread_id@) ==> now_ns + old(
                registry,
            )@.pending_retention_ns <= u128::MAX,
        ensures
            final(registry).wf(),
            (final(registry)@, result) == old(registry)@.registered(
                self.authority(),
                now_ns,
                client_thread_id@,
            ),
            old(registry).keeps_watchers(
                *final(registry),
                old(registry)@.kept(now_ns, client_thread_id@).entries.dom(),
            ),
    {
        if !is_valid_client_thread_id(client_thread_id) {
            return Err(ThreadSetupStatusError::InvalidHandle);
        }
        let _ = registry.purge_expired(now_ns, None);
        match registry.usable(self.authority, client_thread_id) {
            Ok(_) => Ok(()),
            Err(ThreadSetupStatusError::UnknownHandle) => {
                let entry = Entry {
                    client_thread_id: client_thread_id.to_owned(),
                    authority: self.authority,
                    status: ThreadSetupStatus::Pending,
                    expires_at_ns: now_ns + registry.pending_retention_ns,
                    status_tx: open_channel(ThreadSetupStatus::Pending),
                };
                let ghost before = registry.entries@;
                proof {
                    lemma_pushed(before, entry);
                }
                registry.entries.push(entry);
                proof {
                    assert forall|
                        id: Seq<char>,
                        receiver: tokio::sync::watch::Receiver<ThreadSetupStatus>,
                    | #[trigger]
                        watched(before, id, receiver) implies registry.watched_by(id, receiver) by {
                        let i = choose|i: int| #[trigger]
                            stands_at(before, i, id) && channel::joined_to(
                                receiver,
                                before[i].status_tx,
                            );
                        assert(stands_at(registry.entries@, i, id));
                    }
                }
                Ok(())
            },
            Err(error) => Err(error),
        }
    }

    /// Publishes the canonical thread and host identities for a completed setup.
    pub fn complete_ready(
        &self,
        registry: &mut ThreadSetupStatusRegistry,
        now_ns: u128,
        client_thread_id: &str,
        thread_id: &str,
        host_id: &str,
    ) -> (result: Result<(), ThreadSetupStatusError>)
        requires
            old(registry).wf(),
            old(registry)@.makes_terminal(self.authority(), now_ns, client_thread_id@) ==> now_ns
                + old(registry)@.terminal_retention_ns <= u128::MAX,
        ensures
            final(registry).wf(),
            (final(registry)@, result) == old(registry)@.completed_ready(
                self.authority(),
                now_ns,
                client_thread_id@,
                thread_id@,
                host_id@,
            ),
            old(registry).keeps_watchers(*final(registry), final(registry)@.entries.dom()),
    {
        if !is_valid_resolved_id(thread_id) || !is_valid_resolved_id(host_id) {
            return Err(ThreadSetupStatusError::InvalidValue);
        }
        self.complete(
            registry,
            now_ns,
            client_thread_id,
            ThreadSetupStatus::Ready {
                thread_id: thread_id.to_owned(),
                host_id: host_id.to_owned(),
            },
        )
    }

    /// Publishes a sanitized terminal failure category.
    pub fn complete_failed(
        &self,
        registry: &mut ThreadSetupStatusRegistry,
        now_ns: u128,
        client_thread_id: &str,
        code: ThreadSetupFailureCode,
    ) -> (result: Result<(), ThreadSetupStatusError>)
        requires
            old(registry).wf(),
            old(registry)@.makes_terminal(self.authority(), now_ns, client_thread_id@) ==> now_ns
                + old(registry)@.terminal_retention_ns <= u128::MAX,
        ensures
            final(registry).wf(),
            (final(registry)@, result) == old(registry)@.completed(
                self.authority(),
                now_ns,
                client_thread_id@,
                ThreadSetupStatusView::Failed { code },
            ),
            old(registry).keeps_watchers(*final(registry), final(registry)@.entries.dom()),
    {
        self.complete(registry, now_ns, client_thread_id, ThreadSetupStatus::Failed { code })
    }

    /// Completes a handle with a terminal status, and publishes it to those who wait. A completed
    /// handle keeps its status and its expiry.
    pub fn complete(
        &self,
        registry: &mut ThreadSetupStatusRegistry,
        now_ns: u128,
        client_thread_id: &str,
        status: ThreadSetupStatus,
    ) -> (result: Result<(), ThreadSetupStatusError>)
        requires
            old(registry).wf(),
            sanitized(status@),
            old(registry)@.makes_terminal(self.authority(), now_ns, client_thread_id@) ==> now_ns
                + old(registry)@.terminal_retention_ns <= u128::MAX,
        ensures
            final(registry).wf(),
            (final(registry)@, result) == old(registry)@.completed(
                self.authority(),
                now_ns,
                client_thread_id@,
                status@,
            ),
            ({
                let id = client_thread_id@;
                let held = old(registry)@.entries[id];
                protocol::valid_client_thread_id(id) && old(registry)@.entries.contains_key(id)
                    && held.expires_at_ns > now_ns && held.authority == self.authority()
                    && held.status.terminal() ==> {
                    &&& result == if status@ == held.status {
                        Ok::<(), ThreadSetupStatusError>(())
                    } else {
                        Err(ThreadSetupStatusError::AlreadyCompleted)
                    }
                    &&& final(registry)@.entries.contains_key(id)
                    &&& final(registry)@.entries[id] == held
                }
            }),
            old(registry).keeps_watchers(*final(registry), final(registry)@.entries.dom()),
    {
        if !is_valid_client_thread_id(client_thread_id) {
            return Err(ThreadSetupStatusError::InvalidHandle);
        }
        let _ = registry.purge_expired(now_ns, None);
        let i: usize = match registry.usable(self.authority, client_thread_id) {
            Ok(i) => i,
            Err(error) => {
                return Err(error);
            },
        };
        if registry.entries[i].status.is_terminal() {
            return if registry.entries[i].status.same_as(&status) {
                Ok(())
            } else {
                Err(ThreadSetupStatusError::AlreadyCompleted)
            };
        }
        let ghost before = registry.entries@;
        let expires_at_ns: u128 = now_ns + registry.terminal_retention_ns;
        registry.entries[i].status = status.clone();
        registry.entries[i].expires_at_ns = expires_at_ns;
        publish(&mut registry.entries[i].status_tx, status);
        proof {
            assert(registry.entries@ =~= before.update(i as int, registry.entries@[i as int]));
            lemma_updated(before, i as int, registry.entries@[i as int]);
            assert forall|
                id: Seq<char>,
                receiver: tokio::sync::watch::Receiver<ThreadSetupStatus>,
            | #[trigger]
                watched(before, id, receiver) implies registry.watched_by(id, receiver) by {
                let k = choose|k: int| #[trigger]
                    stands_at(before, k, id) && channel::joined_to(receiver, before[k].status_tx);
                assert(stands_at(registry.entries@, k, id));
                assert(channel::joined_to(receiver, registry.entries@[k].status_tx));
            }
        }
        Ok(())
    }

    /// Reads a setup status without consulting thread history or list state.
    pub fn get_thread_setup_status(
        &self,
        registry: &mut ThreadSetupStatusRegistry,
        now_ns: u128,
        client_thread_id: &str,
    ) -> (result: Result<ThreadSetupStatus, ThreadSetupStatusError>)
        requires
            old(registry).wf(),
        ensures
            final(registry).wf(),
            (final(registry)@, status_result_view(result)) == old(registry)@.read(
                self.authority(),
                now_ns,
                client_thread_id@,
            ),
            old(registry).keeps_watchers(*final(registry), final(registry)@.entries.dom()),
    {
        if !is_valid_client_thread_id(client_thread_id) {
            return Err(ThreadSetupStatusError::InvalidHandle);
        }
        let _ = registry.purge_expired(now_ns, None);
        match registry.usable(self.authority, client_thread_id) {
            Ok(i) => Ok(registry.entries[i].status.clone()),
            Err(error) => Err(error),
        }
    }

    /// Joins those who wait for a handle.
    pub(crate) fn subscribe(
        &self,
        registry: &mut ThreadSetupStatusRegistry,
        now_ns: u128,
        client_thread_id: &str,
    ) -> (result: Result<ThreadSetupSubscription, ThreadSetupStatusError>)
        requires
            old(registry).wf(),
        ensures
            final(registry).wf(),
            ({
                let (after, found) = old(registry)@.looked_up(
                    self.authority(),
                    now_ns,
                    client_thread_id@,
                );
                &&& final(registry)@ == after
                &&& match result {
                    Ok(subscription) => {
                        &&& found is Ok
                        &&& channel::subscribed_to(subscription.receiver)
                            == seq![found->Ok_0.status]
                        &&& subscription.expires_at_ns == found->Ok_0.expires_at_ns
                        &&& final(registry).watched_by(client_thread_id@, subscription.receiver)
                    },
                    Err(error) => found == Err::<ThreadSetupEntryView, _>(error),
                }
            }),
            old(registry).keeps_watchers(*final(registry), final(registry)@.entries.dom()),
    {
        if !is_valid_client_thread_id(client_thread_id) {
            return Err(ThreadSetupStatusError::InvalidHandle);
        }
        let _ = registry.purge_expired(now_ns, None);
        match registry.usable(self.authority, client_thread_id) {
            Ok(i) => {
                let receiver = join_channel(&registry.entries[i].status_tx);
                proof {
                    assert(in_step(registry.entries@[i as int]));
                    assert(stands_at(registry.entries@, i as int, client_thread_id@));
                }
                Ok(
                    ThreadSetupSubscription {
                        receiver,
                        expires_at_ns: registry.entries[i].expires_at_ns,
                    },
                )
            },
            Err(error) => Err(error),
        }
    }

    /// Removes expired handles owned by this connection and returns the count.
    pub fn cleanup_expired(&self, registry: &mut ThreadSetupStatusRegistry, now_ns: u128) -> (removed:
        usize)
        requires
            old(registry).wf(),
        ensures
            final(registry).wf(),
            final(registry)@ == old(registry)@.purged(now_ns, Some(self.authority())),
            old(registry).keeps_watchers(*final(registry), final(registry)@.entries.dom()),
            removed == old(registry)@.entries.dom().len() - final(registry)@.entries.dom().len(),
    {
        registry.purge_expired(now_ns, Some(self.authority))
    }
}

} // verus!
