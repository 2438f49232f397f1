//! The table of recorded skill invocations, one row for each event.

#[allow(unused_imports)]
use super::invocations;
use super::invocations::SkillInvocationKeyView;
use super::invocations::SkillInvocationRecord;
use super::invocations::SkillInvocationRecordView;
use super::invocations::SkillInvocationStatus;
#[allow(unused_imports)]
use super::order;
use super::order::is_listed_before;
use vstd::prelude::*;

verus! {

/// The views of a list of records.
pub open spec fn record_views(records: Seq<SkillInvocationRecord>) -> Seq<
    SkillInvocationRecordView,
> {
    records.map_values(|record: SkillInvocationRecord| record@)
}

/// Records by event.
pub struct SkillInvocationTableView {
    pub rows: Map<SkillInvocationKeyView, SkillInvocationRecordView>,
}

impl SkillInvocationTableView {
    /// There are finitely many records, and every record stands under its own event.
    pub open spec fn wf(self) -> bool {
        &&& self.rows.dom().finite()
        &&& forall|key: SkillInvocationKeyView| #[trigger]
            self.rows.contains_key(key) ==> self.rows[key].key() == key
    }

    /// The table with one more record: a new event, or the event's record with this one merged
    /// in.
    pub open spec fn recorded(self, record: SkillInvocationRecordView) -> Self {
        SkillInvocationTableView {
            rows: self.rows.insert(
                record.key(),
                if self.rows.contains_key(record.key()) {
                    self.rows[record.key()].merged_with(record)
                } else {
                    record
                },
            ),
        }
    }

    /// The table with the first `n` of a list of records, one after the other.
    pub open spec fn recorded_all(self, records: Seq<SkillInvocationRecordView>, n: int) -> Self
        decreases n,
    {
        if n <= 0 {
            self
        } else {
            self.recorded_all(records, n - 1).recorded(records[n - 1])
        }
    }
}

/// The table of recorded skill invocations.
pub struct SkillInvocationTable {
    rows: Vec<SkillInvocationRecord>,
}

/// The row at index `i` is the record of the event `key`.
spec fn row_at(rows: Seq<SkillInvocationRecord>, i: int, key: SkillInvocationKeyView) -> bool {
    0 <= i < rows.len() && rows[i]@.key() == key
}

/// No two rows are of the same event.
pub open spec fn distinct_events(rows: Seq<SkillInvocationRecordView>) -> bool {
    forall|i: int, j: int|
        0 <= i < j < rows.len() ==> (#[trigger] rows[i]).key() != (#[trigger] rows[j]).key()
}

/// The row stands at index `k`.
spec fn holds_at(
    rows: Seq<SkillInvocationRecord>,
    k: int,
    row: SkillInvocationRecord,
) -> bool {
    0 <= k < rows.len() && rows[k] == row
}

/// The row is one of the list.
spec fn among(rows: Seq<SkillInvocationRecord>, row: SkillInvocationRecord) -> bool {
    exists|k: int| holds_at(rows, k, row)
}

/// A list of rows as a map.
spec fn row_map(rows: Seq<SkillInvocationRecord>) -> Map<
    SkillInvocationKeyView,
    SkillInvocationRecordView,
> {
    Map::new(
        |key: SkillInvocationKeyView| exists|i: int| row_at(rows, i, key),
        |key: SkillInvocationKeyView| rows[choose|i: int| row_at(rows, i, key)]@,
    )
}

proof fn lemma_row_at(rows: Seq<SkillInvocationRecord>, i: int)
    requires
        distinct_events(record_views(rows)),
        0 <= i < rows.len(),
    ensures
        row_map(rows).contains_key(rows[i]@.key()),
        row_map(rows)[rows[i]@.key()] == rows[i]@,
{
    let key = rows[i]@.key();
    let views = record_views(rows);
    assert(row_at(rows, i, key));
    let j = choose|j: int| row_at(rows, j, key);
    assert(views[i] == rows[i]@ && views[j] == rows[j]@);
}

proof fn lemma_row_count(rows: Seq<SkillInvocationRecord>)
    requires
        distinct_events(record_views(rows)),
    ensures
        row_map(rows).dom().finite(),
        row_map(rows).dom().len() == rows.len(),
{
    let keys = rows.map_values(|row: SkillInvocationRecord| row@.key());
    let views = record_views(rows);
    assert forall|i: int, j: int|
        0 <= i < keys.len() && 0 <= j < keys.len() && i != j implies keys[i] != keys[j] by {
        assert(views[i] == rows[i]@ && views[j] == rows[j]@);
        if i < j {
            assert(views[i].key() != views[j].key());
        } else {
            assert(views[j].key() != views[i].key());
        }
    }
    keys.unique_seq_to_set();
    assert(row_map(rows).dom() =~= keys.to_set()) by {
        assert forall|key: SkillInvocationKeyView| #[trigger]
            row_map(rows).dom().contains(key) <==> keys.to_set().contains(key) by {
            if row_map(rows).dom().contains(key) {
                let i = choose|i: int| row_at(rows, i, key);
                assert(keys[i] == key);
            }
            if keys.contains(key) {
                let i = choose|i: int| 0 <= i < keys.len() && keys[i] == key;
                assert(row_at(rows, i, key));
            }
        }
    }
}

proof fn lemma_row_pushed(rows: Seq<SkillInvocationRecord>, row: SkillInvocationRecord)
    requires
        distinct_events(record_views(rows)),
        !row_map(rows).contains_key(row@.key()),
    ensures
        distinct_events(record_views(rows.push(row))),
        row_map(rows.push(row)) == row_map(rows).insert(row@.key(), row@),
{
    let after = rows.push(row);
    let views = record_views(rows);
    let after_views = record_views(after);
    assert forall|i: int, j: int| 0 <= i < j < after_views.len() implies (
    #[trigger] after_views[i]).key() != (#[trigger] after_views[j]).key() by {
        assert(after_views[i] == views[i]);
        if j < rows.len() {
            assert(after_views[j] == views[j]);
        } else {
            assert(row_at(rows, i, rows[i]@.key()));
        }
    }
    let expected = row_map(rows).insert(row@.key(), row@);
    assert forall|key: SkillInvocationKeyView| #[trigger]
        row_map(after).contains_key(key) <==> expected.contains_key(key) by {
        if row_map(after).contains_key(key) {
            let i = choose|i: int| row_at(after, i, key);
            if i < rows.len() {
                assert(row_at(rows, i, key));
            }
        }
        if row_map(rows).contains_key(key) {
            let i = choose|i: int| row_at(rows, i, key);
            assert(row_at(after, i, key));
        }
        assert(row_at(after, rows.len() as int, row@.key()));
    }
    assert forall|key: SkillInvocationKeyView| #[trigger]
        row_map(after).contains_key(key) implies row_map(after)[key] == expected[key] by {
        let i = choose|i: int| row_at(after, i, key);
        lemma_row_at(after, i);
        if i < rows.len() {
            lemma_row_at(rows, i);
        }
    }
    assert(row_map(after) =~= expected);
}

proof fn lemma_row_updated(rows: Seq<SkillInvocationRecord>, at: int, row: SkillInvocationRecord)
    requires
        distinct_events(record_views(rows)),
        0 <= at < rows.len(),
        row@.key() == rows[at]@.key(),
    ensures
        distinct_events(record_views(rows.update(at, row))),
        row_map(rows.update(at, row)) == row_map(rows).insert(row@.key(), row@),
{
    let after = rows.update(at, row);
    let views = record_views(rows);
    let after_views = record_views(after);
    assert forall|i: int| 0 <= i < rows.len() implies (#[trigger] after_views[i]).key()
        == views[i].key() by {}
    assert forall|i: int, j: int| 0 <= i < j < after_views.len() implies (
    #[trigger] after_views[i]).key() != (#[trigger] after_views[j]).key() by {
        assert(views[i].key() != views[j].key());
    }
    let expected = row_map(rows).insert(row@.key(), row@);
    assert forall|key: SkillInvocationKeyView| #[trigger]
        row_map(after).contains_key(key) <==> expected.contains_key(key) by {
        if row_map(after).contains_key(key) {
            let i = choose|i: int| row_at(after, i, key);
            assert(row_at(rows, i, key));
        }
        if row_map(rows).contains_key(key) {
            let i = choose|i: int| row_at(rows, i, key);
            assert(row_at(after, i, key));
        }
        assert(row_at(after, at, row@.key()));
    }
    assert forall|key: SkillInvocationKeyView| #[trigger]
        row_map(after).contains_key(key) implies row_map(after)[key] == expected[key] by {
        let i = choose|i: int| row_at(after, i, key);
        lemma_row_at(after, i);
        lemma_row_at(rows, i);
        if i != at {
            assert(views[i] == rows[i]@ && views[at] == rows[at]@);
            if i < at {
                assert(views[i].key() != views[at].key());
            } else {
                assert(views[at].key() != views[i].key());
            }
        }
    }
    assert(row_map(after) =~= expected);
}

impl View for SkillInvocationTable {
    type V = SkillInvocationTableView;

    closed spec fn view(&self) -> SkillInvocationTableView {
        SkillInvocationTableView { rows: row_map(self.rows@) }
    }
}

/// The event is that of one of the records.
pub open spec fn listed(
    records: Seq<SkillInvocationRecordView>,
    key: SkillInvocationKeyView,
) -> bool {
    exists|i: int| 0 <= i < records.len() && (#[trigger] records[i]).key() == key
}

/// The records are those of the table, one for each event: every row is listed, nothing else is,
/// and no event twice.
pub open spec fn lists(
    records: Seq<SkillInvocationRecordView>,
    table: SkillInvocationTableView,
) -> bool {
    &&& records.len() == table.rows.dom().len()
    &&& distinct_events(records)
    &&& forall|i: int|
        0 <= i < records.len() ==> table.rows.contains_key((#[trigger] records[i]).key())
            && table.rows[records[i].key()] == records[i]
    &&& forall|key: SkillInvocationKeyView| #[trigger]
        table.rows.contains_key(key) ==> listed(records, key)
}

impl SkillInvocationTable {
    /// No two rows are of the same event.
    pub closed spec fn one_row_each(&self) -> bool {
        distinct_events(record_views(self.rows@))
    }

    /// No two rows are of the same event, and what the table holds is well formed.
    pub open spec fn wf(&self) -> bool {
        &&& self.one_row_each()
        &&& self@.wf()
    }

    /// A table without rows.
    pub fn new() -> (table: Self)
        ensures
            table.wf(),
            table@.rows == Map::<SkillInvocationKeyView, SkillInvocationRecordView>::empty(),
    {
        let table = SkillInvocationTable { rows: Vec::new() };
        proof {
            assert(table@.rows =~= Map::empty());
        }
        table
    }

    /// Records one invocation.
    pub fn record_skill_invocation(&mut self, record: &SkillInvocationRecord)
        requires
            old(self).wf(),
        ensures
            final(self).wf(),
            final(self)@ == old(self)@.recorded(record@),
    {
        let mut i: usize = 0;
        while i < self.rows.len()
            invariant
                self.rows@ == old(self).rows@,
                old(self).wf(),
                distinct_events(record_views(self.rows@)),
                i <= self.rows@.len(),
                forall|j: int| 0 <= j < i ==> (#[trigger] self.rows@[j])@.key() != record@.key(),
            decreases self.rows@.len() - i,
        {
            if self.rows[i].same_event_as(record) {
                let ghost before = self.rows@;
                let merged = self.rows[i].merge(record);
                proof {
                    lemma_row_at(before, i as int);
                    lemma_row_updated(before, i as int, merged);
                }
                self.rows[i] = merged;
                return ;
            }
            i += 1;
        }
        proof {
            assert forall|j: int| !row_at(self.rows@, j, record@.key()) by {}
            lemma_row_pushed(self.rows@, *record);
        }
        self.rows.push(record.clone());
    }

    /// Records a list of invocations, one after the other.
    pub fn record_skill_invocations(&mut self, records: &Vec<SkillInvocationRecord>)
        requires
            old(self).wf(),
        ensures
            final(self).wf(),
            final(self)@ == old(self)@.recorded_all(
                record_views(records@),
                records@.len() as int,
            ),
    {
        let ghost views = record_views(records@);
        let mut i: usize = 0;
        while i < records.len()
            invariant
                views == record_views(records@),
                i <= records@.len(),
                self.wf(),
                self@ == old(self)@.recorded_all(views, i as int),
            decreases records@.len() - i,
        {
            self.record_skill_invocation(&records[i]);
            proof {
                assert(views[i as int] == records@[i as int]@);
            }
            i += 1;
        }
    }

    /// Lists the recorded invocations by time, then by thread, by turn and by the skill's path.
    pub fn skill_invocation_records(&self) -> (records: Vec<SkillInvocationRecord>)
        requires
            self.wf(),
        ensures
            lists(record_views(records@), self@),
            order::in_order(record_views(records@)),
    {
        let mut records: Vec<SkillInvocationRecord> = Vec::new();
        let mut i: usize = 0;
        while i < self.rows.len()
            invariant
                self.wf(),
                i <= self.rows@.len(),
                records@.len() == i,
                order::in_order(record_views(records@)),
                distinct_events(record_views(records@)),
                forall|k: int|
                    0 <= k < records@.len() ==> exists|j: int|
                        0 <= j < i && (#[trigger] self.rows@[j]) == (#[trigger] records@[k]),
                forall|j: int| 0 <= j < i ==> among(records@, #[trigger] self.rows@[j]),
            decreases self.rows@.len() - i,
        {
            let row = self.rows[i].clone();
            let at: usize = insertion_point(&records, &row);
            let ghost before = records@;
            proof {
                let rows = record_views(self.rows@);
                assert forall|k: int| 0 <= k < before.len() implies (#[trigger] before[k])@.key()
                    != row@.key() by {
                    let j = choose|j: int| 0 <= j < i && (#[trigger] self.rows@[j]) == before[k];
                    assert(rows[j].key() != rows[i as int].key());
                }
                lemma_inserted(before, at as int, row);
            }
            records.insert(at, row);
            proof {
                assert forall|k: int| 0 <= k < records@.len() implies exists|j: int|
                    0 <= j < i + 1 && (#[trigger] self.rows@[j]) == (#[trigger] records@[k]) by {
                    if k == at {
                        assert(self.rows@[i as int] == records@[k]);
                    } else {
                        let origin = if k < at {
                            k
                        } else {
                            k - 1
                        };
                        assert(records@[k] == before[origin]);
                        let j = choose|j: int|
                            0 <= j < i && (#[trigger] self.rows@[j]) == before[origin];
                        assert(self.rows@[j] == records@[k]);
                    }
                }
                assert forall|j: int| 0 <= j < i + 1 implies among(
                    records@,
                    #[trigger] self.rows@[j],
                ) by {
                    if j == i {
                        assert(holds_at(records@, at as int, self.rows@[j]));
                    } else {
                        assert(among(before, self.rows@[j]));
                        let k = choose|k: int| holds_at(before, k, self.rows@[j]);
                        if k < at {
                            assert(holds_at(records@, k, self.rows@[j]));
                        } else {
                            assert(holds_at(records@, k + 1, self.rows@[j]));
                        }
                    }
                }
            }
            i += 1;
        }
        proof {
            lemma_row_count(self.rows@);
            let views = record_views(records@);
            assert forall|k: int| 0 <= k < views.len() implies self@.rows.contains_key(
                (#[trigger] views[k]).key(),
            ) && self@.rows[views[k].key()] == views[k] by {
                let j = choose|j: int|
                    0 <= j < i && (#[trigger] self.rows@[j]) == records@[k];
                lemma_row_at(self.rows@, j);
            }
            assert forall|key: SkillInvocationKeyView| #[trigger]
                self@.rows.contains_key(key) implies listed(views, key) by {
                let j = choose|j: int| row_at(self.rows@, j, key);
                assert(among(records@, self.rows@[j]));
                let k = choose|k: int| holds_at(records@, k, self.rows@[j]);
                assert(views[k] == records@[k]@ && views[k].key() == key);
            }
        }
        records
    }
}

/// Finds where a record goes in an ordered list: after all that it is not listed before.
fn insertion_point(records: &Vec<SkillInvocationRecord>, row: &SkillInvocationRecord) -> (at: usize)
    requires
        order::in_order(record_views(records@)),
    ensures
        at <= records@.len(),
        forall|k: int| 0 <= k < at ==> !order::listed_before(row@, (#[trigger] records@[k])@),
        forall|k: int|
            at <= k < records@.len() ==> !order::listed_before((#[trigger] records@[k])@, row@),
{
    let mut at: usize = 0;
    while at < records.len()
        invariant
            order::in_order(record_views(records@)),
            at <= records@.len(),
            forall|k: int| 0 <= k < at ==> !order::listed_before(row@, (#[trigger] records@[k])@),
        decreases records@.len() - at,
    {
        if is_listed_before(row, &records[at]) {
            proof {
                let views = record_views(records@);
                assert forall|k: int| at <= k < records@.len() implies !order::listed_before(
                    (#[trigger] records@[k])@,
                    row@,
                ) by {
                    assert(views[k] == records@[k]@ && views[at as int] == records@[at as int]@);
                    if order::listed_before(records@[k]@, row@) {
                        order::law_listing_order_is_transitive(
                            records@[k]@,
                            row@,
                            records@[at as int]@,
                        );
                        if k == at {
                            order::law_listing_order_is_irreflexive(records@[k]@);
                        } else {
                            assert(!order::listed_before(views[k], views[at as int]));
                        }
                    }
                }
            }
            return at;
        }
        at += 1;
    }
    at
}

proof fn lemma_inserted(records: Seq<SkillInvocationRecord>, at: int, row: SkillInvocationRecord)
    requires
        0 <= at <= records.len(),
        order::in_order(record_views(records)),
        distinct_events(record_views(records)),
        forall|k: int| 0 <= k < records.len() ==> (#[trigger] records[k])@.key() != row@.key(),
        forall|k: int| 0 <= k < at ==> !order::listed_before(row@, (#[trigger] records[k])@),
        forall|k: int|
            at <= k < records.len() ==> !order::listed_before((#[trigger] records[k])@, row@),
    ensures
        order::in_order(record_views(records.insert(at, row))),
        distinct_events(record_views(records.insert(at, row))),
{
    let views = record_views(records);
    let after = record_views(records.insert(at, row));
    let origin = |k: int|
        if k < at {
            k
        } else {
            k - 1
        };
    assert forall|i: int, j: int| 0 <= i < j < after.len() implies !order::listed_before(
        #[trigger] after[j],
        #[trigger] after[i],
    ) && after[i].key() != after[j].key() by {
        if i == at {
            assert(after[j] == views[origin(j)] && views[origin(j)] == records[origin(j)]@);
        } else if j == at {
            assert(after[i] == views[i] && views[i] == records[i]@);
        } else {
            assert(after[i] == views[origin(i)]);
            assert(after[j] == views[origin(j)]);
            assert(views[origin(i)].key() != views[origin(j)].key());
        }
    }
}

proof fn lemma_recorded_keeps_wf(
    table: SkillInvocationTableView,
    records: Seq<SkillInvocationRecordView>,
    n: int,
)
    requires
        table.wf(),
        0 <= n <= records.len(),
    ensures
        table.recorded_all(records, n).wf(),
    decreases n,
{
    if n > 0 {
        lemma_recorded_keeps_wf(table, records, n - 1);
    }
}

/// The last of the first `n` records that is of the event `key`.
spec fn last_of(
    records: Seq<SkillInvocationRecordView>,
    n: int,
    key: SkillInvocationKeyView,
) -> Option<SkillInvocationRecordView>
    decreases n,
{
    if n <= 0 {
        None
    } else if records[n - 1].key() == key {
        Some(records[n - 1])
    } else {
        last_of(records, n - 1, key)
    }
}

/// The row of an event carries the name and the scope of the last record of it.
proof fn lemma_last_names(
    table: SkillInvocationTableView,
    records: Seq<SkillInvocationRecordView>,
    n: int,
    key: SkillInvocationKeyView,
)
    requires
        0 <= n <= records.len(),
    ensures
        ({
            let after = table.recorded_all(records, n);
            match last_of(records, n, key) {
                Some(record) => {
                    &&& after.rows.contains_key(key)
                    &&& after.rows[key].skill_name == record.skill_name
                    &&& after.rows[key].skill_scope == record.skill_scope
                },
                None => {
                    &&& after.rows.contains_key(key) == table.rows.contains_key(key)
                    &&& after.rows[key] == table.rows[key] || !table.rows.contains_key(key)
                },
            }
        }),
    decreases n,
{
    if n > 0 {
        lemma_last_names(table, records, n - 1, key);
    }
}

/// Recording never takes an event away, never turns success into failure, and never makes an
/// event later.
pub proof fn law_recording_only_improves(
    table: SkillInvocationTableView,
    records: Seq<SkillInvocationRecordView>,
    n: int,
    key: SkillInvocationKeyView,
)
    requires
        0 <= n <= records.len(),
        table.rows.contains_key(key),
    ensures
        ({
            let after = table.recorded_all(records, n);
            &&& after.rows.contains_key(key)
            &&& table.rows[key].status == SkillInvocationStatus::Success ==> after.rows[key].status
                == SkillInvocationStatus::Success
            &&& after.rows[key].occurred_at_ms <= table.rows[key].occurred_at_ms
        }),
    decreases n,
{
    if n > 0 {
        law_recording_only_improves(table, records, n - 1, key);
    }
}

/// What was recorded is there: the event has a row, which is a success if any record of it was,
/// and is no later than any record of it.
pub proof fn law_recorded_events_are_there(
    table: SkillInvocationTableView,
    records: Seq<SkillInvocationRecordView>,
    n: int,
    i: int,
)
    requires
        0 <= i < n <= records.len(),
    ensures
        ({
            let after = table.recorded_all(records, n);
            let key = records[i].key();
            &&& after.rows.contains_key(key)
            &&& records[i].status == SkillInvocationStatus::Success ==> after.rows[key].status
                == SkillInvocationStatus::Success
            &&& after.rows[key].occurred_at_ms <= records[i].occurred_at_ms
        }),
    decreases n,
{
    if i < n - 1 {
        law_recorded_events_are_there(table, records, n - 1, i);
    }
}

/// Recording an event leaves every other event alone; an explicit and an implicit invocation are
/// different events.
pub proof fn law_events_are_kept_apart(
    table: SkillInvocationTableView,
    record: SkillInvocationRecordView,
    key: SkillInvocationKeyView,
)
    requires
        key != record.key(),
    ensures
        table.recorded(record).rows.contains_key(key) == table.rows.contains_key(key),
        table.rows.contains_key(key) ==> table.recorded(record).rows[key] == table.rows[key],
{
}

/// Once recorded, the first `n` records of the list change nothing of an event when they are
/// recorded again, but perhaps its name and scope.
proof fn lemma_absorbed(
    after: SkillInvocationTableView,
    records: Seq<SkillInvocationRecordView>,
    n: int,
)
    requires
        after.wf(),
        0 <= n <= records.len(),
        forall|i: int|
            0 <= i < records.len() ==> {
                let key = (#[trigger] records[i]).key();
                &&& after.rows.contains_key(key)
                &&& records[i].status == SkillInvocationStatus::Success ==> after.rows[key].status
                    == SkillInvocationStatus::Success
                &&& after.rows[key].occurred_at_ms <= records[i].occurred_at_ms
            },
    ensures
        ({
            let again = after.recorded_all(records, n);
            &&& again.rows.dom() =~= after.rows.dom()
            &&& forall|key: SkillInvocationKeyView| #[trigger]
                after.rows.contains_key(key) ==> {
                    &&& again.rows[key].key() == key
                    &&& again.rows[key].status == after.rows[key].status
                    &&& again.rows[key].occurred_at_ms == after.rows[key].occurred_at_ms
                }
        }),
    decreases n,
{
    if n > 0 {
        lemma_absorbed(after, records, n - 1);
        let before = after.recorded_all(records, n - 1);
        assert(after.rows.contains_key(records[n - 1].key()));
        assert(before.rows.dom().contains(records[n - 1].key()));
    }
}

/// Events are recorded idempotently: recording the same list again leaves the table as it is.
pub proof fn law_recording_is_idempotent(
    table: SkillInvocationTableView,
    records: Seq<SkillInvocationRecordView>,
)
    requires
        table.wf(),
    ensures
        ({
            let n = records.len() as int;
            let once = table.recorded_all(records, n);
            once.recorded_all(records, n) == once
        }),
{
    let n = records.len() as int;
    let once = table.recorded_all(records, n);
    let twice = once.recorded_all(records, n);
    lemma_recorded_keeps_wf(table, records, n);
    assert forall|i: int| 0 <= i < records.len() implies {
        let key = (#[trigger] records[i]).key();
        &&& once.rows.contains_key(key)
        &&& records[i].status == SkillInvocationStatus::Success ==> once.rows[key].status
            == SkillInvocationStatus::Success
        &&& once.rows[key].occurred_at_ms <= records[i].occurred_at_ms
    } by {
        law_recorded_events_are_there(table, records, n, i);
    }
    lemma_absorbed(once, records, n);
    assert forall|key: SkillInvocationKeyView| #[trigger]
        once.rows.contains_key(key) implies twice.rows[key] == once.rows[key] by {
        lemma_last_names(table, records, n, key);
        lemma_last_names(once, records, n, key);
        assert(twice.rows[key].key() == key);
        assert(once.rows[key].key() == key);
    }
    assert(twice.rows =~= once.rows);
}

} // verus!
