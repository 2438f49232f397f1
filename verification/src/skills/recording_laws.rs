//! What records, rows, their order and the table hold: stated field by field.

#[allow(unused_imports)]
use super::invocations;
use super::invocations::SkillInvocationErrorView;
use super::invocations::SkillInvocationKeyView;
use super::invocations::SkillInvocationRecord;
use super::invocations::SkillInvocationRecordView;
use super::invocations::SkillInvocationRow;
use super::invocations::SkillInvocationRowView;
use super::invocations::SkillInvocationStatus;
use super::invocations::SkillInvocationType;
use super::invocations::SkillScope;
#[allow(unused_imports)]
use super::order;
#[allow(unused_imports)]
use super::table;
use super::table::SkillInvocationTableView;
use vstd::prelude::*;

verus! {

/// The words in which types, statuses, scopes and errors are stored and shown.
pub proof fn law_words_are_fixed(value: Seq<char>)
    ensures
        SkillInvocationType::Explicit.word() == "explicit"@,
        SkillInvocationType::Implicit.word() == "implicit"@,
        SkillInvocationStatus::Success.word() == "ok"@,
        SkillInvocationStatus::Error.word() == "error"@,
        SkillScope::User.word() == "user"@,
        SkillScope::Repo.word() == "repo"@,
        SkillScope::System.word() == "system"@,
        SkillScope::Admin.word() == "admin"@,
        SkillInvocationErrorView::InvalidThreadId.words() == "invalid thread id"@,
        (SkillInvocationErrorView::UnknownInvocationType { value }).words()
            == "unknown skill invocation type "@ + value,
        (SkillInvocationErrorView::UnknownInvocationStatus { value }).words()
            == "unknown skill invocation status "@ + value,
        (SkillInvocationErrorView::UnknownSkillScope { value }).words() == "unknown skill scope "@
            + value,
{
}

/// What a record and a row show of themselves is what they hold.
pub proof fn law_records_and_rows_show_every_field(
    record: SkillInvocationRecord,
    row: SkillInvocationRow,
)
    ensures
        record@.thread_id == record.thread_id@,
        record@.turn_id == record.turn_id@,
        record@.skill_name == record.skill_name@,
        record@.skill_path == record.skill_path@,
        record@.skill_scope == record.skill_scope,
        record@.invocation_type == record.invocation_type,
        record@.status == record.status,
        record@.occurred_at_ms == record.occurred_at_ms,
        row.thread_id is None <==> row@.thread_id is None,
        row.thread_id is Some ==> row@.thread_id == Some(row.thread_id->0@),
        row@.turn_id == row.turn_id@,
        row@.skill_name == row.skill_name@,
        row@.skill_path == row.skill_path@,
        row@.skill_scope == row.skill_scope@,
        row@.invocation_type == row.invocation_type@,
        row@.status == row.status@,
        row@.occurred_at_ms == row.occurred_at_ms,
{
}

/// Two records are of the same event exactly when they agree in thread, turn, path and type.
pub proof fn law_events_are_known_by_four_fields(
    left: SkillInvocationRecordView,
    right: SkillInvocationRecordView,
)
    ensures
        left.key() == right.key() <==> left.thread_id == right.thread_id && left.turn_id
            == right.turn_id && left.skill_path == right.skill_path && left.invocation_type
            == right.invocation_type,
        left.key().thread_id == left.thread_id,
        left.key().turn_id == left.turn_id,
        left.key().skill_path == left.skill_path,
        left.key().invocation_type == left.invocation_type,
{
}

/// A merge keeps the event, takes the later name and scope, succeeds exactly if either succeeded,
/// and is dated by the earlier of the two.
pub proof fn law_merges_keep_the_best(
    stored: SkillInvocationRecordView,
    incoming: SkillInvocationRecordView,
)
    ensures
        ({
            let merged = stored.merged_with(incoming);
            &&& merged.thread_id == stored.thread_id
            &&& merged.turn_id == stored.turn_id
            &&& merged.skill_path == stored.skill_path
            &&& merged.invocation_type == stored.invocation_type
            &&& merged.skill_name == incoming.skill_name
            &&& merged.skill_scope == incoming.skill_scope
            &&& merged.status == SkillInvocationStatus::Success <==> (stored.status
                == SkillInvocationStatus::Success || incoming.status
                == SkillInvocationStatus::Success)
            &&& merged.occurred_at_ms <= stored.occurred_at_ms
            &&& merged.occurred_at_ms <= incoming.occurred_at_ms
            &&& merged.occurred_at_ms == stored.occurred_at_ms || merged.occurred_at_ms
                == incoming.occurred_at_ms
        }),
{
}

/// A row stores every field of its record, scope, type and status by their words.
pub proof fn law_rows_store_every_field(record: SkillInvocationRecordView)
    ensures
        record.row().thread_id == Some(record.thread_id),
        record.row().turn_id == record.turn_id,
        record.row().skill_name == record.skill_name,
        record.row().skill_path == record.skill_path,
        record.row().skill_scope == record.skill_scope.word(),
        record.row().invocation_type == record.invocation_type.word(),
        record.row().status == record.status.word(),
        record.row().occurred_at_ms == record.occurred_at_ms,
{
}

/// A record merged into a stored row: everything is the record's but the status, which is a
/// success exactly if either is one, and the time, which is the earlier.
pub proof fn law_stored_rows_merge(
    stored_status: Seq<char>,
    stored_at_ms: i64,
    record: SkillInvocationRecordView,
)
    ensures
        ({
            let row = invocations::merged_row(stored_status, stored_at_ms, record);
            &&& row.thread_id == Some(record.thread_id)
            &&& row.turn_id == record.turn_id
            &&& row.skill_name == record.skill_name
            &&& row.skill_path == record.skill_path
            &&& row.skill_scope == record.skill_scope.word()
            &&& row.invocation_type == record.invocation_type.word()
            &&& stored_status == "ok"@ || record.status == SkillInvocationStatus::Success
                ==> row.status == "ok"@
            &&& stored_status != "ok"@ && record.status == SkillInvocationStatus::Error
                ==> row.status == "error"@
            &&& row.occurred_at_ms <= stored_at_ms
            &&& row.occurred_at_ms <= record.occurred_at_ms
            &&& row.occurred_at_ms == stored_at_ms || row.occurred_at_ms == record.occurred_at_ms
        }),
{
}

/// A row is read exactly when its thread identifier, its scope, its type and its status are known;
/// the first that is not, in that order, is named.
pub proof fn law_rows_are_refused_for_the_first_reason(row: SkillInvocationRowView)
    ensures
        ({
            let scope_known = row.skill_scope == "user"@ || row.skill_scope == "repo"@
                || row.skill_scope == "system"@ || row.skill_scope == "admin"@;
            let type_known = row.invocation_type == "explicit"@ || row.invocation_type
                == "implicit"@;
            let status_known = row.status == "ok"@ || row.status == "error"@;
            &&& row.thread_id is None ==> row.fault() == Some(
                SkillInvocationErrorView::InvalidThreadId,
            )
            &&& row.thread_id is Some && !scope_known ==> row.fault() == Some(
                SkillInvocationErrorView::UnknownSkillScope { value: row.skill_scope },
            )
            &&& row.thread_id is Some && scope_known && !type_known ==> row.fault() == Some(
                SkillInvocationErrorView::UnknownInvocationType { value: row.invocation_type },
            )
            &&& row.thread_id is Some && scope_known && type_known && !status_known ==> row.fault()
                == Some(SkillInvocationErrorView::UnknownInvocationStatus { value: row.status })
            &&& row.thread_id is Some && scope_known && type_known && status_known ==> row.fault()
                is None
        }),
{
    assert(SkillScope::User.word() == "user"@);
    assert(SkillScope::Repo.word() == "repo"@);
    assert(SkillScope::System.word() == "system"@);
    assert(SkillScope::Admin.word() == "admin"@);
    assert(SkillInvocationType::Explicit.word() == "explicit"@);
    assert(SkillInvocationType::Implicit.word() == "implicit"@);
    assert(SkillInvocationStatus::Success.word() == "ok"@);
    assert(SkillInvocationStatus::Error.word() == "error"@);
}

/// Texts are ordered by the first character in which they differ, and a text comes before every
/// longer one that begins with it. Of two different texts exactly one comes first.
pub proof fn law_texts_are_ordered_by_their_first_difference(
    shared: Seq<char>,
    smaller: char,
    greater: char,
    left: Seq<char>,
    right: Seq<char>,
)
    requires
        smaller < greater,
    ensures
        order::text_below(
            shared + seq![smaller] + left,
            shared + seq![greater] + right,
        ),
        !order::text_below(
            shared + seq![greater] + right,
            shared + seq![smaller] + left,
        ),
        order::text_below(shared, shared + seq![smaller] + left),
        !order::text_below(shared + seq![smaller] + left, shared),
        !order::text_below(left, left),
        left != right ==> (order::text_below(left, right) <==> !order::text_below(right, left)),
{
    let at = shared.len() as int;
    let a = shared + seq![smaller] + left;
    let b = shared + seq![greater] + right;
    assert(a[at] == smaller && b[at] == greater);
    assert(order::parts_below(a, b, at));
    assert forall|k: int| !order::parts_below(b, a, k) by {
        if order::parts_below(b, a, k) && k > at {
            assert(b[at] == a[at]);
        }
    }
    assert(order::parts_below(shared, a, at));
    assert forall|k: int| !order::parts_below(a, shared, k) by {}
    assert forall|k: int| !order::parts_below(left, left, k) by {}
    lemma_first_difference(left, right, 0);
}

proof fn lemma_first_difference(left: Seq<char>, right: Seq<char>, from: int)
    requires
        0 <= from <= left.len(),
        from <= right.len(),
        forall|i: int| 0 <= i < from ==> #[trigger] left[i] == right[i],
    ensures
        left != right ==> (order::text_below(left, right) <==> !order::text_below(right, left)),
    decreases left.len() - from,
{
    if from < left.len() && from < right.len() && left[from] == right[from] {
        lemma_first_difference(left, right, from + 1);
    } else if left != right {
        if from == left.len() && from == right.len() {
            assert(left =~= right);
        }
        assert(order::parts_below(left, right, from) || order::parts_below(right, left, from));
        assert forall|i: int, k: int|
            !(#[trigger] order::parts_below(left, right, i) && #[trigger] order::parts_below(
                right,
                left,
                k,
            )) by {
            if order::parts_below(left, right, i) && order::parts_below(right, left, k) {
                if i < k {
                    assert(right[i] == left[i]);
                }
                if k < i {
                    assert(left[k] == right[k]);
                }
            }
        }
    }
}

/// Records are listed by time; at the same time by thread; within a thread by turn; within a turn
/// by the skill's path. Two records that neither comes first of agree in all four.
pub proof fn law_records_are_listed_by_time_thread_turn_and_path(
    left: SkillInvocationRecordView,
    right: SkillInvocationRecordView,
)
    ensures
        left.occurred_at_ms < right.occurred_at_ms ==> order::listed_before(left, right)
            && !order::listed_before(right, left),
        left.occurred_at_ms == right.occurred_at_ms && left.thread_id != right.thread_id ==> (
        order::listed_before(left, right) <==> order::text_below(left.thread_id, right.thread_id)),
        left.occurred_at_ms == right.occurred_at_ms && left.thread_id == right.thread_id
            && left.turn_id != right.turn_id ==> (order::listed_before(left, right)
            <==> order::text_below(left.turn_id, right.turn_id)),
        left.occurred_at_ms == right.occurred_at_ms && left.thread_id == right.thread_id
            && left.turn_id == right.turn_id ==> (order::listed_before(left, right)
            <==> order::text_below(left.skill_path, right.skill_path)),
        !order::listed_before(left, right) && !order::listed_before(right, left) ==> {
            &&& left.occurred_at_ms == right.occurred_at_ms
            &&& left.thread_id == right.thread_id
            &&& left.turn_id == right.turn_id
            &&& left.skill_path == right.skill_path
        },
{
    lemma_first_difference(left.thread_id, right.thread_id, 0);
    lemma_first_difference(left.turn_id, right.turn_id, 0);
    lemma_first_difference(left.skill_path, right.skill_path, 0);
    assert forall|k: int| !order::parts_below(left.thread_id, left.thread_id, k) by {}
    assert forall|k: int| !order::parts_below(left.turn_id, left.turn_id, k) by {}
}

/// In an ordered list, time never decreases, and at the same time neither thread nor, within a
/// thread, turn nor, within a turn, path.
pub proof fn law_ordered_lists_ascend(records: Seq<SkillInvocationRecordView>, i: int, j: int)
    requires
        order::in_order(records),
        0 <= i < j < records.len(),
    ensures
        records[i].occurred_at_ms <= records[j].occurred_at_ms,
        records[i].occurred_at_ms == records[j].occurred_at_ms ==> {
            ||| order::text_below(records[i].thread_id, records[j].thread_id)
            ||| records[i].thread_id == records[j].thread_id && {
                ||| order::text_below(records[i].turn_id, records[j].turn_id)
                ||| records[i].turn_id == records[j].turn_id && {
                    ||| order::text_below(records[i].skill_path, records[j].skill_path)
                    ||| records[i].skill_path == records[j].skill_path
                }
            }
        },
{
    law_records_are_listed_by_time_thread_turn_and_path(records[i], records[j]);
    law_records_are_listed_by_time_thread_turn_and_path(records[j], records[i]);
    lemma_first_difference(records[i].thread_id, records[j].thread_id, 0);
    lemma_first_difference(records[i].turn_id, records[j].turn_id, 0);
    lemma_first_difference(records[i].skill_path, records[j].skill_path, 0);
}

/// The views of a list of records are theirs, one for one.
pub proof fn law_record_views_are_one_for_one(records: Seq<SkillInvocationRecord>, i: int)
    requires
        0 <= i < records.len(),
    ensures
        table::record_views(records).len() == records.len(),
        table::record_views(records)[i] == records[i]@,
{
}

/// A list of the table is the table: each record is the row of its event, each row is listed, and
/// none twice.
pub proof fn law_lists_are_the_table(
    records: Seq<SkillInvocationRecordView>,
    held: SkillInvocationTableView,
)
    requires
        table::lists(records, held),
    ensures
        records.len() == held.rows.dom().len(),
        forall|i: int, j: int|
            0 <= i < j < records.len() ==> (#[trigger] records[i]).key() != (
            #[trigger] records[j]).key(),
        forall|i: int|
            0 <= i < records.len() ==> held.rows.contains_key((#[trigger] records[i]).key())
                && held.rows[records[i].key()] == records[i],
        forall|key: SkillInvocationKeyView| #[trigger]
            held.rows.contains_key(key) ==> exists|i: int|
                0 <= i < records.len() && #[trigger] records[i] == held.rows[key],
{
    assert forall|key: SkillInvocationKeyView| #[trigger]
        held.rows.contains_key(key) implies exists|i: int|
        0 <= i < records.len() && #[trigger] records[i] == held.rows[key] by {
        assert(table::listed(records, key));
        let i = choose|i: int| 0 <= i < records.len() && (#[trigger] records[i]).key() == key;
        assert(records[i] == held.rows[key]);
    }
}

/// One more record: its event has a row afterwards, the record itself where the event is new and
/// otherwise the stored row with the record merged in. Every other row stays, and none appears.
pub proof fn law_one_more_record(
    held: SkillInvocationTableView,
    record: SkillInvocationRecordView,
    key: SkillInvocationKeyView,
)
    ensures
        ({
            let after = held.recorded(record);
            &&& after.rows.contains_key(record.key())
            &&& !held.rows.contains_key(record.key()) ==> after.rows[record.key()] == record
            &&& held.rows.contains_key(record.key()) ==> after.rows[record.key()]
                == held.rows[record.key()].merged_with(record)
            &&& key != record.key() ==> {
                &&& after.rows.contains_key(key) == held.rows.contains_key(key)
                &&& held.rows.contains_key(key) ==> after.rows[key] == held.rows[key]
            }
        }),
{
}

/// After a list of records, an event has a row exactly if it had one or a record is of it. Without
/// a record of the event the row is what it was; with one it is still a row of the event.
pub proof fn law_events_have_rows_once_recorded(
    held: SkillInvocationTableView,
    records: Seq<SkillInvocationRecordView>,
    n: int,
    key: SkillInvocationKeyView,
)
    requires
        0 <= n <= records.len(),
        held.rows.contains_key(key) ==> held.rows[key].key() == key,
    ensures
        ({
            let after = held.recorded_all(records, n);
            let any = exists|i: int| 0 <= i < n && (#[trigger] records[i]).key() == key;
            &&& after.rows.contains_key(key) <==> held.rows.contains_key(key) || any
            &&& held.rows.contains_key(key) && !any ==> after.rows[key] == held.rows[key]
            &&& held.rows.contains_key(key) || any ==> {
                &&& after.rows[key].thread_id == key.thread_id
                &&& after.rows[key].turn_id == key.turn_id
                &&& after.rows[key].skill_path == key.skill_path
                &&& after.rows[key].invocation_type == key.invocation_type
            }
        }),
    decreases n,
{
    if n > 0 {
        law_events_have_rows_once_recorded(held, records, n - 1, key);
        assert(held.recorded_all(records, n) == held.recorded_all(records, n - 1).recorded(
            records[n - 1],
        ));
    }
}

/// After a list of records, the row of an event is a success exactly if it was one or a record of
/// the event is.
pub proof fn law_rows_succeed_with_any_record(
    held: SkillInvocationTableView,
    records: Seq<SkillInvocationRecordView>,
    n: int,
    key: SkillInvocationKeyView,
)
    requires
        0 <= n <= records.len(),
    ensures
        ({
            let after = held.recorded_all(records, n);
            (after.rows.contains_key(key) && after.rows[key].status
                == SkillInvocationStatus::Success) <==> {
                ||| held.rows.contains_key(key) && held.rows[key].status
                    == SkillInvocationStatus::Success
                ||| exists|i: int|
                    0 <= i < n && (#[trigger] records[i]).key() == key && records[i].status
                        == SkillInvocationStatus::Success
            }
        }),
    decreases n,
{
    if n > 0 {
        law_rows_succeed_with_any_record(held, records, n - 1, key);
        assert(held.recorded_all(records, n) == held.recorded_all(records, n - 1).recorded(
            records[n - 1],
        ));
    }
}

/// After a list of records, the row of an event has the earliest of the times that the event was
/// recorded with.
pub proof fn law_rows_have_the_earliest_time(
    held: SkillInvocationTableView,
    records: Seq<SkillInvocationRecordView>,
    n: int,
    key: SkillInvocationKeyView,
)
    requires
        0 <= n <= records.len(),
        held.recorded_all(records, n).rows.contains_key(key),
    ensures
        ({
            let time = held.recorded_all(records, n).rows[key].occurred_at_ms;
            &&& held.rows.contains_key(key) ==> time <= held.rows[key].occurred_at_ms
            &&& forall|i: int|
                0 <= i < n && (#[trigger] records[i]).key() == key ==> time
                    <= records[i].occurred_at_ms
            &&& {
                ||| held.rows.contains_key(key) && time == held.rows[key].occurred_at_ms
                ||| exists|i: int|
                    0 <= i < n && (#[trigger] records[i]).key() == key
                        && records[i].occurred_at_ms == time
            }
        }),
    decreases n,
{
    if n > 0 {
        let before = held.recorded_all(records, n - 1);
        assert(held.recorded_all(records, n) == before.recorded(records[n - 1]));
        if before.rows.contains_key(key) {
            law_rows_have_the_earliest_time(held, records, n - 1, key);
        } else {
            assert forall|i: int| 0 <= i < n - 1 implies (#[trigger] records[i]).key() != key by {
                if records[i].key() == key {
                    table::law_recorded_events_are_there(held, records, n - 1, i);
                }
            }
            lemma_held_rows_stay(held, records, n - 1, key);
        }
    }
}

proof fn lemma_held_rows_stay(
    held: SkillInvocationTableView,
    records: Seq<SkillInvocationRecordView>,
    n: int,
    key: SkillInvocationKeyView,
)
    requires
        0 <= n <= records.len(),
    ensures
        held.rows.contains_key(key) ==> held.recorded_all(records, n).rows.contains_key(key),
    decreases n,
{
    if n > 0 {
        lemma_held_rows_stay(held, records, n - 1, key);
    }
}

/// After a list of records, the row of an event has the name and the scope of the last record of
/// the event.
pub proof fn law_rows_have_the_last_name(
    held: SkillInvocationTableView,
    records: Seq<SkillInvocationRecordView>,
    n: int,
    last: int,
)
    requires
        0 <= last < n <= records.len(),
        forall|j: int| last < j < n ==> (#[trigger] records[j]).key() != records[last].key(),
    ensures
        ({
            let row = held.recorded_all(records, n).rows[records[last].key()];
            &&& row.skill_name == records[last].skill_name
            &&& row.skill_scope == records[last].skill_scope
        }),
    decreases n,
{
    let before = held.recorded_all(records, n - 1);
    assert(held.recorded_all(records, n) == before.recorded(records[n - 1]));
    if last < n - 1 {
        law_rows_have_the_last_name(held, records, n - 1, last);
        assert(records[n - 1].key() != records[last].key());
    }
}

} // verus!
