//! The order in which recorded invocations are listed.

use super::invocations::SkillInvocationRecord;
use super::invocations::SkillInvocationRecordView;
use crate::text::chars_of;
use crate::text::str_eq;
use vstd::prelude::*;

verus! {

/// At index `at` the texts part for the first time, and there `left` ends or has the smaller
/// character.
pub open spec fn parts_below(left: Seq<char>, right: Seq<char>, at: int) -> bool {
    &&& 0 <= at <= left.len()
    &&& at < right.len()
    &&& forall|i: int| 0 <= i < at ==> #[trigger] left[i] == right[i]
    &&& at < left.len() ==> left[at] < right[at]
}

/// `left` comes before `right` in the order of their characters.
pub open spec fn text_below(left: Seq<char>, right: Seq<char>) -> bool {
    exists|at: int| parts_below(left, right, at)
}

/// Decides whether `left` comes before `right` in the order of their characters.
pub fn is_text_below(left: &str, right: &str) -> (below: bool)
    ensures
        below == text_below(left@, right@),
{
    let a = chars_of(left);
    let b = chars_of(right);
    let mut i: usize = 0;
    while i < a.len() && i < b.len()
        invariant
            a@ == left@,
            b@ == right@,
            i <= a@.len(),
            i <= b@.len(),
            forall|j: int| 0 <= j < i ==> #[trigger] left@[j] == right@[j],
        decreases a@.len() - i,
    {
        if a[i] != b[i] {
            let below = a[i] < b[i];
            proof {
                if below {
                    assert(parts_below(left@, right@, i as int));
                } else {
                    assert forall|at: int| !parts_below(left@, right@, at) by {
                        if parts_below(left@, right@, at) && at > i {
                            assert(left@[i as int] == right@[i as int]);
                        }
                    }
                }
            }
            return below;
        }
        i += 1;
    }
    let below = i < b.len();
    proof {
        if below {
            assert(parts_below(left@, right@, i as int));
        } else {
            assert forall|at: int| !parts_below(left@, right@, at) by {}
        }
    }
    below
}

proof fn lemma_text_irreflexive(text: Seq<char>)
    ensures
        !text_below(text, text),
{
    assert forall|at: int| !parts_below(text, text, at) by {}
}

proof fn lemma_text_transitive(a: Seq<char>, b: Seq<char>, c: Seq<char>)
    requires
        text_below(a, b),
        text_below(b, c),
    ensures
        text_below(a, c),
{
    let i = choose|i: int| parts_below(a, b, i);
    let j = choose|j: int| parts_below(b, c, j);
    let at = if i < j {
        i
    } else {
        j
    };
    assert forall|k: int| 0 <= k < at implies #[trigger] a[k] == c[k] by {
        assert(a[k] == b[k]);
        assert(b[k] == c[k]);
    }
    if i < j {
        assert(b[i] == c[i]);
    }
    if j < i {
        assert(a[j] == b[j]);
    }
    assert(parts_below(a, c, at));
}

/// `left` is listed before `right`: by time, then by thread, by turn and by the skill's path.
pub open spec fn listed_before(
    left: SkillInvocationRecordView,
    right: SkillInvocationRecordView,
) -> bool {
    ||| left.occurred_at_ms < right.occurred_at_ms
    ||| left.occurred_at_ms == right.occurred_at_ms && {
        ||| text_below(left.thread_id, right.thread_id)
        ||| left.thread_id == right.thread_id && {
            ||| text_below(left.turn_id, right.turn_id)
            ||| left.turn_id == right.turn_id && text_below(left.skill_path, right.skill_path)
        }
    }
}

/// No record is listed before one that stands before it.
pub open spec fn in_order(records: Seq<SkillInvocationRecordView>) -> bool {
    forall|i: int, j: int|
        0 <= i < j < records.len() ==> !listed_before(#[trigger] records[j], #[trigger] records[i])
}

/// Decides whether `left` is listed before `right`.
pub fn is_listed_before(left: &SkillInvocationRecord, right: &SkillInvocationRecord) -> (before:
    bool)
    ensures
        before == listed_before(left@, right@),
{
    if left.occurred_at_ms != right.occurred_at_ms {
        return left.occurred_at_ms < right.occurred_at_ms;
    }
    if !str_eq(left.thread_id.as_str(), right.thread_id.as_str()) {
        return is_text_below(left.thread_id.as_str(), right.thread_id.as_str());
    }
    proof {
        lemma_text_irreflexive(left.thread_id@);
    }
    if !str_eq(left.turn_id.as_str(), right.turn_id.as_str()) {
        return is_text_below(left.turn_id.as_str(), right.turn_id.as_str());
    }
    proof {
        lemma_text_irreflexive(left.turn_id@);
    }
    is_text_below(left.skill_path.as_str(), right.skill_path.as_str())
}

/// No record is listed before itself.
pub proof fn law_listing_order_is_irreflexive(record: SkillInvocationRecordView)
    ensures
        !listed_before(record, record),
{
    lemma_text_irreflexive(record.thread_id);
    lemma_text_irreflexive(record.turn_id);
    lemma_text_irreflexive(record.skill_path);
}

/// The listing order goes through: what is before one that is before a third is before the third.
pub proof fn law_listing_order_is_transitive(
    a: SkillInvocationRecordView,
    b: SkillInvocationRecordView,
    c: SkillInvocationRecordView,
)
    requires
        listed_before(a, b),
        listed_before(b, c),
    ensures
        listed_before(a, c),
{
    if text_below(a.thread_id, b.thread_id) && text_below(b.thread_id, c.thread_id) {
        lemma_text_transitive(a.thread_id, b.thread_id, c.thread_id);
    }
    if text_below(a.turn_id, b.turn_id) && text_below(b.turn_id, c.turn_id) {
        lemma_text_transitive(a.turn_id, b.turn_id, c.turn_id);
    }
    if text_below(a.skill_path, b.skill_path) && text_below(b.skill_path, c.skill_path) {
        lemma_text_transitive(a.skill_path, b.skill_path, c.skill_path);
    }
}

} // verus!
