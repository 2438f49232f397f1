//! What a recording counts, and what it leaves: stated of the input, the candidates and the
//! receipt themselves.

#[allow(unused_imports)]
use super::attribution;
use super::attribution::SkillReadReceiptKey;
#[allow(unused_imports)]
use super::telemetry;
use super::telemetry::SkillReadKeyView;
use super::telemetry::SkillReadProvenanceView;
use super::telemetry::SkillReadTelemetryOutcome;
use super::telemetry::SkillReadTelemetryView;
#[allow(unused_imports)]
use crate::digest;
#[allow(unused_imports)]
use crate::provider::items;
#[allow(unused_imports)]
use crate::provider::types;
use crate::provider::types::ProviderRequestAttributionError;
use crate::provider::types::ProviderRequestAttributionErrorView;
use crate::provider::types::ProviderTerminalAttributionView;
use crate::provider::types::ProviderTerminalInputItemView;
use crate::provider::types::ResponseItemView;
#[allow(unused_imports)]
use crate::text;
use vstd::prelude::*;

verus! {

/// The numbers at the marked places among the first `n`, added up.
pub open spec fn sum_where(marks: Seq<bool>, numbers: Seq<u64>, n: int) -> int
    decreases n,
{
    if n <= 0 {
        0
    } else {
        sum_where(marks, numbers, n - 1) + if marks[n - 1] {
            numbers[n - 1] as int
        } else {
            0
        }
    }
}

/// How many of the first `n` places are marked.
pub open spec fn count_where(marks: Seq<bool>, n: int) -> int
    decreases n,
{
    if n <= 0 {
        0
    } else {
        count_where(marks, n - 1) + if marks[n - 1] {
            1int
        } else {
            0int
        }
    }
}

/// The telemetry holds nothing but its candidates, and that a request was recorded with this
/// outcome.
pub open spec fn emptied(
    before: SkillReadTelemetryView,
    after: SkillReadTelemetryView,
    outcome: SkillReadTelemetryOutcome,
) -> bool {
    &&& after.candidates == before.candidates
    &&& forall|key: SkillReadKeyView| !#[trigger] after.counted.contains(key)
    &&& after.accepted_receipt_key is None
    &&& after.metrics.skill_read_calls == 0
    &&& after.metrics.skill_read_input_tokens == 0
    &&& after.outcome == outcome
    &&& after.successful_request_recorded
}

proof fn lemma_counts_grow(marks: Seq<bool>, numbers: Seq<u64>, n: int, m: int)
    requires
        0 <= n <= m,
    ensures
        0 <= count_where(marks, n) <= count_where(marks, m) <= m,
        0 <= sum_where(marks, numbers, n) <= sum_where(marks, numbers, m),
        count_where(marks, n) <= n,
    decreases m,
{
    if m > 0 {
        if n < m {
            lemma_counts_grow(marks, numbers, n, m - 1);
        } else {
            lemma_counts_grow(marks, numbers, n - 1, m - 1);
        }
    }
}

proof fn lemma_reported(items: Seq<ProviderTerminalInputItemView>, n: int, k: int, id: Seq<char>)
    requires
        0 <= k < n <= items.len(),
        items[k].item_id == id,
        forall|i: int, j: int|
            0 <= i < j < items.len() ==> (#[trigger] items[i]).item_id != (
            #[trigger] items[j]).item_id,
    ensures
        telemetry::reported_tokens(items, n, id) == Some(items[k].input_tokens),
    decreases n,
{
    if k < n - 1 {
        assert(items[k].item_id != items[n - 1].item_id);
        lemma_reported(items, n - 1, k, id);
    }
}

/// Somewhere among the first `n` places that count, the identity stands.
spec fn seen(counts: Seq<bool>, keys: Seq<SkillReadKeyView>, n: int, key: SkillReadKeyView) -> bool {
    exists|j: int| 0 <= j < n && #[trigger] counts[j] && keys[j] == key
}

proof fn lemma_tally(
    before: SkillReadTelemetryView,
    session_id: Seq<char>,
    turn_id: Seq<char>,
    input: Seq<ResponseItemView>,
    receipt_items: Seq<ProviderTerminalInputItemView>,
    counts: Seq<bool>,
    keys: Seq<SkillReadKeyView>,
    fresh: Seq<bool>,
    tokens: Seq<u64>,
    n: int,
)
    requires
        0 <= n <= input.len(),
        counts.len() == input.len(),
        keys.len() == input.len(),
        fresh.len() == input.len(),
        tokens.len() == input.len(),
        before.metrics.skill_read_calls + input.len() <= u64::MAX,
        forall|i: int|
            0 <= i < input.len() ==> #[trigger] counts[i] == before.countable(
                session_id,
                turn_id,
                input[i],
            ),
        forall|i: int|
            0 <= i < input.len() && counts[i] ==> #[trigger] keys[i]
                == before.candidates[input[i].id->0].key(),
        forall|i: int|
            0 <= i < input.len() && counts[i] ==> telemetry::reported_tokens(
                receipt_items,
                receipt_items.len() as int,
                (#[trigger] input[i]).id->0,
            ) == Some(tokens[i]),
        forall|i: int|
            0 <= i < input.len() ==> #[trigger] fresh[i] == (counts[i] && !before.counted.contains(
                keys[i],
            ) && !seen(counts, keys, i, keys[i])),
    ensures
        match before.tally(session_id, turn_id, input, receipt_items, n) {
            Some(tally) => {
                &&& tally.metrics.skill_read_input_tokens
                    == before.metrics.skill_read_input_tokens + sum_where(fresh, tokens, n)
                &&& tally.metrics.skill_read_calls == before.metrics.skill_read_calls
                    + count_where(fresh, n)
                &&& forall|key: SkillReadKeyView| #[trigger]
                    tally.counted.contains(key) <==> before.counted.contains(key) || seen(
                        counts,
                        keys,
                        n,
                        key,
                    )
            },
            None => before.metrics.skill_read_input_tokens + sum_where(fresh, tokens, n) > u64::MAX,
        },
    decreases n,
{
    if n > 0 {
        lemma_tally(
            before,
            session_id,
            turn_id,
            input,
            receipt_items,
            counts,
            keys,
            fresh,
            tokens,
            n - 1,
        );
        lemma_counts_grow(fresh, tokens, n - 1, n);
        let i = n - 1;
        assert(counts[i] == before.countable(session_id, turn_id, input[i]));
        assert(fresh[i] == (counts[i] && !before.counted.contains(keys[i]) && !seen(
            counts,
            keys,
            i,
            keys[i],
        )));
        if counts[i] {
            assert(keys[i] == before.candidates[input[i].id->0].key());
        }
        assert forall|key: SkillReadKeyView| #[trigger]
            seen(counts, keys, n, key) <==> seen(counts, keys, n - 1, key) || (counts[i] && keys[i]
            == key) by {
            if seen(counts, keys, n - 1, key) {
                let j = choose|j: int| 0 <= j < n - 1 && #[trigger] counts[j] && keys[j] == key;
                assert(counts[j]);
            }
        }
    }
}

/// A recording of an exact request adds exactly what it newly counts: each identity that was not
/// counted before, once, at its first item, with the tokens that the receipt reports for that
/// item. Afterwards the identities that are counted are those from before and those of the
/// request. Where the sum exceeds the counter, nothing is counted and the overflow is answered.
///
/// `counts` marks the items that are unchanged candidates of the session and the turn, `keys`
/// holds their identities, `fresh` marks the first item of each identity not counted before, and
/// `tokens` holds what the receipt reports for each.
pub proof fn law_recordings_add_what_they_newly_count(
    before: SkillReadTelemetryView,
    session_id: Seq<char>,
    turn_id: Seq<char>,
    input: Seq<ResponseItemView>,
    attributed: ProviderTerminalAttributionView,
    counts: Seq<bool>,
    keys: Seq<SkillReadKeyView>,
    fresh: Seq<bool>,
    tokens: Seq<u64>,
)
    requires
        before.metrics.skill_read_calls + input.len() <= u64::MAX,
        attribution::attribution_fault(input, session_id, turn_id, attributed) is None,
        before.accepted_receipt_key is None || before.accepted_receipt_key->0
            != attribution::receipt_key(session_id, turn_id, attributed),
        counts.len() == input.len(),
        keys.len() == input.len(),
        fresh.len() == input.len(),
        tokens.len() == input.len(),
        forall|i: int|
            0 <= i < input.len() ==> #[trigger] counts[i] == (input[i].id is Some
                && before.candidates.contains_key(input[i].id->0)
                && before.candidates[input[i].id->0].expected_item == input[i]
                && before.candidates[input[i].id->0].session_id == session_id
                && before.candidates[input[i].id->0].turn_id == turn_id),
        exists|i: int| 0 <= i < input.len() && #[trigger] counts[i],
        forall|i: int|
            0 <= i < input.len() && input[i].id is Some && before.candidates.contains_key(
                input[i].id->0,
            ) && before.candidates[input[i].id->0].expected_item == input[i] ==> #[trigger] counts[i],
        forall|i: int|
            0 <= i < input.len() && counts[i] ==> #[trigger] keys[i] == (SkillReadKeyView {
                session_id,
                turn_id,
                canonical_path: before.candidates[input[i].id->0].canonical_path,
                content_digest: before.candidates[input[i].id->0].content_digest,
            }),
        forall|i: int|
            0 <= i < input.len() ==> #[trigger] fresh[i] == (counts[i] && !before.counted.contains(
                keys[i],
            ) && forall|j: int| 0 <= j < i && #[trigger] counts[j] ==> keys[j] != keys[i]),
        forall|i: int|
            0 <= i < input.len() && #[trigger] counts[i] ==> exists|k: int|
                0 <= k < attributed.receipt.input_items.len()
                    && Some((#[trigger] attributed.receipt.input_items[k]).item_id)
                    == input[i].id && attributed.receipt.input_items[k].input_tokens
                    == tokens[i],
    ensures
        ({
            let (after, answer) = before.recorded(session_id, turn_id, input, Ok(attributed));
            let sum = before.metrics.skill_read_input_tokens + sum_where(
                fresh,
                tokens,
                input.len() as int,
            );
            &&& sum <= u64::MAX ==> {
                &&& answer is Ok
                &&& after.metrics.skill_read_input_tokens == sum
                &&& after.metrics.skill_read_calls == before.metrics.skill_read_calls
                    + count_where(fresh, input.len() as int)
                &&& after.outcome == SkillReadTelemetryOutcome::CompleteExact
                &&& after.successful_request_recorded
                &&& after.accepted_receipt_key == Some(
                    attribution::receipt_key(session_id, turn_id, attributed),
                )
                &&& after.candidates == before.candidates
                &&& forall|key: SkillReadKeyView| #[trigger]
                    after.counted.contains(key) <==> before.counted.contains(key) || exists|j: int|
                        0 <= j < input.len() && #[trigger] counts[j] && keys[j] == key
            }
            &&& sum > u64::MAX ==> answer == Err::<(), _>(
                ProviderRequestAttributionErrorView::InputTokenSumOverflow,
            ) && emptied(before, after, SkillReadTelemetryOutcome::Unavailable)
        }),
{
    let receipt_items = attributed.receipt.input_items;
    attribution::law_attribution_accepted_exactly_when_exact(
        input,
        session_id,
        turn_id,
        attributed,
    );
    assert forall|i: int| 0 <= i < input.len() implies #[trigger] counts[i] == before.countable(
        session_id,
        turn_id,
        input[i],
    ) by {}
    assert forall|i: int| 0 <= i < input.len() && counts[i] implies #[trigger] keys[i]
        == before.candidates[input[i].id->0].key() by {}
    assert forall|i: int| 0 <= i < input.len() && counts[i] implies telemetry::reported_tokens(
        receipt_items,
        receipt_items.len() as int,
        (#[trigger] input[i]).id->0,
    ) == Some(tokens[i]) by {
        let k = choose|k: int|
            0 <= k < receipt_items.len() && Some((#[trigger] receipt_items[k]).item_id)
                == input[i].id && receipt_items[k].input_tokens == tokens[i];
        lemma_reported(receipt_items, receipt_items.len() as int, k, input[i].id->0);
    }
    assert forall|i: int| 0 <= i < input.len() implies #[trigger] fresh[i] == (counts[i]
        && !before.counted.contains(keys[i]) && !seen(counts, keys, i, keys[i])) by {
        if seen(counts, keys, i, keys[i]) {
            let j = choose|j: int| 0 <= j < i && #[trigger] counts[j] && keys[j] == keys[i];
            assert(counts[j] && keys[j] == keys[i]);
        }
    }
    lemma_tally(
        before,
        session_id,
        turn_id,
        input,
        receipt_items,
        counts,
        keys,
        fresh,
        tokens,
        input.len() as int,
    );
    let first = choose|i: int| 0 <= i < input.len() && #[trigger] counts[i];
    assert(before.survives(input[first]));
    assert(!before.any_strays(session_id, turn_id, input)) by {
        if before.any_strays(session_id, turn_id, input) {
            let i = choose|i: int|
                0 <= i < input.len() && before.survives(#[trigger] input[i]) && !before.countable(
                    session_id,
                    turn_id,
                    input[i],
                );
            assert(counts[i]);
        }
    }
    let (after, answer) = before.recorded(session_id, turn_id, input, Ok(attributed));
    assert forall|key: SkillReadKeyView| #[trigger]
        after.counted.contains(key) && answer is Ok implies before.counted.contains(key)
        || exists|j: int| 0 <= j < input.len() && #[trigger] counts[j] && keys[j] == key by {
        assert(before.counted.contains(key) || seen(counts, keys, input.len() as int, key));
    }
}

/// On a turn with nothing counted, the tokens of an exact request are the sum over its distinct
/// identities of what the receipt reports for the first item of each, and the calls are how many
/// there are.
pub proof fn law_first_counts_are_sums_over_identities(
    before: SkillReadTelemetryView,
    session_id: Seq<char>,
    turn_id: Seq<char>,
    input: Seq<ResponseItemView>,
    attributed: ProviderTerminalAttributionView,
    counts: Seq<bool>,
    keys: Seq<SkillReadKeyView>,
    fresh: Seq<bool>,
    tokens: Seq<u64>,
)
    requires
        before.metrics.skill_read_calls == 0,
        before.metrics.skill_read_input_tokens == 0,
        before.accepted_receipt_key is None,
        forall|key: SkillReadKeyView| !#[trigger] before.counted.contains(key),
        input.len() <= u64::MAX,
        attribution::attribution_fault(input, session_id, turn_id, attributed) is None,
        counts.len() == input.len(),
        keys.len() == input.len(),
        fresh.len() == input.len(),
        tokens.len() == input.len(),
        forall|i: int|
            0 <= i < input.len() ==> #[trigger] counts[i] == (input[i].id is Some
                && before.candidates.contains_key(input[i].id->0)
                && before.candidates[input[i].id->0].expected_item == input[i]
                && before.candidates[input[i].id->0].session_id == session_id
                && before.candidates[input[i].id->0].turn_id == turn_id),
        exists|i: int| 0 <= i < input.len() && #[trigger] counts[i],
        forall|i: int|
            0 <= i < input.len() && input[i].id is Some && before.candidates.contains_key(
                input[i].id->0,
            ) && before.candidates[input[i].id->0].expected_item == input[i] ==> #[trigger] counts[i],
        forall|i: int|
            0 <= i < input.len() && counts[i] ==> #[trigger] keys[i] == (SkillReadKeyView {
                session_id,
                turn_id,
                canonical_path: before.candidates[input[i].id->0].canonical_path,
                content_digest: before.candidates[input[i].id->0].content_digest,
            }),
        forall|i: int|
            0 <= i < input.len() ==> #[trigger] fresh[i] == (counts[i] && forall|j: int|
                0 <= j < i && #[trigger] counts[j] ==> keys[j] != keys[i]),
        forall|i: int|
            0 <= i < input.len() && #[trigger] counts[i] ==> exists|k: int|
                0 <= k < attributed.receipt.input_items.len()
                    && Some((#[trigger] attributed.receipt.input_items[k]).item_id)
                    == input[i].id && attributed.receipt.input_items[k].input_tokens
                    == tokens[i],
        sum_where(fresh, tokens, input.len() as int) <= u64::MAX,
    ensures
        ({
            let (after, answer) = before.recorded(session_id, turn_id, input, Ok(attributed));
            &&& answer is Ok
            &&& after.observation() == Some(after.metrics)
            &&& after.metrics.skill_read_input_tokens == sum_where(
                fresh,
                tokens,
                input.len() as int,
            )
            &&& after.metrics.skill_read_calls == count_where(fresh, input.len() as int)
        }),
{
    law_recordings_add_what_they_newly_count(
        before,
        session_id,
        turn_id,
        input,
        attributed,
        counts,
        keys,
        fresh,
        tokens,
    );
}

/// What a recording answers and leaves where it does not count: an attribution that is not to be
/// had is answered and marks the turn unavailable; an unchanged candidate of another session or
/// turn marks it unavailable; without an unchanged candidate nothing is counted, which is
/// complete only without any candidate; a fault is answered and marks the turn unavailable; and a
/// receipt that was accepted before leaves the counts as they are.
pub proof fn law_recordings_that_count_nothing(
    before: SkillReadTelemetryView,
    session_id: Seq<char>,
    turn_id: Seq<char>,
    input: Seq<ResponseItemView>,
    attributed: ProviderTerminalAttributionView,
    error: ProviderRequestAttributionErrorView,
    unchanged: Seq<bool>,
    stray: bool,
)
    requires
        unchanged.len() == input.len(),
        forall|i: int|
            0 <= i < input.len() ==> #[trigger] unchanged[i] == (input[i].id is Some
                && before.candidates.contains_key(input[i].id->0)
                && before.candidates[input[i].id->0].expected_item == input[i]),
        stray == exists|i: int|
            0 <= i < input.len() && #[trigger] unchanged[i] && (
            before.candidates[input[i].id->0].session_id != session_id
                || before.candidates[input[i].id->0].turn_id != turn_id),
    ensures
        ({
            let (after, answer) = before.recorded(session_id, turn_id, input, Err(error));
            answer == Err::<(), _>(error) && emptied(
                before,
                after,
                SkillReadTelemetryOutcome::Unavailable,
            )
        }),
        ({
            let (after, answer) = before.recorded(session_id, turn_id, input, Ok(attributed));
            let any = exists|i: int| 0 <= i < input.len() && #[trigger] unchanged[i];
            let fault = attribution::attribution_fault(input, session_id, turn_id, attributed);
            &&& stray ==> answer is Ok && emptied(
                before,
                after,
                SkillReadTelemetryOutcome::Unavailable,
            )
            &&& !stray && !any && before.candidates.dom() == Set::<Seq<char>>::empty() ==> answer
                is Ok && emptied(before, after, SkillReadTelemetryOutcome::CompleteZero)
            &&& !stray && !any && before.candidates.dom() != Set::<Seq<char>>::empty() ==> answer
                is Ok && emptied(before, after, SkillReadTelemetryOutcome::Unavailable)
            &&& !stray && any && fault is Some ==> answer == Err::<(), _>(fault->0) && emptied(
                before,
                after,
                SkillReadTelemetryOutcome::Unavailable,
            )
            &&& !stray && any && fault is None && before.accepted_receipt_key == Some(
                attribution::receipt_key(session_id, turn_id, attributed),
            ) ==> {
                &&& answer is Ok
                &&& after.metrics == before.metrics
                &&& after.counted == before.counted
                &&& after.candidates == before.candidates
                &&& after.accepted_receipt_key == before.accepted_receipt_key
                &&& after.outcome == SkillReadTelemetryOutcome::CompleteExact
                &&& after.successful_request_recorded
            }
        }),
{
    assert forall|i: int| 0 <= i < input.len() implies #[trigger] unchanged[i] == before.survives(
        input[i],
    ) by {}
    assert(before.any_survives(input) == exists|i: int|
        0 <= i < input.len() && #[trigger] unchanged[i]) by {
        if before.any_survives(input) {
            let i = choose|i: int| 0 <= i < input.len() && before.survives(#[trigger] input[i]);
            assert(unchanged[i]);
        }
        if exists|i: int| 0 <= i < input.len() && #[trigger] unchanged[i] {
            let i = choose|i: int| 0 <= i < input.len() && #[trigger] unchanged[i];
            assert(before.survives(input[i]));
        }
    }
    assert(before.any_strays(session_id, turn_id, input) == stray) by {
        if before.any_strays(session_id, turn_id, input) {
            let i = choose|i: int|
                0 <= i < input.len() && before.survives(#[trigger] input[i]) && !before.countable(
                    session_id,
                    turn_id,
                    input[i],
                );
            assert(unchanged[i]);
        }
        if stray {
            let i = choose|i: int|
                0 <= i < input.len() && #[trigger] unchanged[i] && (
                before.candidates[input[i].id->0].session_id != session_id
                    || before.candidates[input[i].id->0].turn_id != turn_id);
            assert(before.survives(input[i]));
        }
    }
    if before.candidates.is_empty() {
        assert(before.candidates.dom() =~= Set::empty());
    }
}

/// A fresh turn holds nothing and observes zero; registering adds the candidate under its item and
/// awaits a request, leaving the counts alone; and a request whose attribution record is missing
/// leaves nothing counted, which is complete only without any candidate.
pub proof fn law_turns_start_and_register(
    before: SkillReadTelemetryView,
    provenance: SkillReadProvenanceView,
)
    ensures
        ({
            let fresh = SkillReadTelemetryView::fresh();
            &&& fresh.candidates.dom() =~= Set::<Seq<char>>::empty()
            &&& fresh.counted =~= Set::<SkillReadKeyView>::empty()
            &&& fresh.accepted_receipt_key is None
            &&& fresh.metrics.skill_read_calls == 0
            &&& fresh.metrics.skill_read_input_tokens == 0
            &&& fresh.outcome == SkillReadTelemetryOutcome::CompleteZero
            &&& !fresh.successful_request_recorded
        }),
        ({
            let after = before.registered(provenance);
            &&& after.candidates == before.candidates.insert(
                provenance.response_item_id,
                provenance,
            )
            &&& after.counted == before.counted
            &&& after.accepted_receipt_key is None
            &&& after.metrics == before.metrics
            &&& after.outcome == before.outcome
            &&& !after.successful_request_recorded
        }),
        ({
            let after = before.withheld(before.empty_outcome());
            &&& before.candidates.dom() == Set::<Seq<char>>::empty() ==> emptied(
                before,
                after,
                SkillReadTelemetryOutcome::CompleteZero,
            )
            &&& before.candidates.dom() != Set::<Seq<char>>::empty() ==> emptied(
                before,
                after,
                SkillReadTelemetryOutcome::Unavailable,
            )
        }),
{
    if before.candidates.is_empty() {
        assert(before.candidates.dom() =~= Set::empty());
    }
}

/// What a turn shows: exact metrics; zero ones where no candidate was registered or a request
/// settled it; and otherwise nothing. It shows the metrics as they stand.
pub proof fn law_turns_show_their_metrics(before: SkillReadTelemetryView)
    ensures
        before.outcome == SkillReadTelemetryOutcome::CompleteExact ==> before.observation() == Some(
            before.metrics,
        ),
        before.outcome == SkillReadTelemetryOutcome::Unavailable ==> before.observation() is None,
        before.outcome == SkillReadTelemetryOutcome::CompleteZero && (
        before.successful_request_recorded || before.candidates.dom() == Set::<Seq<char>>::empty())
            ==> before.observation() == Some(before.metrics),
        before.outcome == SkillReadTelemetryOutcome::CompleteZero
            && !before.successful_request_recorded && before.candidates.dom() != Set::<
            Seq<char>,
        >::empty() ==> before.observation() is None,
{
    if before.candidates.is_empty() {
        assert(before.candidates.dom() =~= Set::empty());
    }
}

/// A read is counted under its session, its turn, its path and the digest of its contents, and the
/// digest is that of the contents' very bytes.
pub proof fn law_reads_are_identified_by_four_texts(
    left: SkillReadProvenanceView,
    right: SkillReadProvenanceView,
    contents: Seq<char>,
)
    ensures
        left.key() == right.key() <==> left.session_id == right.session_id && left.turn_id
            == right.turn_id && left.canonical_path == right.canonical_path && left.content_digest
            == right.content_digest,
        left.key().session_id == left.session_id,
        left.key().turn_id == left.turn_id,
        left.key().canonical_path == left.canonical_path,
        left.key().content_digest == left.content_digest,
        telemetry::content_identity(contents) == "sha1:"@ + text::hex(
            digest::sha1(vstd::utf8::encode_utf8(contents)),
        ),
{
}

/// What a recording answers, and what a receipt is known by, show what they hold.
pub proof fn law_recording_answers_show_what_they_hold(
    error: ProviderRequestAttributionError,
    key: SkillReadReceiptKey,
)
    ensures
        telemetry::unit_result_view(Ok(())) == Ok::<(), ProviderRequestAttributionErrorView>(()),
        telemetry::unit_result_view(Err(error)) == Err::<(), _>(error@),
        key@.session_id == key.session_id@,
        key@.turn_id == key.turn_id@,
        key@.response_id == key.response_id@,
        key@.request_fingerprint == key.request_fingerprint@,
        telemetry::no_reads().skill_read_calls == 0,
        telemetry::no_reads().skill_read_input_tokens == 0,
{
}

} // verus!
