//! What holds of the telemetry of a turn over several calls.

#[allow(unused_imports)]
use super::attribution;
#[allow(unused_imports)]
use super::telemetry;
use super::telemetry::SkillReadKeyView;
use super::telemetry::SkillReadProvenanceView;
use super::telemetry::SkillReadTelemetryOutcome;
use super::telemetry::SkillReadTelemetryView;
#[allow(unused_imports)]
use crate::provider::items;
#[allow(unused_imports)]
use crate::provider::types;
use crate::provider::types::ProviderRequestAttributionErrorView;
use crate::provider::types::ProviderTerminalAttributionView;
use crate::provider::types::ProviderTerminalInputItemView;
use crate::provider::types::ResponseItemView;
use vstd::prelude::*;

verus! {

/// Recording a request never adds, drops or changes a candidate: a request that counts nothing
/// does not poison the ones that come after it.
pub proof fn law_recording_keeps_candidates(
    telemetry: SkillReadTelemetryView,
    session_id: Seq<char>,
    turn_id: Seq<char>,
    input: Seq<ResponseItemView>,
    resolved: Result<ProviderTerminalAttributionView, ProviderRequestAttributionErrorView>,
)
    ensures
        telemetry.recorded(session_id, turn_id, input, resolved).0.candidates
            == telemetry.candidates,
{
}

/// Telemetry fails closed: a recording that answers an error marks the turn unavailable, with
/// nothing counted and nothing to show.
pub proof fn law_failed_recording_withholds(
    telemetry: SkillReadTelemetryView,
    session_id: Seq<char>,
    turn_id: Seq<char>,
    input: Seq<ResponseItemView>,
    resolved: Result<ProviderTerminalAttributionView, ProviderRequestAttributionErrorView>,
)
    requires
        telemetry.recorded(session_id, turn_id, input, resolved).1 is Err,
    ensures
        ({
            let after = telemetry.recorded(session_id, turn_id, input, resolved).0;
            &&& after.metrics == telemetry::no_reads()
            &&& after.counted == Set::<SkillReadKeyView>::empty()
            &&& after.accepted_receipt_key is None
            &&& after.outcome == SkillReadTelemetryOutcome::Unavailable
            &&& after.observation() is None
        }),
{
}

/// An attribution that is not to be had is answered with its own reason, and marks the turn
/// unavailable, whether or not there was a skill to count.
pub proof fn law_missing_attribution_is_answered(
    telemetry: SkillReadTelemetryView,
    session_id: Seq<char>,
    turn_id: Seq<char>,
    input: Seq<ResponseItemView>,
    reason: ProviderRequestAttributionErrorView,
)
    ensures
        telemetry.recorded(session_id, turn_id, input, Err(reason)) == (
            telemetry.withheld(SkillReadTelemetryOutcome::Unavailable),
            Err::<(), ProviderRequestAttributionErrorView>(reason),
        ),
{
}

/// Only exact telemetry shows a read: any other observation is zero.
pub proof fn law_observed_reads_are_exact(telemetry: SkillReadTelemetryView)
    requires
        telemetry.wf(),
    ensures
        telemetry.observation() matches Some(metrics) ==> metrics == telemetry.metrics && (metrics
            != telemetry::no_reads() ==> telemetry.outcome == SkillReadTelemetryOutcome::CompleteExact),
        telemetry.outcome == SkillReadTelemetryOutcome::Unavailable
            ==> telemetry.observation() is None,
{
}

/// The host is shown metrics exactly when they are exact, or when no candidate was ever registered
/// and the turn was not marked unavailable; what it is shown are the metrics as they stand, and
/// unless they are exact they are zero.
pub proof fn law_observations_are_exact_or_without_candidates(telemetry: SkillReadTelemetryView)
    requires
        telemetry.wf(),
    ensures
        telemetry.observation() is Some <==> telemetry.outcome
            == SkillReadTelemetryOutcome::CompleteExact || (telemetry.candidates.is_empty()
            && telemetry.outcome != SkillReadTelemetryOutcome::Unavailable),
        telemetry.observation() matches Some(metrics) ==> metrics == telemetry.metrics,
        telemetry.outcome != SkillReadTelemetryOutcome::CompleteExact ==> telemetry.metrics
            == telemetry::no_reads(),
        SkillReadTelemetryView::fresh().observation() == Some(telemetry::no_reads()),
{
}

/// The same successful request recorded again changes nothing.
pub proof fn law_repeated_request_counts_once(
    telemetry: SkillReadTelemetryView,
    session_id: Seq<char>,
    turn_id: Seq<char>,
    input: Seq<ResponseItemView>,
    attributed: ProviderTerminalAttributionView,
)
    requires
        telemetry.recorded(session_id, turn_id, input, Ok(attributed)).1 is Ok,
    ensures
        ({
            let once = telemetry.recorded(session_id, turn_id, input, Ok(attributed)).0;
            once.recorded(session_id, turn_id, input, Ok(attributed)) == (
                once,
                Ok::<(), ProviderRequestAttributionErrorView>(()),
            )
        }),
{
    let once = telemetry.recorded(session_id, turn_id, input, Ok(attributed)).0;
    assert forall|i: int| 0 <= i < input.len() implies once.survives(#[trigger] input[i])
        == telemetry.survives(input[i]) && once.countable(session_id, turn_id, input[i])
        == telemetry.countable(session_id, turn_id, input[i]) by {}
    assert(once.any_strays(session_id, turn_id, input) == telemetry.any_strays(
        session_id,
        turn_id,
        input,
    ));
    assert(once.any_survives(input) == telemetry.any_survives(input));
}

proof fn lemma_tally_covers(
    telemetry: SkillReadTelemetryView,
    session_id: Seq<char>,
    turn_id: Seq<char>,
    input: Seq<ResponseItemView>,
    receipt_items: Seq<ProviderTerminalInputItemView>,
    n: int,
)
    requires
        0 <= n <= input.len(),
        telemetry.tally(session_id, turn_id, input, receipt_items, n) is Some,
    ensures
        ({
            let tally = telemetry.tally(session_id, turn_id, input, receipt_items, n)->0;
            &&& telemetry.counted.subset_of(tally.counted)
            &&& forall|i: int|
                0 <= i < n && telemetry.countable(session_id, turn_id, #[trigger] input[i])
                    ==> tally.counted.contains(telemetry.candidates[input[i].id->0].key())
        }),
    decreases n,
{
    if n > 0 {
        lemma_tally_covers(telemetry, session_id, turn_id, input, receipt_items, n - 1);
    }
}

proof fn lemma_covered_tally(
    telemetry: SkillReadTelemetryView,
    session_id: Seq<char>,
    turn_id: Seq<char>,
    input: Seq<ResponseItemView>,
    receipt_items: Seq<ProviderTerminalInputItemView>,
    n: int,
)
    requires
        0 <= n <= input.len(),
        forall|i: int|
            0 <= i < n && telemetry.countable(session_id, turn_id, #[trigger] input[i])
                ==> telemetry.counted.contains(telemetry.candidates[input[i].id->0].key()),
    ensures
        telemetry.tally(session_id, turn_id, input, receipt_items, n) == telemetry.tally(
            session_id,
            turn_id,
            input,
            receipt_items,
            0,
        ),
    decreases n,
{
    if n > 0 {
        lemma_covered_tally(telemetry, session_id, turn_id, input, receipt_items, n - 1);
    }
}

/// A skill is counted once by identity: once a request has been counted, an exact retry that
/// carries no other skill read of the turn remains exact and adds nothing to the metrics, whatever
/// its receipt.
pub proof fn law_retry_counts_once_by_identity(
    telemetry: SkillReadTelemetryView,
    session_id: Seq<char>,
    turn_id: Seq<char>,
    input: Seq<ResponseItemView>,
    attributed: ProviderTerminalAttributionView,
    retried_input: Seq<ResponseItemView>,
    retried: ProviderTerminalAttributionView,
)
    requires
        telemetry.accepted_receipt_key != Some(
            attribution::receipt_key(session_id, turn_id, attributed),
        ),
        telemetry.recorded(session_id, turn_id, input, Ok(attributed)).1 is Ok,
        telemetry.recorded(session_id, turn_id, input, Ok(attributed)).0.outcome
            == SkillReadTelemetryOutcome::CompleteExact,
        telemetry.any_survives(retried_input),
        !telemetry.any_strays(session_id, turn_id, retried_input),
        attribution::attribution_is_exact(retried_input, session_id, turn_id, retried),
        forall|j: int|
            0 <= j < retried_input.len() && telemetry.countable(
                session_id,
                turn_id,
                #[trigger] retried_input[j],
            ) ==> exists|i: int|
                0 <= i < input.len() && telemetry.countable(
                    session_id,
                    turn_id,
                    #[trigger] input[i],
                ) && telemetry.candidates[input[i].id->0].key()
                    == telemetry.candidates[retried_input[j].id->0].key(),
    ensures
        ({
            let once = telemetry.recorded(session_id, turn_id, input, Ok(attributed)).0;
            let twice = once.recorded(session_id, turn_id, retried_input, Ok(retried));
            &&& twice.1 is Ok
            &&& twice.0.outcome == SkillReadTelemetryOutcome::CompleteExact
            &&& twice.0.metrics == once.metrics
            &&& twice.0.counted == once.counted
        }),
{
    let once = telemetry.recorded(session_id, turn_id, input, Ok(attributed)).0;
    lemma_tally_covers(
        telemetry,
        session_id,
        turn_id,
        input,
        attributed.receipt.input_items,
        input.len() as int,
    );
    assert forall|j: int|
        0 <= j < retried_input.len() && once.countable(
            session_id,
            turn_id,
            #[trigger] retried_input[j],
        ) implies once.counted.contains(once.candidates[retried_input[j].id->0].key()) by {
        assert(telemetry.countable(session_id, turn_id, retried_input[j]));
        let i = choose|i: int|
            0 <= i < input.len() && telemetry.countable(session_id, turn_id, #[trigger] input[i])
                && telemetry.candidates[input[i].id->0].key()
                == telemetry.candidates[retried_input[j].id->0].key();
        assert(telemetry.countable(session_id, turn_id, input[i]));
    }
    attribution::law_attribution_accepted_exactly_when_exact(
        retried_input,
        session_id,
        turn_id,
        retried,
    );
    let k = choose|k: int|
        0 <= k < retried_input.len() && telemetry.survives(#[trigger] retried_input[k]);
    assert(once.survives(retried_input[k]));
    assert(once.any_strays(session_id, turn_id, retried_input) == telemetry.any_strays(
        session_id,
        turn_id,
        retried_input,
    )) by {
        assert forall|i: int| 0 <= i < retried_input.len() implies once.survives(
            #[trigger] retried_input[i],
        ) == telemetry.survives(retried_input[i]) && once.countable(
            session_id,
            turn_id,
            retried_input[i],
        ) == telemetry.countable(session_id, turn_id, retried_input[i]) by {}
    }
    lemma_covered_tally(
        once,
        session_id,
        turn_id,
        retried_input,
        retried.receipt.input_items,
        retried_input.len() as int,
    );
}

/// The first `n` of a list of token counts together.
spec fn sum_of(tokens: Seq<u64>, n: int) -> int
    decreases n,
{
    if n <= 0 {
        0
    } else {
        sum_of(tokens, n - 1) + tokens[n - 1]
    }
}

/// Some receipt item carries this identifier and these tokens.
spec fn claims(items: Seq<ProviderTerminalInputItemView>, id: Seq<char>, tokens: u64) -> bool {
    exists|k: int|
        0 <= k < items.len() && (#[trigger] items[k]).item_id == id && items[k].input_tokens
            == tokens
}

proof fn lemma_sum_grows(tokens: Seq<u64>, n: int, m: int)
    requires
        0 <= n <= m <= tokens.len(),
    ensures
        0 <= sum_of(tokens, n) <= sum_of(tokens, m),
    decreases m,
{
    if m > 0 {
        if n < m {
            lemma_sum_grows(tokens, n, m - 1);
        } else {
            lemma_sum_grows(tokens, n - 1, m - 1);
        }
    }
}

proof fn lemma_sum_without(items: Seq<ProviderTerminalInputItemView>, k: int, n: int)
    requires
        0 <= k < items.len(),
        0 <= n <= items.len(),
    ensures
        n <= k ==> items::token_sum(items.remove(k), n) == items::token_sum(items, n),
        n > k ==> items::token_sum(items.remove(k), n - 1) == items::token_sum(items, n)
            - items[k].input_tokens,
    decreases n,
{
    if n > 0 {
        lemma_sum_without(items, k, n - 1);
        if n <= k {
            assert(items.remove(k)[n - 1] == items[n - 1]);
        } else if n > k + 1 {
            assert(items.remove(k)[n - 2] == items[n - 1]);
        }
    }
}

proof fn lemma_claims_within_the_sum(
    ids: Seq<Seq<char>>,
    tokens: Seq<u64>,
    items: Seq<ProviderTerminalInputItemView>,
    n: int,
)
    requires
        0 <= n <= ids.len(),
        ids.len() == tokens.len(),
        forall|i: int, j: int| 0 <= i < j < n ==> #[trigger] ids[i] != #[trigger] ids[j],
        forall|i: int| 0 <= i < n ==> claims(items, #[trigger] ids[i], tokens[i]),
    ensures
        sum_of(tokens, n) <= items::token_sum(items, items.len() as int),
    decreases n,
{
    if n > 0 {
        assert(claims(items, ids[n - 1], tokens[n - 1]));
        let k = choose|k: int|
            0 <= k < items.len() && (#[trigger] items[k]).item_id == ids[n - 1]
                && items[k].input_tokens == tokens[n - 1];
        let rest = items.remove(k);
        assert forall|i: int| 0 <= i < n - 1 implies claims(
            rest,
            #[trigger] ids[i],
            tokens[i],
        ) by {
            assert(claims(items, ids[i], tokens[i]));
            let j = choose|j: int|
                0 <= j < items.len() && (#[trigger] items[j]).item_id == ids[i]
                    && items[j].input_tokens == tokens[i];
            assert(ids[i] != ids[n - 1]);
            if j < k {
                assert(rest[j] == items[j]);
            } else {
                assert(rest[j - 1] == items[j]);
            }
        }
        lemma_claims_within_the_sum(ids, tokens, rest, n - 1);
        lemma_sum_without(items, k, items.len() as int);
    } else {
        lemma_items_sum_nonnegative(items, items.len() as int);
    }
}

proof fn lemma_items_sum_nonnegative(items: Seq<ProviderTerminalInputItemView>, n: int)
    requires
        n <= items.len(),
    ensures
        items::token_sum(items, n) >= 0,
    decreases n,
{
    if n > 0 {
        lemma_items_sum_nonnegative(items, n - 1);
    }
}

proof fn lemma_reported_is_claimed(
    items: Seq<ProviderTerminalInputItemView>,
    n: int,
    id: Seq<char>,
)
    requires
        0 <= n <= items.len(),
        items::receipted(items, n, id),
    ensures
        telemetry::reported_tokens(items, n, id) matches Some(tokens) && claims(items, id, tokens),
    decreases n,
{
    if n > 0 && items[n - 1].item_id != id {
        let j = choose|j: int| 0 <= j < n && (#[trigger] items[j]).item_id == id;
        assert(0 <= j < n - 1 && items[j].item_id == id);
        lemma_reported_is_claimed(items, n - 1, id);
    }
}

proof fn lemma_tally_within_the_sum(
    telemetry: SkillReadTelemetryView,
    session_id: Seq<char>,
    turn_id: Seq<char>,
    input: Seq<ResponseItemView>,
    receipt_items: Seq<ProviderTerminalInputItemView>,
    tokens: Seq<u64>,
    n: int,
)
    requires
        0 <= n <= input.len(),
        tokens.len() == input.len(),
        telemetry.metrics.skill_read_input_tokens == 0,
        sum_of(tokens, input.len() as int) <= u64::MAX,
        forall|i: int|
            0 <= i < input.len() ==> telemetry::reported_tokens(
                receipt_items,
                receipt_items.len() as int,
                (#[trigger] input[i]).id->0,
            ) == Some(tokens[i]),
    ensures
        telemetry.tally(session_id, turn_id, input, receipt_items, n) matches Some(tally)
            && tally.metrics.skill_read_input_tokens <= sum_of(tokens, n),
    decreases n,
{
    if n > 0 {
        lemma_tally_within_the_sum(
            telemetry,
            session_id,
            turn_id,
            input,
            receipt_items,
            tokens,
            n - 1,
        );
        lemma_sum_grows(tokens, n, input.len() as int);
        assert(telemetry::reported_tokens(
            receipt_items,
            receipt_items.len() as int,
            input[n - 1].id->0,
        ) == Some(tokens[n - 1]));
    }
}

/// The first exact request of a turn is always counted, and the skill reads that it shows never
/// take more tokens than the provider reports for the whole request.
pub proof fn law_first_reads_stay_within_the_total(
    telemetry: SkillReadTelemetryView,
    session_id: Seq<char>,
    turn_id: Seq<char>,
    input: Seq<ResponseItemView>,
    attributed: ProviderTerminalAttributionView,
)
    requires
        telemetry.wf(),
        telemetry.outcome != SkillReadTelemetryOutcome::CompleteExact,
        telemetry.any_survives(input),
        !telemetry.any_strays(session_id, turn_id, input),
        attribution::attribution_is_exact(input, session_id, turn_id, attributed),
    ensures
        ({
            let (after, answer) = telemetry.recorded(session_id, turn_id, input, Ok(attributed));
            &&& answer is Ok
            &&& after.outcome == SkillReadTelemetryOutcome::CompleteExact
            &&& after.metrics.skill_read_input_tokens
                <= attributed.receipt.authoritative_input_tokens
        }),
{
    attribution::law_attribution_accepted_exactly_when_exact(
        input,
        session_id,
        turn_id,
        attributed,
    );
    let receipt_items = attributed.receipt.input_items;
    let ids = types::item_ids(input);
    let names = Seq::new(input.len(), |i: int| input[i].id->0);
    let tokens = Seq::new(
        input.len(),
        |i: int|
            telemetry::reported_tokens(
                receipt_items,
                receipt_items.len() as int,
                input[i].id->0,
            )->0,
    );
    assert forall|i: int| 0 <= i < input.len() implies telemetry::reported_tokens(
        receipt_items,
        receipt_items.len() as int,
        (#[trigger] input[i]).id->0,
    ) == Some(tokens[i]) && claims(receipt_items, names[i], tokens[i]) by {
        assert(ids[i] is Some);
        assert(items::listed(ids, ids.len() as int, ids[i]->0));
        lemma_reported_is_claimed(receipt_items, receipt_items.len() as int, input[i].id->0);
    }
    assert forall|i: int, j: int| 0 <= i < j < names.len() implies #[trigger] names[i]
        != #[trigger] names[j] by {
        assert(ids[i] is Some && ids[j] is Some);
        assert(ids[i] != ids[j]);
    }
    assert forall|i: int| 0 <= i < names.len() implies claims(
        receipt_items,
        #[trigger] names[i],
        tokens[i],
    ) by {
        assert(input[i].id->0 == names[i]);
    }
    lemma_claims_within_the_sum(names, tokens, receipt_items, names.len() as int);
    lemma_tally_within_the_sum(
        telemetry,
        session_id,
        turn_id,
        input,
        receipt_items,
        tokens,
        input.len() as int,
    );
}

/// A request that carries no surviving candidate, or one of another session or turn, counts
/// nothing, whatever its attribution.
pub proof fn law_unmatched_requests_count_nothing(
    telemetry: SkillReadTelemetryView,
    session_id: Seq<char>,
    turn_id: Seq<char>,
    input: Seq<ResponseItemView>,
    attributed: ProviderTerminalAttributionView,
)
    requires
        !telemetry.any_survives(input) || telemetry.any_strays(session_id, turn_id, input),
    ensures
        ({
            let (after, answer) = telemetry.recorded(session_id, turn_id, input, Ok(attributed));
            &&& answer is Ok
            &&& after.metrics == telemetry::no_reads()
            &&& !telemetry.candidates.is_empty() ==> after.observation() is None
        }),
{
}

/// A candidate that no request has settled yet withholds a zero observation.
pub proof fn law_registered_candidate_awaits_a_request(
    telemetry: SkillReadTelemetryView,
    provenance: SkillReadProvenanceView,
)
    requires
        telemetry.outcome == SkillReadTelemetryOutcome::CompleteZero,
    ensures
        telemetry.registered(provenance).observation() is None,
{
    assert(telemetry.registered(provenance).candidates.dom().contains(
        provenance.response_item_id,
    ));
}

} // verus!
