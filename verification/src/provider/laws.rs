//! What holds of provider attribution, from a receipt to the attribution that it settles.

#[allow(unused_imports)]
use super::handle;
use super::handle::ProviderRequestAttribution;
use super::handle::ProviderTerminalAttributionHandle;
use super::handle::ProviderTerminalAttributionHandleView;
#[allow(unused_imports)]
use super::items;
#[allow(unused_imports)]
use super::receipt;
#[allow(unused_imports)]
use super::stream;
use super::stream::HeaderEdit;
use super::stream::TerminalAttributionTrackerView;
#[allow(unused_imports)]
use super::types;
use super::types::ProviderRequestAttributionError;
use super::types::ProviderRequestAttributionErrorView;
use super::types::ProviderTerminalAttribution;
use super::types::ProviderTerminalAttributionReceiptView;
use super::types::ProviderTerminalAttributionView;
use super::types::ProviderTerminalInputItemView;
use super::types::ProviderTerminalResponse;
use super::types::ProviderTerminalResponseView;
use super::types::ProviderTerminalAttributionReceipt;
use super::types::ProviderTerminalInputItem;
use super::types::ResponseItem;
use super::types::ResponsesApiRequest;
use super::types::ResponsesApiRequestView;
#[allow(unused_imports)]
use crate::digest;
#[allow(unused_imports)]
use crate::text;
#[allow(unused_imports)]
use crate::text_laws;
use vstd::prelude::*;

verus! {

/// The first reason of a table that holds.
pub open spec fn first_reason(
    table: Seq<(bool, ProviderRequestAttributionErrorView)>,
) -> Option<ProviderRequestAttributionErrorView>
    decreases table.len(),
{
    if table.len() == 0 {
        None
    } else if table[0].0 {
        Some(table[0].1)
    } else {
        first_reason(table.drop_first())
    }
}

pub proof fn lemma_first_reason_steps(table: Seq<(bool, ProviderRequestAttributionErrorView)>, n: int)
    requires
        0 <= n <= table.len(),
        forall|i: int| 0 <= i < n ==> !(#[trigger] table[i]).0,
    ensures
        first_reason(table) == first_reason(table.skip(n)),
        n < table.len() && table[n].0 ==> first_reason(table) == Some(table[n].1),
        n == table.len() ==> first_reason(table) is None,
    decreases n,
{
    if n == 0 {
        assert(table.skip(0) =~= table);
    } else {
        lemma_first_reason_steps(table, n - 1);
        let rest = table.skip(n - 1);
        assert(rest.drop_first() =~= table.skip(n));
        assert(rest[0] == table[n - 1]);
        if n < table.len() {
            assert(table.skip(n)[0] == table[n]);
        } else {
            assert(table.skip(n).len() == 0);
        }
    }
}

/// The index of the first reason that holds, or the length.
pub open spec fn first_index(table: Seq<(bool, ProviderRequestAttributionErrorView)>, n: int) -> int
    decreases table.len() - n,
{
    if n < 0 || n >= table.len() || table[n].0 {
        n
    } else {
        first_index(table, n + 1)
    }
}

pub proof fn lemma_first_index(table: Seq<(bool, ProviderRequestAttributionErrorView)>, n: int)
    requires
        0 <= n <= table.len(),
        forall|i: int| 0 <= i < n ==> !(#[trigger] table[i]).0,
    ensures
        n <= first_index(table, n) <= table.len(),
        forall|i: int| 0 <= i < first_index(table, n) ==> !(#[trigger] table[i]).0,
        first_index(table, n) < table.len() ==> table[first_index(table, n)].0,
    decreases table.len() - n,
{
    if n < table.len() && !table[n].0 {
        lemma_first_index(table, n + 1);
    }
}

/// A fingerprint is its prefix and the digest of the very bytes in small hexadecimal: two requests,
/// or two models, have the same fingerprint exactly when their digests are the same.
pub proof fn law_fingerprints_are_digests(
    body: Seq<u8>,
    other: Seq<u8>,
    model: Seq<char>,
    named: Seq<char>,
)
    ensures
        receipt::request_fingerprint(body) == "sha256:request-v1:"@ + text::hex(
            digest::sha256(body),
        ),
        receipt::model_fingerprint(model) == "sha256:model-v1:"@ + text::hex(
            digest::sha256(vstd::utf8::encode_utf8(model)),
        ),
        receipt::request_fingerprint(body) == receipt::request_fingerprint(other)
            <==> digest::sha256(body) == digest::sha256(other),
        receipt::model_fingerprint(model) == receipt::model_fingerprint(named) <==> digest::sha256(
            vstd::utf8::encode_utf8(model),
        ) == digest::sha256(vstd::utf8::encode_utf8(named)),
{
    let a = digest::sha256(body);
    let b = digest::sha256(other);
    let c = digest::sha256(vstd::utf8::encode_utf8(model));
    let d = digest::sha256(vstd::utf8::encode_utf8(named));
    text_laws::law_hexadecimal_reads_back(a, b);
    text_laws::law_hexadecimal_reads_back(c, d);
    if receipt::request_fingerprint(body) == receipt::request_fingerprint(other) {
        lemma_same_suffix("sha256:request-v1:"@, text::hex(a), text::hex(b));
    }
    if receipt::model_fingerprint(model) == receipt::model_fingerprint(named) {
        lemma_same_suffix("sha256:model-v1:"@, text::hex(c), text::hex(d));
    }
}

proof fn lemma_same_suffix(prefix: Seq<char>, left: Seq<char>, right: Seq<char>)
    requires
        prefix + left == prefix + right,
    ensures
        left == right,
{
    assert((prefix + left).len() == prefix.len() + left.len());
    assert((prefix + right).len() == prefix.len() + right.len());
    assert forall|i: int| 0 <= i < left.len() implies left[i] == right[i] by {
        assert((prefix + left)[prefix.len() + i] == left[i]);
        assert((prefix + right)[prefix.len() + i] == right[i]);
    }
    assert(left =~= right);
}

/// The token sum starts at nothing, and each item adds its own tokens.
pub proof fn law_sums_add_each_item(items: Seq<ProviderTerminalInputItemView>, n: int)
    requires
        0 <= n < items.len(),
    ensures
        items::token_sum(items, 0) == 0,
        items::token_sum(items, n + 1) == items::token_sum(items, n) + items[n].input_tokens,
{
}

/// Items are accepted exactly when every final item has an identifier, no two the same; the
/// receipt's identifiers are not empty, no two the same; the two sets of identifiers are one; and
/// the receipt's tokens add up to the total. Nothing else is asked.
pub proof fn law_items_are_accepted_when_they_match(
    ids: Seq<Option<Seq<char>>>,
    items: Seq<ProviderTerminalInputItemView>,
    total: u64,
)
    ensures
        items::items_fault(ids, items, total) is None <==> {
            &&& forall|i: int| 0 <= i < ids.len() ==> (#[trigger] ids[i]) is Some
            &&& forall|i: int, j: int|
                0 <= i < j < ids.len() ==> #[trigger] ids[i] != #[trigger] ids[j]
            &&& forall|k: int| 0 <= k < items.len() ==> (#[trigger] items[k]).item_id.len() != 0
            &&& forall|k: int, m: int|
                0 <= k < m < items.len() ==> (#[trigger] items[k]).item_id != (
                #[trigger] items[m]).item_id
            &&& forall|k: int|
                0 <= k < items.len() ==> exists|i: int|
                    0 <= i < ids.len() && #[trigger] ids[i] == Some((#[trigger] items[k]).item_id)
            &&& forall|i: int|
                0 <= i < ids.len() ==> exists|k: int|
                    0 <= k < items.len() && Some((#[trigger] items[k]).item_id)
                        == #[trigger] ids[i]
            &&& items::token_sum(items, items.len() as int) == total
        },
{
    items::law_items_accepted_exactly_as_bijection(ids, items, total);
    let n = ids.len() as int;
    let m = items.len() as int;
    if items::items_fault(ids, items, total) is None {
        assert forall|k: int| 0 <= k < items.len() implies exists|i: int|
            0 <= i < ids.len() && #[trigger] ids[i] == Some((#[trigger] items[k]).item_id) by {
            assert(items::receipted(items, m, items[k].item_id));
            assert(items::listed(ids, n, items[k].item_id));
        }
        assert forall|i: int| 0 <= i < ids.len() implies exists|k: int|
            0 <= k < items.len() && Some((#[trigger] items[k]).item_id) == #[trigger] ids[i] by {
            assert(items::listed(ids, n, ids[i]->0));
            assert(items::receipted(items, m, ids[i]->0));
        }
    }
    if {
        &&& forall|i: int| 0 <= i < ids.len() ==> (#[trigger] ids[i]) is Some
        &&& forall|i: int, j: int| 0 <= i < j < ids.len() ==> #[trigger] ids[i] != #[trigger] ids[j]
        &&& forall|k: int| 0 <= k < items.len() ==> (#[trigger] items[k]).item_id.len() != 0
        &&& forall|k: int, m: int|
            0 <= k < m < items.len() ==> (#[trigger] items[k]).item_id != (
            #[trigger] items[m]).item_id
        &&& forall|k: int|
            0 <= k < items.len() ==> exists|i: int|
                0 <= i < ids.len() && #[trigger] ids[i] == Some((#[trigger] items[k]).item_id)
        &&& forall|i: int|
            0 <= i < ids.len() ==> exists|k: int|
                0 <= k < items.len() && Some((#[trigger] items[k]).item_id) == #[trigger] ids[i]
        &&& items::token_sum(items, items.len() as int) == total
    } {
        assert forall|id: Seq<char>| #[trigger]
            items::listed(ids, n, id) <==> items::receipted(items, m, id) by {
            if items::listed(ids, n, id) {
                let i = choose|i: int| 0 <= i < n && #[trigger] ids[i] == Some(id);
                let k = choose|k: int|
                    0 <= k < items.len() && Some((#[trigger] items[k]).item_id) == ids[i];
                assert(items[k].item_id == id);
            }
            if items::receipted(items, m, id) {
                let k = choose|k: int| 0 <= k < m && (#[trigger] items[k]).item_id == id;
                let i = choose|i: int|
                    0 <= i < ids.len() && #[trigger] ids[i] == Some(items[k].item_id);
                assert(ids[i] == Some(id));
            }
        }
    }
}

/// The first final item without an identifier of its own is named: by its place where it has
/// none, by the identifier where an earlier item has it.
pub proof fn law_first_faulty_final_item_is_named(
    ids: Seq<Option<Seq<char>>>,
    items: Seq<ProviderTerminalInputItemView>,
    total: u64,
    i: int,
)
    requires
        0 <= i < ids.len() <= usize::MAX,
        forall|j: int| 0 <= j < i ==> (#[trigger] ids[j]) is Some,
        forall|j: int, k: int| 0 <= j < k < i ==> #[trigger] ids[j] != #[trigger] ids[k],
    ensures
        ids[i] is None ==> items::items_fault(ids, items, total) == Some(
            ProviderRequestAttributionErrorView::MissingFinalInputItemId { index: i as usize },
        ),
        ids[i] is Some && (exists|j: int| 0 <= j < i && #[trigger] ids[j] == ids[i])
            ==> items::items_fault(ids, items, total) == Some(
            ProviderRequestAttributionErrorView::DuplicateFinalInputItemId { item_id: ids[i]->0 },
        ),
{
    lemma_final_items_fine(ids, i);
    if ids[i] is None || (exists|j: int| 0 <= j < i && #[trigger] ids[j] == ids[i]) {
        if ids[i] is Some {
            let j = choose|j: int| 0 <= j < i && #[trigger] ids[j] == ids[i];
            assert(ids[j] == Some(ids[i]->0));
            assert(items::listed(ids, i, ids[i]->0));
        }
        assert(items::final_items_fault(ids, i + 1) is Some);
        lemma_final_fault_stays(ids, i + 1, ids.len() as int);
    }
}

proof fn lemma_final_items_fine(ids: Seq<Option<Seq<char>>>, n: int)
    requires
        0 <= n <= ids.len(),
        forall|j: int| 0 <= j < n ==> (#[trigger] ids[j]) is Some,
        forall|j: int, k: int| 0 <= j < k < n ==> #[trigger] ids[j] != #[trigger] ids[k],
    ensures
        items::final_items_fault(ids, n) is None,
    decreases n,
{
    if n > 0 {
        lemma_final_items_fine(ids, n - 1);
        assert(ids[n - 1] is Some);
        if items::listed(ids, n - 1, ids[n - 1]->0) {
            let j = choose|j: int| 0 <= j < n - 1 && #[trigger] ids[j] == Some(ids[n - 1]->0);
            assert(ids[j] != ids[n - 1]);
        }
    }
}

proof fn lemma_final_fault_stays(ids: Seq<Option<Seq<char>>>, n: int, m: int)
    requires
        0 <= n <= m <= ids.len(),
        items::final_items_fault(ids, n) is Some,
    ensures
        items::final_items_fault(ids, m) == items::final_items_fault(ids, n),
    decreases m,
{
    if n < m {
        lemma_final_fault_stays(ids, n, m - 1);
    }
}

/// Where the final items are fine, the first receipt item that is not is named: an empty
/// identifier as missing, one that an earlier receipt item has as a duplicate, one that no final
/// item has as extra; and one whose tokens exceed the counter as an overflow.
pub proof fn law_first_faulty_receipt_item_is_named(
    ids: Seq<Option<Seq<char>>>,
    items: Seq<ProviderTerminalInputItemView>,
    total: u64,
    k: int,
)
    requires
        forall|i: int| 0 <= i < ids.len() ==> (#[trigger] ids[i]) is Some,
        forall|i: int, j: int| 0 <= i < j < ids.len() ==> #[trigger] ids[i] != #[trigger] ids[j],
        0 <= k < items.len(),
        forall|m: int| 0 <= m < k ==> (#[trigger] items[m]).item_id.len() != 0,
        forall|m: int, n: int|
            0 <= m < n < k ==> (#[trigger] items[m]).item_id != (#[trigger] items[n]).item_id,
        forall|m: int|
            0 <= m < k ==> exists|i: int|
                0 <= i < ids.len() && #[trigger] ids[i] == Some((#[trigger] items[m]).item_id),
        items::token_sum(items, k) <= u64::MAX,
    ensures
        ({
            let item_id = items[k].item_id;
            let fault = items::items_fault(ids, items, total);
            let repeated = exists|m: int| 0 <= m < k && (#[trigger] items[m]).item_id == item_id;
            let known = exists|i: int| 0 <= i < ids.len() && #[trigger] ids[i] == Some(item_id);
            &&& item_id.len() == 0 ==> fault == Some(
                ProviderRequestAttributionErrorView::MissingReceiptInputItemId { item_id },
            )
            &&& item_id.len() != 0 && repeated ==> fault == Some(
                ProviderRequestAttributionErrorView::DuplicateReceiptInputItemId { item_id },
            )
            &&& item_id.len() != 0 && !repeated && !known ==> fault == Some(
                ProviderRequestAttributionErrorView::ExtraReceiptInputItemId { item_id },
            )
            &&& item_id.len() != 0 && !repeated && known && items::token_sum(items, k)
                + items[k].input_tokens > u64::MAX ==> fault == Some(
                ProviderRequestAttributionErrorView::InputTokenSumOverflow,
            )
        }),
{
    lemma_final_items_fine(ids, ids.len() as int);
    lemma_receipt_items_fine(ids, items, k);
    if items::receipt_items_fault(ids, items, k + 1) is Some {
        lemma_receipt_fault_stays(ids, items, k + 1, items.len() as int);
    }
}

proof fn lemma_receipt_items_fine(
    ids: Seq<Option<Seq<char>>>,
    items: Seq<ProviderTerminalInputItemView>,
    n: int,
)
    requires
        0 <= n <= items.len(),
        forall|m: int| 0 <= m < n ==> (#[trigger] items[m]).item_id.len() != 0,
        forall|m: int, k: int|
            0 <= m < k < n ==> (#[trigger] items[m]).item_id != (#[trigger] items[k]).item_id,
        forall|m: int|
            0 <= m < n ==> exists|i: int|
                0 <= i < ids.len() && #[trigger] ids[i] == Some((#[trigger] items[m]).item_id),
        items::token_sum(items, n) <= u64::MAX,
    ensures
        items::receipt_items_fault(ids, items, n) is None,
    decreases n,
{
    if n > 0 {
        lemma_receipt_items_fine(ids, items, n - 1);
        let item_id = items[n - 1].item_id;
        let i = choose|i: int| 0 <= i < ids.len() && #[trigger] ids[i] == Some(item_id);
        assert(items::listed(ids, ids.len() as int, item_id));
        if items::receipted(items, n - 1, item_id) {
            let m = choose|m: int| 0 <= m < n - 1 && (#[trigger] items[m]).item_id == item_id;
            assert(items[m].item_id != items[n - 1].item_id);
        }
    }
}

proof fn lemma_receipt_fault_stays(
    ids: Seq<Option<Seq<char>>>,
    items: Seq<ProviderTerminalInputItemView>,
    n: int,
    m: int,
)
    requires
        0 <= n <= m <= items.len(),
        items::receipt_items_fault(ids, items, n) is Some,
    ensures
        items::receipt_items_fault(ids, items, m) == items::receipt_items_fault(ids, items, n),
    decreases m,
{
    if n < m {
        lemma_receipt_fault_stays(ids, items, n, m - 1);
    }
}

/// Where the items on both sides are fine, a final item that the receipt does not count is named,
/// the first one; and where it counts them all, a sum other than the total is answered with both.
pub proof fn law_uncounted_items_and_wrong_sums_are_named(
    ids: Seq<Option<Seq<char>>>,
    items: Seq<ProviderTerminalInputItemView>,
    total: u64,
    n: int,
)
    requires
        forall|i: int| 0 <= i < ids.len() ==> (#[trigger] ids[i]) is Some,
        forall|i: int, j: int| 0 <= i < j < ids.len() ==> #[trigger] ids[i] != #[trigger] ids[j],
        forall|m: int| 0 <= m < items.len() ==> (#[trigger] items[m]).item_id.len() != 0,
        forall|m: int, k: int|
            0 <= m < k < items.len() ==> (#[trigger] items[m]).item_id != (
            #[trigger] items[k]).item_id,
        forall|m: int|
            0 <= m < items.len() ==> exists|i: int|
                0 <= i < ids.len() && #[trigger] ids[i] == Some((#[trigger] items[m]).item_id),
        items::token_sum(items, items.len() as int) <= u64::MAX,
        0 <= n <= ids.len(),
        forall|i: int|
            0 <= i < n ==> exists|k: int|
                0 <= k < items.len() && Some((#[trigger] items[k]).item_id) == #[trigger] ids[i],
    ensures
        n < ids.len() && (forall|k: int|
            0 <= k < items.len() ==> Some((#[trigger] items[k]).item_id) != ids[n])
            ==> items::items_fault(ids, items, total) == Some(
            ProviderRequestAttributionErrorView::MissingReceiptInputItemId { item_id: ids[n]->0 },
        ),
        n == ids.len() && items::token_sum(items, items.len() as int) != total
            ==> items::items_fault(ids, items, total) == Some(
            ProviderRequestAttributionErrorView::AggregateInputTokensMismatch {
                expected: total,
                actual: items::token_sum(items, items.len() as int) as u64,
            },
        ),
{
    lemma_final_items_fine(ids, ids.len() as int);
    lemma_receipt_items_fine(ids, items, items.len() as int);
    lemma_all_counted(ids, items, n);
    if n < ids.len() && (forall|k: int|
        0 <= k < items.len() ==> Some((#[trigger] items[k]).item_id) != ids[n]) {
        assert(ids[n] is Some);
        assert(!items::receipted(items, items.len() as int, ids[n]->0));
        assert(items::first_uncounted(ids, items, n + 1) == Some(ids[n]->0));
        lemma_uncounted_is_first(ids, items, n + 1, ids.len() as int);
    }
}

proof fn lemma_all_counted(
    ids: Seq<Option<Seq<char>>>,
    items: Seq<ProviderTerminalInputItemView>,
    n: int,
)
    requires
        0 <= n <= ids.len(),
        forall|i: int|
            0 <= i < n ==> exists|k: int|
                0 <= k < items.len() && Some((#[trigger] items[k]).item_id) == #[trigger] ids[i],
    ensures
        items::first_uncounted(ids, items, n) is None,
    decreases n,
{
    if n > 0 {
        lemma_all_counted(ids, items, n - 1);
        let k = choose|k: int|
            0 <= k < items.len() && Some((#[trigger] items[k]).item_id) == ids[n - 1];
        if let Some(id) = ids[n - 1] {
            assert(items[k].item_id == id);
            assert(items::receipted(items, items.len() as int, id));
        }
    }
}

proof fn lemma_uncounted_is_first(
    ids: Seq<Option<Seq<char>>>,
    items: Seq<ProviderTerminalInputItemView>,
    n: int,
    m: int,
)
    requires
        0 <= n <= m <= ids.len(),
        items::first_uncounted(ids, items, n) is Some,
    ensures
        items::first_uncounted(ids, items, m) == items::first_uncounted(ids, items, n),
    decreases m,
{
    if n < m {
        lemma_uncounted_is_first(ids, items, n, m - 1);
    }
}

/// A receipt is refused for the first of these reasons that holds of it: what is missing, then what
/// does not belong to the request and the response; and where none holds, for what is wrong with
/// its items, if anything is.
#[verifier::rlimit(40)]
pub proof fn law_receipts_are_refused_for_the_first_reason(
    request: ResponsesApiRequestView,
    fingerprint: Seq<char>,
    terminal: ProviderTerminalResponseView,
    given: ProviderTerminalAttributionReceiptView,
    reasons: Seq<(bool, ProviderRequestAttributionErrorView)>,
)
    requires
        reasons == seq![
            (
                terminal.session_id is None || terminal.session_id->0.len() == 0,
                ProviderRequestAttributionErrorView::MissingSessionId,
            ),
            (
                terminal.turn_id is None || terminal.turn_id->0.len() == 0,
                ProviderRequestAttributionErrorView::MissingTurnId,
            ),
            (terminal.response_id.len() == 0, ProviderRequestAttributionErrorView::MissingResponseId),
            (
                terminal.authoritative_input_tokens is None,
                ProviderRequestAttributionErrorView::MissingAggregateInputTokens,
            ),
            (given.session_id.len() == 0, ProviderRequestAttributionErrorView::MissingSessionId),
            (given.turn_id.len() == 0, ProviderRequestAttributionErrorView::MissingTurnId),
            (given.response_id.len() == 0, ProviderRequestAttributionErrorView::MissingResponseId),
            (
                given.request_fingerprint.len() == 0,
                ProviderRequestAttributionErrorView::MissingRequestFingerprint,
            ),
            (
                given.requested_model.len() == 0,
                ProviderRequestAttributionErrorView::MissingRequestedModel,
            ),
            (given.resolved_model.len() == 0, ProviderRequestAttributionErrorView::MissingResolvedModel),
            (
                given.requested_model_fingerprint.len() == 0,
                ProviderRequestAttributionErrorView::MissingRequestedModelFingerprint,
            ),
            (
                given.resolved_model_fingerprint.len() == 0,
                ProviderRequestAttributionErrorView::MissingResolvedModelFingerprint,
            ),
            (
                given.provider_transformation_version.len() == 0,
                ProviderRequestAttributionErrorView::MissingProviderTransformationVersion,
            ),
            (
                given.tokenizer_accounting_version.len() == 0,
                ProviderRequestAttributionErrorView::MissingTokenizerAccountingVersion,
            ),
            (
                terminal.session_id != Some(given.session_id),
                ProviderRequestAttributionErrorView::SessionIdMismatch,
            ),
            (
                terminal.turn_id != Some(given.turn_id),
                ProviderRequestAttributionErrorView::TurnIdMismatch,
            ),
            (
                given.response_id != terminal.response_id,
                ProviderRequestAttributionErrorView::ResponseIdMismatch,
            ),
            (
                given.request_fingerprint != fingerprint,
                ProviderRequestAttributionErrorView::RequestFingerprintMismatch,
            ),
            (
                given.requested_model != terminal.requested_model,
                ProviderRequestAttributionErrorView::RequestedModelMismatch,
            ),
            (
                given.requested_model_fingerprint != "sha256:model-v1:"@ + text::hex(
                    digest::sha256(vstd::utf8::encode_utf8(given.requested_model)),
                ),
                ProviderRequestAttributionErrorView::RequestedModelFingerprintMismatch,
            ),
            (
                terminal.resolved_model is Some && terminal.resolved_model != Some(
                    given.resolved_model,
                ),
                ProviderRequestAttributionErrorView::ResolvedModelMismatch,
            ),
            (
                given.resolved_model_fingerprint != "sha256:model-v1:"@ + text::hex(
                    digest::sha256(vstd::utf8::encode_utf8(given.resolved_model)),
                ),
                ProviderRequestAttributionErrorView::ResolvedModelFingerprintMismatch,
            ),
            (
                terminal.authoritative_input_tokens != Some(given.authoritative_input_tokens),
                ProviderRequestAttributionErrorView::AggregateInputTokensMismatch {
                    expected: terminal.authoritative_input_tokens->0,
                    actual: given.authoritative_input_tokens,
                },
            ),
        ],
    ensures
        ({
            let fault = receipt::receipt_fault(request, fingerprint, terminal, given);
            &&& first_reason(reasons) is Some ==> fault == first_reason(reasons)
            &&& first_reason(reasons) is None ==> fault == items::items_fault(
                types::item_ids(request.input),
                given.input_items,
                terminal.authoritative_input_tokens->0,
            )
        }),
{
    let n = first_index(reasons, 0);
    lemma_first_index(reasons, 0);
    lemma_first_reason_steps(reasons, n);
    assert(reasons.len() == 23);
    assert forall|i: int| 0 <= i < n implies !(#[trigger] reasons[i]).0 by {}
    assert(0 < n ==> !reasons[0].0);
    assert(1 < n ==> !reasons[1].0);
    assert(2 < n ==> !reasons[2].0);
    assert(3 < n ==> !reasons[3].0);
    assert(4 < n ==> !reasons[4].0);
    assert(5 < n ==> !reasons[5].0);
    assert(6 < n ==> !reasons[6].0);
    assert(7 < n ==> !reasons[7].0);
    assert(8 < n ==> !reasons[8].0);
    assert(9 < n ==> !reasons[9].0);
    assert(10 < n ==> !reasons[10].0);
    assert(11 < n ==> !reasons[11].0);
    assert(12 < n ==> !reasons[12].0);
    assert(13 < n ==> !reasons[13].0);
    assert(14 < n ==> !reasons[14].0);
    assert(15 < n ==> !reasons[15].0);
    assert(16 < n ==> !reasons[16].0);
    assert(17 < n ==> !reasons[17].0);
    assert(18 < n ==> !reasons[18].0);
    assert(19 < n ==> !reasons[19].0);
    assert(20 < n ==> !reasons[20].0);
    assert(21 < n ==> !reasons[21].0);
    assert(22 < n ==> !reasons[22].0);
}

/// A response is turned away for the first reason that holds of it: it did not succeed, or it is
/// of another session, another turn or another model than the request was captured with. Any
/// other response reaches the hook.
pub proof fn law_responses_are_turned_away_for_the_first_reason(
    captured: ProviderTerminalAttributionHandleView,
    terminal: ProviderTerminalResponseView,
)
    ensures
        captured.turned_away(terminal) == first_reason(
            seq![
                (
                    !terminal.successful,
                    ProviderRequestAttributionErrorView::TerminalResponseNotSuccessful,
                ),
                (
                    terminal.session_id != captured.session_id,
                    ProviderRequestAttributionErrorView::SessionIdMismatch,
                ),
                (
                    terminal.turn_id != captured.turn_id,
                    ProviderRequestAttributionErrorView::TurnIdMismatch,
                ),
                (
                    terminal.requested_model != captured.request.model,
                    ProviderRequestAttributionErrorView::RequestedModelMismatch,
                ),
            ],
        ),
{
    let reasons = seq![
        (
            !terminal.successful,
            ProviderRequestAttributionErrorView::TerminalResponseNotSuccessful,
        ),
        (
            terminal.session_id != captured.session_id,
            ProviderRequestAttributionErrorView::SessionIdMismatch,
        ),
        (
            terminal.turn_id != captured.turn_id,
            ProviderRequestAttributionErrorView::TurnIdMismatch,
        ),
        (
            terminal.requested_model != captured.request.model,
            ProviderRequestAttributionErrorView::RequestedModelMismatch,
        ),
    ];
    let n = first_index(reasons, 0);
    lemma_first_index(reasons, 0);
    lemma_first_reason_steps(reasons, n);
    assert(0 < n ==> !reasons[0].0);
    assert(1 < n ==> !reasons[1].0);
    assert(2 < n ==> !reasons[2].0);
    assert(3 < n ==> !reasons[3].0);
}

/// Settling is complete and sound: an answered receipt without a fault settles as the attribution
/// that holds it, the response and the request's fingerprint; one with a fault settles as the
/// fault; and an error of the hook settles as that error.
pub proof fn law_answers_settle_as_what_they_are(
    captured: ProviderTerminalAttributionHandleView,
    terminal: ProviderTerminalResponseView,
    given: ProviderTerminalAttributionReceiptView,
    error: ProviderRequestAttributionErrorView,
)
    ensures
        ({
            let settled = captured.judged(terminal, Ok(given));
            let fault = receipt::receipt_fault(
                captured.request,
                captured.final_request_fingerprint,
                terminal,
                given,
            );
            &&& receipt::receipt_is_exact(
                captured.request,
                captured.final_request_fingerprint,
                terminal,
                given,
            ) ==> settled == Ok::<_, ProviderRequestAttributionErrorView>(
                ProviderTerminalAttributionView {
                    receipt: given,
                    terminal,
                    final_request_fingerprint: captured.final_request_fingerprint,
                },
            )
            &&& fault is None ==> settled == Ok::<_, ProviderRequestAttributionErrorView>(
                ProviderTerminalAttributionView {
                    receipt: given,
                    terminal,
                    final_request_fingerprint: captured.final_request_fingerprint,
                },
            )
            &&& fault matches Some(reason) ==> settled == Err::<
                ProviderTerminalAttributionView,
                _,
            >(reason)
        }),
        captured.judged(terminal, Err(error)) == Err::<ProviderTerminalAttributionView, _>(error),
{
    receipt::law_receipt_accepted_exactly_when_exact(
        captured.request,
        captured.final_request_fingerprint,
        terminal,
        given,
    );
}

/// What a handle resolves to: the result that it was settled with, or that there is no terminal
/// response as long as it was not; settling changes nothing else of it.
pub proof fn law_handles_resolve_to_what_settled_them(
    captured: ProviderTerminalAttributionHandleView,
    result: Result<ProviderTerminalAttributionView, ProviderRequestAttributionErrorView>,
)
    ensures
        captured.result is None ==> captured.resolved() == Err::<
            ProviderTerminalAttributionView,
            _,
        >(ProviderRequestAttributionErrorView::MissingTerminalResponse),
        captured.result matches Some(held) ==> captured.resolved() == held,
        captured.settled(result).resolved() == result,
        captured.settled(result).result == Some(result),
        captured.settled(result).request == captured.request,
        captured.settled(result).final_body == captured.final_body,
        captured.settled(result).final_request_fingerprint == captured.final_request_fingerprint,
        captured.settled(result).provider == captured.provider,
        captured.settled(result).session_id == captured.session_id,
        captured.settled(result).turn_id == captured.turn_id,
{
}

/// A terminal response settles a handle once: a settled one keeps its result; a response that is
/// turned away settles as the reason; without a hook the provider is named as one that does not
/// expose exact tokens; and with one, some answer of it to the captured request, the captured
/// body and this very response settles as what it is.
pub proof fn law_responses_settle_once(
    before: ProviderTerminalAttributionHandle,
    after: ProviderTerminalAttributionHandle,
    terminal: ProviderTerminalResponseView,
)
    requires
        handle::completed_with(before, after, terminal),
    ensures
        after@.request == before@.request,
        after@.final_body == before@.final_body,
        after.attributor() == before.attributor(),
        before@.result is Some ==> after@.resolved() == before@.resolved(),
        before@.result is None && before@.turned_away(terminal) is Some ==> after@.resolved()
            == Err::<ProviderTerminalAttributionView, _>(before@.turned_away(terminal)->0),
        before@.result is None && before@.turned_away(terminal) is None && before.attributor()
            is None ==> after@.resolved() == Err::<ProviderTerminalAttributionView, _>(
            ProviderRequestAttributionErrorView::ProviderDoesNotExposeExactPerItemTokens {
                provider: before@.provider,
            },
        ),
        before@.result is None && before@.turned_away(terminal) is None && before.attributor()
            is Some ==> exists|
            reply: Result<
                ProviderTerminalAttributionReceiptView,
                ProviderRequestAttributionErrorView,
            >,
        |
            #[trigger] before.attributor()->0.may_answer(
                before@.request,
                before@.final_body,
                terminal,
                reply,
            ) && after@.resolved() == before@.judged(terminal, reply),
{
}

/// A completion of a followed stream stands for a successful response that names the stream's
/// session, turn and models, and the tokens that were reported unless they are negative.
pub proof fn law_completions_say_what_the_stream_said(
    followed: TerminalAttributionTrackerView,
    response_id: Seq<char>,
    input_tokens: Option<i64>,
)
    ensures
        ({
            let terminal = followed.terminal(response_id, input_tokens);
            &&& terminal.successful
            &&& terminal.session_id == followed.session_id
            &&& terminal.turn_id == followed.turn_id
            &&& terminal.response_id == response_id
            &&& terminal.requested_model == followed.requested_model
            &&& terminal.resolved_model == followed.resolved_model
            &&& terminal.authoritative_input_tokens is Some <==> input_tokens is Some
                && input_tokens->0 >= 0
            &&& terminal.authoritative_input_tokens matches Some(tokens) ==> tokens as int
                == input_tokens->0 as int
        }),
{
}

/// What the views of a request, a receipt and a response hold, field by field.
pub proof fn law_views_hold_every_field(
    item: ResponseItem,
    request: ResponsesApiRequest,
    counted: ProviderTerminalInputItem,
    given: ProviderTerminalAttributionReceipt,
    terminal: ProviderTerminalResponse,
    i: int,
)
    ensures
        item@.id == text::opt_view(item.id),
        item@.body == item.body@,
        request@.model == request.model@,
        request@.input.len() == request.input@.len(),
        0 <= i < request.input@.len() ==> request@.input[i] == request.input@[i]@,
        0 <= i < request.input@.len() ==> types::item_ids(request@.input)[i] == text::opt_view(
            request.input@[i].id,
        ),
        types::item_ids(request@.input).len() == request.input@.len(),
        counted@.item_id == counted.item_id@,
        counted@.input_tokens == counted.input_tokens,
        given@.session_id == given.session_id@,
        given@.turn_id == given.turn_id@,
        given@.response_id == given.response_id@,
        given@.request_fingerprint == given.request_fingerprint@,
        given@.requested_model == given.requested_model@,
        given@.resolved_model == given.resolved_model@,
        given@.requested_model_fingerprint == given.requested_model_fingerprint@,
        given@.resolved_model_fingerprint == given.resolved_model_fingerprint@,
        given@.provider_transformation_version == given.provider_transformation_version@,
        given@.tokenizer_accounting_version == given.tokenizer_accounting_version@,
        given@.input_items.len() == given.input_items@.len(),
        0 <= i < given.input_items@.len() ==> given@.input_items[i] == given.input_items@[i]@,
        given@.authoritative_input_tokens == given.authoritative_input_tokens,
        terminal@.session_id == text::opt_view(terminal.session_id),
        terminal@.turn_id == text::opt_view(terminal.turn_id),
        terminal@.response_id == terminal.response_id@,
        terminal@.requested_model == terminal.requested_model@,
        terminal@.resolved_model == text::opt_view(terminal.resolved_model),
        terminal@.authoritative_input_tokens == terminal.authoritative_input_tokens,
        terminal@.successful == terminal.successful,
{
}

/// An error shows the reason that it is, with what it names.
pub proof fn law_errors_show_their_reason(error: ProviderRequestAttributionError)
    ensures
        error is ProviderDoesNotExposeExactPerItemTokens <==> error@ is ProviderDoesNotExposeExactPerItemTokens,
        error is ProviderDoesNotExposeExactPerItemTokens ==> error@->ProviderDoesNotExposeExactPerItemTokens_provider == error->ProviderDoesNotExposeExactPerItemTokens_provider@,
        error is ProviderReportsAggregateOnly <==> error@ is ProviderReportsAggregateOnly,
        error is ProviderReportsAggregateOnly ==> error@->ProviderReportsAggregateOnly_provider == error->ProviderReportsAggregateOnly_provider@,
        error is ProviderReportsAggregateOnly ==> error@->ProviderReportsAggregateOnly_input_tokens == error->ProviderReportsAggregateOnly_input_tokens,
        error is EncoderRejected <==> error@ is EncoderRejected,
        error is EncoderRejected ==> error@->EncoderRejected_provider == error->EncoderRejected_provider@,
        error is EncoderRejected ==> error@->EncoderRejected_reason == error->EncoderRejected_reason@,
        error is MissingTerminalResponse <==> error@ is MissingTerminalResponse,
        error is TerminalResponseNotSuccessful <==> error@ is TerminalResponseNotSuccessful,
        error is MissingSessionId <==> error@ is MissingSessionId,
        error is MissingTurnId <==> error@ is MissingTurnId,
        error is MissingResponseId <==> error@ is MissingResponseId,
        error is MissingAggregateInputTokens <==> error@ is MissingAggregateInputTokens,
        error is MissingRequestFingerprint <==> error@ is MissingRequestFingerprint,
        error is MissingRequestedModel <==> error@ is MissingRequestedModel,
        error is MissingResolvedModel <==> error@ is MissingResolvedModel,
        error is MissingRequestedModelFingerprint <==> error@ is MissingRequestedModelFingerprint,
        error is MissingResolvedModelFingerprint <==> error@ is MissingResolvedModelFingerprint,
        error is MissingProviderTransformationVersion <==> error@ is MissingProviderTransformationVersion,
        error is MissingTokenizerAccountingVersion <==> error@ is MissingTokenizerAccountingVersion,
        error is RequestFingerprintMismatch <==> error@ is RequestFingerprintMismatch,
        error is RequestedModelMismatch <==> error@ is RequestedModelMismatch,
        error is RequestedModelFingerprintMismatch <==> error@ is RequestedModelFingerprintMismatch,
        error is ResolvedModelMismatch <==> error@ is ResolvedModelMismatch,
        error is ResolvedModelFingerprintMismatch <==> error@ is ResolvedModelFingerprintMismatch,
        error is SessionIdMismatch <==> error@ is SessionIdMismatch,
        error is TurnIdMismatch <==> error@ is TurnIdMismatch,
        error is ResponseIdMismatch <==> error@ is ResponseIdMismatch,
        error is MissingFinalInputItemId <==> error@ is MissingFinalInputItemId,
        error is MissingFinalInputItemId ==> error@->MissingFinalInputItemId_index == error->MissingFinalInputItemId_index,
        error is DuplicateFinalInputItemId <==> error@ is DuplicateFinalInputItemId,
        error is DuplicateFinalInputItemId ==> error@->DuplicateFinalInputItemId_item_id == error->DuplicateFinalInputItemId_item_id@,
        error is MissingReceiptInputItemId <==> error@ is MissingReceiptInputItemId,
        error is MissingReceiptInputItemId ==> error@->MissingReceiptInputItemId_item_id == error->MissingReceiptInputItemId_item_id@,
        error is DuplicateReceiptInputItemId <==> error@ is DuplicateReceiptInputItemId,
        error is DuplicateReceiptInputItemId ==> error@->DuplicateReceiptInputItemId_item_id == error->DuplicateReceiptInputItemId_item_id@,
        error is ExtraReceiptInputItemId <==> error@ is ExtraReceiptInputItemId,
        error is ExtraReceiptInputItemId ==> error@->ExtraReceiptInputItemId_item_id == error->ExtraReceiptInputItemId_item_id@,
        error is AggregateInputTokensMismatch <==> error@ is AggregateInputTokensMismatch,
        error is AggregateInputTokensMismatch ==> error@->AggregateInputTokensMismatch_expected == error->AggregateInputTokensMismatch_expected,
        error is AggregateInputTokensMismatch ==> error@->AggregateInputTokensMismatch_actual == error->AggregateInputTokensMismatch_actual,
        error is InputTokenSumOverflow <==> error@ is InputTokenSumOverflow,
{
}

/// An attribution, and the answers that carry one or the reason why there is none, show what they
/// hold.
pub proof fn law_answers_show_what_they_hold(
    attributed: ProviderTerminalAttribution,
    given: ProviderTerminalAttributionReceipt,
    error: ProviderRequestAttributionError,
    pending: ProviderTerminalAttributionHandle,
)
    ensures
        attributed@.receipt == attributed.receipt@,
        attributed@.terminal == attributed.terminal@,
        attributed@.final_request_fingerprint == attributed.final_request_fingerprint@,
        types::attribution_result_view(Ok(attributed)) == Ok::<
            _,
            ProviderRequestAttributionErrorView,
        >(attributed@),
        types::attribution_result_view(Err(error)) == Err::<ProviderTerminalAttributionView, _>(
            error@,
        ),
        types::receipt_result_view(Ok(given)) == Ok::<_, ProviderRequestAttributionErrorView>(
            given@,
        ),
        types::receipt_result_view(Err(error)) == Err::<ProviderTerminalAttributionReceiptView, _>(
            error@,
        ),
        ProviderRequestAttribution::ExactTerminalReceipt(attributed).resolved() == Ok::<
            _,
            ProviderRequestAttributionErrorView,
        >(attributed@),
        ProviderRequestAttribution::Unavailable(error).resolved() == Err::<
            ProviderTerminalAttributionView,
            _,
        >(error@),
        ProviderRequestAttribution::Pending(pending).resolved() == pending@.resolved(),
{
}

/// The headers of a request: the thread under its own name first, where there is one; then those
/// of the session, as they are; then the subagent under its own name, where there is one.
pub proof fn law_headers_are_set_in_order(
    edits: Seq<HeaderEdit>,
    thread_id: Option<Seq<char>>,
    session: Seq<HeaderEdit>,
    subagent: Option<Seq<char>>,
    shift: int,
)
    requires
        shift == if thread_id is Some {
            1int
        } else {
            0int
        },
        stream::header_views(edits) == stream::header_if("x-client-request-id"@, thread_id)
            + stream::header_views(session) + stream::header_if("x-openai-subagent"@, subagent),
    ensures
        edits.len() == shift + session.len() + if subagent is Some {
            1int
        } else {
            0int
        },
        thread_id is Some ==> edits[0].name@ == "x-client-request-id"@ && edits[0].value@
            == thread_id->0,
        forall|i: int|
            #![trigger session[i]]
            0 <= i < session.len() ==> edits[shift + i].name@ == session[i].name@ && edits[shift
                + i].value@ == session[i].value@,
        subagent is Some ==> edits[shift + session.len()].name@ == "x-openai-subagent"@
            && edits[shift + session.len()].value@ == subagent->0,
{
    let views = stream::header_views(edits);
    let first = stream::header_if("x-client-request-id"@, thread_id);
    let middle = stream::header_views(session);
    let last = stream::header_if("x-openai-subagent"@, subagent);
    assert(views.len() == edits.len());
    if thread_id is Some {
        assert(views[0] == first[0]);
        assert(views[0] == (edits[0].name@, edits[0].value@));
    }
    assert forall|i: int|
        #![trigger session[i]]
        0 <= i < session.len() implies edits[shift + i].name@ == session[i].name@ && edits[shift
        + i].value@ == session[i].value@ by {
        assert(views[shift + i] == middle[i]);
        assert(middle[i] == (session[i].name@, session[i].value@));
        assert(views[shift + i] == (edits[shift + i].name@, edits[shift + i].value@));
    }
    if subagent is Some {
        let at = shift + session.len();
        assert(views[at] == last[0]);
        assert(views[at] == (edits[at].name@, edits[at].value@));
    }
}

} // verus!
