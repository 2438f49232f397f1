//! What holds of the check that an attribution is exact for a turn.

#[allow(unused_imports)]
use super::attribution;
use super::attribution::SkillReadReceiptKey;
#[allow(unused_imports)]
use crate::digest;
#[allow(unused_imports)]
use crate::provider::items;
#[allow(unused_imports)]
use crate::provider::laws;
#[allow(unused_imports)]
use crate::provider::types;
use crate::provider::types::ProviderRequestAttributionErrorView;
use crate::provider::types::ProviderTerminalAttributionView;
use crate::provider::types::ResponseItemView;
#[allow(unused_imports)]
use crate::text;
use vstd::prelude::*;

verus! {

/// An attribution is refused for the first of these reasons that holds of it; and where none
/// holds, for what is wrong with the receipt's items, if anything is.
#[verifier::rlimit(40)]
pub proof fn law_attributions_are_refused_for_the_first_reason(
    input: Seq<ResponseItemView>,
    session_id: Seq<char>,
    turn_id: Seq<char>,
    attributed: ProviderTerminalAttributionView,
    reasons: Seq<(bool, ProviderRequestAttributionErrorView)>,
)
    requires
        ({
            let given = attributed.receipt;
            let terminal = attributed.terminal;
            reasons == seq![
                (
                    !terminal.successful,
                    ProviderRequestAttributionErrorView::TerminalResponseNotSuccessful,
                ),
                (
                    attributed.final_request_fingerprint.len() == 0
                        || given.request_fingerprint.len() == 0,
                    ProviderRequestAttributionErrorView::MissingRequestFingerprint,
                ),
                (
                    given.request_fingerprint != attributed.final_request_fingerprint,
                    ProviderRequestAttributionErrorView::RequestFingerprintMismatch,
                ),
                (
                    terminal.session_id is None || terminal.session_id->0.len() == 0,
                    ProviderRequestAttributionErrorView::MissingSessionId,
                ),
                (
                    terminal.turn_id is None || terminal.turn_id->0.len() == 0,
                    ProviderRequestAttributionErrorView::MissingTurnId,
                ),
                (
                    terminal.session_id->0 != session_id || given.session_id != session_id,
                    ProviderRequestAttributionErrorView::SessionIdMismatch,
                ),
                (
                    terminal.turn_id->0 != turn_id || given.turn_id != turn_id,
                    ProviderRequestAttributionErrorView::TurnIdMismatch,
                ),
                (
                    terminal.response_id.len() == 0 || given.response_id.len() == 0,
                    ProviderRequestAttributionErrorView::MissingResponseId,
                ),
                (
                    given.response_id != terminal.response_id,
                    ProviderRequestAttributionErrorView::ResponseIdMismatch,
                ),
                (
                    given.requested_model.len() == 0,
                    ProviderRequestAttributionErrorView::MissingRequestedModel,
                ),
                (
                    given.requested_model != terminal.requested_model,
                    ProviderRequestAttributionErrorView::RequestedModelMismatch,
                ),
                (
                    given.requested_model_fingerprint.len() == 0,
                    ProviderRequestAttributionErrorView::MissingRequestedModelFingerprint,
                ),
                (
                    given.requested_model_fingerprint != "sha256:model-v1:"@ + text::hex(
                        digest::sha256(vstd::utf8::encode_utf8(given.requested_model)),
                    ),
                    ProviderRequestAttributionErrorView::RequestedModelFingerprintMismatch,
                ),
                (
                    given.resolved_model.len() == 0,
                    ProviderRequestAttributionErrorView::MissingResolvedModel,
                ),
                (
                    terminal.resolved_model is Some && terminal.resolved_model->0
                        != given.resolved_model,
                    ProviderRequestAttributionErrorView::ResolvedModelMismatch,
                ),
                (
                    given.resolved_model_fingerprint.len() == 0,
                    ProviderRequestAttributionErrorView::MissingResolvedModelFingerprint,
                ),
                (
                    given.resolved_model_fingerprint != "sha256:model-v1:"@ + text::hex(
                        digest::sha256(vstd::utf8::encode_utf8(given.resolved_model)),
                    ),
                    ProviderRequestAttributionErrorView::ResolvedModelFingerprintMismatch,
                ),
                (
                    given.provider_transformation_version.len() == 0,
                    ProviderRequestAttributionErrorView::MissingProviderTransformationVersion,
                ),
                (
                    given.tokenizer_accounting_version.len() == 0,
                    ProviderRequestAttributionErrorView::MissingTokenizerAccountingVersion,
                ),
                (
                    terminal.authoritative_input_tokens is None,
                    ProviderRequestAttributionErrorView::MissingAggregateInputTokens,
                ),
                (
                    terminal.authoritative_input_tokens->0 != given.authoritative_input_tokens,
                    ProviderRequestAttributionErrorView::AggregateInputTokensMismatch {
                        expected: terminal.authoritative_input_tokens->0,
                        actual: given.authoritative_input_tokens,
                    },
                ),
            ]
        }),
    ensures
        ({
            let fault = attribution::attribution_fault(input, session_id, turn_id, attributed);
            &&& laws::first_reason(reasons) is Some ==> fault == laws::first_reason(reasons)
            &&& laws::first_reason(reasons) is None ==> fault == items::items_fault(
                types::item_ids(input),
                attributed.receipt.input_items,
                attributed.terminal.authoritative_input_tokens->0,
            )
        }),
{
    let n = laws::first_index(reasons, 0);
    laws::lemma_first_index(reasons, 0);
    laws::lemma_first_reason_steps(reasons, n);
    assert(reasons.len() == 21);
    assert(0 < n ==> !reasons[0].0);
    assert(1 < n ==> !reasons[1].0);
    assert(2 < n ==> !reasons[2].0);
    assert(3 < n ==> !reasons[3].0);
    assert(4 < n ==> !reasons[4].0);
    assert(5 < n ==> !reasons[5].0);
    assert(6 < n ==> !reasons[6].0);
    assert(7 < n ==> !reasons[7].0);
    assert(8 < n ==> !reasons[8].0);
    assert(9 < n ==> !reasons[9].0);
    assert(10 < n ==> !reasons[10].0);
    assert(11 < n ==> !reasons[11].0);
    assert(12 < n ==> !reasons[12].0);
    assert(13 < n ==> !reasons[13].0);
    assert(14 < n ==> !reasons[14].0);
    assert(15 < n ==> !reasons[15].0);
    assert(16 < n ==> !reasons[16].0);
    assert(17 < n ==> !reasons[17].0);
    assert(18 < n ==> !reasons[18].0);
    assert(19 < n ==> !reasons[19].0);
    assert(20 < n ==> !reasons[20].0);
}

/// A receipt is known again by its session, its turn, its response and its request, and by nothing
/// else.
pub proof fn law_receipts_are_known_by_four_texts(
    session_id: Seq<char>,
    turn_id: Seq<char>,
    attributed: ProviderTerminalAttributionView,
    other_session: Seq<char>,
    other_turn: Seq<char>,
    other: ProviderTerminalAttributionView,
    key: SkillReadReceiptKey,
)
    ensures
        attribution::receipt_key(session_id, turn_id, attributed) == attribution::receipt_key(
            other_session,
            other_turn,
            other,
        ) <==> session_id == other_session && turn_id == other_turn
            && attributed.receipt.response_id == other.receipt.response_id
            && attributed.receipt.request_fingerprint == other.receipt.request_fingerprint,
        key@ == attribution::receipt_key(session_id, turn_id, attributed) <==> key.session_id@
            == session_id && key.turn_id@ == turn_id && key.response_id@
            == attributed.receipt.response_id && key.request_fingerprint@
            == attributed.receipt.request_fingerprint,
{
}

} // verus!
