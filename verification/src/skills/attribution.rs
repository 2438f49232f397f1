//! The check that an attribution is exact for the request that a turn sent.

use crate::provider::items;
use crate::provider::items::check_input_items;
use crate::provider::receipt;
use crate::provider::receipt::is_present;
use crate::provider::receipt::is_resolved_elsewhere;
use crate::provider::receipt::provider_model_fingerprint;
use crate::provider::types;
use crate::provider::types::ProviderRequestAttributionError;
use crate::provider::types::ProviderRequestAttributionErrorView;
use crate::provider::types::ProviderTerminalAttribution;
use crate::provider::types::ProviderTerminalAttributionView;
use crate::provider::types::ResponseItem;
use crate::provider::types::ResponseItemView;
use crate::provider::types::ResponsesApiRequestView;
use crate::text::opt_reads;
use crate::text::str_eq;
use vstd::prelude::*;

verus! {

/// The identity of an accepted receipt.
#[derive(Debug, PartialEq, Eq)]
pub struct SkillReadReceiptKey {
    pub session_id: String,
    pub turn_id: String,
    pub response_id: String,
    pub request_fingerprint: String,
}

/// What a [`SkillReadReceiptKey`] holds.
pub struct SkillReadReceiptKeyView {
    pub session_id: Seq<char>,
    pub turn_id: Seq<char>,
    pub response_id: Seq<char>,
    pub request_fingerprint: Seq<char>,
}

impl View for SkillReadReceiptKey {
    type V = SkillReadReceiptKeyView;

    open spec fn view(&self) -> SkillReadReceiptKeyView {
        SkillReadReceiptKeyView {
            session_id: self.session_id@,
            turn_id: self.turn_id@,
            response_id: self.response_id@,
            request_fingerprint: self.request_fingerprint@,
        }
    }
}

impl SkillReadReceiptKey {
    /// Decides whether two keys name the same receipt.
    pub fn same_as(&self, other: &SkillReadReceiptKey) -> (same: bool)
        ensures
            same == (self@ == other@),
    {
        str_eq(self.session_id.as_str(), other.session_id.as_str()) && str_eq(
            self.turn_id.as_str(),
            other.turn_id.as_str(),
        ) && str_eq(self.response_id.as_str(), other.response_id.as_str()) && str_eq(
            self.request_fingerprint.as_str(),
            other.request_fingerprint.as_str(),
        )
    }
}

/// The key of the receipt that a turn accepts.
pub open spec fn receipt_key(
    session_id: Seq<char>,
    turn_id: Seq<char>,
    attribution: ProviderTerminalAttributionView,
) -> SkillReadReceiptKeyView {
    SkillReadReceiptKeyView {
        session_id,
        turn_id,
        response_id: attribution.receipt.response_id,
        request_fingerprint: attribution.receipt.request_fingerprint,
    }
}

/// Why the bindings of an attribution (all but its items) are refused for this session and turn,
/// in the order in which they are looked at.
pub open spec fn binding_fault(
    session_id: Seq<char>,
    turn_id: Seq<char>,
    attribution: ProviderTerminalAttributionView,
) -> Option<ProviderRequestAttributionErrorView> {
    let answered = attribution.receipt;
    let terminal = attribution.terminal;
    if !terminal.successful {
        Some(ProviderRequestAttributionErrorView::TerminalResponseNotSuccessful)
    } else if attribution.final_request_fingerprint.len() == 0
        || answered.request_fingerprint.len() == 0 {
        Some(ProviderRequestAttributionErrorView::MissingRequestFingerprint)
    } else if answered.request_fingerprint != attribution.final_request_fingerprint {
        Some(ProviderRequestAttributionErrorView::RequestFingerprintMismatch)
    } else if !receipt::present(terminal.session_id) {
        Some(ProviderRequestAttributionErrorView::MissingSessionId)
    } else if !receipt::present(terminal.turn_id) {
        Some(ProviderRequestAttributionErrorView::MissingTurnId)
    } else if terminal.session_id != Some(session_id) || answered.session_id != session_id {
        Some(ProviderRequestAttributionErrorView::SessionIdMismatch)
    } else if terminal.turn_id != Some(turn_id) || answered.turn_id != turn_id {
        Some(ProviderRequestAttributionErrorView::TurnIdMismatch)
    } else if terminal.response_id.len() == 0 || answered.response_id.len() == 0 {
        Some(ProviderRequestAttributionErrorView::MissingResponseId)
    } else if answered.response_id != terminal.response_id {
        Some(ProviderRequestAttributionErrorView::ResponseIdMismatch)
    } else if answered.requested_model.len() == 0 {
        Some(ProviderRequestAttributionErrorView::MissingRequestedModel)
    } else if answered.requested_model != terminal.requested_model {
        Some(ProviderRequestAttributionErrorView::RequestedModelMismatch)
    } else if answered.requested_model_fingerprint.len() == 0 {
        Some(ProviderRequestAttributionErrorView::MissingRequestedModelFingerprint)
    } else if answered.requested_model_fingerprint != receipt::model_fingerprint(
        answered.requested_model,
    ) {
        Some(ProviderRequestAttributionErrorView::RequestedModelFingerprintMismatch)
    } else if answered.resolved_model.len() == 0 {
        Some(ProviderRequestAttributionErrorView::MissingResolvedModel)
    } else if receipt::resolved_elsewhere(terminal, answered) {
        Some(ProviderRequestAttributionErrorView::ResolvedModelMismatch)
    } else if answered.resolved_model_fingerprint.len() == 0 {
        Some(ProviderRequestAttributionErrorView::MissingResolvedModelFingerprint)
    } else if answered.resolved_model_fingerprint != receipt::model_fingerprint(
        answered.resolved_model,
    ) {
        Some(ProviderRequestAttributionErrorView::ResolvedModelFingerprintMismatch)
    } else if answered.provider_transformation_version.len() == 0 {
        Some(ProviderRequestAttributionErrorView::MissingProviderTransformationVersion)
    } else if answered.tokenizer_accounting_version.len() == 0 {
        Some(ProviderRequestAttributionErrorView::MissingTokenizerAccountingVersion)
    } else if terminal.authoritative_input_tokens is None {
        Some(ProviderRequestAttributionErrorView::MissingAggregateInputTokens)
    } else if Some(answered.authoritative_input_tokens) != terminal.authoritative_input_tokens {
        Some(
            ProviderRequestAttributionErrorView::AggregateInputTokensMismatch {
                expected: terminal.authoritative_input_tokens->0,
                actual: answered.authoritative_input_tokens,
            },
        )
    } else {
        None
    }
}

/// Why an attribution is refused for this input, session and turn, if it is.
pub open spec fn attribution_fault(
    input: Seq<ResponseItemView>,
    session_id: Seq<char>,
    turn_id: Seq<char>,
    attribution: ProviderTerminalAttributionView,
) -> Option<ProviderRequestAttributionErrorView> {
    match binding_fault(session_id, turn_id, attribution) {
        Some(fault) => Some(fault),
        None => items::items_fault(
            types::item_ids(input),
            attribution.receipt.input_items,
            attribution.terminal.authoritative_input_tokens->0,
        ),
    }
}

/// The attribution is that of a successful response in this session and turn, and its receipt is
/// exact for a request with this input.
pub open spec fn attribution_is_exact(
    input: Seq<ResponseItemView>,
    session_id: Seq<char>,
    turn_id: Seq<char>,
    attribution: ProviderTerminalAttributionView,
) -> bool {
    &&& attribution.terminal.successful
    &&& attribution.receipt.session_id == session_id
    &&& attribution.receipt.turn_id == turn_id
    &&& receipt::receipt_is_exact(
        ResponsesApiRequestView { model: attribution.terminal.requested_model, input },
        attribution.final_request_fingerprint,
        attribution.terminal,
        attribution.receipt,
    )
}

/// An attribution is accepted for a turn exactly when it is exact for the input that was sent.
pub proof fn law_attribution_accepted_exactly_when_exact(
    input: Seq<ResponseItemView>,
    session_id: Seq<char>,
    turn_id: Seq<char>,
    attribution: ProviderTerminalAttributionView,
)
    ensures
        attribution_fault(input, session_id, turn_id, attribution) is None
            <==> attribution_is_exact(input, session_id, turn_id, attribution),
{
    items::law_items_accepted_exactly_as_bijection(
        types::item_ids(input),
        attribution.receipt.input_items,
        attribution.receipt.authoritative_input_tokens,
    );
    receipt::law_fingerprints_keep_apart(Seq::empty(), attribution.receipt.requested_model);
    receipt::law_fingerprints_keep_apart(Seq::empty(), attribution.receipt.resolved_model);
}

/// What a handle settles as the attribution of a request, the telemetry of the same session and
/// turn accepts for that request's input.
pub proof fn law_settled_attribution_is_accepted(
    handle: crate::provider::handle::ProviderTerminalAttributionHandleView,
    terminal: crate::provider::types::ProviderTerminalResponseView,
    reply: Result<
        crate::provider::types::ProviderTerminalAttributionReceiptView,
        ProviderRequestAttributionErrorView,
    >,
    session_id: Seq<char>,
    turn_id: Seq<char>,
)
    requires
        handle.turned_away(terminal) is None,
        handle.session_id == Some(session_id),
        handle.turn_id == Some(turn_id),
    ensures
        handle.judged(terminal, reply) matches Ok(attribution) ==> attribution_fault(
            handle.request.input,
            session_id,
            turn_id,
            attribution,
        ) is None,
{
    crate::provider::handle::law_only_exact_receipts_are_attributed(handle, terminal, reply);
    if let Ok(attribution) = handle.judged(terminal, reply) {
        law_attribution_accepted_exactly_when_exact(
            handle.request.input,
            session_id,
            turn_id,
            attribution,
        );
    }
}

/// Finds the first binding of an attribution that is refused for this session and turn.
fn find_binding_fault(
    session_id: &str,
    turn_id: &str,
    attribution: &ProviderTerminalAttribution,
) -> (fault: Option<ProviderRequestAttributionError>)
    ensures
        match fault {
            Some(error) => binding_fault(session_id@, turn_id@, attribution@) == Some(error@),
            None => binding_fault(session_id@, turn_id@, attribution@) is None,
        },
{
    let answered = &attribution.receipt;
    let terminal = &attribution.terminal;
    if !terminal.successful {
        return Some(ProviderRequestAttributionError::TerminalResponseNotSuccessful);
    }
    if attribution.final_request_fingerprint.as_str().is_empty()
        || answered.request_fingerprint.as_str().is_empty() {
        return Some(ProviderRequestAttributionError::MissingRequestFingerprint);
    }
    if !str_eq(
        answered.request_fingerprint.as_str(),
        attribution.final_request_fingerprint.as_str(),
    ) {
        return Some(ProviderRequestAttributionError::RequestFingerprintMismatch);
    }
    if !is_present(&terminal.session_id) {
        return Some(ProviderRequestAttributionError::MissingSessionId);
    }
    if !is_present(&terminal.turn_id) {
        return Some(ProviderRequestAttributionError::MissingTurnId);
    }
    if !opt_reads(&terminal.session_id, session_id) || !str_eq(
        answered.session_id.as_str(),
        session_id,
    ) {
        return Some(ProviderRequestAttributionError::SessionIdMismatch);
    }
    if !opt_reads(&terminal.turn_id, turn_id) || !str_eq(answered.turn_id.as_str(), turn_id) {
        return Some(ProviderRequestAttributionError::TurnIdMismatch);
    }
    if terminal.response_id.as_str().is_empty() || answered.response_id.as_str().is_empty() {
        return Some(ProviderRequestAttributionError::MissingResponseId);
    }
    if !str_eq(answered.response_id.as_str(), terminal.response_id.as_str()) {
        return Some(ProviderRequestAttributionError::ResponseIdMismatch);
    }
    if answered.requested_model.as_str().is_empty() {
        return Some(ProviderRequestAttributionError::MissingRequestedModel);
    }
    if !str_eq(answered.requested_model.as_str(), terminal.requested_model.as_str()) {
        return Some(ProviderRequestAttributionError::RequestedModelMismatch);
    }
    if answered.requested_model_fingerprint.as_str().is_empty() {
        return Some(ProviderRequestAttributionError::MissingRequestedModelFingerprint);
    }
    let requested = provider_model_fingerprint(answered.requested_model.as_str());
    if !str_eq(answered.requested_model_fingerprint.as_str(), requested.as_str()) {
        return Some(ProviderRequestAttributionError::RequestedModelFingerprintMismatch);
    }
    if answered.resolved_model.as_str().is_empty() {
        return Some(ProviderRequestAttributionError::MissingResolvedModel);
    }
    if is_resolved_elsewhere(terminal, answered) {
        return Some(ProviderRequestAttributionError::ResolvedModelMismatch);
    }
    if answered.resolved_model_fingerprint.as_str().is_empty() {
        return Some(ProviderRequestAttributionError::MissingResolvedModelFingerprint);
    }
    let resolved = provider_model_fingerprint(answered.resolved_model.as_str());
    if !str_eq(answered.resolved_model_fingerprint.as_str(), resolved.as_str()) {
        return Some(ProviderRequestAttributionError::ResolvedModelFingerprintMismatch);
    }
    if answered.provider_transformation_version.as_str().is_empty() {
        return Some(ProviderRequestAttributionError::MissingProviderTransformationVersion);
    }
    if answered.tokenizer_accounting_version.as_str().is_empty() {
        return Some(ProviderRequestAttributionError::MissingTokenizerAccountingVersion);
    }
    match terminal.authoritative_input_tokens {
        None => Some(ProviderRequestAttributionError::MissingAggregateInputTokens),
        Some(authoritative_input_tokens) => if answered.authoritative_input_tokens
            != authoritative_input_tokens {
            Some(
                ProviderRequestAttributionError::AggregateInputTokensMismatch {
                    expected: authoritative_input_tokens,
                    actual: answered.authoritative_input_tokens,
                },
            )
        } else {
            None
        },
    }
}

/// Accepts an attribution that is exact for this input, session and turn, and refuses any other
/// with the first fault that it has.
pub fn validate_terminal_attribution(
    input: &Vec<ResponseItem>,
    session_id: &str,
    turn_id: &str,
    attribution: &ProviderTerminalAttribution,
) -> (result: Result<SkillReadReceiptKey, ProviderRequestAttributionError>)
    ensures
        ({
            let fault = attribution_fault(
                types::item_views(input@),
                session_id@,
                turn_id@,
                attribution@,
            );
            match result {
                Ok(key) => fault is None && key@ == receipt_key(
                    session_id@,
                    turn_id@,
                    attribution@,
                ),
                Err(error) => fault == Some(error@),
            }
        }),
        result is Ok <==> attribution_is_exact(
            types::item_views(input@),
            session_id@,
            turn_id@,
            attribution@,
        ),
{
    proof {
        law_attribution_accepted_exactly_when_exact(
            types::item_views(input@),
            session_id@,
            turn_id@,
            attribution@,
        );
    }
    if let Some(error) = find_binding_fault(session_id, turn_id, attribution) {
        return Err(error);
    }
    let authoritative_input_tokens: u64 = attribution.receipt.authoritative_input_tokens;
    match check_input_items(input, &attribution.receipt.input_items, authoritative_input_tokens) {
        Ok(()) => Ok(
            SkillReadReceiptKey {
                session_id: session_id.to_owned(),
                turn_id: turn_id.to_owned(),
                response_id: attribution.receipt.response_id.clone(),
                request_fingerprint: attribution.receipt.request_fingerprint.clone(),
            },
        ),
        Err(error) => Err(error),
    }
}

} // verus!
