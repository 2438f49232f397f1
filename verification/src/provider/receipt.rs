//! Fingerprints of requests and models, and the validation of a provider's terminal receipt
//! against the request and the terminal response that it must belong to.

#[allow(unused_imports)]
use crate::digest;
#[allow(unused_imports)]
use crate::text;
#[allow(unused_imports)]
use super::items;
#[allow(unused_imports)]
use super::types;
use super::items::check_input_items;
use super::types::ProviderRequestAttributionError;
use super::types::ProviderRequestAttributionErrorView;
use super::types::ProviderTerminalAttributionReceipt;
use super::types::ProviderTerminalAttributionReceiptView;
use super::types::ProviderTerminalResponse;
use super::types::ProviderTerminalResponseView;
use super::types::ResponsesApiRequest;
use super::types::ResponsesApiRequestView;
use crate::digest::sha256_digest;
use crate::text::joined;
use crate::text::lower_hex;
use crate::text::opt_reads;
use crate::text::str_eq;
use vstd::prelude::*;
#[allow(unused_imports)]
use vstd::string::*;

verus! {

/// The fingerprint of a request with the encoded body `body`.
pub open spec fn request_fingerprint(body: Seq<u8>) -> Seq<char> {
    "sha256:request-v1:"@ + text::hex(digest::sha256(body))
}

/// The fingerprint of a model with the name `model`.
pub open spec fn model_fingerprint(model: Seq<char>) -> Seq<char> {
    "sha256:model-v1:"@ + text::hex(digest::sha256(vstd::utf8::encode_utf8(model)))
}

/// Fingerprints the exact serialized request body captured immediately before transport.
pub fn provider_request_fingerprint(final_body: &[u8]) -> (fingerprint: String)
    ensures
        fingerprint@ == request_fingerprint(final_body@),
{
    let digest = sha256_digest(final_body);
    joined("sha256:request-v1:", lower_hex(digest.as_slice()).as_str())
}

/// Fingerprints a model name for receipt-to-request binding.
pub fn provider_model_fingerprint(model: &str) -> (fingerprint: String)
    ensures
        fingerprint@ == model_fingerprint(model@),
{
    let digest = sha256_digest(model.as_bytes());
    joined("sha256:model-v1:", lower_hex(digest.as_slice()).as_str())
}

/// A fingerprint of a request is never empty, and never the fingerprint of a model.
pub proof fn law_fingerprints_keep_apart(body: Seq<u8>, model: Seq<char>)
    ensures
        request_fingerprint(body).len() > 0,
        model_fingerprint(model).len() > 0,
        request_fingerprint(body) != model_fingerprint(model),
{
    reveal_strlit("sha256:request-v1:");
    reveal_strlit("sha256:model-v1:");
    assert(request_fingerprint(body)[7] == 'r');
    assert(model_fingerprint(model)[7] == 'm');
}

/// A value is given and is not empty.
pub open spec fn present(value: Option<Seq<char>>) -> bool {
    value matches Some(text) && text.len() > 0
}

/// Decides whether an optional text is given and not empty.
pub fn is_present(value: &Option<String>) -> (given: bool)
    ensures
        given == present(crate::text::opt_view(*value)),
{
    match value {
        Some(text) => !text.as_str().is_empty(),
        None => false,
    }
}

/// The terminal response named a resolved model other than the receipt's.
pub open spec fn resolved_elsewhere(
    terminal: ProviderTerminalResponseView,
    receipt: ProviderTerminalAttributionReceiptView,
) -> bool {
    terminal.resolved_model matches Some(model) && model != receipt.resolved_model
}

/// Decides whether the terminal response named a resolved model other than the receipt's.
pub fn is_resolved_elsewhere(
    terminal: &ProviderTerminalResponse,
    receipt: &ProviderTerminalAttributionReceipt,
) -> (elsewhere: bool)
    ensures
        elsewhere == resolved_elsewhere(terminal@, receipt@),
{
    match &terminal.resolved_model {
        Some(model) => !str_eq(model.as_str(), receipt.resolved_model.as_str()),
        None => false,
    }
}

/// A field that the receipt or the terminal response must carry and does not, in the order in
/// which they are looked at.
pub open spec fn missing_field(
    terminal: ProviderTerminalResponseView,
    receipt: ProviderTerminalAttributionReceiptView,
) -> Option<ProviderRequestAttributionErrorView> {
    if !present(terminal.session_id) {
        Some(ProviderRequestAttributionErrorView::MissingSessionId)
    } else if !present(terminal.turn_id) {
        Some(ProviderRequestAttributionErrorView::MissingTurnId)
    } else if terminal.response_id.len() == 0 {
        Some(ProviderRequestAttributionErrorView::MissingResponseId)
    } else if terminal.authoritative_input_tokens is None {
        Some(ProviderRequestAttributionErrorView::MissingAggregateInputTokens)
    } else if receipt.session_id.len() == 0 {
        Some(ProviderRequestAttributionErrorView::MissingSessionId)
    } else if receipt.turn_id.len() == 0 {
        Some(ProviderRequestAttributionErrorView::MissingTurnId)
    } else if receipt.response_id.len() == 0 {
        Some(ProviderRequestAttributionErrorView::MissingResponseId)
    } else if receipt.request_fingerprint.len() == 0 {
        Some(ProviderRequestAttributionErrorView::MissingRequestFingerprint)
    } else if receipt.requested_model.len() == 0 {
        Some(ProviderRequestAttributionErrorView::MissingRequestedModel)
    } else if receipt.resolved_model.len() == 0 {
        Some(ProviderRequestAttributionErrorView::MissingResolvedModel)
    } else if receipt.requested_model_fingerprint.len() == 0 {
        Some(ProviderRequestAttributionErrorView::MissingRequestedModelFingerprint)
    } else if receipt.resolved_model_fingerprint.len() == 0 {
        Some(ProviderRequestAttributionErrorView::MissingResolvedModelFingerprint)
    } else if receipt.provider_transformation_version.len() == 0 {
        Some(ProviderRequestAttributionErrorView::MissingProviderTransformationVersion)
    } else if receipt.tokenizer_accounting_version.len() == 0 {
        Some(ProviderRequestAttributionErrorView::MissingTokenizerAccountingVersion)
    } else {
        None
    }
}

/// A field of the receipt that does not belong to the request and the terminal response, in the
/// order in which they are looked at.
pub open spec fn mismatched_field(
    final_request_fingerprint: Seq<char>,
    terminal: ProviderTerminalResponseView,
    receipt: ProviderTerminalAttributionReceiptView,
) -> Option<ProviderRequestAttributionErrorView> {
    if Some(receipt.session_id) != terminal.session_id {
        Some(ProviderRequestAttributionErrorView::SessionIdMismatch)
    } else if Some(receipt.turn_id) != terminal.turn_id {
        Some(ProviderRequestAttributionErrorView::TurnIdMismatch)
    } else if receipt.response_id != terminal.response_id {
        Some(ProviderRequestAttributionErrorView::ResponseIdMismatch)
    } else if receipt.request_fingerprint != final_request_fingerprint {
        Some(ProviderRequestAttributionErrorView::RequestFingerprintMismatch)
    } else if receipt.requested_model != terminal.requested_model {
        Some(ProviderRequestAttributionErrorView::RequestedModelMismatch)
    } else if receipt.requested_model_fingerprint != model_fingerprint(receipt.requested_model) {
        Some(ProviderRequestAttributionErrorView::RequestedModelFingerprintMismatch)
    } else if resolved_elsewhere(terminal, receipt) {
        Some(ProviderRequestAttributionErrorView::ResolvedModelMismatch)
    } else if receipt.resolved_model_fingerprint != model_fingerprint(receipt.resolved_model) {
        Some(ProviderRequestAttributionErrorView::ResolvedModelFingerprintMismatch)
    } else if Some(receipt.authoritative_input_tokens) != terminal.authoritative_input_tokens {
        Some(
            ProviderRequestAttributionErrorView::AggregateInputTokensMismatch {
                expected: terminal.authoritative_input_tokens->0,
                actual: receipt.authoritative_input_tokens,
            },
        )
    } else {
        None
    }
}

/// Why a receipt is refused, if it is: a missing field, else a field that does not match, else a
/// fault among the items.
pub open spec fn receipt_fault(
    request: ResponsesApiRequestView,
    final_request_fingerprint: Seq<char>,
    terminal: ProviderTerminalResponseView,
    receipt: ProviderTerminalAttributionReceiptView,
) -> Option<ProviderRequestAttributionErrorView> {
    match missing_field(terminal, receipt) {
        Some(fault) => Some(fault),
        None => match mismatched_field(final_request_fingerprint, terminal, receipt) {
            Some(fault) => Some(fault),
            None => items::items_fault(
                types::item_ids(request.input),
                receipt.input_items,
                terminal.authoritative_input_tokens->0,
            ),
        },
    }
}

/// The receipt carries every field, each belongs to the request with this fingerprint and to this
/// terminal response, and its items account for the request's items one to one and add up to the
/// terminal's total.
pub open spec fn receipt_is_exact(
    request: ResponsesApiRequestView,
    final_request_fingerprint: Seq<char>,
    terminal: ProviderTerminalResponseView,
    receipt: ProviderTerminalAttributionReceiptView,
) -> bool {
    &&& receipt.session_id.len() > 0 && terminal.session_id == Some(receipt.session_id)
    &&& receipt.turn_id.len() > 0 && terminal.turn_id == Some(receipt.turn_id)
    &&& receipt.response_id.len() > 0 && terminal.response_id == receipt.response_id
    &&& receipt.request_fingerprint.len() > 0 && receipt.request_fingerprint
        == final_request_fingerprint
    &&& receipt.requested_model.len() > 0 && receipt.requested_model == terminal.requested_model
    &&& receipt.requested_model_fingerprint == model_fingerprint(receipt.requested_model)
    &&& receipt.resolved_model.len() > 0 && !resolved_elsewhere(terminal, receipt)
    &&& receipt.resolved_model_fingerprint == model_fingerprint(receipt.resolved_model)
    &&& receipt.provider_transformation_version.len() > 0
    &&& receipt.tokenizer_accounting_version.len() > 0
    &&& terminal.authoritative_input_tokens == Some(receipt.authoritative_input_tokens)
    &&& items::exact_bijection(types::item_ids(request.input), receipt.input_items)
    &&& items::token_sum(receipt.input_items, receipt.input_items.len() as int)
        == receipt.authoritative_input_tokens
}

/// A receipt is accepted exactly when it is exact: nothing else is refused, and nothing else
/// passes.
pub proof fn law_receipt_accepted_exactly_when_exact(
    request: ResponsesApiRequestView,
    final_request_fingerprint: Seq<char>,
    terminal: ProviderTerminalResponseView,
    receipt: ProviderTerminalAttributionReceiptView,
)
    ensures
        receipt_fault(request, final_request_fingerprint, terminal, receipt) is None
            <==> receipt_is_exact(request, final_request_fingerprint, terminal, receipt),
{
    items::law_items_accepted_exactly_as_bijection(
        types::item_ids(request.input),
        receipt.input_items,
        receipt.authoritative_input_tokens,
    );
    law_fingerprints_keep_apart(Seq::empty(), receipt.requested_model);
    law_fingerprints_keep_apart(Seq::empty(), receipt.resolved_model);
}

/// Finds the first field that the receipt or the terminal response must carry and does not.
fn find_missing_field(
    terminal: &ProviderTerminalResponse,
    receipt: &ProviderTerminalAttributionReceipt,
) -> (fault: Option<ProviderRequestAttributionError>)
    ensures
        match fault {
            Some(error) => missing_field(terminal@, receipt@) == Some(error@),
            None => missing_field(terminal@, receipt@) is None,
        },
{
    if !is_present(&terminal.session_id) {
        return Some(ProviderRequestAttributionError::MissingSessionId);
    }
    if !is_present(&terminal.turn_id) {
        return Some(ProviderRequestAttributionError::MissingTurnId);
    }
    if terminal.response_id.as_str().is_empty() {
        return Some(ProviderRequestAttributionError::MissingResponseId);
    }
    if terminal.authoritative_input_tokens.is_none() {
        return Some(ProviderRequestAttributionError::MissingAggregateInputTokens);
    }
    if receipt.session_id.as_str().is_empty() {
        return Some(ProviderRequestAttributionError::MissingSessionId);
    }
    if receipt.turn_id.as_str().is_empty() {
        return Some(ProviderRequestAttributionError::MissingTurnId);
    }
    if receipt.response_id.as_str().is_empty() {
        return Some(ProviderRequestAttributionError::MissingResponseId);
    }
    if receipt.request_fingerprint.as_str().is_empty() {
        return Some(ProviderRequestAttributionError::MissingRequestFingerprint);
    }
    if receipt.requested_model.as_str().is_empty() {
        return Some(ProviderRequestAttributionError::MissingRequestedModel);
    }
    if receipt.resolved_model.as_str().is_empty() {
        return Some(ProviderRequestAttributionError::MissingResolvedModel);
    }
    if receipt.requested_model_fingerprint.as_str().is_empty() {
        return Some(ProviderRequestAttributionError::MissingRequestedModelFingerprint);
    }
    if receipt.resolved_model_fingerprint.as_str().is_empty() {
        return Some(ProviderRequestAttributionError::MissingResolvedModelFingerprint);
    }
    if receipt.provider_transformation_version.as_str().is_empty() {
        return Some(ProviderRequestAttributionError::MissingProviderTransformationVersion);
    }
    if receipt.tokenizer_accounting_version.as_str().is_empty() {
        return Some(ProviderRequestAttributionError::MissingTokenizerAccountingVersion);
    }
    None
}

/// Finds the first field of the receipt that does not belong to the request and the terminal
/// response.
fn find_mismatched_field(
    final_request_fingerprint: &str,
    terminal: &ProviderTerminalResponse,
    authoritative_input_tokens: u64,
    receipt: &ProviderTerminalAttributionReceipt,
) -> (fault: Option<ProviderRequestAttributionError>)
    requires
        terminal@.authoritative_input_tokens == Some(authoritative_input_tokens),
    ensures
        match fault {
            Some(error) => mismatched_field(final_request_fingerprint@, terminal@, receipt@)
                == Some(error@),
            None => mismatched_field(final_request_fingerprint@, terminal@, receipt@) is None,
        },
{
    if !opt_reads(&terminal.session_id, receipt.session_id.as_str()) {
        return Some(ProviderRequestAttributionError::SessionIdMismatch);
    }
    if !opt_reads(&terminal.turn_id, receipt.turn_id.as_str()) {
        return Some(ProviderRequestAttributionError::TurnIdMismatch);
    }
    if !str_eq(receipt.response_id.as_str(), terminal.response_id.as_str()) {
        return Some(ProviderRequestAttributionError::ResponseIdMismatch);
    }
    if !str_eq(receipt.request_fingerprint.as_str(), final_request_fingerprint) {
        return Some(ProviderRequestAttributionError::RequestFingerprintMismatch);
    }
    if !str_eq(receipt.requested_model.as_str(), terminal.requested_model.as_str()) {
        return Some(ProviderRequestAttributionError::RequestedModelMismatch);
    }
    let requested = provider_model_fingerprint(receipt.requested_model.as_str());
    if !str_eq(receipt.requested_model_fingerprint.as_str(), requested.as_str()) {
        return Some(ProviderRequestAttributionError::RequestedModelFingerprintMismatch);
    }
    if is_resolved_elsewhere(terminal, receipt) {
        return Some(ProviderRequestAttributionError::ResolvedModelMismatch);
    }
    let resolved = provider_model_fingerprint(receipt.resolved_model.as_str());
    if !str_eq(receipt.resolved_model_fingerprint.as_str(), resolved.as_str()) {
        return Some(ProviderRequestAttributionError::ResolvedModelFingerprintMismatch);
    }
    if receipt.authoritative_input_tokens != authoritative_input_tokens {
        return Some(
            ProviderRequestAttributionError::AggregateInputTokensMismatch {
                expected: authoritative_input_tokens,
                actual: receipt.authoritative_input_tokens,
            },
        );
    }
    None
}

/// Accepts a receipt that is exact for the request and the terminal response, and refuses any
/// other with the first fault that it has.
pub fn validate_terminal_receipt(
    request: &ResponsesApiRequest,
    final_request_fingerprint: &str,
    terminal: &ProviderTerminalResponse,
    receipt: ProviderTerminalAttributionReceipt,
) -> (result: Result<ProviderTerminalAttributionReceipt, ProviderRequestAttributionError>)
    ensures
        ({
            let fault = receipt_fault(request@, final_request_fingerprint@, terminal@, receipt@);
            match result {
                Ok(accepted) => fault is None && accepted == receipt,
                Err(error) => fault == Some(error@),
            }
        }),
        result is Ok <==> receipt_is_exact(
            request@,
            final_request_fingerprint@,
            terminal@,
            receipt@,
        ),
{
    proof {
        law_receipt_accepted_exactly_when_exact(
            request@,
            final_request_fingerprint@,
            terminal@,
            receipt@,
        );
    }
    if let Some(error) = find_missing_field(terminal, &receipt) {
        return Err(error);
    }
    let authoritative_input_tokens: u64 = match terminal.authoritative_input_tokens {
        Some(tokens) => tokens,
        None => {
            return Err(ProviderRequestAttributionError::MissingAggregateInputTokens);
        },
    };
    if let Some(error) = find_mismatched_field(
        final_request_fingerprint,
        terminal,
        authoritative_input_tokens,
        &receipt,
    ) {
        return Err(error);
    }
    match check_input_items(&request.input, &receipt.input_items, authoritative_input_tokens) {
        Ok(()) => Ok(receipt),
        Err(error) => Err(error),
    }
}

} // verus!
