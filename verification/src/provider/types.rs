//! The data of provider attribution and its mathematical view.

#[allow(unused_imports)]
use crate::text;
use crate::text::opt_string_clone;
use crate::text::opt_string_eq;
use crate::text::str_eq;
use vstd::prelude::*;

verus! {

/// One item of a provider request, as far as attribution depends on it.
///
/// `body` is the canonical encoding of everything in the item but its identifier: two items are
/// the same item exactly when their identifiers and their bodies are the same.
#[derive(Debug, PartialEq, Eq)]
pub struct ResponseItem {
    pub id: Option<String>,
    pub body: String,
}

/// What a [`ResponseItem`] holds.
pub struct ResponseItemView {
    pub id: Option<Seq<char>>,
    pub body: Seq<char>,
}

impl View for ResponseItem {
    type V = ResponseItemView;

    open spec fn view(&self) -> ResponseItemView {
        ResponseItemView { id: text::opt_view(self.id), body: self.body@ }
    }
}

impl Clone for ResponseItem {
    fn clone(&self) -> (copy: Self)
        ensures
            copy == *self,
    {
        ResponseItem { id: opt_string_clone(&self.id), body: self.body.clone() }
    }
}

impl ResponseItem {
    /// Decides whether two items are the same item.
    pub fn same_as(&self, other: &ResponseItem) -> (same: bool)
        ensures
            same == (self@ == other@),
    {
        opt_string_eq(&self.id, &other.id) && str_eq(self.body.as_str(), other.body.as_str())
    }
}

/// The views of a list of items.
pub open spec fn item_views(items: Seq<ResponseItem>) -> Seq<ResponseItemView> {
    items.map_values(|item: ResponseItem| item@)
}

/// The identifiers of a list of items, in order.
pub open spec fn item_ids(items: Seq<ResponseItemView>) -> Seq<Option<Seq<char>>> {
    items.map_values(|item: ResponseItemView| item.id)
}

/// The part of a provider request that attribution depends on.
#[derive(Debug, PartialEq, Eq)]
pub struct ResponsesApiRequest {
    pub model: String,
    pub input: Vec<ResponseItem>,
}

/// What a [`ResponsesApiRequest`] holds.
pub struct ResponsesApiRequestView {
    pub model: Seq<char>,
    pub input: Seq<ResponseItemView>,
}

impl View for ResponsesApiRequest {
    type V = ResponsesApiRequestView;

    open spec fn view(&self) -> ResponsesApiRequestView {
        ResponsesApiRequestView { model: self.model@, input: item_views(self.input@) }
    }
}

/// One final input item and its provider-reported token count.
#[derive(Debug, PartialEq, Eq)]
pub struct ProviderTerminalInputItem {
    pub item_id: String,
    pub input_tokens: u64,
}

/// What a [`ProviderTerminalInputItem`] holds.
pub struct ProviderTerminalInputItemView {
    pub item_id: Seq<char>,
    pub input_tokens: u64,
}

impl View for ProviderTerminalInputItem {
    type V = ProviderTerminalInputItemView;

    open spec fn view(&self) -> ProviderTerminalInputItemView {
        ProviderTerminalInputItemView { item_id: self.item_id@, input_tokens: self.input_tokens }
    }
}

impl Clone for ProviderTerminalInputItem {
    fn clone(&self) -> (copy: Self)
        ensures
            copy == *self,
    {
        ProviderTerminalInputItem { item_id: self.item_id.clone(), input_tokens: self.input_tokens }
    }
}

/// The views of a list of receipt items.
pub open spec fn input_item_views(
    items: Seq<ProviderTerminalInputItem>,
) -> Seq<ProviderTerminalInputItemView> {
    items.map_values(|item: ProviderTerminalInputItem| item@)
}

/// The provider-owned terminal receipt required for exact per-skill attribution.
///
/// A provider implementation must obtain these values from the same successful terminal response
/// that produced `authoritative_input_tokens`. It must not derive token counts from request bytes,
/// local tokenizers, transcript reconstruction, or aggregate-only usage.
#[derive(Debug, PartialEq, Eq)]
pub struct ProviderTerminalAttributionReceipt {
    pub session_id: String,
    pub turn_id: String,
    pub response_id: String,
    pub request_fingerprint: String,
    pub requested_model: String,
    pub resolved_model: String,
    pub requested_model_fingerprint: String,
    pub resolved_model_fingerprint: String,
    pub provider_transformation_version: String,
    pub tokenizer_accounting_version: String,
    pub input_items: Vec<ProviderTerminalInputItem>,
    pub authoritative_input_tokens: u64,
}

/// What a [`ProviderTerminalAttributionReceipt`] holds.
pub struct ProviderTerminalAttributionReceiptView {
    pub session_id: Seq<char>,
    pub turn_id: Seq<char>,
    pub response_id: Seq<char>,
    pub request_fingerprint: Seq<char>,
    pub requested_model: Seq<char>,
    pub resolved_model: Seq<char>,
    pub requested_model_fingerprint: Seq<char>,
    pub resolved_model_fingerprint: Seq<char>,
    pub provider_transformation_version: Seq<char>,
    pub tokenizer_accounting_version: Seq<char>,
    pub input_items: Seq<ProviderTerminalInputItemView>,
    pub authoritative_input_tokens: u64,
}

impl View for ProviderTerminalAttributionReceipt {
    type V = ProviderTerminalAttributionReceiptView;

    open spec fn view(&self) -> ProviderTerminalAttributionReceiptView {
        ProviderTerminalAttributionReceiptView {
            session_id: self.session_id@,
            turn_id: self.turn_id@,
            response_id: self.response_id@,
            request_fingerprint: self.request_fingerprint@,
            requested_model: self.requested_model@,
            resolved_model: self.resolved_model@,
            requested_model_fingerprint: self.requested_model_fingerprint@,
            resolved_model_fingerprint: self.resolved_model_fingerprint@,
            provider_transformation_version: self.provider_transformation_version@,
            tokenizer_accounting_version: self.tokenizer_accounting_version@,
            input_items: input_item_views(self.input_items@),
            authoritative_input_tokens: self.authoritative_input_tokens,
        }
    }
}

impl Clone for ProviderTerminalAttributionReceipt {
    fn clone(&self) -> (copy: Self)
        ensures
            copy@ == self@,
    {
        let input_items = self.input_items.clone();
        proof {
            assert(input_items@ =~= self.input_items@);
        }
        ProviderTerminalAttributionReceipt {
            session_id: self.session_id.clone(),
            turn_id: self.turn_id.clone(),
            response_id: self.response_id.clone(),
            request_fingerprint: self.request_fingerprint.clone(),
            requested_model: self.requested_model.clone(),
            resolved_model: self.resolved_model.clone(),
            requested_model_fingerprint: self.requested_model_fingerprint.clone(),
            resolved_model_fingerprint: self.resolved_model_fingerprint.clone(),
            provider_transformation_version: self.provider_transformation_version.clone(),
            tokenizer_accounting_version: self.tokenizer_accounting_version.clone(),
            input_items,
            authoritative_input_tokens: self.authoritative_input_tokens,
        }
    }
}

/// The terminal response context to which a provider receipt must belong.
#[derive(Debug, PartialEq, Eq)]
pub struct ProviderTerminalResponse {
    pub session_id: Option<String>,
    pub turn_id: Option<String>,
    pub response_id: String,
    pub requested_model: String,
    pub resolved_model: Option<String>,
    pub authoritative_input_tokens: Option<u64>,
    pub successful: bool,
}

/// What a [`ProviderTerminalResponse`] holds.
pub struct ProviderTerminalResponseView {
    pub session_id: Option<Seq<char>>,
    pub turn_id: Option<Seq<char>>,
    pub response_id: Seq<char>,
    pub requested_model: Seq<char>,
    pub resolved_model: Option<Seq<char>>,
    pub authoritative_input_tokens: Option<u64>,
    pub successful: bool,
}

impl View for ProviderTerminalResponse {
    type V = ProviderTerminalResponseView;

    open spec fn view(&self) -> ProviderTerminalResponseView {
        ProviderTerminalResponseView {
            session_id: text::opt_view(self.session_id),
            turn_id: text::opt_view(self.turn_id),
            response_id: self.response_id@,
            requested_model: self.requested_model@,
            resolved_model: text::opt_view(self.resolved_model),
            authoritative_input_tokens: self.authoritative_input_tokens,
            successful: self.successful,
        }
    }
}

impl Clone for ProviderTerminalResponse {
    fn clone(&self) -> (copy: Self)
        ensures
            copy == *self,
    {
        ProviderTerminalResponse {
            session_id: opt_string_clone(&self.session_id),
            turn_id: opt_string_clone(&self.turn_id),
            response_id: self.response_id.clone(),
            requested_model: self.requested_model.clone(),
            resolved_model: opt_string_clone(&self.resolved_model),
            authoritative_input_tokens: self.authoritative_input_tokens,
            successful: self.successful,
        }
    }
}

/// A validated provider receipt plus the bindings for the exact request and terminal.
#[derive(Debug, PartialEq, Eq)]
pub struct ProviderTerminalAttribution {
    pub receipt: ProviderTerminalAttributionReceipt,
    pub terminal: ProviderTerminalResponse,
    pub final_request_fingerprint: String,
}

/// What a [`ProviderTerminalAttribution`] holds.
pub struct ProviderTerminalAttributionView {
    pub receipt: ProviderTerminalAttributionReceiptView,
    pub terminal: ProviderTerminalResponseView,
    pub final_request_fingerprint: Seq<char>,
}

impl View for ProviderTerminalAttribution {
    type V = ProviderTerminalAttributionView;

    open spec fn view(&self) -> ProviderTerminalAttributionView {
        ProviderTerminalAttributionView {
            receipt: self.receipt@,
            terminal: self.terminal@,
            final_request_fingerprint: self.final_request_fingerprint@,
        }
    }
}

impl Clone for ProviderTerminalAttribution {
    fn clone(&self) -> (copy: Self)
        ensures
            copy@ == self@,
    {
        ProviderTerminalAttribution {
            receipt: self.receipt.clone(),
            terminal: self.terminal.clone(),
            final_request_fingerprint: self.final_request_fingerprint.clone(),
        }
    }
}

/// A typed reason why exact per-item provider token attribution is unavailable.
#[derive(Debug, PartialEq, Eq)]
pub enum ProviderRequestAttributionError {
    ProviderDoesNotExposeExactPerItemTokens { provider: String },
    ProviderReportsAggregateOnly { provider: String, input_tokens: u64 },
    EncoderRejected { provider: String, reason: String },
    MissingTerminalResponse,
    TerminalResponseNotSuccessful,
    MissingSessionId,
    MissingTurnId,
    MissingResponseId,
    MissingAggregateInputTokens,
    MissingRequestFingerprint,
    MissingRequestedModel,
    MissingResolvedModel,
    MissingRequestedModelFingerprint,
    MissingResolvedModelFingerprint,
    MissingProviderTransformationVersion,
    MissingTokenizerAccountingVersion,
    RequestFingerprintMismatch,
    RequestedModelMismatch,
    RequestedModelFingerprintMismatch,
    ResolvedModelMismatch,
    ResolvedModelFingerprintMismatch,
    SessionIdMismatch,
    TurnIdMismatch,
    ResponseIdMismatch,
    MissingFinalInputItemId { index: usize },
    DuplicateFinalInputItemId { item_id: String },
    MissingReceiptInputItemId { item_id: String },
    DuplicateReceiptInputItemId { item_id: String },
    ExtraReceiptInputItemId { item_id: String },
    AggregateInputTokensMismatch { expected: u64, actual: u64 },
    InputTokenSumOverflow,
}

/// What a [`ProviderRequestAttributionError`] holds.
pub enum ProviderRequestAttributionErrorView {
    ProviderDoesNotExposeExactPerItemTokens { provider: Seq<char> },
    ProviderReportsAggregateOnly { provider: Seq<char>, input_tokens: u64 },
    EncoderRejected { provider: Seq<char>, reason: Seq<char> },
    MissingTerminalResponse,
    TerminalResponseNotSuccessful,
    MissingSessionId,
    MissingTurnId,
    MissingResponseId,
    MissingAggregateInputTokens,
    MissingRequestFingerprint,
    MissingRequestedModel,
    MissingResolvedModel,
    MissingRequestedModelFingerprint,
    MissingResolvedModelFingerprint,
    MissingProviderTransformationVersion,
    MissingTokenizerAccountingVersion,
    RequestFingerprintMismatch,
    RequestedModelMismatch,
    RequestedModelFingerprintMismatch,
    ResolvedModelMismatch,
    ResolvedModelFingerprintMismatch,
    SessionIdMismatch,
    TurnIdMismatch,
    ResponseIdMismatch,
    MissingFinalInputItemId { index: usize },
    DuplicateFinalInputItemId { item_id: Seq<char> },
    MissingReceiptInputItemId { item_id: Seq<char> },
    DuplicateReceiptInputItemId { item_id: Seq<char> },
    ExtraReceiptInputItemId { item_id: Seq<char> },
    AggregateInputTokensMismatch { expected: u64, actual: u64 },
    InputTokenSumOverflow,
}

impl View for ProviderRequestAttributionError {
    type V = ProviderRequestAttributionErrorView;

    open spec fn view(&self) -> ProviderRequestAttributionErrorView {
        match *self {
            ProviderRequestAttributionError::ProviderDoesNotExposeExactPerItemTokens { provider } => ProviderRequestAttributionErrorView::ProviderDoesNotExposeExactPerItemTokens { provider: provider@ },
            ProviderRequestAttributionError::ProviderReportsAggregateOnly { provider, input_tokens } => ProviderRequestAttributionErrorView::ProviderReportsAggregateOnly { provider: provider@, input_tokens },
            ProviderRequestAttributionError::EncoderRejected { provider, reason } => ProviderRequestAttributionErrorView::EncoderRejected { provider: provider@, reason: reason@ },
            ProviderRequestAttributionError::MissingTerminalResponse => ProviderRequestAttributionErrorView::MissingTerminalResponse,
            ProviderRequestAttributionError::TerminalResponseNotSuccessful => ProviderRequestAttributionErrorView::TerminalResponseNotSuccessful,
            ProviderRequestAttributionError::MissingSessionId => ProviderRequestAttributionErrorView::MissingSessionId,
            ProviderRequestAttributionError::MissingTurnId => ProviderRequestAttributionErrorView::MissingTurnId,
            ProviderRequestAttributionError::MissingResponseId => ProviderRequestAttributionErrorView::MissingResponseId,
            ProviderRequestAttributionError::MissingAggregateInputTokens => ProviderRequestAttributionErrorView::MissingAggregateInputTokens,
            ProviderRequestAttributionError::MissingRequestFingerprint => ProviderRequestAttributionErrorView::MissingRequestFingerprint,
            ProviderRequestAttributionError::MissingRequestedModel => ProviderRequestAttributionErrorView::MissingRequestedModel,
            ProviderRequestAttributionError::MissingResolvedModel => ProviderRequestAttributionErrorView::MissingResolvedModel,
            ProviderRequestAttributionError::MissingRequestedModelFingerprint => ProviderRequestAttributionErrorView::MissingRequestedModelFingerprint,
            ProviderRequestAttributionError::MissingResolvedModelFingerprint => ProviderRequestAttributionErrorView::MissingResolvedModelFingerprint,
            ProviderRequestAttributionError::MissingProviderTransformationVersion => ProviderRequestAttributionErrorView::MissingProviderTransformationVersion,
            ProviderRequestAttributionError::MissingTokenizerAccountingVersion => ProviderRequestAttributionErrorView::MissingTokenizerAccountingVersion,
            ProviderRequestAttributionError::RequestFingerprintMismatch => ProviderRequestAttributionErrorView::RequestFingerprintMismatch,
            ProviderRequestAttributionError::RequestedModelMismatch => ProviderRequestAttributionErrorView::RequestedModelMismatch,
            ProviderRequestAttributionError::RequestedModelFingerprintMismatch => ProviderRequestAttributionErrorView::RequestedModelFingerprintMismatch,
            ProviderRequestAttributionError::ResolvedModelMismatch => ProviderRequestAttributionErrorView::ResolvedModelMismatch,
            ProviderRequestAttributionError::ResolvedModelFingerprintMismatch => ProviderRequestAttributionErrorView::ResolvedModelFingerprintMismatch,
            ProviderRequestAttributionError::SessionIdMismatch => ProviderRequestAttributionErrorView::SessionIdMismatch,
            ProviderRequestAttributionError::TurnIdMismatch => ProviderRequestAttributionErrorView::TurnIdMismatch,
            ProviderRequestAttributionError::ResponseIdMismatch => ProviderRequestAttributionErrorView::ResponseIdMismatch,
            ProviderRequestAttributionError::MissingFinalInputItemId { index } => ProviderRequestAttributionErrorView::MissingFinalInputItemId { index },
            ProviderRequestAttributionError::DuplicateFinalInputItemId { item_id } => ProviderRequestAttributionErrorView::DuplicateFinalInputItemId { item_id: item_id@ },
            ProviderRequestAttributionError::MissingReceiptInputItemId { item_id } => ProviderRequestAttributionErrorView::MissingReceiptInputItemId { item_id: item_id@ },
            ProviderRequestAttributionError::DuplicateReceiptInputItemId { item_id } => ProviderRequestAttributionErrorView::DuplicateReceiptInputItemId { item_id: item_id@ },
            ProviderRequestAttributionError::ExtraReceiptInputItemId { item_id } => ProviderRequestAttributionErrorView::ExtraReceiptInputItemId { item_id: item_id@ },
            ProviderRequestAttributionError::AggregateInputTokensMismatch { expected, actual } => ProviderRequestAttributionErrorView::AggregateInputTokensMismatch { expected, actual },
            ProviderRequestAttributionError::InputTokenSumOverflow => ProviderRequestAttributionErrorView::InputTokenSumOverflow,
        }
    }
}

impl Clone for ProviderRequestAttributionError {
    fn clone(&self) -> (copy: Self)
        ensures
            copy == *self,
    {
        match self {
            ProviderRequestAttributionError::ProviderDoesNotExposeExactPerItemTokens { provider } => ProviderRequestAttributionError::ProviderDoesNotExposeExactPerItemTokens { provider: provider.clone() },
            ProviderRequestAttributionError::ProviderReportsAggregateOnly { provider, input_tokens } => ProviderRequestAttributionError::ProviderReportsAggregateOnly { provider: provider.clone(), input_tokens: *input_tokens },
            ProviderRequestAttributionError::EncoderRejected { provider, reason } => ProviderRequestAttributionError::EncoderRejected { provider: provider.clone(), reason: reason.clone() },
            ProviderRequestAttributionError::MissingTerminalResponse => ProviderRequestAttributionError::MissingTerminalResponse,
            ProviderRequestAttributionError::TerminalResponseNotSuccessful => ProviderRequestAttributionError::TerminalResponseNotSuccessful,
            ProviderRequestAttributionError::MissingSessionId => ProviderRequestAttributionError::MissingSessionId,
            ProviderRequestAttributionError::MissingTurnId => ProviderRequestAttributionError::MissingTurnId,
            ProviderRequestAttributionError::MissingResponseId => ProviderRequestAttributionError::MissingResponseId,
            ProviderRequestAttributionError::MissingAggregateInputTokens => ProviderRequestAttributionError::MissingAggregateInputTokens,
            ProviderRequestAttributionError::MissingRequestFingerprint => ProviderRequestAttributionError::MissingRequestFingerprint,
            ProviderRequestAttributionError::MissingRequestedModel => ProviderRequestAttributionError::MissingRequestedModel,
            ProviderRequestAttributionError::MissingResolvedModel => ProviderRequestAttributionError::MissingResolvedModel,
            ProviderRequestAttributionError::MissingRequestedModelFingerprint => ProviderRequestAttributionError::MissingRequestedModelFingerprint,
            ProviderRequestAttributionError::MissingResolvedModelFingerprint => ProviderRequestAttributionError::MissingResolvedModelFingerprint,
            ProviderRequestAttributionError::MissingProviderTransformationVersion => ProviderRequestAttributionError::MissingProviderTransformationVersion,
            ProviderRequestAttributionError::MissingTokenizerAccountingVersion => ProviderRequestAttributionError::MissingTokenizerAccountingVersion,
            ProviderRequestAttributionError::RequestFingerprintMismatch => ProviderRequestAttributionError::RequestFingerprintMismatch,
            ProviderRequestAttributionError::RequestedModelMismatch => ProviderRequestAttributionError::RequestedModelMismatch,
            ProviderRequestAttributionError::RequestedModelFingerprintMismatch => ProviderRequestAttributionError::RequestedModelFingerprintMismatch,
            ProviderRequestAttributionError::ResolvedModelMismatch => ProviderRequestAttributionError::ResolvedModelMismatch,
            ProviderRequestAttributionError::ResolvedModelFingerprintMismatch => ProviderRequestAttributionError::ResolvedModelFingerprintMismatch,
            ProviderRequestAttributionError::SessionIdMismatch => ProviderRequestAttributionError::SessionIdMismatch,
            ProviderRequestAttributionError::TurnIdMismatch => ProviderRequestAttributionError::TurnIdMismatch,
            ProviderRequestAttributionError::ResponseIdMismatch => ProviderRequestAttributionError::ResponseIdMismatch,
            ProviderRequestAttributionError::MissingFinalInputItemId { index } => ProviderRequestAttributionError::MissingFinalInputItemId { index: *index },
            ProviderRequestAttributionError::DuplicateFinalInputItemId { item_id } => ProviderRequestAttributionError::DuplicateFinalInputItemId { item_id: item_id.clone() },
            ProviderRequestAttributionError::MissingReceiptInputItemId { item_id } => ProviderRequestAttributionError::MissingReceiptInputItemId { item_id: item_id.clone() },
            ProviderRequestAttributionError::DuplicateReceiptInputItemId { item_id } => ProviderRequestAttributionError::DuplicateReceiptInputItemId { item_id: item_id.clone() },
            ProviderRequestAttributionError::ExtraReceiptInputItemId { item_id } => ProviderRequestAttributionError::ExtraReceiptInputItemId { item_id: item_id.clone() },
            ProviderRequestAttributionError::AggregateInputTokensMismatch { expected, actual } => ProviderRequestAttributionError::AggregateInputTokensMismatch { expected: *expected, actual: *actual },
            ProviderRequestAttributionError::InputTokenSumOverflow => ProviderRequestAttributionError::InputTokenSumOverflow,
        }
    }
}

/// The view of an attribution or of the reason why there is none.
pub open spec fn attribution_result_view(
    result: Result<ProviderTerminalAttribution, ProviderRequestAttributionError>,
) -> Result<ProviderTerminalAttributionView, ProviderRequestAttributionErrorView> {
    match result {
        Ok(attribution) => Ok(attribution@),
        Err(error) => Err(error@),
    }
}

/// The view of a receipt or of the reason why there is none.
pub open spec fn receipt_result_view(
    result: Result<ProviderTerminalAttributionReceipt, ProviderRequestAttributionError>,
) -> Result<ProviderTerminalAttributionReceiptView, ProviderRequestAttributionErrorView> {
    match result {
        Ok(receipt) => Ok(receipt@),
        Err(error) => Err(error@),
    }
}

} // verus!
