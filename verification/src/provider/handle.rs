//! The life of one request's attribution: pending until the terminal response, settled once.

#[allow(unused_imports)]
use super::receipt;
use super::receipt::provider_request_fingerprint;
use super::receipt::validate_terminal_receipt;
#[allow(unused_imports)]
use super::types;
use super::types::ProviderRequestAttributionError;
use super::types::ProviderRequestAttributionErrorView;
use super::types::ProviderTerminalAttribution;
use super::types::ProviderTerminalAttributionReceipt;
use super::types::ProviderTerminalAttributionReceiptView;
use super::types::ProviderTerminalAttributionView;
use super::types::ProviderTerminalResponse;
use super::types::ProviderTerminalResponseView;
use super::types::ResponsesApiRequest;
use super::types::ResponsesApiRequestView;
#[allow(unused_imports)]
use crate::text;
use crate::text::opt_string_eq;
use crate::text::str_eq;
use std::sync::Arc;
use vstd::prelude::*;

verus! {

/// Provider-owned terminal attribution hook.
///
/// Implementations receive the exact uncompressed JSON bytes produced for the provider request,
/// the request, and the successful terminal response context. They must return a receipt with
/// exact provider token counts for every final `input` item. A byte count, compact-JSON lexical
/// count, local tokenizer, aggregate usage value, or independent approximation is not a valid
/// implementation. An unavailable public provider surface must return a typed error instead of
/// synthesizing a receipt.
pub trait ProviderRequestTokenAttributor: Send + Sync {
    /// The implementation may answer `reply` to this request, body and terminal response. Nothing
    /// is expected of the relation, and an implementation need not give it: every answer is judged
    /// by the receipt that it carries.
    open spec fn may_answer(
        &self,
        request: ResponsesApiRequestView,
        final_body: Seq<u8>,
        terminal: ProviderTerminalResponseView,
        reply: Result<
            ProviderTerminalAttributionReceiptView,
            ProviderRequestAttributionErrorView,
        >,
    ) -> bool {
        true
    }

    /// Asks for the receipt of a terminal response.
    fn terminal_attribution(
        &self,
        request: &ResponsesApiRequest,
        final_body: &[u8],
        terminal: &ProviderTerminalResponse,
    ) -> (reply: Result<ProviderTerminalAttributionReceipt, ProviderRequestAttributionError>)
        ensures
            self.may_answer(
                request@,
                final_body@,
                terminal@,
                types::receipt_result_view(reply),
            ),
    ;
}

/// The attribution of one request, from the capture of its final body to its terminal response.
pub struct ProviderTerminalAttributionHandle {
    request: ResponsesApiRequest,
    final_body: Vec<u8>,
    final_request_fingerprint: String,
    provider: String,
    session_id: Option<String>,
    turn_id: Option<String>,
    attributor: Option<Arc<dyn ProviderRequestTokenAttributor>>,
    result: Option<Result<ProviderTerminalAttribution, ProviderRequestAttributionError>>,
}

/// What a [`ProviderTerminalAttributionHandle`] holds, but for the hook.
pub struct ProviderTerminalAttributionHandleView {
    pub request: ResponsesApiRequestView,
    pub final_body: Seq<u8>,
    pub final_request_fingerprint: Seq<char>,
    pub provider: Seq<char>,
    pub session_id: Option<Seq<char>>,
    pub turn_id: Option<Seq<char>>,
    pub result: Option<
        Result<ProviderTerminalAttributionView, ProviderRequestAttributionErrorView>,
    >,
}

impl ProviderTerminalAttributionHandleView {
    /// The fingerprint is that of the captured body.
    pub open spec fn wf(self) -> bool {
        self.final_request_fingerprint == receipt::request_fingerprint(self.final_body)
    }

    /// Why a terminal response is turned away before the hook is asked, if it is.
    pub open spec fn turned_away(self, terminal: ProviderTerminalResponseView) -> Option<
        ProviderRequestAttributionErrorView,
    > {
        if !terminal.successful {
            Some(ProviderRequestAttributionErrorView::TerminalResponseNotSuccessful)
        } else if self.session_id != terminal.session_id {
            Some(ProviderRequestAttributionErrorView::SessionIdMismatch)
        } else if self.turn_id != terminal.turn_id {
            Some(ProviderRequestAttributionErrorView::TurnIdMismatch)
        } else if terminal.requested_model != self.request.model {
            Some(ProviderRequestAttributionErrorView::RequestedModelMismatch)
        } else {
            None
        }
    }

    /// What the hook's answer amounts to: its own error, the receipt's first fault, or the
    /// accepted receipt with the terminal response and the request's fingerprint.
    pub open spec fn judged(
        self,
        terminal: ProviderTerminalResponseView,
        reply: Result<
            ProviderTerminalAttributionReceiptView,
            ProviderRequestAttributionErrorView,
        >,
    ) -> Result<ProviderTerminalAttributionView, ProviderRequestAttributionErrorView> {
        match reply {
            Err(error) => Err(error),
            Ok(answered) => match receipt::receipt_fault(
                self.request,
                self.final_request_fingerprint,
                terminal,
                answered,
            ) {
                Some(fault) => Err(fault),
                None => Ok(
                    ProviderTerminalAttributionView {
                        receipt: answered,
                        terminal,
                        final_request_fingerprint: self.final_request_fingerprint,
                    },
                ),
            },
        }
    }

    /// The same handle, settled with `result`.
    pub open spec fn settled(
        self,
        result: Result<ProviderTerminalAttributionView, ProviderRequestAttributionErrorView>,
    ) -> Self {
        ProviderTerminalAttributionHandleView { result: Some(result), ..self }
    }

    /// What a reader of the attribution gets: the settled result, or that there was no terminal
    /// response yet.
    pub open spec fn resolved(self) -> Result<
        ProviderTerminalAttributionView,
        ProviderRequestAttributionErrorView,
    > {
        match self.result {
            Some(result) => result,
            None => Err(ProviderRequestAttributionErrorView::MissingTerminalResponse),
        }
    }
}

impl View for ProviderTerminalAttributionHandle {
    type V = ProviderTerminalAttributionHandleView;

    closed spec fn view(&self) -> ProviderTerminalAttributionHandleView {
        ProviderTerminalAttributionHandleView {
            request: self.request@,
            final_body: self.final_body@,
            final_request_fingerprint: self.final_request_fingerprint@,
            provider: self.provider@,
            session_id: text::opt_view(self.session_id),
            turn_id: text::opt_view(self.turn_id),
            result: match self.result {
                Some(result) => Some(types::attribution_result_view(result)),
                None => None,
            },
        }
    }
}

impl ProviderTerminalAttributionHandle {
    /// The hook that is asked for the receipt, if there is one.
    pub closed spec fn attributor(&self) -> Option<Arc<dyn ProviderRequestTokenAttributor>> {
        self.attributor
    }

    /// Captures a request and its final encoded body; its attribution is pending.
    pub fn new(
        request: ResponsesApiRequest,
        final_body: Vec<u8>,
        provider: String,
        session_id: Option<String>,
        turn_id: Option<String>,
        attributor: Option<Arc<dyn ProviderRequestTokenAttributor>>,
    ) -> (handle: Self)
        ensures
            handle@ == (ProviderTerminalAttributionHandleView {
                request: request@,
                final_body: final_body@,
                final_request_fingerprint: receipt::request_fingerprint(final_body@),
                provider: provider@,
                session_id: text::opt_view(session_id),
                turn_id: text::opt_view(turn_id),
                result: None,
            }),
            handle@.wf(),
            handle.attributor() == attributor,
    {
        let final_request_fingerprint = provider_request_fingerprint(final_body.as_slice());
        ProviderTerminalAttributionHandle {
            request,
            final_body,
            final_request_fingerprint,
            provider,
            session_id,
            turn_id,
            attributor,
            result: None,
        }
    }

    /// Finds why a terminal response is turned away before the hook is asked.
    pub fn turn_away(&self, terminal: &ProviderTerminalResponse) -> (reason: Option<
        ProviderRequestAttributionError,
    >)
        ensures
            match reason {
                Some(error) => self@.turned_away(terminal@) == Some(error@),
                None => self@.turned_away(terminal@) is None,
            },
    {
        if !terminal.successful {
            Some(ProviderRequestAttributionError::TerminalResponseNotSuccessful)
        } else if !opt_string_eq(&self.session_id, &terminal.session_id) {
            Some(ProviderRequestAttributionError::SessionIdMismatch)
        } else if !opt_string_eq(&self.turn_id, &terminal.turn_id) {
            Some(ProviderRequestAttributionError::TurnIdMismatch)
        } else if !str_eq(terminal.requested_model.as_str(), self.request.model.as_str()) {
            Some(ProviderRequestAttributionError::RequestedModelMismatch)
        } else {
            None
        }
    }

    /// Judges the hook's answer to a terminal response.
    pub fn judge(
        &self,
        terminal: ProviderTerminalResponse,
        reply: Result<ProviderTerminalAttributionReceipt, ProviderRequestAttributionError>,
    ) -> (result: Result<ProviderTerminalAttribution, ProviderRequestAttributionError>)
        ensures
            types::attribution_result_view(result) == self@.judged(
                terminal@,
                types::receipt_result_view(reply),
            ),
    {
        match reply {
            Err(error) => Err(error),
            Ok(answered) => {
                match validate_terminal_receipt(
                    &self.request,
                    self.final_request_fingerprint.as_str(),
                    &terminal,
                    answered,
                ) {
                    Ok(receipt) => Ok(
                        ProviderTerminalAttribution {
                            receipt,
                            terminal,
                            final_request_fingerprint: self.final_request_fingerprint.clone(),
                        },
                    ),
                    Err(error) => Err(error),
                }
            },
        }
    }

    /// Settles the attribution with its terminal response. What is settled already stays.
    pub fn complete(&mut self, terminal: ProviderTerminalResponse)
        ensures
            completed_with(*old(self), *final(self), terminal@),
    {
        if self.result.is_some() {
            return ;
        }
        let result = match self.turn_away(&terminal) {
            Some(reason) => Err(reason),
            None => match self.attributor.as_ref() {
                Some(attributor) => {
                    let reply = attributor.terminal_attribution(
                        &self.request,
                        self.final_body.as_slice(),
                        &terminal,
                    );
                    self.judge(terminal, reply)
                },
                None => Err(
                    ProviderRequestAttributionError::ProviderDoesNotExposeExactPerItemTokens {
                        provider: self.provider.clone(),
                    },
                ),
            },
        };
        self.result = Some(result);
    }

    /// Settles the attribution of a stream that ended without a terminal response.
    pub fn finish_without_terminal(&mut self)
        ensures
            final(self).attributor() == old(self).attributor(),
            final(self)@ == (if old(self)@.result is Some {
                old(self)@
            } else {
                old(self)@.settled(
                    Err(ProviderRequestAttributionErrorView::MissingTerminalResponse),
                )
            }),
    {
        if self.result.is_none() {
            self.result = Some(Err(ProviderRequestAttributionError::MissingTerminalResponse));
        }
    }

    /// Reads the attribution as it stands.
    pub fn resolve(&self) -> (result: Result<
        ProviderTerminalAttribution,
        ProviderRequestAttributionError,
    >)
        ensures
            types::attribution_result_view(result) == self@.resolved(),
    {
        match &self.result {
            Some(Ok(attribution)) => Ok(attribution.clone()),
            Some(Err(error)) => Err(error.clone()),
            None => Err(ProviderRequestAttributionError::MissingTerminalResponse),
        }
    }
}

/// `after` is the handle `before` once its terminal response has come: a settled handle stays as
/// it is; a response that is turned away settles the reason; else the hook decides, on the
/// captured request and body and this very response, or its absence is the reason.
pub open spec fn completed_with(
    before: ProviderTerminalAttributionHandle,
    after: ProviderTerminalAttributionHandle,
    terminal: ProviderTerminalResponseView,
) -> bool {
    &&& after.attributor() == before.attributor()
    &&& before@.result is Some ==> after@ == before@
    &&& before@.result is None ==> match before@.turned_away(terminal) {
        Some(reason) => after@ == before@.settled(Err(reason)),
        None => match before.attributor() {
            None => after@ == before@.settled(
                Err(
                    ProviderRequestAttributionErrorView::ProviderDoesNotExposeExactPerItemTokens {
                        provider: before@.provider,
                    },
                ),
            ),
            Some(attributor) => exists|
                reply: Result<
                    ProviderTerminalAttributionReceiptView,
                    ProviderRequestAttributionErrorView,
                >,
            |
                #[trigger] attributor.may_answer(
                    before@.request,
                    before@.final_body,
                    terminal,
                    reply,
                ) && after@ == before@.settled(before@.judged(terminal, reply)),
        },
    }
}

/// A provider-owned terminal attribution result for a final request.
pub enum ProviderRequestAttribution {
    Pending(ProviderTerminalAttributionHandle),
    ExactTerminalReceipt(ProviderTerminalAttribution),
    Unavailable(ProviderRequestAttributionError),
}

impl ProviderRequestAttribution {
    /// What the attribution resolves to.
    pub open spec fn resolved(self) -> Result<
        ProviderTerminalAttributionView,
        ProviderRequestAttributionErrorView,
    > {
        match self {
            ProviderRequestAttribution::Pending(handle) => handle@.resolved(),
            ProviderRequestAttribution::ExactTerminalReceipt(attribution) => Ok(attribution@),
            ProviderRequestAttribution::Unavailable(error) => Err(error@),
        }
    }

    /// Resolves terminal attribution after the stream has delivered its successful completion.
    pub fn resolve(self) -> (result: Result<
        ProviderTerminalAttribution,
        ProviderRequestAttributionError,
    >)
        ensures
            types::attribution_result_view(result) == self.resolved(),
    {
        match self {
            ProviderRequestAttribution::Pending(handle) => handle.resolve(),
            ProviderRequestAttribution::ExactTerminalReceipt(attribution) => Ok(attribution),
            ProviderRequestAttribution::Unavailable(error) => Err(error),
        }
    }
}

/// Whatever the hook answers, only an exact receipt for a successful response of the captured
/// request is settled as an attribution: no answer puts an estimate in its place.
pub proof fn law_only_exact_receipts_are_attributed(
    handle: ProviderTerminalAttributionHandleView,
    terminal: ProviderTerminalResponseView,
    reply: Result<ProviderTerminalAttributionReceiptView, ProviderRequestAttributionErrorView>,
)
    requires
        handle.turned_away(terminal) is None,
    ensures
        handle.judged(terminal, reply) matches Ok(attribution) ==> {
            &&& terminal.successful
            &&& attribution.terminal == terminal
            &&& reply == Ok::<_, ProviderRequestAttributionErrorView>(attribution.receipt)
            &&& attribution.final_request_fingerprint == handle.final_request_fingerprint
            &&& receipt::receipt_is_exact(
                handle.request,
                handle.final_request_fingerprint,
                terminal,
                attribution.receipt,
            )
        },
{
    if let Ok(answered) = reply {
        receipt::law_receipt_accepted_exactly_when_exact(
            handle.request,
            handle.final_request_fingerprint,
            terminal,
            answered,
        );
    }
}

} // verus!
