//! What a response stream means for the attribution of its request, and the headers that a
//! request carries for its session.

#[allow(unused_imports)]
use super::handle;
use super::handle::ProviderRequestAttribution;
use super::handle::ProviderRequestTokenAttributor;
use super::handle::ProviderTerminalAttributionHandle;
use super::handle::ProviderTerminalAttributionHandleView;
#[allow(unused_imports)]
use super::laws;
#[allow(unused_imports)]
use super::receipt;
#[allow(unused_imports)]
use super::types;
use super::types::ProviderRequestAttributionError;
use super::types::ProviderRequestAttributionErrorView;
use super::types::ProviderTerminalAttribution;
use super::types::ProviderTerminalAttributionView;
use super::types::ProviderTerminalResponse;
use super::types::ProviderTerminalResponseView;
use super::types::ResponsesApiRequest;
#[allow(unused_imports)]
use crate::text;
use crate::text::opt_string_clone;
use std::sync::Arc;
use vstd::prelude::*;

verus! {

/// One event of a response stream, as far as attribution depends on it.
#[derive(Debug)]
pub enum StreamEvent {
    /// The server named the model that serves the request.
    ServerModel(String),
    /// The response completed, with the input tokens that its usage reports, if it has any.
    Completed { response_id: String, input_tokens: Option<i64> },
    /// Any other event, an error among them.
    Other,
}

/// Follows one response stream on behalf of the attribution of its request.
pub struct TerminalAttributionTracker {
    handle: ProviderTerminalAttributionHandle,
    session_id: Option<String>,
    turn_id: Option<String>,
    requested_model: String,
    resolved_model: Option<String>,
    completed: bool,
}

/// What a [`TerminalAttributionTracker`] holds, but for the handle.
pub struct TerminalAttributionTrackerView {
    pub session_id: Option<Seq<char>>,
    pub turn_id: Option<Seq<char>>,
    pub requested_model: Seq<char>,
    pub resolved_model: Option<Seq<char>>,
    pub completed: bool,
}

/// A reported token count that is not negative.
pub open spec fn counted_tokens(input_tokens: Option<i64>) -> Option<u64> {
    match input_tokens {
        Some(tokens) => if tokens >= 0 {
            Some(tokens as u64)
        } else {
            None
        },
        None => None,
    }
}

impl TerminalAttributionTrackerView {
    /// The terminal response that a completion of the stream stands for.
    pub open spec fn terminal(
        self,
        response_id: Seq<char>,
        input_tokens: Option<i64>,
    ) -> ProviderTerminalResponseView {
        ProviderTerminalResponseView {
            session_id: self.session_id,
            turn_id: self.turn_id,
            response_id,
            requested_model: self.requested_model,
            resolved_model: self.resolved_model,
            authoritative_input_tokens: counted_tokens(input_tokens),
            successful: true,
        }
    }
}

impl View for TerminalAttributionTracker {
    type V = TerminalAttributionTrackerView;

    closed spec fn view(&self) -> TerminalAttributionTrackerView {
        TerminalAttributionTrackerView {
            session_id: text::opt_view(self.session_id),
            turn_id: text::opt_view(self.turn_id),
            requested_model: self.requested_model@,
            resolved_model: text::opt_view(self.resolved_model),
            completed: self.completed,
        }
    }
}

impl TerminalAttributionTracker {
    /// The attribution that the stream settles.
    pub closed spec fn handle(&self) -> ProviderTerminalAttributionHandle {
        self.handle
    }

    /// The tracker follows the stream of the very request that its handle captured; a completion
    /// has settled the handle; and without one there is no terminal response.
    pub open spec fn wf(&self) -> bool {
        &&& self.handle()@.wf()
        &&& self@.completed ==> self.handle()@.result is Some
        &&& !self@.completed ==> self.handle()@.resolved() == Err::<
            ProviderTerminalAttributionView,
            _,
        >(ProviderRequestAttributionErrorView::MissingTerminalResponse)
        &&& self@.session_id == self.handle()@.session_id
        &&& self@.turn_id == self.handle()@.turn_id
        &&& self@.requested_model == self.handle()@.request.model
    }

    /// Captures a request with its final encoded body, and follows the stream of its response.
    pub fn new(
        request: ResponsesApiRequest,
        final_body: Vec<u8>,
        provider: String,
        session_id: Option<String>,
        turn_id: Option<String>,
        attributor: Option<Arc<dyn ProviderRequestTokenAttributor>>,
    ) -> (tracker: Self)
        ensures
            tracker.wf(),
            tracker@ == (TerminalAttributionTrackerView {
                session_id: text::opt_view(session_id),
                turn_id: text::opt_view(turn_id),
                requested_model: request@.model,
                resolved_model: None,
                completed: false,
            }),
            tracker.handle()@ == (ProviderTerminalAttributionHandleView {
                request: request@,
                final_body: final_body@,
                final_request_fingerprint: receipt::request_fingerprint(final_body@),
                provider: provider@,
                session_id: text::opt_view(session_id),
                turn_id: text::opt_view(turn_id),
                result: None,
            }),
            tracker.handle().attributor() == attributor,
    {
        let requested_model = request.model.clone();
        let handle = ProviderTerminalAttributionHandle::new(
            request,
            final_body,
            provider,
            opt_string_clone(&session_id),
            opt_string_clone(&turn_id),
            attributor,
        );
        TerminalAttributionTracker {
            handle,
            session_id,
            turn_id,
            requested_model,
            resolved_model: None,
            completed: false,
        }
    }

    /// Takes one event of the stream into account, before it is passed on.
    pub fn observe(&mut self, event: &StreamEvent)
        requires
            old(self).wf(),
        ensures
            final(self).wf(),
            match *event {
                StreamEvent::ServerModel(model) => {
                    &&& final(self).handle() == old(self).handle()
                    &&& final(self)@ == (TerminalAttributionTrackerView {
                        resolved_model: Some(model@),
                        ..old(self)@
                    })
                },
                StreamEvent::Completed { response_id, input_tokens } => {
                    &&& handle::completed_with(
                        old(self).handle(),
                        final(self).handle(),
                        old(self)@.terminal(response_id@, input_tokens),
                    )
                    &&& final(self)@ == (TerminalAttributionTrackerView {
                        completed: true,
                        ..old(self)@
                    })
                },
                StreamEvent::Other => {
                    &&& final(self).handle() == old(self).handle()
                    &&& final(self)@ == old(self)@
                },
            },
    {
        match event {
            StreamEvent::ServerModel(model) => {
                self.resolved_model = Some(model.clone());
            },
            StreamEvent::Completed { response_id, input_tokens } => {
                let authoritative_input_tokens: Option<u64> = match input_tokens {
                    Some(tokens) => if *tokens >= 0 {
                        Some(*tokens as u64)
                    } else {
                        None
                    },
                    None => None,
                };
                self.completed = true;
                self.handle.complete(
                    ProviderTerminalResponse {
                        session_id: opt_string_clone(&self.session_id),
                        turn_id: opt_string_clone(&self.turn_id),
                        response_id: response_id.clone(),
                        requested_model: self.requested_model.clone(),
                        resolved_model: opt_string_clone(&self.resolved_model),
                        authoritative_input_tokens,
                        successful: true,
                    },
                );
            },
            StreamEvent::Other => {},
        }
    }

    /// Takes the end of the stream into account: without a completion before it, the attribution
    /// has no terminal response.
    pub fn finish(&mut self)
        requires
            old(self).wf(),
        ensures
            final(self).wf(),
            final(self)@ == old(self)@,
            final(self).handle().attributor() == old(self).handle().attributor(),
            final(self).handle()@ == (if old(self)@.completed || old(self).handle()@.result is Some {
                old(self).handle()@
            } else {
                old(self).handle()@.settled(
                    Err(ProviderRequestAttributionErrorView::MissingTerminalResponse),
                )
            }),
            final(self).handle()@.result is Some,
            !old(self)@.completed ==> final(self).handle()@.resolved() == Err::<
                ProviderTerminalAttributionView,
                _,
            >(ProviderRequestAttributionErrorView::MissingTerminalResponse),
    {
        if !self.completed {
            self.handle.finish_without_terminal();
        }
    }

    /// Hands the attribution out as it stands: the exact receipt, or why there is none.
    pub fn attribution(&self) -> (attribution: ProviderRequestAttribution)
        ensures
            attribution.resolved() == self.handle()@.resolved(),
            attribution !is Pending,
    {
        match self.handle.resolve() {
            Ok(attributed) => ProviderRequestAttribution::ExactTerminalReceipt(attributed),
            Err(error) => ProviderRequestAttribution::Unavailable(error),
        }
    }

    /// Reads the attribution as it stands.
    pub fn resolve(&self) -> (result: Result<
        ProviderTerminalAttribution,
        ProviderRequestAttributionError,
    >)
        ensures
            types::attribution_result_view(result) == self.handle()@.resolved(),
    {
        self.handle.resolve()
    }
}

/// The completion of a followed stream is never turned away: it is a successful response of the
/// session, the turn and the model that the request was captured with.
pub proof fn law_followed_completion_reaches_the_hook(
    tracker: TerminalAttributionTracker,
    response_id: Seq<char>,
    input_tokens: Option<i64>,
)
    requires
        tracker.wf(),
    ensures
        tracker.handle()@.turned_away(tracker@.terminal(response_id, input_tokens)) is None,
{
}

/// A stream without a completion has no terminal response: whatever its events were, its
/// attribution resolves to that.
pub proof fn law_uncompleted_streams_have_no_terminal_response(tracker: TerminalAttributionTracker)
    requires
        tracker.wf(),
        !tracker@.completed,
    ensures
        tracker.handle()@.resolved() == Err::<ProviderTerminalAttributionView, _>(
            ProviderRequestAttributionErrorView::MissingTerminalResponse,
        ),
{
}

/// A header that a request sets.
#[derive(Debug, PartialEq, Eq)]
pub struct HeaderEdit {
    pub name: String,
    pub value: String,
}

/// The name and the value of a header.
pub open spec fn header_views(edits: Seq<HeaderEdit>) -> Seq<(Seq<char>, Seq<char>)> {
    edits.map_values(|edit: HeaderEdit| (edit.name@, edit.value@))
}

/// One header, where there is a value for it.
pub open spec fn header_if(name: Seq<char>, value: Option<Seq<char>>) -> Seq<
    (Seq<char>, Seq<char>),
> {
    match value {
        Some(given) => seq![(name, given)],
        None => Seq::empty(),
    }
}

/// The headers that a request sets on top of the caller's, in the order in which they are set:
/// the thread as the client's request identifier, the session's own headers, then the subagent.
pub fn session_header_edits(
    thread_id: &Option<String>,
    session_headers: Vec<HeaderEdit>,
    subagent: Option<String>,
) -> (edits: Vec<HeaderEdit>)
    ensures
        header_views(edits@) == header_if("x-client-request-id"@, text::opt_view(*thread_id))
            + header_views(session_headers@) + header_if(
            "x-openai-subagent"@,
            text::opt_view(subagent),
        ),
        ({
            let shift = if thread_id is Some {
                1int
            } else {
                0int
            };
            let last = shift + session_headers@.len();
            &&& edits@.len() == last + if subagent is Some {
                1int
            } else {
                0int
            }
            &&& thread_id is Some ==> edits@[0].name@ == "x-client-request-id"@
                && edits@[0].value@ == thread_id->0@
            &&& forall|i: int|
                #![trigger session_headers@[i]]
                0 <= i < session_headers@.len() ==> edits@[shift + i].name@
                    == session_headers@[i].name@ && edits@[shift + i].value@
                    == session_headers@[i].value@
            &&& subagent is Some ==> edits@[last].name@ == "x-openai-subagent"@
                && edits@[last].value@ == subagent->0@
        }),
{
    let mut edits: Vec<HeaderEdit> = Vec::new();
    if let Some(value) = thread_id {
        edits.push(HeaderEdit { name: "x-client-request-id".to_owned(), value: value.clone() });
    }
    let ghost first = edits@;
    let mut session_headers = session_headers;
    let ghost session = session_headers@;
    edits.append(&mut session_headers);
    let ghost second = edits@;
    if let Some(value) = subagent {
        edits.push(HeaderEdit { name: "x-openai-subagent".to_owned(), value });
    }
    proof {
        assert(header_views(first) =~= header_if(
            "x-client-request-id"@,
            text::opt_view(*thread_id),
        ));
        assert(header_views(second) =~= header_views(first) + header_views(session));
        assert(header_views(edits@) =~= header_views(second) + header_if(
            "x-openai-subagent"@,
            text::opt_view(subagent),
        ));
        laws::law_headers_are_set_in_order(
            edits@,
            text::opt_view(*thread_id),
            session,
            text::opt_view(subagent),
            first.len() as int,
        );
    }
    edits
}

} // verus!
