use codex_bridge::provider::handle::ProviderRequestAttribution;
use codex_bridge::provider::handle::ProviderRequestTokenAttributor;
use codex_bridge::provider::handle::ProviderTerminalAttributionHandle;
use codex_bridge::provider::receipt::provider_model_fingerprint;
use codex_bridge::provider::receipt::provider_request_fingerprint;
use codex_bridge::provider::receipt::validate_terminal_receipt;
use codex_bridge::provider::stream::session_header_edits;
use codex_bridge::provider::stream::HeaderEdit;
use codex_bridge::provider::stream::StreamEvent;
use codex_bridge::provider::stream::TerminalAttributionTracker;
use codex_bridge::provider::types::ProviderRequestAttributionError;
use codex_bridge::provider::types::ProviderTerminalAttribution;
use codex_bridge::provider::types::ProviderTerminalAttributionReceipt;
use codex_bridge::provider::types::ProviderTerminalInputItem;
use codex_bridge::provider::types::ProviderTerminalResponse;
use codex_bridge::provider::types::ResponseItem;
use codex_bridge::provider::types::ResponsesApiRequest;
use codex_bridge::skills::telemetry::SkillReadMetrics;
use codex_bridge::skills::telemetry::SkillReadProvenance;
use codex_bridge::skills::telemetry::SkillReadProviderRequest;
use codex_bridge::skills::telemetry::SkillReadTelemetry;
use serde_json::Value;
use std::sync::Arc;
use std::sync::Mutex;

fn input_item(id: Option<&str>) -> ResponseItem {
    ResponseItem {
        id: id.map(|id| format!("msg_{id}")),
        body: "user: skill body".to_string(),
    }
}

fn request(input: Vec<ResponseItem>) -> ResponsesApiRequest {
    ResponsesApiRequest {
        model: "test-model".to_string(),
        input,
    }
}

/// Encodes a request as JSON.
fn encoded(request: &ResponsesApiRequest) -> Vec<u8> {
    let input = request
        .input
        .iter()
        .map(|item| {
            let mut fields = serde_json::Map::new();
            fields.insert(
                "id".to_string(),
                item.id.clone().map_or(Value::Null, Value::String),
            );
            fields.insert("body".to_string(), Value::String(item.body.clone()));
            Value::Object(fields)
        })
        .collect();
    let mut fields = serde_json::Map::new();
    fields.insert("model".to_string(), Value::String(request.model.clone()));
    fields.insert("input".to_string(), Value::Array(input));
    serde_json::to_vec(&Value::Object(fields)).expect("request should serialize")
}

fn receipt(request: &ResponsesApiRequest, input_tokens: u64) -> ProviderTerminalAttributionReceipt {
    let requested_model = request.model.clone();
    ProviderTerminalAttributionReceipt {
        session_id: "session".to_string(),
        turn_id: "turn".to_string(),
        response_id: "response".to_string(),
        request_fingerprint: provider_request_fingerprint(&encoded(request)),
        requested_model: requested_model.clone(),
        resolved_model: requested_model.clone(),
        requested_model_fingerprint: provider_model_fingerprint(&requested_model),
        resolved_model_fingerprint: provider_model_fingerprint(&requested_model),
        provider_transformation_version: "provider-transform-v1".to_string(),
        tokenizer_accounting_version: "tokenizer-accounting-v1".to_string(),
        input_items: request
            .input
            .iter()
            .filter_map(|item| {
                item.id.clone().map(|item_id| ProviderTerminalInputItem {
                    item_id,
                    input_tokens,
                })
            })
            .collect(),
        authoritative_input_tokens: input_tokens
            * request.input.iter().filter(|item| item.id.is_some()).count() as u64,
    }
}

fn terminal(authoritative_input_tokens: u64) -> ProviderTerminalResponse {
    ProviderTerminalResponse {
        session_id: Some("session".to_string()),
        turn_id: Some("turn".to_string()),
        response_id: "response".to_string(),
        requested_model: "test-model".to_string(),
        resolved_model: Some("test-model".to_string()),
        authoritative_input_tokens: Some(authoritative_input_tokens),
        successful: true,
    }
}

#[test]
fn terminal_receipt_accepts_exact_bijection() {
    let request = request(vec![input_item(Some("one"))]);
    let receipt = receipt(&request, 7);
    let body = encoded(&request);

    assert!(validate_terminal_receipt(
        &request,
        &provider_request_fingerprint(&body),
        &terminal(7),
        receipt,
    )
    .is_ok());
}

#[test]
fn terminal_receipt_rejects_missing_final_item_id() {
    let request = request(vec![input_item(None)]);
    let receipt = receipt(&request, 0);
    let body = encoded(&request);

    assert_eq!(
        validate_terminal_receipt(
            &request,
            &provider_request_fingerprint(&body),
            &terminal(0),
            receipt,
        )
        .expect_err("final input items must have stable IDs"),
        ProviderRequestAttributionError::MissingFinalInputItemId { index: 0 }
    );
}

#[test]
fn terminal_receipt_rejects_duplicate_final_item_id() {
    let item = input_item(Some("duplicate"));
    let request = request(vec![item.clone(), item]);
    let receipt = receipt(&request, 7);
    let body = encoded(&request);

    assert_eq!(
        validate_terminal_receipt(
            &request,
            &provider_request_fingerprint(&body),
            &terminal(14),
            receipt,
        )
        .expect_err("final input item IDs must be unique"),
        ProviderRequestAttributionError::DuplicateFinalInputItemId {
            item_id: "msg_duplicate".to_string(),
        }
    );
}

/// Validates a receipt for two items of seven tokens each, after a change.
fn judged<F>(change: F) -> Result<ProviderTerminalAttributionReceipt, ProviderRequestAttributionError>
where
    F: FnOnce(&mut ProviderTerminalResponse, &mut ProviderTerminalAttributionReceipt),
{
    let request = request(vec![input_item(Some("one")), input_item(Some("two"))]);
    let mut receipt = receipt(&request, 7);
    let mut terminal = terminal(14);
    change(&mut terminal, &mut receipt);
    let fingerprint = provider_request_fingerprint(&encoded(&request));
    validate_terminal_receipt(&request, &fingerprint, &terminal, receipt)
}

#[test]
fn exact_receipts_are_handed_back() {
    let request = request(vec![input_item(Some("one")), input_item(Some("two"))]);
    assert_eq!(judged(|_, _| {}), Ok(receipt(&request, 7)));
    let mut unresolved = receipt(&request, 7);
    unresolved.resolved_model = "served-model".to_string();
    unresolved.resolved_model_fingerprint = provider_model_fingerprint("served-model");
    assert_eq!(
        judged(|terminal, receipt| {
            terminal.resolved_model = None;
            *receipt = unresolved.clone();
        }),
        Ok(unresolved.clone())
    );
    assert!(judged(|_, receipt| receipt.input_items.swap(0, 1)).is_ok());
}

#[test]
fn missing_fields_are_refused() {
    let missing = |error| Err(error);
    assert_eq!(
        judged(|terminal, _| terminal.session_id = None),
        missing(ProviderRequestAttributionError::MissingSessionId)
    );
    assert_eq!(
        judged(|_, receipt| receipt.session_id.clear()),
        missing(ProviderRequestAttributionError::MissingSessionId)
    );
    assert_eq!(
        judged(|terminal, _| terminal.turn_id = Some(String::new())),
        missing(ProviderRequestAttributionError::MissingTurnId)
    );
    assert_eq!(
        judged(|_, receipt| receipt.turn_id.clear()),
        missing(ProviderRequestAttributionError::MissingTurnId)
    );
    assert_eq!(
        judged(|terminal, _| terminal.response_id.clear()),
        missing(ProviderRequestAttributionError::MissingResponseId)
    );
    assert_eq!(
        judged(|_, receipt| receipt.response_id.clear()),
        missing(ProviderRequestAttributionError::MissingResponseId)
    );
    assert_eq!(
        judged(|terminal, _| terminal.authoritative_input_tokens = None),
        missing(ProviderRequestAttributionError::MissingAggregateInputTokens)
    );
    assert_eq!(
        judged(|_, receipt| receipt.request_fingerprint.clear()),
        missing(ProviderRequestAttributionError::MissingRequestFingerprint)
    );
    assert_eq!(
        judged(|_, receipt| receipt.requested_model.clear()),
        missing(ProviderRequestAttributionError::MissingRequestedModel)
    );
    assert_eq!(
        judged(|_, receipt| receipt.resolved_model.clear()),
        missing(ProviderRequestAttributionError::MissingResolvedModel)
    );
    assert_eq!(
        judged(|_, receipt| receipt.requested_model_fingerprint.clear()),
        missing(ProviderRequestAttributionError::MissingRequestedModelFingerprint)
    );
    assert_eq!(
        judged(|_, receipt| receipt.resolved_model_fingerprint.clear()),
        missing(ProviderRequestAttributionError::MissingResolvedModelFingerprint)
    );
    assert_eq!(
        judged(|_, receipt| receipt.provider_transformation_version.clear()),
        missing(ProviderRequestAttributionError::MissingProviderTransformationVersion)
    );
    assert_eq!(
        judged(|_, receipt| receipt.tokenizer_accounting_version.clear()),
        missing(ProviderRequestAttributionError::MissingTokenizerAccountingVersion)
    );
}

#[test]
fn fields_of_another_response_are_refused() {
    let other = || "other".to_string();
    assert_eq!(
        judged(|_, receipt| receipt.session_id = other()),
        Err(ProviderRequestAttributionError::SessionIdMismatch)
    );
    assert_eq!(
        judged(|_, receipt| receipt.turn_id = other()),
        Err(ProviderRequestAttributionError::TurnIdMismatch)
    );
    assert_eq!(
        judged(|_, receipt| receipt.response_id = other()),
        Err(ProviderRequestAttributionError::ResponseIdMismatch)
    );
    assert_eq!(
        judged(|_, receipt| receipt.request_fingerprint = other()),
        Err(ProviderRequestAttributionError::RequestFingerprintMismatch)
    );
    assert_eq!(
        judged(|_, receipt| receipt.requested_model = other()),
        Err(ProviderRequestAttributionError::RequestedModelMismatch)
    );
    assert_eq!(
        judged(|_, receipt| receipt.requested_model_fingerprint = other()),
        Err(ProviderRequestAttributionError::RequestedModelFingerprintMismatch)
    );
    assert_eq!(
        judged(|_, receipt| receipt.resolved_model = other()),
        Err(ProviderRequestAttributionError::ResolvedModelMismatch)
    );
    assert_eq!(
        judged(|_, receipt| receipt.resolved_model_fingerprint = other()),
        Err(ProviderRequestAttributionError::ResolvedModelFingerprintMismatch)
    );
    assert_eq!(
        judged(|_, receipt| receipt.authoritative_input_tokens = 13),
        Err(ProviderRequestAttributionError::AggregateInputTokensMismatch {
            expected: 14,
            actual: 13,
        })
    );
}

#[test]
fn items_that_are_no_bijection_are_refused() {
    let id = |id: &str| id.to_string();
    assert_eq!(
        judged(|_, receipt| receipt.input_items[0].item_id.clear()),
        Err(ProviderRequestAttributionError::MissingReceiptInputItemId { item_id: id("") })
    );
    assert_eq!(
        judged(|_, receipt| receipt.input_items[1].item_id = id("msg_one")),
        Err(ProviderRequestAttributionError::DuplicateReceiptInputItemId { item_id: id("msg_one") })
    );
    assert_eq!(
        judged(|_, receipt| receipt.input_items[1].item_id = id("msg_three")),
        Err(ProviderRequestAttributionError::ExtraReceiptInputItemId { item_id: id("msg_three") })
    );
    assert_eq!(
        judged(|_, receipt| {
            receipt.input_items.remove(0);
        }),
        Err(ProviderRequestAttributionError::MissingReceiptInputItemId { item_id: id("msg_one") })
    );
    assert_eq!(
        judged(|_, receipt| receipt.input_items[0].input_tokens = 8),
        Err(ProviderRequestAttributionError::AggregateInputTokensMismatch {
            expected: 14,
            actual: 15,
        })
    );
    assert_eq!(
        judged(|_, receipt| receipt.input_items[0].input_tokens = u64::MAX),
        Err(ProviderRequestAttributionError::InputTokenSumOverflow)
    );
}

#[test]
fn fingerprints_are_digests_of_exact_bytes() {
    assert_eq!(
        provider_request_fingerprint(b""),
        "sha256:request-v1:e3b0c44298fc1c149afbf4c8996fb92427ae41e4649b934ca495991b7852b855"
    );
    assert_eq!(
        provider_request_fingerprint(b"{}"),
        "sha256:request-v1:44136fa355b3678a1146ad16f7e8649e94fb4fc21fe77e8310c060f61caaff8a"
    );
    assert_eq!(
        provider_model_fingerprint("test-model"),
        "sha256:model-v1:61f401bc2506c75bd117f8cca1e6ccac192632cb3019e57dbe43eb5e1b69c0a1"
    );
    assert_ne!(provider_request_fingerprint(b"test-model"), provider_model_fingerprint("test-model"));
}

/// Answers every terminal response with the same reply, and remembers what it was asked.
struct FixedAttributor {
    reply: Result<ProviderTerminalAttributionReceipt, ProviderRequestAttributionError>,
    asked: Mutex<Vec<(String, Vec<u8>, ProviderTerminalResponse)>>,
}

impl ProviderRequestTokenAttributor for FixedAttributor {
    fn terminal_attribution(
        &self,
        request: &ResponsesApiRequest,
        final_body: &[u8],
        terminal: &ProviderTerminalResponse,
    ) -> Result<ProviderTerminalAttributionReceipt, ProviderRequestAttributionError> {
        self.asked.lock().unwrap().push((
            request.model.clone(),
            final_body.to_vec(),
            terminal.clone(),
        ));
        self.reply.clone()
    }
}

fn fixed(
    reply: Result<ProviderTerminalAttributionReceipt, ProviderRequestAttributionError>,
) -> Arc<FixedAttributor> {
    Arc::new(FixedAttributor { reply, asked: Mutex::new(Vec::new()) })
}

fn one_item_request() -> ResponsesApiRequest {
    request(vec![input_item(Some("one"))])
}

fn handle(attributor: Option<Arc<dyn ProviderRequestTokenAttributor>>) -> ProviderTerminalAttributionHandle {
    let request = one_item_request();
    let body = encoded(&request);
    ProviderTerminalAttributionHandle::new(
        request,
        body,
        "test-provider".to_string(),
        Some("session".to_string()),
        Some("turn".to_string()),
        attributor,
    )
}

fn exact() -> ProviderTerminalAttribution {
    let request = one_item_request();
    ProviderTerminalAttribution {
        receipt: receipt(&request, 7),
        terminal: terminal(7),
        final_request_fingerprint: provider_request_fingerprint(&encoded(&request)),
    }
}

#[test]
fn handles_settle_with_an_exact_receipt() {
    let attributor = fixed(Ok(receipt(&one_item_request(), 7)));
    let mut handle = handle(Some(attributor.clone()));
    assert_eq!(
        handle.resolve(),
        Err(ProviderRequestAttributionError::MissingTerminalResponse)
    );
    handle.complete(terminal(7));
    assert_eq!(handle.resolve(), Ok(exact()));
    assert_eq!(
        *attributor.asked.lock().unwrap(),
        vec![("test-model".to_string(), encoded(&one_item_request()), terminal(7))]
    );

    handle.finish_without_terminal();
    handle.complete(terminal(8));
    assert_eq!(ProviderRequestAttribution::Pending(handle).resolve(), Ok(exact()));
    assert_eq!(attributor.asked.lock().unwrap().len(), 1);
}

#[test]
fn handles_refuse_answers_that_are_not_exact() {
    let mut inexact = handle(Some(fixed(Ok(receipt(&one_item_request(), 6)))));
    inexact.complete(terminal(7));
    assert_eq!(
        inexact.resolve(),
        Err(ProviderRequestAttributionError::AggregateInputTokensMismatch {
            expected: 7,
            actual: 6,
        })
    );

    let rejected = ProviderRequestAttributionError::EncoderRejected {
        provider: "test-provider".to_string(),
        reason: "no".to_string(),
    };
    let mut failing = handle(Some(fixed(Err(rejected.clone()))));
    failing.complete(terminal(7));
    assert_eq!(failing.resolve(), Err(rejected));

    let mut unattributed = handle(None);
    unattributed.complete(terminal(7));
    assert_eq!(
        unattributed.resolve(),
        Err(ProviderRequestAttributionError::ProviderDoesNotExposeExactPerItemTokens {
            provider: "test-provider".to_string(),
        })
    );
}

#[test]
fn handles_turn_away_responses_of_another_request() {
    let turned_away = |change: fn(&mut ProviderTerminalResponse)| {
        let attributor = fixed(Ok(receipt(&one_item_request(), 7)));
        let mut handle = handle(Some(attributor.clone()));
        let mut response = terminal(7);
        change(&mut response);
        handle.complete(response);
        assert!(attributor.asked.lock().unwrap().is_empty());
        handle.resolve()
    };
    assert_eq!(
        turned_away(|response| response.successful = false),
        Err(ProviderRequestAttributionError::TerminalResponseNotSuccessful)
    );
    assert_eq!(
        turned_away(|response| response.session_id = None),
        Err(ProviderRequestAttributionError::SessionIdMismatch)
    );
    assert_eq!(
        turned_away(|response| response.turn_id = Some("other".to_string())),
        Err(ProviderRequestAttributionError::TurnIdMismatch)
    );
    assert_eq!(
        turned_away(|response| response.requested_model = "other".to_string()),
        Err(ProviderRequestAttributionError::RequestedModelMismatch)
    );
}

#[test]
fn attributions_resolve_to_what_they_hold() {
    assert_eq!(
        ProviderRequestAttribution::ExactTerminalReceipt(exact()).resolve(),
        Ok(exact())
    );
    assert_eq!(
        ProviderRequestAttribution::Unavailable(ProviderRequestAttributionError::MissingTurnId)
            .resolve(),
        Err(ProviderRequestAttributionError::MissingTurnId)
    );
}

#[test]
fn settled_attributions_are_accepted_by_the_telemetry() {
    let request = one_item_request();
    let mut telemetry = SkillReadTelemetry::new();
    telemetry.register(SkillReadProvenance::for_skill(
        "session",
        "turn",
        "/skills/one/SKILL.md",
        "skill body",
        request.input[0].clone(),
    ));
    let mut handle = handle(Some(fixed(Ok(receipt(&request, 7)))));
    handle.complete(terminal(7));
    assert_eq!(
        telemetry.record_successful_provider_request(
            "session",
            "turn",
            SkillReadProviderRequest {
                input: request.input,
                attribution: ProviderRequestAttribution::Pending(handle),
            },
        ),
        Ok(())
    );
    assert_eq!(
        telemetry.host_observation_metrics(),
        Some(SkillReadMetrics { skill_read_calls: 1, skill_read_input_tokens: 7 })
    );
}

fn tracker(attributor: Option<Arc<dyn ProviderRequestTokenAttributor>>) -> TerminalAttributionTracker {
    let request = one_item_request();
    let body = encoded(&request);
    TerminalAttributionTracker::new(
        request,
        body,
        "test-provider".to_string(),
        Some("session".to_string()),
        Some("turn".to_string()),
        attributor,
    )
}

#[test]
fn followed_streams_settle_on_their_completion() {
    let attributor = fixed(Ok(receipt(&one_item_request(), 7)));
    let mut tracker = tracker(Some(attributor.clone()));
    tracker.observe(&StreamEvent::Other);
    tracker.observe(&StreamEvent::ServerModel("first".to_string()));
    tracker.observe(&StreamEvent::ServerModel("test-model".to_string()));
    tracker.observe(&StreamEvent::Completed {
        response_id: "response".to_string(),
        input_tokens: Some(7),
    });
    tracker.finish();
    assert_eq!(tracker.resolve(), Ok(exact()));
    assert_eq!(tracker.attribution().resolve(), Ok(exact()));
    assert_eq!(attributor.asked.lock().unwrap()[0].2, terminal(7));
}

#[test]
fn followed_streams_without_a_completion_have_no_terminal_response() {
    let attributor = fixed(Ok(receipt(&one_item_request(), 7)));
    let mut tracker = tracker(Some(attributor.clone()));
    tracker.observe(&StreamEvent::Other);
    tracker.finish();
    assert_eq!(
        tracker.resolve(),
        Err(ProviderRequestAttributionError::MissingTerminalResponse)
    );
    assert_eq!(
        tracker.attribution().resolve(),
        Err(ProviderRequestAttributionError::MissingTerminalResponse)
    );
    assert!(attributor.asked.lock().unwrap().is_empty());
}

#[test]
fn negative_or_absent_usage_is_no_aggregate() {
    for input_tokens in [Some(-1), None] {
        let mut tracker = tracker(Some(fixed(Ok(receipt(&one_item_request(), 7)))));
        tracker.observe(&StreamEvent::Completed {
            response_id: "response".to_string(),
            input_tokens,
        });
        assert_eq!(
            tracker.resolve(),
            Err(ProviderRequestAttributionError::MissingAggregateInputTokens)
        );
    }
}

#[test]
fn session_headers_are_set_in_order() {
    let edit = |name: &str, value: &str| HeaderEdit {
        name: name.to_string(),
        value: value.to_string(),
    };
    assert_eq!(
        session_header_edits(
            &Some("thread".to_string()),
            vec![edit("session_id", "s"), edit("thread_id", "thread")],
            Some("review".to_string()),
        ),
        vec![
            edit("x-client-request-id", "thread"),
            edit("session_id", "s"),
            edit("thread_id", "thread"),
            edit("x-openai-subagent", "review"),
        ]
    );
    assert_eq!(session_header_edits(&None, Vec::new(), None), Vec::new());
}
