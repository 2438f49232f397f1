use codex_bridge::provider::handle::ProviderRequestAttribution;
use codex_bridge::provider::receipt::provider_model_fingerprint;
use codex_bridge::provider::types::ProviderRequestAttributionError;
use codex_bridge::provider::types::ProviderTerminalAttribution;
use codex_bridge::provider::types::ProviderTerminalAttributionReceipt;
use codex_bridge::provider::types::ProviderTerminalInputItem;
use codex_bridge::provider::types::ProviderTerminalResponse;
use codex_bridge::provider::types::ResponseItem;
use codex_bridge::skills::attribution::validate_terminal_attribution;
use codex_bridge::skills::telemetry::content_digest;
use codex_bridge::skills::telemetry::SkillReadMetrics;
use codex_bridge::skills::telemetry::SkillReadProvenance;
use codex_bridge::skills::telemetry::SkillReadProviderRequest;
use codex_bridge::skills::telemetry::SkillReadTelemetry;
use codex_bridge::skills::telemetry::SkillReadTelemetryOutcome;
use codex_bridge::skills::telemetry::CODEX_TMCP_HOST_OBSERVATION_SCHEMA;

fn skill_item(id_suffix: &str, contents: &str) -> ResponseItem {
    ResponseItem {
        id: Some(format!("msg_{id_suffix}")),
        body: contents.to_string(),
    }
}

fn provenance(
    session_id: &str,
    turn_id: &str,
    path: &str,
    digest: &str,
    item: ResponseItem,
) -> SkillReadProvenance {
    SkillReadProvenance::with_digest(session_id, turn_id, path, digest, item)
}

fn record_exact(
    telemetry: &mut SkillReadTelemetry,
    session_id: &str,
    turn_id: &str,
    input: Vec<ResponseItem>,
    input_tokens: Vec<u64>,
) {
    let attribution = exact_attribution(&input, &input_tokens, session_id, turn_id);
    telemetry
        .record_successful_provider_request(
            session_id,
            turn_id,
            SkillReadProviderRequest { input, attribution },
        )
        .expect("exact provider attribution should be accepted");
}

fn exact_terminal(
    input: &[ResponseItem],
    input_tokens: &[u64],
    session_id: &str,
    turn_id: &str,
) -> ProviderTerminalAttribution {
    let authoritative_input_tokens = input_tokens.iter().sum();
    let requested_model = "test-model".to_string();
    let receipt = ProviderTerminalAttributionReceipt {
        session_id: session_id.to_string(),
        turn_id: turn_id.to_string(),
        response_id: "response-1".to_string(),
        request_fingerprint: "sha256:request-v1:test".to_string(),
        requested_model: requested_model.clone(),
        resolved_model: requested_model.clone(),
        requested_model_fingerprint: provider_model_fingerprint(&requested_model),
        resolved_model_fingerprint: provider_model_fingerprint(&requested_model),
        provider_transformation_version: "provider-transform-v1".to_string(),
        tokenizer_accounting_version: "tokenizer-accounting-v1".to_string(),
        input_items: input
            .iter()
            .zip(input_tokens)
            .map(|(item, input_tokens)| ProviderTerminalInputItem {
                item_id: item
                    .id
                    .clone()
                    .expect("exact test input should have an item id"),
                input_tokens: *input_tokens,
            })
            .collect(),
        authoritative_input_tokens,
    };
    ProviderTerminalAttribution {
        receipt,
        terminal: ProviderTerminalResponse {
            session_id: Some(session_id.to_string()),
            turn_id: Some(turn_id.to_string()),
            response_id: "response-1".to_string(),
            requested_model,
            resolved_model: Some("test-model".to_string()),
            authoritative_input_tokens: Some(authoritative_input_tokens),
            successful: true,
        },
        final_request_fingerprint: "sha256:request-v1:test".to_string(),
    }
}

fn exact_attribution(
    input: &[ResponseItem],
    input_tokens: &[u64],
    session_id: &str,
    turn_id: &str,
) -> ProviderRequestAttribution {
    ProviderRequestAttribution::ExactTerminalReceipt(exact_terminal(
        input,
        input_tokens,
        session_id,
        turn_id,
    ))
}

#[test]
fn zero_skills_produce_zero_metrics() {
    let telemetry = SkillReadTelemetry::default();

    assert_eq!(telemetry.outcome(), SkillReadTelemetryOutcome::CompleteZero);
    assert_eq!(telemetry.metrics(), SkillReadMetrics::default());
    assert_eq!(
        telemetry.host_observation_metrics(),
        Some(SkillReadMetrics::default())
    );
}

#[test]
fn one_complete_skill_uses_exact_captured_item_tokens() {
    let mut telemetry = SkillReadTelemetry::default();
    let item = skill_item("one", "complete skill body");
    telemetry.register(provenance(
        "session",
        "turn",
        "/skills/one/SKILL.md",
        "sha1:one",
        item.clone(),
    ));

    record_exact(&mut telemetry, "session", "turn", vec![item], vec![37]);

    assert_eq!(
        telemetry.metrics(),
        SkillReadMetrics {
            skill_read_calls: 1,
            skill_read_input_tokens: 37,
        }
    );
    assert_eq!(
        telemetry.outcome(),
        SkillReadTelemetryOutcome::CompleteExact
    );
    assert_eq!(
        telemetry.host_observation_metrics(),
        Some(SkillReadMetrics {
            skill_read_calls: 1,
            skill_read_input_tokens: 37,
        })
    );
}

#[test]
fn duplicate_injection_and_request_retry_count_once_by_identity() {
    let mut telemetry = SkillReadTelemetry::default();
    let first = skill_item("first", "same skill");
    let second = skill_item("second", "same skill");
    telemetry.register(provenance(
        "session",
        "turn",
        "/skills/one/SKILL.md",
        "sha1:same",
        first.clone(),
    ));
    telemetry.register(provenance(
        "session",
        "turn",
        "/skills/one/SKILL.md",
        "sha1:same",
        second.clone(),
    ));

    record_exact(
        &mut telemetry,
        "session",
        "turn",
        vec![first.clone(), second],
        vec![11, 13],
    );
    let mut retry = match exact_attribution(&[first.clone()], &[11], "session", "turn") {
        ProviderRequestAttribution::ExactTerminalReceipt(attribution) => attribution,
        _ => panic!("test helper must create an exact terminal attribution"),
    };
    retry.receipt.response_id = "response-retry".to_string();
    retry.receipt.request_fingerprint = "sha256:request-v1:retry".to_string();
    retry.terminal.response_id = "response-retry".to_string();
    retry.final_request_fingerprint = "sha256:request-v1:retry".to_string();
    telemetry
        .record_successful_provider_request(
            "session",
            "turn",
            SkillReadProviderRequest {
                input: vec![first],
                attribution: ProviderRequestAttribution::ExactTerminalReceipt(retry),
            },
        )
        .expect("a successful retry should remain exact");

    assert_eq!(telemetry.metrics().skill_read_calls, 1);
}

#[test]
fn mismatched_session_or_turn_does_not_count_or_poison_candidate() {
    let mut telemetry = SkillReadTelemetry::default();
    let item = skill_item("identity", "body");
    telemetry.register(provenance(
        "session",
        "turn",
        "/skills/identity/SKILL.md",
        "sha1:identity",
        item.clone(),
    ));

    record_exact(
        &mut telemetry,
        "other-session",
        "turn",
        vec![item.clone()],
        vec![7],
    );
    assert_eq!(telemetry.outcome(), SkillReadTelemetryOutcome::Unavailable);
    assert_eq!(telemetry.host_observation_metrics(), None);
    record_exact(
        &mut telemetry,
        "session",
        "other-turn",
        vec![item.clone()],
        vec![7],
    );
    assert_eq!(telemetry.outcome(), SkillReadTelemetryOutcome::Unavailable);
    assert_eq!(telemetry.host_observation_metrics(), None);
    assert_eq!(telemetry.metrics(), SkillReadMetrics::default());

    record_exact(&mut telemetry, "session", "turn", vec![item], vec![7]);
    assert_eq!(telemetry.metrics().skill_read_calls, 1);
    assert_eq!(
        telemetry.outcome(),
        SkillReadTelemetryOutcome::CompleteExact
    );
}

#[test]
fn failed_truncated_filtered_and_extension_suppressed_items_withhold_observation() {
    let mut telemetry = SkillReadTelemetry::default();
    let complete = skill_item("complete", "complete body");
    let filtered = skill_item("filtered", "filtered body");
    let failed = skill_item("failed", "failed body");
    let extension_suppressed = skill_item("suppressed", "suppressed body");
    let mut truncated = complete.clone();
    truncated.body = "truncated body".to_string();
    telemetry.register(provenance(
        "session",
        "turn",
        "/skills/complete/SKILL.md",
        "sha1:complete",
        complete,
    ));
    telemetry.register(provenance(
        "session",
        "turn",
        "/skills/filtered/SKILL.md",
        "sha1:filtered",
        filtered,
    ));

    // A truncated read does not match the complete typed candidate.
    record_exact(&mut telemetry, "session", "turn", vec![truncated], vec![23]);
    // A filtered candidate is absent from the final provider input.
    record_exact(&mut telemetry, "session", "turn", Vec::new(), Vec::new());
    // Failed and extension-suppressed reads never register typed candidates.
    record_exact(
        &mut telemetry,
        "session",
        "turn",
        vec![failed, extension_suppressed],
        vec![29, 31],
    );
    assert_eq!(telemetry.metrics(), SkillReadMetrics::default());
    assert_eq!(telemetry.outcome(), SkillReadTelemetryOutcome::Unavailable);
    assert_eq!(telemetry.host_observation_metrics(), None);
}

#[test]
fn normal_and_substitution_turns_are_independently_attributed() {
    let mut normal_telemetry = SkillReadTelemetry::default();
    let mut substitution_telemetry = SkillReadTelemetry::default();
    let normal = skill_item("normal", "body");
    let substitution = skill_item("substitution", "body");
    normal_telemetry.register(provenance(
        "normal-session",
        "normal-turn",
        "/skills/shared/SKILL.md",
        "sha1:shared",
        normal.clone(),
    ));
    substitution_telemetry.register(provenance(
        "substitution-session",
        "substitution-turn",
        "/skills/shared/SKILL.md",
        "sha1:shared",
        substitution.clone(),
    ));

    record_exact(
        &mut normal_telemetry,
        "normal-session",
        "normal-turn",
        vec![normal],
        vec![17],
    );
    record_exact(
        &mut substitution_telemetry,
        "substitution-session",
        "substitution-turn",
        vec![substitution],
        vec![19],
    );

    assert_eq!(normal_telemetry.metrics().skill_read_calls, 1);
    assert_eq!(substitution_telemetry.metrics().skill_read_calls, 1);
}

#[test]
fn provider_without_exact_attribution_fails_closed() {
    let mut telemetry = SkillReadTelemetry::default();
    let item = skill_item("unsupported", "provider-owned tokenizer unavailable");
    telemetry.register(provenance(
        "session",
        "turn",
        "/skills/unsupported/SKILL.md",
        "sha1:unsupported",
        item.clone(),
    ));

    let error = telemetry
        .record_successful_provider_request(
            "session",
            "turn",
            SkillReadProviderRequest {
                input: vec![item],
                attribution: ProviderRequestAttribution::Unavailable(
                    ProviderRequestAttributionError::ProviderDoesNotExposeExactPerItemTokens {
                        provider: "test-provider".to_string(),
                    },
                ),
            },
        )
        .expect_err("unsupported attribution must fail closed");

    assert_eq!(
        error,
        ProviderRequestAttributionError::ProviderDoesNotExposeExactPerItemTokens {
            provider: "test-provider".to_string(),
        }
    );
    assert_eq!(telemetry.metrics(), SkillReadMetrics::default());
    assert_eq!(telemetry.outcome(), SkillReadTelemetryOutcome::Unavailable);
    assert_eq!(telemetry.host_observation_metrics(), None);
}

#[test]
fn aggregate_only_provider_attribution_fails_closed() {
    let mut telemetry = SkillReadTelemetry::default();
    let item = skill_item("aggregate-only", "provider aggregate only");
    telemetry.register(provenance(
        "session",
        "turn",
        "/skills/aggregate-only/SKILL.md",
        "sha1:aggregate-only",
        item.clone(),
    ));

    let error = telemetry
        .record_successful_provider_request(
            "session",
            "turn",
            SkillReadProviderRequest {
                input: vec![item],
                attribution: ProviderRequestAttribution::Unavailable(
                    ProviderRequestAttributionError::ProviderReportsAggregateOnly {
                        provider: "test-provider".to_string(),
                        input_tokens: 23,
                    },
                ),
            },
        )
        .expect_err("aggregate-only attribution must fail closed");

    assert_eq!(
        error,
        ProviderRequestAttributionError::ProviderReportsAggregateOnly {
            provider: "test-provider".to_string(),
            input_tokens: 23,
        }
    );
    assert_eq!(telemetry.metrics(), SkillReadMetrics::default());
    assert_eq!(telemetry.outcome(), SkillReadTelemetryOutcome::Unavailable);
    assert_eq!(telemetry.host_observation_metrics(), None);
}

#[test]
fn missing_receipt_item_id_with_a_surviving_skill_withholds_observation() {
    let mut telemetry = SkillReadTelemetry::default();
    let item = skill_item("wrong-count", "body");
    telemetry.register(provenance(
        "session",
        "turn",
        "/skills/wrong-count/SKILL.md",
        "sha1:wrong-count",
        item.clone(),
    ));

    let mut attribution = match exact_attribution(&[item.clone()], &[7], "session", "turn") {
        ProviderRequestAttribution::ExactTerminalReceipt(attribution) => attribution,
        _ => panic!("test helper must create an exact terminal attribution"),
    };
    attribution.receipt.input_items.clear();
    let error = telemetry
        .record_successful_provider_request(
            "session",
            "turn",
            SkillReadProviderRequest {
                input: vec![item],
                attribution: ProviderRequestAttribution::ExactTerminalReceipt(attribution),
            },
        )
        .expect_err("missing receipt item id must fail closed");

    assert_eq!(
        error,
        ProviderRequestAttributionError::MissingReceiptInputItemId {
            item_id: "msg_wrong-count".to_string(),
        }
    );
    assert_eq!(telemetry.outcome(), SkillReadTelemetryOutcome::Unavailable);
    assert_eq!(telemetry.host_observation_metrics(), None);
}

fn assert_receipt_rejected<F>(suffix: &str, mutate: F)
where
    F: FnOnce(&mut ProviderTerminalAttribution),
{
    let mut telemetry = SkillReadTelemetry::default();
    let item = skill_item(suffix, "body");
    telemetry.register(provenance(
        "session",
        "turn",
        "/skills/rejected/SKILL.md",
        "sha1:rejected",
        item.clone(),
    ));
    let mut attribution = match exact_attribution(&[item.clone()], &[7], "session", "turn") {
        ProviderRequestAttribution::ExactTerminalReceipt(attribution) => attribution,
        _ => panic!("test helper must create an exact terminal attribution"),
    };
    mutate(&mut attribution);

    assert!(
        telemetry
            .record_successful_provider_request(
                "session",
                "turn",
                SkillReadProviderRequest {
                    input: vec![item],
                    attribution: ProviderRequestAttribution::ExactTerminalReceipt(attribution),
                },
            )
            .is_err()
    );
    assert_eq!(telemetry.outcome(), SkillReadTelemetryOutcome::Unavailable);
    assert_eq!(telemetry.host_observation_metrics(), None);
}

#[test]
fn duplicate_and_extra_receipt_item_ids_withhold_observation() {
    assert_receipt_rejected("duplicate-receipt-id", |attribution| {
        let item = attribution.receipt.input_items[0].clone();
        attribution.receipt.input_items.push(item);
    });
    assert_receipt_rejected("extra-receipt-id", |attribution| {
        attribution
            .receipt
            .input_items
            .push(ProviderTerminalInputItem {
                item_id: "extra-item".to_string(),
                input_tokens: 0,
            });
    });
}

#[test]
fn request_model_session_and_turn_mismatches_withhold_observation() {
    assert_receipt_rejected("request-fingerprint-mismatch", |attribution| {
        attribution.receipt.request_fingerprint = "sha256:request-v1:other".to_string();
    });
    assert_receipt_rejected("model-mismatch", |attribution| {
        attribution.receipt.requested_model = "other-model".to_string();
    });
    assert_receipt_rejected("session-mismatch", |attribution| {
        attribution.receipt.session_id = "other-session".to_string();
    });
    assert_receipt_rejected("turn-mismatch", |attribution| {
        attribution.receipt.turn_id = "other-turn".to_string();
    });
}

#[test]
fn missing_receipt_versions_and_aggregate_mismatch_withhold_observation() {
    assert_receipt_rejected("missing-transformation-version", |attribution| {
        attribution.receipt.provider_transformation_version.clear();
    });
    assert_receipt_rejected("missing-tokenizer-version", |attribution| {
        attribution.receipt.tokenizer_accounting_version.clear();
    });
    assert_receipt_rejected("aggregate-mismatch", |attribution| {
        attribution.receipt.input_items[0].input_tokens = 6;
    });
}

#[test]
fn attribution_error_with_a_surviving_skill_withholds_observation() {
    let mut telemetry = SkillReadTelemetry::default();
    let item = skill_item("encoder-error", "body");
    telemetry.register(provenance(
        "session",
        "turn",
        "/skills/encoder-error/SKILL.md",
        "sha1:encoder-error",
        item.clone(),
    ));

    let error = telemetry
        .record_successful_provider_request(
            "session",
            "turn",
            SkillReadProviderRequest {
                input: vec![item],
                attribution: ProviderRequestAttribution::Unavailable(
                    ProviderRequestAttributionError::EncoderRejected {
                        provider: "test-provider".to_string(),
                        reason: "provider error must not be serialized".to_string(),
                    },
                ),
            },
        )
        .expect_err("provider attribution error must fail closed");

    assert_eq!(
        error,
        ProviderRequestAttributionError::EncoderRejected {
            provider: "test-provider".to_string(),
            reason: "provider error must not be serialized".to_string(),
        }
    );
    assert_eq!(telemetry.outcome(), SkillReadTelemetryOutcome::Unavailable);
    assert_eq!(telemetry.host_observation_metrics(), None);
}

#[test]
fn unavailable_attempt_followed_by_exact_final_request_emits_exact_once() {
    let mut telemetry = SkillReadTelemetry::default();
    let item = skill_item("retry-final", "body");
    telemetry.register(provenance(
        "session",
        "turn",
        "/skills/retry-final/SKILL.md",
        "sha1:retry-final",
        item.clone(),
    ));

    telemetry
        .record_successful_provider_request(
            "session",
            "turn",
            SkillReadProviderRequest {
                input: vec![item.clone()],
                attribution: ProviderRequestAttribution::Unavailable(
                    ProviderRequestAttributionError::ProviderDoesNotExposeExactPerItemTokens {
                        provider: "test-provider".to_string(),
                    },
                ),
            },
        )
        .expect_err("unavailable attempt must fail closed");
    assert_eq!(telemetry.host_observation_metrics(), None);

    record_exact(&mut telemetry, "session", "turn", vec![item.clone()], vec![41]);
    record_exact(&mut telemetry, "session", "turn", vec![item], vec![41]);

    assert_eq!(
        telemetry.outcome(),
        SkillReadTelemetryOutcome::CompleteExact
    );
    assert_eq!(
        telemetry.host_observation_metrics(),
        Some(SkillReadMetrics {
            skill_read_calls: 1,
            skill_read_input_tokens: 41,
        })
    );
}

#[test]
fn missing_successful_provider_attribution_withholds_observation() {
    let mut telemetry = SkillReadTelemetry::default();
    let item = skill_item("missing", "body");
    telemetry.register(provenance(
        "session",
        "turn",
        "/skills/missing/SKILL.md",
        "sha1:missing",
        item,
    ));

    telemetry.record_missing_successful_provider_request();

    assert_eq!(telemetry.outcome(), SkillReadTelemetryOutcome::Unavailable);
    assert_eq!(telemetry.host_observation_metrics(), None);
}

/// A turn with one registered skill, and the item that carries it.
fn one_skill() -> (SkillReadTelemetry, ResponseItem) {
    let mut telemetry = SkillReadTelemetry::default();
    let item = skill_item("one", "body");
    telemetry.register(provenance("session", "turn", "/skills/one/SKILL.md", "sha1:one", item.clone()));
    (telemetry, item)
}

#[test]
fn provenance_digests_the_contents() {
    assert_eq!(
        content_digest("complete skill body"),
        "sha1:f90aa49a1a5d2468a25cc02eb7842932cdbe7397"
    );
    assert_eq!(content_digest("\u{e9}"), "sha1:bf15be717ac1b080b4f1c456692825891ff5073d");
    assert_eq!(CODEX_TMCP_HOST_OBSERVATION_SCHEMA, "codex-tmcp-host-observation-v0.1");

    // Two items with the same contents are one read; other contents are another.
    let mut telemetry = SkillReadTelemetry::new();
    let items = vec![skill_item("a", "A"), skill_item("b", "B"), skill_item("c", "C")];
    for (item, contents) in items.iter().zip(["same", "same", "other"]) {
        let read = SkillReadProvenance::for_skill("s", "t", "/SKILL.md", contents, item.clone());
        telemetry.register(read.clone());
    }
    record_exact(&mut telemetry, "s", "t", items, vec![1, 10, 100]);
    assert_eq!(
        telemetry.metrics(),
        SkillReadMetrics { skill_read_calls: 2, skill_read_input_tokens: 101 }
    );
}

#[test]
fn a_registered_skill_awaits_a_request() {
    let (telemetry, _) = one_skill();
    assert_eq!(telemetry.outcome(), SkillReadTelemetryOutcome::CompleteZero);
    assert_eq!(telemetry.host_observation_metrics(), None);
}

#[test]
fn unavailable_attributions_mark_the_turn_even_without_a_skill() {
    let mut telemetry = SkillReadTelemetry::default();
    assert_eq!(
        telemetry.record_successful_provider_request(
            "session",
            "turn",
            SkillReadProviderRequest {
                input: Vec::new(),
                attribution: ProviderRequestAttribution::Unavailable(
                    ProviderRequestAttributionError::MissingTerminalResponse,
                ),
            },
        ),
        Err(ProviderRequestAttributionError::MissingTerminalResponse)
    );
    assert_eq!(telemetry.outcome(), SkillReadTelemetryOutcome::Unavailable);
    assert_eq!(telemetry.metrics(), SkillReadMetrics::default());
    assert_eq!(telemetry.host_observation_metrics(), None);
}

#[test]
fn missing_attributions_without_a_skill_still_observe_zero() {
    let mut telemetry = SkillReadTelemetry::default();
    telemetry.record_missing_successful_provider_request();
    assert_eq!(telemetry.outcome(), SkillReadTelemetryOutcome::CompleteZero);
    assert_eq!(
        telemetry.host_observation_metrics(),
        Some(SkillReadMetrics::default())
    );
    record_exact(&mut telemetry, "session", "turn", Vec::new(), Vec::new());
    assert_eq!(
        telemetry.host_observation_metrics(),
        Some(SkillReadMetrics::default())
    );
    telemetry.register(provenance(
        "session",
        "turn",
        "/skills/one/SKILL.md",
        "sha1:one",
        skill_item("one", "body"),
    ));
    assert_eq!(telemetry.host_observation_metrics(), None);
}

#[test]
fn reads_that_exceed_the_counter_are_withheld() {
    let mut telemetry = SkillReadTelemetry::default();
    let first = skill_item("first", "A");
    let second = skill_item("second", "B");
    telemetry.register(provenance("session", "turn", "/a/SKILL.md", "sha1:a", first.clone()));
    telemetry.register(provenance("session", "turn", "/b/SKILL.md", "sha1:b", second.clone()));
    record_exact(&mut telemetry, "session", "turn", vec![first], vec![u64::MAX]);
    assert_eq!(telemetry.metrics().skill_read_input_tokens, u64::MAX);

    let mut next = exact_terminal(&[second.clone()], &[1], "session", "turn");
    next.receipt.response_id = "response-2".to_string();
    next.terminal.response_id = "response-2".to_string();
    assert_eq!(
        telemetry.record_successful_provider_request(
            "session",
            "turn",
            SkillReadProviderRequest {
                input: vec![second],
                attribution: ProviderRequestAttribution::ExactTerminalReceipt(next),
            },
        ),
        Err(ProviderRequestAttributionError::InputTokenSumOverflow)
    );
    assert_eq!(telemetry.metrics(), SkillReadMetrics::default());
    assert_eq!(telemetry.outcome(), SkillReadTelemetryOutcome::Unavailable);
}

#[test]
fn other_items_of_the_request_are_not_counted() {
    let (mut telemetry, item) = one_skill();
    record_exact(
        &mut telemetry,
        "session",
        "turn",
        vec![skill_item("prompt", "hello"), item],
        vec![100, 5],
    );
    assert_eq!(
        telemetry.host_observation_metrics(),
        Some(SkillReadMetrics { skill_read_calls: 1, skill_read_input_tokens: 5 })
    );
}

/// Validates an attribution for one item of seven tokens, after a change.
fn judged<F>(change: F) -> Option<ProviderRequestAttributionError>
where
    F: FnOnce(&mut ProviderTerminalAttribution),
{
    let input = vec![skill_item("one", "body")];
    let mut attribution = exact_terminal(&input, &[7], "session", "turn");
    change(&mut attribution);
    validate_terminal_attribution(&input, "session", "turn", &attribution).err()
}

#[test]
fn attributions_are_refused_with_their_first_fault() {
    let other = || "other".to_string();
    assert_eq!(judged(|_| {}), None);
    assert_eq!(
        judged(|attribution| attribution.terminal.successful = false),
        Some(ProviderRequestAttributionError::TerminalResponseNotSuccessful)
    );
    assert_eq!(
        judged(|attribution| attribution.final_request_fingerprint.clear()),
        Some(ProviderRequestAttributionError::MissingRequestFingerprint)
    );
    assert_eq!(
        judged(|attribution| attribution.final_request_fingerprint = other()),
        Some(ProviderRequestAttributionError::RequestFingerprintMismatch)
    );
    assert_eq!(
        judged(|attribution| attribution.terminal.session_id = None),
        Some(ProviderRequestAttributionError::MissingSessionId)
    );
    assert_eq!(
        judged(|attribution| attribution.terminal.turn_id = Some(String::new())),
        Some(ProviderRequestAttributionError::MissingTurnId)
    );
    assert_eq!(
        judged(|attribution| attribution.terminal.session_id = Some(other())),
        Some(ProviderRequestAttributionError::SessionIdMismatch)
    );
    assert_eq!(
        judged(|attribution| attribution.receipt.turn_id = other()),
        Some(ProviderRequestAttributionError::TurnIdMismatch)
    );
    assert_eq!(
        judged(|attribution| attribution.receipt.response_id.clear()),
        Some(ProviderRequestAttributionError::MissingResponseId)
    );
    assert_eq!(
        judged(|attribution| attribution.receipt.response_id = other()),
        Some(ProviderRequestAttributionError::ResponseIdMismatch)
    );
    assert_eq!(
        judged(|attribution| attribution.receipt.requested_model.clear()),
        Some(ProviderRequestAttributionError::MissingRequestedModel)
    );
    assert_eq!(
        judged(|attribution| attribution.receipt.requested_model = other()),
        Some(ProviderRequestAttributionError::RequestedModelMismatch)
    );
    assert_eq!(
        judged(|attribution| attribution.receipt.requested_model_fingerprint.clear()),
        Some(ProviderRequestAttributionError::MissingRequestedModelFingerprint)
    );
    assert_eq!(
        judged(|attribution| attribution.receipt.requested_model_fingerprint = other()),
        Some(ProviderRequestAttributionError::RequestedModelFingerprintMismatch)
    );
    assert_eq!(
        judged(|attribution| attribution.receipt.resolved_model.clear()),
        Some(ProviderRequestAttributionError::MissingResolvedModel)
    );
    assert_eq!(
        judged(|attribution| attribution.receipt.resolved_model = other()),
        Some(ProviderRequestAttributionError::ResolvedModelMismatch)
    );
    assert_eq!(
        judged(|attribution| attribution.receipt.resolved_model_fingerprint.clear()),
        Some(ProviderRequestAttributionError::MissingResolvedModelFingerprint)
    );
    assert_eq!(
        judged(|attribution| attribution.receipt.resolved_model_fingerprint = other()),
        Some(ProviderRequestAttributionError::ResolvedModelFingerprintMismatch)
    );
    assert_eq!(
        judged(|attribution| attribution.receipt.provider_transformation_version.clear()),
        Some(ProviderRequestAttributionError::MissingProviderTransformationVersion)
    );
    assert_eq!(
        judged(|attribution| attribution.receipt.tokenizer_accounting_version.clear()),
        Some(ProviderRequestAttributionError::MissingTokenizerAccountingVersion)
    );
    assert_eq!(
        judged(|attribution| attribution.terminal.authoritative_input_tokens = None),
        Some(ProviderRequestAttributionError::MissingAggregateInputTokens)
    );
    assert_eq!(
        judged(|attribution| attribution.receipt.authoritative_input_tokens = 6),
        Some(ProviderRequestAttributionError::AggregateInputTokensMismatch {
            expected: 7,
            actual: 6,
        })
    );
    assert_eq!(
        judged(|attribution| attribution.receipt.input_items.clear()),
        Some(ProviderRequestAttributionError::MissingReceiptInputItemId {
            item_id: "msg_one".to_string(),
        })
    );
}
