use codex_bridge::skills::emission::explicit_skill_invocations;
use codex_bridge::skills::emission::ImplicitSkillInvocations;
use codex_bridge::skills::emission::SkillCounter;
use codex_bridge::skills::emission::SkillInvocation;
use codex_bridge::skills::emission::SkillMetadata;
use codex_bridge::skills::emission::SKILL_INJECTED_COUNTER;
use codex_bridge::skills::invocations::decode_row;
use codex_bridge::skills::invocations::encode_row;
use codex_bridge::skills::invocations::merge_row;
use codex_bridge::skills::invocations::skill_scope_as_str;
use codex_bridge::skills::invocations::skill_scope_from_str;
use codex_bridge::skills::invocations::SkillInvocationError;
use codex_bridge::skills::invocations::SkillInvocationRecord;
use codex_bridge::skills::invocations::SkillInvocationRow;
use codex_bridge::skills::invocations::SkillInvocationStatus;
use codex_bridge::skills::invocations::SkillInvocationType;
use codex_bridge::skills::invocations::SkillScope;
use codex_bridge::skills::order::is_listed_before;
use codex_bridge::skills::order::is_text_below;
use codex_bridge::skills::table::SkillInvocationTable;

fn record(
    thread_id: &str,
    status: SkillInvocationStatus,
    occurred_at_ms: i64,
) -> SkillInvocationRecord {
    SkillInvocationRecord {
        thread_id: thread_id.to_string(),
        turn_id: "turn-1".to_string(),
        skill_name: "example".to_string(),
        skill_path: "/skills/example/SKILL.md".to_string(),
        skill_scope: SkillScope::User,
        invocation_type: SkillInvocationType::Explicit,
        status,
        occurred_at_ms,
    }
}

#[test]
fn records_skill_invocations_idempotently_and_upgrades_success() {
    let mut table = SkillInvocationTable::new();
    let thread_id = "00000000-0000-0000-0000-000000000048";

    table.record_skill_invocations(&vec![record(thread_id, SkillInvocationStatus::Error, 2_000)]);
    table.record_skill_invocations(&vec![record(thread_id, SkillInvocationStatus::Success, 3_000)]);

    assert_eq!(
        table.skill_invocation_records(),
        vec![record(thread_id, SkillInvocationStatus::Success, 2_000)]
    );
}

#[test]
fn keeps_explicit_and_implicit_invocations_distinct() {
    let mut table = SkillInvocationTable::new();
    let thread_id = "00000000-0000-0000-0000-000000000049";
    let explicit = record(thread_id, SkillInvocationStatus::Success, 1_000);
    let implicit = SkillInvocationRecord {
        invocation_type: SkillInvocationType::Implicit,
        occurred_at_ms: 2_000,
        ..explicit.clone()
    };

    table.record_skill_invocations(&vec![explicit.clone(), implicit.clone()]);

    assert_eq!(table.skill_invocation_records(), vec![explicit, implicit]);
}

#[test]
fn recording_twice_changes_nothing() {
    let mut table = SkillInvocationTable::new();
    let one = record("t", SkillInvocationStatus::Error, 5);
    table.record_skill_invocation(&one);
    table.record_skill_invocation(&one);
    table.record_skill_invocations(&Vec::new());
    assert_eq!(table.skill_invocation_records(), vec![one]);
}

#[test]
fn merging_takes_the_later_name_and_scope_and_the_earlier_time() {
    let mut table = SkillInvocationTable::new();
    let first = record("t", SkillInvocationStatus::Success, 9);
    let second = SkillInvocationRecord {
        skill_name: "renamed".to_string(),
        skill_scope: SkillScope::Admin,
        status: SkillInvocationStatus::Error,
        occurred_at_ms: 4,
        ..first.clone()
    };
    table.record_skill_invocations(&vec![first.clone(), second.clone()]);
    let merged = SkillInvocationRecord {
        status: SkillInvocationStatus::Success,
        ..second.clone()
    };
    assert_eq!(table.skill_invocation_records(), vec![merged]);
    assert!(first.same_event_as(&second));

    let failed = record("t", SkillInvocationStatus::Error, 1);
    assert_eq!(failed.merge(&failed).status, SkillInvocationStatus::Error);
}

#[test]
fn events_differ_by_thread_turn_path_and_type() {
    let base = record("t", SkillInvocationStatus::Success, 1);
    let mut others = vec![base.clone(), base.clone(), base.clone(), base.clone()];
    others[0].thread_id = "u".to_string();
    others[1].turn_id = "turn-2".to_string();
    others[2].skill_path = "/other/SKILL.md".to_string();
    others[3].invocation_type = SkillInvocationType::Implicit;
    let mut table = SkillInvocationTable::new();
    table.record_skill_invocation(&base);
    table.record_skill_invocations(&others);
    assert_eq!(table.skill_invocation_records().len(), 5);
    for other in &others {
        assert!(!base.same_event_as(other));
    }
}

#[test]
fn records_are_listed_by_time_thread_turn_and_path() {
    let make = |at: i64, thread: &str, turn: &str, path: &str| SkillInvocationRecord {
        thread_id: thread.to_string(),
        turn_id: turn.to_string(),
        skill_path: path.to_string(),
        ..record("t", SkillInvocationStatus::Success, at)
    };
    let sorted = vec![
        make(-3, "z", "z", "z"),
        make(1, "a", "b", "a"),
        make(1, "a", "b", "b"),
        make(1, "a", "c", "a"),
        make(1, "b", "a", "a"),
        make(2, "a", "a", "a"),
    ];
    let mut table = SkillInvocationTable::new();
    for i in [3, 0, 5, 2, 4, 1] {
        table.record_skill_invocation(&sorted[i]);
    }
    assert_eq!(table.skill_invocation_records(), sorted);
    for i in 0..sorted.len() {
        for j in 0..sorted.len() {
            assert_eq!(is_listed_before(&sorted[i], &sorted[j]), i < j);
        }
    }
}

#[test]
fn texts_are_ordered_by_their_characters() {
    assert!(is_text_below("", "a"));
    assert!(is_text_below("a", "ab"));
    assert!(is_text_below("B", "a"));
    assert!(is_text_below("a", "\u{e9}"));
    assert!(is_text_below("\u{ffff}", "\u{10000}"));
    assert!(!is_text_below("a", "a"));
    assert!(!is_text_below("b", "ab"));
}

#[test]
fn words_are_read_back_and_others_refused() {
    for invocation_type in [SkillInvocationType::Explicit, SkillInvocationType::Implicit] {
        assert_eq!(SkillInvocationType::from_str(invocation_type.as_str()), Ok(invocation_type));
    }
    for status in [SkillInvocationStatus::Success, SkillInvocationStatus::Error] {
        assert_eq!(SkillInvocationStatus::from_str(status.as_str()), Ok(status));
    }
    for scope in [SkillScope::User, SkillScope::Repo, SkillScope::System, SkillScope::Admin] {
        assert_eq!(skill_scope_from_str(skill_scope_as_str(scope)), Ok(scope));
    }
    assert_eq!(SkillInvocationType::Explicit.as_str(), "explicit");
    assert_eq!(SkillInvocationType::Implicit.as_str(), "implicit");
    assert_eq!(SkillInvocationStatus::Success.as_str(), "ok");
    assert_eq!(SkillInvocationStatus::Error.as_str(), "error");
    assert_eq!(skill_scope_as_str(SkillScope::System), "system");
    let message = |error: SkillInvocationError| error.message();
    assert_eq!(
        SkillInvocationType::from_str("Explicit").map_err(message),
        Err("unknown skill invocation type Explicit".to_string())
    );
    assert_eq!(
        SkillInvocationStatus::from_str("").map_err(message),
        Err("unknown skill invocation status ".to_string())
    );
    assert_eq!(
        skill_scope_from_str("root").map_err(message),
        Err("unknown skill scope root".to_string())
    );
}

#[test]
fn rows_are_read_back_and_faulty_ones_refused() {
    let stored = record("t", SkillInvocationStatus::Error, -7);
    assert_eq!(
        encode_row(&stored),
        SkillInvocationRow {
            thread_id: Some("t".to_string()),
            turn_id: "turn-1".to_string(),
            skill_name: "example".to_string(),
            skill_path: "/skills/example/SKILL.md".to_string(),
            skill_scope: "user".to_string(),
            invocation_type: "explicit".to_string(),
            status: "error".to_string(),
            occurred_at_ms: -7,
        }
    );
    assert_eq!(decode_row(encode_row(&stored)), Ok(stored.clone()));

    let mut row = encode_row(&stored);
    row.status = "x".to_string();
    row.invocation_type = "y".to_string();
    row.skill_scope = "z".to_string();
    row.thread_id = None;
    assert_eq!(decode_row(row), Err(SkillInvocationError::InvalidThreadId));

    let mut row = encode_row(&stored);
    row.invocation_type = "y".to_string();
    row.skill_scope = "z".to_string();
    assert_eq!(
        decode_row(row),
        Err(SkillInvocationError::UnknownSkillScope { value: "z".to_string() })
    );

    let mut row = encode_row(&stored);
    row.status = "x".to_string();
    row.invocation_type = "y".to_string();
    assert_eq!(
        decode_row(row),
        Err(SkillInvocationError::UnknownInvocationType { value: "y".to_string() })
    );

    let mut row = encode_row(&stored);
    row.status = "x".to_string();
    assert_eq!(
        decode_row(row),
        Err(SkillInvocationError::UnknownInvocationStatus { value: "x".to_string() })
    );
    assert_eq!(SkillInvocationError::InvalidThreadId.message(), "invalid thread id");
}

fn skill(name: &str, path: &str) -> SkillMetadata {
    SkillMetadata {
        name: name.to_string(),
        path_to_skills_md: path.to_string(),
        scope: SkillScope::Repo,
        plugin_id: Some("plugin".to_string()),
        remote_plugin_id: None,
    }
}

fn event(name: &str, path: &str, invocation_type: SkillInvocationType) -> SkillInvocation {
    SkillInvocation {
        skill_name: name.to_string(),
        skill_scope: SkillScope::Repo,
        skill_path: path.to_string(),
        plugin_id: Some("plugin".to_string()),
        remote_plugin_id: None,
        invocation_type,
    }
}

#[test]
fn explicit_mentions_succeed_when_they_were_injected() {
    let mentioned = vec![skill("a", "/a/SKILL.md"), skill("b", "/b/SKILL.md")];
    let injected = vec![skill("b", "/b/SKILL.md"), skill("c", "/c/SKILL.md")];
    let given = explicit_skill_invocations("thread", "turn", &mentioned, &injected, 42);
    let counter = |name: &str, status| SkillCounter {
        status,
        skill_name: name.to_string(),
        invocation_type: SkillInvocationType::Explicit,
    };
    assert_eq!(
        given.counters,
        vec![
            counter("a", SkillInvocationStatus::Error),
            counter("b", SkillInvocationStatus::Success)
        ]
    );
    let record = |name: &str, path: &str, status| SkillInvocationRecord {
        thread_id: "thread".to_string(),
        turn_id: "turn".to_string(),
        skill_name: name.to_string(),
        skill_path: path.to_string(),
        skill_scope: SkillScope::Repo,
        invocation_type: SkillInvocationType::Explicit,
        status,
        occurred_at_ms: 42,
    };
    assert_eq!(
        given.records,
        vec![
            record("a", "/a/SKILL.md", SkillInvocationStatus::Error),
            record("b", "/b/SKILL.md", SkillInvocationStatus::Success)
        ]
    );
    assert_eq!(
        given.events,
        vec![
            event("b", "/b/SKILL.md", SkillInvocationType::Explicit),
            event("c", "/c/SKILL.md", SkillInvocationType::Explicit)
        ]
    );
    assert_eq!(SKILL_INJECTED_COUNTER, "codex.skill.injected");
}

#[test]
fn implicit_uses_count_once_a_turn() {
    let mut turn = ImplicitSkillInvocations::default();
    let first = turn
        .observe("thread", "turn", &skill("a", "/a/SKILL.md"), 7)
        .expect("first use");
    assert_eq!(
        first.counter,
        SkillCounter {
            status: SkillInvocationStatus::Success,
            skill_name: "a".to_string(),
            invocation_type: SkillInvocationType::Implicit,
        }
    );
    assert_eq!(first.event, event("a", "/a/SKILL.md", SkillInvocationType::Implicit));
    assert_eq!(first.record.status, SkillInvocationStatus::Success);
    assert_eq!(first.record.invocation_type, SkillInvocationType::Implicit);
    assert_eq!(first.record.occurred_at_ms, 7);
    assert!(turn.observe("thread", "turn", &skill("a", "/a/SKILL.md"), 8).is_none());
    assert!(turn.observe("thread", "turn", &skill("b", "/a/SKILL.md"), 9).is_some());
    assert!(ImplicitSkillInvocations::new()
        .observe("thread", "turn", &skill("a", "/a/SKILL.md"), 8)
        .is_some());
}

#[test]
fn rows_merge_as_their_records_do() {
    let statuses = [SkillInvocationStatus::Success, SkillInvocationStatus::Error];
    for stored_status in statuses {
        for status in statuses {
            for stored_at in [1, 5, 9] {
                let stored = record("t", stored_status, stored_at);
                let incoming = SkillInvocationRecord {
                    skill_name: "renamed".to_string(),
                    ..record("t", status, 5)
                };
                assert_eq!(
                    merge_row(stored_status.as_str(), stored_at, &incoming),
                    encode_row(&stored.merge(&incoming))
                );
            }
        }
    }
    let failed = record("t", SkillInvocationStatus::Error, 5);
    assert_eq!(merge_row("unreadable", 9, &failed), encode_row(&failed));
}
