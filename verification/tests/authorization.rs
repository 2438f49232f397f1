use codex_bridge::authorization::announce::announce;
use codex_bridge::authorization::announce::bind_arguments;
use codex_bridge::authorization::announce::parse_request_id;
use codex_bridge::authorization::announce::prepare_arguments;
use codex_bridge::authorization::announce::resolve_arguments;
use codex_bridge::authorization::announce::MacControlAuthorizationLifecycle;
use codex_bridge::authorization::announce::MacCtlNotice;
use codex_bridge::authorization::announce::MacCtlReply;
use codex_bridge::authorization::announce::MacCtlResponse;
use codex_bridge::authorization::announce::MacCtlResult;
use codex_bridge::authorization::classify::classify_sensitive_command;
use codex_bridge::authorization::classify::command_executable;
use codex_bridge::authorization::classify::first_command_argument;
use codex_bridge::authorization::classify::known_target_service;
use codex_bridge::authorization::classify::SensitiveCommand;
use codex_bridge::authorization::labels::project_labels;
use codex_bridge::authorization::labels::safe_label;
use serde_json::Value;

fn words(list: &[&str]) -> Vec<String> {
    list.iter().map(|word| word.to_string()).collect()
}

/// Reads a response out of JSON, field by field.
fn response(output: &[u8]) -> Option<MacCtlResponse> {
    let value: Value = serde_json::from_slice(output).ok()?;
    let object = value.as_object()?;
    let result = object.get("result").and_then(Value::as_object).map(|result| MacCtlResult {
        notice: result.get("notice").and_then(Value::as_object).map(|notice| MacCtlNotice {
            request_id: notice.get("request_id").and_then(Value::as_str).map(str::to_string),
        }),
    });
    Some(MacCtlResponse { result })
}

fn components(path: &str) -> Vec<String> {
    std::path::Path::new(path)
        .components()
        .filter_map(|component| component.as_os_str().to_str())
        .map(str::to_string)
        .collect()
}

fn reply(success: bool, request_id: &str) -> Option<MacCtlReply> {
    Some(MacCtlReply {
        success,
        response: Some(MacCtlResponse {
            result: Some(MacCtlResult {
                notice: Some(MacCtlNotice { request_id: Some(request_id.to_string()) }),
            }),
        }),
    })
}

#[test]
fn classifies_credential_capable_commands_without_forwarding_command_text() {
    let command = vec![
        "/usr/bin/git".to_string(),
        "push".to_string(),
        "https://github.com/private/repository-with-secret-name".to_string(),
    ];

    let classification = classify_sensitive_command(&command).expect("git push is sensitive");

    assert_eq!(
        classification,
        SensitiveCommand {
            kind: "credential",
            action: "use repository credential",
            summary: "Credential-capable Git operation",
            target_service: Some("github.com"),
        }
    );
    assert!(!classification.summary.contains("private"));
    assert!(!classification.summary.contains("secret"));
    assert!(!classification
        .summary
        .contains("repository-with-secret-name"));
}

#[test]
fn derives_requesting_executable_without_forwarding_command_arguments() {
    let command = vec![
        "/usr/bin/git-credential-osxkeychain".to_string(),
        "get".to_string(),
        "secret=must-not-leave-codex".to_string(),
    ];

    assert_eq!(
        command_executable(&command).as_deref(),
        Some("git-credential-osxkeychain")
    );
}

#[test]
fn leaves_non_sensitive_commands_unannounced() {
    let command = vec![
        "git".to_string(),
        "status".to_string(),
        "--porcelain".to_string(),
    ];

    assert_eq!(classify_sensitive_command(&command), None);
}

#[test]
fn classifies_keychain_and_permission_commands() {
    let keychain = vec![
        "security".to_string(),
        "find-generic-password".to_string(),
        "-s".to_string(),
        "github.com".to_string(),
    ];
    let signing = vec!["/usr/bin/codesign".to_string(), "--sign".to_string()];

    assert_eq!(
        classify_sensitive_command(&keychain),
        Some(SensitiveCommand {
            kind: "keychain",
            action: "read Keychain credential",
            summary: "macOS Keychain access",
            target_service: Some("github.com"),
        })
    );
    assert_eq!(
        classify_sensitive_command(&signing),
        Some(SensitiveCommand {
            kind: "permission",
            action: "use signing identity",
            summary: "Code-signing identity access",
            target_service: None,
        })
    );
}

#[test]
fn parses_only_the_request_id_from_a_macctl_response() {
    let output = br#"{"result":{"notice":{"request_id":"notice-123"}}}"#;

    assert_eq!(parse_request_id(response(output)).as_deref(), Some("notice-123"));
    assert_eq!(parse_request_id(response(br#"{"result":{"notice":null}}"#)), None);
}

#[test]
fn project_labels_use_repository_markers_without_exposing_the_full_path() {
    let cwd = components("/Users/example/projects/mac-control/Sources");

    assert_eq!(
        project_labels(&cwd),
        ("mac-control".to_string(), Some("mac-control".to_string()))
    );
}

#[test]
fn request_ids_become_labels_and_anything_else_is_none() {
    assert_eq!(
        parse_request_id(response(br#"{"result":{"notice":{"request_id":" a/b\n "}}}"#)).as_deref(),
        Some("a_b_")
    );
    assert_eq!(parse_request_id(response(br#"{"result":{"notice":{"request_id":"  "}}}"#)), None);
    assert_eq!(parse_request_id(response(br#"{"result":{}}"#)), None);
    assert_eq!(parse_request_id(response(br#"{}"#)), None);
    assert_eq!(parse_request_id(response(b"not json")), None);
    assert_eq!(
        parse_request_id(Some(MacCtlResponse {
            result: Some(MacCtlResult { notice: Some(MacCtlNotice { request_id: None }) }),
        })),
        None
    );
}

#[test]
fn every_rule_describes_its_command() {
    let credential = |action, summary, target_service| {
        Some(SensitiveCommand { kind: "credential", action, summary, target_service })
    };
    assert_eq!(
        classify_sensitive_command(&words(&["Git-Credential-Manager", "get"])),
        credential("read credential", "Git credential helper access", None)
    );
    assert_eq!(
        classify_sensitive_command(&words(&["git", "credential", "fill"])),
        credential("read credential", "Git credential helper access", None)
    );
    for word in ["clone", "fetch", "ls-remote", "pull", "push", "submodule"] {
        assert_eq!(
            classify_sensitive_command(&words(&["git", "-C", "status", "-v", word])),
            credential("use repository credential", "Credential-capable Git operation", None)
        );
    }
    for word in ["api", "auth", "release", "repo"] {
        assert_eq!(
            classify_sensitive_command(&words(&["gh", word, "gitlab.com"])),
            credential("read credential", "GitHub CLI credential access", Some("github.com"))
        );
    }
    for word in [
        "find-generic-password",
        "FIND-INTERNET-PASSWORD",
        "get-generic-password",
        "add-generic-password",
        "add-internet-password",
    ] {
        assert_eq!(
            classify_sensitive_command(&words(&["security", "-q", word])),
            Some(SensitiveCommand {
                kind: "keychain",
                action: "read Keychain credential",
                summary: "macOS Keychain access",
                target_service: None,
            })
        );
    }
    for executable in ["ssh", "scp", "C:\\tools\\SFTP"] {
        assert_eq!(
            classify_sensitive_command(&words(&[executable, "git@BitBucket.org"])),
            credential(
                "use SSH credential",
                "SSH credential-capable operation",
                Some("bitbucket.org")
            )
        );
    }
    assert_eq!(
        classify_sensitive_command(&words(&["xcrun", "--sdk", "notarytool", "github.com"])),
        credential(
            "use notarization credential",
            "Apple notarization credential access",
            Some("apple.com")
        )
    );
    assert_eq!(
        classify_sensitive_command(&words(&["docker", "login", "docker.io"])),
        credential(
            "read registry credential",
            "Container registry credential access",
            Some("docker.io")
        )
    );
}

#[test]
fn commands_beside_the_rules_are_left_alone() {
    for command in [
        words(&[]),
        words(&[""]),
        words(&["git"]),
        words(&["git", "-C", "push"]),
        words(&["git", "PUSH"]),
        words(&["gh", "issue"]),
        words(&["security", "list-keychains"]),
        words(&["sshd"]),
        words(&["xcrun", "Notarytool"]),
        words(&["docker", "run", "login"]),
        words(&["git-credential"]),
        words(&["/usr/bin/git/"]),
    ] {
        assert_eq!(classify_sensitive_command(&command), None);
    }
}

#[test]
fn first_arguments_are_found_behind_options() {
    assert_eq!(first_command_argument(&words(&[])), None);
    assert_eq!(first_command_argument(&words(&["-C"])), None);
    assert_eq!(first_command_argument(&words(&["-C", "dir", "--git-dir", "-x", "push"])), Some("push"));
    assert_eq!(first_command_argument(&words(&["--work-tree", "a", "-v", "b", "c"])), Some("b"));
    assert_eq!(first_command_argument(&words(&["--git-dir=x", ""])), Some(""));
}

#[test]
fn services_are_known_by_the_first_word_that_names_one() {
    assert_eq!(known_target_service(&words(&["x", "https://GITLAB.com/a", "github.com"])), Some("gitlab.com"));
    assert_eq!(known_target_service(&words(&["gitlab.com+github.com"])), Some("github.com"));
    assert_eq!(known_target_service(&words(&["registry.npmjs.org"])), Some("registry.npmjs.org"));
    assert_eq!(known_target_service(&words(&["www.npmjs.com"])), Some("npmjs.com"));
    assert_eq!(known_target_service(&words(&["docker.i", "o"])), None);
    assert_eq!(known_target_service(&words(&[])), None);
}

#[test]
fn executables_are_labelled_by_their_name() {
    assert_eq!(command_executable(&words(&[])), None);
    assert_eq!(command_executable(&words(&["/bin/"])), None);
    assert_eq!(command_executable(&words(&["C:\\Program Files\\Git.EXE"])).as_deref(), Some("Git.EXE"));
    assert_eq!(command_executable(&words(&["/a/b$c"])).as_deref(), Some("b_c"));
}

#[test]
fn labels_are_short_plain_and_their_own_labels() {
    assert_eq!(safe_label(""), None);
    assert_eq!(safe_label("   "), None);
    assert_eq!(safe_label("  a b  ").as_deref(), Some("a b"));
    assert_eq!(safe_label("\tx/y\u{e9}").as_deref(), Some("_x_y_"));
    let long = "x".repeat(200);
    assert_eq!(safe_label(&long).map(|label| label.len()), Some(96));
    let late = format!("{}tail", " ".repeat(96));
    assert_eq!(safe_label(&late), None);
    let label = safe_label(" A-1_.\u{1f600} ").expect("label");
    assert_eq!(label, "A-1_._");
    assert_eq!(safe_label(&label), Some(label));
}

#[test]
fn repositories_are_found_behind_their_markers() {
    let found = |path: &str| project_labels(&components(path)).1;
    assert_eq!(found("/home/Repos/tool/src").as_deref(), Some("tool"));
    assert_eq!(found("/repos/one/projects/two").as_deref(), Some("two"));
    assert_eq!(found("/repositories/deep/x").as_deref(), Some("deep"));
    assert_eq!(found("/x/projects").as_deref(), Some("projects"));
    assert_eq!(found("/w/worktrees/id/name/src").as_deref(), Some("name"));
    assert_eq!(found("/worktrees/a/b/WORKTREES/c/d").as_deref(), Some("d"));
    assert_eq!(found("/w/worktrees/id").as_deref(), Some("id"));
    assert_eq!(found("/plain/place").as_deref(), Some("place"));
    assert_eq!(
        project_labels(&Vec::new()),
        ("unknown-project".to_string(), None)
    );
}

#[test]
fn announcements_carry_the_whole_context() {
    let command = words(&["/usr/bin/git", "push", "https://github.com/private/secret"]);
    let described = classify_sensitive_command(&command).expect("sensitive");
    let args = prepare_arguments(
        &described,
        &command,
        &components("/Users/example/projects/mac-control"),
        "thread-1",
        &Some("My: thread".to_string()),
        "call-7",
    );
    assert_eq!(
        args,
        words(&[
            "--json", "control", "authorization", "prepare", "--kind", "credential", "--project",
            "mac-control", "--action", "use repository credential", "--summary",
            "Credential-capable Git operation", "--thread-id", "thread-1", "--source-reference",
            "codex://thread/thread-1", "--requesting-executable", "git", "--requesting-helper",
            "codex-unified-exec", "--expires-in", "30", "--repository", "mac-control", "--task-id",
            "call-7", "--task-title", "Codex unified_exec command", "--thread-title",
            "My_ thread", "--target-service", "github.com",
        ])
    );
}

#[test]
fn announcements_leave_out_what_is_not_known() {
    let command = words(&["codesign"]);
    let described = classify_sensitive_command(&command).expect("sensitive");
    let args = prepare_arguments(&described, &words(&["/"]), &Vec::new(), "t", &None, " ");
    assert_eq!(
        args,
        words(&[
            "--json", "control", "authorization", "prepare", "--kind", "permission", "--project",
            "unknown-project", "--action", "use signing identity", "--summary",
            "Code-signing identity access", "--thread-id", "t", "--source-reference",
            "codex://thread/t", "--requesting-executable", "unknown-executable",
            "--requesting-helper", "codex-unified-exec", "--expires-in", "30",
        ])
    );
}

#[test]
fn announcements_do_not_depend_on_the_arguments() {
    let quiet = words(&["/usr/bin/ssh", "host"]);
    let loud = words(&["/opt/bin/ssh", "-i", "secret-key", "other-host"]);
    let described = classify_sensitive_command(&quiet).expect("sensitive");
    assert_eq!(classify_sensitive_command(&loud), Some(described));
    let place = components("/a/b");
    assert_eq!(
        prepare_arguments(&described, &quiet, &place, "t", &None, "c"),
        prepare_arguments(&described, &loud, &place, "t", &None, "c")
    );
}

#[test]
fn binding_and_resolving_name_the_request() {
    assert_eq!(
        bind_arguments("notice-1", 4321),
        words(&["--json", "control", "authorization", "bind", "notice-1", "--process-id", "4321"])
    );
    assert_eq!(bind_arguments("n", i32::MIN)[6], "-2147483648");
    assert_eq!(bind_arguments("n", 0)[6], "0");
    assert_eq!(bind_arguments("n", -7)[6], "-7");
    assert_eq!(
        resolve_arguments("notice-1", "completed"),
        words(&["--json", "control", "authorization", "resolve", "notice-1", "--outcome", "completed"])
    );
}

#[test]
fn announcements_are_closed_once() {
    let mut lifecycle = MacControlAuthorizationLifecycle::prepared(reply(true, "notice-1"));
    assert_eq!(lifecycle.bind(7), Some(bind_arguments("notice-1", 7)));
    assert_eq!(
        lifecycle.resolve_for_result(true),
        Some(resolve_arguments("notice-1", "completed"))
    );
    assert_eq!(lifecycle.bind(7), None);
    assert_eq!(lifecycle.resolve_for_result(false), None);
    assert_eq!(lifecycle.cancel(), None);

    let mut failed = MacControlAuthorizationLifecycle::prepared(reply(true, "n"));
    assert_eq!(failed.resolve_for_result(false), Some(resolve_arguments("n", "failed")));

    let mut dropped = MacControlAuthorizationLifecycle::prepared(reply(true, "n"));
    assert_eq!(dropped.cancel(), Some(resolve_arguments("n", "cancelled")));
}

#[test]
fn failing_tools_leave_a_command_unannounced() {
    for mut lifecycle in [
        MacControlAuthorizationLifecycle::unannounced(),
        MacControlAuthorizationLifecycle::prepared(None),
        MacControlAuthorizationLifecycle::prepared(reply(false, "notice-1")),
        MacControlAuthorizationLifecycle::prepared(Some(MacCtlReply { success: true, response: None })),
    ] {
        assert_eq!(lifecycle.bind(1), None);
        assert_eq!(lifecycle.resolve_for_result(true), None);
        assert_eq!(lifecycle.cancel(), None);
    }
}

#[test]
fn only_sensitive_commands_are_announced() {
    let place = components("/a/b");
    let quiet = words(&["git", "status"]);
    assert_eq!(announce(&quiet, &place, "t", &None, "c"), None);
    let sensitive = words(&["git", "push"]);
    let described = classify_sensitive_command(&sensitive).expect("sensitive");
    assert_eq!(
        announce(&sensitive, &place, "t", &None, "c"),
        Some(prepare_arguments(&described, &sensitive, &place, "t", &None, "c"))
    );
}
