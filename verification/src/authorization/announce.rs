//! The announcements of a command, from its preparation to its end.

#[allow(unused_imports)]
use super::classify;
use super::classify::classify_sensitive_command;
use super::classify::command_executable;
use super::classify::SensitiveCommand;
use super::classify::SensitiveCommandView;
#[allow(unused_imports)]
use super::labels;
use super::labels::project_labels;
use super::labels::safe_label;
#[allow(unused_imports)]
use crate::text;
use crate::text::decimal_of;
use crate::text::joined;
use vstd::prelude::*;

verus! {

/// A flag and its value, where there is a value.
pub open spec fn flag_if(flag: Seq<char>, value: Option<Seq<char>>) -> Seq<Seq<char>> {
    match value {
        Some(given) => seq![flag, given],
        None => Seq::empty(),
    }
}

/// The task of a call, where its identifier has a label.
pub open spec fn task_if(task_id: Option<Seq<char>>) -> Seq<Seq<char>> {
    match task_id {
        Some(id) => seq!["--task-id"@, id, "--task-title"@, "Codex unified_exec command"@],
        None => Seq::empty(),
    }
}

/// The label of an optional text.
pub open spec fn label_if(value: Option<Seq<char>>) -> Option<Seq<char>> {
    match value {
        Some(given) => labels::label(given),
        None => None,
    }
}

/// The label of the executable to announce.
pub open spec fn requesting_executable(label: Option<Seq<char>>) -> Seq<char> {
    match label {
        Some(name) => name,
        None => "unknown-executable"@,
    }
}

/// What is known of a command when it is announced: its description, the label of its executable,
/// the repository that it runs in, and the thread and the call that it belongs to.
pub struct AnnouncementView {
    pub described: SensitiveCommandView,
    pub executable: Option<Seq<char>>,
    pub repository: Option<Seq<char>>,
    pub thread_id: Seq<char>,
    pub thread_title: Option<Seq<char>>,
    pub call_id: Seq<char>,
}

impl AnnouncementView {
    /// The arguments that every announcement carries.
    pub open spec fn common(self) -> Seq<Seq<char>> {
        seq![
            "--json"@,
            "control"@,
            "authorization"@,
            "prepare"@,
            "--kind"@,
            self.described.kind,
            "--project"@,
            labels::project_of(self.repository),
            "--action"@,
            self.described.action,
            "--summary"@,
            self.described.summary,
            "--thread-id"@,
            self.thread_id,
            "--source-reference"@,
            "codex://thread/"@ + self.thread_id,
            "--requesting-executable"@,
            requesting_executable(self.executable),
            "--requesting-helper"@,
            "codex-unified-exec"@,
            "--expires-in"@,
            "30"@,
        ]
    }

    /// The arguments that announce the command.
    pub open spec fn arguments(self) -> Seq<Seq<char>> {
        self.common() + flag_if("--repository"@, self.repository) + task_if(
            labels::label(self.call_id),
        ) + flag_if("--thread-title"@, label_if(self.thread_title)) + flag_if(
            "--target-service"@,
            self.described.target_service,
        )
    }
}

/// What is known of a command with this description in this place.
pub open spec fn announcement(
    described: SensitiveCommandView,
    command: Seq<Seq<char>>,
    components: Seq<Seq<char>>,
    thread_id: Seq<char>,
    thread_title: Option<Seq<char>>,
    call_id: Seq<char>,
) -> AnnouncementView {
    AnnouncementView {
        described,
        executable: classify::executable_label(command),
        repository: labels::repository_of(components),
        thread_id,
        thread_title,
        call_id,
    }
}

/// Appends a word to a list of arguments.
fn push_word(args: &mut Vec<String>, word: &str)
    ensures
        text::views(final(args)@) == text::views(old(args)@).push(word@),
{
    let ghost before = args@;
    args.push(word.to_owned());
    proof {
        assert(text::views(args@) =~= text::views(before).push(word@));
    }
}

/// Appends a flag and its value to a list of arguments, where there is a value.
fn push_flag(args: &mut Vec<String>, flag: &str, value: &Option<String>)
    ensures
        text::views(final(args)@) == text::views(old(args)@) + flag_if(
            flag@,
            text::opt_view(*value),
        ),
{
    if let Some(given) = value {
        push_word(args, flag);
        push_word(args, given.as_str());
    }
    proof {
        assert(text::views(args@) =~= text::views(old(args)@) + flag_if(
            flag@,
            text::opt_view(*value),
        ));
    }
}

/// Puts the announcement of a command together. Of the command it takes the description and the
/// label of the executable, and nothing else.
pub fn prepare_arguments(
    described: &SensitiveCommand,
    command: &[String],
    components: &Vec<String>,
    thread_id: &str,
    thread_title: &Option<String>,
    call_id: &str,
) -> (args: Vec<String>)
    ensures
        text::views(args@) == announcement(
            described@,
            text::views(command@),
            text::views(components@),
            thread_id@,
            text::opt_view(*thread_title),
            call_id@,
        ).arguments(),
{
    let ghost known = announcement(
        described@,
        text::views(command@),
        text::views(components@),
        thread_id@,
        text::opt_view(*thread_title),
        call_id@,
    );
    let (project, repository) = project_labels(components);
    let executable = match command_executable(command) {
        Some(name) => name,
        None => "unknown-executable".to_owned(),
    };
    let source_reference = joined("codex://thread/", thread_id);
    let mut args: Vec<String> = Vec::new();
    push_word(&mut args, "--json");
    push_word(&mut args, "control");
    push_word(&mut args, "authorization");
    push_word(&mut args, "prepare");
    push_word(&mut args, "--kind");
    push_word(&mut args, described.kind);
    push_word(&mut args, "--project");
    push_word(&mut args, project.as_str());
    push_word(&mut args, "--action");
    push_word(&mut args, described.action);
    push_word(&mut args, "--summary");
    push_word(&mut args, described.summary);
    push_word(&mut args, "--thread-id");
    push_word(&mut args, thread_id);
    push_word(&mut args, "--source-reference");
    push_word(&mut args, source_reference.as_str());
    push_word(&mut args, "--requesting-executable");
    push_word(&mut args, executable.as_str());
    push_word(&mut args, "--requesting-helper");
    push_word(&mut args, "codex-unified-exec");
    push_word(&mut args, "--expires-in");
    push_word(&mut args, "30");
    proof {
        assert(text::views(args@) =~= known.common());
    }
    push_flag(&mut args, "--repository", &repository);
    let ghost with_repository = text::views(args@);
    if let Some(task_id) = safe_label(call_id) {
        push_word(&mut args, "--task-id");
        push_word(&mut args, task_id.as_str());
        push_word(&mut args, "--task-title");
        push_word(&mut args, "Codex unified_exec command");
    }
    proof {
        assert(text::views(args@) =~= with_repository + task_if(labels::label(call_id@)));
    }
    let title = match thread_title {
        Some(given) => safe_label(given.as_str()),
        None => None,
    };
    push_flag(&mut args, "--thread-title", &title);
    let service = match described.target_service {
        Some(service) => Some(service.to_owned()),
        None => None,
    };
    push_flag(&mut args, "--target-service", &service);
    args
}

/// What announces a command, if it can reach credentials: the announcement of its description.
pub open spec fn announced(
    command: Seq<Seq<char>>,
    components: Seq<Seq<char>>,
    thread_id: Seq<char>,
    thread_title: Option<Seq<char>>,
    call_id: Seq<char>,
) -> Option<Seq<Seq<char>>> {
    match classify::classified(command) {
        Some(described) => Some(
            announcement(
                described,
                command,
                components,
                thread_id,
                thread_title,
                call_id,
            ).arguments(),
        ),
        None => None,
    }
}

/// Puts the announcement of a command together, if it can reach credentials; any other command is
/// left unannounced.
pub fn announce(
    command: &[String],
    components: &Vec<String>,
    thread_id: &str,
    thread_title: &Option<String>,
    call_id: &str,
) -> (args: Option<Vec<String>>)
    ensures
        args is None <==> classify::classified(text::views(command@)) is None,
        opt_words(args) == announced(
            text::views(command@),
            text::views(components@),
            thread_id@,
            text::opt_view(*thread_title),
            call_id@,
        ),
{
    match classify_sensitive_command(command) {
        Some(described) => Some(
            prepare_arguments(&described, command, components, thread_id, thread_title, call_id),
        ),
        None => None,
    }
}

/// What a command says is never announced: two commands with the same description and the same
/// executable label, whatever their arguments, are announced in the same words.
pub proof fn law_announcements_do_not_carry_commands(
    command: Seq<Seq<char>>,
    other: Seq<Seq<char>>,
    described: SensitiveCommandView,
    components: Seq<Seq<char>>,
    thread_id: Seq<char>,
    thread_title: Option<Seq<char>>,
    call_id: Seq<char>,
)
    requires
        classify::classified(command) == Some(described),
        classify::classified(other) == Some(described),
        classify::executable_label(command) == classify::executable_label(other),
    ensures
        announcement(
            described,
            command,
            components,
            thread_id,
            thread_title,
            call_id,
        ).arguments() == announcement(
            described,
            other,
            components,
            thread_id,
            thread_title,
            call_id,
        ).arguments(),
{
}

/// A flag or a fixed word of an announcement.
pub open spec fn fixed_word(word: Seq<char>) -> bool {
    ||| word == "--json"@
    ||| word == "control"@
    ||| word == "authorization"@
    ||| word == "prepare"@
    ||| word == "--kind"@
    ||| word == "--project"@
    ||| word == "--action"@
    ||| word == "--summary"@
    ||| word == "--thread-id"@
    ||| word == "--source-reference"@
    ||| word == "--requesting-executable"@
    ||| word == "unknown-executable"@
    ||| word == "--requesting-helper"@
    ||| word == "codex-unified-exec"@
    ||| word == "--expires-in"@
    ||| word == "30"@
    ||| word == "--repository"@
    ||| word == "unknown-project"@
    ||| word == "--task-id"@
    ||| word == "--task-title"@
    ||| word == "Codex unified_exec command"@
    ||| word == "--thread-title"@
    ||| word == "--target-service"@
}

/// A word of a description.
pub open spec fn described_word(described: SensitiveCommandView, word: Seq<char>) -> bool {
    ||| word == described.kind
    ||| word == described.action
    ||| word == described.summary
    ||| described.target_service == Some(word)
}

/// A short text of plain characters.
pub open spec fn plain_label(word: Seq<char>) -> bool {
    &&& 0 < word.len() <= labels::MAX_LABEL_LEN
    &&& forall|i: int| 0 <= i < word.len() ==> labels::label_char(#[trigger] word[i])
}

/// Only bounded, safe context is announced: each word is a fixed word, a word of the description,
/// a short label of plain characters, or names the thread.
pub proof fn law_announcements_are_safe(
    described: SensitiveCommandView,
    command: Seq<Seq<char>>,
    components: Seq<Seq<char>>,
    thread_id: Seq<char>,
    thread_title: Option<Seq<char>>,
    call_id: Seq<char>,
    i: int,
)
    requires
        0 <= i < announcement(
            described,
            command,
            components,
            thread_id,
            thread_title,
            call_id,
        ).arguments().len(),
    ensures
        ({
            let word = announcement(
                described,
                command,
                components,
                thread_id,
                thread_title,
                call_id,
            ).arguments()[i];
            ||| fixed_word(word)
            ||| described_word(described, word)
            ||| plain_label(word)
            ||| word == thread_id
            ||| word == "codex://thread/"@ + thread_id
        }),
{
    let known = announcement(described, command, components, thread_id, thread_title, call_id);
    if command.len() > 0 {
        labels::law_labels_are_safe(classify::base_name(command[0]));
    }
    labels::law_repository_is_one_component(components);
    if let Some(name) = known.repository {
        let j = choose|j: int|
            0 <= j < components.len() && labels::label(#[trigger] components[j]) == Some(name);
        labels::law_labels_are_safe(components[j]);
    }
    labels::law_labels_are_safe(call_id);
    if let Some(title) = thread_title {
        labels::law_labels_are_safe(title);
    }
    let named = known.common() + flag_if("--repository"@, known.repository);
    let tasked = named + task_if(labels::label(call_id));
    let titled = tasked + flag_if("--thread-title"@, label_if(thread_title));
    let all = titled + flag_if("--target-service"@, described.target_service);
    assert(all == known.arguments());
    if i < known.common().len() {
        assert(all[i] == known.common()[i]);
    } else if i < named.len() {
        assert(all[i] == flag_if("--repository"@, known.repository)[i - known.common().len()]);
    } else if i < tasked.len() {
        assert(all[i] == task_if(labels::label(call_id))[i - named.len()]);
    } else if i < titled.len() {
        assert(all[i] == flag_if("--thread-title"@, label_if(thread_title))[i - tasked.len()]);
    } else {
        assert(all[i] == flag_if("--target-service"@, described.target_service)[i
            - titled.len()]);
    }
}

/// Two commands that run an executable of the same name, in whatever directories, have the same
/// executable label.
pub proof fn law_executable_label_is_of_the_name_alone(
    command: Seq<Seq<char>>,
    other: Seq<Seq<char>>,
)
    requires
        command.len() > 0,
        other.len() > 0,
        classify::base_name(command[0]) == classify::base_name(other[0]),
    ensures
        classify::executable_label(command) == classify::executable_label(other),
{
}

/// The arguments that bind an announcement to a process.
pub open spec fn bond(request_id: Seq<char>, process_id: int) -> Seq<Seq<char>> {
    seq![
        "--json"@,
        "control"@,
        "authorization"@,
        "bind"@,
        request_id,
        "--process-id"@,
        text::decimal(process_id),
    ]
}

/// Puts together the arguments that bind an announcement to a process.
pub fn bind_arguments(request_id: &str, process_id: i32) -> (args: Vec<String>)
    ensures
        text::views(args@) == bond(request_id@, process_id as int),
{
    let mut args: Vec<String> = Vec::new();
    push_word(&mut args, "--json");
    push_word(&mut args, "control");
    push_word(&mut args, "authorization");
    push_word(&mut args, "bind");
    push_word(&mut args, request_id);
    push_word(&mut args, "--process-id");
    push_word(&mut args, decimal_of(process_id).as_str());
    proof {
        assert(text::views(args@) =~= bond(request_id@, process_id as int));
    }
    args
}

/// The arguments that close an announcement with an outcome.
pub open spec fn resolution(request_id: Seq<char>, outcome: Seq<char>) -> Seq<Seq<char>> {
    seq![
        "--json"@,
        "control"@,
        "authorization"@,
        "resolve"@,
        request_id,
        "--outcome"@,
        outcome,
    ]
}

/// The words of an optional list of arguments.
pub open spec fn opt_words(args: Option<Vec<String>>) -> Option<Seq<Seq<char>>> {
    match args {
        Some(words) => Some(text::views(words@)),
        None => None,
    }
}

/// What binds an announcement to a process, if one is open.
pub open spec fn binding(open: Option<Seq<char>>, process_id: int) -> Option<Seq<Seq<char>>> {
    match open {
        Some(request_id) => Some(bond(request_id, process_id)),
        None => None,
    }
}

/// What closes an announcement with an outcome, if one is open.
pub open spec fn closing(open: Option<Seq<char>>, outcome: Seq<char>) -> Option<Seq<Seq<char>>> {
    match open {
        Some(request_id) => Some(resolution(request_id, outcome)),
        None => None,
    }
}

/// The outcome of a command that has ended.
pub open spec fn outcome_of(succeeded: bool) -> Seq<char> {
    if succeeded {
        "completed"@
    } else {
        "failed"@
    }
}

/// Puts together the arguments that close an announcement with an outcome.
pub fn resolve_arguments(request_id: &str, outcome: &str) -> (args: Vec<String>)
    ensures
        text::views(args@) == resolution(request_id@, outcome@),
{
    let mut args: Vec<String> = Vec::new();
    push_word(&mut args, "--json");
    push_word(&mut args, "control");
    push_word(&mut args, "authorization");
    push_word(&mut args, "resolve");
    push_word(&mut args, request_id);
    push_word(&mut args, "--outcome");
    push_word(&mut args, outcome);
    proof {
        assert(text::views(args@) =~= resolution(request_id@, outcome@));
    }
    args
}

/// The response to an announcement.
#[derive(Debug)]
pub struct MacCtlResponse {
    pub result: Option<MacCtlResult>,
}

/// The result in a response.
#[derive(Debug)]
pub struct MacCtlResult {
    pub notice: Option<MacCtlNotice>,
}

/// The notice in a result.
#[derive(Debug)]
pub struct MacCtlNotice {
    pub request_id: Option<String>,
}

/// The request identifier that a response carries.
pub open spec fn carried_request_id(response: Option<MacCtlResponse>) -> Option<Seq<char>> {
    match response {
        Some(response) => match response.result {
            Some(result) => match result.notice {
                Some(notice) => text::opt_view(notice.request_id),
                None => None,
            },
            None => None,
        },
        None => None,
    }
}

/// Takes from a response the label of the request identifier, and nothing else. What could not
/// be read as a response is none.
pub fn parse_request_id(response: Option<MacCtlResponse>) -> (request_id: Option<String>)
    ensures
        text::opt_view(request_id) == label_if(carried_request_id(response)),
{
    match response {
        Some(response) => match response.result {
            Some(result) => match result.notice {
                Some(notice) => match notice.request_id {
                    Some(request_id) => safe_label(request_id.as_str()),
                    None => None,
                },
                None => None,
            },
            None => None,
        },
        None => None,
    }
}

/// What came of running the announcing tool: whether it succeeded, and its output as a response.
#[derive(Debug)]
pub struct MacCtlReply {
    pub success: bool,
    pub response: Option<MacCtlResponse>,
}

/// The identifier that a reply opens an announcement under, if the tool ran, succeeded and gave
/// one.
pub open spec fn opened_request_id(reply: Option<MacCtlReply>) -> Option<Seq<char>> {
    match reply {
        Some(reply) => if reply.success {
            label_if(carried_request_id(reply.response))
        } else {
            None
        },
        None => None,
    }
}

/// Owns one prepared announcement and closes it when the command ends.
#[derive(Debug)]
pub struct MacControlAuthorizationLifecycle {
    request_id: Option<String>,
}

impl View for MacControlAuthorizationLifecycle {
    type V = Option<Seq<char>>;

    closed spec fn view(&self) -> Option<Seq<char>> {
        text::opt_view(self.request_id)
    }
}

impl MacControlAuthorizationLifecycle {
    /// The life of a command that was not announced.
    pub fn unannounced() -> (lifecycle: Self)
        ensures
            lifecycle@ is None,
    {
        MacControlAuthorizationLifecycle { request_id: None }
    }

    /// The life of a command whose announcement got this reply. A tool that is missing or fails
    /// leaves the command unannounced.
    pub fn prepared(reply: Option<MacCtlReply>) -> (lifecycle: Self)
        ensures
            lifecycle@ == opened_request_id(reply),
    {
        let request_id = match reply {
            Some(reply) => if reply.success {
                parse_request_id(reply.response)
            } else {
                None
            },
            None => None,
        };
        MacControlAuthorizationLifecycle { request_id }
    }

    /// What to send when the command's process is known.
    pub fn bind(&self, process_id: i32) -> (args: Option<Vec<String>>)
        ensures
            opt_words(args) == binding(self@, process_id as int),
    {
        match &self.request_id {
            Some(request_id) => Some(bind_arguments(request_id.as_str(), process_id)),
            None => None,
        }
    }

    /// What to send when the command has ended. The announcement is closed with it.
    pub fn resolve_for_result(&mut self, succeeded: bool) -> (args: Option<Vec<String>>)
        ensures
            opt_words(args) == closing(old(self)@, outcome_of(succeeded)),
            final(self)@ is None,
    {
        self.resolve(
            if succeeded {
                "completed"
            } else {
                "failed"
            },
        )
    }

    /// What to send when the command was given up. The announcement is closed with it.
    pub fn cancel(&mut self) -> (args: Option<Vec<String>>)
        ensures
            opt_words(args) == closing(old(self)@, "cancelled"@),
            final(self)@ is None,
    {
        self.resolve("cancelled")
    }

    /// Closes the announcement with an outcome.
    fn resolve(&mut self, outcome: &str) -> (args: Option<Vec<String>>)
        ensures
            opt_words(args) == closing(old(self)@, outcome@),
            final(self)@ is None,
    {
        match self.request_id.take() {
            Some(request_id) => Some(resolve_arguments(request_id.as_str(), outcome)),
            None => None,
        }
    }
}

/// What is sent when a command is closed with one outcome after the other: each closing finds the
/// announcement as the one before has left it.
pub open spec fn closings(open: Option<Seq<char>>, outcomes: Seq<Seq<char>>) -> Seq<Seq<Seq<char>>>
    decreases outcomes.len(),
{
    if outcomes.len() == 0 {
        Seq::empty()
    } else {
        let rest = closings(None, outcomes.drop_first());
        match closing(open, outcomes[0]) {
            Some(words) => seq![words] + rest,
            None => rest,
        }
    }
}

/// An announcement is closed at most once: by the first outcome, whatever follows. A command
/// without an announcement sends nothing.
pub proof fn law_announcements_close_once(open: Option<Seq<char>>, outcomes: Seq<Seq<char>>)
    ensures
        closings(open, outcomes) == (match open {
            Some(request_id) => if outcomes.len() == 0 {
                Seq::empty()
            } else {
                seq![resolution(request_id, outcomes[0])]
            },
            None => Seq::empty(),
        }),
    decreases outcomes.len(),
{
    if outcomes.len() > 0 {
        law_announcements_close_once(None, outcomes.drop_first());
        assert(closings(None, outcomes.drop_first()) =~= Seq::empty());
    }
}

} // verus!
