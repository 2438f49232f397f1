//! Which commands can reach credentials, and how they are described.

#[allow(unused_imports)]
use super::labels;
use super::labels::safe_label;
#[allow(unused_imports)]
use crate::text;
use crate::text::chars_of;
use crate::text::contains;
use crate::text::lowercase;
use crate::text::starts_with;
use crate::text::str_eq;
use crate::text::string_of;
use vstd::prelude::*;

verus! {

/// How a command that can reach credentials is described: in words of this module alone.
#[derive(Debug, Clone, Copy, PartialEq, Eq)]
pub struct SensitiveCommand {
    pub kind: &'static str,
    pub action: &'static str,
    pub summary: &'static str,
    pub target_service: Option<&'static str>,
}

/// What a [`SensitiveCommand`] holds.
pub struct SensitiveCommandView {
    pub kind: Seq<char>,
    pub action: Seq<char>,
    pub summary: Seq<char>,
    pub target_service: Option<Seq<char>>,
}

/// The characters behind an optional word.
pub open spec fn opt_word(value: Option<&'static str>) -> Option<Seq<char>> {
    match value {
        Some(word) => Some(word@),
        None => None,
    }
}

impl View for SensitiveCommand {
    type V = SensitiveCommandView;

    open spec fn view(&self) -> SensitiveCommandView {
        SensitiveCommandView {
            kind: self.kind@,
            action: self.action@,
            summary: self.summary@,
            target_service: opt_word(self.target_service),
        }
    }
}

/// The index after the last path separator among the first `n` characters.
pub open spec fn name_begin(path: Seq<char>, n: int) -> int
    decreases n,
{
    if n <= 0 || n > path.len() {
        0
    } else if path[n - 1] == '/' || path[n - 1] == '\\' {
        n
    } else {
        name_begin(path, n - 1)
    }
}

/// What stands after the last path separator.
pub open spec fn base_name(path: Seq<char>) -> Seq<char> {
    path.subrange(name_begin(path, path.len() as int), path.len() as int)
}

proof fn lemma_name_begin(path: Seq<char>, n: int)
    requires
        0 <= n <= path.len(),
    ensures
        0 <= name_begin(path, n) <= n,
    decreases n,
{
    if n > 0 {
        lemma_name_begin(path, n - 1);
    }
}

/// Finds what stands after the last path separator.
fn file_name(path: &str) -> (name: String)
    ensures
        name@ == base_name(path@),
{
    let chars = chars_of(path);
    let mut n: usize = chars.len();
    while n > 0 && chars[n - 1] != '/' && chars[n - 1] != '\\'
        invariant
            chars@ == path@,
            n <= chars@.len(),
            name_begin(path@, path@.len() as int) == name_begin(path@, n as int),
        decreases n,
    {
        n -= 1;
    }
    proof {
        lemma_name_begin(path@, path@.len() as int);
    }
    string_of(&chars, n, chars.len())
}

/// An option that takes the next argument as its value.
pub open spec fn takes_value(argument: Seq<char>) -> bool {
    argument == "-C"@ || argument == "--git-dir"@ || argument == "--work-tree"@
}

/// The first argument from index `i` on that is neither an option nor an option's value.
pub open spec fn first_argument(args: Seq<Seq<char>>, i: int) -> Option<Seq<char>>
    decreases args.len() + 1 - i,
{
    if i < 0 || i >= args.len() {
        None
    } else if takes_value(args[i]) {
        first_argument(args, i + 2)
    } else if text::begins(args[i], "-"@) {
        first_argument(args, i + 1)
    } else {
        Some(args[i])
    }
}

/// Finds the first argument that is neither an option nor an option's value.
pub fn first_command_argument<'a>(args: &'a [String]) -> (found: Option<&'a str>)
    ensures
        match found {
            Some(argument) => first_argument(text::views(args@), 0) == Some(argument@),
            None => first_argument(text::views(args@), 0) is None,
        },
{
    let ghost all = text::views(args@);
    let mut skip_next = false;
    let mut i: usize = 0;
    while i < args.len()
        invariant
            all == text::views(args@),
            i <= args@.len(),
            first_argument(all, 0) == if skip_next {
                first_argument(all, i + 1)
            } else {
                first_argument(all, i as int)
            },
        decreases args@.len() - i,
    {
        proof {
            assert(all[i as int] == args@[i as int]@);
        }
        let argument = args[i].as_str();
        if skip_next {
            skip_next = false;
        } else if str_eq(argument, "-C") || str_eq(argument, "--git-dir") || str_eq(
            argument,
            "--work-tree",
        ) {
            skip_next = true;
        } else if !starts_with(argument, "-") {
            return Some(argument);
        }
        i += 1;
    }
    None
}

/// The known service that a text names, the first of the list where it names several.
pub open spec fn named_service(argument: Seq<char>) -> Option<Seq<char>> {
    if text::holds(argument, "github.com"@) {
        Some("github.com"@)
    } else if text::holds(argument, "gitlab.com"@) {
        Some("gitlab.com"@)
    } else if text::holds(argument, "bitbucket.org"@) {
        Some("bitbucket.org"@)
    } else if text::holds(argument, "registry.npmjs.org"@) {
        Some("registry.npmjs.org"@)
    } else if text::holds(argument, "npmjs.com"@) {
        Some("npmjs.com"@)
    } else if text::holds(argument, "docker.io"@) {
        Some("docker.io"@)
    } else if text::holds(argument, "apple.com"@) {
        Some("apple.com"@)
    } else {
        None
    }
}

/// The known service that the first word from index `i` on to name one names, whatever its case.
pub open spec fn target_service(command: Seq<Seq<char>>, i: int) -> Option<Seq<char>>
    decreases command.len() - i,
{
    if i < 0 || i >= command.len() {
        None
    } else {
        match named_service(text::lower(command[i])) {
            Some(service) => Some(service),
            None => target_service(command, i + 1),
        }
    }
}

/// Finds the known service that a text names.
fn find_named_service(argument: &str) -> (service: Option<&'static str>)
    ensures
        opt_word(service) == named_service(argument@),
{
    if contains(argument, "github.com") {
        Some("github.com")
    } else if contains(argument, "gitlab.com") {
        Some("gitlab.com")
    } else if contains(argument, "bitbucket.org") {
        Some("bitbucket.org")
    } else if contains(argument, "registry.npmjs.org") {
        Some("registry.npmjs.org")
    } else if contains(argument, "npmjs.com") {
        Some("npmjs.com")
    } else if contains(argument, "docker.io") {
        Some("docker.io")
    } else if contains(argument, "apple.com") {
        Some("apple.com")
    } else {
        None
    }
}

/// Finds the known service that a command names.
pub fn known_target_service(command: &[String]) -> (service: Option<&'static str>)
    ensures
        opt_word(service) == target_service(text::views(command@), 0),
{
    let ghost all = text::views(command@);
    let mut i: usize = 0;
    while i < command.len()
        invariant
            all == text::views(command@),
            i <= command@.len(),
            target_service(all, 0) == target_service(all, i as int),
        decreases command@.len() - i,
    {
        proof {
            assert(all[i as int] == command@[i as int]@);
        }
        let small = lowercase(command[i].as_str());
        let service = find_named_service(small.as_str());
        if service.is_some() {
            return service;
        }
        i += 1;
    }
    None
}

/// A word of the Keychain tool that reads or writes a password.
pub open spec fn keychain_word(argument: Seq<char>) -> bool {
    ||| argument == "find-generic-password"@
    ||| argument == "find-internet-password"@
    ||| argument == "get-generic-password"@
    ||| argument == "add-generic-password"@
    ||| argument == "add-internet-password"@
}

/// A Git command that can use a repository's credential.
pub open spec fn git_remote_word(argument: Option<Seq<char>>) -> bool {
    ||| argument == Some("clone"@)
    ||| argument == Some("fetch"@)
    ||| argument == Some("ls-remote"@)
    ||| argument == Some("pull"@)
    ||| argument == Some("push"@)
    ||| argument == Some("submodule"@)
}

/// A GitHub command that can use a credential.
pub open spec fn github_word(argument: Option<Seq<char>>) -> bool {
    ||| argument == Some("api"@)
    ||| argument == Some("auth"@)
    ||| argument == Some("release"@)
    ||| argument == Some("repo"@)
}

/// The description of a command with this executable and these arguments, the first that applies.
pub open spec fn description(
    executable: Seq<char>,
    args: Seq<Seq<char>>,
    service: Option<Seq<char>>,
) -> Option<SensitiveCommandView> {
    let first = first_argument(args, 0);
    if text::begins(executable, "git-credential-"@) || (executable == "git"@ && first == Some(
        "credential"@,
    )) {
        Some(
            SensitiveCommandView {
                kind: "credential"@,
                action: "read credential"@,
                summary: "Git credential helper access"@,
                target_service: service,
            },
        )
    } else if executable == "git"@ && git_remote_word(first) {
        Some(
            SensitiveCommandView {
                kind: "credential"@,
                action: "use repository credential"@,
                summary: "Credential-capable Git operation"@,
                target_service: service,
            },
        )
    } else if executable == "gh"@ && github_word(first) {
        Some(
            SensitiveCommandView {
                kind: "credential"@,
                action: "read credential"@,
                summary: "GitHub CLI credential access"@,
                target_service: Some("github.com"@),
            },
        )
    } else if executable == "security"@ && exists|i: int|
        0 <= i < args.len() && keychain_word(text::lower(#[trigger] args[i])) {
        Some(
            SensitiveCommandView {
                kind: "keychain"@,
                action: "read Keychain credential"@,
                summary: "macOS Keychain access"@,
                target_service: service,
            },
        )
    } else if executable == "ssh"@ || executable == "scp"@ || executable == "sftp"@ {
        Some(
            SensitiveCommandView {
                kind: "credential"@,
                action: "use SSH credential"@,
                summary: "SSH credential-capable operation"@,
                target_service: service,
            },
        )
    } else if executable == "codesign"@ {
        Some(
            SensitiveCommandView {
                kind: "permission"@,
                action: "use signing identity"@,
                summary: "Code-signing identity access"@,
                target_service: None,
            },
        )
    } else if executable == "xcrun"@ && exists|i: int|
        0 <= i < args.len() && #[trigger] args[i] == "notarytool"@ {
        Some(
            SensitiveCommandView {
                kind: "credential"@,
                action: "use notarization credential"@,
                summary: "Apple notarization credential access"@,
                target_service: Some("apple.com"@),
            },
        )
    } else if executable == "docker"@ && first == Some("login"@) {
        Some(
            SensitiveCommandView {
                kind: "credential"@,
                action: "read registry credential"@,
                summary: "Container registry credential access"@,
                target_service: service,
            },
        )
    } else {
        None
    }
}

/// The description of a command: by its executable's name, whatever its directory and case, and
/// its arguments.
pub open spec fn classified(command: Seq<Seq<char>>) -> Option<SensitiveCommandView> {
    if command.len() == 0 {
        None
    } else {
        description(
            text::lower(base_name(command[0])),
            command.subrange(1, command.len() as int),
            target_service(command, 0),
        )
    }
}

/// Decides whether an argument names a Keychain password.
fn is_keychain_word(argument: &str) -> (found: bool)
    ensures
        found == keychain_word(argument@),
{
    str_eq(argument, "find-generic-password") || str_eq(argument, "find-internet-password")
        || str_eq(argument, "get-generic-password") || str_eq(argument, "add-generic-password")
        || str_eq(argument, "add-internet-password")
}

/// Decides whether some argument names a Keychain password, whatever its case.
fn any_keychain_word(args: &[String]) -> (found: bool)
    ensures
        found == exists|i: int|
            0 <= i < text::views(args@).len() && keychain_word(
                text::lower(#[trigger] text::views(args@)[i]),
            ),
{
    let ghost all = text::views(args@);
    let mut i: usize = 0;
    while i < args.len()
        invariant
            all == text::views(args@),
            i <= args@.len(),
            forall|j: int| 0 <= j < i ==> !keychain_word(text::lower(#[trigger] all[j])),
        decreases args@.len() - i,
    {
        proof {
            assert(all[i as int] == args@[i as int]@);
        }
        if is_keychain_word(lowercase(args[i].as_str()).as_str()) {
            return true;
        }
        i += 1;
    }
    false
}

/// Decides whether some argument reads `word`.
fn any_argument_is(args: &[String], word: &str) -> (found: bool)
    ensures
        found == exists|i: int|
            0 <= i < text::views(args@).len() && #[trigger] text::views(args@)[i] == word@,
{
    let ghost all = text::views(args@);
    let mut i: usize = 0;
    while i < args.len()
        invariant
            all == text::views(args@),
            i <= args@.len(),
            forall|j: int| 0 <= j < i ==> #[trigger] all[j] != word@,
        decreases args@.len() - i,
    {
        proof {
            assert(all[i as int] == args@[i as int]@);
        }
        if str_eq(args[i].as_str(), word) {
            return true;
        }
        i += 1;
    }
    false
}

/// Decides whether a found argument reads `word`.
fn found_is(found: &Option<&str>, word: &str) -> (same: bool)
    ensures
        same == (match *found {
            Some(argument) => argument@ == word@,
            None => false,
        }),
{
    match found {
        Some(argument) => str_eq(argument, word),
        None => false,
    }
}

/// Describes a command that can reach credentials; answers nothing of any other.
pub fn classify_sensitive_command(command: &[String]) -> (classification: Option<SensitiveCommand>)
    ensures
        match classification {
            Some(sensitive) => classified(text::views(command@)) == Some(sensitive@),
            None => classified(text::views(command@)) is None,
        },
{
    if command.len() == 0 {
        return None;
    }
    let executable = lowercase(file_name(command[0].as_str()).as_str());
    let args = vstd::slice::slice_subrange(command, 1, command.len());
    let first = first_command_argument(args);
    let target_service = known_target_service(command);
    proof {
        let all = text::views(command@);
        assert(all[0] == command@[0]@);
        assert(text::views(args@) =~= all.subrange(1, all.len() as int));
    }
    let name = executable.as_str();
    let is_git = str_eq(name, "git");
    if starts_with(name, "git-credential-") || (is_git && found_is(&first, "credential")) {
        return Some(
            SensitiveCommand {
                kind: "credential",
                action: "read credential",
                summary: "Git credential helper access",
                target_service,
            },
        );
    }
    if is_git && (found_is(&first, "clone") || found_is(&first, "fetch") || found_is(
        &first,
        "ls-remote",
    ) || found_is(&first, "pull") || found_is(&first, "push") || found_is(&first, "submodule")) {
        return Some(
            SensitiveCommand {
                kind: "credential",
                action: "use repository credential",
                summary: "Credential-capable Git operation",
                target_service,
            },
        );
    }
    if str_eq(name, "gh") && (found_is(&first, "api") || found_is(&first, "auth") || found_is(
        &first,
        "release",
    ) || found_is(&first, "repo")) {
        return Some(
            SensitiveCommand {
                kind: "credential",
                action: "read credential",
                summary: "GitHub CLI credential access",
                target_service: Some("github.com"),
            },
        );
    }
    if str_eq(name, "security") && any_keychain_word(args) {
        return Some(
            SensitiveCommand {
                kind: "keychain",
                action: "read Keychain credential",
                summary: "macOS Keychain access",
                target_service,
            },
        );
    }
    if str_eq(name, "ssh") || str_eq(name, "scp") || str_eq(name, "sftp") {
        return Some(
            SensitiveCommand {
                kind: "credential",
                action: "use SSH credential",
                summary: "SSH credential-capable operation",
                target_service,
            },
        );
    }
    if str_eq(name, "codesign") {
        return Some(
            SensitiveCommand {
                kind: "permission",
                action: "use signing identity",
                summary: "Code-signing identity access",
                target_service: None,
            },
        );
    }
    if str_eq(name, "xcrun") && any_argument_is(args, "notarytool") {
        return Some(
            SensitiveCommand {
                kind: "credential",
                action: "use notarization credential",
                summary: "Apple notarization credential access",
                target_service: Some("apple.com"),
            },
        );
    }
    if str_eq(name, "docker") && found_is(&first, "login") {
        return Some(
            SensitiveCommand {
                kind: "credential",
                action: "read registry credential",
                summary: "Container registry credential access",
                target_service,
            },
        );
    }
    None
}

/// The label of the executable that a command runs, without its directory.
pub open spec fn executable_label(command: Seq<Seq<char>>) -> Option<Seq<char>> {
    if command.len() == 0 {
        None
    } else {
        labels::label(base_name(command[0]))
    }
}

/// Labels the executable that a command runs, without its directory and its arguments.
pub fn command_executable(command: &[String]) -> (executable: Option<String>)
    ensures
        text::opt_view(executable) == executable_label(text::views(command@)),
{
    if command.len() == 0 {
        return None;
    }
    proof {
        assert(text::views(command@)[0] == command@[0]@);
    }
    safe_label(file_name(command[0].as_str()).as_str())
}

/// A service that may be named in an announcement.
pub open spec fn known_service(service: Seq<char>) -> bool {
    ||| service == "github.com"@
    ||| service == "gitlab.com"@
    ||| service == "bitbucket.org"@
    ||| service == "registry.npmjs.org"@
    ||| service == "npmjs.com"@
    ||| service == "docker.io"@
    ||| service == "apple.com"@
}

proof fn lemma_target_service_is_known(command: Seq<Seq<char>>, i: int)
    requires
        0 <= i <= command.len(),
    ensures
        target_service(command, i) matches Some(service) ==> known_service(service),
    decreases command.len() - i,
{
    if i < command.len() {
        lemma_target_service_is_known(command, i + 1);
    }
}

/// A description never carries command text: whatever the command, its kind and its service come
/// from fixed lists, and its action and summary are fixed by the rule that applied.
pub proof fn law_descriptions_use_fixed_words(command: Seq<Seq<char>>)
    ensures
        classified(command) matches Some(described) ==> {
            &&& described.kind == "credential"@ || described.kind == "keychain"@ || described.kind
                == "permission"@
            &&& described.target_service matches Some(service) ==> known_service(service)
            &&& {
                ||| described.action == "read credential"@ && (described.summary
                    == "Git credential helper access"@ || described.summary
                    == "GitHub CLI credential access"@)
                ||| described.action == "use repository credential"@ && described.summary
                    == "Credential-capable Git operation"@
                ||| described.action == "read Keychain credential"@ && described.summary
                    == "macOS Keychain access"@
                ||| described.action == "use SSH credential"@ && described.summary
                    == "SSH credential-capable operation"@
                ||| described.action == "use signing identity"@ && described.summary
                    == "Code-signing identity access"@
                ||| described.action == "use notarization credential"@ && described.summary
                    == "Apple notarization credential access"@
                ||| described.action == "read registry credential"@ && described.summary
                    == "Container registry credential access"@
            }
        },
{
    lemma_target_service_is_known(command, 0);
}

} // verus!
