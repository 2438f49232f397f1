//! Which commands are described, and how: stated of their executables and arguments.

#[allow(unused_imports)]
use super::classify;
use super::classify::SensitiveCommand;
use super::classify::SensitiveCommandView;
#[allow(unused_imports)]
use super::labels;
#[allow(unused_imports)]
use crate::text;
use vstd::prelude::*;

verus! {

/// What a description shows of itself is what it holds.
pub proof fn law_descriptions_show_every_field(described: SensitiveCommand)
    ensures
        described@.kind == described.kind@,
        described@.action == described.action@,
        described@.summary == described.summary@,
        described.target_service is None <==> described@.target_service is None,
        described.target_service is Some ==> described@.target_service == Some(
            described.target_service->0@,
        ),
{
}

/// The name of an executable is what follows the last separator of its path, of either kind; a
/// path without one is the name itself.
pub proof fn law_base_names_follow_the_last_separator(
    path: Seq<char>,
    directory: Seq<char>,
    name: Seq<char>,
)
    requires
        path == directory + name,
        directory.len() == 0 || directory.last() == '/' || directory.last() == '\\',
        forall|i: int| 0 <= i < name.len() ==> #[trigger] name[i] != '/' && name[i] != '\\',
    ensures
        classify::base_name(path) == name,
{
    lemma_name_begin(path, directory, name, name.len() as int);
    assert(path.subrange(directory.len() as int, path.len() as int) =~= name);
}

proof fn lemma_name_begin(path: Seq<char>, directory: Seq<char>, name: Seq<char>, k: int)
    requires
        path == directory + name,
        directory.len() == 0 || directory.last() == '/' || directory.last() == '\\',
        forall|i: int| 0 <= i < name.len() ==> #[trigger] name[i] != '/' && name[i] != '\\',
        0 <= k <= name.len(),
    ensures
        classify::name_begin(path, directory.len() + k) == directory.len(),
    decreases k,
{
    if k > 0 {
        assert(path[directory.len() + k - 1] == name[k - 1]);
        lemma_name_begin(path, directory, name, k - 1);
    } else if directory.len() > 0 {
        assert(path[directory.len() - 1] == directory.last());
    }
}

/// The label of a command's executable is the label of its name, whatever the directory and the
/// arguments; a command without words has none.
pub proof fn law_executables_are_labelled_by_name(
    command: Seq<Seq<char>>,
    directory: Seq<char>,
    name: Seq<char>,
)
    requires
        command.len() > 0,
        command[0] == directory + name,
        directory.len() == 0 || directory.last() == '/' || directory.last() == '\\',
        forall|i: int| 0 <= i < name.len() ==> #[trigger] name[i] != '/' && name[i] != '\\',
    ensures
        classify::executable_label(command) == labels::label(name),
        classify::executable_label(Seq::empty()) is None,
{
    law_base_names_follow_the_last_separator(command[0], directory, name);
}

proof fn lemma_first_argument_shifts(prefix: Seq<Seq<char>>, args: Seq<Seq<char>>, i: int)
    requires
        0 <= i,
    ensures
        classify::first_argument(prefix + args, prefix.len() + i) == classify::first_argument(
            args,
            i,
        ),
    decreases args.len() + 1 - i,
{
    if i < args.len() {
        assert((prefix + args)[prefix.len() + i] == args[i]);
        lemma_first_argument_shifts(prefix, args, i + 1);
        lemma_first_argument_shifts(prefix, args, i + 2);
    }
}

/// The first argument of a command: none among no arguments; a word that does not begin with a
/// dash is it; and what comes before it makes no difference, be it one of the options that take a
/// value, with its value, or any other word that begins with a dash.
pub proof fn law_first_arguments_follow_the_options(
    word: Seq<char>,
    value: Seq<char>,
    args: Seq<Seq<char>>,
)
    ensures
        classify::first_argument(Seq::empty(), 0) is None,
        word.len() == 0 || word[0] != '-' ==> classify::first_argument(seq![word] + args, 0)
            == Some(word),
        word == "-C"@ || word == "--git-dir"@ || word == "--work-tree"@ ==> {
            &&& classify::first_argument(seq![word, value] + args, 0) == classify::first_argument(
                args,
                0,
            )
            &&& classify::first_argument(seq![word], 0) is None
        },
        word.len() > 0 && word[0] == '-' && word != "-C"@ && word != "--git-dir"@ && word
            != "--work-tree"@ ==> classify::first_argument(seq![word] + args, 0)
            == classify::first_argument(args, 0),
{
    reveal_strlit("-");
    reveal_strlit("-C");
    reveal_strlit("--git-dir");
    reveal_strlit("--work-tree");
    assert("-"@ =~= seq!['-']);
    assert("-C"@[0] == '-' && "--git-dir"@[0] == '-' && "--work-tree"@[0] == '-');
    if word.len() > 0 {
        assert(word.subrange(0, 1) =~= seq![word[0]]);
        assert(seq![word[0]][0] == word[0] && seq!['-'][0] == '-');
    }
    assert(text::begins(word, "-"@) == (word.len() > 0 && word[0] == '-'));
    lemma_first_argument_shifts(seq![word], args, 0);
    lemma_first_argument_shifts(seq![word, value], args, 0);
    assert((seq![word] + args)[0] == word);
    assert((seq![word, value] + args)[0] == word);
    assert(seq![word][0] == word);
    reveal_with_fuel(classify::first_argument, 3);
}

/// A text names the first of the known services, in their order, that stands in it; a text that
/// none stands in names none.
pub proof fn law_services_are_named_in_order(
    argument: Seq<char>,
    services: Seq<Seq<char>>,
    k: int,
)
    requires
        services == seq![
            "github.com"@,
            "gitlab.com"@,
            "bitbucket.org"@,
            "registry.npmjs.org"@,
            "npmjs.com"@,
            "docker.io"@,
            "apple.com"@,
        ],
        0 <= k <= services.len(),
        forall|j: int| 0 <= j < k ==> !text::holds(argument, #[trigger] services[j]),
        k < services.len() ==> text::holds(argument, services[k]),
    ensures
        k < services.len() ==> classify::named_service(argument) == Some(services[k]),
        k == services.len() ==> classify::named_service(argument) is None,
{
    assert(0 < k ==> !text::holds(argument, services[0]));
    assert(1 < k ==> !text::holds(argument, services[1]));
    assert(2 < k ==> !text::holds(argument, services[2]));
    assert(3 < k ==> !text::holds(argument, services[3]));
    assert(4 < k ==> !text::holds(argument, services[4]));
    assert(5 < k ==> !text::holds(argument, services[5]));
    assert(6 < k ==> !text::holds(argument, services[6]));
}

proof fn lemma_target_service_shifts(prefix: Seq<Seq<char>>, words: Seq<Seq<char>>, i: int)
    requires
        0 <= i <= words.len(),
    ensures
        classify::target_service(prefix + words, prefix.len() + i) == classify::target_service(
            words,
            i,
        ),
    decreases words.len() - i,
{
    if i < words.len() {
        assert((prefix + words)[prefix.len() + i] == words[i]);
        lemma_target_service_shifts(prefix, words, i + 1);
    }
}

/// A command names the service that the first of its words to name one names, read without regard
/// to case; a command without words names none.
pub proof fn law_services_are_found_word_by_word(word: Seq<char>, words: Seq<Seq<char>>)
    ensures
        classify::target_service(Seq::empty(), 0) is None,
        classify::named_service(text::lower(word)) is Some ==> classify::target_service(
            seq![word] + words,
            0,
        ) == classify::named_service(text::lower(word)),
        classify::named_service(text::lower(word)) is None ==> classify::target_service(
            seq![word] + words,
            0,
        ) == classify::target_service(words, 0),
{
    lemma_target_service_shifts(seq![word], words, 0);
    assert((seq![word] + words)[0] == word);
}

proof fn lemma_names_differ()
    ensures
        "git"@.len() == 3 && "git"@[0] == 'g',
        "gh"@.len() == 2,
        "security"@.len() == 8 && "security"@[0] == 's',
        "ssh"@.len() == 3 && "ssh"@[0] == 's' && "ssh"@[1] == 's',
        "scp"@.len() == 3 && "scp"@[0] == 's' && "scp"@[1] == 'c',
        "sftp"@.len() == 4,
        "codesign"@.len() == 8 && "codesign"@[0] == 'c',
        "xcrun"@.len() == 5,
        "docker"@.len() == 6,
        "git-credential-"@.len() == 15,
        "credential"@.len() == 10,
        "clone"@.len() == 5,
        "fetch"@.len() == 5,
        "ls-remote"@.len() == 9,
        "pull"@.len() == 4,
        "push"@.len() == 4,
        "submodule"@.len() == 9,
{
    reveal_strlit("git");
    reveal_strlit("gh");
    reveal_strlit("security");
    reveal_strlit("ssh");
    reveal_strlit("scp");
    reveal_strlit("sftp");
    reveal_strlit("codesign");
    reveal_strlit("xcrun");
    reveal_strlit("docker");
    reveal_strlit("git-credential-");
    reveal_strlit("credential");
    reveal_strlit("clone");
    reveal_strlit("fetch");
    reveal_strlit("ls-remote");
    reveal_strlit("pull");
    reveal_strlit("push");
    reveal_strlit("submodule");
}

/// How each command that can reach credentials is described, whichever service it names, if any:
/// Git's credential helpers and its operations on remotes, the GitHub tool, Keychain passwords, the
/// SSH tools, code signing, notarization and logging in to a container registry. Where the rule
/// fixes no service, the description carries the one that the command names, or none.
pub proof fn law_sensitive_commands_are_described(
    executable: Seq<char>,
    args: Seq<Seq<char>>,
    service: Option<Seq<char>>,
)
    ensures
        ({
            let first = classify::first_argument(args, 0);
            let answer = classify::description(executable, args, service);
            &&& text::begins(executable, "git-credential-"@) || (executable == "git"@ && first
                == Some("credential"@)) ==> answer == Some(
                SensitiveCommandView {
                    kind: "credential"@,
                    action: "read credential"@,
                    summary: "Git credential helper access"@,
                    target_service: service,
                },
            )
            &&& executable == "git"@ && (first == Some("clone"@) || first == Some("fetch"@) || first
                == Some("ls-remote"@) || first == Some("pull"@) || first == Some("push"@) || first
                == Some("submodule"@)) ==> answer == Some(
                SensitiveCommandView {
                    kind: "credential"@,
                    action: "use repository credential"@,
                    summary: "Credential-capable Git operation"@,
                    target_service: service,
                },
            )
            &&& executable == "gh"@ && (first == Some("api"@) || first == Some("auth"@) || first
                == Some("release"@) || first == Some("repo"@)) ==> answer == Some(
                SensitiveCommandView {
                    kind: "credential"@,
                    action: "read credential"@,
                    summary: "GitHub CLI credential access"@,
                    target_service: Some("github.com"@),
                },
            )
            &&& forall|i: int|
                #![trigger args[i]]
                executable == "security"@ && 0 <= i < args.len() && (text::lower(args[i])
                    == "find-generic-password"@ || text::lower(args[i])
                    == "find-internet-password"@ || text::lower(args[i])
                    == "get-generic-password"@ || text::lower(args[i])
                    == "add-generic-password"@ || text::lower(args[i])
                    == "add-internet-password"@) ==> answer == Some(
                    SensitiveCommandView {
                        kind: "keychain"@,
                        action: "read Keychain credential"@,
                        summary: "macOS Keychain access"@,
                        target_service: service,
                    },
                )
            &&& executable == "ssh"@ || executable == "scp"@ || executable == "sftp"@ ==> answer
                == Some(
                SensitiveCommandView {
                    kind: "credential"@,
                    action: "use SSH credential"@,
                    summary: "SSH credential-capable operation"@,
                    target_service: service,
                },
            )
            &&& executable == "codesign"@ ==> answer == Some(
                SensitiveCommandView {
                    kind: "permission"@,
                    action: "use signing identity"@,
                    summary: "Code-signing identity access"@,
                    target_service: None,
                },
            )
            &&& forall|i: int|
                executable == "xcrun"@ && 0 <= i < args.len() && #[trigger] args[i]
                    == "notarytool"@ ==> answer == Some(
                    SensitiveCommandView {
                        kind: "credential"@,
                        action: "use notarization credential"@,
                        summary: "Apple notarization credential access"@,
                        target_service: Some("apple.com"@),
                    },
                )
            &&& executable == "docker"@ && first == Some("login"@) ==> answer == Some(
                SensitiveCommandView {
                    kind: "credential"@,
                    action: "read registry credential"@,
                    summary: "Container registry credential access"@,
                    target_service: service,
                },
            )
        }),
{
    lemma_names_differ();
    if executable == "security"@ {
        assert forall|i: int|
            #![trigger args[i]]
            0 <= i < args.len() && (text::lower(args[i]) == "find-generic-password"@
                || text::lower(args[i]) == "find-internet-password"@ || text::lower(args[i])
                == "get-generic-password"@ || text::lower(args[i]) == "add-generic-password"@
                || text::lower(args[i]) == "add-internet-password"@) implies
            classify::description(executable, args, service) is Some by {
            assert(classify::keychain_word(text::lower(args[i])));
        }
    }
}

/// A command that is none of these is not described.
pub proof fn law_other_commands_are_not_described(
    executable: Seq<char>,
    args: Seq<Seq<char>>,
    service: Option<Seq<char>>,
)
    requires
        !text::begins(executable, "git-credential-"@),
        executable == "git"@ ==> {
            let first = classify::first_argument(args, 0);
            first != Some("credential"@) && first != Some("clone"@) && first != Some("fetch"@)
                && first != Some("ls-remote"@) && first != Some("pull"@) && first != Some("push"@)
                && first != Some("submodule"@)
        },
        executable == "gh"@ ==> {
            let first = classify::first_argument(args, 0);
            first != Some("api"@) && first != Some("auth"@) && first != Some("release"@) && first
                != Some("repo"@)
        },
        executable == "security"@ ==> forall|i: int|
            #![trigger args[i]]
            0 <= i < args.len() ==> text::lower(args[i]) != "find-generic-password"@
                && text::lower(args[i]) != "find-internet-password"@ && text::lower(args[i])
                != "get-generic-password"@ && text::lower(args[i]) != "add-generic-password"@
                && text::lower(args[i]) != "add-internet-password"@,
        executable != "ssh"@,
        executable != "scp"@,
        executable != "sftp"@,
        executable != "codesign"@,
        executable == "xcrun"@ ==> forall|i: int|
            0 <= i < args.len() ==> #[trigger] args[i] != "notarytool"@,
        executable == "docker"@ ==> classify::first_argument(args, 0) != Some("login"@),
    ensures
        classify::description(executable, args, service) is None,
{
}

/// A command is described by the name of its executable, read without its directory and without
/// regard to case, by the words that follow, and with the service that the whole command names; a
/// command without words is not described.
pub proof fn law_commands_are_described_by_name_and_arguments(
    program: Seq<char>,
    directory: Seq<char>,
    name: Seq<char>,
    args: Seq<Seq<char>>,
)
    requires
        program == directory + name,
        directory.len() == 0 || directory.last() == '/' || directory.last() == '\\',
        forall|i: int| 0 <= i < name.len() ==> #[trigger] name[i] != '/' && name[i] != '\\',
    ensures
        classify::classified(seq![program] + args) == classify::description(
            text::lower(name),
            args,
            classify::target_service(seq![program] + args, 0),
        ),
        classify::classified(Seq::empty()) is None,
{
    law_base_names_follow_the_last_separator(program, directory, name);
    let command = seq![program] + args;
    assert(command[0] == program);
    assert(command.subrange(1, command.len() as int) =~= args);
}

/// Whether a command is described, and as what, does not depend on the service that it names: two
/// commands of the same executable name and the same arguments have the same kind, action and
/// summary, and each is described exactly if the other is.
pub proof fn law_descriptions_do_not_depend_on_the_service(
    executable: Seq<char>,
    args: Seq<Seq<char>>,
    service: Option<Seq<char>>,
    other: Option<Seq<char>>,
)
    ensures
        match (
            classify::description(executable, args, service),
            classify::description(executable, args, other),
        ) {
            (Some(left), Some(right)) => {
                &&& left.kind == right.kind
                &&& left.action == right.action
                &&& left.summary == right.summary
                &&& left.target_service == right.target_service || (left.target_service == service
                    && right.target_service == other)
            },
            (None, None) => true,
            _ => false,
        },
{
}

/// Logging in to a container registry is described wherever the registry is: the description
/// carries the known service that the command names, and none where it names none.
pub proof fn law_registry_logins_are_described(
    program: Seq<char>,
    directory: Seq<char>,
    name: Seq<char>,
    args: Seq<Seq<char>>,
)
    requires
        program == directory + name,
        directory.len() == 0 || directory.last() == '/' || directory.last() == '\\',
        text::lower(name) == "docker"@,
        forall|i: int| 0 <= i < name.len() ==> #[trigger] name[i] != '/' && name[i] != '\\',
        classify::first_argument(args, 0) == Some("login"@),
    ensures
        ({
            let described = classify::classified(seq![program] + args);
            &&& described is Some
            &&& described->0.kind == "credential"@
            &&& described->0.action == "read registry credential"@
            &&& described->0.summary == "Container registry credential access"@
            &&& described->0.target_service == classify::target_service(seq![program] + args, 0)
        }),
{
    law_commands_are_described_by_name_and_arguments(program, directory, name, args);
    law_sensitive_commands_are_described(
        "docker"@,
        args,
        classify::target_service(seq![program] + args, 0),
    );
}

} // verus!
