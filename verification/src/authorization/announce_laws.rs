//! What labels and announcements hold: stated of the texts that they are made from.

#[allow(unused_imports)]
use super::announce;
use super::announce::AnnouncementView;
use super::announce::MacCtlNotice;
use super::announce::MacCtlReply;
use super::announce::MacCtlResponse;
use super::announce::MacCtlResult;
#[allow(unused_imports)]
use super::classify;
use super::classify::SensitiveCommandView;
#[allow(unused_imports)]
use super::labels;
#[allow(unused_imports)]
use crate::text;
use vstd::prelude::*;

verus! {

/// The label of a text is what is left of its first ninety-six characters without the blanks at
/// either end: `begin` is the first and `end` follows the last that is not blank. ASCII letters and
/// digits, blanks, dots, underscores and dashes stay, and an underscore stands for every other
/// character.
pub proof fn law_labels_are_what_is_left(value: Seq<char>, begin: int, end: int)
    requires
        0 <= begin < end <= value.len(),
        end <= 96,
        value[begin] != ' ',
        value[end - 1] != ' ',
        forall|i: int| 0 <= i < begin ==> #[trigger] value[i] == ' ',
        forall|i: int| end <= i < value.len() && i < 96 ==> #[trigger] value[i] == ' ',
    ensures
        labels::label(value) is Some,
        labels::label(value)->0.len() == end - begin,
        forall|k: int|
            0 <= k < end - begin ==> #[trigger] labels::label(value)->0[k] == {
                let c = value[begin + k];
                if 65 <= c as int <= 90 || 97 <= c as int <= 122 || 48 <= c as int <= 57 || c == ' '
                    || c == '.' || c == '_' || c == '-' {
                    c
                } else {
                    '_'
                }
            },
{
    let all = labels::masked(value);
    assert forall|i: int| 0 <= i < all.len() implies (#[trigger] all[i] == ' ') == (value[i]
        == ' ') by {}
    assert forall|i: int| 0 <= i < begin implies #[trigger] all[i] == ' ' by {
        assert(value[i] == ' ');
    }
    assert forall|i: int| end <= i < all.len() implies #[trigger] all[i] == ' ' by {
        assert(value[i] == ' ');
    }
    lemma_blanks_end(all, 0, begin);
    lemma_blanks_begin(all, all.len() as int, end);
}

/// A text of nothing but blanks in its first ninety-six characters has no label.
pub proof fn law_blank_texts_have_no_label(value: Seq<char>)
    requires
        forall|i: int| 0 <= i < value.len() && i < 96 ==> #[trigger] value[i] == ' ',
    ensures
        labels::label(value) is None,
{
    let all = labels::masked(value);
    assert forall|i: int| 0 <= i < all.len() implies #[trigger] all[i] == ' ' by {
        assert(value[i] == ' ');
    }
    lemma_blanks_end(all, 0, all.len() as int);
    lemma_blanks_begin(all, all.len() as int, 0);
}

proof fn lemma_blanks_end(value: Seq<char>, i: int, end: int)
    requires
        0 <= i <= end <= value.len(),
        forall|k: int| i <= k < end ==> #[trigger] value[k] == ' ',
        end < value.len() ==> value[end] != ' ',
    ensures
        labels::blanks_end(value, i) == end,
    decreases end - i,
{
    if i < end {
        assert(value[i] == ' ');
        lemma_blanks_end(value, i + 1, end);
    }
}

proof fn lemma_blanks_begin(value: Seq<char>, n: int, begin: int)
    requires
        0 <= begin <= n <= value.len(),
        forall|k: int| begin <= k < n ==> #[trigger] value[k] == ' ',
        begin > 0 ==> value[begin - 1] != ' ',
    ensures
        labels::blanks_begin(value, n) == begin,
    decreases n - begin,
{
    if begin < n {
        assert(value[n - 1] == ' ');
        lemma_blanks_begin(value, n - 1, begin);
    }
}

proof fn lemma_labels_of_a_beginning(components: Seq<Seq<char>>, next: Seq<char>, n: int)
    requires
        0 <= n <= components.len(),
    ensures
        labels::labels(components.push(next), n) == labels::labels(components, n),
    decreases n,
{
    if n > 0 {
        lemma_labels_of_a_beginning(components, next, n - 1);
        assert(components.push(next)[n - 1] == components[n - 1]);
    }
}

/// No components have no labels, and one more component adds its label at the end, where it has
/// one, and nothing otherwise.
pub proof fn law_components_are_labelled_in_order(components: Seq<Seq<char>>, next: Seq<char>)
    ensures
        labels::labels(Seq::empty(), 0) == Seq::<Seq<char>>::empty(),
        ({
            let before = labels::labels(components, components.len() as int);
            let after = labels::labels(components.push(next), components.len() as int + 1);
            &&& labels::label(next) is Some ==> after == before.push(labels::label(next)->0)
            &&& labels::label(next) is None ==> after == before
        }),
{
    lemma_labels_of_a_beginning(components, next, components.len() as int);
}

/// The index of the first label that reads `marker` once it is made small; none where none does.
pub open spec fn first_at(list: Seq<Seq<char>>, marker: Seq<char>, at: Option<int>) -> bool {
    match at {
        Some(i) => {
            &&& 0 <= i < list.len()
            &&& text::lower(list[i]) == marker
            &&& forall|j: int| 0 <= j < i ==> text::lower(#[trigger] list[j]) != marker
        },
        None => forall|j: int| 0 <= j < list.len() ==> text::lower(#[trigger] list[j]) != marker,
    }
}

/// The index of the last label that reads `marker` once it is made small; none where none does.
pub open spec fn last_at(list: Seq<Seq<char>>, marker: Seq<char>, at: Option<int>) -> bool {
    match at {
        Some(i) => {
            &&& 0 <= i < list.len()
            &&& text::lower(list[i]) == marker
            &&& forall|j: int| i < j < list.len() ==> text::lower(#[trigger] list[j]) != marker
        },
        None => forall|j: int| 0 <= j < list.len() ==> text::lower(#[trigger] list[j]) != marker,
    }
}

/// The repository of a directory is what follows the first `projects` among its labels; if nothing
/// does, what follows the first `repos`; then the first `repositories`; then what stands two places
/// after the last `worktrees`; and then the last label. Without labels there is none.
pub proof fn law_repositories_follow_their_markers(
    components: Seq<Seq<char>>,
    list: Seq<Seq<char>>,
    projects: Option<int>,
    repos: Option<int>,
    repositories: Option<int>,
    worktrees: Option<int>,
)
    requires
        list == labels::labels(components, components.len() as int),
        first_at(list, "projects"@, projects),
        first_at(list, "repos"@, repos),
        first_at(list, "repositories"@, repositories),
        last_at(list, "worktrees"@, worktrees),
    ensures
        ({
            let name = labels::repository_of(components);
            let by_projects = projects is Some && projects->0 + 1 < list.len();
            let by_repos = repos is Some && repos->0 + 1 < list.len();
            let by_repositories = repositories is Some && repositories->0 + 1 < list.len();
            let by_worktrees = worktrees is Some && worktrees->0 + 2 < list.len();
            &&& by_projects ==> name == Some(list[projects->0 + 1])
            &&& !by_projects && by_repos ==> name == Some(list[repos->0 + 1])
            &&& !by_projects && !by_repos && by_repositories ==> name == Some(
                list[repositories->0 + 1],
            )
            &&& !by_projects && !by_repos && !by_repositories && by_worktrees ==> name == Some(
                list[worktrees->0 + 2],
            )
            &&& !by_projects && !by_repos && !by_repositories && !by_worktrees && list.len() > 0
                ==> name == Some(list[list.len() - 1])
            &&& list.len() == 0 ==> name is None
        }),
{
    reveal_strlit("projects");
    reveal_strlit("repos");
    reveal_strlit("repositories");
    reveal_strlit("worktrees");
    assert(text::lower("projects"@) =~= "projects"@);
    assert(text::lower("repos"@) =~= "repos"@);
    assert(text::lower("repositories"@) =~= "repositories"@);
    assert(text::lower("worktrees"@) =~= "worktrees"@);
    lemma_first_marked(list, "projects"@, projects, 0);
    lemma_first_marked(list, "repos"@, repos, 0);
    lemma_first_marked(list, "repositories"@, repositories, 0);
    lemma_last_marked(list, "worktrees"@, worktrees, list.len() as int);
}

proof fn lemma_first_marked(list: Seq<Seq<char>>, marker: Seq<char>, at: Option<int>, i: int)
    requires
        text::lower(marker) == marker,
        first_at(list, marker, at),
        0 <= i <= list.len(),
        at is Some ==> i <= at->0,
    ensures
        labels::first_marked(list, marker, i) == at,
    decreases list.len() - i,
{
    if i < list.len() && at != Some(i) {
        assert(text::lower(list[i]) != marker);
        lemma_first_marked(list, marker, at, i + 1);
    }
}

proof fn lemma_last_marked(list: Seq<Seq<char>>, marker: Seq<char>, at: Option<int>, n: int)
    requires
        text::lower(marker) == marker,
        last_at(list, marker, at),
        0 <= n <= list.len(),
        at is Some ==> at->0 < n,
    ensures
        labels::last_marked(list, marker, n) == at,
    decreases n,
{
    if n > 0 && at != Some(n - 1) {
        assert(text::lower(list[n - 1]) != marker);
        lemma_last_marked(list, marker, at, n - 1);
    }
}

/// A project is named by its repository, and by a fixed word without one; an executable is named
/// by its label, and by a fixed word without one.
pub proof fn law_missing_names_have_fixed_words(name: Seq<char>)
    ensures
        labels::project_of(Some(name)) == name,
        labels::project_of(None) == "unknown-project"@,
        announce::requesting_executable(Some(name)) == name,
        announce::requesting_executable(None) == "unknown-executable"@,
{
}

/// Word by word, what announces a command: every flag is followed by its own value. The
/// repository, the task, the thread's title and the service are announced exactly where there is
/// one, in this order, after the rest.
pub proof fn law_announcements_say_what_is_known(
    known: AnnouncementView,
    with_repository: int,
    with_task: int,
    with_title: int,
    with_service: int,
)
    requires
        with_repository == if known.repository is Some {
            2int
        } else {
            0int
        },
        with_task == if labels::label(known.call_id) is Some {
            4int
        } else {
            0int
        },
        with_title == if known.thread_title is Some && labels::label(known.thread_title->0) is Some {
            2int
        } else {
            0int
        },
        with_service == if known.described.target_service is Some {
            2int
        } else {
            0int
        },
    ensures
        ({
            let words = known.arguments();
            let task = 22 + with_repository;
            let title = task + with_task;
            let service = title + with_title;
            &&& words.len() == service + with_service
            &&& words[0] == "--json"@
            &&& words[1] == "control"@
            &&& words[2] == "authorization"@
            &&& words[3] == "prepare"@
            &&& words[4] == "--kind"@
            &&& words[5] == known.described.kind
            &&& words[6] == "--project"@
            &&& known.repository is Some ==> words[7] == known.repository->0
            &&& known.repository is None ==> words[7] == "unknown-project"@
            &&& words[8] == "--action"@
            &&& words[9] == known.described.action
            &&& words[10] == "--summary"@
            &&& words[11] == known.described.summary
            &&& words[12] == "--thread-id"@
            &&& words[13] == known.thread_id
            &&& words[14] == "--source-reference"@
            &&& words[15] == "codex://thread/"@ + known.thread_id
            &&& words[16] == "--requesting-executable"@
            &&& known.executable is Some ==> words[17] == known.executable->0
            &&& known.executable is None ==> words[17] == "unknown-executable"@
            &&& words[18] == "--requesting-helper"@
            &&& words[19] == "codex-unified-exec"@
            &&& words[20] == "--expires-in"@
            &&& words[21] == "30"@
            &&& known.repository is Some ==> words[22] == "--repository"@ && words[23]
                == known.repository->0
            &&& labels::label(known.call_id) is Some ==> {
                &&& words[task] == "--task-id"@
                &&& words[task + 1] == labels::label(known.call_id)->0
                &&& words[task + 2] == "--task-title"@
                &&& words[task + 3] == "Codex unified_exec command"@
            }
            &&& with_title == 2 ==> words[title] == "--thread-title"@ && words[title + 1]
                == labels::label(known.thread_title->0)->0
            &&& known.described.target_service is Some ==> words[service] == "--target-service"@
                && words[service + 1] == known.described.target_service->0
        }),
{
    let common = known.common();
    let named = common + announce::flag_if("--repository"@, known.repository);
    let tasked = named + announce::task_if(labels::label(known.call_id));
    let titled = tasked + announce::flag_if(
        "--thread-title"@,
        announce::label_if(known.thread_title),
    );
    let all = titled + announce::flag_if("--target-service"@, known.described.target_service);
    assert(all == known.arguments());
    assert(common.len() == 22);
    assert(named.len() == 22 + with_repository);
    assert(tasked.len() == 22 + with_repository + with_task);
    assert(titled.len() == 22 + with_repository + with_task + with_title);
    assert forall|i: int| 0 <= i < titled.len() implies all[i] == titled[i] by {}
    assert forall|i: int| 0 <= i < tasked.len() implies titled[i] == tasked[i] by {}
    assert forall|i: int| 0 <= i < named.len() implies tasked[i] == named[i] by {}
    assert forall|i: int| 0 <= i < common.len() implies #[trigger] all[i] == common[i] by {
        assert(named[i] == common[i]);
        assert(tasked[i] == named[i]);
        assert(titled[i] == tasked[i]);
    }
    if known.repository is Some {
        let part = announce::flag_if("--repository"@, known.repository);
        assert(named[22] == part[0] && named[23] == part[1]);
        assert(tasked[22] == named[22] && tasked[23] == named[23]);
        assert(titled[22] == tasked[22] && titled[23] == tasked[23]);
        assert(all[22] == titled[22] && all[23] == titled[23]);
    }
    if labels::label(known.call_id) is Some {
        let part = announce::task_if(labels::label(known.call_id));
        let at = named.len() as int;
        assert forall|k: int| 0 <= k < 4 implies #[trigger] all[at + k] == part[k] by {
            assert(tasked[at + k] == part[k]);
            assert(titled[at + k] == tasked[at + k]);
        }
        assert(all[at + 0] == part[0]);
        assert(all[at + 1] == part[1]);
        assert(all[at + 2] == part[2]);
        assert(all[at + 3] == part[3]);
    }
    if with_title == 2 {
        let part = announce::flag_if("--thread-title"@, announce::label_if(known.thread_title));
        let at = tasked.len() as int;
        assert(titled[at] == part[0] && titled[at + 1] == part[1]);
        assert(all[at] == titled[at] && all[at + 1] == titled[at + 1]);
    }
    if known.described.target_service is Some {
        let part = announce::flag_if("--target-service"@, known.described.target_service);
        let at = titled.len() as int;
        assert(all[at] == part[0] && all[at + 1] == part[1]);
    }
}

/// What is announced of a command is its description, the label of its executable, the repository
/// of its directory, and the thread and the call as they are given.
pub proof fn law_announcements_are_of_the_command(
    described: SensitiveCommandView,
    command: Seq<Seq<char>>,
    components: Seq<Seq<char>>,
    thread_id: Seq<char>,
    thread_title: Option<Seq<char>>,
    call_id: Seq<char>,
)
    ensures
        ({
            let known = announce::announcement(
                described,
                command,
                components,
                thread_id,
                thread_title,
                call_id,
            );
            &&& known.described == described
            &&& known.executable == classify::executable_label(command)
            &&& known.repository == labels::repository_of(components)
            &&& known.thread_id == thread_id
            &&& known.thread_title == thread_title
            &&& known.call_id == call_id
        }),
        ({
            let words = announce::announced(command, components, thread_id, thread_title, call_id);
            &&& classify::classified(command) is None ==> words is None
            &&& classify::classified(command) is Some ==> words == Some(
                (AnnouncementView {
                    described: classify::classified(command)->0,
                    executable: classify::executable_label(command),
                    repository: labels::repository_of(components),
                    thread_id,
                    thread_title,
                    call_id,
                }).arguments(),
            )
        }),
{
}

/// A text that is given is labelled, and none without one.
pub proof fn law_given_texts_are_labelled(value: Seq<char>)
    ensures
        announce::label_if(Some(value)) == labels::label(value),
        announce::label_if(None) is None,
{
}

/// A response carries the identifier of the notice in its result, and none where any of them is
/// missing.
pub proof fn law_responses_carry_the_notice(id: String)
    ensures
        announce::carried_request_id(
            Some(
                MacCtlResponse {
                    result: Some(
                        MacCtlResult { notice: Some(MacCtlNotice { request_id: Some(id) }) },
                    ),
                },
            ),
        ) == Some(id@),
        announce::carried_request_id(None) is None,
        announce::carried_request_id(Some(MacCtlResponse { result: None })) is None,
        announce::carried_request_id(
            Some(MacCtlResponse { result: Some(MacCtlResult { notice: None }) }),
        ) is None,
        announce::carried_request_id(
            Some(
                MacCtlResponse {
                    result: Some(MacCtlResult { notice: Some(MacCtlNotice { request_id: None }) }),
                },
            ),
        ) is None,
{
}

/// An announcement is open exactly if the tool ran and succeeded and its response carries an
/// identifier that has a label, and then under that label.
pub proof fn law_announcements_open_under_the_label(reply: MacCtlReply)
    ensures
        announce::opened_request_id(None) is None,
        !reply.success ==> announce::opened_request_id(Some(reply)) is None,
        reply.success && announce::carried_request_id(reply.response) is None
            ==> announce::opened_request_id(Some(reply)) is None,
        reply.success && announce::carried_request_id(reply.response) is Some
            ==> announce::opened_request_id(Some(reply)) == labels::label(
            announce::carried_request_id(reply.response)->0,
        ),
{
}

/// What binds an open announcement to a process, and what closes it with an outcome, word by word;
/// without an open announcement there is nothing to send.
pub proof fn law_open_announcements_are_bound_and_closed(
    request_id: Seq<char>,
    process_id: int,
    outcome: Seq<char>,
)
    ensures
        announce::binding(None, process_id) is None,
        announce::closing(None, outcome) is None,
        announce::binding(Some(request_id), process_id) is Some,
        announce::closing(Some(request_id), outcome) is Some,
        ({
            let words = announce::binding(Some(request_id), process_id)->0;
            &&& words.len() == 7
            &&& words[0] == "--json"@
            &&& words[1] == "control"@
            &&& words[2] == "authorization"@
            &&& words[3] == "bind"@
            &&& words[4] == request_id
            &&& words[5] == "--process-id"@
            &&& words[6] == text::decimal(process_id)
            &&& words == announce::bond(request_id, process_id)
        }),
        ({
            let words = announce::closing(Some(request_id), outcome)->0;
            &&& words.len() == 7
            &&& words[0] == "--json"@
            &&& words[1] == "control"@
            &&& words[2] == "authorization"@
            &&& words[3] == "resolve"@
            &&& words[4] == request_id
            &&& words[5] == "--outcome"@
            &&& words[6] == outcome
            &&& words == announce::resolution(request_id, outcome)
        }),
        announce::outcome_of(true) == "completed"@,
        announce::outcome_of(false) == "failed"@,
{
}

/// The words of a list of arguments are theirs, one for one, and there are none without a list.
pub proof fn law_words_are_those_of_the_arguments(args: Vec<String>, i: int)
    requires
        0 <= i < args@.len(),
    ensures
        announce::opt_words(None) is None,
        announce::opt_words(Some(args)) is Some,
        announce::opt_words(Some(args))->0.len() == args@.len(),
        announce::opt_words(Some(args))->0[i] == args@[i]@,
{
}

} // verus!
