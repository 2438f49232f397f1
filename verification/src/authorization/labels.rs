//! Labels that are safe to show: short, of plain characters, and without a path.

#[allow(unused_imports)]
use crate::text;
use crate::text::chars_of;
use crate::text::lowercase;
use crate::text::str_eq;
use crate::text::string_of;
use vstd::prelude::*;

verus! {

/// The longest label.
pub const MAX_LABEL_LEN: usize = 96;

/// A character that a label may hold: an ASCII letter or digit, a blank, or one of `.`, `_` and
/// `-`.
pub open spec fn label_char(c: char) -> bool {
    ||| 'a' <= c && c <= 'z'
    ||| 'A' <= c && c <= 'Z'
    ||| '0' <= c && c <= '9'
    ||| c == ' '
    ||| c == '.'
    ||| c == '_'
    ||| c == '-'
}

/// A character made fit for a label.
pub open spec fn masked_char(c: char) -> char {
    if label_char(c) {
        c
    } else {
        '_'
    }
}

/// The beginning of a text, of at most the longest label's length, made fit for a label.
pub open spec fn masked(value: Seq<char>) -> Seq<char> {
    Seq::new(
        if value.len() <= MAX_LABEL_LEN {
            value.len()
        } else {
            MAX_LABEL_LEN as nat
        },
        |i: int| masked_char(value[i]),
    )
}

/// The first index from `i` on that does not hold a blank, or the length.
pub open spec fn blanks_end(value: Seq<char>, i: int) -> int
    decreases value.len() - i,
{
    if 0 <= i < value.len() && value[i] == ' ' {
        blanks_end(value, i + 1)
    } else {
        i
    }
}

/// The end of `value` up to `n` without the blanks that it ends with.
pub open spec fn blanks_begin(value: Seq<char>, n: int) -> int
    decreases n,
{
    if 0 < n <= value.len() && value[n - 1] == ' ' {
        blanks_begin(value, n - 1)
    } else {
        n
    }
}

/// A text without the blanks that it begins and ends with.
pub open spec fn trimmed(value: Seq<char>) -> Seq<char> {
    let begin = blanks_end(value, 0);
    let end = blanks_begin(value, value.len() as int);
    if begin < end {
        value.subrange(begin, end)
    } else {
        Seq::empty()
    }
}

/// The safe label of a text, if there is anything left of it.
pub open spec fn label(value: Seq<char>) -> Option<Seq<char>> {
    let rest = trimmed(masked(value));
    if rest.len() == 0 {
        None
    } else {
        Some(rest)
    }
}

proof fn lemma_blanks_end(value: Seq<char>, i: int)
    requires
        0 <= i <= value.len(),
    ensures
        i <= blanks_end(value, i) <= value.len(),
        blanks_end(value, i) < value.len() ==> value[blanks_end(value, i)] != ' ',
        forall|k: int| i <= k < blanks_end(value, i) ==> #[trigger] value[k] == ' ',
    decreases value.len() - i,
{
    if i < value.len() && value[i] == ' ' {
        lemma_blanks_end(value, i + 1);
    }
}

proof fn lemma_blanks_begin(value: Seq<char>, n: int)
    requires
        0 <= n <= value.len(),
    ensures
        0 <= blanks_begin(value, n) <= n,
        blanks_begin(value, n) > 0 ==> value[blanks_begin(value, n) - 1] != ' ',
        forall|k: int| blanks_begin(value, n) <= k < n ==> #[trigger] value[k] == ' ',
    decreases n,
{
    if 0 < n && value[n - 1] == ' ' {
        lemma_blanks_begin(value, n - 1);
    }
}

/// A label is safe: not empty, no longer than the longest, of label characters only, and neither
/// begins nor ends with a blank.
pub proof fn law_labels_are_safe(value: Seq<char>)
    ensures
        label(value) matches Some(rest) ==> {
            &&& 0 < rest.len() <= MAX_LABEL_LEN
            &&& forall|i: int| 0 <= i < rest.len() ==> label_char(#[trigger] rest[i])
            &&& rest[0] != ' '
            &&& rest[rest.len() - 1] != ' '
        },
{
    let all = masked(value);
    lemma_blanks_end(all, 0);
    lemma_blanks_begin(all, all.len() as int);
}

/// A safe label is its own label.
pub proof fn law_labels_stay_as_they_are(value: Seq<char>)
    ensures
        label(value) matches Some(rest) ==> label(rest) == Some(rest),
{
    law_labels_are_safe(value);
    if let Some(rest) = label(value) {
        assert(masked(rest) =~= rest);
        lemma_blanks_end(rest, 0);
        lemma_blanks_begin(rest, rest.len() as int);
        assert(trimmed(rest) =~= rest);
    }
}

/// Makes a text a safe label, if there is anything left of it.
pub fn safe_label(value: &str) -> (result: Option<String>)
    ensures
        text::opt_view(result) == label(value@),
{
    let chars = chars_of(value);
    let mut all: Vec<char> = Vec::new();
    let mut i: usize = 0;
    while i < chars.len() && i < MAX_LABEL_LEN
        invariant
            chars@ == value@,
            i <= chars@.len(),
            i <= MAX_LABEL_LEN,
            all@.len() == i,
            forall|k: int| 0 <= k < i ==> #[trigger] all@[k] == masked_char(value@[k]),
        decreases chars@.len() - i,
    {
        let c = chars[i];
        let fits = ('a' <= c && c <= 'z') || ('A' <= c && c <= 'Z') || ('0' <= c && c <= '9') || c
            == ' ' || c == '.' || c == '_' || c == '-';
        all.push(
            if fits {
                c
            } else {
                '_'
            },
        );
        i += 1;
    }
    proof {
        assert(all@ =~= masked(value@));
    }
    let mut begin: usize = 0;
    while begin < all.len() && all[begin] == ' '
        invariant
            begin <= all@.len(),
            blanks_end(all@, 0) == blanks_end(all@, begin as int),
        decreases all@.len() - begin,
    {
        begin += 1;
    }
    let mut end: usize = all.len();
    while end > 0 && all[end - 1] == ' '
        invariant
            end <= all@.len(),
            blanks_begin(all@, all@.len() as int) == blanks_begin(all@, end as int),
        decreases end,
    {
        end -= 1;
    }
    if begin < end {
        Some(string_of(&all, begin, end))
    } else {
        None
    }
}

/// The labels of those components that have one, in order: of the first `n`.
pub open spec fn labels(components: Seq<Seq<char>>, n: int) -> Seq<Seq<char>>
    decreases n,
{
    if n <= 0 {
        Seq::empty()
    } else {
        match label(components[n - 1]) {
            Some(rest) => labels(components, n - 1).push(rest),
            None => labels(components, n - 1),
        }
    }
}

/// Two texts are the same but for the case of ASCII letters.
pub open spec fn same_but_case(left: Seq<char>, right: Seq<char>) -> bool {
    text::lower(left) == text::lower(right)
}

/// The first index from `i` on whose label is the marker but for case.
pub open spec fn first_marked(list: Seq<Seq<char>>, marker: Seq<char>, i: int) -> Option<int>
    decreases list.len() - i,
{
    if i < 0 || i >= list.len() {
        None
    } else if same_but_case(list[i], marker) {
        Some(i)
    } else {
        first_marked(list, marker, i + 1)
    }
}

/// The last index below `n` whose label is the marker but for case.
pub open spec fn last_marked(list: Seq<Seq<char>>, marker: Seq<char>, n: int) -> Option<int>
    decreases n,
{
    if n <= 0 || n > list.len() {
        None
    } else if same_but_case(list[n - 1], marker) {
        Some(n - 1)
    } else {
        last_marked(list, marker, n - 1)
    }
}

/// The label `steps` places after an index, if there is one.
pub open spec fn label_after(list: Seq<Seq<char>>, at: Option<int>, steps: int) -> Option<
    Seq<char>,
> {
    match at {
        Some(i) => if i + steps < list.len() {
            Some(list[i + steps])
        } else {
            None
        },
        None => None,
    }
}

/// The repository that a list of labels points to: what follows `projects`, else `repos`, else
/// `repositories`; else what stands two places after the last `worktrees`; else the last label.
pub open spec fn repository(list: Seq<Seq<char>>) -> Option<Seq<char>> {
    let in_projects = label_after(list, first_marked(list, "projects"@, 0), 1);
    let in_repos = label_after(list, first_marked(list, "repos"@, 0), 1);
    let in_repositories = label_after(list, first_marked(list, "repositories"@, 0), 1);
    let in_worktrees = label_after(list, last_marked(list, "worktrees"@, list.len() as int), 2);
    if in_projects is Some {
        in_projects
    } else if in_repos is Some {
        in_repos
    } else if in_repositories is Some {
        in_repositories
    } else if in_worktrees is Some {
        in_worktrees
    } else if list.len() > 0 {
        Some(list.last())
    } else {
        None
    }
}

/// The repository that the components of a working directory point to.
pub open spec fn repository_of(components: Seq<Seq<char>>) -> Option<Seq<char>> {
    repository(labels(components, components.len() as int))
}

/// The project that a repository stands for.
pub open spec fn project_of(repository: Option<Seq<char>>) -> Seq<char> {
    match repository {
        Some(name) => name,
        None => "unknown-project"@,
    }
}

/// Labels the components that have a label, in order.
fn label_components(components: &Vec<String>) -> (list: Vec<String>)
    ensures
        text::views(list@) == labels(text::views(components@), components@.len() as int),
{
    let ghost all = text::views(components@);
    let mut list: Vec<String> = Vec::new();
    let mut i: usize = 0;
    while i < components.len()
        invariant
            all == text::views(components@),
            i <= components@.len(),
            text::views(list@) == labels(all, i as int),
        decreases components@.len() - i,
    {
        let ghost before = list@;
        proof {
            assert(all[i as int] == components@[i as int]@);
        }
        if let Some(name) = safe_label(components[i].as_str()) {
            list.push(name);
            proof {
                assert(text::views(list@) =~= text::views(before).push(name@));
            }
        }
        i += 1;
    }
    list
}

/// Decides whether two texts are the same but for the case of ASCII letters.
fn eq_but_case(left: &str, right: &str) -> (same: bool)
    ensures
        same == same_but_case(left@, right@),
{
    str_eq(lowercase(left).as_str(), lowercase(right).as_str())
}

/// Finds what follows the first label that is the marker.
fn find_after_first(list: &Vec<String>, marker: &str) -> (found: Option<String>)
    ensures
        text::opt_view(found) == label_after(
            text::views(list@),
            first_marked(text::views(list@), marker@, 0),
            1,
        ),
{
    let ghost all = text::views(list@);
    let mut i: usize = 0;
    while i < list.len()
        invariant
            all == text::views(list@),
            i <= list@.len(),
            first_marked(all, marker@, 0) == first_marked(all, marker@, i as int),
        decreases list@.len() - i,
    {
        proof {
            assert(all[i as int] == list@[i as int]@);
        }
        if eq_but_case(list[i].as_str(), marker) {
            let next: usize = i + 1;
            if next < list.len() {
                proof {
                    assert(all[next as int] == list@[next as int]@);
                }
                return Some(list[next].clone());
            }
            return None;
        }
        i += 1;
    }
    None
}

/// Finds what stands two places after the last label that is the marker.
fn find_after_last(list: &Vec<String>, marker: &str) -> (found: Option<String>)
    ensures
        text::opt_view(found) == label_after(
            text::views(list@),
            last_marked(text::views(list@), marker@, list@.len() as int),
            2,
        ),
{
    let ghost all = text::views(list@);
    let total: usize = list.len();
    let mut n: usize = total;
    while n > 0
        invariant
            all == text::views(list@),
            total == list@.len(),
            n <= total,
            last_marked(all, marker@, total as int) == last_marked(all, marker@, n as int),
        decreases n,
    {
        proof {
            assert(all[n - 1] == list@[n - 1]@);
        }
        if eq_but_case(list[n - 1].as_str(), marker) {
            if total - n >= 2 {
                proof {
                    assert(all[n + 1] == list@[n + 1]@);
                }
                return Some(list[n + 1].clone());
            }
            return None;
        }
        n -= 1;
    }
    None
}

/// Finds the repository that a list of labels points to.
fn find_repository(list: &Vec<String>) -> (found: Option<String>)
    ensures
        text::opt_view(found) == repository(text::views(list@)),
{
    let in_projects = find_after_first(list, "projects");
    if in_projects.is_some() {
        return in_projects;
    }
    let in_repos = find_after_first(list, "repos");
    if in_repos.is_some() {
        return in_repos;
    }
    let in_repositories = find_after_first(list, "repositories");
    if in_repositories.is_some() {
        return in_repositories;
    }
    let in_worktrees = find_after_last(list, "worktrees");
    if in_worktrees.is_some() {
        return in_worktrees;
    }
    if list.len() > 0 {
        proof {
            let all = text::views(list@);
            assert(all.last() == list@[list@.len() - 1]@);
        }
        Some(list[list.len() - 1].clone())
    } else {
        None
    }
}

/// Names the project and the repository that the components of a working directory point to. A
/// directory that is not to be had has no components.
pub fn project_labels(components: &Vec<String>) -> (result: (String, Option<String>))
    ensures
        text::opt_view(result.1) == repository_of(text::views(components@)),
        result.0@ == project_of(repository_of(text::views(components@))),
{
    let list = label_components(components);
    proof {
        assert(text::views(components@).len() == components@.len());
    }
    let found = find_repository(&list);
    let project = match &found {
        Some(name) => name.clone(),
        None => "unknown-project".to_owned(),
    };
    (project, found)
}

proof fn lemma_first_marked_in_range(list: Seq<Seq<char>>, marker: Seq<char>, i: int)
    requires
        0 <= i <= list.len(),
    ensures
        first_marked(list, marker, i) matches Some(at) ==> i <= at < list.len(),
    decreases list.len() - i,
{
    if i < list.len() && !same_but_case(list[i], marker) {
        lemma_first_marked_in_range(list, marker, i + 1);
    }
}

proof fn lemma_last_marked_in_range(list: Seq<Seq<char>>, marker: Seq<char>, n: int)
    requires
        0 <= n <= list.len(),
    ensures
        last_marked(list, marker, n) matches Some(at) ==> 0 <= at < n,
    decreases n,
{
    if n > 0 && !same_but_case(list[n - 1], marker) {
        lemma_last_marked_in_range(list, marker, n - 1);
    }
}

proof fn lemma_labels_have_origins(components: Seq<Seq<char>>, n: int, k: int)
    requires
        0 <= n <= components.len(),
        0 <= k < labels(components, n).len(),
    ensures
        exists|j: int| 0 <= j < n && label(#[trigger] components[j]) == Some(labels(components, n)[k]),
    decreases n,
{
    if n > 0 {
        let before = labels(components, n - 1);
        if k < before.len() {
            lemma_labels_have_origins(components, n - 1, k);
            let j = choose|j: int|
                0 <= j < n - 1 && label(#[trigger] components[j]) == Some(before[k]);
            assert(label(components[j]) == Some(labels(components, n)[k]));
        } else {
            assert(label(components[n - 1]) == Some(labels(components, n)[k]));
        }
    }
}

/// The repository is the safe label of one component of the working directory: the path is never
/// shown.
pub proof fn law_repository_is_one_component(components: Seq<Seq<char>>)
    ensures
        repository_of(components) matches Some(name) ==> exists|j: int|
            0 <= j < components.len() && label(#[trigger] components[j]) == Some(name),
{
    let list = labels(components, components.len() as int);
    if let Some(name) = repository(list) {
        lemma_first_marked_in_range(list, "projects"@, 0);
        lemma_first_marked_in_range(list, "repos"@, 0);
        lemma_first_marked_in_range(list, "repositories"@, 0);
        lemma_last_marked_in_range(list, "worktrees"@, list.len() as int);
        let k = choose|k: int| 0 <= k < list.len() && #[trigger] list[k] == name;
        assert(0 <= k < list.len() && list[k] == name);
        lemma_labels_have_origins(components, components.len() as int, k);
    }
}

} // verus!
