//! What the use of a skill gives rise to carries the skill's own particulars: stated field by
//! field.

#[allow(unused_imports)]
use super::emission;
use super::emission::SkillCounter;
use super::emission::SkillInvocation;
use super::emission::SkillMetadata;
use super::emission::SkillMetadataView;
use super::invocations::SkillInvocationStatus;
use super::invocations::SkillInvocationType;
use vstd::prelude::*;

verus! {

/// A counter increment, a record and an event carry the skill's own name, path, scope and plugins,
/// and the status, the type and the time that they are made for.
pub proof fn law_invocations_carry_the_skill(
    skill: SkillMetadataView,
    thread_id: Seq<char>,
    turn_id: Seq<char>,
    status: SkillInvocationStatus,
    invocation_type: SkillInvocationType,
    occurred_at_ms: i64,
)
    ensures
        ({
            let counter = skill.counter(status, invocation_type);
            let record = skill.record(thread_id, turn_id, status, invocation_type, occurred_at_ms);
            let event = skill.event(invocation_type);
            &&& counter.skill_name == skill.name
            &&& counter.status == status
            &&& counter.invocation_type == invocation_type
            &&& record.thread_id == thread_id
            &&& record.turn_id == turn_id
            &&& record.skill_name == skill.name
            &&& record.skill_path == skill.path_to_skills_md
            &&& record.skill_scope == skill.scope
            &&& record.invocation_type == invocation_type
            &&& record.status == status
            &&& record.occurred_at_ms == occurred_at_ms
            &&& event.skill_name == skill.name
            &&& event.skill_scope == skill.scope
            &&& event.skill_path == skill.path_to_skills_md
            &&& event.plugin_id == skill.plugin_id
            &&& event.remote_plugin_id == skill.remote_plugin_id
            &&& event.invocation_type == invocation_type
        }),
{
}

/// What skills, counter increments and events show of themselves is what they hold.
pub proof fn law_skills_show_every_field(
    skills: Seq<SkillMetadata>,
    i: int,
    counter: SkillCounter,
    event: SkillInvocation,
)
    requires
        0 <= i < skills.len(),
    ensures
        emission::skill_views(skills).len() == skills.len(),
        emission::skill_views(skills)[i] == skills[i]@,
        skills[i]@.name == skills[i].name@,
        skills[i]@.path_to_skills_md == skills[i].path_to_skills_md@,
        skills[i]@.scope == skills[i].scope,
        skills[i].plugin_id is None <==> skills[i]@.plugin_id is None,
        skills[i].plugin_id is Some ==> skills[i]@.plugin_id == Some(skills[i].plugin_id->0@),
        skills[i].remote_plugin_id is None <==> skills[i]@.remote_plugin_id is None,
        skills[i].remote_plugin_id is Some ==> skills[i]@.remote_plugin_id == Some(
            skills[i].remote_plugin_id->0@,
        ),
        counter@.status == counter.status,
        counter@.skill_name == counter.skill_name@,
        counter@.invocation_type == counter.invocation_type,
        event@.skill_name == event.skill_name@,
        event@.skill_scope == event.skill_scope,
        event@.skill_path == event.skill_path@,
        event.plugin_id is None <==> event@.plugin_id is None,
        event.plugin_id is Some ==> event@.plugin_id == Some(event.plugin_id->0@),
        event.remote_plugin_id is None <==> event@.remote_plugin_id is None,
        event.remote_plugin_id is Some ==> event@.remote_plugin_id == Some(
            event.remote_plugin_id->0@,
        ),
        event@.invocation_type == event.invocation_type,
{
}

/// A mentioned skill succeeded exactly if a skill with its path was injected, whatever the other
/// particulars of the two.
pub proof fn law_mentions_succeed_when_their_path_was_injected(
    injected: Seq<SkillMetadataView>,
    skill: SkillMetadataView,
    i: int,
)
    requires
        0 <= i < injected.len(),
    ensures
        injected[i].path_to_skills_md == skill.path_to_skills_md ==> emission::explicit_status(
            injected,
            skill,
        ) == SkillInvocationStatus::Success,
        emission::explicit_status(injected, skill) == SkillInvocationStatus::Error
            ==> injected[i].path_to_skills_md != skill.path_to_skills_md,
        (forall|k: int|
            0 <= k < injected.len() ==> (#[trigger] injected[k]).path_to_skills_md
                != skill.path_to_skills_md) ==> emission::explicit_status(injected, skill)
            == SkillInvocationStatus::Error,
        emission::explicit_status(Seq::empty(), skill) == SkillInvocationStatus::Error,
{
}

/// The key of an implicit use begins with the word of the scope, which no other scope has, and
/// tells apart skills of one scope that differ in their path alone or in their name alone.
pub proof fn law_implicit_uses_are_told_apart(
    left: SkillMetadataView,
    right: SkillMetadataView,
)
    ensures
        left.scope == right.scope && left.path_to_skills_md == right.path_to_skills_md
            && left.name == right.name ==> left.seen_key() == right.seen_key(),
        left.scope != right.scope ==> left.seen_key() != right.seen_key(),
        left.scope == right.scope && left.path_to_skills_md == right.path_to_skills_md && left.name
            != right.name ==> left.seen_key() != right.seen_key(),
        left.scope == right.scope && left.name == right.name && left.path_to_skills_md
            != right.path_to_skills_md ==> left.seen_key() != right.seen_key(),
        ({
            let word = left.scope.word().len() as int;
            let path = word + 1 + left.path_to_skills_md.len();
            let key = left.seen_key();
            &&& key.len() == path + 1 + left.name.len()
            &&& key.subrange(0, word) == left.scope.word()
            &&& key[word] == ':'
            &&& key.subrange(word + 1, path) == left.path_to_skills_md
            &&& key[path] == ':'
            &&& key.subrange(path + 1, key.len() as int) == left.name
        }),
{
    lemma_key_parts(left);
    lemma_key_parts(right);
    reveal_strlit("user");
    reveal_strlit("repo");
    reveal_strlit("system");
    reveal_strlit("admin");
    if left.scope != right.scope {
        assert(left.seen_key()[0] == left.scope.word()[0]);
        assert(right.seen_key()[0] == right.scope.word()[0]);
        assert("user"@[0] == 'u' && "repo"@[0] == 'r' && "system"@[0] == 's' && "admin"@[0]
            == 'a');
    }
}

proof fn lemma_key_parts(skill: SkillMetadataView)
    ensures
        ({
            let word = skill.scope.word().len() as int;
            let path = word + 1 + skill.path_to_skills_md.len();
            let key = skill.seen_key();
            &&& key.len() == path + 1 + skill.name.len()
            &&& key.subrange(0, word) == skill.scope.word()
            &&& key[word] == ':'
            &&& key.subrange(word + 1, path) == skill.path_to_skills_md
            &&& key[path] == ':'
            &&& key.subrange(path + 1, key.len() as int) == skill.name
        }),
{
    let word = skill.scope.word().len() as int;
    let path = word + 1 + skill.path_to_skills_md.len();
    let key = skill.seen_key();
    assert(key.subrange(0, word) =~= skill.scope.word());
    assert(key.subrange(word + 1, path) =~= skill.path_to_skills_md);
    assert(key.subrange(path + 1, key.len() as int) =~= skill.name);
}

/// A turn remembers a use once it was made, and forgets none.
pub proof fn law_turns_remember_their_uses(uses: Seq<SkillMetadataView>, n: int, i: int)
    requires
        0 <= i < n <= uses.len(),
    ensures
        emission::remembered(uses, 0) == Set::<Seq<char>>::empty(),
        emission::remembered(uses, n).contains(uses[i].seen_key()),
    decreases n,
{
    if i < n - 1 {
        law_turns_remember_their_uses(uses, n - 1, i);
    }
}

} // verus!
