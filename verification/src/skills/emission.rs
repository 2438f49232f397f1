//! What the use of skills in a turn gives rise to: counters, records and tracked events.

#[allow(unused_imports)]
use super::invocations;
use super::invocations::skill_scope_as_str;
use super::invocations::SkillInvocationRecord;
use super::invocations::SkillInvocationRecordView;
use super::invocations::SkillInvocationStatus;
use super::invocations::SkillInvocationType;
use super::invocations::SkillScope;
#[allow(unused_imports)]
use crate::text;
use crate::text::opt_string_clone;
use crate::text::str_eq;
use vstd::hash_set::StringHashSet;
use vstd::prelude::*;
#[allow(unused_imports)]
use vstd::string::*;

verus! {

/// The counter that every skill invocation increments by one.
pub const SKILL_INJECTED_COUNTER: &'static str = "codex.skill.injected";

/// A skill, as far as its invocation depends on it. Two skills are the same skill when their
/// paths are the same text.
#[derive(Debug, PartialEq, Eq)]
pub struct SkillMetadata {
    pub name: String,
    pub path_to_skills_md: String,
    pub scope: SkillScope,
    pub plugin_id: Option<String>,
    pub remote_plugin_id: Option<String>,
}

/// What a [`SkillMetadata`] holds.
pub struct SkillMetadataView {
    pub name: Seq<char>,
    pub path_to_skills_md: Seq<char>,
    pub scope: SkillScope,
    pub plugin_id: Option<Seq<char>>,
    pub remote_plugin_id: Option<Seq<char>>,
}

impl View for SkillMetadata {
    type V = SkillMetadataView;

    open spec fn view(&self) -> SkillMetadataView {
        SkillMetadataView {
            name: self.name@,
            path_to_skills_md: self.path_to_skills_md@,
            scope: self.scope,
            plugin_id: text::opt_view(self.plugin_id),
            remote_plugin_id: text::opt_view(self.remote_plugin_id),
        }
    }
}

/// One increment of the counter of injected skills, with its tags. The skill's name is yet to be
/// made fit for a tag.
#[derive(Debug, PartialEq, Eq)]
pub struct SkillCounter {
    pub status: SkillInvocationStatus,
    pub skill_name: String,
    pub invocation_type: SkillInvocationType,
}

/// What a [`SkillCounter`] holds.
pub struct SkillCounterView {
    pub status: SkillInvocationStatus,
    pub skill_name: Seq<char>,
    pub invocation_type: SkillInvocationType,
}

impl View for SkillCounter {
    type V = SkillCounterView;

    open spec fn view(&self) -> SkillCounterView {
        SkillCounterView {
            status: self.status,
            skill_name: self.skill_name@,
            invocation_type: self.invocation_type,
        }
    }
}

/// A skill invocation as it is tracked, and as contributors learn of it.
#[derive(Debug, PartialEq, Eq)]
pub struct SkillInvocation {
    pub skill_name: String,
    pub skill_scope: SkillScope,
    pub skill_path: String,
    pub plugin_id: Option<String>,
    pub remote_plugin_id: Option<String>,
    pub invocation_type: SkillInvocationType,
}

/// What a [`SkillInvocation`] holds.
pub struct SkillInvocationView {
    pub skill_name: Seq<char>,
    pub skill_scope: SkillScope,
    pub skill_path: Seq<char>,
    pub plugin_id: Option<Seq<char>>,
    pub remote_plugin_id: Option<Seq<char>>,
    pub invocation_type: SkillInvocationType,
}

impl View for SkillInvocation {
    type V = SkillInvocationView;

    open spec fn view(&self) -> SkillInvocationView {
        SkillInvocationView {
            skill_name: self.skill_name@,
            skill_scope: self.skill_scope,
            skill_path: self.skill_path@,
            plugin_id: text::opt_view(self.plugin_id),
            remote_plugin_id: text::opt_view(self.remote_plugin_id),
            invocation_type: self.invocation_type,
        }
    }
}

impl SkillMetadataView {
    /// The counter increment of an invocation of the skill.
    pub open spec fn counter(
        self,
        status: SkillInvocationStatus,
        invocation_type: SkillInvocationType,
    ) -> SkillCounterView {
        SkillCounterView { status, skill_name: self.name, invocation_type }
    }

    /// The record of an invocation of the skill.
    pub open spec fn record(
        self,
        thread_id: Seq<char>,
        turn_id: Seq<char>,
        status: SkillInvocationStatus,
        invocation_type: SkillInvocationType,
        occurred_at_ms: i64,
    ) -> SkillInvocationRecordView {
        SkillInvocationRecordView {
            thread_id,
            turn_id,
            skill_name: self.name,
            skill_path: self.path_to_skills_md,
            skill_scope: self.scope,
            invocation_type,
            status,
            occurred_at_ms,
        }
    }

    /// An invocation of the skill as it is tracked.
    pub open spec fn event(self, invocation_type: SkillInvocationType) -> SkillInvocationView {
        SkillInvocationView {
            skill_name: self.name,
            skill_scope: self.scope,
            skill_path: self.path_to_skills_md,
            plugin_id: self.plugin_id,
            remote_plugin_id: self.remote_plugin_id,
            invocation_type,
        }
    }

    /// The key under which an implicit invocation of the skill is remembered.
    pub open spec fn seen_key(self) -> Seq<char> {
        self.scope.word() + seq![':'] + self.path_to_skills_md + seq![':'] + self.name
    }
}

impl SkillMetadata {
    /// The counter increment of an invocation of the skill.
    fn counter(
        &self,
        status: SkillInvocationStatus,
        invocation_type: SkillInvocationType,
    ) -> (counter: SkillCounter)
        ensures
            counter@ == self@.counter(status, invocation_type),
    {
        SkillCounter { status, skill_name: self.name.clone(), invocation_type }
    }

    /// The record of an invocation of the skill.
    fn record(
        &self,
        thread_id: &str,
        turn_id: &str,
        status: SkillInvocationStatus,
        invocation_type: SkillInvocationType,
        occurred_at_ms: i64,
    ) -> (record: SkillInvocationRecord)
        ensures
            record@ == self@.record(thread_id@, turn_id@, status, invocation_type, occurred_at_ms),
    {
        SkillInvocationRecord {
            thread_id: thread_id.to_owned(),
            turn_id: turn_id.to_owned(),
            skill_name: self.name.clone(),
            skill_path: self.path_to_skills_md.clone(),
            skill_scope: self.scope,
            invocation_type,
            status,
            occurred_at_ms,
        }
    }

    /// An invocation of the skill as it is tracked.
    fn event(&self, invocation_type: SkillInvocationType) -> (invocation: SkillInvocation)
        ensures
            invocation@ == self@.event(invocation_type),
    {
        SkillInvocation {
            skill_name: self.name.clone(),
            skill_scope: self.scope,
            skill_path: self.path_to_skills_md.clone(),
            plugin_id: opt_string_clone(&self.plugin_id),
            remote_plugin_id: opt_string_clone(&self.remote_plugin_id),
            invocation_type,
        }
    }

    /// The key under which an implicit invocation of the skill is remembered.
    fn seen_key(&self) -> (key: String)
        ensures
            key@ == self@.seen_key(),
    {
        let mut key = skill_scope_as_str(self.scope).to_owned();
        key.push(':');
        key.append(self.path_to_skills_md.as_str());
        key.push(':');
        key.append(self.name.as_str());
        proof {
            assert(key@ =~= self@.seen_key());
        }
        key
    }
}

/// The views of a list of skills.
pub open spec fn skill_views(skills: Seq<SkillMetadata>) -> Seq<SkillMetadataView> {
    skills.map_values(|skill: SkillMetadata| skill@)
}

/// A skill that was mentioned was used if a skill with its path was injected.
pub open spec fn explicit_status(
    injected: Seq<SkillMetadataView>,
    skill: SkillMetadataView,
) -> SkillInvocationStatus {
    if exists|i: int|
        0 <= i < injected.len() && (#[trigger] injected[i]).path_to_skills_md
            == skill.path_to_skills_md {
        SkillInvocationStatus::Success
    } else {
        SkillInvocationStatus::Error
    }
}

/// What explicit mentions give rise to.
pub struct ExplicitSkillInvocations {
    /// One increment for each mentioned skill.
    pub counters: Vec<SkillCounter>,
    /// One record for each mentioned skill.
    pub records: Vec<SkillInvocationRecord>,
    /// One event for each injected skill.
    pub events: Vec<SkillInvocation>,
}

/// Decides whether a mentioned skill was used.
fn find_explicit_status(injected: &Vec<SkillMetadata>, skill: &SkillMetadata) -> (status:
    SkillInvocationStatus)
    ensures
        status == explicit_status(skill_views(injected@), skill@),
{
    let ghost views = skill_views(injected@);
    let mut i: usize = 0;
    while i < injected.len()
        invariant
            views == skill_views(injected@),
            i <= injected@.len(),
            forall|j: int|
                0 <= j < i ==> (#[trigger] views[j]).path_to_skills_md != skill@.path_to_skills_md,
        decreases injected@.len() - i,
    {
        if str_eq(
            injected[i].path_to_skills_md.as_str(),
            skill.path_to_skills_md.as_str(),
        ) {
            proof {
                assert(views[i as int].path_to_skills_md == skill@.path_to_skills_md);
            }
            return SkillInvocationStatus::Success;
        }
        i += 1;
    }
    SkillInvocationStatus::Error
}

/// Works out what the explicit mentions of a turn give rise to: a counter increment and a record
/// for each mentioned skill, a success if it was injected and an error if not; and a tracked
/// event for each injected skill.
pub fn explicit_skill_invocations(
    thread_id: &str,
    turn_id: &str,
    mentioned: &Vec<SkillMetadata>,
    injected: &Vec<SkillMetadata>,
    occurred_at_ms: i64,
) -> (invocations: ExplicitSkillInvocations)
    ensures
        invocations.counters@.len() == mentioned@.len(),
        invocations.records@.len() == mentioned@.len(),
        invocations.events@.len() == injected@.len(),
        forall|i: int|
            #![trigger mentioned@[i]]
            0 <= i < mentioned@.len() ==> {
                let status = explicit_status(skill_views(injected@), mentioned@[i]@);
                &&& invocations.counters@[i]@ == mentioned@[i]@.counter(
                    status,
                    SkillInvocationType::Explicit,
                )
                &&& invocations.records@[i]@ == mentioned@[i]@.record(
                    thread_id@,
                    turn_id@,
                    status,
                    SkillInvocationType::Explicit,
                    occurred_at_ms,
                )
            },
        forall|i: int|
            #![trigger injected@[i]]
            0 <= i < injected@.len() ==> invocations.events@[i]@ == injected@[i]@.event(
                SkillInvocationType::Explicit,
            ),
        forall|i: int|
            #![trigger invocations.records@[i]]
            #![trigger invocations.counters@[i]]
            0 <= i < mentioned@.len() ==> {
                let counter = invocations.counters@[i];
                let record = invocations.records@[i];
                let skill = mentioned@[i];
                &&& record.thread_id@ == thread_id@
                &&& record.turn_id@ == turn_id@
                &&& record.skill_name@ == skill.name@
                &&& record.skill_path@ == skill.path_to_skills_md@
                &&& record.skill_scope == skill.scope
                &&& record.invocation_type == SkillInvocationType::Explicit
                &&& record.occurred_at_ms == occurred_at_ms
                &&& record.status == SkillInvocationStatus::Success <==> exists|j: int|
                    0 <= j < injected@.len() && (#[trigger] injected@[j]).path_to_skills_md@
                        == skill.path_to_skills_md@
                &&& counter.skill_name@ == skill.name@
                &&& counter.invocation_type == SkillInvocationType::Explicit
                &&& counter.status == record.status
            },
        forall|i: int|
            #![trigger invocations.events@[i]]
            0 <= i < injected@.len() ==> {
                let event = invocations.events@[i];
                let skill = injected@[i];
                &&& event.skill_name@ == skill.name@
                &&& event.skill_scope == skill.scope
                &&& event.skill_path@ == skill.path_to_skills_md@
                &&& event@.plugin_id == skill@.plugin_id
                &&& event@.remote_plugin_id == skill@.remote_plugin_id
                &&& event.invocation_type == SkillInvocationType::Explicit
            },
{
    let mut counters: Vec<SkillCounter> = Vec::new();
    let mut records: Vec<SkillInvocationRecord> = Vec::new();
    let mut i: usize = 0;
    while i < mentioned.len()
        invariant
            i <= mentioned@.len(),
            counters@.len() == i,
            records@.len() == i,
            forall|j: int|
                #![trigger mentioned@[j]]
                0 <= j < i ==> {
                    let status = explicit_status(skill_views(injected@), mentioned@[j]@);
                    &&& counters@[j]@ == mentioned@[j]@.counter(
                        status,
                        SkillInvocationType::Explicit,
                    )
                    &&& records@[j]@ == mentioned@[j]@.record(
                        thread_id@,
                        turn_id@,
                        status,
                        SkillInvocationType::Explicit,
                        occurred_at_ms,
                    )
                },
        decreases mentioned@.len() - i,
    {
        let skill = &mentioned[i];
        let status = find_explicit_status(injected, skill);
        counters.push(skill.counter(status, SkillInvocationType::Explicit));
        records.push(
            skill.record(
                thread_id,
                turn_id,
                status,
                SkillInvocationType::Explicit,
                occurred_at_ms,
            ),
        );
        i += 1;
    }
    let mut events: Vec<SkillInvocation> = Vec::new();
    let mut k: usize = 0;
    while k < injected.len()
        invariant
            k <= injected@.len(),
            events@.len() == k,
            forall|j: int|
                #![trigger injected@[j]]
                0 <= j < k ==> events@[j]@ == injected@[j]@.event(
                    SkillInvocationType::Explicit,
                ),
        decreases injected@.len() - k,
    {
        events.push(injected[k].event(SkillInvocationType::Explicit));
        k += 1;
    }
    proof {
        let views = skill_views(injected@);
        assert forall|i: int|
            #![trigger records@[i]]
            #![trigger counters@[i]]
            0 <= i < mentioned@.len() implies {
            let counter = counters@[i];
            let record = records@[i];
            let skill = mentioned@[i];
            &&& record.thread_id@ == thread_id@
            &&& record.turn_id@ == turn_id@
            &&& record.skill_name@ == skill.name@
            &&& record.skill_path@ == skill.path_to_skills_md@
            &&& record.skill_scope == skill.scope
            &&& record.invocation_type == SkillInvocationType::Explicit
            &&& record.occurred_at_ms == occurred_at_ms
            &&& record.status == SkillInvocationStatus::Success <==> exists|j: int|
                0 <= j < injected@.len() && (#[trigger] injected@[j]).path_to_skills_md@
                    == skill.path_to_skills_md@
            &&& counter.skill_name@ == skill.name@
            &&& counter.invocation_type == SkillInvocationType::Explicit
            &&& counter.status == record.status
        } by {
            let skill = mentioned@[i];
            assert(records@[i]@.status == explicit_status(views, skill@));
            assert(counters@[i]@.status == records@[i]@.status);
            if exists|j: int|
                0 <= j < injected@.len() && (#[trigger] injected@[j]).path_to_skills_md@
                    == skill.path_to_skills_md@ {
                let j = choose|j: int|
                    0 <= j < injected@.len() && (#[trigger] injected@[j]).path_to_skills_md@
                        == skill.path_to_skills_md@;
                assert(views[j].path_to_skills_md == skill@.path_to_skills_md);
            }
            if records@[i].status == SkillInvocationStatus::Success {
                let j = choose|j: int|
                    0 <= j < views.len() && (#[trigger] views[j]).path_to_skills_md
                        == skill@.path_to_skills_md;
                assert(injected@[j].path_to_skills_md@ == skill.path_to_skills_md@);
            }
        }
        assert forall|i: int|
            #![trigger events@[i]]
            0 <= i < injected@.len() implies {
            let event = events@[i];
            let skill = injected@[i];
            &&& event.skill_name@ == skill.name@
            &&& event.skill_scope == skill.scope
            &&& event.skill_path@ == skill.path_to_skills_md@
            &&& event@.plugin_id == skill@.plugin_id
            &&& event@.remote_plugin_id == skill@.remote_plugin_id
            &&& event.invocation_type == SkillInvocationType::Explicit
        } by {
            assert(events@[i]@ == injected@[i]@.event(SkillInvocationType::Explicit));
        }
    }
    ExplicitSkillInvocations { counters, records, events }
}

/// What the first implicit use of a skill in a turn gives rise to.
pub struct ImplicitSkillInvocation {
    pub counter: SkillCounter,
    pub record: SkillInvocationRecord,
    pub event: SkillInvocation,
}

/// The skills that a turn has used implicitly so far.
pub struct ImplicitSkillInvocations {
    seen: StringHashSet,
}

impl View for ImplicitSkillInvocations {
    type V = Set<Seq<char>>;

    closed spec fn view(&self) -> Set<Seq<char>> {
        self.seen@
    }
}

impl Default for ImplicitSkillInvocations {
    fn default() -> (invocations: Self)
        ensures
            invocations@ == Set::<Seq<char>>::empty(),
    {
        ImplicitSkillInvocations::new()
    }
}

impl ImplicitSkillInvocations {
    /// A turn that has not used a skill implicitly.
    pub fn new() -> (invocations: Self)
        ensures
            invocations@ == Set::<Seq<char>>::empty(),
    {
        ImplicitSkillInvocations { seen: StringHashSet::new() }
    }

    /// Takes the implicit use of a skill into account: the first use in the turn gives rise to a
    /// counter increment, a record and a tracked event, any later one to nothing.
    pub fn observe(
        &mut self,
        thread_id: &str,
        turn_id: &str,
        candidate: &SkillMetadata,
        occurred_at_ms: i64,
    ) -> (invocation: Option<ImplicitSkillInvocation>)
        ensures
            final(self)@ == old(self)@.insert(candidate@.seen_key()),
            match invocation {
                Some(first) => {
                    &&& !old(self)@.contains(candidate@.seen_key())
                    &&& first.counter@ == candidate@.counter(
                        SkillInvocationStatus::Success,
                        SkillInvocationType::Implicit,
                    )
                    &&& first.record@ == candidate@.record(
                        thread_id@,
                        turn_id@,
                        SkillInvocationStatus::Success,
                        SkillInvocationType::Implicit,
                        occurred_at_ms,
                    )
                    &&& first.event@ == candidate@.event(SkillInvocationType::Implicit)
                    &&& first.counter.skill_name@ == candidate.name@
                    &&& first.counter.status == SkillInvocationStatus::Success
                    &&& first.counter.invocation_type == SkillInvocationType::Implicit
                    &&& first.record.thread_id@ == thread_id@
                    &&& first.record.turn_id@ == turn_id@
                    &&& first.record.skill_name@ == candidate.name@
                    &&& first.record.skill_path@ == candidate.path_to_skills_md@
                    &&& first.record.skill_scope == candidate.scope
                    &&& first.record.invocation_type == SkillInvocationType::Implicit
                    &&& first.record.status == SkillInvocationStatus::Success
                    &&& first.record.occurred_at_ms == occurred_at_ms
                    &&& first.event.skill_name@ == candidate.name@
                    &&& first.event.skill_scope == candidate.scope
                    &&& first.event.skill_path@ == candidate.path_to_skills_md@
                    &&& first.event@.plugin_id == candidate@.plugin_id
                    &&& first.event@.remote_plugin_id == candidate@.remote_plugin_id
                    &&& first.event.invocation_type == SkillInvocationType::Implicit
                },
                None => old(self)@.contains(candidate@.seen_key()),
            },
    {
        if !self.seen.insert(candidate.seen_key()) {
            return None;
        }
        Some(
            ImplicitSkillInvocation {
                counter: candidate.counter(
                    SkillInvocationStatus::Success,
                    SkillInvocationType::Implicit,
                ),
                record: candidate.record(
                    thread_id,
                    turn_id,
                    SkillInvocationStatus::Success,
                    SkillInvocationType::Implicit,
                    occurred_at_ms,
                ),
                event: candidate.event(SkillInvocationType::Implicit),
            },
        )
    }
}

/// The keys that a turn remembers after the first `n` of its implicit uses.
pub open spec fn remembered(uses: Seq<SkillMetadataView>, n: int) -> Set<Seq<char>>
    decreases n,
{
    if n <= 0 {
        Set::empty()
    } else {
        remembered(uses, n - 1).insert(uses[n - 1].seen_key())
    }
}

/// In a turn, an implicit use gives rise to an event exactly when it is the first use of its
/// skill: its key is remembered exactly when an earlier use had it.
pub proof fn law_implicit_use_counts_once_a_turn(uses: Seq<SkillMetadataView>, n: int)
    requires
        0 <= n < uses.len(),
    ensures
        remembered(uses, n).contains(uses[n].seen_key()) <==> exists|i: int|
            0 <= i < n && (#[trigger] uses[i]).seen_key() == uses[n].seen_key(),
{
    lemma_remembered(uses, n, uses[n].seen_key());
}

proof fn lemma_remembered(uses: Seq<SkillMetadataView>, n: int, key: Seq<char>)
    requires
        0 <= n <= uses.len(),
    ensures
        remembered(uses, n).contains(key) <==> exists|i: int|
            0 <= i < n && (#[trigger] uses[i]).seen_key() == key,
    decreases n,
{
    if n > 0 {
        lemma_remembered(uses, n - 1, key);
        if uses[n - 1].seen_key() != key && remembered(uses, n).contains(key) {
            let i = choose|i: int| 0 <= i < n - 1 && (#[trigger] uses[i]).seen_key() == key;
            assert(uses[i].seen_key() == key);
        }
    }
}

} // verus!
