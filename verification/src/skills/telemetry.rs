//! Exact token telemetry of skill reads.
//!
//! A skill's contents enter a request as a typed item. Once a request has succeeded with an exact
//! attribution, each skill that survived into it unchanged is counted, once by identity, with the
//! tokens that the provider reports for its item. Without one nothing is counted: no estimate
//! takes the place of a missing receipt.

#[allow(unused_imports)]
use super::attribution;
use super::attribution::validate_terminal_attribution;
use super::attribution::SkillReadReceiptKey;
use super::attribution::SkillReadReceiptKeyView;
#[allow(unused_imports)]
use crate::digest;
use crate::digest::sha1_digest;
use crate::provider::handle::ProviderRequestAttribution;
#[allow(unused_imports)]
use crate::provider::items;
#[allow(unused_imports)]
use crate::provider::types;
use crate::provider::types::ProviderRequestAttributionError;
use crate::provider::types::ProviderRequestAttributionErrorView;
use crate::provider::types::ProviderTerminalAttributionView;
use crate::provider::types::ProviderTerminalInputItem;
use crate::provider::types::ProviderTerminalInputItemView;
use crate::provider::types::ResponseItem;
use crate::provider::types::ResponseItemView;
#[allow(unused_imports)]
use crate::text;
use crate::text::joined;
use crate::text::lower_hex;
use crate::text::str_eq;
use vstd::hash_map::StringHashMap;
use vstd::prelude::*;

verus! {

/// The schema of the observation that carries the metrics.
pub const CODEX_TMCP_HOST_OBSERVATION_SCHEMA: &'static str = "codex-tmcp-host-observation-v0.1";

/// How many skills were read, and the input tokens that they took.
#[derive(Debug, Clone, Copy, PartialEq, Eq)]
pub struct SkillReadMetrics {
    pub skill_read_calls: u64,
    pub skill_read_input_tokens: u64,
}

/// Nothing read.
pub open spec fn no_reads() -> SkillReadMetrics {
    SkillReadMetrics { skill_read_calls: 0, skill_read_input_tokens: 0 }
}

impl Default for SkillReadMetrics {
    fn default() -> (metrics: Self)
        ensures
            metrics == no_reads(),
    {
        SkillReadMetrics { skill_read_calls: 0, skill_read_input_tokens: 0 }
    }
}

/// What a turn can say of its skill reads.
#[derive(Debug, Clone, Copy, PartialEq, Eq)]
pub enum SkillReadTelemetryOutcome {
    /// No skill was read.
    CompleteZero,
    /// The metrics are exact.
    CompleteExact,
    /// What skills were read, if any, and what they took is not known.
    Unavailable,
}

impl Default for SkillReadTelemetryOutcome {
    fn default() -> (outcome: Self)
        ensures
            outcome == SkillReadTelemetryOutcome::CompleteZero,
    {
        SkillReadTelemetryOutcome::CompleteZero
    }
}

/// The content identity of a skill with the contents `contents`.
pub open spec fn content_identity(contents: Seq<char>) -> Seq<char> {
    "sha1:"@ + text::hex(digest::sha1(vstd::utf8::encode_utf8(contents)))
}

/// Digests the contents of a skill.
pub fn content_digest(contents: &str) -> (identity: String)
    ensures
        identity@ == content_identity(contents@),
{
    let output = sha1_digest(contents.as_bytes());
    joined("sha1:", lower_hex(output.as_slice()).as_str())
}

/// Where a skill item comes from, and the item as it was complete.
#[derive(Debug)]
pub struct SkillReadProvenance {
    session_id: String,
    turn_id: String,
    canonical_path: String,
    content_digest: String,
    response_item_id: String,
    expected_item: ResponseItem,
}

/// What a [`SkillReadProvenance`] holds.
pub struct SkillReadProvenanceView {
    pub session_id: Seq<char>,
    pub turn_id: Seq<char>,
    pub canonical_path: Seq<char>,
    pub content_digest: Seq<char>,
    pub response_item_id: Seq<char>,
    pub expected_item: ResponseItemView,
}

impl SkillReadProvenanceView {
    /// The identity that a read is counted under.
    pub open spec fn key(self) -> SkillReadKeyView {
        SkillReadKeyView {
            session_id: self.session_id,
            turn_id: self.turn_id,
            canonical_path: self.canonical_path,
            content_digest: self.content_digest,
        }
    }
}

impl View for SkillReadProvenance {
    type V = SkillReadProvenanceView;

    closed spec fn view(&self) -> SkillReadProvenanceView {
        SkillReadProvenanceView {
            session_id: self.session_id@,
            turn_id: self.turn_id@,
            canonical_path: self.canonical_path@,
            content_digest: self.content_digest@,
            response_item_id: self.response_item_id@,
            expected_item: self.expected_item@,
        }
    }
}

impl Clone for SkillReadProvenance {
    fn clone(&self) -> (copy: Self)
        ensures
            copy == *self,
    {
        SkillReadProvenance {
            session_id: self.session_id.clone(),
            turn_id: self.turn_id.clone(),
            canonical_path: self.canonical_path.clone(),
            content_digest: self.content_digest.clone(),
            response_item_id: self.response_item_id.clone(),
            expected_item: self.expected_item.clone(),
        }
    }
}

impl SkillReadProvenance {
    /// The provenance is that of an item with an identifier.
    pub open spec fn wf(&self) -> bool {
        self@.expected_item.id == Some(self@.response_item_id)
    }

    /// The provenance of a complete skill item, with the digest of its contents.
    pub fn for_skill(
        session_id: &str,
        turn_id: &str,
        canonical_path: &str,
        contents: &str,
        response_item: ResponseItem,
    ) -> (provenance: Self)
        requires
            response_item.id is Some,
        ensures
            provenance.wf(),
            provenance@ == (SkillReadProvenanceView {
                session_id: session_id@,
                turn_id: turn_id@,
                canonical_path: canonical_path@,
                content_digest: content_identity(contents@),
                response_item_id: response_item@.id->0,
                expected_item: response_item@,
            }),
    {
        let identity = content_digest(contents);
        Self::with_digest(session_id, turn_id, canonical_path, identity.as_str(), response_item)
    }

    /// The provenance of a skill item whose content digest is known.
    pub fn with_digest(
        session_id: &str,
        turn_id: &str,
        canonical_path: &str,
        content_digest: &str,
        response_item: ResponseItem,
    ) -> (provenance: Self)
        requires
            response_item.id is Some,
        ensures
            provenance.wf(),
            provenance@ == (SkillReadProvenanceView {
                session_id: session_id@,
                turn_id: turn_id@,
                canonical_path: canonical_path@,
                content_digest: content_digest@,
                response_item_id: response_item@.id->0,
                expected_item: response_item@,
            }),
    {
        let response_item_id = match &response_item.id {
            Some(id) => id.clone(),
            None => String::new(),
        };
        SkillReadProvenance {
            session_id: session_id.to_owned(),
            turn_id: turn_id.to_owned(),
            canonical_path: canonical_path.to_owned(),
            content_digest: content_digest.to_owned(),
            response_item_id,
            expected_item: response_item,
        }
    }

    /// The identity that this read is counted under.
    fn key(&self) -> (key: SkillReadKey)
        ensures
            key@ == self@.key(),
    {
        SkillReadKey {
            session_id: self.session_id.clone(),
            turn_id: self.turn_id.clone(),
            canonical_path: self.canonical_path.clone(),
            content_digest: self.content_digest.clone(),
        }
    }

    /// Decides whether the read belongs to a session and a turn.
    fn belongs_to(&self, session_id: &str, turn_id: &str) -> (belongs: bool)
        ensures
            belongs == (self@.session_id == session_id@ && self@.turn_id == turn_id@),
    {
        str_eq(self.session_id.as_str(), session_id) && str_eq(self.turn_id.as_str(), turn_id)
    }
}

/// The identity that a skill read is counted under.
#[derive(Debug)]
struct SkillReadKey {
    session_id: String,
    turn_id: String,
    canonical_path: String,
    content_digest: String,
}

/// The session, the turn, the path and the content digest of a read.
pub struct SkillReadKeyView {
    pub session_id: Seq<char>,
    pub turn_id: Seq<char>,
    pub canonical_path: Seq<char>,
    pub content_digest: Seq<char>,
}

impl View for SkillReadKey {
    type V = SkillReadKeyView;

    closed spec fn view(&self) -> SkillReadKeyView {
        SkillReadKeyView {
            session_id: self.session_id@,
            turn_id: self.turn_id@,
            canonical_path: self.canonical_path@,
            content_digest: self.content_digest@,
        }
    }
}

impl SkillReadKey {
    /// Decides whether two keys are the same identity.
    fn same_as(&self, other: &SkillReadKey) -> (same: bool)
        ensures
            same == (self@ == other@),
    {
        str_eq(self.session_id.as_str(), other.session_id.as_str()) && str_eq(
            self.turn_id.as_str(),
            other.turn_id.as_str(),
        ) && str_eq(self.canonical_path.as_str(), other.canonical_path.as_str()) && str_eq(
            self.content_digest.as_str(),
            other.content_digest.as_str(),
        )
    }
}

/// A successful request: its input as it was sent, and what the provider attributes to it.
pub struct SkillReadProviderRequest {
    pub input: Vec<ResponseItem>,
    pub attribution: ProviderRequestAttribution,
}

/// The tokens of the last of the first `n` receipt items that carries the identifier `id`.
pub open spec fn reported_tokens(
    items: Seq<ProviderTerminalInputItemView>,
    n: int,
    id: Seq<char>,
) -> Option<u64>
    decreases n,
{
    if n <= 0 {
        None
    } else if items[n - 1].item_id == id {
        Some(items[n - 1].input_tokens)
    } else {
        reported_tokens(items, n - 1, id)
    }
}

/// The reads counted so far.
pub struct SkillReadTallyView {
    pub counted: Set<SkillReadKeyView>,
    pub metrics: SkillReadMetrics,
}

/// The telemetry of a turn.
pub struct SkillReadTelemetryView {
    pub candidates: Map<Seq<char>, SkillReadProvenanceView>,
    pub counted: Set<SkillReadKeyView>,
    pub accepted_receipt_key: Option<SkillReadReceiptKeyView>,
    pub metrics: SkillReadMetrics,
    pub outcome: SkillReadTelemetryOutcome,
    pub successful_request_recorded: bool,
}

impl SkillReadTelemetryView {
    /// Candidates stand under the identifiers of their items.
    pub open spec fn candidates_wf(self) -> bool {
        forall|id: Seq<char>| #[trigger]
            self.candidates.contains_key(id) ==> {
                &&& self.candidates[id].response_item_id == id
                &&& self.candidates[id].expected_item.id == Some(id)
            }
    }

    /// Candidates stand under their own identifiers; each counted read is one call; unless the
    /// outcome is exact, nothing is counted and no receipt is accepted; where it is exact, there
    /// was a candidate; and a zero outcome beside a candidate awaits a request.
    pub open spec fn wf(self) -> bool {
        &&& self.counted.finite()
        &&& self.metrics.skill_read_calls == self.counted.len()
        &&& self.candidates_wf()
        &&& self.outcome != SkillReadTelemetryOutcome::CompleteExact ==> {
            &&& self.metrics == no_reads()
            &&& self.counted == Set::<SkillReadKeyView>::empty()
            &&& self.accepted_receipt_key is None
        }
        &&& self.outcome == SkillReadTelemetryOutcome::CompleteExact ==> !self.candidates.is_empty()
        &&& self.outcome == SkillReadTelemetryOutcome::CompleteZero && !self.candidates.is_empty()
            ==> !self.successful_request_recorded
    }

    /// The telemetry of a turn that has not read a skill.
    pub open spec fn fresh() -> Self {
        SkillReadTelemetryView {
            candidates: Map::empty(),
            counted: Set::empty(),
            accepted_receipt_key: None,
            metrics: no_reads(),
            outcome: SkillReadTelemetryOutcome::CompleteZero,
            successful_request_recorded: false,
        }
    }

    /// A candidate is registered under its item's identifier, and a request is awaited for it.
    pub open spec fn registered(self, provenance: SkillReadProvenanceView) -> Self {
        SkillReadTelemetryView {
            candidates: self.candidates.insert(provenance.response_item_id, provenance),
            accepted_receipt_key: None,
            successful_request_recorded: false,
            ..self
        }
    }

    /// A request succeeded and nothing is counted, with this outcome.
    pub open spec fn withheld(self, outcome: SkillReadTelemetryOutcome) -> Self {
        SkillReadTelemetryView {
            counted: Set::empty(),
            accepted_receipt_key: None,
            metrics: no_reads(),
            outcome,
            successful_request_recorded: true,
            ..self
        }
    }

    /// The outcome where nothing can be counted: zero only if there was nothing to count.
    pub open spec fn empty_outcome(self) -> SkillReadTelemetryOutcome {
        if self.candidates.is_empty() {
            SkillReadTelemetryOutcome::CompleteZero
        } else {
            SkillReadTelemetryOutcome::Unavailable
        }
    }

    /// The item is a candidate that survived unchanged.
    pub open spec fn survives(self, item: ResponseItemView) -> bool {
        item.id matches Some(id) && self.candidates.contains_key(id)
            && self.candidates[id].expected_item == item
    }

    /// The item is a candidate of this session and turn that survived unchanged.
    pub open spec fn countable(
        self,
        session_id: Seq<char>,
        turn_id: Seq<char>,
        item: ResponseItemView,
    ) -> bool {
        &&& self.survives(item)
        &&& self.candidates[item.id->0].session_id == session_id
        &&& self.candidates[item.id->0].turn_id == turn_id
    }

    /// Some item is a candidate that survived unchanged.
    pub open spec fn any_survives(self, input: Seq<ResponseItemView>) -> bool {
        exists|i: int| 0 <= i < input.len() && self.survives(#[trigger] input[i])
    }

    /// Some item is a candidate that survived unchanged, of another session or turn.
    pub open spec fn any_strays(
        self,
        session_id: Seq<char>,
        turn_id: Seq<char>,
        input: Seq<ResponseItemView>,
    ) -> bool {
        exists|i: int|
            0 <= i < input.len() && self.survives(#[trigger] input[i]) && !self.countable(
                session_id,
                turn_id,
                input[i],
            )
    }

    /// The tally once the first `n` items of a request are counted with the tokens that the
    /// receipt reports for them, each identity once; none if the tokens exceed the counter.
    pub open spec fn tally(
        self,
        session_id: Seq<char>,
        turn_id: Seq<char>,
        input: Seq<ResponseItemView>,
        receipt_items: Seq<ProviderTerminalInputItemView>,
        n: int,
    ) -> Option<SkillReadTallyView>
        decreases n,
    {
        if n <= 0 {
            Some(SkillReadTallyView { counted: self.counted, metrics: self.metrics })
        } else {
            match self.tally(session_id, turn_id, input, receipt_items, n - 1) {
                None => None,
                Some(before) => {
                    let item = input[n - 1];
                    let key = self.candidates[item.id->0].key();
                    if !self.countable(session_id, turn_id, item) || before.counted.contains(key) {
                        Some(before)
                    } else {
                        let tokens = before.metrics.skill_read_input_tokens + reported_tokens(
                            receipt_items,
                            receipt_items.len() as int,
                            item.id->0,
                        )->0;
                        if tokens > u64::MAX {
                            None
                        } else {
                            Some(
                                SkillReadTallyView {
                                    counted: before.counted.insert(key),
                                    metrics: SkillReadMetrics {
                                        skill_read_calls: (before.metrics.skill_read_calls + 1) as u64,
                                        skill_read_input_tokens: tokens as u64,
                                    },
                                },
                            )
                        }
                    }
                },
            }
        }
    }

    /// The telemetry after a request with an attribution that is exact for it: a receipt that was
    /// accepted before counts nothing again; a new one counts its items.
    pub open spec fn counted_with(
        self,
        session_id: Seq<char>,
        turn_id: Seq<char>,
        input: Seq<ResponseItemView>,
        attributed: ProviderTerminalAttributionView,
    ) -> (Self, Result<(), ProviderRequestAttributionErrorView>) {
        let key = attribution::receipt_key(session_id, turn_id, attributed);
        if self.accepted_receipt_key == Some(key) {
            (
                SkillReadTelemetryView {
                    outcome: SkillReadTelemetryOutcome::CompleteExact,
                    successful_request_recorded: true,
                    ..self
                },
                Ok(()),
            )
        } else {
            match self.tally(
                session_id,
                turn_id,
                input,
                attributed.receipt.input_items,
                input.len() as int,
            ) {
                None => (
                    self.withheld(SkillReadTelemetryOutcome::Unavailable),
                    Err(ProviderRequestAttributionErrorView::InputTokenSumOverflow),
                ),
                Some(tally) => (
                    SkillReadTelemetryView {
                        counted: tally.counted,
                        accepted_receipt_key: Some(key),
                        metrics: tally.metrics,
                        outcome: SkillReadTelemetryOutcome::CompleteExact,
                        successful_request_recorded: true,
                        ..self
                    },
                    Ok(()),
                ),
            }
        }
    }

    /// The telemetry after a successful request, and what its recording answers.
    pub open spec fn recorded(
        self,
        session_id: Seq<char>,
        turn_id: Seq<char>,
        input: Seq<ResponseItemView>,
        resolved: Result<ProviderTerminalAttributionView, ProviderRequestAttributionErrorView>,
    ) -> (Self, Result<(), ProviderRequestAttributionErrorView>) {
        match resolved {
            Err(error) => (
                self.withheld(SkillReadTelemetryOutcome::Unavailable),
                Err(error),
            ),
            Ok(attributed) => if self.any_strays(session_id, turn_id, input) {
                (self.withheld(SkillReadTelemetryOutcome::Unavailable), Ok(()))
            } else if !self.any_survives(input) {
                (self.withheld(self.empty_outcome()), Ok(()))
            } else {
                match attribution::attribution_fault(input, session_id, turn_id, attributed) {
                    Some(fault) => (
                        self.withheld(SkillReadTelemetryOutcome::Unavailable),
                        Err(fault),
                    ),
                    None => self.counted_with(session_id, turn_id, input, attributed),
                }
            },
        }
    }

    /// The metrics that may be shown to the host: exact ones, or zero where there was nothing to
    /// count or a successful request settled it.
    pub open spec fn observation(self) -> Option<SkillReadMetrics> {
        match self.outcome {
            SkillReadTelemetryOutcome::CompleteExact => Some(self.metrics),
            SkillReadTelemetryOutcome::CompleteZero => if self.candidates.is_empty()
                || self.successful_request_recorded {
                Some(self.metrics)
            } else {
                None
            },
            SkillReadTelemetryOutcome::Unavailable => None,
        }
    }
}

/// The telemetry of the skill reads of one turn.
pub struct SkillReadTelemetry {
    candidates: StringHashMap<SkillReadProvenance>,
    counted: Vec<SkillReadKey>,
    accepted_receipt_key: Option<SkillReadReceiptKey>,
    metrics: SkillReadMetrics,
    outcome: SkillReadTelemetryOutcome,
    successful_request_recorded: bool,
}

/// The identities of a list of counted reads.
spec fn key_views(keys: Seq<SkillReadKey>) -> Seq<SkillReadKeyView> {
    keys.map_values(|key: SkillReadKey| key@)
}

impl View for SkillReadTelemetry {
    type V = SkillReadTelemetryView;

    closed spec fn view(&self) -> SkillReadTelemetryView {
        SkillReadTelemetryView {
            candidates: self.candidates@.map_values(|candidate: SkillReadProvenance| candidate@),
            counted: key_views(self.counted@).to_set(),
            accepted_receipt_key: match self.accepted_receipt_key {
                Some(key) => Some(key@),
                None => None,
            },
            metrics: self.metrics,
            outcome: self.outcome,
            successful_request_recorded: self.successful_request_recorded,
        }
    }
}

/// Finds the tokens that the receipt reports for an item that it counts.
fn find_reported_tokens(items: &Vec<ProviderTerminalInputItem>, id: &str) -> (tokens: u64)
    requires
        items::receipted(types::input_item_views(items@), items@.len() as int, id@),
    ensures
        reported_tokens(types::input_item_views(items@), items@.len() as int, id@) == Some(tokens),
{
    let ghost views = types::input_item_views(items@);
    let mut n: usize = items.len();
    loop
        invariant
            views == types::input_item_views(items@),
            n <= items@.len(),
            items::receipted(views, n as int, id@),
            reported_tokens(views, items@.len() as int, id@) == reported_tokens(
                views,
                n as int,
                id@,
            ),
        decreases n,
    {
        proof {
            let j = choose|j: int| 0 <= j < n && (#[trigger] views[j]).item_id == id@;
            assert(views[n - 1] == items@[n - 1]@);
            if views[n - 1].item_id != id@ {
                assert(0 <= j < n - 1 && views[j].item_id == id@);
            }
        }
        n -= 1;
        if str_eq(items[n].item_id.as_str(), id) {
            return items[n].input_tokens;
        }
    }
}

impl Default for SkillReadTelemetry {
    fn default() -> (telemetry: Self)
        ensures
            telemetry.wf(),
            telemetry@ == SkillReadTelemetryView::fresh(),
    {
        SkillReadTelemetry::new()
    }
}

impl SkillReadTelemetry {
    /// No identity is counted twice.
    pub closed spec fn counts_once(&self) -> bool {
        key_views(self.counted@).no_duplicates()
    }

    /// No identity is counted twice, and what the telemetry holds is well formed.
    pub open spec fn wf(&self) -> bool {
        &&& self.counts_once()
        &&& self@.wf()
    }

    /// The telemetry of a turn that has not read a skill.
    pub fn new() -> (telemetry: Self)
        ensures
            telemetry.wf(),
            telemetry@ == SkillReadTelemetryView::fresh(),
    {
        let telemetry = SkillReadTelemetry {
            candidates: StringHashMap::new(),
            counted: Vec::new(),
            accepted_receipt_key: None,
            metrics: SkillReadMetrics::default(),
            outcome: SkillReadTelemetryOutcome::default(),
            successful_request_recorded: false,
        };
        proof {
            assert(telemetry@.candidates =~= Map::empty());
            assert(telemetry@.counted =~= Set::empty());
        }
        telemetry
    }

    /// Registers a complete skill item as a candidate to be counted.
    pub fn register(&mut self, provenance: SkillReadProvenance)
        requires
            old(self).wf(),
            provenance.wf(),
        ensures
            final(self).wf(),
            final(self)@ == old(self)@.registered(provenance@),
    {
        self.candidates.insert(provenance.response_item_id.clone(), provenance);
        self.accepted_receipt_key = None;
        self.successful_request_recorded = false;
        proof {
            assert(self@.candidates =~= old(self)@.candidates.insert(
                provenance@.response_item_id,
                provenance@,
            ));
        }
    }

    /// Drops what was counted: a request succeeded, with this outcome.
    fn withhold(&mut self, outcome: SkillReadTelemetryOutcome)
        requires
            old(self)@.candidates_wf(),
            outcome != SkillReadTelemetryOutcome::CompleteExact,
            outcome == SkillReadTelemetryOutcome::CompleteZero ==> old(
                self,
            )@.candidates.is_empty(),
        ensures
            final(self).wf(),
            final(self)@ == old(self)@.withheld(outcome),
    {
        self.metrics = SkillReadMetrics::default();
        self.counted.clear();
        self.accepted_receipt_key = None;
        self.outcome = outcome;
        self.successful_request_recorded = true;
        proof {
            assert(self@.counted =~= Set::empty());
        }
    }

    /// The outcome where nothing can be counted.
    fn outcome_if_empty(&self) -> (outcome: SkillReadTelemetryOutcome)
        ensures
            outcome == self@.empty_outcome(),
    {
        proof {
            assert(self@.candidates.dom() =~= self.candidates@.dom());
        }
        if self.candidates.is_empty() {
            SkillReadTelemetryOutcome::CompleteZero
        } else {
            SkillReadTelemetryOutcome::Unavailable
        }
    }

    /// The candidate that an item is, if it survived unchanged.
    fn survivor(&self, item: &ResponseItem) -> (candidate: Option<&SkillReadProvenance>)
        ensures
            match candidate {
                Some(provenance) => self@.survives(item@) && provenance@
                    == self@.candidates[item@.id->0],
                None => !self@.survives(item@),
            },
    {
        match &item.id {
            Some(id) => match self.candidates.get(id.as_str()) {
                Some(provenance) => if provenance.expected_item.same_as(item) {
                    Some(provenance)
                } else {
                    None
                },
                None => None,
            },
            None => None,
        }
    }

    /// Decides whether some item is a candidate that survived unchanged.
    fn has_survivor(&self, input: &Vec<ResponseItem>) -> (found: bool)
        ensures
            found == self@.any_survives(types::item_views(input@)),
    {
        let ghost views = types::item_views(input@);
        let mut i: usize = 0;
        while i < input.len()
            invariant
                views == types::item_views(input@),
                i <= input@.len(),
                forall|j: int| 0 <= j < i ==> !self@.survives(#[trigger] views[j]),
            decreases input@.len() - i,
        {
            if self.survivor(&input[i]).is_some() {
                proof {
                    assert(self@.survives(views[i as int]));
                }
                return true;
            }
            i += 1;
        }
        false
    }

    /// Decides whether some surviving candidate is of another session or turn.
    fn has_stray(&self, session_id: &str, turn_id: &str, input: &Vec<ResponseItem>) -> (found: bool)
        ensures
            found == self@.any_strays(session_id@, turn_id@, types::item_views(input@)),
    {
        let ghost views = types::item_views(input@);
        let mut i: usize = 0;
        while i < input.len()
            invariant
                views == types::item_views(input@),
                i <= input@.len(),
                forall|j: int|
                    0 <= j < i ==> (self@.survives(#[trigger] views[j]) ==> self@.countable(
                        session_id@,
                        turn_id@,
                        views[j],
                    )),
            decreases input@.len() - i,
        {
            if let Some(candidate) = self.survivor(&input[i]) {
                if !candidate.belongs_to(session_id, turn_id) {
                    proof {
                        assert(self@.survives(views[i as int]));
                    }
                    return true;
                }
            }
            i += 1;
        }
        false
    }

    /// Decides whether an identity is counted already.
    fn is_counted(&self, key: &SkillReadKey) -> (found: bool)
        ensures
            found == self@.counted.contains(key@),
    {
        let ghost views = key_views(self.counted@);
        let mut i: usize = 0;
        while i < self.counted.len()
            invariant
                views == key_views(self.counted@),
                i <= self.counted@.len(),
                forall|j: int| 0 <= j < i ==> #[trigger] views[j] != key@,
            decreases self.counted@.len() - i,
        {
            if self.counted[i].same_as(key) {
                proof {
                    assert(views[i as int] == key@);
                }
                return true;
            }
            i += 1;
        }
        false
    }

    /// Counts one read: its identity and its tokens; answers whether the counter holds them.
    fn count_read(&mut self, key: SkillReadKey, tokens: u64) -> (fits: bool)
        requires
            key_views(old(self).counted@).no_duplicates(),
            old(self)@.metrics.skill_read_calls == old(self)@.counted.len(),
            !old(self)@.counted.contains(key@),
        ensures
            final(self)@.candidates == old(self)@.candidates,
            fits == (old(self)@.metrics.skill_read_input_tokens + tokens <= u64::MAX),
            fits ==> {
                &&& key_views(final(self).counted@).no_duplicates()
                &&& final(self)@ == (SkillReadTelemetryView {
                    counted: old(self)@.counted.insert(key@),
                    metrics: SkillReadMetrics {
                        skill_read_calls: (old(self)@.metrics.skill_read_calls + 1) as u64,
                        skill_read_input_tokens: (old(self)@.metrics.skill_read_input_tokens
                            + tokens) as u64,
                    },
                    ..old(self)@
                })
                &&& final(self)@.metrics.skill_read_calls == final(self)@.counted.len()
                &&& final(self)@.counted.finite()
            },
    {
        let ghost before = key_views(self.counted@);
        let ghost key_view = key@;
        match self.metrics.skill_read_input_tokens.checked_add(tokens) {
            None => false,
            Some(total) => {
                self.counted.push(key);
                let calls: usize = self.counted.len();
                proof {
                    let after = key_views(self.counted@);
                    assert(after =~= before.push(key_view));
                    assert(after.no_duplicates()) by {
                        assert forall|i: int, j: int|
                            0 <= i < after.len() && 0 <= j < after.len() && i
                                != j implies after[i] != after[j] by {
                            if i < before.len() && j < before.len() {
                            } else if i < before.len() {
                                assert(before.contains(before[i]));
                            } else {
                                assert(before.contains(before[j]));
                            }
                        }
                    }
                    assert(after.to_set() =~= before.to_set().insert(key_view)) by {
                        assert forall|k: SkillReadKeyView| #[trigger]
                            after.to_set().contains(k) <==> before.to_set().insert(
                            key_view,
                        ).contains(k) by {
                            if before.contains(k) {
                                let i = choose|i: int| 0 <= i < before.len() && before[i] == k;
                                assert(after[i] == k);
                            }
                            if k == key_view {
                                assert(after[before.len() as int] == k);
                            }
                            if after.contains(k) {
                                let i = choose|i: int| 0 <= i < after.len() && after[i] == k;
                                if i < before.len() {
                                    assert(before[i] == k);
                                }
                            }
                        }
                    }
                    before.unique_seq_to_set();
                    after.unique_seq_to_set();
                }
                self.metrics.skill_read_calls = calls as u64;
                self.metrics.skill_read_input_tokens = total;
                true
            },
        }
    }

    /// Counts the surviving candidates of a request, each identity once, with the tokens that the
    /// receipt reports; answers whether the counter holds them.
    fn count_items(
        &mut self,
        session_id: &str,
        turn_id: &str,
        input: &Vec<ResponseItem>,
        receipt_items: &Vec<ProviderTerminalInputItem>,
    ) -> (fits: bool)
        requires
            old(self).wf(),
            items::exact_bijection(
                types::item_ids(types::item_views(input@)),
                types::input_item_views(receipt_items@),
            ),
        ensures
            final(self)@.candidates == old(self)@.candidates,
            match old(self)@.tally(
                session_id@,
                turn_id@,
                types::item_views(input@),
                types::input_item_views(receipt_items@),
                input@.len() as int,
            ) {
                None => !fits,
                Some(tally) => {
                    &&& fits
                    &&& key_views(final(self).counted@).no_duplicates()
                    &&& tally.counted.finite()
                    &&& tally.metrics.skill_read_calls == tally.counted.len()
                    &&& final(self)@ == (SkillReadTelemetryView {
                        counted: tally.counted,
                        metrics: tally.metrics,
                        ..old(self)@
                    })
                },
            },
    {
        let ghost start = self@;
        let ghost views = types::item_views(input@);
        let ghost ids = types::item_ids(views);
        let ghost reported = types::input_item_views(receipt_items@);
        let mut i: usize = 0;
        while i < input.len()
            invariant
                views == types::item_views(input@),
                ids == types::item_ids(views),
                ids.len() == input@.len(),
                views.len() == input@.len(),
                reported == types::input_item_views(receipt_items@),
                reported.len() == receipt_items@.len(),
                items::exact_bijection(ids, reported),
                i <= input@.len(),
                start == old(self)@,
                start.wf(),
                key_views(self.counted@).no_duplicates(),
                self@.counted.finite(),
                self@.metrics.skill_read_calls == self@.counted.len(),
                self@ == (SkillReadTelemetryView {
                    counted: self@.counted,
                    metrics: self@.metrics,
                    ..start
                }),
                start.tally(session_id@, turn_id@, views, reported, i as int) == Some(
                    SkillReadTallyView { counted: self@.counted, metrics: self@.metrics },
                ),
            decreases input@.len() - i,
        {
            let ghost before = self@;
            let mut read: Option<(SkillReadKey, u64)> = None;
            if let Some(candidate) = self.survivor(&input[i]) {
                if candidate.belongs_to(session_id, turn_id) {
                    let key = candidate.key();
                    if !self.is_counted(&key) {
                        if let Some(id) = &input[i].id {
                            proof {
                                assert(ids[i as int] == Some(id@));
                                assert(items::listed(ids, ids.len() as int, id@));
                            }
                            read = Some((key, find_reported_tokens(receipt_items, id.as_str())));
                        }
                    }
                }
            }
            proof {
                assert(views[i as int] == input@[i as int]@);
                assert(before.countable(session_id@, turn_id@, views[i as int]) == start.countable(
                    session_id@,
                    turn_id@,
                    views[i as int],
                ));
            }
            if let Some((key, tokens)) = read {
                if !self.count_read(key, tokens) {
                    proof {
                        lemma_overflow_stays(
                            start,
                            session_id@,
                            turn_id@,
                            views,
                            reported,
                            i + 1,
                            input@.len() as int,
                        );
                    }
                    return false;
                }
            }
            i += 1;
        }
        true
    }

    /// Records only typed, complete skill items that survive into a successful final provider
    /// request with exact per-item attribution.
    ///
    /// The request is captured after prompt transformations and provider request encoding. An
    /// unavailable provider attribution result is returned as an error and marks the turn
    /// unavailable; no local token estimate is substituted.
    pub fn record_successful_provider_request(
        &mut self,
        session_id: &str,
        turn_id: &str,
        request: SkillReadProviderRequest,
    ) -> (result: Result<(), ProviderRequestAttributionError>)
        requires
            old(self).wf(),
        ensures
            final(self).wf(),
            (final(self)@, unit_result_view(result)) == old(self)@.recorded(
                session_id@,
                turn_id@,
                types::item_views(request.input@),
                request.attribution.resolved(),
            ),
    {
        let SkillReadProviderRequest { input, attribution } = request;
        let attributed = match attribution.resolve() {
            Ok(attributed) => attributed,
            Err(error) => {
                self.withhold(SkillReadTelemetryOutcome::Unavailable);
                return Err(error);
            },
        };
        if self.has_stray(session_id, turn_id, &input) {
            self.withhold(SkillReadTelemetryOutcome::Unavailable);
            return Ok(());
        }
        if !self.has_survivor(&input) {
            let outcome = self.outcome_if_empty();
            self.withhold(outcome);
            return Ok(());
        }
        let key = match validate_terminal_attribution(&input, session_id, turn_id, &attributed) {
            Ok(key) => key,
            Err(error) => {
                self.withhold(SkillReadTelemetryOutcome::Unavailable);
                return Err(error);
            },
        };
        let repeated = match &self.accepted_receipt_key {
            Some(accepted) => accepted.same_as(&key),
            None => false,
        };
        if repeated {
            self.outcome = SkillReadTelemetryOutcome::CompleteExact;
            self.successful_request_recorded = true;
            return Ok(());
        }
        if !self.count_items(session_id, turn_id, &input, &attributed.receipt.input_items) {
            self.withhold(SkillReadTelemetryOutcome::Unavailable);
            return Err(ProviderRequestAttributionError::InputTokenSumOverflow);
        }
        self.accepted_receipt_key = Some(key);
        self.outcome = SkillReadTelemetryOutcome::CompleteExact;
        self.successful_request_recorded = true;
        Ok(())
    }

    /// Marks a successful provider request whose authoritative attribution record was missing.
    pub fn record_missing_successful_provider_request(&mut self)
        requires
            old(self).wf(),
        ensures
            final(self).wf(),
            final(self)@ == old(self)@.withheld(old(self)@.empty_outcome()),
    {
        let outcome = self.outcome_if_empty();
        self.withhold(outcome);
    }

    /// What the turn can say of its skill reads.
    pub fn outcome(&self) -> (outcome: SkillReadTelemetryOutcome)
        ensures
            outcome == self@.outcome,
    {
        self.outcome
    }

    /// The metrics that may be shown to the host, if any.
    pub fn host_observation_metrics(&self) -> (metrics: Option<SkillReadMetrics>)
        ensures
            metrics == self@.observation(),
    {
        proof {
            assert(self@.candidates.dom() =~= self.candidates@.dom());
        }
        match self.outcome {
            SkillReadTelemetryOutcome::CompleteZero => if self.candidates.is_empty()
                || self.successful_request_recorded {
                Some(self.metrics)
            } else {
                None
            },
            SkillReadTelemetryOutcome::CompleteExact => Some(self.metrics),
            SkillReadTelemetryOutcome::Unavailable => None,
        }
    }

    /// The metrics as they stand.
    pub fn metrics(&self) -> (metrics: SkillReadMetrics)
        ensures
            metrics == self@.metrics,
    {
        self.metrics
    }
}

/// The view of what a recording answers.
pub open spec fn unit_result_view(result: Result<(), ProviderRequestAttributionError>) -> Result<
    (),
    ProviderRequestAttributionErrorView,
> {
    match result {
        Ok(()) => Ok(()),
        Err(error) => Err(error@),
    }
}

proof fn lemma_overflow_stays(
    start: SkillReadTelemetryView,
    session_id: Seq<char>,
    turn_id: Seq<char>,
    input: Seq<ResponseItemView>,
    receipt_items: Seq<ProviderTerminalInputItemView>,
    n: int,
    m: int,
)
    requires
        0 <= n <= m,
        start.tally(session_id, turn_id, input, receipt_items, n) is None,
    ensures
        start.tally(session_id, turn_id, input, receipt_items, m) is None,
    decreases m,
{
    if n < m {
        lemma_overflow_stays(start, session_id, turn_id, input, receipt_items, n, m - 1);
    }
}

} // verus!
