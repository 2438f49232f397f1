//! The record of a skill invocation, and its form in a stored row.

use crate::text::joined;
use crate::text::str_eq;
use vstd::prelude::*;

verus! {

/// A stored word that names nothing, or a stored thread identifier that is none.
#[derive(Debug, PartialEq, Eq)]
pub enum SkillInvocationError {
    InvalidThreadId,
    UnknownInvocationType { value: String },
    UnknownInvocationStatus { value: String },
    UnknownSkillScope { value: String },
}

/// What a [`SkillInvocationError`] holds.
pub enum SkillInvocationErrorView {
    InvalidThreadId,
    UnknownInvocationType { value: Seq<char> },
    UnknownInvocationStatus { value: Seq<char> },
    UnknownSkillScope { value: Seq<char> },
}

impl View for SkillInvocationError {
    type V = SkillInvocationErrorView;

    open spec fn view(&self) -> SkillInvocationErrorView {
        match *self {
            SkillInvocationError::InvalidThreadId => SkillInvocationErrorView::InvalidThreadId,
            SkillInvocationError::UnknownInvocationType { value } => {
                SkillInvocationErrorView::UnknownInvocationType { value: value@ }
            },
            SkillInvocationError::UnknownInvocationStatus { value } => {
                SkillInvocationErrorView::UnknownInvocationStatus { value: value@ }
            },
            SkillInvocationError::UnknownSkillScope { value } => {
                SkillInvocationErrorView::UnknownSkillScope { value: value@ }
            },
        }
    }
}

impl SkillInvocationErrorView {
    /// The error in words.
    pub open spec fn words(self) -> Seq<char> {
        match self {
            SkillInvocationErrorView::InvalidThreadId => "invalid thread id"@,
            SkillInvocationErrorView::UnknownInvocationType { value } => {
                "unknown skill invocation type "@ + value
            },
            SkillInvocationErrorView::UnknownInvocationStatus { value } => {
                "unknown skill invocation status "@ + value
            },
            SkillInvocationErrorView::UnknownSkillScope { value } => "unknown skill scope "@
                + value,
        }
    }
}

impl SkillInvocationError {
    /// The error in words.
    pub fn message(&self) -> (message: String)
        ensures
            message@ == self@.words(),
    {
        match self {
            SkillInvocationError::InvalidThreadId => "invalid thread id".to_owned(),
            SkillInvocationError::UnknownInvocationType { value } => {
                joined("unknown skill invocation type ", value.as_str())
            },
            SkillInvocationError::UnknownInvocationStatus { value } => {
                joined("unknown skill invocation status ", value.as_str())
            },
            SkillInvocationError::UnknownSkillScope { value } => {
                joined("unknown skill scope ", value.as_str())
            },
        }
    }
}

/// How a skill came to be used.
#[derive(Debug, Clone, Copy, PartialEq, Eq, Structural)]
pub enum SkillInvocationType {
    Explicit,
    Implicit,
}

impl SkillInvocationType {
    /// The word that stands for the type.
    pub open spec fn word(self) -> Seq<char> {
        match self {
            SkillInvocationType::Explicit => "explicit"@,
            SkillInvocationType::Implicit => "implicit"@,
        }
    }

    /// The word that stands for the type.
    pub fn as_str(self) -> (word: &'static str)
        ensures
            word@ == self.word(),
    {
        match self {
            SkillInvocationType::Explicit => "explicit",
            SkillInvocationType::Implicit => "implicit",
        }
    }

    /// The type that a word stands for.
    pub fn from_str(value: &str) -> (result: Result<Self, SkillInvocationError>)
        ensures
            match result {
                Ok(named) => value@ == named.word(),
                Err(error) => {
                    &&& forall|named: SkillInvocationType| value@ != #[trigger] named.word()
                    &&& error@ == (SkillInvocationErrorView::UnknownInvocationType {
                        value: value@,
                    })
                },
            },
    {
        if str_eq(value, "explicit") {
            Ok(SkillInvocationType::Explicit)
        } else if str_eq(value, "implicit") {
            Ok(SkillInvocationType::Implicit)
        } else {
            Err(SkillInvocationError::UnknownInvocationType { value: value.to_owned() })
        }
    }
}

/// Whether a skill could be used.
#[derive(Debug, Clone, Copy, PartialEq, Eq, Structural)]
pub enum SkillInvocationStatus {
    Success,
    Error,
}

impl SkillInvocationStatus {
    /// The word that stands for the status.
    pub open spec fn word(self) -> Seq<char> {
        match self {
            SkillInvocationStatus::Success => "ok"@,
            SkillInvocationStatus::Error => "error"@,
        }
    }

    /// The word that stands for the status.
    pub fn as_str(self) -> (word: &'static str)
        ensures
            word@ == self.word(),
    {
        match self {
            SkillInvocationStatus::Success => "ok",
            SkillInvocationStatus::Error => "error",
        }
    }

    /// The status that a word stands for.
    pub fn from_str(value: &str) -> (result: Result<Self, SkillInvocationError>)
        ensures
            match result {
                Ok(named) => value@ == named.word(),
                Err(error) => {
                    &&& forall|named: SkillInvocationStatus| value@ != #[trigger] named.word()
                    &&& error@ == (SkillInvocationErrorView::UnknownInvocationStatus {
                        value: value@,
                    })
                },
            },
    {
        if str_eq(value, "ok") {
            Ok(SkillInvocationStatus::Success)
        } else if str_eq(value, "error") {
            Ok(SkillInvocationStatus::Error)
        } else {
            Err(SkillInvocationError::UnknownInvocationStatus { value: value.to_owned() })
        }
    }
}

/// Where a skill comes from.
#[derive(Debug, Clone, Copy, PartialEq, Eq, Structural)]
pub enum SkillScope {
    User,
    Repo,
    System,
    Admin,
}

impl SkillScope {
    /// The word that stands for the scope.
    pub open spec fn word(self) -> Seq<char> {
        match self {
            SkillScope::User => "user"@,
            SkillScope::Repo => "repo"@,
            SkillScope::System => "system"@,
            SkillScope::Admin => "admin"@,
        }
    }
}

/// The word that stands for a scope.
pub fn skill_scope_as_str(scope: SkillScope) -> (word: &'static str)
    ensures
        word@ == scope.word(),
{
    match scope {
        SkillScope::User => "user",
        SkillScope::Repo => "repo",
        SkillScope::System => "system",
        SkillScope::Admin => "admin",
    }
}

/// The scope that a word stands for.
pub fn skill_scope_from_str(value: &str) -> (result: Result<SkillScope, SkillInvocationError>)
    ensures
        match result {
            Ok(named) => value@ == named.word(),
            Err(error) => {
                &&& forall|named: SkillScope| value@ != #[trigger] named.word()
                &&& error@ == (SkillInvocationErrorView::UnknownSkillScope { value: value@ })
            },
        },
{
    if str_eq(value, "user") {
        Ok(SkillScope::User)
    } else if str_eq(value, "repo") {
        Ok(SkillScope::Repo)
    } else if str_eq(value, "system") {
        Ok(SkillScope::System)
    } else if str_eq(value, "admin") {
        Ok(SkillScope::Admin)
    } else {
        Err(SkillInvocationError::UnknownSkillScope { value: value.to_owned() })
    }
}

/// Different types, different statuses and different scopes have different words.
pub proof fn law_words_name_one_thing()
    ensures
        forall|a: SkillInvocationType, b: SkillInvocationType|
            #![trigger a.word(), b.word()]
            a.word() == b.word() ==> a == b,
        forall|a: SkillInvocationStatus, b: SkillInvocationStatus|
            #![trigger a.word(), b.word()]
            a.word() == b.word() ==> a == b,
        forall|a: SkillScope, b: SkillScope|
            #![trigger a.word(), b.word()]
            a.word() == b.word() ==> a == b,
{
    reveal_strlit("explicit");
    reveal_strlit("implicit");
    reveal_strlit("ok");
    reveal_strlit("error");
    reveal_strlit("user");
    reveal_strlit("repo");
    reveal_strlit("system");
    reveal_strlit("admin");
    assert("explicit"@[0] == 'e' && "implicit"@[0] == 'i');
    assert("ok"@[0] == 'o' && "error"@[0] == 'e');
    assert("user"@[0] == 'u' && "repo"@[0] == 'r' && "system"@[0] == 's' && "admin"@[0] == 'a');
}

/// One skill invocation of a turn.
#[derive(Debug, PartialEq, Eq)]
pub struct SkillInvocationRecord {
    pub thread_id: String,
    pub turn_id: String,
    pub skill_name: String,
    pub skill_path: String,
    pub skill_scope: SkillScope,
    pub invocation_type: SkillInvocationType,
    pub status: SkillInvocationStatus,
    pub occurred_at_ms: i64,
}

/// What a [`SkillInvocationRecord`] holds.
pub struct SkillInvocationRecordView {
    pub thread_id: Seq<char>,
    pub turn_id: Seq<char>,
    pub skill_name: Seq<char>,
    pub skill_path: Seq<char>,
    pub skill_scope: SkillScope,
    pub invocation_type: SkillInvocationType,
    pub status: SkillInvocationStatus,
    pub occurred_at_ms: i64,
}

/// The identity of an event: the thread, the turn, the skill's path and the invocation type.
pub struct SkillInvocationKeyView {
    pub thread_id: Seq<char>,
    pub turn_id: Seq<char>,
    pub skill_path: Seq<char>,
    pub invocation_type: SkillInvocationType,
}

impl View for SkillInvocationRecord {
    type V = SkillInvocationRecordView;

    open spec fn view(&self) -> SkillInvocationRecordView {
        SkillInvocationRecordView {
            thread_id: self.thread_id@,
            turn_id: self.turn_id@,
            skill_name: self.skill_name@,
            skill_path: self.skill_path@,
            skill_scope: self.skill_scope,
            invocation_type: self.invocation_type,
            status: self.status,
            occurred_at_ms: self.occurred_at_ms,
        }
    }
}

impl Clone for SkillInvocationRecord {
    fn clone(&self) -> (copy: Self)
        ensures
            copy == *self,
    {
        SkillInvocationRecord {
            thread_id: self.thread_id.clone(),
            turn_id: self.turn_id.clone(),
            skill_name: self.skill_name.clone(),
            skill_path: self.skill_path.clone(),
            skill_scope: self.skill_scope,
            invocation_type: self.invocation_type,
            status: self.status,
            occurred_at_ms: self.occurred_at_ms,
        }
    }
}

impl SkillInvocationRecordView {
    /// The identity of the event.
    pub open spec fn key(self) -> SkillInvocationKeyView {
        SkillInvocationKeyView {
            thread_id: self.thread_id,
            turn_id: self.turn_id,
            skill_path: self.skill_path,
            invocation_type: self.invocation_type,
        }
    }

    /// This record with another of the same event taken into account: the later name and scope,
    /// success if either succeeded, and the earlier time.
    pub open spec fn merged_with(self, incoming: SkillInvocationRecordView) -> Self {
        SkillInvocationRecordView {
            skill_name: incoming.skill_name,
            skill_scope: incoming.skill_scope,
            status: if self.status == SkillInvocationStatus::Success || incoming.status
                == SkillInvocationStatus::Success {
                SkillInvocationStatus::Success
            } else {
                SkillInvocationStatus::Error
            },
            occurred_at_ms: if self.occurred_at_ms <= incoming.occurred_at_ms {
                self.occurred_at_ms
            } else {
                incoming.occurred_at_ms
            },
            ..self
        }
    }
}

impl SkillInvocationRecord {
    /// Decides whether two records are of the same event.
    pub fn same_event_as(&self, other: &SkillInvocationRecord) -> (same: bool)
        ensures
            same == (self@.key() == other@.key()),
    {
        str_eq(self.thread_id.as_str(), other.thread_id.as_str()) && str_eq(
            self.turn_id.as_str(),
            other.turn_id.as_str(),
        ) && str_eq(self.skill_path.as_str(), other.skill_path.as_str()) && self.invocation_type
            == other.invocation_type
    }

    /// Takes another record of the same event into account.
    pub fn merge(&self, incoming: &SkillInvocationRecord) -> (merged: SkillInvocationRecord)
        ensures
            merged@ == self@.merged_with(incoming@),
    {
        let succeeded = self.status == SkillInvocationStatus::Success || incoming.status
            == SkillInvocationStatus::Success;
        SkillInvocationRecord {
            thread_id: self.thread_id.clone(),
            turn_id: self.turn_id.clone(),
            skill_name: incoming.skill_name.clone(),
            skill_path: self.skill_path.clone(),
            skill_scope: incoming.skill_scope,
            invocation_type: self.invocation_type,
            status: if succeeded {
                SkillInvocationStatus::Success
            } else {
                SkillInvocationStatus::Error
            },
            occurred_at_ms: if self.occurred_at_ms <= incoming.occurred_at_ms {
                self.occurred_at_ms
            } else {
                incoming.occurred_at_ms
            },
        }
    }
}

/// A stored row. The thread identifier is absent where the stored text is none.
#[derive(Debug, PartialEq, Eq)]
pub struct SkillInvocationRow {
    pub thread_id: Option<String>,
    pub turn_id: String,
    pub skill_name: String,
    pub skill_path: String,
    pub skill_scope: String,
    pub invocation_type: String,
    pub status: String,
    pub occurred_at_ms: i64,
}

/// What a [`SkillInvocationRow`] holds.
pub struct SkillInvocationRowView {
    pub thread_id: Option<Seq<char>>,
    pub turn_id: Seq<char>,
    pub skill_name: Seq<char>,
    pub skill_path: Seq<char>,
    pub skill_scope: Seq<char>,
    pub invocation_type: Seq<char>,
    pub status: Seq<char>,
    pub occurred_at_ms: i64,
}

impl View for SkillInvocationRow {
    type V = SkillInvocationRowView;

    open spec fn view(&self) -> SkillInvocationRowView {
        SkillInvocationRowView {
            thread_id: crate::text::opt_view(self.thread_id),
            turn_id: self.turn_id@,
            skill_name: self.skill_name@,
            skill_path: self.skill_path@,
            skill_scope: self.skill_scope@,
            invocation_type: self.invocation_type@,
            status: self.status@,
            occurred_at_ms: self.occurred_at_ms,
        }
    }
}

impl SkillInvocationRecordView {
    /// The row that stores the record.
    pub open spec fn row(self) -> SkillInvocationRowView {
        SkillInvocationRowView {
            thread_id: Some(self.thread_id),
            turn_id: self.turn_id,
            skill_name: self.skill_name,
            skill_path: self.skill_path,
            skill_scope: self.skill_scope.word(),
            invocation_type: self.invocation_type.word(),
            status: self.status.word(),
            occurred_at_ms: self.occurred_at_ms,
        }
    }
}

impl SkillInvocationRowView {
    /// Why the row stores no record, if it does not, in the order in which its words are read.
    pub open spec fn fault(self) -> Option<SkillInvocationErrorView> {
        if self.thread_id is None {
            Some(SkillInvocationErrorView::InvalidThreadId)
        } else if forall|named: SkillScope| self.skill_scope != #[trigger] named.word() {
            Some(SkillInvocationErrorView::UnknownSkillScope { value: self.skill_scope })
        } else if forall|named: SkillInvocationType|
            self.invocation_type != #[trigger] named.word() {
            Some(SkillInvocationErrorView::UnknownInvocationType { value: self.invocation_type })
        } else if forall|named: SkillInvocationStatus| self.status != #[trigger] named.word() {
            Some(SkillInvocationErrorView::UnknownInvocationStatus { value: self.status })
        } else {
            None
        }
    }
}

/// Writes a record as a row.
pub fn encode_row(record: &SkillInvocationRecord) -> (row: SkillInvocationRow)
    ensures
        row@ == record@.row(),
{
    SkillInvocationRow {
        thread_id: Some(record.thread_id.clone()),
        turn_id: record.turn_id.clone(),
        skill_name: record.skill_name.clone(),
        skill_path: record.skill_path.clone(),
        skill_scope: skill_scope_as_str(record.skill_scope).to_owned(),
        invocation_type: record.invocation_type.as_str().to_owned(),
        status: record.status.as_str().to_owned(),
        occurred_at_ms: record.occurred_at_ms,
    }
}

/// The row of an event that has a row with this status and this time already, once a record of it
/// comes in. The stored words need not be ones that can be read.
pub open spec fn merged_row(
    stored_status: Seq<char>,
    stored_at_ms: i64,
    record: SkillInvocationRecordView,
) -> SkillInvocationRowView {
    SkillInvocationRowView {
        status: if stored_status == "ok"@ || record.status == SkillInvocationStatus::Success {
            "ok"@
        } else {
            "error"@
        },
        occurred_at_ms: if stored_at_ms <= record.occurred_at_ms {
            stored_at_ms
        } else {
            record.occurred_at_ms
        },
        ..record.row()
    }
}

/// Merges a record into the stored row of its event.
pub fn merge_row(
    stored_status: &str,
    stored_at_ms: i64,
    record: &SkillInvocationRecord,
) -> (row: SkillInvocationRow)
    ensures
        row@ == merged_row(stored_status@, stored_at_ms, record@),
{
    let mut row = encode_row(record);
    let succeeded = str_eq(stored_status, "ok") || match record.status {
        SkillInvocationStatus::Success => true,
        SkillInvocationStatus::Error => false,
    };
    row.status =
    if succeeded {
        "ok".to_owned()
    } else {
        "error".to_owned()
    };
    if stored_at_ms <= record.occurred_at_ms {
        row.occurred_at_ms = stored_at_ms;
    }
    row
}

/// Merging into a stored row stores what merging into its record gives.
pub proof fn law_merging_rows_merges_records(
    stored: SkillInvocationRecordView,
    record: SkillInvocationRecordView,
)
    requires
        stored.key() == record.key(),
    ensures
        merged_row(stored.row().status, stored.row().occurred_at_ms, record)
            == stored.merged_with(record).row(),
{
    law_words_name_one_thing();
    assert(SkillInvocationStatus::Success.word() == "ok"@);
    assert(SkillInvocationStatus::Error.word() == "error"@);
    assert(stored.status.word() == stored.row().status);
}

/// Reads a record from a row.
pub fn decode_row(row: SkillInvocationRow) -> (result: Result<
    SkillInvocationRecord,
    SkillInvocationError,
>)
    ensures
        match result {
            Ok(record) => row@.fault() is None && record@.row() == row@,
            Err(error) => row@.fault() == Some(error@),
        },
{
    let thread_id = match row.thread_id {
        Some(thread_id) => thread_id,
        None => {
            return Err(SkillInvocationError::InvalidThreadId);
        },
    };
    let skill_scope = match skill_scope_from_str(row.skill_scope.as_str()) {
        Ok(scope) => scope,
        Err(error) => {
            return Err(error);
        },
    };
    let invocation_type = match SkillInvocationType::from_str(row.invocation_type.as_str()) {
        Ok(invocation_type) => invocation_type,
        Err(error) => {
            return Err(error);
        },
    };
    let status = match SkillInvocationStatus::from_str(row.status.as_str()) {
        Ok(status) => status,
        Err(error) => {
            return Err(error);
        },
    };
    Ok(
        SkillInvocationRecord {
            thread_id,
            turn_id: row.turn_id,
            skill_name: row.skill_name,
            skill_path: row.skill_path,
            skill_scope,
            invocation_type,
            status,
            occurred_at_ms: row.occurred_at_ms,
        },
    )
}

/// A stored record reads back as it was: its row has no fault, and no other record has that row.
pub proof fn law_rows_read_back(record: SkillInvocationRecordView, other: SkillInvocationRecordView)
    ensures
        record.row().fault() is None,
        other.row() == record.row() ==> other == record,
{
    law_words_name_one_thing();
    assert(record.skill_scope.word() == record.row().skill_scope);
    assert(record.invocation_type.word() == record.row().invocation_type);
    assert(record.status.word() == record.row().status);
}

} // verus!
