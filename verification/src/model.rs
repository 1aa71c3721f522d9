//! The entities exchanged with the backend, their mathematical views,
//! the decode-failure taxonomy, and the enumeration codecs.
//!
//! Enumerations travel as their lowercase name (`Status`, `Recurrence`)
//! or as a single uppercase letter (`Priority`); decoding demands a
//! case-sensitive exact match.

use vstd::prelude::*;
use crate::text::str_eq;
use crate::timestamp::Timestamp;
use crate::uris::uri_ok;

verus! {

/// Repeat cadence of a recurring task.
#[derive(Debug, PartialEq, Eq, Clone, Copy, Structural)]
pub enum Recurrence {
    Daily,
    Weekly,
    Monthly,
    Yearly,
}

/// Lifecycle state of a task.
#[derive(Debug, PartialEq, Eq, Clone, Copy, Structural)]
pub enum Status {
    Pending,
    Completed,
    Recurring,
    Deleted,
}

/// Priority band of a task.
#[derive(Debug, PartialEq, Eq, Clone, Copy, Structural)]
pub enum Priority {
    H,
    M,
    L,
}

/// Identity of a task: a universally-unique 128-bit identifier.
#[derive(Debug, PartialEq, Eq, Clone, Copy, Structural)]
pub struct TaskId(pub u128);

/// Payload key that a decode failure points at.
#[derive(Debug, PartialEq, Eq, Clone, Copy, Structural)]
pub enum Field {
    Id,
    Entry,
    Modified,
    Status,
    Description,
    Urgency,
    Due,
    Start,
    End,
    Wait,
    Parent,
    Project,
    Priority,
    Recur,
    Tags,
    Contextswitch,
    Uri,
    Title,
    ContentPreview,
}

/// Why a payload failed to decode. Decoding either yields a fully
/// valid entity or one of these; no partial entity is ever produced.
#[derive(Debug, PartialEq, Eq, Clone)]
pub enum DecodeError {
    /// A present timestamp-bearing field failed the strict format parse.
    MalformedTimestamp { field: Field, raw: String },
    /// An enumeration field's value matched no declared variant.
    UnknownVariant { field: Field, raw: String },
    /// An identifier field's value violates the identifier grammar.
    InvalidIdentifier { field: Field, raw: String },
    /// A URI field's value violates the URI grammar.
    InvalidUri { field: Field, raw: String },
    /// A required attribute's key was absent from the payload.
    MissingRequiredField { field: Field },
}

/// Mathematical view of a `DecodeError`.
#[verifier::ext_equal]
pub enum DecodeErrorV {
    MalformedTimestamp { field: Field, raw: Seq<char> },
    UnknownVariant { field: Field, raw: Seq<char> },
    InvalidIdentifier { field: Field, raw: Seq<char> },
    InvalidUri { field: Field, raw: Seq<char> },
    MissingRequiredField { field: Field },
}

impl DeepView for DecodeError {
    type V = DecodeErrorV;

    open spec fn deep_view(&self) -> DecodeErrorV {
        match self {
            DecodeError::MalformedTimestamp { field, raw } => DecodeErrorV::MalformedTimestamp {
                field: *field,
                raw: raw@,
            },
            DecodeError::UnknownVariant { field, raw } => DecodeErrorV::UnknownVariant {
                field: *field,
                raw: raw@,
            },
            DecodeError::InvalidIdentifier { field, raw } => DecodeErrorV::InvalidIdentifier {
                field: *field,
                raw: raw@,
            },
            DecodeError::InvalidUri { field, raw } => DecodeErrorV::InvalidUri {
                field: *field,
                raw: raw@,
            },
            DecodeError::MissingRequiredField { field } => DecodeErrorV::MissingRequiredField {
                field: *field,
            },
        }
    }
}

/// Content attached to a bookmark.
#[derive(Debug, PartialEq, Eq, Clone)]
pub struct BookmarkContent {
    pub title: String,
    pub content_preview: Option<String>,
}

/// Mathematical view of a `BookmarkContent`.
#[verifier::ext_equal]
pub struct BookmarkContentV {
    pub title: Seq<char>,
    pub content_preview: Option<Seq<char>>,
}

impl DeepView for BookmarkContent {
    type V = BookmarkContentV;

    open spec fn deep_view(&self) -> BookmarkContentV {
        BookmarkContentV { title: self.title@, content_preview: self.content_preview.deep_view() }
    }
}

/// A bookmark: a URI in textual form, with optional content.
#[derive(Debug, PartialEq, Eq, Clone)]
pub struct Bookmark {
    pub uri: String,
    pub content: Option<BookmarkContent>,
}

/// Mathematical view of a `Bookmark`.
#[verifier::ext_equal]
pub struct BookmarkV {
    pub uri: Seq<char>,
    pub content: Option<BookmarkContentV>,
}

impl BookmarkV {
    /// The held URI text is accepted by the URI grammar.
    pub open spec fn wf(self) -> bool {
        uri_ok(self.uri)
    }
}

impl DeepView for Bookmark {
    type V = BookmarkV;

    open spec fn deep_view(&self) -> BookmarkV {
        BookmarkV { uri: self.uri@, content: self.content.deep_view() }
    }
}

/// Metadata associated with resuming work on a task.
#[derive(Debug, PartialEq, Eq, Clone)]
pub struct ContextswitchData {
    pub bookmarks: Vec<Bookmark>,
}

/// Mathematical view of a `ContextswitchData`.
#[verifier::ext_equal]
pub struct ContextswitchDataV {
    pub bookmarks: Seq<BookmarkV>,
}

impl ContextswitchDataV {
    pub open spec fn wf(self) -> bool {
        forall|i: int| 0 <= i < self.bookmarks.len() ==> (#[trigger] self.bookmarks[i]).wf()
    }
}

impl DeepView for ContextswitchData {
    type V = ContextswitchDataV;

    open spec fn deep_view(&self) -> ContextswitchDataV {
        ContextswitchDataV { bookmarks: self.bookmarks.deep_view() }
    }
}

/// The central entity: a unit of work tracked by the backend.
///
/// The urgency score is carried opaquely as the decimal text the
/// backend produced; this model neither computes nor interprets it.
#[derive(Debug, PartialEq, Eq, Clone)]
pub struct Task {
    pub id: TaskId,
    pub entry: Timestamp,
    pub modified: Timestamp,
    pub status: Status,
    pub description: String,
    pub urgency: String,
    pub due: Option<Timestamp>,
    pub start: Option<Timestamp>,
    pub end: Option<Timestamp>,
    pub wait: Option<Timestamp>,
    pub parent: Option<TaskId>,
    pub project: Option<String>,
    pub priority: Option<Priority>,
    pub recur: Option<Recurrence>,
    pub tags: Option<Vec<String>>,
    pub contextswitch: Option<ContextswitchData>,
}

/// Mathematical view of a `Task`.
#[verifier::ext_equal]
pub struct TaskV {
    pub id: TaskId,
    pub entry: Timestamp,
    pub modified: Timestamp,
    pub status: Status,
    pub description: Seq<char>,
    pub urgency: Seq<char>,
    pub due: Option<Timestamp>,
    pub start: Option<Timestamp>,
    pub end: Option<Timestamp>,
    pub wait: Option<Timestamp>,
    pub parent: Option<TaskId>,
    pub project: Option<Seq<char>>,
    pub priority: Option<Priority>,
    pub recur: Option<Recurrence>,
    pub tags: Option<Seq<Seq<char>>>,
    pub contextswitch: Option<ContextswitchDataV>,
}

impl TaskV {
    /// A valid task: every timestamp is calendar-valid and every
    /// bookmark URI is accepted by the URI grammar. These are the
    /// tasks the encoder promises to round-trip.
    pub open spec fn wf(self) -> bool {
        &&& self.entry.wf()
        &&& self.modified.wf()
        &&& (self.due matches Some(t) ==> t.wf())
        &&& (self.start matches Some(t) ==> t.wf())
        &&& (self.end matches Some(t) ==> t.wf())
        &&& (self.wait matches Some(t) ==> t.wf())
        &&& (self.contextswitch matches Some(c) ==> c.wf())
    }
}

impl DeepView for Task {
    type V = TaskV;

    open spec fn deep_view(&self) -> TaskV {
        TaskV {
            id: self.id,
            entry: self.entry,
            modified: self.modified,
            status: self.status,
            description: self.description@,
            urgency: self.urgency@,
            due: self.due,
            start: self.start,
            end: self.end,
            wait: self.wait,
            parent: self.parent,
            project: self.project.deep_view(),
            priority: self.priority,
            recur: self.recur,
            tags: self.tags.deep_view(),
            contextswitch: self.contextswitch.deep_view(),
        }
    }
}

/// The creation-request shape sent to the backend: a single free-text
/// task-creation expression, opaque to this model.
#[derive(Debug, PartialEq, Eq, Clone)]
pub struct NewTask {
    pub definition: String,
}

/// The lowercase textual form of a status.
pub open spec fn spec_status_text(st: Status) -> Seq<char> {
    match st {
        Status::Pending => "pending"@,
        Status::Completed => "completed"@,
        Status::Recurring => "recurring"@,
        Status::Deleted => "deleted"@,
    }
}

/// The status named by `s`, under a case-sensitive exact match.
pub open spec fn spec_parse_status(s: Seq<char>) -> Option<Status> {
    if s == "pending"@ {
        Some(Status::Pending)
    } else if s == "completed"@ {
        Some(Status::Completed)
    } else if s == "recurring"@ {
        Some(Status::Recurring)
    } else if s == "deleted"@ {
        Some(Status::Deleted)
    } else {
        None
    }
}

/// The single-uppercase-letter textual form of a priority.
pub open spec fn spec_priority_text(p: Priority) -> Seq<char> {
    match p {
        Priority::H => "H"@,
        Priority::M => "M"@,
        Priority::L => "L"@,
    }
}

/// The priority named by `s`, under a case-sensitive exact match.
pub open spec fn spec_parse_priority(s: Seq<char>) -> Option<Priority> {
    if s == "H"@ {
        Some(Priority::H)
    } else if s == "M"@ {
        Some(Priority::M)
    } else if s == "L"@ {
        Some(Priority::L)
    } else {
        None
    }
}

/// The lowercase textual form of a recurrence.
pub open spec fn spec_recurrence_text(r: Recurrence) -> Seq<char> {
    match r {
        Recurrence::Daily => "daily"@,
        Recurrence::Weekly => "weekly"@,
        Recurrence::Monthly => "monthly"@,
        Recurrence::Yearly => "yearly"@,
    }
}

/// The recurrence named by `s`, under a case-sensitive exact match.
pub open spec fn spec_parse_recurrence(s: Seq<char>) -> Option<Recurrence> {
    if s == "daily"@ {
        Some(Recurrence::Daily)
    } else if s == "weekly"@ {
        Some(Recurrence::Weekly)
    } else if s == "monthly"@ {
        Some(Recurrence::Monthly)
    } else if s == "yearly"@ {
        Some(Recurrence::Yearly)
    } else {
        None
    }
}

/// Encodes a status as its lowercase name.
pub fn encode_status(st: &Status) -> (r: &'static str)
    ensures
        r@ == spec_status_text(*st),
{
    match st {
        Status::Pending => "pending",
        Status::Completed => "completed",
        Status::Recurring => "recurring",
        Status::Deleted => "deleted",
    }
}

/// Decodes a status under a case-sensitive exact match.
pub fn parse_status(s: &str) -> (r: Option<Status>)
    ensures
        r == spec_parse_status(s@),
{
    if str_eq(s, "pending") {
        Some(Status::Pending)
    } else if str_eq(s, "completed") {
        Some(Status::Completed)
    } else if str_eq(s, "recurring") {
        Some(Status::Recurring)
    } else if str_eq(s, "deleted") {
        Some(Status::Deleted)
    } else {
        None
    }
}

/// Encodes a priority as its single uppercase letter.
pub fn encode_priority(p: &Priority) -> (r: &'static str)
    ensures
        r@ == spec_priority_text(*p),
{
    match p {
        Priority::H => "H",
        Priority::M => "M",
        Priority::L => "L",
    }
}

/// Decodes a priority under a case-sensitive exact match.
pub fn parse_priority(s: &str) -> (r: Option<Priority>)
    ensures
        r == spec_parse_priority(s@),
{
    if str_eq(s, "H") {
        Some(Priority::H)
    } else if str_eq(s, "M") {
        Some(Priority::M)
    } else if str_eq(s, "L") {
        Some(Priority::L)
    } else {
        None
    }
}

/// Encodes a recurrence as its lowercase name.
pub fn encode_recurrence(r: &Recurrence) -> (t: &'static str)
    ensures
        t@ == spec_recurrence_text(*r),
{
    match r {
        Recurrence::Daily => "daily",
        Recurrence::Weekly => "weekly",
        Recurrence::Monthly => "monthly",
        Recurrence::Yearly => "yearly",
    }
}

/// Decodes a recurrence under a case-sensitive exact match.
pub fn parse_recurrence(s: &str) -> (r: Option<Recurrence>)
    ensures
        r == spec_parse_recurrence(s@),
{
    if str_eq(s, "daily") {
        Some(Recurrence::Daily)
    } else if str_eq(s, "weekly") {
        Some(Recurrence::Weekly)
    } else if str_eq(s, "monthly") {
        Some(Recurrence::Monthly)
    } else if str_eq(s, "yearly") {
        Some(Recurrence::Yearly)
    } else {
        None
    }
}

/// The status codec round-trips: parsing the encoded name of any
/// status yields that status back.
pub proof fn lemma_status_round_trip(st: Status)
    ensures
        spec_parse_status(spec_status_text(st)) == Some(st),
{
    reveal_strlit("pending");
    reveal_strlit("completed");
    reveal_strlit("recurring");
    reveal_strlit("deleted");
    assert("pending"@.len() == 7);
    assert("completed"@.len() == 9);
    assert("recurring"@.len() == 9);
    assert("deleted"@.len() == 7);
    assert("pending"@[0] == 'p');
    assert("deleted"@[0] == 'd');
    assert("completed"@[0] == 'c');
    assert("recurring"@[0] == 'r');
}

/// The priority codec round-trips.
pub proof fn lemma_priority_round_trip(p: Priority)
    ensures
        spec_parse_priority(spec_priority_text(p)) == Some(p),
{
    reveal_strlit("H");
    reveal_strlit("M");
    reveal_strlit("L");
    assert("H"@[0] == 'H');
    assert("M"@[0] == 'M');
    assert("L"@[0] == 'L');
}

/// The recurrence codec round-trips.
pub proof fn lemma_recurrence_round_trip(r: Recurrence)
    ensures
        spec_parse_recurrence(spec_recurrence_text(r)) == Some(r),
{
    reveal_strlit("daily");
    reveal_strlit("weekly");
    reveal_strlit("monthly");
    reveal_strlit("yearly");
    assert("daily"@.len() == 5);
    assert("weekly"@.len() == 6);
    assert("monthly"@.len() == 7);
    assert("yearly"@.len() == 6);
    assert("weekly"@[0] == 'w');
    assert("yearly"@[0] == 'y');
}

} // verus!
