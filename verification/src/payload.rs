//! The payload codec: encoding a task to the structured textual
//! payload exchanged with the backend, and decoding such a payload
//! back, validating every field.
//!
//! A payload is an object with named keys; an optional attribute with
//! no value is omitted entirely (its key is absent), never carried as
//! null or as an empty string. Decoding either yields a fully valid
//! task or fails with a `DecodeError`; a key that is present but
//! malformed is never silently treated as absent.

use vstd::prelude::*;
use crate::model::{
    Task, TaskV, Field, DecodeError, DecodeErrorV, Bookmark, BookmarkV, BookmarkContent,
    BookmarkContentV, ContextswitchData, ContextswitchDataV, spec_status_text, spec_parse_status,
    spec_priority_text, spec_parse_priority, spec_recurrence_text, spec_parse_recurrence,
    encode_status, parse_status, encode_priority, parse_priority, encode_recurrence,
    parse_recurrence, lemma_status_round_trip, lemma_priority_round_trip,
    lemma_recurrence_round_trip,
};
use crate::timestamp::{
    Timestamp, spec_fmt_timestamp, spec_parse_timestamp, encode_timestamp, parse_timestamp,
    lemma_timestamp_round_trip,
};
use crate::ids::{
    spec_uuid_text, spec_parse_task_id, encode_task_id, parse_task_id, lemma_uuid_round_trip,
};
use crate::uris::{uri_ok, check_uri};

verus! {

/// Wire form of a bookmark's content object.
#[derive(Debug, PartialEq, Eq, Clone)]
pub struct PayloadBookmarkContent {
    pub title: Option<String>,
    pub content_preview: Option<String>,
}

/// Mathematical view of a `PayloadBookmarkContent`.
#[verifier::ext_equal]
pub struct PayloadBookmarkContentV {
    pub title: Option<Seq<char>>,
    pub content_preview: Option<Seq<char>>,
}

impl DeepView for PayloadBookmarkContent {
    type V = PayloadBookmarkContentV;

    open spec fn deep_view(&self) -> PayloadBookmarkContentV {
        PayloadBookmarkContentV {
            title: self.title.deep_view(),
            content_preview: self.content_preview.deep_view(),
        }
    }
}

/// Wire form of a bookmark.
#[derive(Debug, PartialEq, Eq, Clone)]
pub struct PayloadBookmark {
    pub uri: Option<String>,
    pub content: Option<PayloadBookmarkContent>,
}

/// Mathematical view of a `PayloadBookmark`.
#[verifier::ext_equal]
pub struct PayloadBookmarkV {
    pub uri: Option<Seq<char>>,
    pub content: Option<PayloadBookmarkContentV>,
}

impl DeepView for PayloadBookmark {
    type V = PayloadBookmarkV;

    open spec fn deep_view(&self) -> PayloadBookmarkV {
        PayloadBookmarkV { uri: self.uri.deep_view(), content: self.content.deep_view() }
    }
}

/// Wire form of the contextswitch metadata object.
#[derive(Debug, PartialEq, Eq, Clone)]
pub struct PayloadContextswitch {
    pub bookmarks: Vec<PayloadBookmark>,
}

/// Mathematical view of a `PayloadContextswitch`.
#[verifier::ext_equal]
pub struct PayloadContextswitchV {
    pub bookmarks: Seq<PayloadBookmarkV>,
}

impl DeepView for PayloadContextswitch {
    type V = PayloadContextswitchV;

    open spec fn deep_view(&self) -> PayloadContextswitchV {
        PayloadContextswitchV { bookmarks: self.bookmarks.deep_view() }
    }
}

/// The structured textual payload exchanged with the backend: one
/// optional slot per key of the wire object. A slot holding `None`
/// means the key is absent from the payload.
#[derive(Debug, PartialEq, Eq, Clone)]
pub struct Payload {
    pub id: Option<String>,
    pub entry: Option<String>,
    pub modified: Option<String>,
    pub status: Option<String>,
    pub description: Option<String>,
    pub urgency: Option<String>,
    pub due: Option<String>,
    pub start: Option<String>,
    pub end: Option<String>,
    pub wait: Option<String>,
    pub parent: Option<String>,
    pub project: Option<String>,
    pub priority: Option<String>,
    pub recur: Option<String>,
    pub tags: Option<Vec<String>>,
    pub contextswitch: Option<PayloadContextswitch>,
}

/// Mathematical view of a `Payload`.
#[verifier::ext_equal]
pub struct PayloadV {
    pub id: Option<Seq<char>>,
    pub entry: Option<Seq<char>>,
    pub modified: Option<Seq<char>>,
    pub status: Option<Seq<char>>,
    pub description: Option<Seq<char>>,
    pub urgency: Option<Seq<char>>,
    pub due: Option<Seq<char>>,
    pub start: Option<Seq<char>>,
    pub end: Option<Seq<char>>,
    pub wait: Option<Seq<char>>,
    pub parent: Option<Seq<char>>,
    pub project: Option<Seq<char>>,
    pub priority: Option<Seq<char>>,
    pub recur: Option<Seq<char>>,
    pub tags: Option<Seq<Seq<char>>>,
    pub contextswitch: Option<PayloadContextswitchV>,
}

impl DeepView for Payload {
    type V = PayloadV;

    open spec fn deep_view(&self) -> PayloadV {
        PayloadV {
            id: self.id.deep_view(),
            entry: self.entry.deep_view(),
            modified: self.modified.deep_view(),
            status: self.status.deep_view(),
            description: self.description.deep_view(),
            urgency: self.urgency.deep_view(),
            due: self.due.deep_view(),
            start: self.start.deep_view(),
            end: self.end.deep_view(),
            wait: self.wait.deep_view(),
            parent: self.parent.deep_view(),
            project: self.project.deep_view(),
            priority: self.priority.deep_view(),
            recur: self.recur.deep_view(),
            tags: self.tags.deep_view(),
            contextswitch: self.contextswitch.deep_view(),
        }
    }
}

/// Wire form of one bookmark.
pub open spec fn spec_encode_bookmark(b: BookmarkV) -> PayloadBookmarkV {
    PayloadBookmarkV {
        uri: Some(b.uri),
        content: match b.content {
            Some(c) => Some(
                PayloadBookmarkContentV {
                    title: Some(c.title),
                    content_preview: c.content_preview,
                },
            ),
            None => None,
        },
    }
}

/// The payload that encodes `t`: required keys always present,
/// optional keys present exactly where the task has a value.
pub open spec fn spec_encode(t: TaskV) -> PayloadV {
    PayloadV {
        id: Some(spec_uuid_text(t.id.0)),
        entry: Some(spec_fmt_timestamp(t.entry)),
        modified: Some(spec_fmt_timestamp(t.modified)),
        status: Some(spec_status_text(t.status)),
        description: Some(t.description),
        urgency: Some(t.urgency),
        due: match t.due {
            Some(ts) => Some(spec_fmt_timestamp(ts)),
            None => None,
        },
        start: match t.start {
            Some(ts) => Some(spec_fmt_timestamp(ts)),
            None => None,
        },
        end: match t.end {
            Some(ts) => Some(spec_fmt_timestamp(ts)),
            None => None,
        },
        wait: match t.wait {
            Some(ts) => Some(spec_fmt_timestamp(ts)),
            None => None,
        },
        parent: match t.parent {
            Some(p) => Some(spec_uuid_text(p.0)),
            None => None,
        },
        project: t.project,
        priority: match t.priority {
            Some(p) => Some(spec_priority_text(p)),
            None => None,
        },
        recur: match t.recur {
            Some(r) => Some(spec_recurrence_text(r)),
            None => None,
        },
        tags: t.tags,
        contextswitch: match t.contextswitch {
            Some(c) => Some(
                PayloadContextswitchV {
                    bookmarks: c.bookmarks.map_values(|b: BookmarkV| spec_encode_bookmark(b)),
                },
            ),
            None => None,
        },
    }
}

/// The first decode failure of one wire bookmark, if any.
pub open spec fn spec_bookmark_err(b: PayloadBookmarkV) -> Option<DecodeErrorV> {
    if b.uri is None {
        Some(DecodeErrorV::MissingRequiredField { field: Field::Uri })
    } else if !uri_ok(b.uri->Some_0) {
        Some(DecodeErrorV::InvalidUri { field: Field::Uri, raw: b.uri->Some_0 })
    } else if b.content matches Some(c) && c.title is None {
        Some(DecodeErrorV::MissingRequiredField { field: Field::Title })
    } else {
        None
    }
}

/// The bookmark a failure-free wire bookmark decodes to.
pub open spec fn spec_decode_bookmark(b: PayloadBookmarkV) -> BookmarkV {
    BookmarkV {
        uri: b.uri->Some_0,
        content: match b.content {
            Some(c) => Some(
                BookmarkContentV {
                    title: c.title->Some_0,
                    content_preview: c.content_preview,
                },
            ),
            None => None,
        },
    }
}

/// The first decode failure among a sequence of wire bookmarks.
pub open spec fn spec_bookmarks_err(s: Seq<PayloadBookmarkV>) -> Option<DecodeErrorV>
    decreases s.len(),
{
    if s.len() == 0 {
        None
    } else if spec_bookmark_err(s[0]) is Some {
        spec_bookmark_err(s[0])
    } else {
        spec_bookmarks_err(s.drop_first())
    }
}

/// The first decode failure of a payload, if any, in key order:
/// `id`, `entry`, `modified`, `status`, `description`, `urgency`,
/// `due`, `start`, `end`, `wait`, `parent`, `priority`, `recur`,
/// then the contextswitch bookmarks.
pub open spec fn spec_decode_err(p: PayloadV) -> Option<DecodeErrorV> {
    if p.id is None {
        Some(DecodeErrorV::MissingRequiredField { field: Field::Id })
    } else if spec_parse_task_id(p.id->Some_0) is None {
        Some(DecodeErrorV::InvalidIdentifier { field: Field::Id, raw: p.id->Some_0 })
    } else if p.entry is None {
        Some(DecodeErrorV::MissingRequiredField { field: Field::Entry })
    } else if spec_parse_timestamp(p.entry->Some_0) is None {
        Some(DecodeErrorV::MalformedTimestamp { field: Field::Entry, raw: p.entry->Some_0 })
    } else if p.modified is None {
        Some(DecodeErrorV::MissingRequiredField { field: Field::Modified })
    } else if spec_parse_timestamp(p.modified->Some_0) is None {
        Some(DecodeErrorV::MalformedTimestamp { field: Field::Modified, raw: p.modified->Some_0 })
    } else if p.status is None {
        Some(DecodeErrorV::MissingRequiredField { field: Field::Status })
    } else if spec_parse_status(p.status->Some_0) is None {
        Some(DecodeErrorV::UnknownVariant { field: Field::Status, raw: p.status->Some_0 })
    } else if p.description is None {
        Some(DecodeErrorV::MissingRequiredField { field: Field::Description })
    } else if p.urgency is None {
        Some(DecodeErrorV::MissingRequiredField { field: Field::Urgency })
    } else if p.due is Some && spec_parse_timestamp(p.due->Some_0) is None {
        Some(DecodeErrorV::MalformedTimestamp { field: Field::Due, raw: p.due->Some_0 })
    } else if p.start is Some && spec_parse_timestamp(p.start->Some_0) is None {
        Some(DecodeErrorV::MalformedTimestamp { field: Field::Start, raw: p.start->Some_0 })
    } else if p.end is Some && spec_parse_timestamp(p.end->Some_0) is None {
        Some(DecodeErrorV::MalformedTimestamp { field: Field::End, raw: p.end->Some_0 })
    } else if p.wait is Some && spec_parse_timestamp(p.wait->Some_0) is None {
        Some(DecodeErrorV::MalformedTimestamp { field: Field::Wait, raw: p.wait->Some_0 })
    } else if p.parent is Some && spec_parse_task_id(p.parent->Some_0) is None {
        Some(DecodeErrorV::InvalidIdentifier { field: Field::Parent, raw: p.parent->Some_0 })
    } else if p.priority is Some && spec_parse_priority(p.priority->Some_0) is None {
        Some(DecodeErrorV::UnknownVariant { field: Field::Priority, raw: p.priority->Some_0 })
    } else if p.recur is Some && spec_parse_recurrence(p.recur->Some_0) is None {
        Some(DecodeErrorV::UnknownVariant { field: Field::Recur, raw: p.recur->Some_0 })
    } else if p.contextswitch is Some && spec_bookmarks_err(p.contextswitch->Some_0.bookmarks)
        is Some {
        spec_bookmarks_err(p.contextswitch->Some_0.bookmarks)
    } else {
        None
    }
}

/// The task a failure-free payload decodes to.
pub open spec fn spec_decode_task(p: PayloadV) -> TaskV {
    TaskV {
        id: spec_parse_task_id(p.id->Some_0)->Some_0,
        entry: spec_parse_timestamp(p.entry->Some_0)->Some_0,
        modified: spec_parse_timestamp(p.modified->Some_0)->Some_0,
        status: spec_parse_status(p.status->Some_0)->Some_0,
        description: p.description->Some_0,
        urgency: p.urgency->Some_0,
        due: match p.due {
            Some(s) => Some(spec_parse_timestamp(s)->Some_0),
            None => None,
        },
        start: match p.start {
            Some(s) => Some(spec_parse_timestamp(s)->Some_0),
            None => None,
        },
        end: match p.end {
            Some(s) => Some(spec_parse_timestamp(s)->Some_0),
            None => None,
        },
        wait: match p.wait {
            Some(s) => Some(spec_parse_timestamp(s)->Some_0),
            None => None,
        },
        parent: match p.parent {
            Some(s) => Some(spec_parse_task_id(s)->Some_0),
            None => None,
        },
        project: p.project,
        priority: match p.priority {
            Some(s) => Some(spec_parse_priority(s)->Some_0),
            None => None,
        },
        recur: match p.recur {
            Some(s) => Some(spec_parse_recurrence(s)->Some_0),
            None => None,
        },
        tags: p.tags,
        contextswitch: match p.contextswitch {
            Some(c) => Some(
                ContextswitchDataV {
                    bookmarks: c.bookmarks.map_values(
                        |b: PayloadBookmarkV| spec_decode_bookmark(b),
                    ),
                },
            ),
            None => None,
        },
    }
}

/// What decoding a payload yields: the decoded task, or the first
/// failure in key order.
pub open spec fn spec_decode(p: PayloadV) -> Result<TaskV, DecodeErrorV> {
    match spec_decode_err(p) {
        Some(e) => Err(e),
        None => Ok(spec_decode_task(p)),
    }
}

/// View of a decode outcome.
pub open spec fn spec_decode_outcome(r: Result<Task, DecodeError>) -> Result<TaskV, DecodeErrorV> {
    match r {
        Ok(t) => Ok(t.deep_view()),
        Err(e) => Err(e.deep_view()),
    }
}

/// Clones a string slot.
fn clone_opt_string(o: &Option<String>) -> (r: Option<String>)
    ensures
        r.deep_view() == o.deep_view(),
{
    match o {
        Some(s) => Some(s.clone()),
        None => None,
    }
}

/// Clones a list of strings.
fn clone_string_vec(v: &Vec<String>) -> (r: Vec<String>)
    ensures
        r.deep_view() == v.deep_view(),
{
    let mut out: Vec<String> = Vec::new();
    let n = v.len();
    let mut i: usize = 0;
    while i < n
        invariant
            i <= n,
            n == v.len(),
            out.len() == i,
            forall|j: int| 0 <= j < i ==> out@[j]@ == v@[j]@,
        decreases n - i,
    {
        out.push(v[i].clone());
        i += 1;
    }
    proof {
        assert(out.deep_view() =~= v.deep_view());
    }
    out
}

/// Wire form of one bookmark.
fn encode_bookmark(b: &Bookmark) -> (r: PayloadBookmark)
    ensures
        r.deep_view() == spec_encode_bookmark(b.deep_view()),
{
    let content = match &b.content {
        Some(c) => Some(
            PayloadBookmarkContent {
                title: Some(c.title.clone()),
                content_preview: clone_opt_string(&c.content_preview),
            },
        ),
        None => None,
    };
    let r = PayloadBookmark { uri: Some(b.uri.clone()), content };
    proof {
        assert(r.deep_view() =~~= spec_encode_bookmark(b.deep_view()));
    }
    r
}

/// Wire form of the contextswitch metadata.
fn encode_contextswitch(c: &ContextswitchData) -> (r: PayloadContextswitch)
    ensures
        r.deep_view().bookmarks == c.deep_view().bookmarks.map_values(
            |b: BookmarkV| spec_encode_bookmark(b),
        ),
{
    let mut out: Vec<PayloadBookmark> = Vec::new();
    let n = c.bookmarks.len();
    let mut i: usize = 0;
    while i < n
        invariant
            i <= n,
            n == c.bookmarks.len(),
            out.len() == i,
            forall|j: int| 0 <= j < i ==> out@[j].deep_view() == spec_encode_bookmark(
                c.bookmarks@[j].deep_view(),
            ),
        decreases n - i,
    {
        out.push(encode_bookmark(&c.bookmarks[i]));
        i += 1;
    }
    let r = PayloadContextswitch { bookmarks: out };
    proof {
        assert(r.deep_view().bookmarks =~= c.deep_view().bookmarks.map_values(
            |b: BookmarkV| spec_encode_bookmark(b),
        ));
    }
    r
}

/// Encodes a task to its payload. Encoding never fails; every
/// optional attribute with no value is omitted entirely.
pub fn encode(t: &Task) -> (p: Payload)
    requires
        t.deep_view().wf(),
    ensures
        p.deep_view() == spec_encode(t.deep_view()),
{
    let p = Payload {
        id: Some(encode_task_id(&t.id)),
        entry: Some(encode_timestamp(&t.entry)),
        modified: Some(encode_timestamp(&t.modified)),
        status: Some(String::from_str(encode_status(&t.status))),
        description: Some(t.description.clone()),
        urgency: Some(t.urgency.clone()),
        due: match &t.due {
            Some(ts) => Some(encode_timestamp(ts)),
            None => None,
        },
        start: match &t.start {
            Some(ts) => Some(encode_timestamp(ts)),
            None => None,
        },
        end: match &t.end {
            Some(ts) => Some(encode_timestamp(ts)),
            None => None,
        },
        wait: match &t.wait {
            Some(ts) => Some(encode_timestamp(ts)),
            None => None,
        },
        parent: match &t.parent {
            Some(pid) => Some(encode_task_id(pid)),
            None => None,
        },
        project: clone_opt_string(&t.project),
        priority: match &t.priority {
            Some(pr) => Some(String::from_str(encode_priority(pr))),
            None => None,
        },
        recur: match &t.recur {
            Some(rc) => Some(String::from_str(encode_recurrence(rc))),
            None => None,
        },
        tags: match &t.tags {
            Some(v) => Some(clone_string_vec(v)),
            None => None,
        },
        contextswitch: match &t.contextswitch {
            Some(c) => Some(encode_contextswitch(c)),
            None => None,
        },
    };
    proof {
        assert(p.deep_view() =~~= spec_encode(t.deep_view()));
    }
    p
}

/// Decodes a required timestamp-bearing key.
pub fn decode_req_timestamp(f: Field, o: &Option<String>) -> (r: Result<Timestamp, DecodeError>)
    ensures
        o is None ==> (r matches Err(e) && e.deep_view() == (DecodeErrorV::MissingRequiredField {
            field: f,
        })),
        o is Some && spec_parse_timestamp(o->Some_0@) is None ==> (r matches Err(e)
            && e.deep_view() == (DecodeErrorV::MalformedTimestamp { field: f, raw: o->Some_0@ })),
        o is Some && spec_parse_timestamp(o->Some_0@) is Some ==> r == Ok::<
            Timestamp,
            DecodeError,
        >(spec_parse_timestamp(o->Some_0@)->Some_0),
{
    match o {
        None => Err(DecodeError::MissingRequiredField { field: f }),
        Some(s) => match parse_timestamp(s.as_str()) {
            Some(t) => Ok(t),
            None => Err(DecodeError::MalformedTimestamp { field: f, raw: s.clone() }),
        },
    }
}

/// Decodes an optional timestamp-bearing key: an absent key is an
/// absent value; a present key must parse, and never falls back to
/// absent.
pub fn decode_opt_timestamp(f: Field, o: &Option<String>) -> (r: Result<
    Option<Timestamp>,
    DecodeError,
>)
    ensures
        o is None ==> r == Ok::<Option<Timestamp>, DecodeError>(None),
        o is Some && spec_parse_timestamp(o->Some_0@) is None ==> (r matches Err(e)
            && e.deep_view() == (DecodeErrorV::MalformedTimestamp { field: f, raw: o->Some_0@ })),
        o is Some && spec_parse_timestamp(o->Some_0@) is Some ==> r == Ok::<
            Option<Timestamp>,
            DecodeError,
        >(Some(spec_parse_timestamp(o->Some_0@)->Some_0)),
{
    match o {
        None => Ok(None),
        Some(s) => match parse_timestamp(s.as_str()) {
            Some(t) => Ok(Some(t)),
            None => Err(DecodeError::MalformedTimestamp { field: f, raw: s.clone() }),
        },
    }
}

/// Decodes one wire bookmark.
fn decode_bookmark(b: &PayloadBookmark) -> (r: Result<Bookmark, DecodeError>)
    ensures
        spec_bookmark_err(b.deep_view()) matches Some(e) ==> (r matches Err(err)
            && err.deep_view() == e),
        spec_bookmark_err(b.deep_view()) is None ==> (r matches Ok(bm) && bm.deep_view()
            == spec_decode_bookmark(b.deep_view())),
{
    let uri = match &b.uri {
        None => {
            return Err(DecodeError::MissingRequiredField { field: Field::Uri });
        },
        Some(u) => {
            if !check_uri(u.as_str()) {
                return Err(DecodeError::InvalidUri { field: Field::Uri, raw: u.clone() });
            }
            u.clone()
        },
    };
    let content = match &b.content {
        None => None,
        Some(c) => match &c.title {
            None => {
                return Err(DecodeError::MissingRequiredField { field: Field::Title });
            },
            Some(title) => Some(
                BookmarkContent {
                    title: title.clone(),
                    content_preview: clone_opt_string(&c.content_preview),
                },
            ),
        },
    };
    let bm = Bookmark { uri, content };
    proof {
        assert(bm.deep_view() =~~= spec_decode_bookmark(b.deep_view()));
    }
    Ok(bm)
}

/// The first failure among bookmarks is the failure of the first
/// bookmark that fails.
proof fn lemma_bookmarks_err_first(s: Seq<PayloadBookmarkV>, i: int)
    requires
        0 <= i < s.len(),
        forall|j: int| 0 <= j < i ==> spec_bookmark_err(#[trigger] s[j]) is None,
        spec_bookmark_err(s[i]) is Some,
    ensures
        spec_bookmarks_err(s) == spec_bookmark_err(s[i]),
    decreases i,
{
    if i > 0 {
        lemma_bookmarks_err_first(s.drop_first(), i - 1);
    }
}

/// A bookmark sequence is failure-free exactly when each bookmark is.
proof fn lemma_bookmarks_err_none(s: Seq<PayloadBookmarkV>)
    ensures
        spec_bookmarks_err(s) is None <==> (forall|j: int|
            0 <= j < s.len() ==> spec_bookmark_err(#[trigger] s[j]) is None),
    decreases s.len(),
{
    if s.len() > 0 {
        let rest = s.drop_first();
        lemma_bookmarks_err_none(rest);
        if spec_bookmarks_err(s) is None {
            assert forall|j: int| 0 <= j < s.len() implies spec_bookmark_err(
                #[trigger] s[j],
            ) is None by {
                if j > 0 {
                    assert(rest[j - 1] == s[j]);
                }
            }
        }
        if forall|j: int| 0 <= j < s.len() ==> spec_bookmark_err(#[trigger] s[j]) is None {
            assert forall|j: int| 0 <= j < rest.len() implies spec_bookmark_err(
                #[trigger] rest[j],
            ) is None by {
                assert(rest[j] == s[j + 1]);
            }
        }
    }
}

/// A failure-free payload decodes to a well-formed task: its
/// timestamps are calendar-valid and its bookmark URIs accepted.
proof fn lemma_decode_ok_wf(p: PayloadV)
    requires
        spec_decode_err(p) is None,
    ensures
        spec_decode_task(p).wf(),
{
    let t = spec_decode_task(p);
    if p.contextswitch is Some {
        let bs = p.contextswitch->Some_0.bookmarks;
        lemma_bookmarks_err_none(bs);
        assert forall|i: int|
            0 <= i < t.contextswitch->Some_0.bookmarks.len() implies (
        #[trigger] t.contextswitch->Some_0.bookmarks[i]).wf() by {
            assert(spec_bookmark_err(bs[i]) is None);
            assert(t.contextswitch->Some_0.bookmarks[i] == spec_decode_bookmark(bs[i]));
        }
    }
}

/// Decodes the contextswitch metadata, bookmark by bookmark, in order.
fn decode_contextswitch(c: &PayloadContextswitch) -> (r: Result<ContextswitchData, DecodeError>)
    ensures
        r matches Err(e) ==> spec_bookmarks_err(c.deep_view().bookmarks) == Some(e.deep_view()),
        r matches Ok(d) ==> (spec_bookmarks_err(c.deep_view().bookmarks) is None
            && d.deep_view().bookmarks == c.deep_view().bookmarks.map_values(
            |b: PayloadBookmarkV| spec_decode_bookmark(b),
        )),
{
    let ghost bs = c.deep_view().bookmarks;
    let mut out: Vec<Bookmark> = Vec::new();
    let n = c.bookmarks.len();
    let mut i: usize = 0;
    while i < n
        invariant
            i <= n,
            n == c.bookmarks.len(),
            bs == c.deep_view().bookmarks,
            bs.len() == n,
            out.len() == i,
            forall|j: int| 0 <= j < i ==> spec_bookmark_err(#[trigger] bs[j]) is None,
            forall|j: int| 0 <= j < i ==> out@[j].deep_view() == spec_decode_bookmark(bs[j]),
        decreases n - i,
    {
        assert(bs[i as int] == c.bookmarks@[i as int].deep_view());
        match decode_bookmark(&c.bookmarks[i]) {
            Ok(bm) => {
                out.push(bm);
            },
            Err(e) => {
                proof {
                    lemma_bookmarks_err_first(bs, i as int);
                }
                return Err(e);
            },
        }
        i += 1;
    }
    let d = ContextswitchData { bookmarks: out };
    proof {
        lemma_bookmarks_err_none(bs);
        assert(d.deep_view().bookmarks =~= bs.map_values(
            |b: PayloadBookmarkV| spec_decode_bookmark(b),
        ));
    }
    Ok(d)
}

/// Decodes a payload into a task, validating and normalizing every
/// field through its codec. Either every field of the result is
/// valid, or the first failure in key order is returned; a present
/// but malformed optional field fails outright, and is never treated
/// as absent.
pub fn decode(p: &Payload) -> (r: Result<Task, DecodeError>)
    ensures
        spec_decode_outcome(r) == spec_decode(p.deep_view()),
        r matches Ok(t) ==> t.deep_view().wf(),
{
    let id = match &p.id {
        None => {
            return Err(DecodeError::MissingRequiredField { field: Field::Id });
        },
        Some(s) => match parse_task_id(s.as_str()) {
            Some(tid) => tid,
            None => {
                return Err(DecodeError::InvalidIdentifier { field: Field::Id, raw: s.clone() });
            },
        },
    };
    let entry = match decode_req_timestamp(Field::Entry, &p.entry) {
        Ok(t) => t,
        Err(e) => {
            return Err(e);
        },
    };
    let modified = match decode_req_timestamp(Field::Modified, &p.modified) {
        Ok(t) => t,
        Err(e) => {
            return Err(e);
        },
    };
    let status = match &p.status {
        None => {
            return Err(DecodeError::MissingRequiredField { field: Field::Status });
        },
        Some(s) => match parse_status(s.as_str()) {
            Some(st) => st,
            None => {
                return Err(DecodeError::UnknownVariant { field: Field::Status, raw: s.clone() });
            },
        },
    };
    let description = match &p.description {
        None => {
            return Err(DecodeError::MissingRequiredField { field: Field::Description });
        },
        Some(s) => s.clone(),
    };
    let urgency = match &p.urgency {
        None => {
            return Err(DecodeError::MissingRequiredField { field: Field::Urgency });
        },
        Some(s) => s.clone(),
    };
    let due = match decode_opt_timestamp(Field::Due, &p.due) {
        Ok(t) => t,
        Err(e) => {
            return Err(e);
        },
    };
    let start = match decode_opt_timestamp(Field::Start, &p.start) {
        Ok(t) => t,
        Err(e) => {
            return Err(e);
        },
    };
    let end = match decode_opt_timestamp(Field::End, &p.end) {
        Ok(t) => t,
        Err(e) => {
            return Err(e);
        },
    };
    let wait = match decode_opt_timestamp(Field::Wait, &p.wait) {
        Ok(t) => t,
        Err(e) => {
            return Err(e);
        },
    };
    let parent = match &p.parent {
        None => None,
        Some(s) => match parse_task_id(s.as_str()) {
            Some(tid) => Some(tid),
            None => {
                return Err(DecodeError::InvalidIdentifier { field: Field::Parent, raw: s.clone() });
            },
        },
    };
    let priority = match &p.priority {
        None => None,
        Some(s) => match parse_priority(s.as_str()) {
            Some(pr) => Some(pr),
            None => {
                return Err(DecodeError::UnknownVariant { field: Field::Priority, raw: s.clone() });
            },
        },
    };
    let recur = match &p.recur {
        None => None,
        Some(s) => match parse_recurrence(s.as_str()) {
            Some(rc) => Some(rc),
            None => {
                return Err(DecodeError::UnknownVariant { field: Field::Recur, raw: s.clone() });
            },
        },
    };
    let contextswitch = match &p.contextswitch {
        None => None,
        Some(c) => match decode_contextswitch(c) {
            Ok(d) => Some(d),
            Err(e) => {
                return Err(e);
            },
        },
    };
    let t = Task {
        id,
        entry,
        modified,
        status,
        description,
        urgency,
        due,
        start,
        end,
        wait,
        parent,
        project: clone_opt_string(&p.project),
        priority,
        recur,
        tags: match &p.tags {
            Some(v) => Some(clone_string_vec(v)),
            None => None,
        },
        contextswitch,
    };
    proof {
        assert(spec_decode_err(p.deep_view()) is None);
        assert(t.deep_view() =~~= spec_decode_task(p.deep_view()));
        lemma_decode_ok_wf(p.deep_view());
    }
    Ok(t)
}

/// Round-trip law: decoding the encoding of any valid task yields
/// exactly that task.
pub proof fn lemma_round_trip(t: TaskV)
    requires
        t.wf(),
    ensures
        spec_decode(spec_encode(t)) == Ok::<TaskV, DecodeErrorV>(t),
{
    let p = spec_encode(t);
    lemma_uuid_round_trip(t.id.0);
    lemma_timestamp_round_trip(t.entry);
    lemma_timestamp_round_trip(t.modified);
    lemma_status_round_trip(t.status);
    if let Some(ts) = t.due {
        lemma_timestamp_round_trip(ts);
    }
    if let Some(ts) = t.start {
        lemma_timestamp_round_trip(ts);
    }
    if let Some(ts) = t.end {
        lemma_timestamp_round_trip(ts);
    }
    if let Some(ts) = t.wait {
        lemma_timestamp_round_trip(ts);
    }
    if let Some(pid) = t.parent {
        lemma_uuid_round_trip(pid.0);
    }
    if let Some(pr) = t.priority {
        lemma_priority_round_trip(pr);
    }
    if let Some(rc) = t.recur {
        lemma_recurrence_round_trip(rc);
    }
    if let Some(c) = t.contextswitch {
        let ebs = c.bookmarks.map_values(|b: BookmarkV| spec_encode_bookmark(b));
        assert forall|j: int| 0 <= j < ebs.len() implies spec_bookmark_err(
            #[trigger] ebs[j],
        ) is None by {
            assert(c.bookmarks[j].wf());
        }
        lemma_bookmarks_err_none(ebs);
        assert(ebs.map_values(|b: PayloadBookmarkV| spec_decode_bookmark(b)) =~~= c.bookmarks);
    }
    assert(spec_decode_err(p) is None);
    assert(spec_decode_task(p) =~~= t);
}

/// Omission law: the encoding of a task with every optional
/// attribute absent holds exactly the required keys — `id`, `entry`,
/// `modified`, `status`, `description` and `urgency` — and no others.
pub proof fn lemma_encode_omission(t: TaskV)
    requires
        t.due is None,
        t.start is None,
        t.end is None,
        t.wait is None,
        t.parent is None,
        t.project is None,
        t.priority is None,
        t.recur is None,
        t.tags is None,
        t.contextswitch is None,
    ensures
        spec_encode(t).id is Some,
        spec_encode(t).entry is Some,
        spec_encode(t).modified is Some,
        spec_encode(t).status is Some,
        spec_encode(t).description is Some,
        spec_encode(t).urgency is Some,
        spec_encode(t).due is None,
        spec_encode(t).start is None,
        spec_encode(t).end is None,
        spec_encode(t).wait is None,
        spec_encode(t).parent is None,
        spec_encode(t).project is None,
        spec_encode(t).priority is None,
        spec_encode(t).recur is None,
        spec_encode(t).tags is None,
        spec_encode(t).contextswitch is None,
{
}

} // verus!
