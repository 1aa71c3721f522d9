use taskmodel::model::{
    Bookmark, BookmarkContent, ContextswitchData, DecodeError, Field, NewTask, Priority,
    Recurrence, Status, Task, TaskId,
};
use taskmodel::model::{encode_priority, encode_recurrence, encode_status, parse_priority,
    parse_recurrence, parse_status};
use taskmodel::payload::{decode, decode_opt_timestamp, decode_req_timestamp, encode, Payload,
    PayloadBookmark, PayloadBookmarkContent, PayloadContextswitch};
use taskmodel::timestamp::{encode_timestamp, parse_timestamp, Timestamp};
use taskmodel::ids::{encode_task_id, parse_task_id};

fn ts(year: u16, month: u8, day: u8, hour: u8, minute: u8, second: u8) -> Timestamp {
    Timestamp { year, month, day, hour, minute, second }
}

fn sample_id() -> TaskId {
    parse_task_id("550e8400-e29b-41d4-a716-446655440000").unwrap()
}

fn minimal_task() -> Task {
    Task {
        id: sample_id(),
        entry: ts(2024, 1, 1, 12, 0, 0),
        modified: ts(2024, 2, 29, 23, 59, 59),
        status: Status::Pending,
        description: "write the report".to_string(),
        urgency: "3.9".to_string(),
        due: None,
        start: None,
        end: None,
        wait: None,
        parent: None,
        project: None,
        priority: None,
        recur: None,
        tags: None,
        contextswitch: None,
    }
}

fn minimal_payload() -> Payload {
    Payload {
        id: Some("550e8400-e29b-41d4-a716-446655440000".to_string()),
        entry: Some("20240101T120000Z".to_string()),
        modified: Some("20240229T235959Z".to_string()),
        status: Some("pending".to_string()),
        description: Some("write the report".to_string()),
        urgency: Some("3.9".to_string()),
        due: None,
        start: None,
        end: None,
        wait: None,
        parent: None,
        project: None,
        priority: None,
        recur: None,
        tags: None,
        contextswitch: None,
    }
}

#[test]
fn round_trip_minimal_task() {
    let t = minimal_task();
    let p = encode(&t);
    let back = decode(&p).unwrap();
    assert_eq!(back, t);
}

#[test]
fn round_trip_full_task() {
    let t = Task {
        id: sample_id(),
        entry: ts(2023, 12, 31, 0, 0, 0),
        modified: ts(2024, 1, 1, 6, 30, 15),
        status: Status::Recurring,
        description: "water the plants".to_string(),
        urgency: "10.25".to_string(),
        due: Some(ts(2024, 3, 1, 9, 0, 0)),
        start: Some(ts(2024, 2, 1, 8, 0, 0)),
        end: Some(ts(2024, 2, 2, 8, 0, 0)),
        wait: Some(ts(2024, 1, 15, 0, 0, 0)),
        parent: Some(parse_task_id("67e55044-10b1-426f-9247-bb680e5fe0c8").unwrap()),
        project: Some("garden".to_string()),
        priority: Some(Priority::M),
        recur: Some(Recurrence::Weekly),
        tags: Some(vec!["home".to_string(), "green".to_string()]),
        contextswitch: Some(ContextswitchData {
            bookmarks: vec![
                Bookmark {
                    uri: "https://example.com/plants".to_string(),
                    content: Some(BookmarkContent {
                        title: "plant care".to_string(),
                        content_preview: Some("how to water".to_string()),
                    }),
                },
                Bookmark { uri: "https://example.org/".to_string(), content: None },
            ],
        }),
    };
    let p = encode(&t);
    let back = decode(&p).unwrap();
    assert_eq!(back, t);
}

#[test]
fn encoding_omits_absent_optional_fields() {
    let p = encode(&minimal_task());
    assert!(p.id.is_some());
    assert!(p.entry.is_some());
    assert!(p.modified.is_some());
    assert!(p.status.is_some());
    assert!(p.description.is_some());
    assert!(p.urgency.is_some());
    assert!(p.due.is_none());
    assert!(p.start.is_none());
    assert!(p.end.is_none());
    assert!(p.wait.is_none());
    assert!(p.parent.is_none());
    assert!(p.project.is_none());
    assert!(p.priority.is_none());
    assert!(p.recur.is_none());
    assert!(p.tags.is_none());
    assert!(p.contextswitch.is_none());
}

#[test]
fn encoded_field_texts_are_exact() {
    let p = encode(&minimal_task());
    assert_eq!(p.id.as_deref(), Some("550e8400-e29b-41d4-a716-446655440000"));
    assert_eq!(p.entry.as_deref(), Some("20240101T120000Z"));
    assert_eq!(p.modified.as_deref(), Some("20240229T235959Z"));
    assert_eq!(p.status.as_deref(), Some("pending"));
    assert_eq!(p.urgency.as_deref(), Some("3.9"));
}

#[test]
fn strict_timestamp_parse_accepts_compact_form() {
    assert_eq!(parse_timestamp("20240101T120000Z"), Some(ts(2024, 1, 1, 12, 0, 0)));
}

#[test]
fn strict_timestamp_parse_rejects_separated_form() {
    assert_eq!(parse_timestamp("2024-01-01T12:00:00Z"), None);
    let r = decode_req_timestamp(Field::Entry, &Some("2024-01-01T12:00:00Z".to_string()));
    assert_eq!(
        r,
        Err(DecodeError::MalformedTimestamp {
            field: Field::Entry,
            raw: "2024-01-01T12:00:00Z".to_string(),
        })
    );
}

#[test]
fn timestamp_parse_is_strict_about_layout() {
    assert_eq!(parse_timestamp(""), None);
    assert_eq!(parse_timestamp("20240101T120000"), None);
    assert_eq!(parse_timestamp("20240101T120000z"), None);
    assert_eq!(parse_timestamp("20240101t120000Z"), None);
    assert_eq!(parse_timestamp("20240101T120000ZZ"), None);
    assert_eq!(parse_timestamp("2024010aT120000Z"), None);
}

#[test]
fn timestamp_parse_validates_calendar() {
    assert_eq!(parse_timestamp("20240229T000000Z"), Some(ts(2024, 2, 29, 0, 0, 0)));
    assert_eq!(parse_timestamp("20230229T000000Z"), None);
    assert_eq!(parse_timestamp("19000229T000000Z"), None);
    assert_eq!(parse_timestamp("20000229T000000Z"), Some(ts(2000, 2, 29, 0, 0, 0)));
    assert_eq!(parse_timestamp("20241301T000000Z"), None);
    assert_eq!(parse_timestamp("20240001T000000Z"), None);
    assert_eq!(parse_timestamp("20240431T000000Z"), None);
    assert_eq!(parse_timestamp("20240100T000000Z"), None);
    assert_eq!(parse_timestamp("20240101T240000Z"), None);
    assert_eq!(parse_timestamp("20240101T126000Z"), None);
    assert_eq!(parse_timestamp("20240101T120060Z"), None);
}

#[test]
fn timestamp_encode_is_exact() {
    assert_eq!(encode_timestamp(&ts(2024, 1, 1, 12, 0, 0)), "20240101T120000Z");
    assert_eq!(encode_timestamp(&ts(987, 11, 30, 1, 2, 3)), "09871130T010203Z");
}

#[test]
fn absent_due_decodes_to_none() {
    let p = minimal_payload();
    let t = decode(&p).unwrap();
    assert_eq!(t.due, None);
}

#[test]
fn malformed_due_fails_never_defaults() {
    let mut p = minimal_payload();
    p.due = Some("garbage".to_string());
    let r = decode(&p);
    assert_eq!(
        r,
        Err(DecodeError::MalformedTimestamp {
            field: Field::Due,
            raw: "garbage".to_string(),
        })
    );
    let r2 = decode_opt_timestamp(Field::Due, &Some("garbage".to_string()));
    assert_eq!(
        r2,
        Err(DecodeError::MalformedTimestamp {
            field: Field::Due,
            raw: "garbage".to_string(),
        })
    );
    assert_eq!(decode_opt_timestamp(Field::Due, &None), Ok(None));
}

#[test]
fn status_decode_is_case_sensitive() {
    assert_eq!(parse_status("Pending"), None);
    assert_eq!(parse_status("pending"), Some(Status::Pending));
    let mut p = minimal_payload();
    p.status = Some("Pending".to_string());
    assert_eq!(
        decode(&p),
        Err(DecodeError::UnknownVariant {
            field: Field::Status,
            raw: "Pending".to_string(),
        })
    );
}

#[test]
fn status_texts_are_lowercase_names() {
    assert_eq!(encode_status(&Status::Pending), "pending");
    assert_eq!(encode_status(&Status::Completed), "completed");
    assert_eq!(encode_status(&Status::Recurring), "recurring");
    assert_eq!(encode_status(&Status::Deleted), "deleted");
    assert_eq!(parse_status("completed"), Some(Status::Completed));
    assert_eq!(parse_status("recurring"), Some(Status::Recurring));
    assert_eq!(parse_status("deleted"), Some(Status::Deleted));
    assert_eq!(parse_status(""), None);
}

#[test]
fn priority_encodes_to_single_uppercase_letter() {
    assert_eq!(encode_priority(&Priority::H), "H");
    assert_eq!(encode_priority(&Priority::M), "M");
    assert_eq!(encode_priority(&Priority::L), "L");
    assert_eq!(parse_priority("h"), None);
    assert_eq!(parse_priority("High"), None);
    assert_eq!(parse_priority("H"), Some(Priority::H));
    let mut t = minimal_task();
    t.priority = Some(Priority::H);
    let p = encode(&t);
    assert_eq!(p.priority.as_deref(), Some("H"));
}

#[test]
fn recurrence_texts_are_lowercase_names() {
    assert_eq!(encode_recurrence(&Recurrence::Daily), "daily");
    assert_eq!(encode_recurrence(&Recurrence::Weekly), "weekly");
    assert_eq!(encode_recurrence(&Recurrence::Monthly), "monthly");
    assert_eq!(encode_recurrence(&Recurrence::Yearly), "yearly");
    assert_eq!(parse_recurrence("Daily"), None);
    assert_eq!(parse_recurrence("yearly"), Some(Recurrence::Yearly));
    let mut p = minimal_payload();
    p.recur = Some("fortnightly".to_string());
    assert_eq!(
        decode(&p),
        Err(DecodeError::UnknownVariant {
            field: Field::Recur,
            raw: "fortnightly".to_string(),
        })
    );
}

#[test]
fn identity_uniqueness_is_not_enforced() {
    let p = minimal_payload();
    let a = decode(&p).unwrap();
    let b = decode(&p).unwrap();
    assert_eq!(a.id, b.id);
    assert_eq!(a, b);
}

#[test]
fn missing_required_fields_are_reported() {
    let cases: Vec<(fn(&mut Payload), Field)> = vec![
        (|p| p.id = None, Field::Id),
        (|p| p.entry = None, Field::Entry),
        (|p| p.modified = None, Field::Modified),
        (|p| p.status = None, Field::Status),
        (|p| p.description = None, Field::Description),
        (|p| p.urgency = None, Field::Urgency),
    ];
    for (strip, field) in cases {
        let mut p = minimal_payload();
        strip(&mut p);
        assert_eq!(decode(&p), Err(DecodeError::MissingRequiredField { field }));
    }
}

#[test]
fn invalid_identifier_is_reported_with_raw_text() {
    let mut p = minimal_payload();
    p.id = Some("not-a-uuid".to_string());
    assert_eq!(
        decode(&p),
        Err(DecodeError::InvalidIdentifier {
            field: Field::Id,
            raw: "not-a-uuid".to_string(),
        })
    );
    let mut q = minimal_payload();
    q.parent = Some("xyz".to_string());
    assert_eq!(
        decode(&q),
        Err(DecodeError::InvalidIdentifier {
            field: Field::Parent,
            raw: "xyz".to_string(),
        })
    );
}

#[test]
fn first_failure_in_key_order_wins() {
    let mut p = minimal_payload();
    p.id = Some("bad".to_string());
    p.entry = Some("also bad".to_string());
    assert_eq!(
        decode(&p),
        Err(DecodeError::InvalidIdentifier { field: Field::Id, raw: "bad".to_string() })
    );
}

#[test]
fn task_id_encodes_to_canonical_hyphenated_form() {
    let id = TaskId(0x550e8400e29b41d4a716446655440000);
    assert_eq!(encode_task_id(&id), "550e8400-e29b-41d4-a716-446655440000");
    assert_eq!(sample_id(), id);
}

#[test]
fn task_id_parse_matches_identifier_component() {
    let canonical = "67e55044-10b1-426f-9247-bb680e5fe0c8";
    let expected = uuid::Uuid::parse_str(canonical).unwrap().as_u128();
    assert_eq!(parse_task_id(canonical), Some(TaskId(expected)));
    assert_eq!(parse_task_id("67e5504410b1426f9247bb680e5fe0c8"), Some(TaskId(expected)));
    assert_eq!(parse_task_id("{67e55044-10b1-426f-9247-bb680e5fe0c8}"), Some(TaskId(expected)));
    assert_eq!(
        parse_task_id("urn:uuid:67e55044-10b1-426f-9247-bb680e5fe0c8"),
        Some(TaskId(expected))
    );
    assert_eq!(parse_task_id("67E55044-10B1-426F-9247-BB680E5FE0C8"), Some(TaskId(expected)));
    assert_eq!(parse_task_id("67e55044-10b1-426f-9247"), None);
    assert_eq!(parse_task_id("67e55044+10b1+426f+9247+bb680e5fe0c8"), None);
    assert_eq!(parse_task_id(""), None);
}

#[test]
fn bookmark_uri_is_validated() {
    let mut p = minimal_payload();
    p.contextswitch = Some(PayloadContextswitch {
        bookmarks: vec![PayloadBookmark {
            uri: Some("not a uri".to_string()),
            content: None,
        }],
    });
    assert_eq!(
        decode(&p),
        Err(DecodeError::InvalidUri { field: Field::Uri, raw: "not a uri".to_string() })
    );
    let mut q = minimal_payload();
    q.contextswitch = Some(PayloadContextswitch {
        bookmarks: vec![PayloadBookmark {
            uri: Some("https://example.com/a?b=c".to_string()),
            content: None,
        }],
    });
    let t = decode(&q).unwrap();
    let cs = t.contextswitch.unwrap();
    assert_eq!(cs.bookmarks.len(), 1);
    assert_eq!(cs.bookmarks[0].uri, "https://example.com/a?b=c");
}

#[test]
fn bookmark_requires_uri_and_titled_content() {
    let mut p = minimal_payload();
    p.contextswitch = Some(PayloadContextswitch {
        bookmarks: vec![PayloadBookmark { uri: None, content: None }],
    });
    assert_eq!(decode(&p), Err(DecodeError::MissingRequiredField { field: Field::Uri }));
    let mut q = minimal_payload();
    q.contextswitch = Some(PayloadContextswitch {
        bookmarks: vec![PayloadBookmark {
            uri: Some("https://example.com/".to_string()),
            content: Some(PayloadBookmarkContent { title: None, content_preview: None }),
        }],
    });
    assert_eq!(decode(&q), Err(DecodeError::MissingRequiredField { field: Field::Title }));
}

#[test]
fn new_task_carries_its_definition() {
    let n = NewTask { definition: "add buy milk due:tomorrow".to_string() };
    assert_eq!(n.definition, "add buy milk due:tomorrow");
}

#[test]
fn required_timestamp_key_must_be_present() {
    assert_eq!(
        decode_req_timestamp(Field::Modified, &None),
        Err(DecodeError::MissingRequiredField { field: Field::Modified })
    );
    assert_eq!(
        decode_req_timestamp(Field::Entry, &Some("20240101T120000Z".to_string())),
        Ok(ts(2024, 1, 1, 12, 0, 0))
    );
}

#[test]
fn tags_travel_in_order() {
    let mut t = minimal_task();
    t.tags = Some(vec!["b".to_string(), "a".to_string(), "b".to_string()]);
    let p = encode(&t);
    assert_eq!(p.tags, Some(vec!["b".to_string(), "a".to_string(), "b".to_string()]));
    let back = decode(&p).unwrap();
    assert_eq!(back.tags, t.tags);
}
