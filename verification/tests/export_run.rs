use trace::events::TimelineEvent;
use trace::export::{describe_skip, parse_export_format, select_formats, InvalidFormatSpecifier};
use trace::paginate::PageRequest;
use trace::structured::StructuredExportError;
use trace::{
    export, ExportAction, ExportEvent, ExportFile, ExportFormats, ExportOutputFormat,
    RoomWithCachedInfo, SkipReason,
};

const BOTH: ExportFormats = ExportFormats { json: true, txt: true };
const JSON: ExportFormats = ExportFormats { json: true, txt: false };
const TXT: ExportFormats = ExportFormats { json: false, txt: true };

fn room(id: &str, name: Option<&str>) -> RoomWithCachedInfo {
    RoomWithCachedInfo {
        id: String::from(id),
        name: name.map(String::from),
        canonical_alias: None,
        alt_aliases: Vec::new(),
    }
}

fn directory() -> Vec<RoomWithCachedInfo> {
    vec![
        room("!a:example.org", Some("A")),
        room("!b:example.org", Some("B")),
        room("!c:example.org", Some("Twin")),
        room("!d:example.org", Some("Twin")),
        room("bad", Some("Bad")),
    ]
}

fn text(body: &str, sender: &str, millis: u64) -> TimelineEvent {
    TimelineEvent {
        json: format!(
            "{{\"type\":\"m.room.message\",\"content\":{{\"msgtype\":\"m.text\",\"body\":\"{}\"}},\"event_id\":\"$e:example.org\",\"origin_server_ts\":{},\"room_id\":\"!r:example.org\",\"sender\":\"{}\"}}",
            body, millis, sender
        ),
    }
}

fn names(list: &[&str]) -> Vec<String> {
    list.iter().map(|name| String::from(*name)).collect()
}

fn first_page(room: usize) -> ExportAction {
    ExportAction::FetchPage { room, request: PageRequest { from: None, limit: 1000 } }
}

#[test]
fn a_run_without_rooms_is_finished_at_once() {
    let (run, action) = export(directory(), Vec::new(), BOTH, None);
    assert_eq!(action, ExportAction::Finished);
    assert!(run.is_finished());
    let (run, action) = run.step(ExportEvent::Acknowledged);
    assert_eq!(action, ExportAction::Unexpected);
    assert!(run.is_finished());
}

#[test]
fn a_room_is_fetched_named_and_written() {
    let (run, action) = export(directory(), names(&["B"]), BOTH, None);
    assert_eq!(run.rooms_info().len(), 5);
    assert_eq!(action, first_page(1));
    let events = vec![text("one", "@x:example.org", 0), text("two", "@y:example.org", 1), text("three", "@x:example.org", 2)];
    let (run, action) = run.step(ExportEvent::Page { chunk: events.clone(), end: Some(String::from("t3")) });
    assert_eq!(action, ExportAction::LookUpMember { room: 1, user_id: String::from("@x:example.org") });
    let (run, action) = run.step(ExportEvent::Member(Some(String::from("Ex"))));
    assert_eq!(action, ExportAction::LookUpMember { room: 1, user_id: String::from("@y:example.org") });
    let (run, action) = run.step(ExportEvent::Member(None));
    let expected_json = trace::structured::messages_to_json(&events).unwrap();
    assert_eq!(
        action,
        ExportAction::WriteFiles {
            room: 1,
            files: vec![
                ExportFile { name: String::from("B [b, example.org].json"), contents: expected_json },
                ExportFile {
                    name: String::from("B [b, example.org].txt"),
                    contents: String::from("[1970-01-01T00:00:00.000Z] Ex (@x:example.org): one\n[1970-01-01T00:00:00.001Z] @y:example.org: two\n[1970-01-01T00:00:00.002Z] Ex (@x:example.org): three\n"),
                },
            ],
        }
    );
    let (run, action) = run.step(ExportEvent::Acknowledged);
    assert_eq!(action, ExportAction::Finished);
    assert!(run.is_finished());
}

#[test]
fn full_pages_are_followed_by_their_cursor() {
    let (run, _) = export(directory(), names(&["!a:example.org"]), JSON, None);
    let page: Vec<TimelineEvent> = (0..1000).map(|i| text("m", "@x:example.org", i)).collect();
    let (run, action) = run.step(ExportEvent::Page { chunk: page.clone(), end: Some(String::from("t1000")) });
    assert_eq!(
        action,
        ExportAction::FetchPage { room: 0, request: PageRequest { from: Some(String::from("t1000")), limit: 1000 } }
    );
    let (_, action) = run.step(ExportEvent::Page { chunk: vec![text("last", "@x:example.org", 1000)], end: None });
    match action {
        ExportAction::WriteFiles { room, files } => {
            assert_eq!(room, 0);
            assert_eq!(files.len(), 1);
            assert_eq!(files[0].name, "A [a, example.org].json");
            let parsed: serde_json::Value = serde_json::from_str(&files[0].contents).unwrap();
            assert_eq!(parsed.as_array().unwrap().len(), 1001);
        },
        other => panic!("unexpected action {:?}", other),
    }
}

#[test]
fn the_structured_export_alone_needs_no_lookup() {
    let (run, _) = export(directory(), names(&["A"]), JSON, None);
    let (_, action) = run.step(ExportEvent::Page { chunk: vec![text("one", "@x:example.org", 0)], end: None });
    assert!(matches!(action, ExportAction::WriteFiles { room: 0, ref files } if files.len() == 1));
}

#[test]
fn the_readable_export_alone_writes_one_file() {
    let (run, _) = export(directory(), names(&["A"]), TXT, None);
    let (_, action) = run.step(ExportEvent::Page { chunk: vec![TimelineEvent { json: String::from("{}") }], end: None });
    assert_eq!(
        action,
        ExportAction::WriteFiles {
            room: 0,
            files: vec![ExportFile {
                name: String::from("A [a, example.org].txt"),
                contents: String::from("[Message skipped due to deserialization failure]\n"),
            }],
        }
    );
}

#[test]
fn an_unresolved_identifier_is_reported_and_the_run_goes_on() {
    let (run, action) = export(directory(), names(&["Nowhere", "Twin", "Bad", "A"]), JSON, None);
    assert_eq!(action, ExportAction::Report { identifier: String::from("Nowhere"), reason: SkipReason::NotFound });
    let (run, action) = run.step(ExportEvent::Acknowledged);
    assert_eq!(
        action,
        ExportAction::Report {
            identifier: String::from("Twin"),
            reason: SkipReason::AmbiguousByName(names(&["!c:example.org", "!d:example.org"])),
        }
    );
    let (run, action) = run.step(ExportEvent::Acknowledged);
    assert_eq!(action, ExportAction::Report { identifier: String::from("Bad"), reason: SkipReason::MalformedRoom });
    let (_, action) = run.step(ExportEvent::Acknowledged);
    assert_eq!(action, first_page(0));
}

#[test]
fn a_failed_fetch_skips_its_room_only() {
    let (run, action) = export(directory(), names(&["A", "B"]), BOTH, None);
    assert_eq!(action, first_page(0));
    let page: Vec<TimelineEvent> = (0..1000).map(|i| text("m", "@x:example.org", i)).collect();
    let (run, action) = run.step(ExportEvent::Page { chunk: page, end: Some(String::from("t")) });
    assert!(matches!(action, ExportAction::FetchPage { room: 0, .. }));
    let (run, action) = run.step(ExportEvent::Failed);
    assert_eq!(action, ExportAction::Report { identifier: String::from("A"), reason: SkipReason::FetchFailed });
    let (run, action) = run.step(ExportEvent::Acknowledged);
    assert_eq!(action, first_page(1));
    let (run, action) = run.step(ExportEvent::Page { chunk: vec![text("one", "@x:example.org", 0)], end: None });
    assert_eq!(action, ExportAction::LookUpMember { room: 1, user_id: String::from("@x:example.org") });
    let (run, action) = run.step(ExportEvent::Member(None));
    match action {
        ExportAction::WriteFiles { room, files } => {
            assert_eq!(room, 1);
            assert_eq!(files.len(), 2);
            assert_eq!(files[0].name, "B [b, example.org].json");
            assert_eq!(files[1].name, "B [b, example.org].txt");
        },
        other => panic!("unexpected action {:?}", other),
    }
    let (_, action) = run.step(ExportEvent::Acknowledged);
    assert_eq!(action, ExportAction::Finished);
}

#[test]
fn a_failed_lookup_skips_its_room() {
    let (run, _) = export(directory(), names(&["A", "B"]), BOTH, None);
    let (run, _) = run.step(ExportEvent::Page { chunk: vec![text("one", "@x:example.org", 0)], end: None });
    let (run, action) = run.step(ExportEvent::Failed);
    assert_eq!(action, ExportAction::Report { identifier: String::from("A"), reason: SkipReason::LookupFailed });
    let (_, action) = run.step(ExportEvent::Acknowledged);
    assert_eq!(action, first_page(1));
}

#[test]
fn a_room_beyond_the_page_limit_is_skipped() {
    let (run, _) = export(directory(), names(&["A"]), BOTH, Some(1));
    let page: Vec<TimelineEvent> = (0..1000).map(|i| text("m", "@x:example.org", i)).collect();
    let (_, action) = run.step(ExportEvent::Page { chunk: page, end: Some(String::from("t")) });
    assert_eq!(action, ExportAction::Report { identifier: String::from("A"), reason: SkipReason::Truncated });
}

#[test]
fn a_payload_that_is_no_json_skips_its_room() {
    let (run, _) = export(directory(), names(&["A"]), JSON, None);
    let (_, action) = run.step(ExportEvent::Page { chunk: vec![TimelineEvent { json: String::from("{oops") }], end: None });
    assert_eq!(
        action,
        ExportAction::Report {
            identifier: String::from("A"),
            reason: SkipReason::NotStructured(StructuredExportError::NotJson { index: 0 }),
        }
    );
}

#[test]
fn what_answers_no_request_changes_nothing() {
    let (run, _) = export(directory(), names(&["A"]), BOTH, None);
    let (run, action) = run.step(ExportEvent::Member(None));
    assert_eq!(action, ExportAction::Unexpected);
    let (run, action) = run.step(ExportEvent::Acknowledged);
    assert_eq!(action, ExportAction::Unexpected);
    let (_, action) = run.step(ExportEvent::Page { chunk: Vec::new(), end: None });
    assert!(matches!(action, ExportAction::WriteFiles { room: 0, .. }));
}

#[test]
fn format_specifiers_are_read_in_any_case() {
    assert_eq!(parse_export_format("json"), Some(ExportOutputFormat::Json));
    assert_eq!(parse_export_format(".JSON"), Some(ExportOutputFormat::Json));
    assert_eq!(parse_export_format("Txt"), Some(ExportOutputFormat::Txt));
    assert_eq!(parse_export_format(".txt"), Some(ExportOutputFormat::Txt));
    assert_eq!(parse_export_format("text"), None);
    assert_eq!(parse_export_format(""), None);
    assert_eq!(parse_export_format(" json"), None);
}

#[test]
fn formats_are_selected_from_specifiers() {
    assert_eq!(select_formats(&Vec::new()), Ok(JSON));
    assert_eq!(select_formats(&names(&["txt"])), Ok(TXT));
    assert_eq!(select_formats(&names(&["json", "TXT", ".json"])), Ok(BOTH));
    assert_eq!(select_formats(&names(&["json", "yaml", "xml"])), Err(InvalidFormatSpecifier { index: 1 }));
    assert!(BOTH.contains(ExportOutputFormat::Txt));
    assert!(!JSON.contains(ExportOutputFormat::Txt));
}

#[test]
fn an_invalid_format_is_described() {
    assert_eq!(
        trace::export::describe_invalid_format("yaml"),
        "Received invalid format specifier yaml on export command. Valid options are 'json' and 'txt'."
    );
}

#[test]
fn skips_are_described() {
    assert_eq!(
        describe_skip("@me:example.org", "Nowhere", &SkipReason::NotFound),
        "Couldn't find any rooms accessible to @me:example.org with name Nowhere."
    );
    assert_eq!(
        describe_skip("@me:example.org", "Twin", &SkipReason::AmbiguousByName(names(&["!c:example.org", "!d:example.org"]))),
        "Found more than one room accessible to @me:example.org with name Twin. Room IDs: [\"!c:example.org\", \"!d:example.org\"]"
    );
    assert_eq!(
        describe_skip("@me:example.org", "A", &SkipReason::FetchFailed),
        "Couldn't fetch the history of room A for @me:example.org. Nothing was written for it."
    );
    assert_eq!(
        describe_skip("@me:example.org", "A", &SkipReason::Truncated),
        "The history of room A for @me:example.org exceeds the page limit. Nothing was written for it."
    );
    assert_eq!(
        describe_skip("@me:example.org", "A", &SkipReason::LookupFailed),
        "Couldn't look up a member of room A for @me:example.org. Nothing was written for it."
    );
    assert_eq!(
        describe_skip("@me:example.org", "Bad", &SkipReason::MalformedRoom),
        "Couldn't name the export files of room Bad for @me:example.org: its identifier or alias lacks a server name."
    );
    assert_eq!(
        describe_skip("@me:example.org", "A", &SkipReason::NotStructured(StructuredExportError::NotPrinted)),
        "Couldn't write the events of room A for @me:example.org as JSON. Nothing was written for it."
    );
}
