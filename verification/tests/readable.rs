use trace::events::{EventContent, TimelineEvent, TimelineItem};
use trace::names::DisplayNameCache;
use trace::readable::{
    interpret_batch, messages_to_txt, next_unknown_sender, render_item, render_items, render_line,
};

fn message(msgtype: &str, body: &str, sender: &str, millis: u64) -> TimelineEvent {
    TimelineEvent {
        json: format!(
            "{{\"type\":\"m.room.message\",\"content\":{{\"msgtype\":\"{}\",\"body\":\"{}\"}},\"event_id\":\"$e:example.org\",\"origin_server_ts\":{},\"room_id\":\"!r:example.org\",\"sender\":\"{}\"}}",
            msgtype, body, millis, sender
        ),
    }
}

fn raw(json: &str) -> TimelineEvent {
    TimelineEvent { json: String::from(json) }
}

fn item(content: EventContent) -> TimelineItem {
    TimelineItem { origin_millis: 0, sender: String::from("@user:example.org"), content }
}

#[test]
fn interprets_a_text_message() {
    let item = message("m.text", "hi", "@user:example.org", 17).interpret().unwrap();
    assert_eq!(item.origin_millis, 17);
    assert_eq!(item.sender, "@user:example.org");
    assert_eq!(item.content, EventContent::Text(String::from("hi")));
}

#[test]
fn interprets_the_kinds_of_event() {
    assert_eq!(
        message("m.emote", "waves", "@u:x.org", 1).interpret().unwrap().content,
        EventContent::Emote(String::from("waves"))
    );
    assert_eq!(
        message("m.notice", "beware", "@u:x.org", 1).interpret().unwrap().content,
        EventContent::Notice(String::from("beware"))
    );
    let image = raw("{\"type\":\"m.room.message\",\"content\":{\"msgtype\":\"m.image\",\"body\":\"cat.png\",\"url\":\"mxc://example.org/abc\"},\"event_id\":\"$e:example.org\",\"origin_server_ts\":5,\"room_id\":\"!r:example.org\",\"sender\":\"@u:x.org\"}");
    assert_eq!(image.interpret().unwrap().content, EventContent::OtherMessage);
    let redacted = raw("{\"type\":\"m.room.message\",\"content\":{},\"event_id\":\"$e:example.org\",\"origin_server_ts\":5,\"room_id\":\"!r:example.org\",\"sender\":\"@u:x.org\",\"unsigned\":{\"redacted_because\":{\"type\":\"m.room.redaction\",\"content\":{},\"redacts\":\"$e:example.org\",\"event_id\":\"$f:example.org\",\"origin_server_ts\":6,\"room_id\":\"!r:example.org\",\"sender\":\"@u:x.org\"}}}");
    assert_eq!(redacted.interpret().unwrap().content, EventContent::RedactedMessage);
    let reaction = raw("{\"type\":\"m.reaction\",\"content\":{\"m.relates_to\":{\"rel_type\":\"m.annotation\",\"event_id\":\"$e:example.org\",\"key\":\"+1\"}},\"event_id\":\"$g:example.org\",\"origin_server_ts\":7,\"room_id\":\"!r:example.org\",\"sender\":\"@u:x.org\"}");
    assert_eq!(reaction.interpret().unwrap().content, EventContent::OtherMessageLike);
    let topic = raw("{\"type\":\"m.room.topic\",\"state_key\":\"\",\"content\":{\"topic\":\"cats\"},\"event_id\":\"$h:example.org\",\"origin_server_ts\":8,\"room_id\":\"!r:example.org\",\"sender\":\"@u:x.org\"}");
    let topic = topic.interpret().unwrap();
    assert_eq!(topic.content, EventContent::State);
    assert_eq!(topic.origin_millis, 8);
    assert_eq!(topic.sender, "@u:x.org");
}

#[test]
fn does_not_interpret_what_is_no_event() {
    assert_eq!(raw("{}").interpret(), None);
    assert_eq!(raw("not json").interpret(), None);
    assert_eq!(raw("{\"type\":\"m.room.message\"}").interpret(), None);
}

#[test]
fn text_message_without_display_name() {
    let events = vec![message("m.text", "hi", "@user:example.org", 0)];
    assert_eq!(
        messages_to_txt(&events, &DisplayNameCache::new()),
        "[1970-01-01T00:00:00.000Z] @user:example.org: hi\n"
    );
}

#[test]
fn text_message_with_display_name() {
    let mut cache = DisplayNameCache::new();
    cache.insert(String::from("@user:example.org"), Some(String::from("User")));
    let events = vec![message("m.text", "hi", "@user:example.org", 947638923004)];
    assert_eq!(
        messages_to_txt(&events, &cache),
        "[2000-01-12T01:02:03.004Z] User (@user:example.org): hi\n"
    );
}

#[test]
fn a_sender_known_to_have_no_name_is_written_bare() {
    let mut cache = DisplayNameCache::new();
    cache.insert(String::from("@user:example.org"), None);
    let events = vec![message("m.text", "hi", "@user:example.org", 1)];
    assert_eq!(
        messages_to_txt(&events, &cache),
        "[1970-01-01T00:00:00.001Z] @user:example.org: hi\n"
    );
}

#[test]
fn lines_by_kind_of_event() {
    let name = Some(String::from("N"));
    assert_eq!(
        render_line(&item(EventContent::Text(String::from("b"))), "T", &name),
        "[T] N (@user:example.org): b\n"
    );
    assert_eq!(
        render_line(&item(EventContent::Emote(String::from("b"))), "T", &name),
        "[T] N (@user:example.org): *b*\n"
    );
    assert_eq!(
        render_line(&item(EventContent::Notice(String::from("b"))), "T", &None),
        "[T] @user:example.org: [b]\n"
    );
    assert_eq!(render_line(&item(EventContent::OtherMessage), "T", &name), "[Placeholder message]\n");
    assert_eq!(
        render_line(&item(EventContent::RedactedMessage), "T", &name),
        "[Placeholder redacted message]\n"
    );
    assert_eq!(
        render_line(&item(EventContent::OtherMessageLike), "T", &name),
        "[Placeholder message-like]\n"
    );
    assert_eq!(render_line(&item(EventContent::State), "T", &name), "[Placeholder state-like]\n");
}

#[test]
fn an_event_that_is_not_interpreted_is_marked_as_skipped() {
    assert_eq!(
        render_item(&None, &DisplayNameCache::new()),
        "[Message skipped due to deserialization failure]\n"
    );
}

#[test]
fn an_event_whose_timestamp_is_no_date_is_marked_as_skipped() {
    let mut late = item(EventContent::Text(String::from("b")));
    late.origin_millis = i64::MAX;
    assert_eq!(
        render_item(&Some(late), &DisplayNameCache::new()),
        "[Message skipped due to deserialization failure]\n"
    );
}

#[test]
fn the_document_holds_the_lines_in_order() {
    let events = vec![
        message("m.text", "one", "@a:x.org", 1000),
        raw("{\"broken\":true}"),
        message("m.emote", "two", "@b:x.org", 2000),
    ];
    let mut cache = DisplayNameCache::new();
    cache.insert(String::from("@b:x.org"), Some(String::from("Bee")));
    assert_eq!(
        messages_to_txt(&events, &cache),
        "[1970-01-01T00:00:01.000Z] @a:x.org: one\n[Message skipped due to deserialization failure]\n[1970-01-01T00:00:02.000Z] Bee (@b:x.org): *two*\n"
    );
}

#[test]
fn the_document_of_an_empty_batch_is_empty() {
    assert_eq!(messages_to_txt(&Vec::new(), &DisplayNameCache::new()), "");
    assert_eq!(render_items(&Vec::new(), &DisplayNameCache::new()), "");
}

#[test]
fn unknown_senders_are_found_in_order() {
    let events = vec![
        raw("nothing"),
        message("m.text", "one", "@a:x.org", 1),
        message("m.text", "two", "@b:x.org", 2),
        message("m.text", "three", "@a:x.org", 3),
    ];
    let items = interpret_batch(&events);
    assert_eq!(items.len(), 4);
    assert_eq!(items[0], None);
    let mut cache = DisplayNameCache::new();
    assert_eq!(next_unknown_sender(&items, &cache, 0), Some(1));
    cache.insert(String::from("@a:x.org"), None);
    assert_eq!(next_unknown_sender(&items, &cache, 1), Some(2));
    cache.insert(String::from("@b:x.org"), Some(String::from("Bee")));
    assert_eq!(next_unknown_sender(&items, &cache, 2), None);
    assert_eq!(next_unknown_sender(&items, &cache, 4), None);
}

#[test]
fn the_first_name_of_a_sender_stands() {
    let mut cache = DisplayNameCache::new();
    assert_eq!(cache.get("@a:x.org"), None);
    cache.insert(String::from("@a:x.org"), Some(String::from("First")));
    cache.insert(String::from("@a:x.org"), Some(String::from("Second")));
    cache.insert(String::from("@b:x.org"), None);
    assert_eq!(cache.get("@a:x.org"), Some(&Some(String::from("First"))));
    assert_eq!(cache.get("@b:x.org"), Some(&None));
    assert_eq!(cache.get("@c:x.org"), None);
    assert_eq!(cache.len(), 2);
}
