//! The readable export: one line of text per event, in arrival order.

use vstd::prelude::*;
use vstd::string::*;

use crate::events::{
    interpreted, EventContent, EventContentView, TimelineEvent, TimelineItem, TimelineItemView,
};
use crate::names::DisplayNameCache;
use crate::timestamp::{format_utc_millis, utc_timestamp_text};

verus! {

/// How a sender is written: with the display name in front where one is
/// known, else the bare identifier.
pub open spec fn sender_label(sender: Seq<char>, display_name: Option<Seq<char>>) -> Seq<char> {
    match display_name {
        Some(name) => name + " ("@ + sender + ")"@,
        None => sender,
    }
}

/// The line for an interpreted event, given its timestamp as text and what
/// is known of its sender's display name.
pub open spec fn readable_line(
    item: TimelineItemView,
    timestamp: Seq<char>,
    display_name: Option<Seq<char>>,
) -> Seq<char> {
    let label = sender_label(item.sender, display_name);
    match item.content {
        EventContentView::Text(body) => "["@ + timestamp + "] "@ + label + ": "@ + body + "\n"@,
        EventContentView::Emote(body) => "["@ + timestamp + "] "@ + label + ": *"@ + body + "*\n"@,
        EventContentView::Notice(body) => "["@ + timestamp + "] "@ + label + ": ["@ + body + "]\n"@,
        EventContentView::OtherMessage => "[Placeholder message]\n"@,
        EventContentView::RedactedMessage => "[Placeholder redacted message]\n"@,
        EventContentView::OtherMessageLike => "[Placeholder message-like]\n"@,
        EventContentView::State => "[Placeholder state-like]\n"@,
    }
}

/// The line that stands for an event that could not be rendered.
pub open spec fn skipped_line() -> Seq<char> {
    "[Message skipped due to deserialization failure]\n"@
}

/// The display name that `cache` holds for `sender`: `None` where the sender
/// has none or was never looked up.
pub open spec fn known_name(
    cache: Map<Seq<char>, Option<Seq<char>>>,
    sender: Seq<char>,
) -> Option<Seq<char>> {
    if cache.contains_key(sender) {
        cache[sender]
    } else {
        None
    }
}

/// Whether an event gets a line of its own making: it was interpreted, and
/// its timestamp can be written as a date.
pub open spec fn is_renderable(item: Option<TimelineItemView>) -> bool {
    item is Some && utc_timestamp_text(item->0.origin_millis) is Some
}

/// The line for one event of the batch, interpreted or not.
pub open spec fn rendered_item(
    item: Option<TimelineItemView>,
    cache: Map<Seq<char>, Option<Seq<char>>>,
) -> Seq<char> {
    if is_renderable(item) {
        readable_line(
            item->0,
            utc_timestamp_text(item->0.origin_millis)->0,
            known_name(cache, item->0.sender),
        )
    } else {
        skipped_line()
    }
}

/// The readable document of a batch: the lines of its events, in order.
pub open spec fn readable_document(
    items: Seq<Option<TimelineItemView>>,
    cache: Map<Seq<char>, Option<Seq<char>>>,
) -> Seq<char>
    decreases items.len(),
{
    if items.len() == 0 {
        Seq::empty()
    } else {
        readable_document(items.drop_last(), cache) + rendered_item(items.last(), cache)
    }
}

/// Whether rendering an event needs a display name that `cache` does not
/// hold yet.
pub open spec fn wants_lookup(
    item: Option<TimelineItemView>,
    cache: Map<Seq<char>, Option<Seq<char>>>,
) -> bool {
    is_renderable(item) && !cache.contains_key(item->0.sender)
}

/// Whether `i` is the first event at or after `from` whose line needs a
/// display name that `cache` does not hold.
pub open spec fn is_next_lookup(
    items: Seq<Option<TimelineItemView>>,
    cache: Map<Seq<char>, Option<Seq<char>>>,
    from: int,
    i: int,
) -> bool {
    &&& from <= i < items.len()
    &&& wants_lookup(items[i], cache)
    &&& forall|j: int| from <= j < i ==> !wants_lookup(#[trigger] items[j], cache)
}

/// The first event at or after `from` whose line needs a display name that
/// `cache` does not hold, if there is one.
pub open spec fn next_lookup(
    items: Seq<Option<TimelineItemView>>,
    cache: Map<Seq<char>, Option<Seq<char>>>,
    from: int,
) -> Option<int> {
    if exists|i: int| is_next_lookup(items, cache, from, i) {
        Some(choose|i: int| is_next_lookup(items, cache, from, i))
    } else {
        None
    }
}

/// The mathematical values of a batch of interpreted events.
pub open spec fn item_views(items: Seq<Option<TimelineItem>>) -> Seq<Option<TimelineItemView>> {
    Seq::new(items.len(), |i: int| items[i].deep_view())
}

/// What the protocol library reads in each event of a batch.
pub open spec fn interpreted_batch(events: Seq<TimelineEvent>) -> Seq<Option<TimelineItemView>> {
    Seq::new(events.len(), |i: int| interpreted(events[i].json@))
}

fn label_of(sender: &str, display_name: &Option<String>) -> (r: String)
    ensures
        r@ == sender_label(sender@, display_name.deep_view()),
{
    match display_name {
        Some(name) => {
            let mut label = name.clone();
            label.append(" (");
            label.append(sender);
            label.append(")");
            label
        },
        None => sender.to_owned(),
    }
}

fn message_line(timestamp: &str, label: &str, opening: &str, body: &str, closing: &str) -> (r:
    String)
    ensures
        r@ == "["@ + timestamp@ + "] "@ + label@ + opening@ + body@ + closing@,
{
    let mut line = "[".to_owned();
    line.append(timestamp);
    line.append("] ");
    line.append(label);
    line.append(opening);
    line.append(body);
    line.append(closing);
    line
}

/// Writes the line for an interpreted event.
pub fn render_line(item: &TimelineItem, timestamp: &str, display_name: &Option<String>) -> (r:
    String)
    ensures
        r@ == readable_line(item@, timestamp@, display_name.deep_view()),
{
    match &item.content {
        EventContent::Text(body) => {
            let label = label_of(item.sender.as_str(), display_name);
            message_line(timestamp, label.as_str(), ": ", body.as_str(), "\n")
        },
        EventContent::Emote(body) => {
            let label = label_of(item.sender.as_str(), display_name);
            message_line(timestamp, label.as_str(), ": *", body.as_str(), "*\n")
        },
        EventContent::Notice(body) => {
            let label = label_of(item.sender.as_str(), display_name);
            message_line(timestamp, label.as_str(), ": [", body.as_str(), "]\n")
        },
        EventContent::OtherMessage => "[Placeholder message]\n".to_owned(),
        EventContent::RedactedMessage => "[Placeholder redacted message]\n".to_owned(),
        EventContent::OtherMessageLike => "[Placeholder message-like]\n".to_owned(),
        EventContent::State => "[Placeholder state-like]\n".to_owned(),
    }
}

/// Writes the line for one event of a batch. An event that was not
/// interpreted, or whose timestamp is no date, gets the line that marks it
/// as skipped. A sender that `cache` does not hold is written bare.
pub fn render_item(item: &Option<TimelineItem>, cache: &DisplayNameCache) -> (r: String)
    ensures
        r@ == rendered_item(item.deep_view(), cache@),
{
    match item {
        Some(item) => match format_utc_millis(item.origin_millis) {
            Some(timestamp) => match cache.get(item.sender.as_str()) {
                Some(display_name) => render_line(item, timestamp.as_str(), display_name),
                None => render_line(item, timestamp.as_str(), &None),
            },
            None => "[Message skipped due to deserialization failure]\n".to_owned(),
        },
        None => "[Message skipped due to deserialization failure]\n".to_owned(),
    }
}

/// Writes the readable document of a batch of interpreted events.
pub fn render_items(items: &Vec<Option<TimelineItem>>, cache: &DisplayNameCache) -> (r: String)
    ensures
        r@ == readable_document(item_views(items@), cache@),
{
    let mut document = String::new();
    let mut i: usize = 0;
    while i < items.len()
        invariant
            i <= items.len(),
            document@ == readable_document(item_views(items@).take(i as int), cache@),
        decreases items.len() - i,
    {
        let line = render_item(&items[i], cache);
        document.append(line.as_str());
        proof {
            let views = item_views(items@);
            assert(views.take(i + 1).drop_last() == views.take(i as int));
            assert(views.take(i + 1).last() == items@[i as int].deep_view());
        }
        i += 1;
    }
    assert(item_views(items@).take(i as int) == item_views(items@));
    document
}

/// Interprets every event of a batch, in order.
pub fn interpret_batch(events: &Vec<TimelineEvent>) -> (r: Vec<Option<TimelineItem>>)
    ensures
        item_views(r@) == interpreted_batch(events@),
{
    let mut items: Vec<Option<TimelineItem>> = Vec::new();
    let mut i: usize = 0;
    while i < events.len()
        invariant
            i <= events.len(),
            items@.len() == i,
            forall|j: int| 0 <= j < i ==> items@[j].deep_view() == interpreted(events@[j].json@),
        decreases events.len() - i,
    {
        items.push(events[i].interpret());
        i += 1;
    }
    assert(item_views(items@) =~= interpreted_batch(events@));
    items
}

/// The first event at or after `from` whose line needs a display name that
/// `cache` does not hold yet.
pub fn next_unknown_sender(
    items: &Vec<Option<TimelineItem>>,
    cache: &DisplayNameCache,
    from: usize,
) -> (r: Option<usize>)
    ensures
        r matches Some(i) ==> is_next_lookup(item_views(items@), cache@, from as int, i as int),
        match r {
            Some(i) => Some(i as int),
            None => None,
        } == next_lookup(item_views(items@), cache@, from as int),
{
    let ghost views = item_views(items@);
    let mut i: usize = from;
    while i < items.len()
        invariant
            from <= i,
            views == item_views(items@),
            forall|j: int| from <= j < i ==> !wants_lookup(#[trigger] views[j], cache@),
        decreases items.len() - i,
    {
        match &items[i] {
            Some(item) => {
                if format_utc_millis(item.origin_millis).is_some() && cache.get(
                    item.sender.as_str(),
                ).is_none() {
                    assert(is_next_lookup(views, cache@, from as int, i as int));
                    return Some(i);
                }
            },
            None => {},
        }
        assert(!wants_lookup(views[i as int], cache@));
        i += 1;
    }
    None
}

/// Writes the readable document of a batch of raw events: each is
/// interpreted, then rendered with the display names that `cache` holds.
pub fn messages_to_txt(events: &Vec<TimelineEvent>, cache: &DisplayNameCache) -> (r: String)
    ensures
        r@ == readable_document(interpreted_batch(events@), cache@),
{
    let items = interpret_batch(events);
    render_items(&items, cache)
}

} // verus!
