//! Timeline events: the raw payload that a history request delivers, and what
//! the protocol library reads in it.

use matrix_sdk::ruma::events::room::message::MessageType;
use matrix_sdk::ruma::events::{AnyMessageLikeEvent, AnyTimelineEvent};
use vstd::prelude::*;

verus! {

/// One retrieved history item: the raw, not yet interpreted payload as JSON
/// text.
#[derive(Clone, Debug, PartialEq, Eq)]
pub struct TimelineEvent {
    pub json: String,
}

/// What an interpreted event is, as far as the readable export tells events
/// apart.
#[derive(Clone, Debug, PartialEq, Eq)]
pub enum EventContent {
    /// An unredacted room message of subtype text, with its body.
    Text(String),
    /// An unredacted room message of subtype emote, with its body.
    Emote(String),
    /// An unredacted room message of subtype notice, with its body.
    Notice(String),
    /// An unredacted room message of any other subtype.
    OtherMessage,
    /// A room message whose content was removed.
    RedactedMessage,
    /// Any other message-like event.
    OtherMessageLike,
    /// Any state event.
    State,
}

/// The mathematical value of an [`EventContent`].
pub enum EventContentView {
    Text(Seq<char>),
    Emote(Seq<char>),
    Notice(Seq<char>),
    OtherMessage,
    RedactedMessage,
    OtherMessageLike,
    State,
}

impl DeepView for EventContent {
    type V = EventContentView;

    open spec fn deep_view(&self) -> EventContentView {
        self@
    }
}

impl View for EventContent {
    type V = EventContentView;

    open spec fn view(&self) -> EventContentView {
        match self {
            EventContent::Text(body) => EventContentView::Text(body@),
            EventContent::Emote(body) => EventContentView::Emote(body@),
            EventContent::Notice(body) => EventContentView::Notice(body@),
            EventContent::OtherMessage => EventContentView::OtherMessage,
            EventContent::RedactedMessage => EventContentView::RedactedMessage,
            EventContent::OtherMessageLike => EventContentView::OtherMessageLike,
            EventContent::State => EventContentView::State,
        }
    }
}

/// An interpreted event: when the origin server stamped it, who sent it, and
/// what it is.
#[derive(Clone, Debug, PartialEq, Eq)]
pub struct TimelineItem {
    pub origin_millis: i64,
    pub sender: String,
    pub content: EventContent,
}

/// The mathematical value of a [`TimelineItem`].
pub struct TimelineItemView {
    pub origin_millis: int,
    pub sender: Seq<char>,
    pub content: EventContentView,
}

impl DeepView for TimelineItem {
    type V = TimelineItemView;

    open spec fn deep_view(&self) -> TimelineItemView {
        self@
    }
}

impl View for TimelineItem {
    type V = TimelineItemView;

    open spec fn view(&self) -> TimelineItemView {
        TimelineItemView {
            origin_millis: self.origin_millis as int,
            sender: self.sender@,
            content: self.content@,
        }
    }
}

/// The protocol library's typed timeline event. Nothing inside it is visible
/// here; it is only handed from one call into the library to the next.
#[verifier::external_type_specification]
#[verifier::external_body]
pub struct ExAnyTimelineEvent(AnyTimelineEvent);

/// The typed event that the protocol library reads in a JSON text, if it
/// reads one.
pub uninterp spec fn decoded_event(json: Seq<char>) -> Option<AnyTimelineEvent>;

/// The origin server's timestamp of a typed event, in milliseconds since the
/// epoch.
pub uninterp spec fn origin_millis_of(event: AnyTimelineEvent) -> int;

/// The sender identifier of a typed event, as text.
pub uninterp spec fn sender_of(event: AnyTimelineEvent) -> Seq<char>;

/// The content of a typed event, by the distinctions of [`EventContent`].
pub uninterp spec fn content_of(event: AnyTimelineEvent) -> EventContentView;

/// `serde_json::from_str` at the type `AnyTimelineEvent`, which is what the
/// protocol library's `Raw::deserialize` runs on the raw text. Claimed: the
/// outcome depends on the text alone; a text that is not read gives `None`.
#[verifier::external_body]
fn decode_event(json: &str) -> (r: Option<AnyTimelineEvent>)
    ensures
        r == decoded_event(json@),
{
    serde_json::from_str::<AnyTimelineEvent>(json).ok()
}

/// `AnyTimelineEvent::origin_server_ts`, whose unsigned 53-bit value is
/// widened to `i64`. Claimed: it depends on the event alone.
#[verifier::external_body]
fn event_origin_millis(event: &AnyTimelineEvent) -> (r: i64)
    ensures
        r == origin_millis_of(*event),
{
    event.origin_server_ts().0.into()
}

/// `AnyTimelineEvent::sender`, written out with the identifier's `Display`.
/// Claimed: it depends on the event alone.
#[verifier::external_body]
fn event_sender(event: &AnyTimelineEvent) -> (r: String)
    ensures
        r@ == sender_of(*event),
{
    event.sender().to_string()
}

/// Tells the variants of `AnyTimelineEvent`, `AnyMessageLikeEvent` and
/// `MessageType` apart, and `MessageLikeEvent::as_original` for redaction.
/// The body moves over unchanged. Claimed: it depends on the event alone.
#[verifier::external_body]
fn event_content(event: &AnyTimelineEvent) -> (r: EventContent)
    ensures
        r@ == content_of(*event),
{
    match event {
        AnyTimelineEvent::State(_) => EventContent::State,
        AnyTimelineEvent::MessageLike(AnyMessageLikeEvent::RoomMessage(message)) => {
            match message.as_original().map(|original| &original.content.msgtype) {
                None => EventContent::RedactedMessage,
                Some(MessageType::Text(text)) => EventContent::Text(text.body.clone()),
                Some(MessageType::Emote(emote)) => EventContent::Emote(emote.body.clone()),
                Some(MessageType::Notice(notice)) => EventContent::Notice(notice.body.clone()),
                Some(_) => EventContent::OtherMessage,
            }
        },
        AnyTimelineEvent::MessageLike(_) => EventContent::OtherMessageLike,
    }
}

/// What the protocol library reads in a raw event text: `None` where it does
/// not read a timeline event in it.
pub open spec fn interpreted(json: Seq<char>) -> Option<TimelineItemView> {
    match decoded_event(json) {
        Some(event) => Some(
            TimelineItemView {
                origin_millis: origin_millis_of(event),
                sender: sender_of(event),
                content: content_of(event),
            },
        ),
        None => None,
    }
}

impl TimelineEvent {
    /// Interprets the raw payload as a known timeline-event shape.
    pub fn interpret(&self) -> (r: Option<TimelineItem>)
        ensures
            r.deep_view() == interpreted(self.json@),
    {
        match decode_event(self.json.as_str()) {
            Some(event) => Some(
                TimelineItem {
                    origin_millis: event_origin_millis(&event),
                    sender: event_sender(&event),
                    content: event_content(&event),
                },
            ),
            None => None,
        }
    }
}

} // verus!
