//! The structured export: every event's payload, uninterpreted, as one
//! pretty-printed JSON array in batch order.

use serde_json::Value;
use vstd::prelude::*;

use crate::events::TimelineEvent;

verus! {

/// A generic JSON document of the JSON library. Nothing inside it is visible
/// here; it is only handed from the parser to the printer.
#[verifier::external_type_specification]
#[verifier::external_body]
pub struct ExJsonValue(Value);

/// The generic document that the JSON library reads in a text, if the text
/// is JSON.
pub uninterp spec fn json_value(text: Seq<char>) -> Option<Value>;

/// The text that the JSON library's pretty printer writes for an array of
/// these documents, if it writes one.
pub uninterp spec fn pretty_json_array(values: Seq<Value>) -> Option<Seq<char>>;

/// `serde_json::from_str` at the type `Value`. Claimed: the outcome depends
/// on the text alone; a text that is not JSON gives `None`.
#[verifier::external_body]
fn parse_json(text: &str) -> (r: Option<Value>)
    ensures
        r == json_value(text@),
{
    serde_json::from_str::<Value>(text).ok()
}

/// `serde_json::to_string_pretty` on a vector of `Value`. Claimed: the
/// outcome depends on the documents alone; an error of the serializer gives
/// `None`.
#[verifier::external_body]
fn print_json_array(values: &Vec<Value>) -> (r: Option<String>)
    ensures
        r.deep_view() == pretty_json_array(values@),
{
    serde_json::to_string_pretty(values).ok()
}

/// Why a batch has no structured export.
#[derive(Clone, Copy, Debug, PartialEq, Eq, Structural)]
pub enum StructuredExportError {
    /// The payload of the event at `index` is not JSON; no earlier one fails.
    NotJson { index: usize },
    /// The printer gave no text for the batch.
    NotPrinted,
}

/// Whether `i` is the first event of the batch whose payload is not JSON.
pub open spec fn is_first_not_json(events: Seq<TimelineEvent>, i: int) -> bool {
    &&& 0 <= i < events.len()
    &&& json_value(events[i].json@) is None
    &&& forall|j: int| 0 <= j < i ==> json_value(events[j].json@) is Some
}

/// Whether every payload of the batch is JSON.
pub open spec fn all_json(events: Seq<TimelineEvent>) -> bool {
    forall|i: int| 0 <= i < events.len() ==> json_value(events[i].json@) is Some
}

/// The generic documents of a batch whose payloads are all JSON.
pub open spec fn json_values(events: Seq<TimelineEvent>) -> Seq<Value> {
    Seq::new(events.len(), |i: int| json_value(events[i].json@)->0)
}

/// The first event of the batch whose payload is not JSON; meant for a batch
/// that has one.
pub open spec fn first_not_json(events: Seq<TimelineEvent>) -> int {
    choose|i: int| is_first_not_json(events, i)
}

/// The structured export of a batch: the text that the printer gives for
/// the payloads, or why there is none.
pub open spec fn structured_export(events: Seq<TimelineEvent>) -> Result<
    Seq<char>,
    StructuredExportError,
> {
    if !all_json(events) {
        Err(StructuredExportError::NotJson { index: first_not_json(events) as usize })
    } else {
        match pretty_json_array(json_values(events)) {
            Some(text) => Ok(text),
            None => Err(StructuredExportError::NotPrinted),
        }
    }
}

/// The mathematical value of a result of [`messages_to_json`].
pub open spec fn export_view(r: Result<String, StructuredExportError>) -> Result<
    Seq<char>,
    StructuredExportError,
> {
    match r {
        Ok(text) => Ok(text@),
        Err(e) => Err(e),
    }
}

/// Writes the structured export of a batch: the payloads as generic JSON
/// documents, in batch order, pretty-printed as one array. No payload is
/// interpreted, so an event of unknown shape is exported like any other.
pub fn messages_to_json(events: &Vec<TimelineEvent>) -> (r: Result<String, StructuredExportError>)
    ensures
        export_view(r) == structured_export(events@),
{
    let mut values: Vec<Value> = Vec::new();
    let mut i: usize = 0;
    while i < events.len()
        invariant
            i <= events.len(),
            values@.len() == i,
            forall|j: int|
                0 <= j < i ==> #[trigger] json_value(events@[j].json@) == Some(values@[j]),
        decreases events.len() - i,
    {
        match parse_json(events[i].json.as_str()) {
            Some(value) => values.push(value),
            None => {
                assert(is_first_not_json(events@, i as int));
                return Err(StructuredExportError::NotJson { index: i });
            },
        }
        i += 1;
    }
    assert(values@ =~= json_values(events@));
    match print_json_array(&values) {
        Some(text) => Ok(text),
        None => Err(StructuredExportError::NotPrinted),
    }
}

} // verus!
