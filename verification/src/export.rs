//! The export run: which formats are written, and what is done for each
//! requested room.
//!
//! The run fetches, looks up and writes nothing itself. It names the next
//! thing to do; its owner does it and hands back what came of it.

use vstd::prelude::*;
use vstd::string::*;

use crate::events::{TimelineEvent, TimelineItem};
use crate::filename::{export_filename, format_export_filename, with_extension};
use crate::names::DisplayNameCache;
use crate::paginate::{
    after_page, initial, page_limit, PageRequest, PaginationStatus, Paginator, PaginatorView,
    PAGE_SIZE,
};
use crate::readable::{
    interpret_batch, interpreted_batch, is_next_lookup, item_views, next_lookup,
    next_unknown_sender, readable_document, render_items,
};
use crate::resolve::{
    get_room_index_by_identifier, resolve, ResolutionOutcome, RoomIndexRetrievalError,
};
use crate::rooms::RoomWithCachedInfo;
use crate::structured::{messages_to_json, structured_export, StructuredExportError};
use crate::text::same_text;

verus! {

/// A representation in which a room's history can be written.
#[derive(Clone, Copy, Debug, PartialEq, Eq, Structural, Hash)]
pub enum ExportOutputFormat {
    /// The lossless, machine-oriented export: every event's payload, as a
    /// JSON array.
    Json,
    /// The lossy, human-oriented export: one line of text per event.
    Txt,
}

/// The set of formats that a run writes.
#[derive(Clone, Copy, Debug, PartialEq, Eq, Structural)]
pub struct ExportFormats {
    pub json: bool,
    pub txt: bool,
}

impl ExportFormats {
    /// Whether `format` is among the formats.
    pub open spec fn holds(self, format: ExportOutputFormat) -> bool {
        match format {
            ExportOutputFormat::Json => self.json,
            ExportOutputFormat::Txt => self.txt,
        }
    }

    /// Whether `format` is among the formats.
    pub fn contains(&self, format: ExportOutputFormat) -> (r: bool)
        ensures
            r == self.holds(format),
    {
        match format {
            ExportOutputFormat::Json => self.json,
            ExportOutputFormat::Txt => self.txt,
        }
    }
}

/// The text that Rust's standard library gives for `s` in lower case.
pub uninterp spec fn lowercase(s: Seq<char>) -> Seq<char>;

/// `str::to_lowercase` of the standard library. Claimed: the outcome depends
/// on the text alone.
#[verifier::external_body]
fn to_lowercase(s: &str) -> (r: String)
    ensures
        r@ == lowercase(s@),
{
    s.to_lowercase()
}

/// The format that a specifier names once it is in lower case: `json` and
/// `txt`, each with or without a dot in front.
pub open spec fn format_named(lowered: Seq<char>) -> Option<ExportOutputFormat> {
    if lowered == "json"@ || lowered == ".json"@ {
        Some(ExportOutputFormat::Json)
    } else if lowered == "txt"@ || lowered == ".txt"@ {
        Some(ExportOutputFormat::Txt)
    } else {
        None
    }
}

/// Reads a format specifier that is in lower case already.
pub fn format_from_lowercase(lowered: &str) -> (r: Option<ExportOutputFormat>)
    ensures
        r == format_named(lowered@),
{
    if same_text(lowered, "json") || same_text(lowered, ".json") {
        Some(ExportOutputFormat::Json)
    } else if same_text(lowered, "txt") || same_text(lowered, ".txt") {
        Some(ExportOutputFormat::Txt)
    } else {
        None
    }
}

/// Reads a format specifier as a user typed it, in any mix of cases.
pub fn parse_export_format(specifier: &str) -> (r: Option<ExportOutputFormat>)
    ensures
        r == format_named(lowercase(specifier@)),
{
    let lowered = to_lowercase(specifier);
    format_from_lowercase(lowered.as_str())
}

/// A format specifier that names no format.
#[derive(Clone, Copy, Debug, PartialEq, Eq, Structural)]
pub struct InvalidFormatSpecifier {
    /// The position of the first such specifier.
    pub index: usize,
}

/// Whether the specifier at `i` is the first that names no format.
pub open spec fn is_first_invalid(specifiers: Seq<Seq<char>>, i: int) -> bool {
    &&& 0 <= i < specifiers.len()
    &&& format_named(lowercase(specifiers[i])) is None
    &&& forall|j: int| 0 <= j < i ==> format_named(lowercase(#[trigger] specifiers[j])) is Some
}

/// Whether some specifier names `format`.
pub open spec fn is_requested(specifiers: Seq<Seq<char>>, format: ExportOutputFormat) -> bool {
    exists|i: int|
        0 <= i < specifiers.len() && format_named(lowercase(#[trigger] specifiers[i])) == Some(
            format,
        )
}

/// What is said of a specifier that names no format.
pub open spec fn invalid_format_message(specifier: Seq<char>) -> Seq<char> {
    "Received invalid format specifier "@ + specifier
        + " on export command. Valid options are 'json' and 'txt'."@
}

/// Writes what is said of a specifier that names no format.
pub fn describe_invalid_format(specifier: &str) -> (r: String)
    ensures
        r@ == invalid_format_message(specifier@),
{
    let mut message = "Received invalid format specifier ".to_owned();
    message.append(specifier);
    message.append(" on export command. Valid options are 'json' and 'txt'.");
    message
}

/// The formats that a list of specifiers asks for. Without any specifier
/// the structured format alone is written. A specifier that names no format
/// fails the whole list.
pub fn select_formats(specifiers: &Vec<String>) -> (r: Result<ExportFormats, InvalidFormatSpecifier>)
    ensures
        match r {
            Ok(formats) => {
                &&& forall|j: int|
                    0 <= j < specifiers@.len() ==> format_named(
                        lowercase(#[trigger] specifiers.deep_view()[j]),
                    ) is Some
                &&& formats.json == (specifiers@.len() == 0 || is_requested(
                    specifiers.deep_view(),
                    ExportOutputFormat::Json,
                ))
                &&& formats.txt == is_requested(specifiers.deep_view(), ExportOutputFormat::Txt)
            },
            Err(invalid) => is_first_invalid(specifiers.deep_view(), invalid.index as int),
        },
{
    let ghost texts = specifiers.deep_view();
    let mut formats = ExportFormats { json: false, txt: false };
    let mut i: usize = 0;
    while i < specifiers.len()
        invariant
            i <= specifiers@.len(),
            texts == specifiers.deep_view(),
            forall|j: int| 0 <= j < i ==> format_named(lowercase(#[trigger] texts[j])) is Some,
            formats.json == is_requested(texts.take(i as int), ExportOutputFormat::Json),
            formats.txt == is_requested(texts.take(i as int), ExportOutputFormat::Txt),
        decreases specifiers.len() - i,
    {
        assert(texts[i as int] == specifiers@[i as int]@);
        let parsed = parse_export_format(specifiers[i].as_str());
        proof {
            let before = texts.take(i as int);
            let after = texts.take(i + 1);
            assert forall|format: ExportOutputFormat|
                is_requested(after, format) <==> (is_requested(before, format) || parsed == Some(
                    format,
                )) by {
                if is_requested(before, format) {
                    let j = choose|j: int|
                        0 <= j < before.len() && format_named(lowercase(#[trigger] before[j]))
                            == Some(format);
                    assert(after[j] == before[j]);
                }
                if parsed == Some(format) {
                    assert(after[i as int] == texts[i as int]);
                }
                if is_requested(after, format) {
                    let j = choose|j: int|
                        0 <= j < after.len() && format_named(lowercase(#[trigger] after[j]))
                            == Some(format);
                    if j < i {
                        assert(before[j] == after[j]);
                    }
                }
            }
        }
        match parsed {
            Some(ExportOutputFormat::Json) => {
                formats.json = true;
            },
            Some(ExportOutputFormat::Txt) => {
                formats.txt = true;
            },
            None => {
                return Err(InvalidFormatSpecifier { index: i });
            },
        }
        i += 1;
    }
    assert(texts.take(i as int) == texts);
    if specifiers.len() == 0 {
        formats.json = true;
    }
    Ok(formats)
}

/// Why a requested room is skipped.
#[derive(Clone, Debug, PartialEq, Eq)]
pub enum SkipReason {
    /// The identifier names no room.
    NotFound,
    /// The identifier is the display name of several rooms: their
    /// identifiers, in directory order.
    AmbiguousByName(Vec<String>),
    /// The room's identifier or canonical alias lacks the shape from which
    /// its file names are made.
    MalformedRoom,
    /// A page request failed. The events that came before are discarded.
    FetchFailed,
    /// The allowed number of pages came back full.
    Truncated,
    /// A membership lookup failed.
    LookupFailed,
    /// The batch has no structured export.
    NotStructured(StructuredExportError),
}

/// The mathematical value of a [`SkipReason`].
pub enum SkipReasonView {
    NotFound,
    AmbiguousByName(Seq<Seq<char>>),
    MalformedRoom,
    FetchFailed,
    Truncated,
    LookupFailed,
    NotStructured(StructuredExportError),
}

impl View for SkipReason {
    type V = SkipReasonView;

    open spec fn view(&self) -> SkipReasonView {
        match self {
            SkipReason::NotFound => SkipReasonView::NotFound,
            SkipReason::AmbiguousByName(ids) => SkipReasonView::AmbiguousByName(ids.deep_view()),
            SkipReason::MalformedRoom => SkipReasonView::MalformedRoom,
            SkipReason::FetchFailed => SkipReasonView::FetchFailed,
            SkipReason::Truncated => SkipReasonView::Truncated,
            SkipReason::LookupFailed => SkipReasonView::LookupFailed,
            SkipReason::NotStructured(e) => SkipReasonView::NotStructured(*e),
        }
    }
}

/// The identifiers of a list, each in double quotes, with a comma and a
/// space between two of them.
pub open spec fn quoted_items(ids: Seq<Seq<char>>) -> Seq<char>
    decreases ids.len(),
{
    if ids.len() == 0 {
        Seq::empty()
    } else if ids.len() == 1 {
        "\""@ + ids[0] + "\""@
    } else {
        quoted_items(ids.drop_last()) + ", \""@ + ids.last() + "\""@
    }
}

/// What the user is told of a room that is skipped: which account asked for
/// which identifier, and why nothing is written for it.
pub open spec fn skip_message(
    user_id: Seq<char>,
    identifier: Seq<char>,
    reason: SkipReasonView,
) -> Seq<char> {
    match reason {
        SkipReasonView::NotFound => "Couldn't find any rooms accessible to "@ + user_id
            + " with name "@ + identifier + "."@,
        SkipReasonView::AmbiguousByName(ids) => "Found more than one room accessible to "@ + user_id
            + " with name "@ + identifier + ". Room IDs: ["@ + quoted_items(ids) + "]"@,
        SkipReasonView::MalformedRoom => "Couldn't name the export files of room "@ + identifier
            + " for "@ + user_id + ": its identifier or alias lacks a server name."@,
        SkipReasonView::FetchFailed => "Couldn't fetch the history of room "@ + identifier + " for "@
            + user_id + ". Nothing was written for it."@,
        SkipReasonView::Truncated => "The history of room "@ + identifier + " for "@ + user_id
            + " exceeds the page limit. Nothing was written for it."@,
        SkipReasonView::LookupFailed => "Couldn't look up a member of room "@ + identifier + " for "@
            + user_id + ". Nothing was written for it."@,
        SkipReasonView::NotStructured(_) => "Couldn't write the events of room "@ + identifier
            + " for "@ + user_id + " as JSON. Nothing was written for it."@,
    }
}

fn quote_items(ids: &Vec<String>) -> (r: String)
    ensures
        r@ == quoted_items(ids.deep_view()),
{
    let ghost texts = ids.deep_view();
    let mut list = String::new();
    let mut i: usize = 0;
    while i < ids.len()
        invariant
            i <= ids@.len(),
            texts == ids.deep_view(),
            list@ == quoted_items(texts.take(i as int)),
        decreases ids.len() - i,
    {
        proof {
            assert(texts.take(i + 1).drop_last() == texts.take(i as int));
            assert(texts.take(i + 1).last() == ids@[i as int]@);
            assert(texts.take(i + 1)[0] == texts[0]);
        }
        if i == 0 {
            list.append("\"");
        } else {
            list.append(", \"");
        }
        list.append(ids[i].as_str());
        list.append("\"");
        i += 1;
    }
    assert(texts.take(i as int) == texts);
    list
}

fn phrase(opening: &str, first: &str, middle: &str, second: &str, closing: &str) -> (r: String)
    ensures
        r@ == opening@ + first@ + middle@ + second@ + closing@,
{
    let mut text = opening.to_owned();
    text.append(first);
    text.append(middle);
    text.append(second);
    text.append(closing);
    text
}

/// Writes what the user is told of a room that is skipped.
pub fn describe_skip(user_id: &str, identifier: &str, reason: &SkipReason) -> (r: String)
    ensures
        r@ == skip_message(user_id@, identifier@, reason@),
{
    match reason {
        SkipReason::NotFound => phrase(
            "Couldn't find any rooms accessible to ",
            user_id,
            " with name ",
            identifier,
            ".",
        ),
        SkipReason::AmbiguousByName(ids) => {
            let mut text = phrase(
                "Found more than one room accessible to ",
                user_id,
                " with name ",
                identifier,
                ". Room IDs: [",
            );
            let list = quote_items(ids);
            text.append(list.as_str());
            text.append("]");
            text
        },
        SkipReason::MalformedRoom => phrase(
            "Couldn't name the export files of room ",
            identifier,
            " for ",
            user_id,
            ": its identifier or alias lacks a server name.",
        ),
        SkipReason::FetchFailed => phrase(
            "Couldn't fetch the history of room ",
            identifier,
            " for ",
            user_id,
            ". Nothing was written for it.",
        ),
        SkipReason::Truncated => phrase(
            "The history of room ",
            identifier,
            " for ",
            user_id,
            " exceeds the page limit. Nothing was written for it.",
        ),
        SkipReason::LookupFailed => phrase(
            "Couldn't look up a member of room ",
            identifier,
            " for ",
            user_id,
            ". Nothing was written for it.",
        ),
        SkipReason::NotStructured(_) => phrase(
            "Couldn't write the events of room ",
            identifier,
            " for ",
            user_id,
            " as JSON. Nothing was written for it.",
        ),
    }
}

/// One file of an export.
#[derive(Clone, Debug, PartialEq, Eq)]
pub struct ExportFile {
    pub name: String,
    pub contents: String,
}

/// The mathematical value of an [`ExportFile`].
pub struct ExportFileView {
    pub name: Seq<char>,
    pub contents: Seq<char>,
}

impl View for ExportFile {
    type V = ExportFileView;

    open spec fn view(&self) -> ExportFileView {
        ExportFileView { name: self.name@, contents: self.contents@ }
    }
}

impl DeepView for ExportFile {
    type V = ExportFileView;

    open spec fn deep_view(&self) -> ExportFileView {
        self@
    }
}

/// What the owner of a run is to do next.
#[derive(Clone, Debug, PartialEq, Eq)]
pub enum ExportAction {
    /// Tell the user that the room asked for as `identifier` is skipped, and
    /// why.
    Report { identifier: String, reason: SkipReason },
    /// Request a page of the history of the room at `room` in the directory.
    FetchPage { room: usize, request: PageRequest },
    /// Look up the display name of `user_id` among the members of the room
    /// at `room` in the directory.
    LookUpMember { room: usize, user_id: String },
    /// Write the files of the room at `room` in the directory.
    WriteFiles { room: usize, files: Vec<ExportFile> },
    /// Nothing: every requested room was dealt with.
    Finished,
    /// Nothing: what was handed back answers no request of the run, which
    /// is where it was.
    Unexpected,
}

/// The mathematical value of an [`ExportAction`].
pub enum ExportActionView {
    Report { identifier: Seq<char>, reason: SkipReasonView },
    FetchPage { room: int, from: Option<Seq<char>>, limit: u16 },
    LookUpMember { room: int, user_id: Seq<char> },
    WriteFiles { room: int, files: Seq<ExportFileView> },
    Finished,
    Unexpected,
}

impl View for ExportAction {
    type V = ExportActionView;

    open spec fn view(&self) -> ExportActionView {
        match self {
            ExportAction::Report { identifier, reason } => ExportActionView::Report {
                identifier: identifier@,
                reason: reason@,
            },
            ExportAction::FetchPage { room, request } => ExportActionView::FetchPage {
                room: *room as int,
                from: request.from.deep_view(),
                limit: request.limit,
            },
            ExportAction::LookUpMember { room, user_id } => ExportActionView::LookUpMember {
                room: *room as int,
                user_id: user_id@,
            },
            ExportAction::WriteFiles { room, files } => ExportActionView::WriteFiles {
                room: *room as int,
                files: files.deep_view(),
            },
            ExportAction::Finished => ExportActionView::Finished,
            ExportAction::Unexpected => ExportActionView::Unexpected,
        }
    }
}

/// What the owner of a run hands back.
#[derive(Clone, Debug, PartialEq, Eq)]
pub enum ExportEvent {
    /// The report was made, or the files were written.
    Acknowledged,
    /// The page that was requested: its events and its continuation cursor.
    Page { chunk: Vec<TimelineEvent>, end: Option<String> },
    /// What the membership lookup found: the member's display name, or
    /// `None` where there is no such member or the member has no name.
    Member(Option<String>),
    /// The page request or the membership lookup failed.
    Failed,
}

/// The mathematical value of an [`ExportEvent`].
pub enum ExportEventView {
    Acknowledged,
    Page { chunk: Seq<TimelineEvent>, end: Option<Seq<char>> },
    Member(Option<Seq<char>>),
    Failed,
}

impl View for ExportEvent {
    type V = ExportEventView;

    open spec fn view(&self) -> ExportEventView {
        match self {
            ExportEvent::Acknowledged => ExportEventView::Acknowledged,
            ExportEvent::Page { chunk, end } => ExportEventView::Page {
                chunk: chunk@,
                end: end.deep_view(),
            },
            ExportEvent::Member(name) => ExportEventView::Member(name.deep_view()),
            ExportEvent::Failed => ExportEventView::Failed,
        }
    }
}

/// What a run was asked to do.
pub struct ExportPlan {
    /// The directory against which the identifiers are resolved.
    pub rooms: Seq<RoomWithCachedInfo>,
    /// The identifiers of the rooms to export, in the order given.
    pub identifiers: Seq<Seq<char>>,
    /// The formats to write.
    pub formats: ExportFormats,
    /// The number of full pages after which a room's history is cut off,
    /// where there is such a limit.
    pub max_pages: Option<nat>,
}

/// What a run is waiting for.
pub enum StageView {
    /// For the report or the writing of the files to be acknowledged.
    AwaitingAck,
    /// For a page of the room at `room`.
    Fetching { room: int, paginator: PaginatorView },
    /// For the display name of the sender of the event at `at`, the batch
    /// being complete.
    Naming {
        room: int,
        events: Seq<TimelineEvent>,
        cache: Map<Seq<char>, Option<Seq<char>>>,
        at: int,
    },
    /// For nothing: the run is over.
    Finished,
}

/// The mathematical value of an [`ExportRun`].
pub struct ExportRunView {
    pub plan: ExportPlan,
    /// The position of the identifier in work.
    pub next: int,
    pub stage: StageView,
}

/// The files of a room whose batch is complete: the structured export, then
/// the readable one, each where its format was asked for.
pub open spec fn files_of(
    plan: ExportPlan,
    room: int,
    events: Seq<TimelineEvent>,
    cache: Map<Seq<char>, Option<Seq<char>>>,
) -> Result<Seq<ExportFileView>, StructuredExportError> {
    let readable = if plan.formats.txt {
        seq![
            ExportFileView {
                name: export_filename(plan.rooms[room]@, ExportOutputFormat::Txt),
                contents: readable_document(interpreted_batch(events), cache),
            },
        ]
    } else {
        Seq::empty()
    };
    if plan.formats.json {
        match structured_export(events) {
            Ok(text) => Ok(
                seq![
                    ExportFileView {
                        name: export_filename(plan.rooms[room]@, ExportOutputFormat::Json),
                        contents: text,
                    },
                ] + readable,
            ),
            Err(e) => Err(e),
        }
    } else {
        Ok(readable)
    }
}

/// The step once every display name is at hand: the room's files are to be
/// written, all of them or none.
pub open spec fn written(
    plan: ExportPlan,
    next: int,
    room: int,
    events: Seq<TimelineEvent>,
    cache: Map<Seq<char>, Option<Seq<char>>>,
) -> (StageView, ExportActionView) {
    match files_of(plan, room, events, cache) {
        Ok(files) => (StageView::AwaitingAck, ExportActionView::WriteFiles { room, files }),
        Err(e) => (
            StageView::AwaitingAck,
            ExportActionView::Report {
                identifier: plan.identifiers[next],
                reason: SkipReasonView::NotStructured(e),
            },
        ),
    }
}

/// The step once the batch is complete and the senders of the events before
/// `from` are known: the next unknown sender is to be looked up, or the files
/// are to be written.
pub open spec fn named(
    plan: ExportPlan,
    next: int,
    room: int,
    events: Seq<TimelineEvent>,
    cache: Map<Seq<char>, Option<Seq<char>>>,
    from: int,
) -> (StageView, ExportActionView) {
    match next_lookup(interpreted_batch(events), cache, from) {
        Some(at) => (
            StageView::Naming { room, events, cache, at },
            ExportActionView::LookUpMember {
                room,
                user_id: interpreted_batch(events)[at]->0.sender,
            },
        ),
        None => written(plan, next, room, events, cache),
    }
}

/// The step after a page was taken: another page is to be requested, or the
/// history was cut off, or it is complete and rendering begins.
pub open spec fn fetched(plan: ExportPlan, next: int, room: int, paginator: PaginatorView) -> (
    StageView,
    ExportActionView,
) {
    match paginator.status {
        PaginationStatus::Fetching => (
            StageView::Fetching { room, paginator },
            ExportActionView::FetchPage { room, from: paginator.cursor, limit: PAGE_SIZE },
        ),
        PaginationStatus::Truncated => (
            StageView::AwaitingAck,
            ExportActionView::Report {
                identifier: plan.identifiers[next],
                reason: SkipReasonView::Truncated,
            },
        ),
        PaginationStatus::Complete => if plan.formats.txt {
            named(plan, next, room, paginator.events, Map::empty(), 0)
        } else {
            written(plan, next, room, paginator.events, Map::empty())
        },
    }
}

/// The step that takes up the identifier at `next`: it is resolved, and the
/// first page of its room is to be requested, or it is reported as skipped.
/// Behind the last identifier the run is over.
pub open spec fn begun(plan: ExportPlan, next: int) -> (StageView, ExportActionView) {
    if next >= plan.identifiers.len() {
        (StageView::Finished, ExportActionView::Finished)
    } else {
        match resolve(plan.rooms, plan.identifiers[next]) {
            ResolutionOutcome::NotFound => (
                StageView::AwaitingAck,
                ExportActionView::Report {
                    identifier: plan.identifiers[next],
                    reason: SkipReasonView::NotFound,
                },
            ),
            ResolutionOutcome::AmbiguousByName(ids) => (
                StageView::AwaitingAck,
                ExportActionView::Report {
                    identifier: plan.identifiers[next],
                    reason: SkipReasonView::AmbiguousByName(ids),
                },
            ),
            ResolutionOutcome::Resolved(room) => if plan.rooms[room].well_formed() {
                fetched(plan, next, room, initial(plan.max_pages))
            } else {
                (
                    StageView::AwaitingAck,
                    ExportActionView::Report {
                        identifier: plan.identifiers[next],
                        reason: SkipReasonView::MalformedRoom,
                    },
                )
            },
        }
    }
}

/// The run with the same plan at another place.
pub open spec fn at_stage(run: ExportRunView, next: int, step: (StageView, ExportActionView)) -> (
    ExportRunView,
    ExportActionView,
) {
    (ExportRunView { plan: run.plan, next, stage: step.0 }, step.1)
}

/// The run as it starts, with what is to be done first.
pub open spec fn started(plan: ExportPlan) -> (ExportRunView, ExportActionView) {
    (ExportRunView { plan, next: 0, stage: begun(plan, 0).0 }, begun(plan, 0).1)
}

/// The run after its owner handed back `event`, with what is to be done
/// next.
///
/// An acknowledgement moves on to the next identifier. A page goes to the
/// paginator. A display name goes into the cache, for the sender that was
/// asked about. A failure while fetching or looking up skips the room: it is
/// reported, and nothing of it is written. Anything else leaves the run where
/// it was.
pub open spec fn stepped(run: ExportRunView, event: ExportEventView) -> (
    ExportRunView,
    ExportActionView,
) {
    match (run.stage, event) {
        (StageView::AwaitingAck, ExportEventView::Acknowledged) => at_stage(
            run,
            run.next + 1,
            begun(run.plan, run.next + 1),
        ),
        (StageView::Fetching { room, paginator }, ExportEventView::Page { chunk, end }) => at_stage(
            run,
            run.next,
            fetched(run.plan, run.next, room, after_page(paginator, chunk, end)),
        ),
        (StageView::Fetching { .. }, ExportEventView::Failed) => at_stage(
            run,
            run.next,
            (
                StageView::AwaitingAck,
                ExportActionView::Report {
                    identifier: run.plan.identifiers[run.next],
                    reason: SkipReasonView::FetchFailed,
                },
            ),
        ),
        (StageView::Naming { room, events, cache, at }, ExportEventView::Member(name)) => at_stage(
            run,
            run.next,
            named(
                run.plan,
                run.next,
                room,
                events,
                cache.insert(interpreted_batch(events)[at]->0.sender, name),
                at,
            ),
        ),
        (StageView::Naming { .. }, ExportEventView::Failed) => at_stage(
            run,
            run.next,
            (
                StageView::AwaitingAck,
                ExportActionView::Report {
                    identifier: run.plan.identifiers[run.next],
                    reason: SkipReasonView::LookupFailed,
                },
            ),
        ),
        _ => (run, ExportActionView::Unexpected),
    }
}

struct Plan {
    rooms: Vec<RoomWithCachedInfo>,
    identifiers: Vec<String>,
    formats: ExportFormats,
    max_pages: Option<usize>,
}

impl View for Plan {
    type V = ExportPlan;

    closed spec fn view(&self) -> ExportPlan {
        ExportPlan {
            rooms: self.rooms@,
            identifiers: self.identifiers.deep_view(),
            formats: self.formats,
            max_pages: page_limit(self.max_pages),
        }
    }
}

enum Stage {
    AwaitingAck,
    Fetching { room: usize, paginator: Paginator },
    Naming {
        room: usize,
        events: Vec<TimelineEvent>,
        items: Vec<Option<TimelineItem>>,
        cache: DisplayNameCache,
        at: usize,
    },
    Finished,
}

impl View for Stage {
    type V = StageView;

    closed spec fn view(&self) -> StageView {
        match self {
            Stage::AwaitingAck => StageView::AwaitingAck,
            Stage::Fetching { room, paginator } => StageView::Fetching {
                room: *room as int,
                paginator: paginator@,
            },
            Stage::Naming { room, events, items, cache, at } => StageView::Naming {
                room: *room as int,
                events: events@,
                cache: cache@,
                at: *at as int,
            },
            Stage::Finished => StageView::Finished,
        }
    }
}

/// Whether a stage can stand at the place `next` of a plan.
spec fn stage_fits(plan: ExportPlan, next: int, stage: Stage) -> bool {
    match stage {
        Stage::AwaitingAck => 0 <= next < plan.identifiers.len(),
        Stage::Fetching { room, paginator } => {
            &&& 0 <= next < plan.identifiers.len()
            &&& room < plan.rooms.len()
            &&& plan.rooms[room as int].well_formed()
            &&& paginator.status == PaginationStatus::Fetching
        },
        Stage::Naming { room, events, items, cache, at } => {
            &&& 0 <= next < plan.identifiers.len()
            &&& room < plan.rooms.len()
            &&& plan.rooms[room as int].well_formed()
            &&& item_views(items@) == interpreted_batch(events@)
            &&& is_next_lookup(item_views(items@), cache@, at as int, at as int)
        },
        Stage::Finished => true,
    }
}

/// The export of a list of rooms, one after the other, as far as it has
/// come.
pub struct ExportRun {
    plan: Plan,
    next: usize,
    stage: Stage,
}

impl View for ExportRun {
    type V = ExportRunView;

    closed spec fn view(&self) -> ExportRunView {
        ExportRunView { plan: self.plan@, next: self.next as int, stage: self.stage@ }
    }
}

fn report(plan: &Plan, next: usize, reason: SkipReason) -> (r: (Stage, ExportAction))
    requires
        next < plan.identifiers@.len(),
    ensures
        r.0 is AwaitingAck,
        r.1@ == (ExportActionView::Report {
            identifier: plan@.identifiers[next as int],
            reason: reason@,
        }),
{
    assert(plan@.identifiers[next as int] == plan.identifiers@[next as int]@);
    (Stage::AwaitingAck, ExportAction::Report { identifier: plan.identifiers[next].clone(), reason })
}

fn write(
    plan: &Plan,
    next: usize,
    room: usize,
    events: &Vec<TimelineEvent>,
    items: &Vec<Option<TimelineItem>>,
    cache: &DisplayNameCache,
) -> (r: (Stage, ExportAction))
    requires
        next < plan.identifiers@.len(),
        room < plan.rooms@.len(),
        plan.rooms@[room as int].well_formed(),
        plan.formats.txt ==> item_views(items@) == interpreted_batch(events@),
    ensures
        (r.0@, r.1@) == written(plan@, next as int, room as int, events@, cache@),
        stage_fits(plan@, next as int, r.0),
{
    let stem = format_export_filename(&plan.rooms[room]);
    let mut files: Vec<ExportFile> = Vec::new();
    if plan.formats.json {
        match messages_to_json(events) {
            Ok(text) => {
                let name = with_extension(stem.as_str(), ExportOutputFormat::Json);
                files.push(ExportFile { name, contents: text });
            },
            Err(e) => {
                return report(plan, next, SkipReason::NotStructured(e));
            },
        }
    }
    if plan.formats.txt {
        let name = with_extension(stem.as_str(), ExportOutputFormat::Txt);
        files.push(ExportFile { name, contents: render_items(items, cache) });
    }
    proof {
        assert(files.deep_view() =~= files_of(plan@, room as int, events@, cache@)->Ok_0);
    }
    (Stage::AwaitingAck, ExportAction::WriteFiles { room, files })
}

fn name(
    plan: &Plan,
    next: usize,
    room: usize,
    events: Vec<TimelineEvent>,
    items: Vec<Option<TimelineItem>>,
    cache: DisplayNameCache,
    from: usize,
) -> (r: (Stage, ExportAction))
    requires
        next < plan.identifiers@.len(),
        room < plan.rooms@.len(),
        plan.rooms@[room as int].well_formed(),
        item_views(items@) == interpreted_batch(events@),
        from <= items@.len(),
    ensures
        (r.0@, r.1@) == named(plan@, next as int, room as int, events@, cache@, from as int),
        stage_fits(plan@, next as int, r.0),
{
    match next_unknown_sender(&items, &cache, from) {
        Some(at) => {
            let user_id = match &items[at] {
                Some(item) => item.sender.clone(),
                None => String::new(),
            };
            (
                Stage::Naming { room, events, items, cache, at },
                ExportAction::LookUpMember { room, user_id },
            )
        },
        None => write(plan, next, room, &events, &items, &cache),
    }
}

fn fetch(plan: &Plan, next: usize, room: usize, paginator: Paginator) -> (r: (Stage, ExportAction))
    requires
        next < plan.identifiers@.len(),
        room < plan.rooms@.len(),
        plan.rooms@[room as int].well_formed(),
    ensures
        (r.0@, r.1@) == fetched(plan@, next as int, room as int, paginator@),
        stage_fits(plan@, next as int, r.0),
{
    match paginator.next_request() {
        Some(request) => (
            Stage::Fetching { room, paginator },
            ExportAction::FetchPage { room, request },
        ),
        None => match paginator.status {
            PaginationStatus::Truncated => report(plan, next, SkipReason::Truncated),
            _ => {
                let events = paginator.into_batch();
                let cache = DisplayNameCache::new();
                if plan.formats.txt {
                    let items = interpret_batch(&events);
                    assert(item_views(items@).len() == items@.len());
                    name(plan, next, room, events, items, cache, 0)
                } else {
                    let items: Vec<Option<TimelineItem>> = Vec::new();
                    write(plan, next, room, &events, &items, &cache)
                }
            },
        },
    }
}

fn begin(plan: &Plan, next: usize) -> (r: (Stage, ExportAction))
    requires
        next <= plan.identifiers@.len(),
    ensures
        (r.0@, r.1@) == begun(plan@, next as int),
        stage_fits(plan@, next as int, r.0),
{
    if next >= plan.identifiers.len() {
        return (Stage::Finished, ExportAction::Finished);
    }
    assert(plan@.identifiers[next as int] == plan.identifiers@[next as int]@);
    match get_room_index_by_identifier(&plan.rooms, plan.identifiers[next].as_str()) {
        Ok(room) => {
            if plan.rooms[room].is_well_formed() {
                fetch(plan, next, room, Paginator::new(plan.max_pages))
            } else {
                report(plan, next, SkipReason::MalformedRoom)
            }
        },
        Err(RoomIndexRetrievalError::NoRoomsWithSpecifiedName) => report(
            plan,
            next,
            SkipReason::NotFound,
        ),
        Err(RoomIndexRetrievalError::MultipleRoomsWithSpecifiedName(ids)) => report(
            plan,
            next,
            SkipReason::AmbiguousByName(ids),
        ),
    }
}

/// Starts the export of the rooms that `rooms` names, resolved against the
/// directory `rooms_info`, in the given formats. With `max_pages` a room's
/// history is cut off, and the room skipped, once that many pages came back
/// full.
pub fn export(
    rooms_info: Vec<RoomWithCachedInfo>,
    rooms: Vec<String>,
    formats: ExportFormats,
    max_pages: Option<usize>,
) -> (r: (ExportRun, ExportAction))
    ensures
        (r.0@, r.1@) == started(
            ExportPlan {
                rooms: rooms_info@,
                identifiers: rooms.deep_view(),
                formats,
                max_pages: page_limit(max_pages),
            },
        ),
{
    let plan = Plan { rooms: rooms_info, identifiers: rooms, formats, max_pages };
    let (stage, action) = begin(&plan, 0);
    (ExportRun { plan, next: 0, stage }, action)
}

impl ExportRun {
    #[verifier::type_invariant]
    spec fn well_formed(&self) -> bool {
        &&& self.next <= self.plan.identifiers@.len()
        &&& stage_fits(self.plan@, self.next as int, self.stage)
    }

    /// The directory against which the run resolves.
    pub fn rooms_info(&self) -> (r: &Vec<RoomWithCachedInfo>)
        ensures
            r@ == self@.plan.rooms,
    {
        &self.plan.rooms
    }

    /// Whether the run is over.
    pub fn is_finished(&self) -> (r: bool)
        ensures
            r == (self@.stage is Finished),
    {
        match &self.stage {
            Stage::Finished => true,
            _ => false,
        }
    }

    /// Takes what the owner hands back and names what is to be done next.
    pub fn step(self, event: ExportEvent) -> (r: (ExportRun, ExportAction))
        ensures
            (r.0@, r.1@) == stepped(self@, event@),
    {
        proof {
            use_type_invariant(&self);
        }
        let ExportRun { plan, next, stage } = self;
        match (stage, event) {
            (Stage::AwaitingAck, ExportEvent::Acknowledged) => {
                let following = if next < plan.identifiers.len() {
                    next + 1
                } else {
                    next
                };
                let (stage, action) = begin(&plan, following);
                (ExportRun { plan, next: following, stage }, action)
            },
            (Stage::Fetching { room, paginator }, ExportEvent::Page { chunk, end }) => {
                let mut paginator = paginator;
                paginator.accept_page(chunk, end);
                let (stage, action) = fetch(&plan, next, room, paginator);
                (ExportRun { plan, next, stage }, action)
            },
            (Stage::Fetching { .. }, ExportEvent::Failed) => {
                let (stage, action) = report(&plan, next, SkipReason::FetchFailed);
                (ExportRun { plan, next, stage }, action)
            },
            (Stage::Naming { room, events, items, cache, at }, ExportEvent::Member(name)) => {
                let mut cache = cache;
                let sender = match &items[at] {
                    Some(item) => item.sender.clone(),
                    None => String::new(),
                };
                cache.insert(sender, name);
                let (stage, action) = self::name(&plan, next, room, events, items, cache, at);
                (ExportRun { plan, next, stage }, action)
            },
            (Stage::Naming { .. }, ExportEvent::Failed) => {
                let (stage, action) = report(&plan, next, SkipReason::LookupFailed);
                (ExportRun { plan, next, stage }, action)
            },
            (stage, _) => (ExportRun { plan, next, stage }, ExportAction::Unexpected),
        }
    }
}

/// A failed page request stays with its room. The room is reported as
/// skipped and nothing of it is written, whatever pages came before; and
/// once the report is acknowledged the run takes up the next identifier
/// exactly as a run does that comes to it by any other way.
pub proof fn lemma_failed_fetch_is_isolated(run: ExportRunView, room: int, paginator: PaginatorView)
    requires
        run.stage == (StageView::Fetching { room, paginator }),
    ensures
        stepped(run, ExportEventView::Failed).1 == (ExportActionView::Report {
            identifier: run.plan.identifiers[run.next],
            reason: SkipReasonView::FetchFailed,
        }),
        stepped(run, ExportEventView::Failed).0 == (ExportRunView {
            plan: run.plan,
            next: run.next,
            stage: StageView::AwaitingAck,
        }),
        stepped(stepped(run, ExportEventView::Failed).0, ExportEventView::Acknowledged) == at_stage(
            run,
            run.next + 1,
            begun(run.plan, run.next + 1),
        ),
{
}

/// Files are asked for only once a room's history is complete: in the step
/// that takes the page which completes it, or in the step that takes the
/// display name of its last unknown sender. No step after a failure, and no
/// step that takes up an identifier, asks for a file.
pub proof fn lemma_files_need_complete_history(run: ExportRunView, event: ExportEventView)
    requires
        stepped(run, event).1 is WriteFiles,
    ensures
        match (run.stage, event) {
            (StageView::Fetching { room, paginator }, ExportEventView::Page { chunk, end }) => {
                after_page(paginator, chunk, end).status == PaginationStatus::Complete
            },
            (StageView::Naming { .. }, ExportEventView::Member(_)) => true,
            _ => false,
        },
{
}

/// No step changes what the run was asked to do: every identifier of a run
/// is resolved against the same directory, and written in the same formats.
pub proof fn lemma_step_keeps_plan(run: ExportRunView, event: ExportEventView)
    ensures
        stepped(run, event).0.plan == run.plan,
{
}

} // verus!
