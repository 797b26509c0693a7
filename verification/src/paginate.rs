//! The history paginator: which page of a room's history to ask for next,
//! and when the history is complete.
//!
//! The paginator fetches nothing itself. Its owner performs each request
//! that it names and hands back the page that came.

use vstd::prelude::*;

use crate::events::TimelineEvent;

verus! {

/// The number of events that every page request asks for.
pub const PAGE_SIZE: u16 = 1000;

/// How far the retrieval of a room's history has come.
#[derive(Clone, Copy, Debug, PartialEq, Eq, Structural)]
pub enum PaginationStatus {
    /// Another page has to be requested.
    Fetching,
    /// A page came back short: the history is complete.
    Complete,
    /// The allowed number of pages came back full: the history was cut off.
    Truncated,
}

/// A request for one page of history.
#[derive(Clone, Debug, PartialEq, Eq)]
pub struct PageRequest {
    /// The continuation cursor of the page before, or `None` for the first
    /// page.
    pub from: Option<String>,
    /// The number of events asked for.
    pub limit: u16,
}

/// The retrieval of one room's history, page by page.
#[derive(Clone, Debug, PartialEq, Eq)]
pub struct Paginator {
    /// The events of the pages that came so far, in the order received.
    pub events: Vec<TimelineEvent>,
    /// The continuation cursor that the last page brought.
    pub cursor: Option<String>,
    /// How far the retrieval has come.
    pub status: PaginationStatus,
    /// The number of pages that may still be requested, where it is limited.
    pub pages_left: Option<usize>,
}

/// The mathematical value of a [`Paginator`].
pub struct PaginatorView {
    pub events: Seq<TimelineEvent>,
    pub cursor: Option<Seq<char>>,
    pub status: PaginationStatus,
    pub pages_left: Option<nat>,
}

impl View for Paginator {
    type V = PaginatorView;

    open spec fn view(&self) -> PaginatorView {
        PaginatorView {
            events: self.events@,
            cursor: self.cursor.deep_view(),
            status: self.status,
            pages_left: page_limit(self.pages_left),
        }
    }
}

/// A page limit as a number without bound.
pub open spec fn page_limit(max_pages: Option<usize>) -> Option<nat> {
    match max_pages {
        Some(n) => Some(n as nat),
        None => None,
    }
}

/// The paginator before the first request, allowed `max_pages` pages where
/// that is a number.
pub open spec fn initial(max_pages: Option<nat>) -> PaginatorView {
    PaginatorView {
        events: Seq::empty(),
        cursor: None,
        status: if max_pages == Some(0nat) {
            PaginationStatus::Truncated
        } else {
            PaginationStatus::Fetching
        },
        pages_left: max_pages,
    }
}

/// The paginator after a page came. The page's events go behind those held.
/// A page shorter than [`PAGE_SIZE`] completes the history; a full one calls
/// for the next page, from the cursor that it brought, unless no further page
/// is allowed. A paginator that is not fetching takes no page.
pub open spec fn after_page(
    p: PaginatorView,
    chunk: Seq<TimelineEvent>,
    end: Option<Seq<char>>,
) -> PaginatorView {
    if p.status != PaginationStatus::Fetching {
        p
    } else if chunk.len() < PAGE_SIZE {
        PaginatorView {
            events: p.events + chunk,
            cursor: p.cursor,
            status: PaginationStatus::Complete,
            pages_left: p.pages_left,
        }
    } else {
        let left = match p.pages_left {
            Some(n) => Some(
                if n > 0 {
                    (n - 1) as nat
                } else {
                    0nat
                },
            ),
            None => None,
        };
        PaginatorView {
            events: p.events + chunk,
            cursor: end,
            status: if left == Some(0nat) {
                PaginationStatus::Truncated
            } else {
                PaginationStatus::Fetching
            },
            pages_left: left,
        }
    }
}

impl Paginator {
    /// The paginator before the first request. With `max_pages` the history
    /// is cut off once that many pages came back full.
    pub fn new(max_pages: Option<usize>) -> (r: Self)
        ensures
            r@ == initial(page_limit(max_pages)),
    {
        let status = match max_pages {
            Some(0) => PaginationStatus::Truncated,
            _ => PaginationStatus::Fetching,
        };
        Paginator { events: Vec::new(), cursor: None, status, pages_left: max_pages }
    }

    /// The request to perform next: the page behind the last one, at the
    /// fixed page size. `None` once the history is complete or cut off.
    pub fn next_request(&self) -> (r: Option<PageRequest>)
        ensures
            r is Some <==> self.status == PaginationStatus::Fetching,
            r matches Some(request) ==> request.from.deep_view() == self@.cursor && request.limit
                == PAGE_SIZE,
    {
        match self.status {
            PaginationStatus::Fetching => Some(
                PageRequest {
                    from: match &self.cursor {
                        Some(token) => Some(token.clone()),
                        None => None,
                    },
                    limit: PAGE_SIZE,
                },
            ),
            _ => None,
        }
    }

    /// Takes the page that the last request brought: its events and the
    /// continuation cursor that came with them.
    pub fn accept_page(&mut self, chunk: Vec<TimelineEvent>, end: Option<String>)
        ensures
            final(self)@ == after_page(old(self)@, chunk@, end.deep_view()),
    {
        match self.status {
            PaginationStatus::Fetching => {
                let mut chunk = chunk;
                let full = chunk.len() >= PAGE_SIZE as usize;
                self.events.append(&mut chunk);
                if full {
                    self.cursor = end;
                    match self.pages_left {
                        Some(n) => {
                            let left: usize = if n > 0 {
                                n - 1
                            } else {
                                0
                            };
                            self.pages_left = Some(left);
                            if left == 0 {
                                self.status = PaginationStatus::Truncated;
                            }
                        },
                        None => {},
                    }
                } else {
                    self.status = PaginationStatus::Complete;
                }
            },
            _ => {},
        }
    }

    /// The events of all pages that came, in the order received.
    pub fn into_batch(self) -> (r: Vec<TimelineEvent>)
        ensures
            r@ == self@.events,
    {
        self.events
    }
}

/// The page that a server hands out of `room` at `offset`: the next
/// [`PAGE_SIZE`] events, or what is left of the room where that is less.
pub open spec fn page_at(room: Seq<TimelineEvent>, offset: int) -> Seq<TimelineEvent> {
    if offset + PAGE_SIZE <= room.len() {
        room.subrange(offset, offset + PAGE_SIZE)
    } else {
        room.subrange(offset, room.len() as int)
    }
}

/// The paginator once it has been run against a server that holds `room`:
/// as long as it fetches, it is handed the page behind the events that it
/// holds, with whatever cursor the server gives at that place.
pub open spec fn drained(
    p: PaginatorView,
    room: Seq<TimelineEvent>,
    cursor_at: spec_fn(int) -> Option<Seq<char>>,
) -> PaginatorView
    decreases room.len() - p.events.len(),
{
    if p.status == PaginationStatus::Fetching && p.events.len() <= room.len() {
        let page = page_at(room, p.events.len() as int);
        if page.len() < PAGE_SIZE {
            after_page(p, page, cursor_at((p.events.len() + page.len()) as int))
        } else {
            drained(after_page(p, page, cursor_at((p.events.len() + page.len()) as int)), room, cursor_at)
        }
    } else {
        p
    }
}

/// Pagination is complete: run without a page limit against a room of any
/// length, served a page at a time, the paginator ends with exactly the
/// room's events, each once and in the order of delivery.
pub proof fn lemma_pagination_is_complete(
    room: Seq<TimelineEvent>,
    cursor_at: spec_fn(int) -> Option<Seq<char>>,
)
    ensures
        drained(initial(None), room, cursor_at).events == room,
        drained(initial(None), room, cursor_at).status == PaginationStatus::Complete,
{
    assert(initial(None).events =~= room.take(0));
    lemma_drained_from(initial(None), room, cursor_at, 0);
}

proof fn lemma_drained_from(
    p: PaginatorView,
    room: Seq<TimelineEvent>,
    cursor_at: spec_fn(int) -> Option<Seq<char>>,
    offset: int,
)
    requires
        0 <= offset <= room.len(),
        p.events == room.take(offset),
        p.status == PaginationStatus::Fetching,
        p.pages_left is None,
    ensures
        drained(p, room, cursor_at).events == room,
        drained(p, room, cursor_at).status == PaginationStatus::Complete,
    decreases room.len() - offset,
{
    let page = page_at(room, offset);
    let next = after_page(p, page, cursor_at(offset + page.len()));
    assert(next.events =~= room.take(offset + page.len()));
    if page.len() < PAGE_SIZE {
        assert(room.take(room.len() as int) =~= room);
    } else {
        lemma_drained_from(next, room, cursor_at, offset + PAGE_SIZE);
    }
}

} // verus!
