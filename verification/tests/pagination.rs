use trace::events::TimelineEvent;
use trace::paginate::{PaginationStatus, Paginator, PAGE_SIZE};

fn room(n: usize) -> Vec<TimelineEvent> {
    (0..n).map(|i| TimelineEvent { json: format!("{{\"n\":{}}}", i) }).collect()
}

fn drain(room: &[TimelineEvent], max_pages: Option<usize>) -> (Paginator, usize) {
    let mut paginator = Paginator::new(max_pages);
    let mut requests = 0;
    let mut offset = 0;
    while let Some(request) = paginator.next_request() {
        assert_eq!(request.limit, PAGE_SIZE);
        if requests == 0 {
            assert_eq!(request.from, None);
        } else {
            assert_eq!(request.from, Some(format!("t{}", offset)));
        }
        requests += 1;
        let end = usize::min(offset + request.limit as usize, room.len());
        let chunk = room[offset..end].to_vec();
        offset = end;
        paginator.accept_page(chunk, Some(format!("t{}", offset)));
    }
    (paginator, requests)
}

#[test]
fn page_size_is_one_thousand() {
    assert_eq!(PAGE_SIZE, 1000);
}

#[test]
fn an_empty_room_takes_one_request() {
    let (paginator, requests) = drain(&room(0), None);
    assert_eq!(requests, 1);
    assert_eq!(paginator.status, PaginationStatus::Complete);
    assert_eq!(paginator.into_batch(), room(0));
}

#[test]
fn a_room_of_one_page_takes_two_requests() {
    let (paginator, requests) = drain(&room(1000), None);
    assert_eq!(requests, 2);
    assert_eq!(paginator.status, PaginationStatus::Complete);
    assert_eq!(paginator.into_batch(), room(1000));
}

#[test]
fn a_room_of_one_page_and_one_event() {
    let (paginator, requests) = drain(&room(1001), None);
    assert_eq!(requests, 2);
    assert_eq!(paginator.into_batch(), room(1001));
}

#[test]
fn a_room_of_two_pages() {
    let (paginator, requests) = drain(&room(2000), None);
    assert_eq!(requests, 3);
    assert_eq!(paginator.into_batch(), room(2000));
}

#[test]
fn a_short_room() {
    let (paginator, requests) = drain(&room(999), None);
    assert_eq!(requests, 1);
    assert_eq!(paginator.into_batch(), room(999));
}

#[test]
fn a_page_limit_cuts_a_long_room_off() {
    let (paginator, requests) = drain(&room(5000), Some(2));
    assert_eq!(requests, 2);
    assert_eq!(paginator.status, PaginationStatus::Truncated);
    assert_eq!(paginator.events.len(), 2000);
}

#[test]
fn a_page_limit_leaves_a_short_room_whole() {
    let (paginator, requests) = drain(&room(1500), Some(2));
    assert_eq!(requests, 2);
    assert_eq!(paginator.status, PaginationStatus::Complete);
    assert_eq!(paginator.into_batch(), room(1500));
}

#[test]
fn a_page_limit_of_zero_allows_no_request() {
    let paginator = Paginator::new(Some(0));
    assert_eq!(paginator.status, PaginationStatus::Truncated);
    assert_eq!(paginator.next_request(), None);
}

#[test]
fn a_finished_paginator_takes_no_page() {
    let mut paginator = Paginator::new(None);
    paginator.accept_page(room(3), None);
    assert_eq!(paginator.status, PaginationStatus::Complete);
    paginator.accept_page(room(5), Some(String::from("late")));
    assert_eq!(paginator.status, PaginationStatus::Complete);
    assert_eq!(paginator.cursor, None);
    assert_eq!(paginator.into_batch(), room(3));
}
