use opfyx::paginate::{PaginationState, Paginator};
use std::cell::Cell;

type Answer = Result<(u32, (), Option<String>), String>;

fn token(text: &str) -> Option<String> {
    Some(text.to_string())
}

/// Pulls a paginator to its end against answers given in advance and
/// returns what it yielded and how often the operation was called.
fn pull_all(script: Vec<Answer>) -> (Vec<Result<u32, String>>, usize) {
    let calls = Cell::new(0usize);
    let mut paginator = Paginator::new(());
    let mut items = Vec::new();
    loop {
        let op = |state: (), _token: Option<String>| -> Answer {
            let n = calls.get();
            calls.set(n + 1);
            let _ = state;
            script[n].clone()
        };
        match paginator.next_page(op) {
            Some(item) => items.push(item),
            None => break,
        }
    }
    (items, calls.get())
}

#[test]
fn first_call_carries_no_token() {
    let state: PaginationState<u8> = PaginationState::Start(7);
    assert_eq!(state.request(), Some((7, None)));
}

#[test]
fn present_token_asks_for_another_call() {
    let state = PaginationState::HasMore(7u8, "next".to_string());
    assert_eq!(state.request(), Some((7, token("next"))));
}

#[test]
fn empty_token_ends_like_done() {
    let with_empty = PaginationState::HasMore(7u8, String::new());
    let done: PaginationState<u8> = PaginationState::Done;
    assert_eq!(with_empty.request(), None);
    assert_eq!(done.request(), None);
}

#[test]
fn advance_keeps_state_and_token() {
    let answer: Result<(&str, u8, Option<String>), ()> = Ok(("page", 3, token("t1")));
    let (item, next) = PaginationState::advance(answer);
    assert_eq!(item, Ok("page"));
    assert_eq!(next, PaginationState::HasMore(3, "t1".to_string()));
}

#[test]
fn advance_without_token_is_done() {
    let answer: Result<(&str, u8, Option<String>), ()> = Ok(("page", 3, None));
    let (item, next) = PaginationState::advance(answer);
    assert_eq!(item, Ok("page"));
    assert_eq!(next, PaginationState::Done);
}

#[test]
fn advance_on_failure_is_done() {
    let answer: Result<(&str, u8, Option<String>), &str> = Err("boom");
    let (item, next) = PaginationState::advance(answer);
    assert_eq!(item, Err("boom"));
    assert_eq!(next, PaginationState::Done);
}

#[test]
fn calls_are_one_plus_non_empty_tokens() {
    let script: Vec<Answer> = vec![
        Ok((1, (), token("a"))),
        Ok((2, (), token("b"))),
        Ok((3, (), token("c"))),
        Ok((4, (), None)),
        Ok((5, (), token("never"))),
    ];
    let (items, calls) = pull_all(script);
    assert_eq!(calls, 4);
    assert_eq!(items, vec![Ok(1), Ok(2), Ok(3), Ok(4)]);
}

#[test]
fn single_page_is_one_call() {
    let (items, calls) = pull_all(vec![Ok((1, (), None)), Ok((2, (), None))]);
    assert_eq!(calls, 1);
    assert_eq!(items, vec![Ok(1)]);
}

#[test]
fn empty_token_stops_after_that_page() {
    let script: Vec<Answer> = vec![
        Ok((1, (), token("a"))),
        Ok((2, (), token(""))),
        Ok((3, (), None)),
    ];
    let (items, calls) = pull_all(script);
    assert_eq!(calls, 2);
    assert_eq!(items, vec![Ok(1), Ok(2)]);
}

#[test]
fn failure_is_yielded_once_and_ends_the_sequence() {
    let script: Vec<Answer> = vec![
        Ok((1, (), token("a"))),
        Err("remote".to_string()),
        Ok((3, (), None)),
    ];
    let (items, calls) = pull_all(script);
    assert_eq!(calls, 2);
    assert_eq!(items, vec![Ok(1), Err("remote".to_string())]);
    assert_eq!(items.iter().filter(|item| item.is_err()).count(), 1);
}

#[test]
fn failure_on_first_call() {
    let (items, calls) = pull_all(vec![Err("remote".to_string()), Ok((1, (), None))]);
    assert_eq!(calls, 1);
    assert_eq!(items, vec![Err("remote".to_string())]);
}

#[test]
fn ended_paginator_does_not_call_again() {
    let calls = Cell::new(0usize);
    let mut paginator = Paginator::new(());
    let first = paginator.next_page(|_: (), _: Option<String>| -> Answer {
        calls.set(calls.get() + 1);
        Err("remote".to_string())
    });
    assert_eq!(first, Some(Err("remote".to_string())));
    assert!(paginator.is_done());
    for _ in 0..3 {
        let again = paginator.next_page(|_: (), _: Option<String>| -> Answer {
            calls.set(calls.get() + 1);
            Ok((9, (), None))
        });
        assert_eq!(again, None);
    }
    assert_eq!(calls.get(), 1);
}

#[test]
fn state_and_token_are_threaded_through() {
    let mut paginator = Paginator::new("cluster-a".to_string());
    let first = paginator.next_page(
        |state: String, tok: Option<String>| -> Result<(u32, String, Option<String>), ()> {
            assert_eq!(state, "cluster-a");
            assert_eq!(tok, None);
            Ok((1, state, token("t1")))
        },
    );
    assert_eq!(first, Some(Ok(1)));
    assert!(!paginator.is_done());
    let second = paginator.next_page(
        |state: String, tok: Option<String>| -> Result<(u32, String, Option<String>), ()> {
            assert_eq!(state, "cluster-a");
            assert_eq!(tok, token("t1"));
            Ok((2, state, None))
        },
    );
    assert_eq!(second, Some(Ok(2)));
    assert!(paginator.is_done());
}
