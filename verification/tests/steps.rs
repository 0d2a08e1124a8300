use cursor_stream::cursor::CursorStream;
use cursor_stream::event::{Decoded, Polled, PullStep, Pulled};
use wasm_bindgen::convert::IntoWasmAbi;
use wasm_bindgen::{JsCast, JsValue};

/// A cursor handle that can be told from the others by the value it wraps.
fn cursor_on(mark: JsValue) -> idb::Cursor {
    idb::Cursor::from(mark.unchecked_into::<web_sys::IdbCursorWithValue>())
}

/// The mark of a handle made by `cursor_on`.
fn mark_of(cursor: idb::Cursor) -> u32 {
    JsValue::from(cursor).into_abi()
}

fn mark(value: JsValue) -> u32 {
    value.into_abi()
}

#[test]
fn begin_hands_out_the_held_handle() {
    let mut stream: CursorStream<u32> = CursorStream::new(Some(cursor_on(JsValue::TRUE)));
    assert!(!stream.is_exhausted());
    assert!(!stream.is_advancing());
    match stream.begin_pull() {
        PullStep::Start(cursor) => assert_eq!(mark_of(cursor), mark(JsValue::TRUE)),
        _ => panic!("the stream held a handle"),
    }
    assert!(stream.is_advancing());
    assert!(!stream.is_exhausted());
}

#[test]
fn begin_resumes_an_outstanding_advancement() {
    let mut stream: CursorStream<u32> = CursorStream::new(Some(cursor_on(JsValue::TRUE)));
    assert!(matches!(stream.begin_pull(), PullStep::Start(_)));
    assert!(matches!(stream.end_pull(Polled::NotReady), Pulled::Pending));
    assert!(stream.is_advancing());
    assert!(matches!(stream.begin_pull(), PullStep::Resume));
    assert!(stream.is_advancing());
    assert!(matches!(stream.begin_pull(), PullStep::Resume));
    assert!(matches!(stream.end_pull(Polled::NotReady), Pulled::Pending));
    assert!(stream.is_advancing());
}

#[test]
fn begin_finishes_without_a_handle() {
    let mut stream: CursorStream<u32> = CursorStream::new(None);
    assert!(matches!(stream.begin_pull(), PullStep::Finished));
    assert!(stream.is_exhausted());
    assert!(matches!(stream.begin_pull(), PullStep::Finished));
    assert!(stream.is_exhausted());
}

#[test]
fn end_keeps_the_handle_that_came_back() {
    let mut stream: CursorStream<u32> = CursorStream::new(Some(cursor_on(JsValue::TRUE)));
    assert!(matches!(stream.begin_pull(), PullStep::Start(_)));
    let pulled = stream.end_pull(Polled::Settled {
        next: Some(cursor_on(JsValue::FALSE)),
        decoded: Decoded::Value(17),
    });
    assert!(matches!(pulled, Pulled::Ready(Some(17))));
    assert!(!stream.is_advancing());
    assert!(!stream.is_exhausted());
    match stream.begin_pull() {
        PullStep::Start(cursor) => assert_eq!(mark_of(cursor), mark(JsValue::FALSE)),
        _ => panic!("the stream held the handle that came back"),
    }
}

#[test]
fn end_without_a_next_handle_exhausts_after_the_value() {
    let mut stream: CursorStream<u32> = CursorStream::new(Some(cursor_on(JsValue::TRUE)));
    assert!(matches!(stream.begin_pull(), PullStep::Start(_)));
    let pulled = stream.end_pull(Polled::Settled { next: None, decoded: Decoded::Value(3) });
    assert!(matches!(pulled, Pulled::Ready(Some(3))));
    assert!(stream.is_exhausted());
    assert!(matches!(stream.begin_pull(), PullStep::Finished));
}

#[test]
fn end_on_failure_exhausts() {
    let mut stream: CursorStream<u32> = CursorStream::new(Some(cursor_on(JsValue::TRUE)));
    assert!(matches!(stream.begin_pull(), PullStep::Start(_)));
    assert!(matches!(stream.end_pull(Polled::Failed), Pulled::Ready(None)));
    assert!(stream.is_exhausted());
    assert!(!stream.is_advancing());
    assert!(matches!(stream.begin_pull(), PullStep::Finished));
}

#[test]
fn end_on_empty_value_drops_the_next_handle() {
    let mut stream: CursorStream<u32> = CursorStream::new(Some(cursor_on(JsValue::TRUE)));
    assert!(matches!(stream.begin_pull(), PullStep::Start(_)));
    let pulled = stream.end_pull(Polled::Settled {
        next: Some(cursor_on(JsValue::FALSE)),
        decoded: Decoded::Empty,
    });
    assert!(matches!(pulled, Pulled::Ready(None)));
    assert!(stream.is_exhausted());
    assert!(matches!(stream.begin_pull(), PullStep::Finished));
}

#[test]
fn end_on_invalid_value_drops_the_next_handle() {
    let mut stream: CursorStream<u32> = CursorStream::new(Some(cursor_on(JsValue::TRUE)));
    assert!(matches!(stream.begin_pull(), PullStep::Start(_)));
    let pulled = stream.end_pull(Polled::Settled {
        next: Some(cursor_on(JsValue::FALSE)),
        decoded: Decoded::Invalid,
    });
    assert!(matches!(pulled, Pulled::Ready(None)));
    assert!(stream.is_exhausted());
    assert!(matches!(stream.begin_pull(), PullStep::Finished));
}

#[test]
fn pull_calls_the_driver_once_with_the_step() {
    let mut stream: CursorStream<u32> = CursorStream::new(Some(cursor_on(JsValue::FALSE)));
    let mut calls = 0;
    let pulled = stream.pull(|step| {
        calls += 1;
        match step {
            PullStep::Start(cursor) => assert_eq!(mark_of(cursor), mark(JsValue::FALSE)),
            _ => panic!("the stream held a handle"),
        }
        Polled::NotReady
    });
    assert!(matches!(pulled, Pulled::Pending));
    assert_eq!(calls, 1);
    let pulled = stream.pull(|step| {
        calls += 1;
        assert!(matches!(step, PullStep::Resume));
        Polled::Settled { next: None, decoded: Decoded::Value(8) }
    });
    assert!(matches!(pulled, Pulled::Ready(Some(8))));
    assert_eq!(calls, 2);
    let pulled = stream.pull(|_step| {
        calls += 1;
        Polled::NotReady
    });
    assert!(matches!(pulled, Pulled::Ready(None)));
    assert_eq!(calls, 2);
}
