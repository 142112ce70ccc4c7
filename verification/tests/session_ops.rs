use jabroni::db::SqliteDatabase;
use jabroni::handler::App;
use jabroni::requests::{ApiRequest, DeleteRowRequest};
use jabroni::responses::{ApiResponse, ErrorResponse};
use jabroni::session::{session_step, FrameAction, FrameEvent, WebSocketAdapterLayer};
use jabroni::values::JsonValue;

#[test]
fn text_frames_are_dispatched() {
    let action = session_step(FrameEvent::Text("{\"type\":\"DeleteRow\"}".to_string()));
    assert_eq!(action, FrameAction::Dispatch("{\"type\":\"DeleteRow\"}".to_string()));
}

#[test]
fn close_and_read_failure_stop_the_loop() {
    assert_eq!(session_step(FrameEvent::Close), FrameAction::Stop);
    assert_eq!(session_step(FrameEvent::ReadFailed), FrameAction::Stop);
}

#[test]
fn unsupported_frames_are_rejected_then_stopped() {
    assert_eq!(
        session_step(FrameEvent::Unsupported),
        FrameAction::RejectAndStop(ErrorResponse::NonTextMessage)
    );
}

#[test]
fn bad_request_carries_its_message() {
    let err = ErrorResponse::bad_request("failed to decode request".to_string());
    match err {
        ErrorResponse::BadRequest(m) => assert_eq!(m.message(), "failed to decode request"),
        other => panic!("unexpected error: {:?}", other),
    }
}

#[test]
fn decode_failure_never_reaches_the_handler() {
    let conn = rusqlite::Connection::open("file:session1?mode=memory&cache=shared").unwrap();
    conn.execute_batch("CREATE TABLE users (id INTEGER PRIMARY KEY, name TEXT)").unwrap();
    let db = SqliteDatabase::new("file:session1?mode=memory&cache=shared").unwrap();
    let adapter = WebSocketAdapterLayer.layer(App::new(db));
    match adapter.call_decoded(None) {
        Err(ErrorResponse::BadRequest(m)) => {
            assert_eq!(m.message(), "failed to decode request")
        },
        other => panic!("unexpected outcome: {:?}", other),
    }
}

#[test]
fn decoded_requests_are_processed() {
    let conn = rusqlite::Connection::open("file:session2?mode=memory&cache=shared").unwrap();
    conn.execute_batch("CREATE TABLE users (id INTEGER PRIMARY KEY, name TEXT)").unwrap();
    let db = SqliteDatabase::new("file:session2?mode=memory&cache=shared").unwrap();
    let adapter = WebSocketAdapterLayer.layer(App::new(db));
    let request = ApiRequest::DeleteRow(DeleteRowRequest {
        table: "users".to_string(),
        key: JsonValue::Int(1),
        request_id: "1".to_string(),
    });
    match adapter.call_decoded(Some(request)) {
        Ok(Ok(ApiResponse::DeleteRow(p))) => {
            assert_eq!(p.deleted_rows, 0);
            assert_eq!(p.request_id, "1".to_string());
        },
        other => panic!("unexpected outcome: {:?}", other),
    }
}
