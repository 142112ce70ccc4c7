//! The connection session's decision table and the protocol adapter. The
//! transport loop itself (socket reads and writes, the send queue, the rate
//! limiter's readiness wait) lives outside the library; it feeds each
//! received frame through `session_step` and performs the action returned.

use vstd::prelude::*;

use crate::handler::{request_wf, response_matches, App, AppError};
use crate::requests::ApiRequest;
use crate::responses::{ApiResponse, ErrorResponse};

verus! {

/// One frame received on a connection, as the transport reports it.
#[derive(Debug, Clone, PartialEq, Eq)]
pub enum FrameEvent {
    /// A text frame carrying a request body.
    Text(String),
    /// The peer closed the connection.
    Close,
    /// A frame of a type the protocol does not support.
    Unsupported,
    /// The transport failed to read.
    ReadFailed,
}

/// What the receive loop does with a frame: dispatch its body through the
/// pipeline, reply with a terminal error and stop, or just stop.
#[derive(Debug, Clone, PartialEq, Eq)]
pub enum FrameAction {
    Dispatch(String),
    RejectAndStop(ErrorResponse),
    Stop,
}

/// The receive loop's decision for one frame: text is dispatched, a close or
/// read failure ends the loop, and an unsupported frame type is answered
/// with a terminal error before the loop ends.
pub fn session_step(event: FrameEvent) -> (r: FrameAction)
    ensures
        event matches FrameEvent::Text(t) ==> (r matches FrameAction::Dispatch(b) && b@ == t@),
        event is Close ==> r is Stop,
        event is ReadFailed ==> r is Stop,
        event is Unsupported ==> (r matches FrameAction::RejectAndStop(e)
            && e is NonTextMessage),
{
    match event {
        FrameEvent::Text(body) => FrameAction::Dispatch(body),
        FrameEvent::Close => FrameAction::Stop,
        FrameEvent::ReadFailed => FrameAction::Stop,
        FrameEvent::Unsupported => FrameAction::RejectAndStop(ErrorResponse::NonTextMessage),
    }
}

/// Adapts the application handler to the textual protocol: a message that
/// decodes is handed to the wrapped handler, one that does not is answered
/// with a protocol-level error and never reaches it.
pub struct WebSocketAdapter<S> {
    inner: S,
}

impl<S> WebSocketAdapter<S> {
    pub fn new(inner: S) -> (r: WebSocketAdapter<S>) {
        WebSocketAdapter { inner }
    }
}

impl WebSocketAdapter<App> {
    /// Dispatches the outcome of decoding one text frame: a decode failure
    /// is answered with `BadRequest` without invoking the handler, a decoded
    /// request is processed by it.
    pub fn call_decoded(&self, decoded: Option<ApiRequest>) -> (r: Result<
        Result<ApiResponse, AppError>,
        ErrorResponse,
    >)
        requires
            decoded matches Some(q) ==> request_wf(q),
        ensures
            decoded is None ==> (r matches Err(e) && e is BadRequest),
            decoded is Some ==> r is Ok,
            decoded matches Some(q) ==> (r matches Ok(outcome) && (outcome matches Ok(resp)
                ==> response_matches(q, resp))),
    {
        match decoded {
            None => Err(ErrorResponse::bad_request(String::from_str("failed to decode request"))),
            Some(q) => Ok(self.inner.call(q)),
        }
    }
}

/// Builds the protocol-adapter stage of a pipeline around an inner handler.
pub struct WebSocketAdapterLayer;

impl WebSocketAdapterLayer {
    pub fn layer<S>(&self, inner: S) -> (r: WebSocketAdapter<S>) {
        WebSocketAdapter::new(inner)
    }
}

} // verus!
