//! Heartbeat: an empty request, answered with the central system's time.

use crate::error::OcppResponseError;
use crate::json::no_line_break;
use crate::messages::{clock_text, current_time};
use vstd::prelude::*;

verus! {

/// The payload of a Heartbeat call. It has no fields.
pub struct HeartbeatRequest {}

/// The payload of the answer to a Heartbeat call.
pub struct HeartbeatResponse {
    /// The central system's time, as RFC 3339 text in UTC.
    pub current_time: String,
}

impl View for HeartbeatResponse {
    type V = Seq<char>;

    open spec fn view(&self) -> Seq<char> {
        self.current_time@
    }
}

/// What `rust_ocpp` and `serde_json` write for a Heartbeat answer with the
/// given time: the JSON text, or the message of the error.
pub uninterp spec fn heartbeat_response_json(current_time: Seq<char>) -> Result<
    Seq<char>,
    Seq<char>,
>;

/// Parses the time with `chrono`'s `FromStr` for `DateTime<Utc>`, builds
/// `rust_ocpp`'s `HeartbeatResponse` and calls `serde_json::to_string` on it.
/// An error of either call comes back as its message. The contract names the
/// outcome and claims that a written text holds no line break: `serde_json`
/// writes compact JSON, with every control character of a string escaped.
#[verifier::external_body]
pub(crate) fn write_heartbeat_response(current_time: &str) -> (r: Result<String, String>)
    ensures
        r matches Ok(json) ==> no_line_break(json@),
        match r {
            Ok(json) => heartbeat_response_json(current_time@) == Ok::<Seq<char>, Seq<char>>(
                json@,
            ),
            Err(message) => heartbeat_response_json(current_time@) == Err::<Seq<char>, Seq<char>>(
                message@,
            ),
        },
{
    let current_time = current_time.parse::<chrono::DateTime<chrono::Utc>>().map_err(
        |e| e.to_string(),
    )?;
    let response = rust_ocpp::v1_6::messages::heart_beat::HeartbeatResponse { current_time };
    serde_json::to_string(&response).map_err(|e| e.to_string())
}

/// The handler used for Heartbeat where the embedder registered none.
pub struct DefaultHeartbeatHandler;

impl DefaultHeartbeatHandler {
    /// The answer for a given reading of the clock.
    pub fn answer(current_time: String) -> (r: HeartbeatResponse)
        ensures
            r@ == current_time@,
    {
        HeartbeatResponse { current_time }
    }

    /// Answers with the current time: an RFC 3339 text in UTC that can be
    /// written. It never fails, whatever the clock says.
    pub fn handle(&self, _request: HeartbeatRequest) -> (r: Result<
        HeartbeatResponse,
        OcppResponseError,
    >)
        ensures
            r is Ok,
            clock_text(r->Ok_0@),
    {
        Ok(Self::answer(current_time()))
    }
}

} // verus!
