//! StatusNotification: a station reports the state of a connector; the answer
//! is empty.

use crate::error::OcppResponseError;
use vstd::prelude::*;

verus! {

/// The payload of a StatusNotification call, as the JSON text that the
/// OCPP 1.6 schema accepted.
pub struct StatusNotificationRequest {
    /// The payload object as compact JSON text.
    pub document: String,
}

impl View for StatusNotificationRequest {
    type V = Seq<char>;

    open spec fn view(&self) -> Seq<char> {
        self.document@
    }
}

/// The payload of the answer to a StatusNotification call. It has no fields.
pub struct StatusNotificationResponse {}

/// What `rust_ocpp` and `serde_json` make of `payload` read as a
/// StatusNotification request: `None` where the schema accepts it, else the
/// message of the error.
pub uninterp spec fn status_notification_fault(payload: Seq<char>) -> Option<Seq<char>>;

/// Calls `serde_json::from_str` for `rust_ocpp`'s `StatusNotificationRequest`
/// and keeps only the error's message. The contract only names the outcome.
#[verifier::external_body]
pub(crate) fn check_status_notification(payload: &str) -> (r: Option<String>)
    ensures
        match r {
            Some(message) => status_notification_fault(payload@) == Some(message@),
            None => status_notification_fault(payload@) == None::<Seq<char>>,
        },
{
    serde_json::from_str::<
        rust_ocpp::v1_6::messages::status_notification::StatusNotificationRequest,
    >(payload).err().map(|e| e.to_string())
}

/// The handler used for StatusNotification where the embedder registered none.
pub struct DefaultStatusNotificationHandler;

impl DefaultStatusNotificationHandler {
    /// Acknowledges every report.
    pub fn handle(&self, _request: StatusNotificationRequest) -> (r: Result<
        StatusNotificationResponse,
        OcppResponseError,
    >)
        ensures
            r is Ok,
    {
        Ok(StatusNotificationResponse {  })
    }
}

} // verus!
