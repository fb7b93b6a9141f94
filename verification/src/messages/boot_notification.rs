//! BootNotification: a station announces itself and is told whether it is
//! accepted and how often to send heartbeats.

use crate::error::OcppResponseError;
use crate::json::no_line_break;
use crate::messages::{clock_text, current_time};
use vstd::prelude::*;

verus! {

/// The payload of a BootNotification call, as the JSON text that the OCPP 1.6
/// schema accepted.
pub struct BootNotificationRequest {
    /// The payload object as compact JSON text.
    pub document: String,
}

impl View for BootNotificationRequest {
    type V = Seq<char>;

    open spec fn view(&self) -> Seq<char> {
        self.document@
    }
}

/// Whether the central system registers the station.
#[derive(Clone, Copy, Debug, PartialEq, Eq, Structural)]
pub enum RegistrationStatus {
    Accepted,
    Pending,
    Rejected,
}

/// The payload of the answer to a BootNotification call.
pub struct BootNotificationResponse {
    /// The central system's time, as RFC 3339 text in UTC.
    pub current_time: String,
    /// The heartbeat interval in seconds.
    pub interval: u32,
    /// Whether the station is registered.
    pub status: RegistrationStatus,
}

/// A BootNotification answer in contracts.
pub struct BootNotificationResponseView {
    pub current_time: Seq<char>,
    pub interval: u32,
    pub status: RegistrationStatus,
}

impl View for BootNotificationResponse {
    type V = BootNotificationResponseView;

    open spec fn view(&self) -> BootNotificationResponseView {
        BootNotificationResponseView {
            current_time: self.current_time@,
            interval: self.interval,
            status: self.status,
        }
    }
}

/// The heartbeat interval that the built-in handler grants, in seconds.
pub const DEFAULT_INTERVAL: u32 = 60;

/// What `rust_ocpp` and `serde_json` make of `payload` read as a
/// BootNotification request: `None` where the schema accepts it, else the
/// message of the error.
pub uninterp spec fn boot_notification_fault(payload: Seq<char>) -> Option<Seq<char>>;

/// What `rust_ocpp` and `serde_json` write for a BootNotification answer with
/// the given fields: the JSON text, or the message of the error.
pub uninterp spec fn boot_notification_response_json(
    current_time: Seq<char>,
    interval: u32,
    status: RegistrationStatus,
) -> Result<Seq<char>, Seq<char>>;

/// Calls `serde_json::from_str` for `rust_ocpp`'s `BootNotificationRequest`
/// and keeps only the error's message. The contract only names the outcome.
#[verifier::external_body]
pub(crate) fn check_boot_notification(payload: &str) -> (r: Option<String>)
    ensures
        match r {
            Some(message) => boot_notification_fault(payload@) == Some(message@),
            None => boot_notification_fault(payload@) == None::<Seq<char>>,
        },
{
    serde_json::from_str::<rust_ocpp::v1_6::messages::boot_notification::BootNotificationRequest>(
        payload,
    ).err().map(|e| e.to_string())
}

/// Parses the time with `chrono`'s `FromStr` for `DateTime<Utc>`, builds
/// `rust_ocpp`'s `BootNotificationResponse` and calls `serde_json::to_string`
/// on it. An error of either call comes back as its message. The contract
/// names the outcome and claims that a written text holds no line break:
/// `serde_json` writes compact JSON, with every control character of a string
/// escaped.
#[verifier::external_body]
pub(crate) fn write_boot_notification_response(
    current_time: &str,
    interval: u32,
    status: RegistrationStatus,
) -> (r: Result<String, String>)
    ensures
        r matches Ok(json) ==> no_line_break(json@),
        match r {
            Ok(json) => boot_notification_response_json(current_time@, interval, status) == Ok::<
                Seq<char>,
                Seq<char>,
            >(json@),
            Err(message) => boot_notification_response_json(current_time@, interval, status)
                == Err::<Seq<char>, Seq<char>>(message@),
        },
{
    let current_time = current_time.parse::<chrono::DateTime<chrono::Utc>>().map_err(
        |e| e.to_string(),
    )?;
    let status = match status {
        RegistrationStatus::Accepted => rust_ocpp::v1_6::types::RegistrationStatus::Accepted,
        RegistrationStatus::Pending => rust_ocpp::v1_6::types::RegistrationStatus::Pending,
        RegistrationStatus::Rejected => rust_ocpp::v1_6::types::RegistrationStatus::Rejected,
    };
    let response = rust_ocpp::v1_6::messages::boot_notification::BootNotificationResponse {
        current_time,
        interval,
        status,
    };
    serde_json::to_string(&response).map_err(|e| e.to_string())
}

/// The handler used for BootNotification where the embedder registered none.
#[derive(Clone, Copy)]
pub struct DefaultBootNotificationHandler;

impl DefaultBootNotificationHandler {
    /// The answer for a given reading of the clock: the station is accepted
    /// and asked for a heartbeat every `DEFAULT_INTERVAL` seconds.
    pub fn answer(current_time: String) -> (r: BootNotificationResponse)
        ensures
            r@ == (BootNotificationResponseView {
                current_time: current_time@,
                interval: DEFAULT_INTERVAL,
                status: RegistrationStatus::Accepted,
            }),
    {
        BootNotificationResponse {
            current_time,
            interval: DEFAULT_INTERVAL,
            status: RegistrationStatus::Accepted,
        }
    }

    /// Accepts every station, whatever it sent and whatever the clock says,
    /// and tells it the current time: an RFC 3339 text in UTC that can be
    /// written.
    pub fn handle(&self, _request: BootNotificationRequest) -> (r: Result<
        BootNotificationResponse,
        OcppResponseError,
    >)
        ensures
            r matches Ok(response) && response.interval == DEFAULT_INTERVAL && response.status
                == RegistrationStatus::Accepted && clock_text(response.current_time@),
    {
        Ok(Self::answer(current_time()))
    }
}

} // verus!
