//! The OCPP envelope: a JSON array that frames a call, its result or its
//! error. Decoding projects the array by position and checks the payload
//! against the schema of its action; encoding frames the answer.

use crate::error::{ErrorView, OcppResponseError};
use crate::json::{
    array_text, elements_view, json_array, json_quote, lemma_array_text_no_line_break,
    lemma_json_quote_no_line_break,
    no_line_break, parse_array, quote, texts, write_array, Element, ElementView,
};
use crate::messages::boot_notification::{
    boot_notification_fault, boot_notification_response_json, check_boot_notification,
    write_boot_notification_response, BootNotificationRequest, BootNotificationResponse,
    BootNotificationResponseView,
};
use crate::messages::heartbeat::{
    heartbeat_response_json, write_heartbeat_response, HeartbeatRequest, HeartbeatResponse,
};
use crate::messages::status_notification::{
    check_status_notification, status_notification_fault, StatusNotificationRequest,
    StatusNotificationResponse,
};
use crate::text::{decimal, decimal_text, lemma_decimal_text_digits, reads};
use vstd::prelude::*;

verus! {

/// The message type id of a Call.
pub const CALL: u32 = 2;

/// The message type id of a CallResult.
pub const CALL_RESULT: u32 = 3;

/// The message type id of a CallError.
pub const CALL_ERROR: u32 = 4;

/// The actions that the central system handles.
#[derive(Clone, Copy, Debug, PartialEq, Eq, Structural)]
pub enum Action {
    BootNotification,
    Heartbeat,
    StatusNotification,
}

impl Action {
    /// The action's name on the wire.
    pub open spec fn name(self) -> Seq<char> {
        match self {
            Action::BootNotification => "BootNotification"@,
            Action::Heartbeat => "Heartbeat"@,
            Action::StatusNotification => "StatusNotification"@,
        }
    }

    /// The name of the action's request type, as error messages give it.
    pub open spec fn request_name(self) -> Seq<char> {
        match self {
            Action::BootNotification => "BootNotificationRequest"@,
            Action::Heartbeat => "HeartbeatRequest"@,
            Action::StatusNotification => "StatusNotificationRequest"@,
        }
    }

    /// The action's name on the wire.
    pub fn as_str(&self) -> (r: &'static str)
        ensures
            r@ == self.name(),
    {
        match self {
            Action::BootNotification => "BootNotification",
            Action::Heartbeat => "Heartbeat",
            Action::StatusNotification => "StatusNotification",
        }
    }
}

/// The payload of a call, tagged by its action.
pub enum OcppRequestMessage {
    StatusNotification(StatusNotificationRequest),
    BootNotification(BootNotificationRequest),
    Heartbeat(HeartbeatRequest),
}

/// The payload of a call in contracts: the action and, where the action has a
/// payload, its JSON text.
pub enum MessageView {
    StatusNotification(Seq<char>),
    BootNotification(Seq<char>),
    Heartbeat,
}

impl MessageView {
    /// The action that the payload belongs to.
    pub open spec fn action(self) -> Action {
        match self {
            MessageView::StatusNotification(_) => Action::StatusNotification,
            MessageView::BootNotification(_) => Action::BootNotification,
            MessageView::Heartbeat => Action::Heartbeat,
        }
    }

    /// The payload of `action` that holds `document`. A Heartbeat holds none.
    pub open spec fn of(action: Action, document: Seq<char>) -> MessageView {
        match action {
            Action::StatusNotification => MessageView::StatusNotification(document),
            Action::BootNotification => MessageView::BootNotification(document),
            Action::Heartbeat => MessageView::Heartbeat,
        }
    }
}

impl View for OcppRequestMessage {
    type V = MessageView;

    open spec fn view(&self) -> MessageView {
        match self {
            OcppRequestMessage::StatusNotification(request) => MessageView::StatusNotification(
                request@,
            ),
            OcppRequestMessage::BootNotification(request) => MessageView::BootNotification(
                request@,
            ),
            OcppRequestMessage::Heartbeat(_) => MessageView::Heartbeat,
        }
    }
}

impl OcppRequestMessage {
    /// The action that the payload belongs to.
    pub fn action(&self) -> (r: Action)
        ensures
            r == self@.action(),
    {
        match self {
            OcppRequestMessage::StatusNotification(_) => Action::StatusNotification,
            OcppRequestMessage::BootNotification(_) => Action::BootNotification,
            OcppRequestMessage::Heartbeat(_) => Action::Heartbeat,
        }
    }
}

/// A decoded call.
pub struct OcppRequest {
    pub payload: OcppRequestMessage,
    pub uuid: String,
}

/// A decoded call in contracts.
pub struct RequestView {
    pub payload: MessageView,
    pub uuid: Seq<char>,
}

impl View for OcppRequest {
    type V = RequestView;

    open spec fn view(&self) -> RequestView {
        RequestView { payload: self.payload@, uuid: self.uuid@ }
    }
}

/// Why a text is no call, and the call's id where it could be read: an error
/// can be reported to the station only under that id.
pub struct DecodeError {
    pub uuid: Option<String>,
    pub error: OcppResponseError,
}

/// A decoding failure in contracts.
pub struct DecodeErrorView {
    pub uuid: Option<Seq<char>>,
    pub error: ErrorView,
}

impl View for DecodeError {
    type V = DecodeErrorView;

    open spec fn view(&self) -> DecodeErrorView {
        DecodeErrorView {
            uuid: match self.uuid {
                Some(uuid) => Some(uuid@),
                None => None,
            },
            error: self.error@,
        }
    }
}

/// The outcome of decoding, in contracts.
pub open spec fn decoded_view(r: Result<OcppRequest, DecodeError>) -> Result<
    RequestView,
    DecodeErrorView,
> {
    match r {
        Ok(request) => Ok(request@),
        Err(e) => Err(e@),
    }
}

/// A malformed envelope or payload, reported under `uuid` if there is one.
pub open spec fn malformed(uuid: Option<Seq<char>>, details: Seq<char>) -> Result<
    RequestView,
    DecodeErrorView,
> {
    Err(DecodeErrorView { uuid, error: ErrorView::InvalidRequestFormat { details } })
}

/// What a payload becomes once the schema of its action has been asked:
/// the call, if the schema found no fault, else a malformed-payload error
/// that embeds the fault.
pub open spec fn settled(
    uuid: Seq<char>,
    action: Action,
    document: Seq<char>,
    fault: Option<Seq<char>>,
) -> Result<RequestView, DecodeErrorView> {
    match fault {
        None => Ok(RequestView { payload: MessageView::of(action, document), uuid }),
        Some(message) => malformed(
            Some(uuid),
            "Failed to deserialize "@ + action.request_name() + ": "@ + message,
        ),
    }
}

/// What a call with the given id, action name and payload decodes to.
pub open spec fn decoded_call(uuid: Seq<char>, action: Seq<char>, payload: Option<Seq<char>>)
    -> Result<RequestView, DecodeErrorView> {
    if action == Action::BootNotification.name() {
        match payload {
            None => malformed(Some(uuid), "Missing payload for BootNotification."@),
            Some(document) => settled(
                uuid,
                Action::BootNotification,
                document,
                boot_notification_fault(document),
            ),
        }
    } else if action == Action::Heartbeat.name() {
        Ok(RequestView { payload: MessageView::Heartbeat, uuid })
    } else if action == Action::StatusNotification.name() {
        match payload {
            None => malformed(Some(uuid), "Missing payload for StatusNotification."@),
            Some(document) => settled(
                uuid,
                Action::StatusNotification,
                document,
                status_notification_fault(document),
            ),
        }
    } else {
        Err(
            DecodeErrorView {
                uuid: Some(uuid),
                error: ErrorView::UnsupportedMessageType {
                    details: "Unknown message type: '"@ + action + "'."@,
                },
            },
        )
    }
}

/// What an array of JSON elements decodes to. The array needs three elements
/// at least; the first is the number 2, the second the id and the third the
/// action name, both strings; the fourth, if there is one, is the payload.
/// Further elements are ignored.
pub open spec fn decoded_frame(frame: Seq<ElementView>) -> Result<RequestView, DecodeErrorView> {
    if frame.len() < 3 {
        malformed(
            None,
            "Invalid message format: expected at least 3 elements, found "@ + decimal_text(
                frame.len(),
            ) + "."@,
        )
    } else if frame[0].0 != decimal_text(CALL as nat) {
        malformed(None, "Invalid message type id: expected 2."@)
    } else {
        match frame[1].1 {
            None => malformed(None, "Invalid UUID: expected a string but found none."@),
            Some(uuid) => match frame[2].1 {
                None => malformed(
                    Some(uuid),
                    "Invalid message type: expected a string but found none."@,
                ),
                Some(action) => decoded_call(
                    uuid,
                    action,
                    if frame.len() > 3 {
                        Some(frame[3].0)
                    } else {
                        None
                    },
                ),
            },
        }
    }
}

/// What a text decodes to: it is read as a JSON array, and the array as a
/// call.
pub open spec fn decoded_text(text: Seq<char>) -> Result<RequestView, DecodeErrorView> {
    match json_array(text) {
        Err(message) => malformed(None, message),
        Ok(frame) => decoded_frame(frame),
    }
}

/// A malformed envelope or payload, reported under `uuid` if there is one.
fn reject(uuid: Option<String>, details: String) -> (r: Result<OcppRequest, DecodeError>)
    ensures
        decoded_view(r) == malformed(
            match uuid {
                Some(uuid) => Some(uuid@),
                None => None,
            },
            details@,
        ),
{
    Err(DecodeError { uuid, error: OcppResponseError::InvalidRequestFormat { details } })
}

impl OcppRequest {
    /// Makes the call out of a payload for which the schema of its action has
    /// been asked. `fault` is what the schema said: nothing, or why the
    /// payload is not one of this action.
    pub fn settle(uuid: String, action: Action, document: String, fault: Option<String>) -> (r:
        Result<OcppRequest, DecodeError>)
        ensures
            decoded_view(r) == settled(
                uuid@,
                action,
                document@,
                match fault {
                    Some(message) => Some(message@),
                    None => None,
                },
            ),
    {
        match fault {
            None => {
                let payload = match action {
                    Action::StatusNotification => OcppRequestMessage::StatusNotification(
                        StatusNotificationRequest { document },
                    ),
                    Action::BootNotification => OcppRequestMessage::BootNotification(
                        BootNotificationRequest { document },
                    ),
                    Action::Heartbeat => OcppRequestMessage::Heartbeat(HeartbeatRequest {  }),
                };
                Ok(OcppRequest { payload, uuid })
            },
            Some(message) => {
                let mut details = String::from_str("Failed to deserialize ");
                details.append(
                    match action {
                        Action::BootNotification => "BootNotificationRequest",
                        Action::Heartbeat => "HeartbeatRequest",
                        Action::StatusNotification => "StatusNotificationRequest",
                    },
                );
                details.append(": ");
                details.append(message.as_str());
                reject(Some(uuid), details)
            },
        }
    }

    /// Decodes a call from its id, its action name and its payload, if it has
    /// one. An action that is not handled is refused by name; a payload is
    /// checked against the schema of its action.
    pub fn from_parts(uuid: String, action: &str, payload: Option<&str>) -> (r: Result<
        OcppRequest,
        DecodeError,
    >)
        ensures
            decoded_view(r) == decoded_call(
                uuid@,
                action@,
                match payload {
                    Some(document) => Some(document@),
                    None => None,
                },
            ),
    {
        if reads(action, "BootNotification") {
            match payload {
                None => reject(
                    Some(uuid),
                    String::from_str("Missing payload for BootNotification."),
                ),
                Some(document) => {
                    let fault = check_boot_notification(document);
                    Self::settle(uuid, Action::BootNotification, String::from_str(document), fault)
                },
            }
        } else if reads(action, "Heartbeat") {
            Ok(
                OcppRequest {
                    payload: OcppRequestMessage::Heartbeat(HeartbeatRequest {  }),
                    uuid,
                },
            )
        } else if reads(action, "StatusNotification") {
            match payload {
                None => reject(
                    Some(uuid),
                    String::from_str("Missing payload for StatusNotification."),
                ),
                Some(document) => {
                    let fault = check_status_notification(document);
                    Self::settle(
                        uuid,
                        Action::StatusNotification,
                        String::from_str(document),
                        fault,
                    )
                },
            }
        } else {
            let mut details = String::from_str("Unknown message type: '");
            details.append(action);
            details.append("'.");
            Err(
                DecodeError {
                    uuid: Some(uuid),
                    error: OcppResponseError::UnsupportedMessageType { details },
                },
            )
        }
    }

    /// Decodes a call from the elements of its envelope.
    pub fn from_frame(frame: &Vec<Element>) -> (r: Result<OcppRequest, DecodeError>)
        ensures
            decoded_view(r) == decoded_frame(elements_view(frame@)),
    {
        if frame.len() < 3 {
            let mut details = String::from_str(
                "Invalid message format: expected at least 3 elements, found ",
            );
            details.append(decimal(frame.len() as u64).as_str());
            details.append(".");
            return reject(None, details);
        }
        if !reads(frame[0].json.as_str(), decimal(CALL as u64).as_str()) {
            return reject(None, String::from_str("Invalid message type id: expected 2."));
        }
        let uuid = match &frame[1].text {
            None => {
                return reject(
                    None,
                    String::from_str("Invalid UUID: expected a string but found none."),
                );
            },
            Some(uuid) => uuid.clone(),
        };
        match &frame[2].text {
            None => reject(
                Some(uuid),
                String::from_str("Invalid message type: expected a string but found none."),
            ),
            Some(action) => {
                let payload = if frame.len() > 3 {
                    Some(frame[3].json.as_str())
                } else {
                    None
                };
                Self::from_parts(uuid, action.as_str(), payload)
            },
        }
    }

    /// Decodes a call from the text of a frame.
    pub fn deserialize(text: &str) -> (r: Result<OcppRequest, DecodeError>)
        ensures
            decoded_view(r) == decoded_text(text@),
    {
        match parse_array(text) {
            Err(message) => reject(None, message),
            Ok(frame) => Self::from_frame(&frame),
        }
    }
}

/// An answer to a call: the result of its action, or an error.
pub enum OcppResponseMessage {
    StatusNotification(StatusNotificationResponse),
    BootNotification(BootNotificationResponse),
    Heartbeat(HeartbeatResponse),
    CallError { error_code: String, error_description: String, error_details: Option<String> },
}

/// An answer in contracts.
pub enum ResponseView {
    StatusNotification,
    BootNotification(BootNotificationResponseView),
    Heartbeat(Seq<char>),
    CallError {
        error_code: Seq<char>,
        error_description: Seq<char>,
        error_details: Option<Seq<char>>,
    },
}

impl View for OcppResponseMessage {
    type V = ResponseView;

    open spec fn view(&self) -> ResponseView {
        match self {
            OcppResponseMessage::StatusNotification(_) => ResponseView::StatusNotification,
            OcppResponseMessage::BootNotification(response) => ResponseView::BootNotification(
                response@,
            ),
            OcppResponseMessage::Heartbeat(response) => ResponseView::Heartbeat(response@),
            OcppResponseMessage::CallError {
                error_code,
                error_description,
                error_details,
            } => ResponseView::CallError {
                error_code: error_code@,
                error_description: error_description@,
                error_details: match error_details {
                    Some(details) => Some(details@),
                    None => None,
                },
            },
        }
    }
}

/// The JSON object that carries the details of an error: empty where the
/// error has none, else one member named `details` that holds them.
pub open spec fn details_object(details: Option<Seq<char>>) -> Seq<char> {
    match details {
        None => "{}"@,
        Some(details) => "{\"details\":"@ + json_quote(details) + "}"@,
    }
}

/// The elements of a CallResult, in order: the message type id, the id of the
/// call, the action and the payload.
pub open spec fn result_elements(
    message_type_id: u32,
    uuid: Seq<char>,
    action: Seq<char>,
    payload: Seq<char>,
) -> Seq<Seq<char>> {
    seq![decimal_text(message_type_id as nat), uuid, action, payload]
}

/// The elements of a CallError, in order: the number 4, the id of the call,
/// the error code, its description and the details.
pub open spec fn error_elements(
    uuid: Seq<char>,
    code: Seq<char>,
    description: Seq<char>,
    details: Seq<char>,
) -> Seq<Seq<char>> {
    seq![decimal_text(CALL_ERROR as nat), uuid, code, description, details]
}

impl ResponseView {
    /// Whether the answer is the result of an action.
    pub open spec fn is_result(self) -> bool {
        !(self is CallError)
    }

    /// The name of the action that the answer is the result of.
    pub open spec fn action_name(self) -> Seq<char>
        recommends
            self.is_result(),
    {
        match self {
            ResponseView::StatusNotification => Action::StatusNotification.name(),
            ResponseView::BootNotification(_) => Action::BootNotification.name(),
            _ => Action::Heartbeat.name(),
        }
    }

    /// The last element of the answer's envelope as JSON text: the payload of
    /// a result, or the details of an error. Writing a payload can fail.
    pub open spec fn payload_json(self) -> Result<Seq<char>, Seq<char>> {
        match self {
            ResponseView::StatusNotification => Ok("{}"@),
            ResponseView::BootNotification(response) => boot_notification_response_json(
                response.current_time,
                response.interval,
                response.status,
            ),
            ResponseView::Heartbeat(current_time) => heartbeat_response_json(current_time),
            ResponseView::CallError { error_details, .. } => Ok(details_object(error_details)),
        }
    }

    /// The elements of the answer's envelope as JSON texts, for the call with
    /// the given id. A result has four, led by `message_type_id`; an error has
    /// five, led by 4.
    pub open spec fn elements(self, message_type_id: u32, uuid: Seq<char>) -> Result<
        Seq<Seq<char>>,
        Seq<char>,
    > {
        match self.payload_json() {
            Err(message) => Err(message),
            Ok(payload) => Ok(
                match self {
                    ResponseView::CallError {
                        error_code,
                        error_description,
                        ..
                    } => error_elements(
                        json_quote(uuid),
                        json_quote(error_code),
                        json_quote(error_description),
                        payload,
                    ),
                    _ => result_elements(
                        message_type_id,
                        json_quote(uuid),
                        json_quote(self.action_name()),
                        payload,
                    ),
                },
            ),
        }
    }

    /// The text of the answer's envelope, or why it cannot be written.
    pub open spec fn wire(self, message_type_id: u32, uuid: Seq<char>) -> Result<
        Seq<char>,
        Seq<char>,
    > {
        match self.elements(message_type_id, uuid) {
            Err(message) => Err(message),
            Ok(elements) => Ok(array_text(elements)),
        }
    }
}

/// A written text or the message of a failure, in contracts.
pub open spec fn written_view(r: Result<String, String>) -> Result<Seq<char>, Seq<char>> {
    match r {
        Ok(text) => Ok(text@),
        Err(message) => Err(message@),
    }
}

/// Puts the four elements of a CallResult in order. Each argument but the
/// first is the element's JSON text.
pub fn result_frame(message_type_id: u32, uuid: String, action: String, payload: String) -> (r:
    Vec<String>)
    ensures
        texts(r@) == result_elements(message_type_id, uuid@, action@, payload@),
{
    let mut r: Vec<String> = Vec::new();
    r.push(decimal(message_type_id as u64));
    r.push(uuid);
    r.push(action);
    r.push(payload);
    assert(texts(r@) =~= result_elements(message_type_id, uuid@, action@, payload@));
    r
}

/// Puts the five elements of a CallError in order. Each argument is the
/// element's JSON text.
pub fn error_frame(uuid: String, code: String, description: String, details: String) -> (r: Vec<
    String,
>)
    ensures
        texts(r@) == error_elements(uuid@, code@, description@, details@),
{
    let mut r: Vec<String> = Vec::new();
    r.push(decimal(CALL_ERROR as u64));
    r.push(uuid);
    r.push(code);
    r.push(description);
    r.push(details);
    assert(texts(r@) =~= error_elements(uuid@, code@, description@, details@));
    r
}

/// Writes the JSON object that carries the details of an error.
fn write_details(details: &Option<String>) -> (r: String)
    ensures
        r@ == details_object(
            match details {
                Some(details) => Some(details@),
                None => None,
            },
        ),
        no_line_break(r@),
{
    proof {
        reveal_strlit("{}");
        reveal_strlit("{\"details\":");
        reveal_strlit("}");
    }
    match details {
        None => String::from_str("{}"),
        Some(details) => {
            proof {
                lemma_json_quote_no_line_break(details@);
            }
            let mut r = String::from_str("{\"details\":");
            r.append(quote(details.as_str()).as_str());
            r.append("}");
            r
        },
    }
}

impl OcppResponseMessage {
    /// Writes the last element of the answer's envelope: the payload of a
    /// result, or the details of an error.
    fn write_payload(&self) -> (r: Result<String, String>)
        ensures
            written_view(r) == self@.payload_json(),
            r matches Ok(text) ==> no_line_break(text@),
    {
        proof {
            reveal_strlit("{}");
        }
        match self {
            OcppResponseMessage::StatusNotification(_) => Ok(String::from_str("{}")),
            OcppResponseMessage::BootNotification(response) => write_boot_notification_response(
                response.current_time.as_str(),
                response.interval,
                response.status,
            ),
            OcppResponseMessage::Heartbeat(response) => write_heartbeat_response(
                response.current_time.as_str(),
            ),
            OcppResponseMessage::CallError { error_details, .. } => Ok(
                write_details(error_details),
            ),
        }
    }

    /// Writes the envelope of the answer to the call with the given id. A
    /// result is framed as `[message_type_id, uuid, action, payload]`, an
    /// error as `[4, uuid, code, description, details]`, the id given here
    /// notwithstanding. It fails where the payload cannot be written. What it
    /// writes holds no line break.
    pub fn serialize_with_params(&self, message_type_id: u32, uuid: &str) -> (r: Result<
        String,
        String,
    >)
        ensures
            written_view(r) == self@.wire(message_type_id, uuid@),
            r matches Ok(text) ==> no_line_break(text@),
    {
        let payload = match self.write_payload() {
            Err(message) => {
                return Err(message);
            },
            Ok(payload) => payload,
        };
        let frame = match self {
            OcppResponseMessage::CallError { error_code, error_description, .. } => error_frame(
                quote(uuid),
                quote(error_code.as_str()),
                quote(error_description.as_str()),
                payload,
            ),
            OcppResponseMessage::StatusNotification(_) => result_frame(
                message_type_id,
                quote(uuid),
                quote(Action::StatusNotification.as_str()),
                payload,
            ),
            OcppResponseMessage::BootNotification(_) => result_frame(
                message_type_id,
                quote(uuid),
                quote(Action::BootNotification.as_str()),
                payload,
            ),
            OcppResponseMessage::Heartbeat(_) => result_frame(
                message_type_id,
                quote(uuid),
                quote(Action::Heartbeat.as_str()),
                payload,
            ),
        };
        proof {
            lemma_decimal_text_digits(message_type_id as nat);
            lemma_decimal_text_digits(CALL_ERROR as nat);
            lemma_json_quote_no_line_break(uuid@);
            lemma_json_quote_no_line_break(self@.action_name());
            match self@ {
                ResponseView::CallError { error_code, error_description, .. } => {
                    lemma_json_quote_no_line_break(error_code);
                    lemma_json_quote_no_line_break(error_description);
                },
                _ => {},
            }
            assert forall|k: int| 0 <= k < frame@.len() implies no_line_break(
                #[trigger] texts(frame@)[k],
            ) by {}
            lemma_array_text_no_line_break(texts(frame@));
        }
        Ok(write_array(&frame))
    }

    /// Writes the envelope of the answer as a CallResult or a CallError,
    /// without a line break.
    pub fn encode(&self, uuid: &str) -> (r: Result<String, String>)
        ensures
            written_view(r) == self@.wire(CALL_RESULT, uuid@),
            r matches Ok(text) ==> no_line_break(text@),
    {
        self.serialize_with_params(CALL_RESULT, uuid)
    }
}

/// The names of the three actions differ from each other.
pub proof fn lemma_action_names_differ()
    ensures
        Action::BootNotification.name() != Action::Heartbeat.name(),
        Action::BootNotification.name() != Action::StatusNotification.name(),
        Action::Heartbeat.name() != Action::StatusNotification.name(),
{
    reveal_strlit("BootNotification");
    reveal_strlit("Heartbeat");
    reveal_strlit("StatusNotification");
    assert(Action::BootNotification.name().len() == 16);
    assert(Action::Heartbeat.name().len() == 9);
    assert(Action::StatusNotification.name().len() == 18);
}

/// The decoder is total on well-formed envelopes: an array of three elements
/// or more that starts with the number 2, followed by two strings, either
/// decodes to a call with that id, or fails with an error that is reported
/// under that id, as a malformed request or as an unsupported action.
pub proof fn lemma_decoder_total(frame: Seq<ElementView>)
    requires
        frame.len() >= 3,
        frame[0].0 == decimal_text(CALL as nat),
        frame[1].1 is Some,
        frame[2].1 is Some,
    ensures
        match decoded_frame(frame) {
            Ok(request) => request.uuid == frame[1].1->Some_0 && request.payload.action().name()
                == frame[2].1->Some_0,
            Err(e) => e.uuid == frame[1].1 && (e.error is InvalidRequestFormat
                || e.error is UnsupportedMessageType),
        },
{
}

/// Decoding undoes the framing of a call: an envelope that holds the number
/// 2, the id `uuid`, the name of `action` and a payload that the schema of
/// `action` accepts decodes to the call with that id, action and payload.
/// A Heartbeat carries no payload, so none is kept for it.
pub proof fn lemma_call_round_trip(
    frame: Seq<ElementView>,
    action: Action,
    uuid: Seq<char>,
    document: Seq<char>,
)
    requires
        frame.len() >= 4,
        frame[0].0 == decimal_text(CALL as nat),
        frame[1].1 == Some(uuid),
        frame[2].1 == Some(action.name()),
        frame[3].0 == document,
        action == Action::BootNotification ==> boot_notification_fault(document) is None,
        action == Action::StatusNotification ==> status_notification_fault(document) is None,
    ensures
        decoded_frame(frame) == Ok::<RequestView, DecodeErrorView>(
            RequestView { payload: MessageView::of(action, document), uuid },
        ),
{
    lemma_action_names_differ();
}

/// The envelope of an error: the number 4, the id of the call, the error's
/// code, its description and its details, in this order and nothing else,
/// whatever message type id is asked for. Writing it cannot fail.
pub proof fn lemma_call_error_elements(error: ErrorView, message_type_id: u32, uuid: Seq<char>)
    ensures
        error.call_error().elements(message_type_id, uuid) == Ok::<Seq<Seq<char>>, Seq<char>>(
            seq![
                decimal_text(CALL_ERROR as nat),
                json_quote(uuid),
                json_quote(error.code()),
                json_quote(error.description()),
                details_object(error.details()),
            ],
        ),
        error.call_error().wire(message_type_id, uuid) is Ok,
{
}

/// The envelope of a result: the message type id, the id of the call, the
/// action and the payload, in this order and nothing else.
pub proof fn lemma_call_result_elements(answer: ResponseView, message_type_id: u32, uuid: Seq<char>)
    requires
        answer.is_result(),
        answer.payload_json() is Ok,
    ensures
        answer.elements(message_type_id, uuid) == Ok::<Seq<Seq<char>>, Seq<char>>(
            seq![
                decimal_text(message_type_id as nat),
                json_quote(uuid),
                json_quote(answer.action_name()),
                answer.payload_json()->Ok_0,
            ],
        ),
{
}

} // verus!
