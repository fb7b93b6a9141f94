//! The dispatcher: it decodes one frame at a time, lets the handler of the
//! call's action answer, and frames the answer under the call's id. The
//! embedder's handlers run outside this library, so the dispatcher works in
//! two steps: the first decodes and either answers at once or names the call
//! that a registered handler has to see, the second frames what that handler
//! returned.

use crate::codec::{
    decoded_frame, decoded_text, details_object, error_elements, lemma_action_names_differ,
    lemma_call_round_trip, result_elements, Action, DecodeErrorView, MessageView, OcppRequest, OcppRequestMessage,
    OcppResponseMessage, RequestView, ResponseView, CALL, CALL_RESULT,
};
use crate::error::{ErrorView, OcppResponseError};
use crate::json::{array_text, json_array, json_quote, no_line_break, ElementView};
use crate::messages::boot_notification::{
    boot_notification_fault, boot_notification_response_json, BootNotificationResponse, BootNotificationResponseView, DefaultBootNotificationHandler,
    RegistrationStatus, DEFAULT_INTERVAL,
};
use crate::messages::clock_text;
use crate::messages::heartbeat::{
    heartbeat_response_json, DefaultHeartbeatHandler, HeartbeatResponse,
};
use crate::messages::status_notification::{
    status_notification_fault, DefaultStatusNotificationHandler, StatusNotificationResponse,
};
use crate::text::decimal_text;
use vstd::prelude::*;

verus! {

/// What a handler returned for a call, tagged by the call's action.
pub enum Outcome {
    StatusNotification(Result<StatusNotificationResponse, OcppResponseError>),
    BootNotification(Result<BootNotificationResponse, OcppResponseError>),
    Heartbeat(Result<HeartbeatResponse, OcppResponseError>),
}

/// What a handler returned, in contracts.
pub enum OutcomeView {
    StatusNotification(Result<(), ErrorView>),
    BootNotification(Result<BootNotificationResponseView, ErrorView>),
    Heartbeat(Result<Seq<char>, ErrorView>),
}

impl View for Outcome {
    type V = OutcomeView;

    open spec fn view(&self) -> OutcomeView {
        match self {
            Outcome::StatusNotification(r) => OutcomeView::StatusNotification(
                match r {
                    Ok(_) => Ok(()),
                    Err(e) => Err(e@),
                },
            ),
            Outcome::BootNotification(r) => OutcomeView::BootNotification(
                match r {
                    Ok(response) => Ok(response@),
                    Err(e) => Err(e@),
                },
            ),
            Outcome::Heartbeat(r) => OutcomeView::Heartbeat(
                match r {
                    Ok(response) => Ok(response@),
                    Err(e) => Err(e@),
                },
            ),
        }
    }
}

impl OutcomeView {
    /// The action whose handler returned this.
    pub open spec fn action(self) -> Action {
        match self {
            OutcomeView::StatusNotification(_) => Action::StatusNotification,
            OutcomeView::BootNotification(_) => Action::BootNotification,
            OutcomeView::Heartbeat(_) => Action::Heartbeat,
        }
    }

    /// The answer that goes on the wire: the handler's result under the
    /// action's tag, or the CallError that reports the handler's error.
    pub open spec fn answer(self) -> ResponseView {
        match self {
            OutcomeView::StatusNotification(Ok(_)) => ResponseView::StatusNotification,
            OutcomeView::BootNotification(Ok(response)) => ResponseView::BootNotification(
                response,
            ),
            OutcomeView::Heartbeat(Ok(current_time)) => ResponseView::Heartbeat(current_time),
            OutcomeView::StatusNotification(Err(e)) => e.call_error(),
            OutcomeView::BootNotification(Err(e)) => e.call_error(),
            OutcomeView::Heartbeat(Err(e)) => e.call_error(),
        }
    }
}

/// What the built-in handler of `action` returns when the clock reads
/// `current_time`.
pub open spec fn default_outcome(action: Action, current_time: Seq<char>) -> OutcomeView {
    match action {
        Action::StatusNotification => OutcomeView::StatusNotification(Ok(())),
        Action::BootNotification => OutcomeView::BootNotification(
            Ok(
                BootNotificationResponseView {
                    current_time,
                    interval: DEFAULT_INTERVAL,
                    status: RegistrationStatus::Accepted,
                },
            ),
        ),
        Action::Heartbeat => OutcomeView::Heartbeat(Ok(current_time)),
    }
}

/// The error that is reported where an answer cannot be written.
pub open spec fn unwritable() -> ResponseView {
    ErrorView::InternalError.call_error()
}

/// The elements of the envelope that answers the call `uuid` with `answer`:
/// those of the answer itself or, where its payload cannot be written, those
/// of an InternalError.
pub open spec fn reply_elements(answer: ResponseView, uuid: Seq<char>) -> Seq<Seq<char>> {
    match answer.elements(CALL_RESULT, uuid) {
        Ok(elements) => elements,
        Err(_) => unwritable().elements(CALL_RESULT, uuid)->Ok_0,
    }
}

/// The text of the envelope that answers the call `uuid` with `answer`.
pub open spec fn reply_text(answer: ResponseView, uuid: Seq<char>) -> Seq<char> {
    array_text(reply_elements(answer, uuid))
}

/// What the dispatcher does with one frame.
pub enum Step {
    /// The frame is no call that could be answered: nothing is sent.
    Discard,
    /// The text to send back to the station.
    Reply(String),
    /// The call that the registered handler of its action has to answer.
    Ask(OcppRequest),
}

/// A step in contracts.
pub enum StepView {
    Discard,
    Reply(Seq<char>),
    Ask(RequestView),
}

impl View for Step {
    type V = StepView;

    open spec fn view(&self) -> StepView {
        match self {
            Step::Discard => StepView::Discard,
            Step::Reply(text) => StepView::Reply(text@),
            Step::Ask(request) => StepView::Ask(request@),
        }
    }
}

/// How far one call got: its answer, or the payload that a registered handler
/// has to see.
pub enum Progress {
    Answer(OcppResponseMessage),
    Pending(OcppRequestMessage),
}

/// Progress in contracts.
pub enum ProgressView {
    Answer(ResponseView),
    Pending(MessageView),
}

impl View for Progress {
    type V = ProgressView;

    open spec fn view(&self) -> ProgressView {
        match self {
            Progress::Answer(answer) => ProgressView::Answer(answer@),
            Progress::Pending(payload) => ProgressView::Pending(payload@),
        }
    }
}

/// The dispatcher's configuration: for which actions the embedder registered
/// a handler of its own. It is fixed before the server starts.
#[derive(Clone, Copy, Debug, PartialEq, Eq, Structural)]
pub struct Controller {
    pub heartbeat_handler: bool,
    pub boot_notification_handler: bool,
    pub status_notification_handler: bool,
}

impl Controller {
    /// Whether the embedder registered a handler for `action`.
    pub open spec fn registered(self, action: Action) -> bool {
        match action {
            Action::StatusNotification => self.status_notification_handler,
            Action::BootNotification => self.boot_notification_handler,
            Action::Heartbeat => self.heartbeat_handler,
        }
    }

    /// Whether a call of `action` is answered here with a reading of the
    /// clock: no handler is registered for it, and the built-in answer holds
    /// the time.
    pub open spec fn reads_clock(self, action: Action) -> bool {
        !self.registered(action) && action != Action::StatusNotification
    }

    /// How far a call with the given payload gets here, given the reading of
    /// the clock that a built-in handler would see.
    pub open spec fn progress(self, payload: MessageView, current_time: Seq<char>) -> ProgressView {
        if self.registered(payload.action()) {
            ProgressView::Pending(payload)
        } else {
            ProgressView::Answer(default_outcome(payload.action(), current_time).answer())
        }
    }

    /// What the dispatcher does with the outcome of decoding, given the
    /// reading of the clock that a built-in handler would see.
    pub open spec fn step(
        self,
        decoded: Result<RequestView, DecodeErrorView>,
        current_time: Seq<char>,
    ) -> StepView {
        match decoded {
            Err(e) => match e.uuid {
                None => StepView::Discard,
                Some(uuid) => StepView::Reply(reply_text(e.error.call_error(), uuid)),
            },
            Ok(request) => if self.registered(request.payload.action()) {
                StepView::Ask(request)
            } else {
                StepView::Reply(
                    reply_text(
                        default_outcome(request.payload.action(), current_time).answer(),
                        request.uuid,
                    ),
                )
            },
        }
    }

    /// A dispatcher with the given registrations.
    pub fn new(
        heartbeat_handler: bool,
        boot_notification_handler: bool,
        status_notification_handler: bool,
    ) -> (r: Controller)
        ensures
            r == (Controller {
                heartbeat_handler,
                boot_notification_handler,
                status_notification_handler,
            }),
    {
        Controller { heartbeat_handler, boot_notification_handler, status_notification_handler }
    }

    /// Whether the embedder registered a handler for `action`.
    pub fn has_handler(&self, action: Action) -> (r: bool)
        ensures
            r == self.registered(action),
    {
        match action {
            Action::StatusNotification => self.status_notification_handler,
            Action::BootNotification => self.boot_notification_handler,
            Action::Heartbeat => self.heartbeat_handler,
        }
    }

    /// Turns what a handler returned into the answer that goes on the wire.
    pub fn conclude(outcome: Outcome) -> (r: OcppResponseMessage)
        ensures
            r@ == outcome@.answer(),
    {
        match outcome {
            Outcome::StatusNotification(Ok(response)) => OcppResponseMessage::StatusNotification(
                response,
            ),
            Outcome::BootNotification(Ok(response)) => OcppResponseMessage::BootNotification(
                response,
            ),
            Outcome::Heartbeat(Ok(response)) => OcppResponseMessage::Heartbeat(response),
            Outcome::StatusNotification(Err(error)) => error.into_ocpp_response(),
            Outcome::BootNotification(Err(error)) => error.into_ocpp_response(),
            Outcome::Heartbeat(Err(error)) => error.into_ocpp_response(),
        }
    }

    /// Lets the handler of the payload's action answer. Where the embedder
    /// registered one, the payload is handed back for it; else the built-in
    /// handler answers here. Where its answer holds the time, the time is a
    /// reading of the clock: an RFC 3339 text in UTC that can be written.
    pub fn process(&self, msg: OcppRequestMessage) -> (r: Progress)
        ensures
            exists|current_time: Seq<char>|
                r@ == #[trigger] self.progress(msg@, current_time) && (self.reads_clock(
                    msg@.action(),
                ) ==> clock_text(current_time)),
    {
        if self.has_handler(msg.action()) {
            let pending = Progress::Pending(msg);
            assert(pending@ == self.progress(msg@, Seq::<char>::empty()));
            return pending;
        }
        let outcome = match msg {
            OcppRequestMessage::StatusNotification(request) => Outcome::StatusNotification(
                DefaultStatusNotificationHandler.handle(request),
            ),
            OcppRequestMessage::BootNotification(request) => Outcome::BootNotification(
                DefaultBootNotificationHandler.handle(request),
            ),
            OcppRequestMessage::Heartbeat(request) => Outcome::Heartbeat(
                DefaultHeartbeatHandler.handle(request),
            ),
        };
        let ghost current_time = match outcome@ {
            OutcomeView::BootNotification(Ok(response)) => response.current_time,
            OutcomeView::Heartbeat(Ok(current_time)) => current_time,
            _ => Seq::<char>::empty(),
        };
        let answer = Progress::Answer(Self::conclude(outcome));
        assert(answer@ == self.progress(msg@, current_time));
        answer
    }

    /// Frames `answer` under the id of the call. An answer whose payload
    /// cannot be written is replaced by an InternalError, so that every call
    /// gets its one envelope.
    pub fn reply(uuid: &str, answer: &OcppResponseMessage) -> (r: String)
        ensures
            r@ == reply_text(answer@, uuid@),
            no_line_break(r@),
    {
        match answer.encode(uuid) {
            Ok(text) => text,
            Err(_) => {
                let fallback = OcppResponseError::InternalError.into_ocpp_response();
                match fallback.encode(uuid) {
                    Ok(text) => text,
                    Err(_) => String::new(),
                }
            },
        }
    }

    /// Frames what a registered handler returned for the call `uuid`.
    pub fn finish(uuid: &str, outcome: Outcome) -> (r: String)
        ensures
            r@ == reply_text(outcome@.answer(), uuid@),
            no_line_break(r@),
    {
        let answer = Self::conclude(outcome);
        Self::reply(uuid, &answer)
    }

    /// Handles one frame. A text that is no call is discarded, unless the id
    /// of the call could be read: then the error is reported under that id.
    /// A call is answered at once by the built-in handler of its action,
    /// unless the embedder registered a handler: then the call is handed back
    /// for it. Where the built-in answer holds the time, the time is a
    /// reading of the clock: an RFC 3339 text in UTC that can be written. A
    /// reply holds no line break.
    pub fn handle_message(&self, message: &str) -> (r: Step)
        ensures
            exists|current_time: Seq<char>|
                r@ == #[trigger] self.step(decoded_text(message@), current_time) && (
                decoded_text(message@) matches Ok(request) && self.reads_clock(
                    request.payload.action(),
                ) ==> clock_text(current_time)),
            r matches Step::Reply(text) ==> no_line_break(text@),
    {
        match OcppRequest::deserialize(message) {
            Err(e) => {
                let step = match e.uuid {
                    None => Step::Discard,
                    Some(uuid) => {
                        let answer = e.error.into_ocpp_response();
                        Step::Reply(Self::reply(uuid.as_str(), &answer))
                    },
                };
                assert(step@ == self.step(decoded_text(message@), Seq::<char>::empty()));
                step
            },
            Ok(request) => {
                let ghost call = request@;
                let OcppRequest { payload, uuid } = request;
                let progress = self.process(payload);
                let ghost current_time = choose|current_time: Seq<char>|
                    progress@ == #[trigger] self.progress(call.payload, current_time) && (
                    self.reads_clock(call.payload.action()) ==> clock_text(current_time));
                match progress {
                    Progress::Pending(payload) => {
                        let step = Step::Ask(OcppRequest { payload, uuid });
                        assert(step@ == self.step(decoded_text(message@), current_time));
                        step
                    },
                    Progress::Answer(answer) => {
                        let step = Step::Reply(Self::reply(uuid.as_str(), &answer));
                        assert(step@ == self.step(decoded_text(message@), current_time));
                        step
                    },
                }
            },
        }
    }
}

/// A call without a registered handler is answered with the result of its
/// action, never with an error: the envelope holds the number 3, the id of
/// the call, the action and the payload that the built-in handler gave, as
/// `rust_ocpp` writes it. `current_time` stands for the reading of the clock
/// where the answer holds one.
pub proof fn lemma_built_in_answer_is_result(
    action: Action,
    current_time: Seq<char>,
    uuid: Seq<char>,
)
    requires
        action != Action::StatusNotification ==> clock_text(current_time),
    ensures
        default_outcome(action, current_time).answer().is_result(),
        default_outcome(action, current_time).answer().payload_json() is Ok,
        reply_elements(default_outcome(action, current_time).answer(), uuid)
            == result_elements(
            CALL_RESULT,
            json_quote(uuid),
            json_quote(action.name()),
            default_outcome(action, current_time).answer().payload_json()->Ok_0,
        ),
        action == Action::Heartbeat ==> default_outcome(
            action,
            current_time,
        ).answer().payload_json() == heartbeat_response_json(
            current_time,
        ),
        action == Action::BootNotification ==> default_outcome(
            action,
            current_time,
        ).answer().payload_json()
            == boot_notification_response_json(
            current_time,
            DEFAULT_INTERVAL,
            RegistrationStatus::Accepted,
        ),
{
}

/// Every answer is framed under the id of its call: the envelope has four
/// elements or five, and the second is the id.
pub proof fn lemma_reply_names_call(answer: ResponseView, uuid: Seq<char>)
    ensures
        reply_elements(answer, uuid).len() >= 4,
        reply_elements(answer, uuid)[1] == json_quote(uuid),
{
}

/// One call, one envelope. Whatever the registrations and the clock, a call
/// that decodes is either answered at once, in an envelope whose second
/// element is the call's id, or handed back under its id for the registered
/// handler, and what that handler returns is framed under the same id. An
/// error that can be reported is reported under the id of the offending call.
/// Nothing is sent for any other text.
pub proof fn lemma_one_envelope_per_call(
    controller: Controller,
    decoded: Result<RequestView, DecodeErrorView>,
    current_time: Seq<char>,
    outcome: OutcomeView,
)
    ensures
        match decoded {
            Ok(request) => match controller.step(decoded, current_time) {
                StepView::Reply(text) => {
                    let answer = default_outcome(request.payload.action(), current_time).answer();
                    &&& !controller.registered(request.payload.action())
                    &&& text == array_text(reply_elements(answer, request.uuid))
                    &&& reply_elements(answer, request.uuid)[1] == json_quote(
                        request.uuid,
                    )
                },
                StepView::Ask(asked) => {
                    &&& controller.registered(request.payload.action())
                    &&& asked == request
                    &&& reply_elements(outcome.answer(), asked.uuid)[1] == json_quote(
                        request.uuid,
                    )
                },
                StepView::Discard => false,
            },
            Err(e) => match e.uuid {
                Some(uuid) => controller.step(decoded, current_time) == StepView::Reply(
                    reply_text(e.error.call_error(), uuid),
                ) && reply_elements(e.error.call_error(), uuid)[1] == json_quote(
                    uuid,
                ),
                None => controller.step(decoded, current_time) == StepView::Discard,
            },
        },
{
}

/// A call without a registered handler gets the built-in answer: an envelope
/// of the number 3, the call's id, the action and the payload that
/// `rust_ocpp` writes for the built-in answer. This holds of every envelope
/// that frames such a call, whatever the id: the number 2, the id, the name
/// of the action and a payload that the schema of the action accepts.
/// `current_time` stands for the reading of the clock where the answer holds
/// one.
pub proof fn lemma_built_in_reply(
    controller: Controller,
    frame: Seq<ElementView>,
    action: Action,
    uuid: Seq<char>,
    current_time: Seq<char>,
)
    requires
        frame.len() >= 4,
        frame[0].0 == decimal_text(CALL as nat),
        frame[1].1 == Some(uuid),
        frame[2].1 == Some(action.name()),
        action == Action::BootNotification
            ==> boot_notification_fault(frame[3].0) is None,
        action == Action::StatusNotification
            ==> status_notification_fault(frame[3].0)
            is None,
        !controller.registered(action),
        action != Action::StatusNotification ==> clock_text(current_time),
    ensures
        default_outcome(action, current_time).answer().payload_json() is Ok,
        controller.step(decoded_frame(frame), current_time) == StepView::Reply(
            array_text(
                result_elements(
                    CALL_RESULT,
                    json_quote(uuid),
                    json_quote(action.name()),
                    default_outcome(action, current_time).answer().payload_json()->Ok_0,
                ),
            ),
        ),
{
    lemma_action_names_differ();
    lemma_call_round_trip(frame, action, uuid, frame[3].0);
    lemma_built_in_answer_is_result(action, current_time, uuid);
}

/// A call of an action that is not handled is answered with a NotSupported
/// error under its id, whatever the registrations and the payload: an
/// envelope of the number 4, the id, the error code, its description and the
/// details, which name the action. No handler is asked.
pub proof fn lemma_unknown_action_reply(
    controller: Controller,
    frame: Seq<ElementView>,
    uuid: Seq<char>,
    action: Seq<char>,
    current_time: Seq<char>,
)
    requires
        frame.len() >= 3,
        frame[0].0 == decimal_text(CALL as nat),
        frame[1].1 == Some(uuid),
        frame[2].1 == Some(action),
        action != Action::BootNotification.name(),
        action != Action::Heartbeat.name(),
        action != Action::StatusNotification.name(),
    ensures
        controller.step(decoded_frame(frame), current_time) == StepView::Reply(
            array_text(
                error_elements(
                    json_quote(uuid),
                    json_quote("NotSupported"@),
                    json_quote(
                        "Requested Action is recognized but not supported by the receiver"@,
                    ),
                    details_object(Some("Unknown message type: '"@ + action + "'."@)),
                ),
            ),
        ),
{
}

/// Nothing is sent for a text that is no JSON array, or an array of fewer
/// than three elements: there is no id to answer under.
pub proof fn lemma_unreadable_is_discarded(
    controller: Controller,
    text: Seq<char>,
    current_time: Seq<char>,
)
    requires
        match json_array(text) {
            Ok(frame) => frame.len() < 3,
            Err(_) => true,
        },
    ensures
        controller.step(decoded_text(text), current_time) == StepView::Discard,
{
}

} // verus!
