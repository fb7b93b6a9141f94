//! The errors that a handler or the codec reports for a call, and the
//! CallError that each of them becomes on the wire.

use crate::codec::{OcppResponseMessage, ResponseView};
use vstd::prelude::*;

verus! {

/// Why a call could not be answered with a result.
#[derive(Debug)]
pub enum OcppResponseError {
    /// Something unexpected happened.
    Generic,
    /// The envelope or the payload of the call is malformed.
    InvalidRequestFormat { details: String },
    /// The action of the call is not one that this system handles.
    UnsupportedMessageType { details: String },
    /// The system failed while it handled the call.
    InternalError,
}

/// What a handler returns.
pub type OcppResult<T> = Result<T, OcppResponseError>;

/// An error in contracts.
pub enum ErrorView {
    Generic,
    InvalidRequestFormat { details: Seq<char> },
    UnsupportedMessageType { details: Seq<char> },
    InternalError,
}

impl View for OcppResponseError {
    type V = ErrorView;

    open spec fn view(&self) -> ErrorView {
        match self {
            OcppResponseError::Generic => ErrorView::Generic,
            OcppResponseError::InvalidRequestFormat { details } => ErrorView::InvalidRequestFormat {
                details: details@,
            },
            OcppResponseError::UnsupportedMessageType {
                details,
            } => ErrorView::UnsupportedMessageType { details: details@ },
            OcppResponseError::InternalError => ErrorView::InternalError,
        }
    }
}

impl ErrorView {
    /// The error code that the CallError carries.
    pub open spec fn code(self) -> Seq<char> {
        match self {
            ErrorView::Generic => "GenericError"@,
            ErrorView::InvalidRequestFormat { .. } => "FormationViolation"@,
            ErrorView::UnsupportedMessageType { .. } => "NotSupported"@,
            ErrorView::InternalError => "InternalError"@,
        }
    }

    /// The fixed description that goes with the error code.
    pub open spec fn description(self) -> Seq<char> {
        match self {
            ErrorView::Generic => "Something unexpected happened."@,
            ErrorView::InvalidRequestFormat {
                ..
            } => "Payload for Action is syntactically incorrect or not conform the PDU structure for Action"@,
            ErrorView::UnsupportedMessageType {
                ..
            } => "Requested Action is recognized but not supported by the receiver"@,
            ErrorView::InternalError => "An internal error occurred and the receiver was not able to process the requested Action successfully"@,
        }
    }

    /// What the error says of the offending call, if anything.
    pub open spec fn details(self) -> Option<Seq<char>> {
        match self {
            ErrorView::Generic => None,
            ErrorView::InvalidRequestFormat { details } => Some(details),
            ErrorView::UnsupportedMessageType { details } => Some(details),
            ErrorView::InternalError => None,
        }
    }

    /// The one-line text of the error.
    pub open spec fn message(self) -> Seq<char> {
        match self {
            ErrorView::Generic => "Generic error"@,
            ErrorView::InvalidRequestFormat { .. } => "Invalid request format"@,
            ErrorView::UnsupportedMessageType { .. } => "Unsupported message type"@,
            ErrorView::InternalError => "Internal server error"@,
        }
    }

    /// The CallError that stands for the error on the wire.
    pub open spec fn call_error(self) -> ResponseView {
        ResponseView::CallError {
            error_code: self.code(),
            error_description: self.description(),
            error_details: self.details(),
        }
    }
}

impl OcppResponseError {
    /// The one-line text of the error.
    pub fn message(&self) -> (r: String)
        ensures
            r@ == self@.message(),
    {
        match self {
            OcppResponseError::Generic => String::from_str("Generic error"),
            OcppResponseError::InvalidRequestFormat { .. } => String::from_str(
                "Invalid request format",
            ),
            OcppResponseError::UnsupportedMessageType { .. } => String::from_str(
                "Unsupported message type",
            ),
            OcppResponseError::InternalError => String::from_str("Internal server error"),
        }
    }

    /// Turns the error into the CallError that reports it: the code and the
    /// description are fixed by which error it is, the details are the
    /// error's own.
    pub fn into_ocpp_response(self) -> (r: OcppResponseMessage)
        ensures
            r@ == self@.call_error(),
    {
        match self {
            OcppResponseError::InvalidRequestFormat { details } => OcppResponseMessage::CallError {
                error_code: String::from_str("FormationViolation"),
                error_description: String::from_str(
                    "Payload for Action is syntactically incorrect or not conform the PDU structure for Action",
                ),
                error_details: Some(details),
            },
            OcppResponseError::UnsupportedMessageType {
                details,
            } => OcppResponseMessage::CallError {
                error_code: String::from_str("NotSupported"),
                error_description: String::from_str(
                    "Requested Action is recognized but not supported by the receiver",
                ),
                error_details: Some(details),
            },
            OcppResponseError::InternalError => OcppResponseMessage::CallError {
                error_code: String::from_str("InternalError"),
                error_description: String::from_str(
                    "An internal error occurred and the receiver was not able to process the requested Action successfully",
                ),
                error_details: None,
            },
            OcppResponseError::Generic => OcppResponseMessage::CallError {
                error_code: String::from_str("GenericError"),
                error_description: String::from_str("Something unexpected happened."),
                error_details: None,
            },
        }
    }
}

} // verus!
