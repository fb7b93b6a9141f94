use crush::codec::{
    error_frame, result_frame, Action, DecodeError, OcppRequest, OcppRequestMessage,
    OcppResponseMessage,
};
use crush::error::OcppResponseError;
use crush::json::{write_array, Element};
use crush::messages::boot_notification::{BootNotificationResponse, RegistrationStatus};
use crush::messages::heartbeat::HeartbeatResponse;
use crush::messages::status_notification::StatusNotificationResponse;

const FORMATION_VIOLATION: &str =
    "Payload for Action is syntactically incorrect or not conform the PDU structure for Action";

fn refused(text: &str) -> DecodeError {
    match OcppRequest::deserialize(text) {
        Ok(_) => panic!("decoded: {}", text),
        Err(e) => e,
    }
}

fn malformed_details(e: &DecodeError) -> String {
    match &e.error {
        OcppResponseError::InvalidRequestFormat { details } => details.clone(),
        other => panic!("not a malformed request: {:?}", other),
    }
}

#[test]
fn heartbeat_call_decodes() {
    let request = OcppRequest::deserialize("[2,\"abc\",\"Heartbeat\",{}]").ok().unwrap();
    assert_eq!(request.uuid, "abc");
    assert!(matches!(request.payload, OcppRequestMessage::Heartbeat(_)));
    assert_eq!(request.payload.action(), Action::Heartbeat);
}

#[test]
fn heartbeat_call_needs_no_payload() {
    let request = OcppRequest::deserialize("[2,\"abc\",\"Heartbeat\"]").ok().unwrap();
    assert_eq!(request.uuid, "abc");
    assert!(matches!(request.payload, OcppRequestMessage::Heartbeat(_)));
}

#[test]
fn boot_notification_call_decodes() {
    let text = "[2,\"b1\",\"BootNotification\",{\"chargePointModel\":\"M\",\"chargePointVendor\":\"V\"}]";
    let request = OcppRequest::deserialize(text).ok().unwrap();
    assert_eq!(request.uuid, "b1");
    match request.payload {
        OcppRequestMessage::BootNotification(request) => {
            assert_eq!(request.document, "{\"chargePointModel\":\"M\",\"chargePointVendor\":\"V\"}");
        }
        _ => panic!("wrong action"),
    }
}

#[test]
fn status_notification_call_decodes() {
    let text = "[2, \"s1\", \"StatusNotification\", {\"connectorId\": 1, \"errorCode\": \"NoError\", \"status\": \"Available\"}]";
    let request = OcppRequest::deserialize(text).ok().unwrap();
    assert_eq!(request.uuid, "s1");
    assert_eq!(request.payload.action(), Action::StatusNotification);
    match request.payload {
        OcppRequestMessage::StatusNotification(request) => {
            assert_eq!(
                request.document,
                "{\"connectorId\":1,\"errorCode\":\"NoError\",\"status\":\"Available\"}"
            );
        }
        _ => panic!("wrong action"),
    }
}

#[test]
fn elements_after_the_payload_are_ignored() {
    let request = OcppRequest::deserialize("[2,\"abc\",\"Heartbeat\",{},7,null]").ok().unwrap();
    assert_eq!(request.uuid, "abc");
}

#[test]
fn unknown_action_is_refused_by_name() {
    let e = refused("[2,\"x\",\"Authorize\",{}]");
    assert_eq!(e.uuid.as_deref(), Some("x"));
    match e.error {
        OcppResponseError::UnsupportedMessageType { details } => {
            assert_eq!(details, "Unknown message type: 'Authorize'.");
        }
        other => panic!("wrong error: {:?}", other),
    }
}

#[test]
fn short_envelope_is_refused_without_id() {
    let e = refused("[2,\"y\"]");
    assert_eq!(e.uuid, None);
    assert_eq!(
        malformed_details(&e),
        "Invalid message format: expected at least 3 elements, found 2."
    );
    let e = refused("[]");
    assert_eq!(e.uuid, None);
    assert_eq!(
        malformed_details(&e),
        "Invalid message format: expected at least 3 elements, found 0."
    );
}

#[test]
fn text_that_is_no_array_is_refused_without_id() {
    for text in ["", "{", "{\"a\":1}", "42", "[2,\"x\",\"Heartbeat\"", "not json"] {
        let e = refused(text);
        assert_eq!(e.uuid, None);
        assert!(matches!(e.error, OcppResponseError::InvalidRequestFormat { .. }));
        assert!(!malformed_details(&e).is_empty());
    }
}

#[test]
fn envelope_that_is_no_call_is_refused_without_id() {
    for text in [
        "[3,\"x\",{}]",
        "[4,\"x\",\"GenericError\",\"\",{}]",
        "[\"2\",\"x\",\"Heartbeat\"]",
        "[2.0,\"x\",\"Heartbeat\"]",
        "[null,\"x\",\"Heartbeat\"]",
    ] {
        let e = refused(text);
        assert_eq!(e.uuid, None);
        assert_eq!(malformed_details(&e), "Invalid message type id: expected 2.");
    }
}

#[test]
fn id_that_is_no_string_is_refused_without_id() {
    let e = refused("[2,17,\"Heartbeat\",{}]");
    assert_eq!(e.uuid, None);
    assert_eq!(malformed_details(&e), "Invalid UUID: expected a string but found none.");
}

#[test]
fn action_that_is_no_string_is_refused_under_the_id() {
    let e = refused("[2,\"u\",{},{}]");
    assert_eq!(e.uuid.as_deref(), Some("u"));
    assert_eq!(
        malformed_details(&e),
        "Invalid message type: expected a string but found none."
    );
}

#[test]
fn missing_payload_is_refused_under_the_id() {
    let e = refused("[2,\"u\",\"BootNotification\"]");
    assert_eq!(e.uuid.as_deref(), Some("u"));
    assert_eq!(malformed_details(&e), "Missing payload for BootNotification.");
    let e = refused("[2,\"u\",\"StatusNotification\"]");
    assert_eq!(e.uuid.as_deref(), Some("u"));
    assert_eq!(malformed_details(&e), "Missing payload for StatusNotification.");
}

#[test]
fn payload_that_breaks_the_schema_is_refused_under_the_id() {
    let e = refused("[2,\"u\",\"BootNotification\",{\"chargePointVendor\":\"V\"}]");
    assert_eq!(e.uuid.as_deref(), Some("u"));
    let details = malformed_details(&e);
    assert!(details.starts_with("Failed to deserialize BootNotificationRequest: "));
    assert!(details.contains("chargePointModel"));

    let e = refused("[2,\"u\",\"StatusNotification\",{\"connectorId\":\"one\"}]");
    assert_eq!(e.uuid.as_deref(), Some("u"));
    let details = malformed_details(&e);
    assert!(details.starts_with("Failed to deserialize StatusNotificationRequest: "));

    let e = refused("[2,\"u\",\"BootNotification\",\"text\"]");
    assert!(malformed_details(&e).starts_with("Failed to deserialize BootNotificationRequest: "));
}

#[test]
fn decoding_from_elements_matches_decoding_from_text() {
    let frame = vec![
        Element { json: "2".to_string(), text: None },
        Element { json: "\"q\"".to_string(), text: Some("q".to_string()) },
        Element { json: "\"Heartbeat\"".to_string(), text: Some("Heartbeat".to_string()) },
    ];
    let request = OcppRequest::from_frame(&frame).ok().unwrap();
    assert_eq!(request.uuid, "q");
    assert_eq!(request.payload.action(), Action::Heartbeat);
}

#[test]
fn settle_embeds_the_fault() {
    let r = OcppRequest::settle(
        "u".to_string(),
        Action::StatusNotification,
        "{}".to_string(),
        Some("missing field `connectorId`".to_string()),
    );
    let e = r.err().unwrap();
    assert_eq!(e.uuid.as_deref(), Some("u"));
    assert_eq!(
        malformed_details(&e),
        "Failed to deserialize StatusNotificationRequest: missing field `connectorId`"
    );
    let r = OcppRequest::settle("u".to_string(), Action::BootNotification, "{\"a\":1}".to_string(), None);
    match r.ok().unwrap().payload {
        OcppRequestMessage::BootNotification(request) => assert_eq!(request.document, "{\"a\":1}"),
        _ => panic!("wrong action"),
    }
}

#[test]
fn call_round_trip() {
    let payload = "{\"chargePointModel\":\"M\",\"chargePointVendor\":\"V\"}";
    let frame = vec![
        "2".to_string(),
        "\"id-1\"".to_string(),
        "\"BootNotification\"".to_string(),
        payload.to_string(),
    ];
    let request = OcppRequest::deserialize(&write_array(&frame)).ok().unwrap();
    assert_eq!(request.uuid, "id-1");
    match request.payload {
        OcppRequestMessage::BootNotification(request) => assert_eq!(request.document, payload),
        _ => panic!("wrong action"),
    }
}

#[test]
fn heartbeat_result_is_framed() {
    let answer = OcppResponseMessage::Heartbeat(HeartbeatResponse {
        current_time: "2024-01-01T00:00:00Z".to_string(),
    });
    assert_eq!(
        answer.encode("abc").unwrap(),
        "[3,\"abc\",\"Heartbeat\",{\"currentTime\":\"2024-01-01T00:00:00Z\"}]"
    );
}

#[test]
fn boot_notification_result_is_framed() {
    let answer = OcppResponseMessage::BootNotification(BootNotificationResponse {
        current_time: "2024-05-06T07:08:09.500Z".to_string(),
        interval: 60,
        status: RegistrationStatus::Accepted,
    });
    assert_eq!(
        answer.encode("b1").unwrap(),
        "[3,\"b1\",\"BootNotification\",{\"currentTime\":\"2024-05-06T07:08:09.500Z\",\"interval\":60,\"status\":\"Accepted\"}]"
    );
    let answer = OcppResponseMessage::BootNotification(BootNotificationResponse {
        current_time: "2024-05-06T07:08:09Z".to_string(),
        interval: 0,
        status: RegistrationStatus::Rejected,
    });
    assert_eq!(
        answer.encode("b2").unwrap(),
        "[3,\"b2\",\"BootNotification\",{\"currentTime\":\"2024-05-06T07:08:09Z\",\"interval\":0,\"status\":\"Rejected\"}]"
    );
    let answer = OcppResponseMessage::BootNotification(BootNotificationResponse {
        current_time: "2024-05-06T07:08:09Z".to_string(),
        interval: 4294967295,
        status: RegistrationStatus::Pending,
    });
    assert_eq!(
        answer.encode("b3").unwrap(),
        "[3,\"b3\",\"BootNotification\",{\"currentTime\":\"2024-05-06T07:08:09Z\",\"interval\":4294967295,\"status\":\"Pending\"}]"
    );
}

#[test]
fn status_notification_result_is_framed() {
    let answer = OcppResponseMessage::StatusNotification(StatusNotificationResponse {});
    assert_eq!(answer.encode("s").unwrap(), "[3,\"s\",\"StatusNotification\",{}]");
}

#[test]
fn result_carries_the_message_type_id_it_is_given() {
    let answer = OcppResponseMessage::StatusNotification(StatusNotificationResponse {});
    assert_eq!(
        answer.serialize_with_params(17, "s").unwrap(),
        "[17,\"s\",\"StatusNotification\",{}]"
    );
}

#[test]
fn time_is_written_in_utc() {
    let answer = OcppResponseMessage::Heartbeat(HeartbeatResponse {
        current_time: "2024-01-01T02:00:00+02:00".to_string(),
    });
    assert_eq!(
        answer.encode("abc").unwrap(),
        "[3,\"abc\",\"Heartbeat\",{\"currentTime\":\"2024-01-01T00:00:00Z\"}]"
    );
}

#[test]
fn result_with_a_time_that_is_none_cannot_be_written() {
    let answer = OcppResponseMessage::Heartbeat(HeartbeatResponse {
        current_time: "yesterday".to_string(),
    });
    assert!(answer.encode("abc").is_err());
    let answer = OcppResponseMessage::BootNotification(BootNotificationResponse {
        current_time: String::new(),
        interval: 60,
        status: RegistrationStatus::Accepted,
    });
    assert!(answer.encode("abc").is_err());
}

#[test]
fn errors_are_framed_with_code_description_and_details() {
    let e = OcppResponseError::InvalidRequestFormat { details: "bad".to_string() };
    assert_eq!(
        e.into_ocpp_response().encode("u").unwrap(),
        format!("[4,\"u\",\"FormationViolation\",\"{}\",{{\"details\":\"bad\"}}]", FORMATION_VIOLATION)
    );
    let e = OcppResponseError::UnsupportedMessageType {
        details: "Unknown message type: 'Authorize'.".to_string(),
    };
    assert_eq!(
        e.into_ocpp_response().encode("x").unwrap(),
        "[4,\"x\",\"NotSupported\",\"Requested Action is recognized but not supported by the receiver\",{\"details\":\"Unknown message type: 'Authorize'.\"}]"
    );
    assert_eq!(
        OcppResponseError::InternalError.into_ocpp_response().encode("u").unwrap(),
        "[4,\"u\",\"InternalError\",\"An internal error occurred and the receiver was not able to process the requested Action successfully\",{}]"
    );
    assert_eq!(
        OcppResponseError::Generic.into_ocpp_response().encode("u").unwrap(),
        "[4,\"u\",\"GenericError\",\"Something unexpected happened.\",{}]"
    );
}

#[test]
fn error_is_framed_with_4_whatever_the_message_type_id() {
    let answer = OcppResponseError::Generic.into_ocpp_response();
    assert_eq!(
        answer.serialize_with_params(3, "u").unwrap(),
        answer.serialize_with_params(9, "u").unwrap()
    );
}

#[test]
fn strings_are_escaped() {
    let e = OcppResponseError::InvalidRequestFormat { details: "a \"b\"\n\\c".to_string() };
    let text = e.into_ocpp_response().encode("i\"d").unwrap();
    assert_eq!(
        text,
        format!(
            "[4,\"i\\\"d\",\"FormationViolation\",\"{}\",{{\"details\":\"a \\\"b\\\"\\n\\\\c\"}}]",
            FORMATION_VIOLATION
        )
    );
    assert!(!text.contains('\n'));
}

#[test]
fn error_envelope_parses_back_to_its_five_elements() {
    let e = OcppResponseError::UnsupportedMessageType { details: "why".to_string() };
    let text = e.into_ocpp_response().encode("u-7").unwrap();
    let parsed: Vec<serde_json::Value> = serde_json::from_str(&text).unwrap();
    assert_eq!(parsed.len(), 5);
    assert_eq!(parsed[0].as_u64(), Some(4));
    assert_eq!(parsed[1].as_str(), Some("u-7"));
    assert_eq!(parsed[2].as_str(), Some("NotSupported"));
    assert_eq!(
        parsed[3].as_str(),
        Some("Requested Action is recognized but not supported by the receiver")
    );
    assert_eq!(parsed[4].get("details").and_then(|v| v.as_str()), Some("why"));
}

#[test]
fn frames_hold_their_elements_in_order() {
    let frame = result_frame(3, "\"u\"".to_string(), "\"Heartbeat\"".to_string(), "{}".to_string());
    assert_eq!(frame, vec!["3", "\"u\"", "\"Heartbeat\"", "{}"]);
    let frame = error_frame(
        "\"u\"".to_string(),
        "\"c\"".to_string(),
        "\"d\"".to_string(),
        "{}".to_string(),
    );
    assert_eq!(frame, vec!["4", "\"u\"", "\"c\"", "\"d\"", "{}"]);
}

#[test]
fn error_texts() {
    assert_eq!(OcppResponseError::Generic.message(), "Generic error");
    assert_eq!(
        OcppResponseError::InvalidRequestFormat { details: String::new() }.message(),
        "Invalid request format"
    );
    assert_eq!(
        OcppResponseError::UnsupportedMessageType { details: String::new() }.message(),
        "Unsupported message type"
    );
    assert_eq!(OcppResponseError::InternalError.message(), "Internal server error");
}

#[test]
fn action_names() {
    assert_eq!(Action::BootNotification.as_str(), "BootNotification");
    assert_eq!(Action::Heartbeat.as_str(), "Heartbeat");
    assert_eq!(Action::StatusNotification.as_str(), "StatusNotification");
}

#[test]
fn every_control_character_is_escaped() {
    let answer = OcppResponseMessage::StatusNotification(StatusNotificationResponse {});
    let uuid = "\u{0}\u{1}\u{8}\t\n\u{b}\u{c}\r\u{e}\u{1a}\u{1f} \"\\/\u{7f}\u{e9}\u{2028}";
    assert_eq!(
        answer.encode(uuid).unwrap(),
        "[3,\"\\u0000\\u0001\\b\\t\\n\\u000b\\f\\r\\u000e\\u001a\\u001f \\\"\\\\/\u{7f}\u{e9}\u{2028}\",\"StatusNotification\",{}]"
    );
    assert_eq!(answer.encode("").unwrap(), "[3,\"\",\"StatusNotification\",{}]");
}
