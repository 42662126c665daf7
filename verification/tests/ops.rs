use modal_submit::complete_message_response;
use modal_submit::complete_unit_response;
use modal_submit::ApiRequest;
use modal_submit::CreateInteractionResponse;
use modal_submit::CreateInteractionResponseFollowup;
use modal_submit::EditInteractionResponse;
use modal_submit::Error;
use modal_submit::HttpError;
use modal_submit::InteractionResponseType;
use modal_submit::ModalSubmitInteraction;
use modal_submit::ModelError;
use modal_submit::Value;
use modal_submit::MESSAGE_CODE_LIMIT;

fn s(x: &str) -> String {
    x.to_string()
}

fn sample() -> ModalSubmitInteraction {
    let doc = vec![
        (s("id"), Value::Str(s("1"))),
        (s("application_id"), Value::Str(s("2"))),
        (
            s("data"),
            Value::Obj(vec![
                (s("custom_id"), Value::Str(s("x"))),
                (s("components"), Value::List(vec![])),
            ]),
        ),
        (s("channel_id"), Value::Str(s("3"))),
        (s("user"), Value::Obj(vec![(s("id"), Value::Str(s("9")))])),
        (s("token"), Value::Str(s("t"))),
        (s("version"), Value::U64(1)),
        (s("locale"), Value::Str(s("en-US"))),
    ];
    ModalSubmitInteraction::decode(&doc).unwrap()
}

#[test]
fn get_interaction_response_addresses_the_token() {
    let m = sample();
    match m.get_interaction_response() {
        ApiRequest::GetOriginalResponse { token } => assert_eq!(token, "t"),
        _ => panic!("wrong route"),
    }
}

#[test]
fn create_interaction_response_carries_kind_and_content() {
    let m = sample();
    let builder = CreateInteractionResponse {
        kind: InteractionResponseType::ChannelMessageWithSource,
        content: Some(s("hello")),
    };
    match m.create_interaction_response(&builder).unwrap() {
        ApiRequest::CreateResponse { interaction_id, token, kind, content } => {
            assert_eq!(interaction_id, "1");
            assert_eq!(token, "t");
            assert!(matches!(kind, InteractionResponseType::ChannelMessageWithSource));
            assert_eq!(content, Some(s("hello")));
        }
        _ => panic!("wrong route"),
    }
}

#[test]
fn content_at_the_limit_passes() {
    let m = sample();
    let builder = CreateInteractionResponse {
        kind: InteractionResponseType::ChannelMessageWithSource,
        content: Some("a".repeat(MESSAGE_CODE_LIMIT)),
    };
    assert!(m.create_interaction_response(&builder).is_ok());
}

#[test]
fn oversized_content_is_a_local_validation_error() {
    let m = sample();
    let builder = CreateInteractionResponse {
        kind: InteractionResponseType::ChannelMessageWithSource,
        content: Some("a".repeat(MESSAGE_CODE_LIMIT + 3)),
    };
    match m.create_interaction_response(&builder).unwrap_err() {
        Error::Model(ModelError::MessageTooLong(over)) => assert_eq!(over, 3),
        _ => panic!("expected a local validation error"),
    }
}

#[test]
fn oversized_content_counts_code_points_not_bytes() {
    let m = sample();
    // Two-byte code points: the count of characters decides, not the bytes.
    let builder = CreateInteractionResponse {
        kind: InteractionResponseType::ChannelMessageWithSource,
        content: Some("é".repeat(MESSAGE_CODE_LIMIT)),
    };
    assert!(m.create_interaction_response(&builder).is_ok());
}

#[test]
fn edit_original_checks_content() {
    let m = sample();
    let ok = EditInteractionResponse { content: Some(s("new text")) };
    match m.edit_original_interaction_response(&ok).unwrap() {
        ApiRequest::EditOriginalResponse { token, content } => {
            assert_eq!(token, "t");
            assert_eq!(content, Some(s("new text")));
        }
        _ => panic!("wrong route"),
    }
    let too_long = EditInteractionResponse { content: Some("b".repeat(MESSAGE_CODE_LIMIT + 1)) };
    match m.edit_original_interaction_response(&too_long).unwrap_err() {
        Error::Model(ModelError::MessageTooLong(over)) => assert_eq!(over, 1),
        _ => panic!("expected a local validation error"),
    }
}

#[test]
fn delete_original_response_is_a_plain_route() {
    let m = sample();
    match m.delete_original_interaction_response() {
        ApiRequest::DeleteOriginalResponse { token } => assert_eq!(token, "t"),
        _ => panic!("wrong route"),
    }
}

#[test]
fn create_followup_checks_content() {
    let m = sample();
    let builder = CreateInteractionResponseFollowup { content: Some(s("follow-up")) };
    match m.create_followup_message(&builder).unwrap() {
        ApiRequest::CreateFollowup { token, content } => {
            assert_eq!(token, "t");
            assert_eq!(content, Some(s("follow-up")));
        }
        _ => panic!("wrong route"),
    }
}

#[test]
fn edit_followup_addresses_the_message() {
    let m = sample();
    let builder = CreateInteractionResponseFollowup { content: Some(s("edited")) };
    match m.edit_followup_message(&s("m42"), &builder).unwrap() {
        ApiRequest::EditFollowup { token, message_id, content } => {
            assert_eq!(token, "t");
            assert_eq!(message_id, "m42");
            assert_eq!(content, Some(s("edited")));
        }
        _ => panic!("wrong route"),
    }
}

#[test]
fn delete_followup_has_no_local_validation_path() {
    let m = sample();
    // Planning the deletion is total: there is no input it rejects locally.
    match m.delete_followup_message(&s("m42")) {
        ApiRequest::DeleteFollowup { token, message_id } => {
            assert_eq!(token, "t");
            assert_eq!(message_id, "m42");
        }
        _ => panic!("wrong route"),
    }
}

#[test]
fn already_deleted_surfaces_as_transport_error() {
    let m = sample();
    let _plan = m.delete_followup_message(&s("m42"));
    // The platform reports the follow-up as already deleted; the failure
    // comes back as a transport error, not a local validation error.
    let outcome = Err(HttpError { status: 404, message: s("Unknown Message") });
    match complete_unit_response(outcome).unwrap_err() {
        Error::Http(h) => {
            assert_eq!(h.status, 404);
            assert_eq!(h.message, "Unknown Message");
        }
        _ => panic!("expected a transport error"),
    }
}

#[test]
fn successful_outcome_completes_to_ok() {
    assert!(complete_unit_response(Ok(())).is_ok());
}

#[test]
fn message_outcome_decodes_the_body() {
    let body = Value::Obj(vec![
        (s("id"), Value::Str(s("m1"))),
        (s("content"), Value::Str(s("hi"))),
    ]);
    let msg = complete_message_response(Ok(body)).unwrap();
    assert_eq!(msg.id, "m1");
    assert_eq!(msg.content, "hi");
}

#[test]
fn malformed_message_body_is_a_decode_error() {
    let body = Value::Str(s("not an object"));
    match complete_message_response(Ok(body)).unwrap_err() {
        Error::Json(_) => {}
        _ => panic!("expected a response-decode error"),
    }
}

#[test]
fn message_transport_failure_surfaces_verbatim() {
    let outcome = Err(HttpError { status: 500, message: s("boom") });
    match complete_message_response(outcome).unwrap_err() {
        Error::Http(h) => assert_eq!(h.status, 500),
        _ => panic!("expected a transport error"),
    }
}

#[test]
fn defer_is_a_deferred_response_without_content() {
    let m = sample();
    match m.defer().unwrap() {
        ApiRequest::CreateResponse { interaction_id, token, kind, content } => {
            assert_eq!(interaction_id, "1");
            assert_eq!(token, "t");
            assert!(matches!(kind, InteractionResponseType::DeferredUpdateMessage));
            assert_eq!(content, None);
        }
        _ => panic!("wrong route"),
    }
}
