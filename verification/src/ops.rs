//! The response operations: each outbound call against the platform's API is
//! planned here as a value — validated locally and described by plain fields
//! — and the transport's outcome is interpreted here. Performing the call is
//! the transport's job; the caller hands the plan to it and hands the outcome
//! back.

use vstd::prelude::*;

use crate::decode::decode_message;
use crate::decode::message_of;
use crate::error::Error;
use crate::error::ErrorV;
use crate::error::HttpError;
use crate::error::HttpErrorV;
use crate::error::ModelError;
use crate::model::dv_opt_str;
use crate::model::Message;
use crate::model::ModalSubmitInteraction;
use crate::model::ModalSubmitInteractionV;
use crate::value::Value;

verus! {

/// Message contents must stay under this many unicode code points.
pub const MESSAGE_CODE_LIMIT: usize = 2000;

/// The kind of an initial interaction response.
#[derive(Clone, Copy, Debug, PartialEq, Eq, Structural)]
pub enum InteractionResponseType {
    /// Respond with a message.
    ChannelMessageWithSource,
    /// Acknowledge now, send the message later.
    DeferredChannelMessageWithSource,
    /// Acknowledge without a message; the original message stays as it is.
    DeferredUpdateMessage,
    /// Edit the message the component was attached to.
    UpdateMessage,
}

/// What to respond to the interaction with.
#[derive(Debug)]
pub struct CreateInteractionResponse {
    /// The kind of response.
    pub kind: InteractionResponseType,
    /// The message content, when the kind carries one.
    pub content: Option<String>,
}

/// The abstract shape of a [`CreateInteractionResponse`].
pub struct CreateInteractionResponseV {
    pub kind: InteractionResponseType,
    pub content: Option<Seq<char>>,
}

impl CreateInteractionResponse {
    /// The abstract value that contracts speak of.
    pub open spec fn dv(&self) -> CreateInteractionResponseV {
        CreateInteractionResponseV { kind: self.kind, content: dv_opt_str(self.content) }
    }
}

/// What to edit the initial response to.
#[derive(Debug)]
pub struct EditInteractionResponse {
    /// The new message content, when it changes.
    pub content: Option<String>,
}

impl EditInteractionResponse {
    /// The abstract value that contracts speak of.
    pub open spec fn dv(&self) -> Option<Seq<char>> {
        dv_opt_str(self.content)
    }
}

/// What to send or edit a follow-up message to.
#[derive(Debug)]
pub struct CreateInteractionResponseFollowup {
    /// The message content, when one is set.
    pub content: Option<String>,
}

impl CreateInteractionResponseFollowup {
    /// The abstract value that contracts speak of.
    pub open spec fn dv(&self) -> Option<Seq<char>> {
        dv_opt_str(self.content)
    }
}

/// One outbound call against the platform's API, described by plain values:
/// the route it addresses and what it carries.
#[derive(Debug)]
pub enum ApiRequest {
    /// Fetch the initial response message.
    GetOriginalResponse { token: String },
    /// Submit the initial response.
    CreateResponse {
        interaction_id: String,
        token: String,
        kind: InteractionResponseType,
        content: Option<String>,
    },
    /// Edit the initial response.
    EditOriginalResponse { token: String, content: Option<String> },
    /// Delete the initial response.
    DeleteOriginalResponse { token: String },
    /// Send a follow-up message.
    CreateFollowup { token: String, content: Option<String> },
    /// Edit a follow-up message by its identifier.
    EditFollowup { token: String, message_id: String, content: Option<String> },
    /// Delete a follow-up message by its identifier.
    DeleteFollowup { token: String, message_id: String },
}

/// The abstract shape of an [`ApiRequest`].
pub enum ApiRequestV {
    GetOriginalResponse { token: Seq<char> },
    CreateResponse {
        interaction_id: Seq<char>,
        token: Seq<char>,
        kind: InteractionResponseType,
        content: Option<Seq<char>>,
    },
    EditOriginalResponse { token: Seq<char>, content: Option<Seq<char>> },
    DeleteOriginalResponse { token: Seq<char> },
    CreateFollowup { token: Seq<char>, content: Option<Seq<char>> },
    EditFollowup { token: Seq<char>, message_id: Seq<char>, content: Option<Seq<char>> },
    DeleteFollowup { token: Seq<char>, message_id: Seq<char> },
}

impl ApiRequest {
    /// The abstract value that contracts speak of.
    pub open spec fn dv(&self) -> ApiRequestV {
        match self {
            ApiRequest::GetOriginalResponse { token } => ApiRequestV::GetOriginalResponse {
                token: token@,
            },
            ApiRequest::CreateResponse { interaction_id, token, kind, content } => {
                ApiRequestV::CreateResponse {
                    interaction_id: interaction_id@,
                    token: token@,
                    kind: *kind,
                    content: dv_opt_str(*content),
                }
            },
            ApiRequest::EditOriginalResponse { token, content } => {
                ApiRequestV::EditOriginalResponse { token: token@, content: dv_opt_str(*content) }
            },
            ApiRequest::DeleteOriginalResponse { token } => ApiRequestV::DeleteOriginalResponse {
                token: token@,
            },
            ApiRequest::CreateFollowup { token, content } => ApiRequestV::CreateFollowup {
                token: token@,
                content: dv_opt_str(*content),
            },
            ApiRequest::EditFollowup { token, message_id, content } => ApiRequestV::EditFollowup {
                token: token@,
                message_id: message_id@,
                content: dv_opt_str(*content),
            },
            ApiRequest::DeleteFollowup { token, message_id } => ApiRequestV::DeleteFollowup {
                token: token@,
                message_id: message_id@,
            },
        }
    }
}

/// Whether outbound content passes the local length check, and by how many
/// code points it misses it when it does not.
pub open spec fn validate_content(c: Option<Seq<char>>) -> Result<(), ModelError> {
    match c {
        Some(s) => if s.len() > MESSAGE_CODE_LIMIT {
            Err(ModelError::MessageTooLong((s.len() - MESSAGE_CODE_LIMIT) as usize))
        } else {
            Ok(())
        },
        None => Ok(()),
    }
}

/// The plan for submitting the initial response: the local length check, then
/// the route and its payload.
pub open spec fn plan_create_response(
    m: ModalSubmitInteractionV,
    b: CreateInteractionResponseV,
) -> Result<ApiRequestV, ErrorV> {
    match validate_content(b.content) {
        Err(e) => Err(ErrorV::Model(e)),
        Ok(u) => Ok(
            ApiRequestV::CreateResponse {
                interaction_id: m.id,
                token: m.token,
                kind: b.kind,
                content: b.content,
            },
        ),
    }
}

/// The plan for editing the initial response.
pub open spec fn plan_edit_original(m: ModalSubmitInteractionV, content: Option<Seq<char>>) -> Result<
    ApiRequestV,
    ErrorV,
> {
    match validate_content(content) {
        Err(e) => Err(ErrorV::Model(e)),
        Ok(u) => Ok(ApiRequestV::EditOriginalResponse { token: m.token, content }),
    }
}

/// The plan for sending a follow-up message.
pub open spec fn plan_create_followup(m: ModalSubmitInteractionV, content: Option<Seq<char>>) -> Result<
    ApiRequestV,
    ErrorV,
> {
    match validate_content(content) {
        Err(e) => Err(ErrorV::Model(e)),
        Ok(u) => Ok(ApiRequestV::CreateFollowup { token: m.token, content }),
    }
}

/// The plan for editing a follow-up message.
pub open spec fn plan_edit_followup(
    m: ModalSubmitInteractionV,
    message_id: Seq<char>,
    content: Option<Seq<char>>,
) -> Result<ApiRequestV, ErrorV> {
    match validate_content(content) {
        Err(e) => Err(ErrorV::Model(e)),
        Ok(u) => Ok(ApiRequestV::EditFollowup { token: m.token, message_id, content }),
    }
}

/// What a transport outcome without a body completes to: success as it is, a
/// transport failure surfaced verbatim.
pub open spec fn unit_completion(outcome: Result<(), HttpErrorV>) -> Result<(), ErrorV> {
    match outcome {
        Ok(u) => Ok(()),
        Err(h) => Err(ErrorV::Http(h)),
    }
}

/// What a transport outcome carrying a response document completes to: the
/// decoded message, a decode failure of the body, or the transport failure
/// surfaced verbatim.
pub open spec fn message_completion(outcome: Result<crate::value::ValueV, HttpErrorV>) -> Result<
    crate::model::MessageV,
    ErrorV,
> {
    match outcome {
        Ok(v) => match message_of(v, "message"@) {
            Ok(mv) => Ok(mv),
            Err(de) => Err(ErrorV::Json(de)),
        },
        Err(h) => Err(ErrorV::Http(h)),
    }
}

/// The local length check on outbound content; `None` passes.
fn check_content(content: &Option<String>) -> (r: Result<(), Error>)
    ensures
        match r {
            Ok(u) => validate_content(dv_opt_str(*content)) == Ok::<(), ModelError>(()),
            Err(e) => validate_content(dv_opt_str(*content)) matches Err(me) && e.dv()
                == ErrorV::Model(me),
        },
{
    match content {
        Some(c) => {
            let n = c.as_str().unicode_len();
            if n > MESSAGE_CODE_LIMIT {
                Err(Error::Model(ModelError::MessageTooLong(n - MESSAGE_CODE_LIMIT)))
            } else {
                Ok(())
            }
        },
        None => Ok(()),
    }
}

impl ModalSubmitInteraction {
    /// The request that fetches the initial interaction response; the
    /// transport may still fail, for instance when no response exists yet.
    pub fn get_interaction_response(&self) -> (r: ApiRequest)
        ensures
            r.dv() == (ApiRequestV::GetOriginalResponse { token: self.dv().token }),
    {
        ApiRequest::GetOriginalResponse { token: self.token.clone() }
    }

    /// The request that submits the initial response, after the local length
    /// check on its content.
    pub fn create_interaction_response(&self, builder: &CreateInteractionResponse) -> (r: Result<
        ApiRequest,
        Error,
    >)
        ensures
            match r {
                Ok(req) => plan_create_response(self.dv(), builder.dv()) == Ok::<_, ErrorV>(
                    req.dv(),
                ),
                Err(e) => plan_create_response(self.dv(), builder.dv()) == Err::<ApiRequestV, _>(
                    e.dv(),
                ),
            },
    {
        match check_content(&builder.content) {
            Err(e) => Err(e),
            Ok(u) => Ok(
                ApiRequest::CreateResponse {
                    interaction_id: self.id.clone(),
                    token: self.token.clone(),
                    kind: builder.kind,
                    content: match &builder.content {
                        Some(c) => Some(c.clone()),
                        None => None,
                    },
                },
            ),
        }
    }

    /// The request that edits the initial response, after the local length
    /// check on its content.
    pub fn edit_original_interaction_response(&self, builder: &EditInteractionResponse) -> (r:
        Result<ApiRequest, Error>)
        ensures
            match r {
                Ok(req) => plan_edit_original(self.dv(), builder.dv()) == Ok::<_, ErrorV>(req.dv()),
                Err(e) => plan_edit_original(self.dv(), builder.dv()) == Err::<ApiRequestV, _>(
                    e.dv(),
                ),
            },
    {
        match check_content(&builder.content) {
            Err(e) => Err(e),
            Ok(u) => Ok(
                ApiRequest::EditOriginalResponse {
                    token: self.token.clone(),
                    content: match &builder.content {
                        Some(c) => Some(c.clone()),
                        None => None,
                    },
                },
            ),
        }
    }

    /// The request that deletes the initial response. Nothing is validated
    /// locally; the transport reports failures such as a response already
    /// deleted.
    pub fn delete_original_interaction_response(&self) -> (r: ApiRequest)
        ensures
            r.dv() == (ApiRequestV::DeleteOriginalResponse { token: self.dv().token }),
    {
        ApiRequest::DeleteOriginalResponse { token: self.token.clone() }
    }

    /// The request that sends a follow-up message, after the local length
    /// check on its content.
    pub fn create_followup_message(&self, builder: &CreateInteractionResponseFollowup) -> (r:
        Result<ApiRequest, Error>)
        ensures
            match r {
                Ok(req) => plan_create_followup(self.dv(), builder.dv()) == Ok::<_, ErrorV>(
                    req.dv(),
                ),
                Err(e) => plan_create_followup(self.dv(), builder.dv()) == Err::<ApiRequestV, _>(
                    e.dv(),
                ),
            },
    {
        match check_content(&builder.content) {
            Err(e) => Err(e),
            Ok(u) => Ok(
                ApiRequest::CreateFollowup {
                    token: self.token.clone(),
                    content: match &builder.content {
                        Some(c) => Some(c.clone()),
                        None => None,
                    },
                },
            ),
        }
    }

    /// The request that edits the follow-up message with the given
    /// identifier, after the local length check on its content.
    pub fn edit_followup_message(
        &self,
        message_id: &String,
        builder: &CreateInteractionResponseFollowup,
    ) -> (r: Result<ApiRequest, Error>)
        ensures
            match r {
                Ok(req) => plan_edit_followup(self.dv(), message_id@, builder.dv()) == Ok::<
                    _,
                    ErrorV,
                >(req.dv()),
                Err(e) => plan_edit_followup(self.dv(), message_id@, builder.dv()) == Err::<
                    ApiRequestV,
                    _,
                >(e.dv()),
            },
    {
        match check_content(&builder.content) {
            Err(e) => Err(e),
            Ok(u) => Ok(
                ApiRequest::EditFollowup {
                    token: self.token.clone(),
                    message_id: message_id.clone(),
                    content: match &builder.content {
                        Some(c) => Some(c.clone()),
                        None => None,
                    },
                },
            ),
        }
    }

    /// The request that deletes the follow-up message with the given
    /// identifier. Nothing is validated locally; a message already deleted is
    /// a failure the transport reports.
    pub fn delete_followup_message(&self, message_id: &String) -> (r: ApiRequest)
        ensures
            r.dv() == (ApiRequestV::DeleteFollowup {
                token: self.dv().token,
                message_id: message_id@,
            }),
    {
        ApiRequest::DeleteFollowup {
            token: self.token.clone(),
            message_id: message_id.clone(),
        }
    }

    /// Defers the interaction: submits an initial response of the deferred
    /// kind with no content, which always passes the local check.
    pub fn defer(&self) -> (r: Result<ApiRequest, Error>)
        ensures
            r is Ok,
            r matches Ok(req) && req.dv() == (ApiRequestV::CreateResponse {
                interaction_id: self.dv().id,
                token: self.dv().token,
                kind: InteractionResponseType::DeferredUpdateMessage,
                content: None,
            }),
    {
        let builder = CreateInteractionResponse {
            kind: InteractionResponseType::DeferredUpdateMessage,
            content: None,
        };
        self.create_interaction_response(&builder)
    }
}

/// Completes an operation whose transport outcome carries no body: success
/// stays success, a transport failure surfaces verbatim as [`Error::Http`] —
/// never as a local validation error.
pub fn complete_unit_response(outcome: Result<(), HttpError>) -> (r: Result<(), Error>)
    ensures
        match outcome {
            Ok(u) => r is Ok,
            Err(h) => r matches Err(e) && e.dv() == ErrorV::Http(h.dv()),
        },
{
    match outcome {
        Ok(u) => Ok(()),
        Err(h) => Err(Error::Http(h)),
    }
}

/// Completes an operation whose transport outcome carries the response
/// message as a document: the decoded message, [`Error::Json`] when the body
/// does not decode, or the transport failure verbatim as [`Error::Http`].
pub fn complete_message_response(outcome: Result<Value, HttpError>) -> (r: Result<Message, Error>)
    ensures
        match r {
            Ok(msg) => message_completion(
                match outcome {
                    Ok(v) => Ok(v.dv()),
                    Err(h) => Err(h.dv()),
                },
            ) == Ok::<_, ErrorV>(msg.dv()),
            Err(e) => message_completion(
                match outcome {
                    Ok(v) => Ok(v.dv()),
                    Err(h) => Err(h.dv()),
                },
            ) == Err::<crate::model::MessageV, _>(e.dv()),
        },
{
    match outcome {
        Ok(v) => match decode_message(&v, "message") {
            Ok(msg) => Ok(msg),
            Err(de) => Err(Error::Json(de)),
        },
        Err(h) => Err(Error::Http(h)),
    }
}

/// Deleting a message the platform reports as already deleted surfaces as a
/// transport error, never as a local validation error: completing any failed
/// outcome yields exactly that transport failure.
pub proof fn lemma_transport_failure_surfaces(h: HttpErrorV)
    ensures
        unit_completion(Err(h)) == Err::<(), ErrorV>(ErrorV::Http(h)),
        message_completion(Err(h)) == Err::<crate::model::MessageV, ErrorV>(ErrorV::Http(h)),
{
}

} // verus!
