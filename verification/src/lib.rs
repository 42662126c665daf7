//! A typed model of a modal-submission interaction event, with a verified
//! decoder from a loosely-typed key/value document, a verified encoder back
//! to the same wire shape, and verified planning of the follow-up response
//! operations against the platform's HTTP API.

mod decode;
mod encode;
mod error;
mod laws;
mod model;
mod ops;
mod value;

pub use decode::data_at;
pub use decode::data_of;
pub use decode::inputs_of;
pub use decode::member_of;
pub use decode::message_of;
pub use decode::opt_member_at;
pub use decode::opt_message_at;
pub use decode::opt_str_at;
pub use decode::opt_u64_at;
pub use decode::opt_user_at;
pub use decode::row_of;
pub use decode::rows_of;
pub use decode::spec_decode;
pub use decode::str_at;
pub use decode::text_input_of;
pub use decode::user_of;
pub use decode::version_at;
pub use encode::data_val;
pub use encode::inputs_val;
pub use encode::member_val;
pub use encode::message_val;
pub use encode::opt_entry;
pub use encode::opt_member_val;
pub use encode::opt_message_val;
pub use encode::opt_str_val;
pub use encode::opt_u64_val;
pub use encode::row_val;
pub use encode::rows_val;
pub use encode::spec_encode;
pub use encode::text_input_val;
pub use encode::user_val;
pub use error::DecodeError;
pub use error::DecodeErrorV;
pub use error::Error;
pub use error::ErrorV;
pub use error::HttpError;
pub use error::HttpErrorV;
pub use error::ModelError;
pub use laws::lemma_data_roundtrip;
pub use laws::lemma_decode_needs_required_keys;
pub use laws::lemma_encode_decode;
pub use laws::lemma_explicit_user_wins;
pub use laws::lemma_inputs_roundtrip;
pub use laws::lemma_member_roundtrip;
pub use laws::lemma_member_user_fallback;
pub use laws::lemma_message_roundtrip;
pub use laws::lemma_missing_token_fails;
pub use laws::lemma_missing_user_and_member;
pub use laws::lemma_row_roundtrip;
pub use laws::lemma_rows_roundtrip;
pub use laws::lemma_text_input_roundtrip;
pub use laws::lemma_unknown_keys_ignored;
pub use laws::lemma_user_roundtrip;
pub use model::ActionRow;
pub use model::ActionRowV;
pub use model::Member;
pub use model::MemberV;
pub use model::Message;
pub use model::MessageV;
pub use model::ModalSubmitInteraction;
pub use model::ModalSubmitInteractionData;
pub use model::ModalSubmitInteractionDataV;
pub use model::ModalSubmitInteractionV;
pub use model::TextInput;
pub use model::TextInputV;
pub use model::User;
pub use model::UserV;
pub use model::dv_opt_str;
pub use model::dv_rows;
pub use model::dv_text_inputs;
pub use ops::lemma_transport_failure_surfaces;
pub use ops::message_completion;
pub use ops::plan_create_followup;
pub use ops::plan_create_response;
pub use ops::plan_edit_followup;
pub use ops::plan_edit_original;
pub use ops::unit_completion;
pub use ops::validate_content;
pub use ops::ApiRequest;
pub use ops::ApiRequestV;
pub use ops::CreateInteractionResponse;
pub use ops::CreateInteractionResponseFollowup;
pub use ops::CreateInteractionResponseV;
pub use ops::EditInteractionResponse;
pub use ops::InteractionResponseType;
pub use ops::MESSAGE_CODE_LIMIT;
pub use ops::complete_message_response;
pub use ops::complete_unit_response;
pub use value::dv_pairs;
pub use value::dv_seq;
pub use value::find_key;
pub use value::keyed;
pub use value::lookup;
pub use value::Value;
pub use value::ValueV;
