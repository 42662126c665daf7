//! The typed record of a modal submission and the records nested in it.
//!
//! Each type carries a ghost mirror (`...V`) in which strings are sequences
//! of characters; contracts speak of the mirrors.

use vstd::prelude::*;

verus! {

/// The invoking user.
#[derive(Debug)]
pub struct User {
    /// The user's identifier.
    pub id: String,
}

/// The abstract shape of a [`User`].
pub struct UserV {
    pub id: Seq<char>,
}

impl User {
    /// The abstract value that contracts speak of.
    pub open spec fn dv(&self) -> UserV {
        UserV { id: self.id@ }
    }
}

/// The guild-member record for the invoking user, present only when the
/// interaction was triggered in a guild.
#[derive(Debug)]
pub struct Member {
    /// The user this member record belongs to.
    pub user: User,
}

/// The abstract shape of a [`Member`].
pub struct MemberV {
    pub user: UserV,
}

impl Member {
    /// The abstract value that contracts speak of.
    pub open spec fn dv(&self) -> MemberV {
        MemberV { user: self.user.dv() }
    }
}

/// The message a modal interaction was triggered by, when it originated from
/// a component rather than an application command.
#[derive(Debug)]
pub struct Message {
    /// The message's identifier.
    pub id: String,
    /// The message's content.
    pub content: String,
}

/// The abstract shape of a [`Message`].
pub struct MessageV {
    pub id: Seq<char>,
    pub content: Seq<char>,
}

impl Message {
    /// The abstract value that contracts speak of.
    pub open spec fn dv(&self) -> MessageV {
        MessageV { id: self.id@, content: self.content@ }
    }
}

/// One filled-in text input of a submitted modal.
#[derive(Debug)]
pub struct TextInput {
    /// The input's custom identifier, set when the modal was built.
    pub custom_id: String,
    /// The text the user entered.
    pub value: String,
}

/// The abstract shape of a [`TextInput`].
pub struct TextInputV {
    pub custom_id: Seq<char>,
    pub value: Seq<char>,
}

impl TextInput {
    /// The abstract value that contracts speak of.
    pub open spec fn dv(&self) -> TextInputV {
        TextInputV { custom_id: self.custom_id@, value: self.value@ }
    }
}

/// One row of the submitted modal's components.
#[derive(Debug)]
pub struct ActionRow {
    /// The inputs of this row.
    pub components: Vec<TextInput>,
}

/// The abstract shape of an [`ActionRow`].
pub struct ActionRowV {
    pub components: Seq<TextInputV>,
}

/// The element-by-element abstraction of a sequence of text inputs.
pub open spec fn dv_text_inputs(s: Seq<TextInput>) -> Seq<TextInputV> {
    Seq::new(s.len(), |i: int| s[i].dv())
}

impl ActionRow {
    /// The abstract value that contracts speak of.
    pub open spec fn dv(&self) -> ActionRowV {
        ActionRowV { components: dv_text_inputs(self.components@) }
    }
}

/// The element-by-element abstraction of a sequence of rows.
pub open spec fn dv_rows(s: Seq<ActionRow>) -> Seq<ActionRowV> {
    Seq::new(s.len(), |i: int| s[i].dv())
}

/// The data of a submitted modal: which modal it was and what the user
/// entered.
#[derive(Debug)]
pub struct ModalSubmitInteractionData {
    /// The custom identifier of the modal.
    pub custom_id: String,
    /// The components of the modal, row by row.
    pub components: Vec<ActionRow>,
}

/// The abstract shape of a [`ModalSubmitInteractionData`].
pub struct ModalSubmitInteractionDataV {
    pub custom_id: Seq<char>,
    pub components: Seq<ActionRowV>,
}

impl ModalSubmitInteractionData {
    /// The abstract value that contracts speak of.
    pub open spec fn dv(&self) -> ModalSubmitInteractionDataV {
        ModalSubmitInteractionDataV {
            custom_id: self.custom_id@,
            components: dv_rows(self.components@),
        }
    }
}

/// An interaction triggered by a modal submit.
///
/// The record is built once, by decoding an inbound payload, and is read-only
/// afterwards.
#[derive(Debug)]
pub struct ModalSubmitInteraction {
    /// Id of the interaction.
    pub id: String,
    /// Id of the application this interaction is for.
    pub application_id: String,
    /// The data of the interaction which was triggered.
    pub data: ModalSubmitInteractionData,
    /// The guild id this interaction was sent from, if there is one.
    pub guild_id: Option<String>,
    /// The channel id this interaction was sent from.
    pub channel_id: String,
    /// The member data for the invoking user, present only when the
    /// interaction was triggered in a guild.
    pub member: Option<Member>,
    /// The user that invoked the interaction.
    pub user: User,
    /// An opaque continuation token for responding to the interaction.
    pub token: String,
    /// The protocol version; always 1.
    pub version: u8,
    /// The message this interaction was triggered by; absent when the modal
    /// originated from an application command.
    pub message: Option<Message>,
    /// Permission bits the application has in the channel, when known.
    pub app_permissions: Option<u64>,
    /// The selected language of the invoking user.
    pub locale: String,
    /// The guild's preferred locale, when the interaction came from a guild.
    pub guild_locale: Option<String>,
}

/// The abstract shape of a [`ModalSubmitInteraction`].
pub struct ModalSubmitInteractionV {
    pub id: Seq<char>,
    pub application_id: Seq<char>,
    pub data: ModalSubmitInteractionDataV,
    pub guild_id: Option<Seq<char>>,
    pub channel_id: Seq<char>,
    pub member: Option<MemberV>,
    pub user: UserV,
    pub token: Seq<char>,
    pub version: u8,
    pub message: Option<MessageV>,
    pub app_permissions: Option<u64>,
    pub locale: Seq<char>,
    pub guild_locale: Option<Seq<char>>,
}

/// The abstraction of an optional string.
pub open spec fn dv_opt_str(s: Option<String>) -> Option<Seq<char>> {
    match s {
        Some(x) => Some(x@),
        None => None,
    }
}

impl ModalSubmitInteraction {
    /// The abstract value that contracts speak of.
    pub open spec fn dv(&self) -> ModalSubmitInteractionV {
        ModalSubmitInteractionV {
            id: self.id@,
            application_id: self.application_id@,
            data: self.data.dv(),
            guild_id: dv_opt_str(self.guild_id),
            channel_id: self.channel_id@,
            member: match self.member {
                Some(m) => Some(m.dv()),
                None => None,
            },
            user: self.user.dv(),
            token: self.token@,
            version: self.version,
            message: match self.message {
                Some(m) => Some(m.dv()),
                None => None,
            },
            app_permissions: self.app_permissions,
            locale: self.locale@,
            guild_locale: dv_opt_str(self.guild_locale),
        }
    }
}

} // verus!
