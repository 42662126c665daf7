//! The laws the codec obeys, stated over the spec-level decoder and encoder
//! and proved for every record and every document.

use vstd::prelude::*;

use crate::decode::data_of;
use crate::decode::inputs_of;
use crate::decode::member_of;
use crate::decode::message_of;
use crate::decode::opt_member_at;
use crate::decode::opt_message_at;
use crate::decode::opt_str_at;
use crate::decode::opt_u64_at;
use crate::decode::opt_user_at;
use crate::decode::row_of;
use crate::decode::rows_of;
use crate::decode::spec_decode;
use crate::decode::str_at;
use crate::decode::text_input_of;
use crate::decode::user_of;
use crate::decode::version_at;
use crate::encode::data_val;
use crate::encode::inputs_val;
use crate::encode::member_val;
use crate::encode::message_val;
use crate::encode::row_val;
use crate::encode::rows_val;
use crate::encode::spec_encode;
use crate::encode::text_input_val;
use crate::encode::user_val;
use crate::error::DecodeErrorV;
use crate::model::ActionRowV;
use crate::model::MemberV;
use crate::model::MessageV;
use crate::model::ModalSubmitInteractionDataV;
use crate::model::ModalSubmitInteractionV;
use crate::model::TextInputV;
use crate::model::UserV;
use crate::value::lookup;
use crate::value::ValueV;

verus! {

broadcast use crate::value::lemma_lookup_keyed, vstd::seq_lib::group_seq_properties;

/// A user decodes back from its wire value, whatever key it stood under.
pub proof fn lemma_user_roundtrip(u: UserV, key: Seq<char>)
    ensures
        user_of(user_val(u), key) == Ok::<UserV, DecodeErrorV>(u),
{
    let pairs = seq![("id"@, ValueV::Str(u.id))];
    assert(lookup(pairs, "id"@) == Some(ValueV::Str(u.id)));
}

/// A guild member decodes back from its wire value.
pub proof fn lemma_member_roundtrip(m: MemberV, key: Seq<char>)
    ensures
        member_of(member_val(m), key) == Ok::<MemberV, DecodeErrorV>(m),
{
    let pairs = seq![("user"@, user_val(m.user))];
    assert(lookup(pairs, "user"@) == Some(user_val(m.user)));
    lemma_user_roundtrip(m.user, "user"@);
}

/// A message decodes back from its wire value.
pub proof fn lemma_message_roundtrip(m: MessageV, key: Seq<char>)
    ensures
        message_of(message_val(m), key) == Ok::<MessageV, DecodeErrorV>(m),
{
    reveal_strlit("id");
    reveal_strlit("content");
    assert("id"@.len() == 2);
    assert("content"@.len() == 7);
    let pairs = seq![("id"@, ValueV::Str(m.id)), ("content"@, ValueV::Str(m.content))];
    assert(lookup(pairs, "id"@) == Some(ValueV::Str(m.id)));
    assert(pairs.drop_first() =~= seq![("content"@, ValueV::Str(m.content))]);
    assert(lookup(pairs.drop_first(), "content"@) == Some(ValueV::Str(m.content)));
    assert(lookup(pairs, "content"@) == Some(ValueV::Str(m.content)));
}

/// A text input decodes back from its wire value.
pub proof fn lemma_text_input_roundtrip(t: TextInputV, key: Seq<char>)
    ensures
        text_input_of(text_input_val(t), key) == Ok::<TextInputV, DecodeErrorV>(t),
{
    reveal_strlit("custom_id");
    reveal_strlit("value");
    assert("custom_id"@.len() == 9);
    assert("value"@.len() == 5);
    let pairs = seq![("custom_id"@, ValueV::Str(t.custom_id)), ("value"@, ValueV::Str(t.value))];
    assert(lookup(pairs, "custom_id"@) == Some(ValueV::Str(t.custom_id)));
    assert(pairs.drop_first() =~= seq![("value"@, ValueV::Str(t.value))]);
    assert(lookup(pairs.drop_first(), "value"@) == Some(ValueV::Str(t.value)));
    assert(lookup(pairs, "value"@) == Some(ValueV::Str(t.value)));
}

/// A row's inputs decode back from their wire values, element by element.
pub proof fn lemma_inputs_roundtrip(s: Seq<TextInputV>)
    ensures
        inputs_of(inputs_val(s)) == Ok::<Seq<TextInputV>, DecodeErrorV>(s),
    decreases s.len(),
{
    if s.len() == 0 {
        assert(inputs_val(s) =~= Seq::empty());
    } else {
        lemma_inputs_roundtrip(s.drop_last());
        assert(inputs_val(s).drop_last() =~= inputs_val(s.drop_last()));
        assert(inputs_val(s).last() == text_input_val(s.last()));
        lemma_text_input_roundtrip(s.last(), "components"@);
        assert(s.drop_last().push(s.last()) =~= s);
    }
}

/// A row decodes back from its wire value.
pub proof fn lemma_row_roundtrip(r: ActionRowV, key: Seq<char>)
    ensures
        row_of(row_val(r), key) == Ok::<ActionRowV, DecodeErrorV>(r),
{
    let pairs = seq![("components"@, ValueV::List(inputs_val(r.components)))];
    assert(lookup(pairs, "components"@) == Some(ValueV::List(inputs_val(r.components))));
    lemma_inputs_roundtrip(r.components);
}

/// The modal's rows decode back from their wire values, element by element.
pub proof fn lemma_rows_roundtrip(s: Seq<ActionRowV>)
    ensures
        rows_of(rows_val(s)) == Ok::<Seq<ActionRowV>, DecodeErrorV>(s),
    decreases s.len(),
{
    if s.len() == 0 {
        assert(rows_val(s) =~= Seq::empty());
    } else {
        lemma_rows_roundtrip(s.drop_last());
        assert(rows_val(s).drop_last() =~= rows_val(s.drop_last()));
        assert(rows_val(s).last() == row_val(s.last()));
        lemma_row_roundtrip(s.last(), "components"@);
        assert(s.drop_last().push(s.last()) =~= s);
    }
}

/// The modal's data decodes back from its wire value.
pub proof fn lemma_data_roundtrip(d: ModalSubmitInteractionDataV, key: Seq<char>)
    ensures
        data_of(data_val(d), key) == Ok::<ModalSubmitInteractionDataV, DecodeErrorV>(d),
{
    reveal_strlit("custom_id");
    reveal_strlit("components");
    assert("custom_id"@.len() == 9);
    assert("components"@.len() == 10);
    let pairs = seq![
        ("custom_id"@, ValueV::Str(d.custom_id)),
        ("components"@, ValueV::List(rows_val(d.components))),
    ];
    assert(lookup(pairs, "custom_id"@) == Some(ValueV::Str(d.custom_id)));
    assert(pairs.drop_first() =~= seq![("components"@, ValueV::List(rows_val(d.components)))]);
    assert(lookup(pairs.drop_first(), "components"@) == Some(
        ValueV::List(rows_val(d.components)),
    ));
    assert(lookup(pairs, "components"@) == Some(ValueV::List(rows_val(d.components))));
    lemma_rows_roundtrip(d.components);
}

/// Round trip: every record decodes back, field for field, from the document
/// it encodes to.
#[verifier::rlimit(100)]
pub proof fn lemma_encode_decode(m: ModalSubmitInteractionV)
    ensures
        spec_decode(spec_encode(m)) == Ok::<ModalSubmitInteractionV, DecodeErrorV>(m),
{
    reveal_strlit("id");
    reveal_strlit("application_id");
    reveal_strlit("data");
    reveal_strlit("guild_id");
    reveal_strlit("channel_id");
    reveal_strlit("member");
    reveal_strlit("user");
    reveal_strlit("token");
    reveal_strlit("version");
    reveal_strlit("message");
    reveal_strlit("app_permissions");
    reveal_strlit("locale");
    reveal_strlit("guild_locale");
    assert("id"@.len() == 2);
    assert("application_id"@.len() == 14);
    assert("data"@.len() == 4);
    assert("guild_id"@.len() == 8);
    assert("channel_id"@.len() == 10);
    assert("member"@.len() == 6);
    assert("user"@.len() == 4);
    assert("token"@.len() == 5);
    assert("version"@.len() == 7);
    assert("message"@.len() == 7);
    assert("app_permissions"@.len() == 15);
    assert("locale"@.len() == 6);
    assert("guild_locale"@.len() == 12);
    assert("user"@ != "data"@) by {
        assert("user"@[0] == 'u');
        assert("data"@[0] == 'd');
    };
    assert("message"@ != "version"@) by {
        assert("message"@[0] == 'm');
        assert("version"@[0] == 'v');
    };
    assert("locale"@ != "member"@) by {
        assert("locale"@[0] == 'l');
        assert("member"@[0] == 'm');
    };
    let doc = spec_encode(m);
    assert(lookup(doc, "id"@) == Some(ValueV::Str(m.id)));
    assert(lookup(doc, "application_id"@) == Some(ValueV::Str(m.application_id)));
    assert(lookup(doc, "data"@) == Some(data_val(m.data)));
    assert(lookup(doc, "guild_id"@) == match m.guild_id {
        Some(g) => Some(ValueV::Str(g)),
        None => None,
    });
    assert(lookup(doc, "channel_id"@) == Some(ValueV::Str(m.channel_id)));
    assert(lookup(doc, "member"@) == match m.member {
        Some(mm) => Some(member_val(mm)),
        None => None,
    });
    assert(lookup(doc, "user"@) == Some(user_val(m.user)));
    assert(lookup(doc, "token"@) == Some(ValueV::Str(m.token)));
    assert(lookup(doc, "version"@) == Some(ValueV::U64(m.version as u64)));
    assert(lookup(doc, "message"@) == match m.message {
        Some(mm) => Some(message_val(mm)),
        None => None,
    });
    assert(lookup(doc, "app_permissions"@) == match m.app_permissions {
        Some(p) => Some(ValueV::U64(p)),
        None => None,
    });
    assert(lookup(doc, "locale"@) == Some(ValueV::Str(m.locale)));
    assert(lookup(doc, "guild_locale"@) == match m.guild_locale {
        Some(g) => Some(ValueV::Str(g)),
        None => None,
    });
    match m.member {
        Some(mm) => lemma_member_roundtrip(mm, "member"@),
        None => {},
    }
    assert(opt_member_at(doc) == Ok::<Option<MemberV>, DecodeErrorV>(m.member));
    lemma_user_roundtrip(m.user, "user"@);
    assert(opt_user_at(doc) == Ok::<Option<UserV>, DecodeErrorV>(Some(m.user)));
    lemma_data_roundtrip(m.data, "data"@);
    match m.message {
        Some(mm) => lemma_message_roundtrip(mm, "message"@),
        None => {},
    }
    assert(opt_message_at(doc) == Ok::<Option<MessageV>, DecodeErrorV>(m.message));
    assert(str_at(doc, "id"@) == Ok::<Seq<char>, DecodeErrorV>(m.id));
    assert(opt_str_at(doc, "guild_id"@) == Ok::<Option<Seq<char>>, DecodeErrorV>(m.guild_id));
    assert(str_at(doc, "application_id"@) == Ok::<Seq<char>, DecodeErrorV>(m.application_id));
    assert(str_at(doc, "channel_id"@) == Ok::<Seq<char>, DecodeErrorV>(m.channel_id));
    assert(str_at(doc, "token"@) == Ok::<Seq<char>, DecodeErrorV>(m.token));
    assert(version_at(doc, "version"@) == Ok::<u8, DecodeErrorV>(m.version));
    assert(opt_u64_at(doc, "app_permissions"@) == Ok::<Option<u64>, DecodeErrorV>(
        m.app_permissions,
    ));
    assert(str_at(doc, "locale"@) == Ok::<Seq<char>, DecodeErrorV>(m.locale));
    assert(opt_str_at(doc, "guild_locale"@) == Ok::<Option<Seq<char>>, DecodeErrorV>(
        m.guild_locale,
    ));
}

/// A payload that carries an explicit user decodes to that exact user,
/// whether or not a member is present.
pub proof fn lemma_explicit_user_wins(
    doc: Seq<(Seq<char>, ValueV)>,
    m: ModalSubmitInteractionV,
    u: UserV,
)
    requires
        spec_decode(doc) == Ok::<ModalSubmitInteractionV, DecodeErrorV>(m),
        opt_user_at(doc) == Ok::<Option<UserV>, DecodeErrorV>(Some(u)),
    ensures
        m.user == u,
{
}

/// A payload without an explicit user but with a member decodes to the
/// member's embedded user, and keeps the member.
pub proof fn lemma_member_user_fallback(
    doc: Seq<(Seq<char>, ValueV)>,
    m: ModalSubmitInteractionV,
    mm: MemberV,
)
    requires
        spec_decode(doc) == Ok::<ModalSubmitInteractionV, DecodeErrorV>(m),
        opt_user_at(doc) == Ok::<Option<UserV>, DecodeErrorV>(None),
        opt_member_at(doc) == Ok::<Option<MemberV>, DecodeErrorV>(Some(mm)),
    ensures
        m.user == mm.user,
        m.member == Some(mm),
{
}

/// A payload that carries neither a user nor a member fails with the error
/// that names that absence.
pub proof fn lemma_missing_user_and_member(doc: Seq<(Seq<char>, ValueV)>)
    requires
        lookup(doc, "user"@) is None,
        lookup(doc, "member"@) is None,
    ensures
        spec_decode(doc) == Err::<ModalSubmitInteractionV, DecodeErrorV>(
            DecodeErrorV::MissingUserOrMember,
        ),
{
}

/// A payload only decodes when every required key is present, and a user or
/// a member among them.
pub proof fn lemma_decode_needs_required_keys(
    doc: Seq<(Seq<char>, ValueV)>,
    m: ModalSubmitInteractionV,
)
    requires
        spec_decode(doc) == Ok::<ModalSubmitInteractionV, DecodeErrorV>(m),
    ensures
        lookup(doc, "id"@) is Some,
        lookup(doc, "application_id"@) is Some,
        lookup(doc, "data"@) is Some,
        lookup(doc, "channel_id"@) is Some,
        lookup(doc, "token"@) is Some,
        lookup(doc, "version"@) is Some,
        lookup(doc, "locale"@) is Some,
        lookup(doc, "user"@) is Some || lookup(doc, "member"@) is Some,
{
}

/// Decoding reads only the thirteen known keys: two documents that agree on
/// what stands under them decode alike, so any unknown key is ignored.
pub proof fn lemma_unknown_keys_ignored(d1: Seq<(Seq<char>, ValueV)>, d2: Seq<(Seq<char>, ValueV)>)
    requires
        lookup(d1, "id"@) == lookup(d2, "id"@),
        lookup(d1, "application_id"@) == lookup(d2, "application_id"@),
        lookup(d1, "data"@) == lookup(d2, "data"@),
        lookup(d1, "guild_id"@) == lookup(d2, "guild_id"@),
        lookup(d1, "channel_id"@) == lookup(d2, "channel_id"@),
        lookup(d1, "member"@) == lookup(d2, "member"@),
        lookup(d1, "user"@) == lookup(d2, "user"@),
        lookup(d1, "token"@) == lookup(d2, "token"@),
        lookup(d1, "version"@) == lookup(d2, "version"@),
        lookup(d1, "message"@) == lookup(d2, "message"@),
        lookup(d1, "app_permissions"@) == lookup(d2, "app_permissions"@),
        lookup(d1, "locale"@) == lookup(d2, "locale"@),
        lookup(d1, "guild_locale"@) == lookup(d2, "guild_locale"@),
    ensures
        spec_decode(d1) == spec_decode(d2),
{
}

/// A payload without its `token` key never decodes.
pub proof fn lemma_missing_token_fails(doc: Seq<(Seq<char>, ValueV)>)
    requires
        lookup(doc, "token"@) is None,
    ensures
        spec_decode(doc) is Err,
{
}



} // verus!
