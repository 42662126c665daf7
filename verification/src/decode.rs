//! Decoding an untyped key/value document into a [`ModalSubmitInteraction`].
//!
//! Each key is consumed by name. A required key that is absent is a
//! [`DecodeError::MissingField`] naming that key; a key whose value has the
//! wrong shape is a [`DecodeError::WrongType`] naming it; optional keys yield
//! `None` when absent or null. The `user` field falls back to the user
//! embedded in `member`; when both are absent decoding fails with
//! [`DecodeError::MissingUserOrMember`]. Unknown keys are ignored, so that
//! payloads of later versions of the platform's API still decode.

use vstd::prelude::*;

use crate::error::DecodeError;
use crate::error::DecodeErrorV;
use crate::model::ActionRow;
use crate::model::ActionRowV;
use crate::model::Member;
use crate::model::MemberV;
use crate::model::Message;
use crate::model::MessageV;
use crate::model::ModalSubmitInteraction;
use crate::model::ModalSubmitInteractionData;
use crate::model::ModalSubmitInteractionDataV;
use crate::model::ModalSubmitInteractionV;
use crate::model::TextInput;
use crate::model::TextInputV;
use crate::model::User;
use crate::model::UserV;
use crate::model::dv_rows;
use crate::model::dv_text_inputs;
use crate::value::dv_pairs;
use crate::value::dv_seq;
use crate::value::find_key;
use crate::value::lemma_dv_seq;
use crate::value::lookup;
use crate::value::Value;
use crate::value::ValueV;

verus! {

/// The string under `key`, or the error that the lookup produces.
pub open spec fn str_at(doc: Seq<(Seq<char>, ValueV)>, key: Seq<char>) -> Result<
    Seq<char>,
    DecodeErrorV,
> {
    match lookup(doc, key) {
        Option::None => Err(DecodeErrorV::MissingField(key)),
        Option::Some(v) => match v {
            ValueV::Str(s) => Ok(s),
            _ => Err(DecodeErrorV::WrongType(key)),
        },
    }
}

/// The string under the optional `key`: `None` when the key is absent or
/// null, an error when it holds anything but a string.
pub open spec fn opt_str_at(doc: Seq<(Seq<char>, ValueV)>, key: Seq<char>) -> Result<
    Option<Seq<char>>,
    DecodeErrorV,
> {
    match lookup(doc, key) {
        Option::None => Ok(None),
        Option::Some(v) => match v {
            ValueV::Null => Ok(None),
            ValueV::Str(s) => Ok(Some(s)),
            _ => Err(DecodeErrorV::WrongType(key)),
        },
    }
}

/// The number under the optional `key`: `None` when the key is absent or
/// null, an error when it holds anything but a number.
pub open spec fn opt_u64_at(doc: Seq<(Seq<char>, ValueV)>, key: Seq<char>) -> Result<
    Option<u64>,
    DecodeErrorV,
> {
    match lookup(doc, key) {
        Option::None => Ok(None),
        Option::Some(v) => match v {
            ValueV::Null => Ok(None),
            ValueV::U64(n) => Ok(Some(n)),
            _ => Err(DecodeErrorV::WrongType(key)),
        },
    }
}

/// The protocol version under `key`: a required number small enough for the
/// version field.
pub open spec fn version_at(doc: Seq<(Seq<char>, ValueV)>, key: Seq<char>) -> Result<
    u8,
    DecodeErrorV,
> {
    match lookup(doc, key) {
        Option::None => Err(DecodeErrorV::MissingField(key)),
        Option::Some(v) => match v {
            ValueV::U64(n) => if n <= 255 {
                Ok(n as u8)
            } else {
                Err(DecodeErrorV::WrongType(key))
            },
            _ => Err(DecodeErrorV::WrongType(key)),
        },
    }
}

/// A user decoded from the value found under `key`.
pub open spec fn user_of(v: ValueV, key: Seq<char>) -> Result<UserV, DecodeErrorV> {
    match v {
        ValueV::Obj(pairs) => match str_at(pairs, "id"@) {
            Ok(id) => Ok(UserV { id }),
            Err(e) => Err(e),
        },
        _ => Err(DecodeErrorV::WrongType(key)),
    }
}

/// A guild member decoded from the value found under `key`; the embedded
/// `user` is required.
pub open spec fn member_of(v: ValueV, key: Seq<char>) -> Result<MemberV, DecodeErrorV> {
    match v {
        ValueV::Obj(pairs) => match lookup(pairs, "user"@) {
            Option::None => Err(DecodeErrorV::MissingField("user"@)),
            Option::Some(u) => match user_of(u, "user"@) {
                Ok(user) => Ok(MemberV { user }),
                Err(e) => Err(e),
            },
        },
        _ => Err(DecodeErrorV::WrongType(key)),
    }
}

/// A message decoded from the value found under `key`.
pub open spec fn message_of(v: ValueV, key: Seq<char>) -> Result<MessageV, DecodeErrorV> {
    match v {
        ValueV::Obj(pairs) => match str_at(pairs, "id"@) {
            Err(e) => Err(e),
            Ok(id) => match str_at(pairs, "content"@) {
                Err(e) => Err(e),
                Ok(content) => Ok(MessageV { id, content }),
            },
        },
        _ => Err(DecodeErrorV::WrongType(key)),
    }
}

/// A text input decoded from one element of a row's `components` list.
pub open spec fn text_input_of(v: ValueV, key: Seq<char>) -> Result<TextInputV, DecodeErrorV> {
    match v {
        ValueV::Obj(pairs) => match str_at(pairs, "custom_id"@) {
            Err(e) => Err(e),
            Ok(custom_id) => match str_at(pairs, "value"@) {
                Err(e) => Err(e),
                Ok(value) => Ok(TextInputV { custom_id, value }),
            },
        },
        _ => Err(DecodeErrorV::WrongType(key)),
    }
}

/// The text inputs of one row, element by element; the first failure wins.
pub open spec fn inputs_of(s: Seq<ValueV>) -> Result<Seq<TextInputV>, DecodeErrorV>
    decreases s.len(),
{
    if s.len() == 0 {
        Ok(Seq::empty())
    } else {
        match inputs_of(s.drop_last()) {
            Err(e) => Err(e),
            Ok(ts) => match text_input_of(s.last(), "components"@) {
                Err(e) => Err(e),
                Ok(t) => Ok(ts.push(t)),
            },
        }
    }
}

/// A row decoded from one element of the data's `components` list.
pub open spec fn row_of(v: ValueV, key: Seq<char>) -> Result<ActionRowV, DecodeErrorV> {
    match v {
        ValueV::Obj(pairs) => match lookup(pairs, "components"@) {
            Option::None => Err(DecodeErrorV::MissingField("components"@)),
            Option::Some(c) => match c {
                ValueV::List(l) => match inputs_of(l) {
                    Err(e) => Err(e),
                    Ok(components) => Ok(ActionRowV { components }),
                },
                _ => Err(DecodeErrorV::WrongType("components"@)),
            },
        },
        _ => Err(DecodeErrorV::WrongType(key)),
    }
}

/// The rows of the submitted modal, element by element; the first failure
/// wins.
pub open spec fn rows_of(s: Seq<ValueV>) -> Result<Seq<ActionRowV>, DecodeErrorV>
    decreases s.len(),
{
    if s.len() == 0 {
        Ok(Seq::empty())
    } else {
        match rows_of(s.drop_last()) {
            Err(e) => Err(e),
            Ok(rs) => match row_of(s.last(), "components"@) {
                Err(e) => Err(e),
                Ok(r) => Ok(rs.push(r)),
            },
        }
    }
}

/// The modal's data decoded from the value found under `key`.
pub open spec fn data_of(v: ValueV, key: Seq<char>) -> Result<
    ModalSubmitInteractionDataV,
    DecodeErrorV,
> {
    match v {
        ValueV::Obj(pairs) => match str_at(pairs, "custom_id"@) {
            Err(e) => Err(e),
            Ok(custom_id) => match lookup(pairs, "components"@) {
                Option::None => Err(DecodeErrorV::MissingField("components"@)),
                Option::Some(c) => match c {
                    ValueV::List(l) => match rows_of(l) {
                        Err(e) => Err(e),
                        Ok(components) => Ok(
                            ModalSubmitInteractionDataV { custom_id, components },
                        ),
                    },
                    _ => Err(DecodeErrorV::WrongType("components"@)),
                },
            },
        },
        _ => Err(DecodeErrorV::WrongType(key)),
    }
}

/// The optional guild member of the payload.
pub open spec fn opt_member_at(doc: Seq<(Seq<char>, ValueV)>) -> Result<
    Option<MemberV>,
    DecodeErrorV,
> {
    match lookup(doc, "member"@) {
        Option::None => Ok(None),
        Option::Some(v) => match v {
            ValueV::Null => Ok(None),
            _ => match member_of(v, "member"@) {
                Ok(m) => Ok(Some(m)),
                Err(e) => Err(e),
            },
        },
    }
}

/// The optional explicit user of the payload.
pub open spec fn opt_user_at(doc: Seq<(Seq<char>, ValueV)>) -> Result<
    Option<UserV>,
    DecodeErrorV,
> {
    match lookup(doc, "user"@) {
        Option::None => Ok(None),
        Option::Some(v) => match v {
            ValueV::Null => Ok(None),
            _ => match user_of(v, "user"@) {
                Ok(u) => Ok(Some(u)),
                Err(e) => Err(e),
            },
        },
    }
}

/// The optional originating message of the payload.
pub open spec fn opt_message_at(doc: Seq<(Seq<char>, ValueV)>) -> Result<
    Option<MessageV>,
    DecodeErrorV,
> {
    match lookup(doc, "message"@) {
        Option::None => Ok(None),
        Option::Some(v) => match v {
            ValueV::Null => Ok(None),
            _ => match message_of(v, "message"@) {
                Ok(m) => Ok(Some(m)),
                Err(e) => Err(e),
            },
        },
    }
}

/// The required `data` object of the payload.
pub open spec fn data_at(doc: Seq<(Seq<char>, ValueV)>) -> Result<
    ModalSubmitInteractionDataV,
    DecodeErrorV,
> {
    match lookup(doc, "data"@) {
        Option::None => Err(DecodeErrorV::MissingField("data"@)),
        Option::Some(v) => data_of(v, "data"@),
    }
}

/// What decoding a payload yields: the typed record, or the first error in
/// the order the keys are consumed — `member`, `user` (with its fallback),
/// then the remaining keys in the record's field order.
pub open spec fn spec_decode(doc: Seq<(Seq<char>, ValueV)>) -> Result<
    ModalSubmitInteractionV,
    DecodeErrorV,
> {
    match opt_member_at(doc) {
        Err(e) => Err(e),
        Ok(member) => match opt_user_at(doc) {
            Err(e) => Err(e),
            Ok(explicit_user) => {
                let resolved = match explicit_user {
                    Some(u) => Some(u),
                    None => match member {
                        Some(m) => Some(m.user),
                        None => None,
                    },
                };
                match resolved {
                    None => Err(DecodeErrorV::MissingUserOrMember),
                    Some(user) => match str_at(doc, "id"@) {
                        Err(e) => Err(e),
                        Ok(id) => match opt_str_at(doc, "guild_id"@) {
                            Err(e) => Err(e),
                            Ok(guild_id) => match str_at(doc, "application_id"@) {
                                Err(e) => Err(e),
                                Ok(application_id) => match data_at(doc) {
                                    Err(e) => Err(e),
                                    Ok(data) => match str_at(doc, "channel_id"@) {
                                        Err(e) => Err(e),
                                        Ok(channel_id) => match str_at(doc, "token"@) {
                                            Err(e) => Err(e),
                                            Ok(token) => match version_at(doc, "version"@) {
                                                Err(e) => Err(e),
                                                Ok(version) => match opt_message_at(doc) {
                                                    Err(e) => Err(e),
                                                    Ok(message) => match opt_u64_at(
                                                        doc,
                                                        "app_permissions"@,
                                                    ) {
                                                        Err(e) => Err(e),
                                                        Ok(app_permissions) => match str_at(
                                                            doc,
                                                            "locale"@,
                                                        ) {
                                                            Err(e) => Err(e),
                                                            Ok(locale) => match opt_str_at(
                                                                doc,
                                                                "guild_locale"@,
                                                            ) {
                                                                Err(e) => Err(e),
                                                                Ok(guild_locale) => Ok(
                                                                    ModalSubmitInteractionV {
                                                                        id,
                                                                        application_id,
                                                                        data,
                                                                        guild_id,
                                                                        channel_id,
                                                                        member,
                                                                        user,
                                                                        token,
                                                                        version,
                                                                        message,
                                                                        app_permissions,
                                                                        locale,
                                                                        guild_locale,
                                                                    },
                                                                ),
                                                            },
                                                        },
                                                    },
                                                },
                                            },
                                        },
                                    },
                                },
                            },
                        },
                    },
                }
            },
        },
    }
}

/// The abstraction of an optional member.
pub open spec fn dv_opt_member(om: Option<Member>) -> Option<MemberV> {
    match om {
        Some(m) => Some(m.dv()),
        None => None,
    }
}

/// The abstraction of an optional user.
pub open spec fn dv_opt_user(ou: Option<User>) -> Option<UserV> {
    match ou {
        Some(u) => Some(u.dv()),
        None => None,
    }
}

/// The abstraction of an optional message.
pub open spec fn dv_opt_message(om: Option<Message>) -> Option<MessageV> {
    match om {
        Some(m) => Some(m.dv()),
        None => None,
    }
}

/// A copy of a user record.
fn dup_user(u: &User) -> (r: User)
    ensures
        r.dv() == u.dv(),
{
    User { id: u.id.clone() }
}

/// The required string under `key`.
fn str_field(doc: &Vec<(String, Value)>, key: &str) -> (r: Result<String, DecodeError>)
    ensures
        match r {
            Ok(s) => str_at(dv_pairs(doc@), key@) == Ok::<Seq<char>, DecodeErrorV>(s@),
            Err(e) => str_at(dv_pairs(doc@), key@) == Err::<Seq<char>, DecodeErrorV>(e.dv()),
        },
{
    let k = key.to_owned();
    match find_key(doc, &k) {
        Option::None => Err(DecodeError::MissingField(k)),
        Option::Some(v) => match v {
            Value::Str(s) => Ok(s.clone()),
            _ => Err(DecodeError::WrongType(k)),
        },
    }
}

/// The optional string under `key`.
fn opt_str_field(doc: &Vec<(String, Value)>, key: &str) -> (r: Result<Option<String>, DecodeError>)
    ensures
        match r {
            Ok(s) => opt_str_at(dv_pairs(doc@), key@) == Ok::<_, DecodeErrorV>(
                crate::model::dv_opt_str(s),
            ),
            Err(e) => opt_str_at(dv_pairs(doc@), key@) == Err::<Option<Seq<char>>, _>(e.dv()),
        },
{
    let k = key.to_owned();
    match find_key(doc, &k) {
        Option::None => Ok(None),
        Option::Some(v) => match v {
            Value::Null => Ok(None),
            Value::Str(s) => Ok(Some(s.clone())),
            _ => Err(DecodeError::WrongType(k)),
        },
    }
}

/// The optional number under `key`.
fn opt_u64_field(doc: &Vec<(String, Value)>, key: &str) -> (r: Result<Option<u64>, DecodeError>)
    ensures
        match r {
            Ok(n) => opt_u64_at(dv_pairs(doc@), key@) == Ok::<_, DecodeErrorV>(n),
            Err(e) => opt_u64_at(dv_pairs(doc@), key@) == Err::<Option<u64>, _>(e.dv()),
        },
{
    let k = key.to_owned();
    match find_key(doc, &k) {
        Option::None => Ok(None),
        Option::Some(v) => match v {
            Value::Null => Ok(None),
            Value::U64(n) => Ok(Some(*n)),
            _ => Err(DecodeError::WrongType(k)),
        },
    }
}

/// The required protocol version under `key`.
fn version_field(doc: &Vec<(String, Value)>, key: &str) -> (r: Result<u8, DecodeError>)
    ensures
        match r {
            Ok(n) => version_at(dv_pairs(doc@), key@) == Ok::<_, DecodeErrorV>(n),
            Err(e) => version_at(dv_pairs(doc@), key@) == Err::<u8, _>(e.dv()),
        },
{
    let k = key.to_owned();
    match find_key(doc, &k) {
        Option::None => Err(DecodeError::MissingField(k)),
        Option::Some(v) => match v {
            Value::U64(n) => if *n <= 255 {
                Ok(*n as u8)
            } else {
                Err(DecodeError::WrongType(k))
            },
            _ => Err(DecodeError::WrongType(k)),
        },
    }
}

/// A user decoded from `v`, found under `key`.
fn decode_user(v: &Value, key: &str) -> (r: Result<User, DecodeError>)
    ensures
        match r {
            Ok(u) => user_of(v.dv(), key@) == Ok::<_, DecodeErrorV>(u.dv()),
            Err(e) => user_of(v.dv(), key@) == Err::<UserV, _>(e.dv()),
        },
{
    match v {
        Value::Obj(pairs) => match str_field(pairs, "id") {
            Ok(id) => Ok(User { id }),
            Err(e) => Err(e),
        },
        _ => Err(DecodeError::WrongType(key.to_owned())),
    }
}

/// A guild member decoded from `v`, found under `key`.
fn decode_member(v: &Value, key: &str) -> (r: Result<Member, DecodeError>)
    ensures
        match r {
            Ok(m) => member_of(v.dv(), key@) == Ok::<_, DecodeErrorV>(m.dv()),
            Err(e) => member_of(v.dv(), key@) == Err::<MemberV, _>(e.dv()),
        },
{
    match v {
        Value::Obj(pairs) => {
            let k = "user".to_owned();
            match find_key(pairs, &k) {
                Option::None => Err(DecodeError::MissingField(k)),
                Option::Some(u) => match decode_user(u, "user") {
                    Ok(user) => Ok(Member { user }),
                    Err(e) => Err(e),
                },
            }
        },
        _ => Err(DecodeError::WrongType(key.to_owned())),
    }
}

/// A message decoded from `v`, found under `key`.
pub(crate) fn decode_message(v: &Value, key: &str) -> (r: Result<Message, DecodeError>)
    ensures
        match r {
            Ok(m) => message_of(v.dv(), key@) == Ok::<_, DecodeErrorV>(m.dv()),
            Err(e) => message_of(v.dv(), key@) == Err::<MessageV, _>(e.dv()),
        },
{
    match v {
        Value::Obj(pairs) => match str_field(pairs, "id") {
            Err(e) => Err(e),
            Ok(id) => match str_field(pairs, "content") {
                Err(e) => Err(e),
                Ok(content) => Ok(Message { id, content }),
            },
        },
        _ => Err(DecodeError::WrongType(key.to_owned())),
    }
}

/// A text input decoded from `v`, an element of a row's `components` list.
fn decode_text_input(v: &Value, key: &str) -> (r: Result<TextInput, DecodeError>)
    ensures
        match r {
            Ok(t) => text_input_of(v.dv(), key@) == Ok::<_, DecodeErrorV>(t.dv()),
            Err(e) => text_input_of(v.dv(), key@) == Err::<TextInputV, _>(e.dv()),
        },
{
    match v {
        Value::Obj(pairs) => match str_field(pairs, "custom_id") {
            Err(e) => Err(e),
            Ok(custom_id) => match str_field(pairs, "value") {
                Err(e) => Err(e),
                Ok(value) => Ok(TextInput { custom_id, value }),
            },
        },
        _ => Err(DecodeError::WrongType(key.to_owned())),
    }
}

/// A failing prefix decides `inputs_of` for the whole sequence.
proof fn lemma_inputs_of_prefix_err(s: Seq<ValueV>, i: int)
    requires
        0 <= i <= s.len(),
        inputs_of(s.subrange(0, i)) is Err,
    ensures
        inputs_of(s) == inputs_of(s.subrange(0, i)),
    decreases s.len() - i,
{
    if i == s.len() {
        assert(s.subrange(0, i) =~= s);
    } else {
        assert(s.subrange(0, i + 1).drop_last() =~= s.subrange(0, i));
        lemma_inputs_of_prefix_err(s, i + 1);
    }
}

/// A failing prefix decides `rows_of` for the whole sequence.
proof fn lemma_rows_of_prefix_err(s: Seq<ValueV>, i: int)
    requires
        0 <= i <= s.len(),
        rows_of(s.subrange(0, i)) is Err,
    ensures
        rows_of(s) == rows_of(s.subrange(0, i)),
    decreases s.len() - i,
{
    if i == s.len() {
        assert(s.subrange(0, i) =~= s);
    } else {
        assert(s.subrange(0, i + 1).drop_last() =~= s.subrange(0, i));
        lemma_rows_of_prefix_err(s, i + 1);
    }
}

/// The text inputs of one row, decoded element by element.
fn decode_inputs(l: &Vec<Value>) -> (r: Result<Vec<TextInput>, DecodeError>)
    ensures
        match r {
            Ok(ts) => inputs_of(dv_seq(l@)) == Ok::<_, DecodeErrorV>(dv_text_inputs(ts@)),
            Err(e) => inputs_of(dv_seq(l@)) == Err::<Seq<TextInputV>, _>(e.dv()),
        },
{
    let ghost s = dv_seq(l@);
    let mut acc: Vec<TextInput> = Vec::new();
    let n = l.len();
    let mut i: usize = 0;
    proof {
        lemma_dv_seq(l@);
        assert(s.subrange(0, 0) =~= Seq::empty());
        assert(dv_text_inputs(acc@) =~= Seq::empty());
    }
    while i < n
        invariant
            n == l.len(),
            i <= n,
            s == dv_seq(l@),
            s.len() == n,
            forall|j: int| 0 <= j < n ==> s[j] == l@[j].dv(),
            inputs_of(s.subrange(0, i as int)) == Ok::<_, DecodeErrorV>(dv_text_inputs(acc@)),
        decreases n - i,
    {
        let ghost prev = acc@;
        match decode_text_input(&l[i], "components") {
            Ok(t) => {
                acc.push(t);
                proof {
                    assert(s.subrange(0, i + 1).drop_last() =~= s.subrange(0, i as int));
                    assert(s.subrange(0, i + 1).last() == s[i as int]);
                    assert(dv_text_inputs(acc@) =~= dv_text_inputs(prev).push(t.dv()));
                }
            },
            Err(e) => {
                proof {
                    assert(s.subrange(0, i + 1).drop_last() =~= s.subrange(0, i as int));
                    assert(s.subrange(0, i + 1).last() == s[i as int]);
                    assert(inputs_of(s.subrange(0, i + 1)) == Err::<Seq<TextInputV>, _>(e.dv()));
                    lemma_inputs_of_prefix_err(s, i + 1);
                }
                return Err(e);
            },
        }
        i += 1;
    }
    proof {
        assert(s.subrange(0, n as int) =~= s);
    }
    Ok(acc)
}

/// A row decoded from `v`, an element of the data's `components` list.
fn decode_row(v: &Value, key: &str) -> (r: Result<ActionRow, DecodeError>)
    ensures
        match r {
            Ok(row) => row_of(v.dv(), key@) == Ok::<_, DecodeErrorV>(row.dv()),
            Err(e) => row_of(v.dv(), key@) == Err::<ActionRowV, _>(e.dv()),
        },
{
    match v {
        Value::Obj(pairs) => {
            let k = "components".to_owned();
            match find_key(pairs, &k) {
                Option::None => Err(DecodeError::MissingField(k)),
                Option::Some(c) => match c {
                    Value::List(l) => match decode_inputs(l) {
                        Err(e) => Err(e),
                        Ok(components) => Ok(ActionRow { components }),
                    },
                    _ => Err(DecodeError::WrongType(k)),
                },
            }
        },
        _ => Err(DecodeError::WrongType(key.to_owned())),
    }
}

/// The rows of the submitted modal, decoded element by element.
fn decode_rows(l: &Vec<Value>) -> (r: Result<Vec<ActionRow>, DecodeError>)
    ensures
        match r {
            Ok(rs) => rows_of(dv_seq(l@)) == Ok::<_, DecodeErrorV>(dv_rows(rs@)),
            Err(e) => rows_of(dv_seq(l@)) == Err::<Seq<ActionRowV>, _>(e.dv()),
        },
{
    let ghost s = dv_seq(l@);
    let mut acc: Vec<ActionRow> = Vec::new();
    let n = l.len();
    let mut i: usize = 0;
    proof {
        lemma_dv_seq(l@);
        assert(s.subrange(0, 0) =~= Seq::empty());
        assert(dv_rows(acc@) =~= Seq::empty());
    }
    while i < n
        invariant
            n == l.len(),
            i <= n,
            s == dv_seq(l@),
            s.len() == n,
            forall|j: int| 0 <= j < n ==> s[j] == l@[j].dv(),
            rows_of(s.subrange(0, i as int)) == Ok::<_, DecodeErrorV>(dv_rows(acc@)),
        decreases n - i,
    {
        let ghost prev = acc@;
        match decode_row(&l[i], "components") {
            Ok(row) => {
                acc.push(row);
                proof {
                    assert(s.subrange(0, i + 1).drop_last() =~= s.subrange(0, i as int));
                    assert(s.subrange(0, i + 1).last() == s[i as int]);
                    assert(dv_rows(acc@) =~= dv_rows(prev).push(row.dv()));
                }
            },
            Err(e) => {
                proof {
                    assert(s.subrange(0, i + 1).drop_last() =~= s.subrange(0, i as int));
                    assert(s.subrange(0, i + 1).last() == s[i as int]);
                    assert(rows_of(s.subrange(0, i + 1)) == Err::<Seq<ActionRowV>, _>(e.dv()));
                    lemma_rows_of_prefix_err(s, i + 1);
                }
                return Err(e);
            },
        }
        i += 1;
    }
    proof {
        assert(s.subrange(0, n as int) =~= s);
    }
    Ok(acc)
}

/// The modal's data decoded from `v`, found under `key`.
fn decode_data(v: &Value, key: &str) -> (r: Result<ModalSubmitInteractionData, DecodeError>)
    ensures
        match r {
            Ok(d) => data_of(v.dv(), key@) == Ok::<_, DecodeErrorV>(d.dv()),
            Err(e) => data_of(v.dv(), key@) == Err::<ModalSubmitInteractionDataV, _>(e.dv()),
        },
{
    match v {
        Value::Obj(pairs) => match str_field(pairs, "custom_id") {
            Err(e) => Err(e),
            Ok(custom_id) => {
                let k = "components".to_owned();
                match find_key(pairs, &k) {
                    Option::None => Err(DecodeError::MissingField(k)),
                    Option::Some(c) => match c {
                        Value::List(l) => match decode_rows(l) {
                            Err(e) => Err(e),
                            Ok(components) => Ok(
                                ModalSubmitInteractionData { custom_id, components },
                            ),
                        },
                        _ => Err(DecodeError::WrongType(k)),
                    },
                }
            },
        },
        _ => Err(DecodeError::WrongType(key.to_owned())),
    }
}

/// The optional guild member of the payload.
fn opt_member_field(doc: &Vec<(String, Value)>) -> (r: Result<Option<Member>, DecodeError>)
    ensures
        match r {
            Ok(om) => opt_member_at(dv_pairs(doc@)) == Ok::<_, DecodeErrorV>(dv_opt_member(om)),
            Err(e) => opt_member_at(dv_pairs(doc@)) == Err::<Option<MemberV>, _>(e.dv()),
        },
{
    let k = "member".to_owned();
    match find_key(doc, &k) {
        Option::None => Ok(None),
        Option::Some(v) => match v {
            Value::Null => Ok(None),
            _ => match decode_member(v, "member") {
                Ok(m) => Ok(Some(m)),
                Err(e) => Err(e),
            },
        },
    }
}

/// The optional explicit user of the payload.
fn opt_user_field(doc: &Vec<(String, Value)>) -> (r: Result<Option<User>, DecodeError>)
    ensures
        match r {
            Ok(ou) => opt_user_at(dv_pairs(doc@)) == Ok::<_, DecodeErrorV>(dv_opt_user(ou)),
            Err(e) => opt_user_at(dv_pairs(doc@)) == Err::<Option<UserV>, _>(e.dv()),
        },
{
    let k = "user".to_owned();
    match find_key(doc, &k) {
        Option::None => Ok(None),
        Option::Some(v) => match v {
            Value::Null => Ok(None),
            _ => match decode_user(v, "user") {
                Ok(u) => Ok(Some(u)),
                Err(e) => Err(e),
            },
        },
    }
}

/// The optional originating message of the payload.
fn opt_message_field(doc: &Vec<(String, Value)>) -> (r: Result<Option<Message>, DecodeError>)
    ensures
        match r {
            Ok(om) => opt_message_at(dv_pairs(doc@)) == Ok::<_, DecodeErrorV>(dv_opt_message(om)),
            Err(e) => opt_message_at(dv_pairs(doc@)) == Err::<Option<MessageV>, _>(e.dv()),
        },
{
    let k = "message".to_owned();
    match find_key(doc, &k) {
        Option::None => Ok(None),
        Option::Some(v) => match v {
            Value::Null => Ok(None),
            _ => match decode_message(v, "message") {
                Ok(m) => Ok(Some(m)),
                Err(e) => Err(e),
            },
        },
    }
}

/// The required `data` object of the payload.
fn data_field(doc: &Vec<(String, Value)>) -> (r: Result<ModalSubmitInteractionData, DecodeError>)
    ensures
        match r {
            Ok(d) => data_at(dv_pairs(doc@)) == Ok::<_, DecodeErrorV>(d.dv()),
            Err(e) => data_at(dv_pairs(doc@)) == Err::<ModalSubmitInteractionDataV, _>(e.dv()),
        },
{
    let k = "data".to_owned();
    match find_key(doc, &k) {
        Option::None => Err(DecodeError::MissingField(k)),
        Option::Some(v) => decode_data(v, "data"),
    }
}

impl ModalSubmitInteraction {
    /// Decodes a payload, given as a key/value document, into the typed
    /// record, or fails with the first decode error in the order the keys
    /// are consumed. Unknown keys are ignored.
    pub fn decode(doc: &Vec<(String, Value)>) -> (r: Result<ModalSubmitInteraction, DecodeError>)
        ensures
            match r {
                Ok(m) => spec_decode(dv_pairs(doc@)) == Ok::<_, DecodeErrorV>(m.dv()),
                Err(e) => spec_decode(dv_pairs(doc@)) == Err::<ModalSubmitInteractionV, _>(e.dv()),
            },
    {
        let member = match opt_member_field(doc) {
            Ok(m) => m,
            Err(e) => return Err(e),
        };
        let explicit_user = match opt_user_field(doc) {
            Ok(u) => u,
            Err(e) => return Err(e),
        };
        let user: User = match explicit_user {
            Some(u) => u,
            None => match &member {
                Some(m) => dup_user(&m.user),
                None => return Err(DecodeError::MissingUserOrMember),
            },
        };
        let id = match str_field(doc, "id") {
            Ok(s) => s,
            Err(e) => return Err(e),
        };
        let guild_id = match opt_str_field(doc, "guild_id") {
            Ok(s) => s,
            Err(e) => return Err(e),
        };
        let application_id = match str_field(doc, "application_id") {
            Ok(s) => s,
            Err(e) => return Err(e),
        };
        let data = match data_field(doc) {
            Ok(d) => d,
            Err(e) => return Err(e),
        };
        let channel_id = match str_field(doc, "channel_id") {
            Ok(s) => s,
            Err(e) => return Err(e),
        };
        let token = match str_field(doc, "token") {
            Ok(s) => s,
            Err(e) => return Err(e),
        };
        let version = match version_field(doc, "version") {
            Ok(n) => n,
            Err(e) => return Err(e),
        };
        let message = match opt_message_field(doc) {
            Ok(m) => m,
            Err(e) => return Err(e),
        };
        let app_permissions = match opt_u64_field(doc, "app_permissions") {
            Ok(n) => n,
            Err(e) => return Err(e),
        };
        let locale = match str_field(doc, "locale") {
            Ok(s) => s,
            Err(e) => return Err(e),
        };
        let guild_locale = match opt_str_field(doc, "guild_locale") {
            Ok(s) => s,
            Err(e) => return Err(e),
        };
        Ok(
            ModalSubmitInteraction {
                id,
                application_id,
                data,
                guild_id,
                channel_id,
                member,
                user,
                token,
                version,
                message,
                app_permissions,
                locale,
                guild_locale,
            },
        )
    }
}

} // verus!
