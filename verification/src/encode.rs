//! Encoding a typed record back to the wire's key/value shape.
//!
//! The encoder writes the typed fields back under the same key names the
//! decoder consumes, and omits the keys whose optional value is absent.

use vstd::prelude::*;

use crate::model::ActionRow;
use crate::model::ActionRowV;
use crate::model::Member;
use crate::model::MemberV;
use crate::model::Message;
use crate::model::MessageV;
use crate::model::ModalSubmitInteraction;
use crate::model::ModalSubmitInteractionData;
use crate::model::ModalSubmitInteractionDataV;
use crate::model::ModalSubmitInteractionV;
use crate::model::TextInput;
use crate::model::TextInputV;
use crate::model::User;
use crate::model::UserV;
use crate::model::dv_rows;
use crate::model::dv_text_inputs;
use crate::value::dv_pairs;
use crate::value::dv_seq;
use crate::value::keyed;
use crate::value::lemma_dv_pairs;
use crate::value::lemma_dv_seq;
use crate::value::Value;
use crate::value::ValueV;

verus! {

/// The wire value of a user.
pub open spec fn user_val(u: UserV) -> ValueV {
    ValueV::Obj(seq![("id"@, ValueV::Str(u.id))])
}

/// The wire value of a guild member.
pub open spec fn member_val(m: MemberV) -> ValueV {
    ValueV::Obj(seq![("user"@, user_val(m.user))])
}

/// The wire value of a message.
pub open spec fn message_val(m: MessageV) -> ValueV {
    ValueV::Obj(seq![("id"@, ValueV::Str(m.id)), ("content"@, ValueV::Str(m.content))])
}

/// The wire value of a text input.
pub open spec fn text_input_val(t: TextInputV) -> ValueV {
    ValueV::Obj(
        seq![("custom_id"@, ValueV::Str(t.custom_id)), ("value"@, ValueV::Str(t.value))],
    )
}

/// The wire values of a row's inputs, element by element.
pub open spec fn inputs_val(s: Seq<TextInputV>) -> Seq<ValueV> {
    Seq::new(s.len(), |i: int| text_input_val(s[i]))
}

/// The wire value of a row.
pub open spec fn row_val(r: ActionRowV) -> ValueV {
    ValueV::Obj(seq![("components"@, ValueV::List(inputs_val(r.components)))])
}

/// The wire values of the modal's rows, element by element.
pub open spec fn rows_val(s: Seq<ActionRowV>) -> Seq<ValueV> {
    Seq::new(s.len(), |i: int| row_val(s[i]))
}

/// The wire value of the modal's data.
pub open spec fn data_val(d: ModalSubmitInteractionDataV) -> ValueV {
    ValueV::Obj(
        seq![
            ("custom_id"@, ValueV::Str(d.custom_id)),
            ("components"@, ValueV::List(rows_val(d.components))),
        ],
    )
}

/// A pair written only when the optional value is present.
pub open spec fn opt_entry(
    key: Seq<char>,
    ov: Option<ValueV>,
    rest: Seq<(Seq<char>, ValueV)>,
) -> Seq<(Seq<char>, ValueV)> {
    match ov {
        Some(v) => keyed(key, v, rest),
        None => rest,
    }
}

/// The wire value of an optional string.
pub open spec fn opt_str_val(o: Option<Seq<char>>) -> Option<ValueV> {
    match o {
        Some(s) => Some(ValueV::Str(s)),
        None => None,
    }
}

/// The wire value of an optional number.
pub open spec fn opt_u64_val(o: Option<u64>) -> Option<ValueV> {
    match o {
        Some(n) => Some(ValueV::U64(n)),
        None => None,
    }
}

/// The wire value of the optional member.
pub open spec fn opt_member_val(o: Option<MemberV>) -> Option<ValueV> {
    match o {
        Some(m) => Some(member_val(m)),
        None => None,
    }
}

/// The wire value of the optional message.
pub open spec fn opt_message_val(o: Option<MessageV>) -> Option<ValueV> {
    match o {
        Some(m) => Some(message_val(m)),
        None => None,
    }
}

/// The document a record encodes to: the typed fields under their wire key
/// names, keys of absent optional fields omitted.
pub open spec fn spec_encode(m: ModalSubmitInteractionV) -> Seq<(Seq<char>, ValueV)> {
    keyed(
        "id"@,
        ValueV::Str(m.id),
        keyed(
            "application_id"@,
            ValueV::Str(m.application_id),
            keyed(
                "data"@,
                data_val(m.data),
                opt_entry(
                    "guild_id"@,
                    opt_str_val(m.guild_id),
                    keyed(
                        "channel_id"@,
                        ValueV::Str(m.channel_id),
                        opt_entry(
                            "member"@,
                            opt_member_val(m.member),
                            keyed(
                                "user"@,
                                user_val(m.user),
                                keyed(
                                    "token"@,
                                    ValueV::Str(m.token),
                                    keyed(
                                        "version"@,
                                        ValueV::U64(m.version as u64),
                                        opt_entry(
                                            "message"@,
                                            opt_message_val(m.message),
                                            opt_entry(
                                                "app_permissions"@,
                                                opt_u64_val(m.app_permissions),
                                                keyed(
                                                    "locale"@,
                                                    ValueV::Str(m.locale),
                                                    opt_entry(
                                                        "guild_locale"@,
                                                        opt_str_val(m.guild_locale),
                                                        Seq::empty(),
                                                    ),
                                                ),
                                            ),
                                        ),
                                    ),
                                ),
                            ),
                        ),
                    ),
                ),
            ),
        ),
    )
}

/// The wire value of a user.
fn encode_user(u: &User) -> (v: Value)
    ensures
        v.dv() == user_val(u.dv()),
{
    let pairs: Vec<(String, Value)> = vec![("id".to_owned(), Value::Str(u.id.clone()))];
    proof {
        lemma_dv_pairs(pairs@);
        assert(dv_pairs(pairs@) =~= seq![("id"@, ValueV::Str(u.id@))]);
    }
    Value::Obj(pairs)
}

/// The wire value of a guild member.
fn encode_member(m: &Member) -> (v: Value)
    ensures
        v.dv() == member_val(m.dv()),
{
    let user = encode_user(&m.user);
    let ghost uv = user.dv();
    let pairs: Vec<(String, Value)> = vec![("user".to_owned(), user)];
    proof {
        lemma_dv_pairs(pairs@);
        assert(dv_pairs(pairs@) =~= seq![("user"@, uv)]);
    }
    Value::Obj(pairs)
}

/// The wire value of a message.
fn encode_message(m: &Message) -> (v: Value)
    ensures
        v.dv() == message_val(m.dv()),
{
    let pairs: Vec<(String, Value)> = vec![
        ("id".to_owned(), Value::Str(m.id.clone())),
        ("content".to_owned(), Value::Str(m.content.clone())),
    ];
    proof {
        lemma_dv_pairs(pairs@);
        assert(dv_pairs(pairs@) =~= seq![
            ("id"@, ValueV::Str(m.id@)),
            ("content"@, ValueV::Str(m.content@)),
        ]);
    }
    Value::Obj(pairs)
}

/// The wire value of a text input.
fn encode_text_input(t: &TextInput) -> (v: Value)
    ensures
        v.dv() == text_input_val(t.dv()),
{
    let pairs: Vec<(String, Value)> = vec![
        ("custom_id".to_owned(), Value::Str(t.custom_id.clone())),
        ("value".to_owned(), Value::Str(t.value.clone())),
    ];
    proof {
        lemma_dv_pairs(pairs@);
        assert(dv_pairs(pairs@) =~= seq![
            ("custom_id"@, ValueV::Str(t.custom_id@)),
            ("value"@, ValueV::Str(t.value@)),
        ]);
    }
    Value::Obj(pairs)
}

/// The wire values of a row's inputs.
fn encode_inputs(ts: &Vec<TextInput>) -> (r: Vec<Value>)
    ensures
        dv_seq(r@) == inputs_val(dv_text_inputs(ts@)),
{
    let mut out: Vec<Value> = Vec::new();
    let n = ts.len();
    let mut i: usize = 0;
    while i < n
        invariant
            n == ts.len(),
            i <= n,
            out.len() == i,
            forall|j: int| 0 <= j < i ==> out@[j].dv() == text_input_val(ts@[j].dv()),
        decreases n - i,
    {
        out.push(encode_text_input(&ts[i]));
        i += 1;
    }
    proof {
        lemma_dv_seq(out@);
        assert(dv_seq(out@) =~= inputs_val(dv_text_inputs(ts@)));
    }
    out
}

/// The wire value of a row.
fn encode_row(row: &ActionRow) -> (v: Value)
    ensures
        v.dv() == row_val(row.dv()),
{
    let components = encode_inputs(&row.components);
    let ghost cv = dv_seq(components@);
    let pairs: Vec<(String, Value)> = vec![
        ("components".to_owned(), Value::List(components)),
    ];
    proof {
        lemma_dv_pairs(pairs@);
        assert(dv_pairs(pairs@) =~= seq![("components"@, ValueV::List(cv))]);
    }
    Value::Obj(pairs)
}

/// The wire values of the modal's rows.
fn encode_rows(rs: &Vec<ActionRow>) -> (r: Vec<Value>)
    ensures
        dv_seq(r@) == rows_val(dv_rows(rs@)),
{
    let mut out: Vec<Value> = Vec::new();
    let n = rs.len();
    let mut i: usize = 0;
    while i < n
        invariant
            n == rs.len(),
            i <= n,
            out.len() == i,
            forall|j: int| 0 <= j < i ==> out@[j].dv() == row_val(rs@[j].dv()),
        decreases n - i,
    {
        out.push(encode_row(&rs[i]));
        i += 1;
    }
    proof {
        lemma_dv_seq(out@);
        assert(dv_seq(out@) =~= rows_val(dv_rows(rs@)));
    }
    out
}

/// The wire value of the modal's data.
fn encode_data(d: &ModalSubmitInteractionData) -> (v: Value)
    ensures
        v.dv() == data_val(d.dv()),
{
    let components = encode_rows(&d.components);
    let ghost cv = dv_seq(components@);
    let pairs: Vec<(String, Value)> = vec![
        ("custom_id".to_owned(), Value::Str(d.custom_id.clone())),
        ("components".to_owned(), Value::List(components)),
    ];
    proof {
        lemma_dv_pairs(pairs@);
        assert(dv_pairs(pairs@) =~= seq![
            ("custom_id"@, ValueV::Str(d.custom_id@)),
            ("components"@, ValueV::List(cv)),
        ]);
    }
    Value::Obj(pairs)
}

impl ModalSubmitInteraction {
    /// Encodes the record back to the wire's key/value shape, omitting the
    /// keys of absent optional fields.
    #[verifier::rlimit(100)]
    pub fn encode(&self) -> (r: Vec<(String, Value)>)
        ensures
            dv_pairs(r@) == spec_encode(self.dv()),
    {
        let mut out: Vec<(String, Value)> = Vec::new();
        out.push(("id".to_owned(), Value::Str(self.id.clone())));
        out.push(("application_id".to_owned(), Value::Str(self.application_id.clone())));
        out.push(("data".to_owned(), encode_data(&self.data)));
        match &self.guild_id {
            Some(g) => out.push(("guild_id".to_owned(), Value::Str(g.clone()))),
            None => {},
        }
        out.push(("channel_id".to_owned(), Value::Str(self.channel_id.clone())));
        match &self.member {
            Some(m) => out.push(("member".to_owned(), encode_member(m))),
            None => {},
        }
        out.push(("user".to_owned(), encode_user(&self.user)));
        out.push(("token".to_owned(), Value::Str(self.token.clone())));
        out.push(("version".to_owned(), Value::U64(self.version as u64)));
        match &self.message {
            Some(m) => out.push(("message".to_owned(), encode_message(m))),
            None => {},
        }
        match &self.app_permissions {
            Some(p) => out.push(("app_permissions".to_owned(), Value::U64(*p))),
            None => {},
        }
        out.push(("locale".to_owned(), Value::Str(self.locale.clone())));
        match &self.guild_locale {
            Some(g) => out.push(("guild_locale".to_owned(), Value::Str(g.clone()))),
            None => {},
        }
        proof {
            lemma_dv_pairs(out@);
            assert(dv_pairs(out@) =~= spec_encode(self.dv()));
        }
        out
    }
}

} // verus!
