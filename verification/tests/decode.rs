use modal_submit::DecodeError;
use modal_submit::ModalSubmitInteraction;
use modal_submit::Value;

fn s(x: &str) -> String {
    x.to_string()
}

fn user_obj(id: &str) -> Value {
    Value::Obj(vec![(s("id"), Value::Str(s(id)))])
}

fn member_obj(id: &str) -> Value {
    Value::Obj(vec![(s("user"), user_obj(id))])
}

fn empty_data() -> Value {
    Value::Obj(vec![(s("custom_id"), Value::Str(s("x"))), (s("components"), Value::List(vec![]))])
}

/// The payload of the worked example: no guild, no member, an explicit user.
fn base_doc() -> Vec<(String, Value)> {
    vec![
        (s("id"), Value::Str(s("1"))),
        (s("application_id"), Value::Str(s("2"))),
        (s("data"), empty_data()),
        (s("channel_id"), Value::Str(s("3"))),
        (s("user"), user_obj("9")),
        (s("token"), Value::Str(s("t"))),
        (s("version"), Value::U64(1)),
        (s("locale"), Value::Str(s("en-US"))),
    ]
}

fn without_key(doc: Vec<(String, Value)>, key: &str) -> Vec<(String, Value)> {
    doc.into_iter().filter(|(k, _)| k != key).collect()
}

fn assert_same(a: &ModalSubmitInteraction, b: &ModalSubmitInteraction) {
    assert_eq!(a.id, b.id);
    assert_eq!(a.application_id, b.application_id);
    assert_eq!(a.data.custom_id, b.data.custom_id);
    assert_eq!(a.data.components.len(), b.data.components.len());
    for (ra, rb) in a.data.components.iter().zip(b.data.components.iter()) {
        assert_eq!(ra.components.len(), rb.components.len());
        for (ta, tb) in ra.components.iter().zip(rb.components.iter()) {
            assert_eq!(ta.custom_id, tb.custom_id);
            assert_eq!(ta.value, tb.value);
        }
    }
    assert_eq!(a.guild_id, b.guild_id);
    assert_eq!(a.channel_id, b.channel_id);
    match (&a.member, &b.member) {
        (None, None) => {}
        (Some(ma), Some(mb)) => assert_eq!(ma.user.id, mb.user.id),
        _ => panic!("member presence differs"),
    }
    assert_eq!(a.user.id, b.user.id);
    assert_eq!(a.token, b.token);
    assert_eq!(a.version, b.version);
    match (&a.message, &b.message) {
        (None, None) => {}
        (Some(ma), Some(mb)) => {
            assert_eq!(ma.id, mb.id);
            assert_eq!(ma.content, mb.content);
        }
        _ => panic!("message presence differs"),
    }
    assert_eq!(a.app_permissions, b.app_permissions);
    assert_eq!(a.locale, b.locale);
    assert_eq!(a.guild_locale, b.guild_locale);
}

#[test]
fn decodes_example_payload() {
    let m = ModalSubmitInteraction::decode(&base_doc()).unwrap();
    assert_eq!(m.id, "1");
    assert_eq!(m.application_id, "2");
    assert_eq!(m.data.custom_id, "x");
    assert!(m.data.components.is_empty());
    assert_eq!(m.channel_id, "3");
    assert_eq!(m.guild_id, None);
    assert!(m.member.is_none());
    assert_eq!(m.user.id, "9");
    assert_eq!(m.token, "t");
    assert_eq!(m.version, 1);
    assert!(m.message.is_none());
    assert_eq!(m.app_permissions, None);
    assert_eq!(m.locale, "en-US");
    assert_eq!(m.guild_locale, None);
}

#[test]
fn decodes_member_payload_with_fallback_user() {
    let mut doc = without_key(base_doc(), "user");
    doc.push((s("member"), member_obj("9")));
    let m = ModalSubmitInteraction::decode(&doc).unwrap();
    assert_eq!(m.user.id, "9");
    let member = m.member.expect("member kept");
    assert_eq!(member.user.id, "9");
}

#[test]
fn explicit_user_wins_over_member() {
    let mut doc = base_doc();
    doc.push((s("member"), member_obj("8")));
    let m = ModalSubmitInteraction::decode(&doc).unwrap();
    assert_eq!(m.user.id, "9");
    assert_eq!(m.member.unwrap().user.id, "8");
}

#[test]
fn missing_user_and_member_fails() {
    let doc = without_key(base_doc(), "user");
    let e = ModalSubmitInteraction::decode(&doc).unwrap_err();
    assert!(matches!(e, DecodeError::MissingUserOrMember));
}

#[test]
fn missing_token_names_the_key() {
    let doc = without_key(base_doc(), "token");
    match ModalSubmitInteraction::decode(&doc).unwrap_err() {
        DecodeError::MissingField(k) => assert_eq!(k, "token"),
        other => panic!("unexpected error: {:?}", variant_name(&other)),
    }
}

#[test]
fn missing_id_names_the_key() {
    let doc = without_key(base_doc(), "id");
    match ModalSubmitInteraction::decode(&doc).unwrap_err() {
        DecodeError::MissingField(k) => assert_eq!(k, "id"),
        _ => panic!("expected a missing-field error"),
    }
}

#[test]
fn wrong_shape_names_the_key() {
    let mut doc = without_key(base_doc(), "token");
    doc.push((s("token"), Value::U64(7)));
    match ModalSubmitInteraction::decode(&doc).unwrap_err() {
        DecodeError::WrongType(k) => assert_eq!(k, "token"),
        _ => panic!("expected a wrong-type error"),
    }
}

#[test]
fn version_out_of_range_is_wrong_type() {
    let mut doc = without_key(base_doc(), "version");
    doc.push((s("version"), Value::U64(300)));
    match ModalSubmitInteraction::decode(&doc).unwrap_err() {
        DecodeError::WrongType(k) => assert_eq!(k, "version"),
        _ => panic!("expected a wrong-type error"),
    }
}

#[test]
fn malformed_member_fails_before_user_fallback() {
    let mut doc = without_key(base_doc(), "user");
    doc.push((s("member"), Value::Str(s("nope"))));
    match ModalSubmitInteraction::decode(&doc).unwrap_err() {
        DecodeError::WrongType(k) => assert_eq!(k, "member"),
        _ => panic!("expected a wrong-type error"),
    }
}

#[test]
fn unknown_keys_are_ignored() {
    let mut doc = base_doc();
    doc.push((s("entitlements"), Value::List(vec![Value::U64(5)])));
    doc.push((s("unknown_future_flag"), Value::Bool(true)));
    let m = ModalSubmitInteraction::decode(&doc).unwrap();
    assert_eq!(m.user.id, "9");
}

#[test]
fn null_optional_keys_decode_to_none() {
    let mut doc = base_doc();
    doc.push((s("guild_id"), Value::Null));
    doc.push((s("guild_locale"), Value::Null));
    let m = ModalSubmitInteraction::decode(&doc).unwrap();
    assert_eq!(m.guild_id, None);
    assert_eq!(m.guild_locale, None);
}

#[test]
fn optional_keys_decode_when_present() {
    let mut doc = base_doc();
    doc.push((s("guild_id"), Value::Str(s("g1"))));
    doc.push((s("app_permissions"), Value::U64(1 << 11)));
    doc.push((s("guild_locale"), Value::Str(s("de"))));
    doc.push((
        s("message"),
        Value::Obj(vec![
            (s("id"), Value::Str(s("m1"))),
            (s("content"), Value::Str(s("hello"))),
        ]),
    ));
    let m = ModalSubmitInteraction::decode(&doc).unwrap();
    assert_eq!(m.guild_id, Some(s("g1")));
    assert_eq!(m.app_permissions, Some(1 << 11));
    assert_eq!(m.guild_locale, Some(s("de")));
    let msg = m.message.unwrap();
    assert_eq!(msg.id, "m1");
    assert_eq!(msg.content, "hello");
}

#[test]
fn decodes_filled_components() {
    let input = Value::Obj(vec![
        (s("custom_id"), Value::Str(s("name"))),
        (s("value"), Value::Str(s("Ferris"))),
    ]);
    let row = Value::Obj(vec![(s("components"), Value::List(vec![input]))]);
    let data = Value::Obj(vec![
        (s("custom_id"), Value::Str(s("form"))),
        (s("components"), Value::List(vec![row])),
    ]);
    let mut doc = without_key(base_doc(), "data");
    doc.push((s("data"), data));
    let m = ModalSubmitInteraction::decode(&doc).unwrap();
    assert_eq!(m.data.custom_id, "form");
    assert_eq!(m.data.components.len(), 1);
    let inputs = &m.data.components[0].components;
    assert_eq!(inputs.len(), 1);
    assert_eq!(inputs[0].custom_id, "name");
    assert_eq!(inputs[0].value, "Ferris");
}

#[test]
fn malformed_component_fails() {
    let row = Value::Obj(vec![(s("components"), Value::List(vec![Value::U64(1)]))]);
    let data = Value::Obj(vec![
        (s("custom_id"), Value::Str(s("form"))),
        (s("components"), Value::List(vec![row])),
    ]);
    let mut doc = without_key(base_doc(), "data");
    doc.push((s("data"), data));
    match ModalSubmitInteraction::decode(&doc).unwrap_err() {
        DecodeError::WrongType(k) => assert_eq!(k, "components"),
        _ => panic!("expected a wrong-type error"),
    }
}

#[test]
fn round_trip_keeps_every_field() {
    let mut doc = base_doc();
    doc.push((s("member"), member_obj("9")));
    doc.push((s("guild_id"), Value::Str(s("g1"))));
    doc.push((s("app_permissions"), Value::U64(2048)));
    doc.push((s("guild_locale"), Value::Str(s("de"))));
    let m = ModalSubmitInteraction::decode(&doc).unwrap();
    let encoded = m.encode();
    let again = ModalSubmitInteraction::decode(&encoded).unwrap();
    assert_same(&m, &again);
}

#[test]
fn round_trip_of_minimal_payload() {
    let m = ModalSubmitInteraction::decode(&base_doc()).unwrap();
    let encoded = m.encode();
    let again = ModalSubmitInteraction::decode(&encoded).unwrap();
    assert_same(&m, &again);
}

#[test]
fn encode_omits_absent_optional_keys() {
    let m = ModalSubmitInteraction::decode(&base_doc()).unwrap();
    let encoded = m.encode();
    let keys: Vec<&str> = encoded.iter().map(|(k, _)| k.as_str()).collect();
    assert!(!keys.contains(&"guild_id"));
    assert!(!keys.contains(&"member"));
    assert!(!keys.contains(&"message"));
    assert!(!keys.contains(&"app_permissions"));
    assert!(!keys.contains(&"guild_locale"));
    assert!(keys.contains(&"id"));
    assert!(keys.contains(&"user"));
    assert!(keys.contains(&"token"));
    assert!(keys.contains(&"version"));
    assert!(keys.contains(&"locale"));
}

#[test]
fn encode_writes_present_optional_keys() {
    let mut doc = base_doc();
    doc.push((s("member"), member_obj("9")));
    doc.push((s("guild_id"), Value::Str(s("g1"))));
    let m = ModalSubmitInteraction::decode(&doc).unwrap();
    let encoded = m.encode();
    let keys: Vec<&str> = encoded.iter().map(|(k, _)| k.as_str()).collect();
    assert!(keys.contains(&"guild_id"));
    assert!(keys.contains(&"member"));
}

fn variant_name(e: &DecodeError) -> &'static str {
    match e {
        DecodeError::MissingField(_) => "missing field",
        DecodeError::WrongType(_) => "wrong type",
        DecodeError::MissingUserOrMember => "missing user or member",
    }
}

#[test]
fn version_with_wrong_shape_names_the_key() {
    let mut doc = without_key(base_doc(), "version");
    doc.push((s("version"), Value::Str(s("1"))));
    match ModalSubmitInteraction::decode(&doc).unwrap_err() {
        DecodeError::WrongType(k) => assert_eq!(k, "version"),
        _ => panic!("expected a wrong-type error"),
    }
}

#[test]
fn unknown_keys_inside_member_are_ignored() {
    let mut doc = without_key(base_doc(), "user");
    doc.push((
        s("member"),
        Value::Obj(vec![
            (s("nick"), Value::Str(s("nickname"))),
            (s("user"), user_obj("9")),
            (s("pending"), Value::Bool(false)),
        ]),
    ));
    let m = ModalSubmitInteraction::decode(&doc).unwrap();
    assert_eq!(m.user.id, "9");
}

#[test]
fn member_without_user_names_the_key() {
    let mut doc = without_key(base_doc(), "user");
    doc.push((s("member"), Value::Obj(vec![(s("nick"), Value::Str(s("n")))])));
    match ModalSubmitInteraction::decode(&doc).unwrap_err() {
        DecodeError::MissingField(k) => assert_eq!(k, "user"),
        _ => panic!("expected a missing-field error"),
    }
}
