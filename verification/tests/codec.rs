use chat_engine::codec::classify;
use chat_engine::codec::encode_chat_envelope;
use chat_engine::codec::encode_text_envelope;
use chat_engine::codec::parse_envelope;
use chat_engine::codec::Inbound;
use chat_engine::codec::Payload;
use chat_engine::message::ChatMessage;

#[test]
fn classify_chat_payload() {
    let raw = "{\"path\":\"/message\",\"content\":{\"nick\":\"bob\",\"message\":\"hi\"}}";
    match classify(raw) {
        Inbound::Chat(m) => {
            assert_eq!(m.nick, "bob");
            assert_eq!(m.message, "hi");
        }
        _ => panic!("expected a chat message"),
    }
}

#[test]
fn classify_chat_payload_field_order_irrelevant() {
    let raw = "{\"path\":\"/message\",\"content\":{\"message\":\"hi\",\"nick\":\"bob\"}}";
    match classify(raw) {
        Inbound::Chat(m) => {
            assert_eq!(m.nick, "bob");
            assert_eq!(m.message, "hi");
        }
        _ => panic!("expected a chat message"),
    }
}

#[test]
fn classify_join_payload() {
    let raw = "{\"path\":\"/join\",\"content\":{\"join_nick\":\"alice\"}}";
    match classify(raw) {
        Inbound::Join(n) => assert_eq!(n, "alice"),
        _ => panic!("expected a join request"),
    }
}

#[test]
fn classify_path_does_not_drive_dispatch() {
    let raw = "{\"path\":\"/whatever\",\"content\":{\"join_nick\":\"alice\"}}";
    assert!(matches!(classify(raw), Inbound::Join(_)));
}

#[test]
fn classify_rejects_unknown_shape() {
    let raw = "{\"path\":\"/message\",\"content\":{\"foo\":\"bar\"}}";
    assert!(matches!(classify(raw), Inbound::Invalid));
}

#[test]
fn classify_rejects_extra_fields() {
    let raw =
        "{\"path\":\"/message\",\"content\":{\"nick\":\"bob\",\"message\":\"hi\",\"x\":\"y\"}}";
    assert!(matches!(classify(raw), Inbound::Invalid));
}

#[test]
fn classify_rejects_non_string_field() {
    let raw = "{\"path\":\"/message\",\"content\":{\"nick\":\"bob\",\"message\":7}}";
    assert!(matches!(classify(raw), Inbound::Invalid));
}

#[test]
fn classify_rejects_missing_envelope() {
    assert!(matches!(classify("not json at all"), Inbound::Invalid));
    assert!(matches!(classify("{\"content\":{\"join_nick\":\"a\"}}"), Inbound::Invalid));
    assert!(matches!(classify("{\"path\":\"/message\"}"), Inbound::Invalid));
    assert!(matches!(classify("{\"path\":7,\"content\":{}}"), Inbound::Invalid));
}

#[test]
fn classify_rejects_non_object_content() {
    let raw = "{\"path\":\"/message\",\"content\":\"hello\"}";
    assert!(matches!(classify(raw), Inbound::Invalid));
}

#[test]
fn parse_envelope_is_permissive_at_the_outer_layer() {
    let raw = "{\"path\":\"/anything\",\"content\":[1,2,3]}";
    let env = parse_envelope(raw).expect("an envelope-shaped text decodes");
    assert_eq!(env.path, "/anything");
    assert!(matches!(env.payload, Payload::Other));
}

#[test]
fn encode_chat_envelope_exact_text() {
    let m = ChatMessage::new("a".to_string(), "hi".to_string());
    let t = encode_chat_envelope("/message", &m);
    assert_eq!(t, "{\"content\":{\"message\":\"hi\",\"nick\":\"a\"},\"path\":\"/message\"}");
}

#[test]
fn encode_text_envelope_exact_text() {
    let t = encode_text_envelope("/error", "A user by that name already exists.");
    assert_eq!(
        t,
        "{\"content\":\"A user by that name already exists.\",\"path\":\"/error\"}"
    );
}

#[test]
fn encoded_chat_envelope_decodes_back() {
    let m = ChatMessage::new("nina".to_string(), "see you".to_string());
    let t = encode_chat_envelope("/message", &m);
    match classify(t.as_str()) {
        Inbound::Chat(back) => {
            assert_eq!(back.nick, "nina");
            assert_eq!(back.message, "see you");
        }
        _ => panic!("an encoded chat envelope decodes as a chat message"),
    }
}
