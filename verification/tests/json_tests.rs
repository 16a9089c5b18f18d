use discord_notify::EmbedMessage;
use discord_notify::u32_to_decimal_string;

#[test]
fn decimal_rendering_exact_values() {
    assert_eq!(u32_to_decimal_string(0), "0");
    assert_eq!(u32_to_decimal_string(7), "7");
    assert_eq!(u32_to_decimal_string(10), "10");
    assert_eq!(u32_to_decimal_string(3447003), "3447003");
    assert_eq!(u32_to_decimal_string(4294967295), "4294967295");
}

#[test]
fn embed_serialization_without_image() {
    let e = EmbedMessage::new("Title", "Body text", 123, None);
    assert_eq!(e.to_json(), "{\"title\":\"Title\",\"description\":\"Body text\",\"color\":123}");
    assert_eq!(
        e.body_json(),
        "{\"embeds\":[{\"title\":\"Title\",\"description\":\"Body text\",\"color\":123}]}"
    );
}

#[test]
fn embed_serialization_with_image() {
    let e = EmbedMessage::new("T", "D", 0, Some("http://img"));
    assert_eq!(
        e.to_json(),
        "{\"title\":\"T\",\"description\":\"D\",\"color\":0,\"image\":{\"url\":\"http://img\"}}"
    );
}

#[test]
fn escaping_exact_text() {
    let e = EmbedMessage::new("q\"q", "b\\b\nc\td\re\u{0008}f\u{000c}g\u{0000}h\u{001f}i", 1, None);
    assert_eq!(
        e.to_json(),
        "{\"title\":\"q\\\"q\",\"description\":\"b\\\\b\\nc\\td\\re\\bf\\fg\\u0000h\\u001fi\",\"color\":1}"
    );
}

#[test]
fn plain_text_is_left_unescaped() {
    let e = EmbedMessage::new("unicode \u{00e9}\u{4e16}", "spaces and / : {} []", 2, None);
    assert_eq!(
        e.to_json(),
        "{\"title\":\"unicode \u{00e9}\u{4e16}\",\"description\":\"spaces and / : {} []\",\"color\":2}"
    );
}

#[test]
fn empty_fields_serialize() {
    let e = EmbedMessage::new("", "", 0, Some(""));
    assert_eq!(
        e.body_json(),
        "{\"embeds\":[{\"title\":\"\",\"description\":\"\",\"color\":0,\"image\":{\"url\":\"\"}}]}"
    );
}
