use discord_notify::DiscordBot;
use discord_notify::NotifyError;
use discord_notify::interpret_response;
use discord_notify::interpret_status;

#[test]
fn test_send_notification_success() {
    let channel_id = "1234";
    let base_url = "http://127.0.0.1:8080";
    let bot = DiscordBot::new_with_base_url(
        "TEST_BOT",
        channel_id,
        base_url,
        Some("test_token".to_string()),
    )
    .unwrap();
    let req = bot.notification_request("Hello, World!");
    assert_eq!(req.url, format!("{}/channels/{}/messages", base_url, channel_id));
    assert_eq!(req.auth_header, "Bot test_token");
    assert_eq!(
        req.body,
        "{\"embeds\":[{\"title\":\"TEST_BOT\",\"description\":\"Hello, World!\",\"color\":3447003}]}"
    );
    // The endpoint answers 200: the operation reports success.
    let result = interpret_status(200);
    assert!(result.is_ok());
}

#[test]
fn test_send_notification_failure() {
    let channel_id = "1234567890";
    let base_url = "http://127.0.0.1:8080";
    let bot = DiscordBot::new_with_base_url(
        "ROGUE_BOT",
        channel_id,
        base_url,
        Some("test_token".to_string()),
    )
    .unwrap();
    let req = bot.notification_request("Failure message");
    assert_eq!(req.url, format!("{}/channels/{}/messages", base_url, channel_id));
    assert_eq!(req.auth_header, "Bot test_token");
    assert_eq!(
        req.body,
        "{\"embeds\":[{\"title\":\"ROGUE_BOT\",\"description\":\"Failure message\",\"color\":3447003}]}"
    );
    // The endpoint answers 400 Bad Request: the operation reports failure.
    let result = interpret_status(400);
    assert!(result.is_err());
    assert_eq!(result.unwrap_err(), NotifyError::Request { status: Some(400) });
}

#[test]
fn missing_token_aborts_construction() {
    let r = DiscordBot::new("TEST_BOT", "1234", None);
    assert!(matches!(r, Err(NotifyError::Configuration)));
    let r = DiscordBot::new_with_base_url("TEST_BOT", "1234", "http://127.0.0.1:8080", None);
    assert!(matches!(r, Err(NotifyError::Configuration)));
}

#[test]
fn new_uses_default_base_url() {
    let bot = DiscordBot::new("TEST_BOT", "1234", Some("tok".to_string())).unwrap();
    assert_eq!(bot.api_base_url, "https://discord.com/api/v9");
    assert_eq!(bot.identifier, "TEST_BOT");
    assert_eq!(bot.channel_id, "1234");
    assert_eq!(bot.token, "tok");
    let req = bot.notification_request("hi");
    assert_eq!(req.url, "https://discord.com/api/v9/channels/1234/messages");
}

#[test]
fn advanced_request_with_image() {
    let bot = DiscordBot::new_with_base_url(
        "BOT",
        "42",
        "http://localhost:9",
        Some("t".to_string()),
    )
    .unwrap();
    let req = bot.advanced_notification_request(
        "Title",
        "Message content",
        0x3498db,
        Some("https://example.com/image.png"),
    );
    assert_eq!(req.url, "http://localhost:9/channels/42/messages");
    assert_eq!(req.auth_header, "Bot t");
    assert_eq!(
        req.body,
        "{\"embeds\":[{\"title\":\"Title\",\"description\":\"Message content\",\"color\":3447003,\"image\":{\"url\":\"https://example.com/image.png\"}}]}"
    );
}

#[test]
fn advanced_request_without_image() {
    let bot = DiscordBot::new_with_base_url(
        "BOT",
        "42",
        "http://localhost:9",
        Some("t".to_string()),
    )
    .unwrap();
    let req = bot.advanced_notification_request("Title", "Message content", 16777215, None);
    assert_eq!(
        req.body,
        "{\"embeds\":[{\"title\":\"Title\",\"description\":\"Message content\",\"color\":16777215}]}"
    );
    assert!(!req.body.contains("image"));
}

#[test]
fn advanced_color_passed_through_unchanged() {
    let bot =
        DiscordBot::new_with_base_url("B", "1", "http://h", Some("t".to_string())).unwrap();
    for color in [0u32, 1, 255, 3447003, 16777215, u32::MAX] {
        let req = bot.advanced_notification_request("T", "D", color, None);
        let v: serde_json::Value = serde_json::from_str(&req.body).unwrap();
        assert_eq!(v["embeds"][0]["color"], serde_json::Value::from(color));
    }
}

#[test]
fn status_mapping_is_success_iff_2xx() {
    for status in [200u16, 201, 204, 226, 299] {
        assert!(interpret_status(status).is_ok());
    }
    for status in [100u16, 199, 300, 301, 400, 404, 429, 500, 503] {
        let e = interpret_status(status).unwrap_err();
        assert_eq!(e, NotifyError::Request { status: Some(status) });
        assert_eq!(e.http_status(), Some(status));
        assert!(!e.is_configuration());
    }
}

#[test]
fn response_body_returned_on_success() {
    let body = "{\"id\":\"987\"}".to_string();
    let r = interpret_response(201, body.clone());
    assert_eq!(r.unwrap(), body);
    let r = interpret_response(500, body);
    assert_eq!(r.unwrap_err(), NotifyError::Request { status: Some(500) });
}

#[test]
fn error_accessors_and_messages() {
    let config = NotifyError::Configuration;
    assert!(config.is_configuration());
    assert_eq!(config.http_status(), None);
    assert_eq!(
        config.message(),
        "missing bot token: the credential must be supplied at construction"
    );

    let http = NotifyError::Request { status: Some(404) };
    assert_eq!(http.message(), "request failed with HTTP status 404");

    let transport = discord_notify::bot::transport_error();
    assert_eq!(transport, NotifyError::Request { status: None });
    assert_eq!(transport.http_status(), None);
    assert_eq!(transport.message(), "request failed before any response arrived");
}

#[test]
fn client_is_shareable_by_copy() {
    let bot = DiscordBot::new_with_base_url(
        "TEST_BOT",
        "1234",
        "http://127.0.0.1:8080",
        Some("test_token".to_string()),
    )
    .unwrap();
    let copy = bot.clone();
    let a = bot.notification_request("same message");
    let b = copy.notification_request("same message");
    assert_eq!(a.url, b.url);
    assert_eq!(a.auth_header, b.auth_header);
    assert_eq!(a.body, b.body);
}

#[test]
fn request_body_parses_as_expected_json() {
    let bot = DiscordBot::new_with_base_url(
        "TEST_BOT",
        "1234",
        "http://127.0.0.1:8080",
        Some("test_token".to_string()),
    )
    .unwrap();
    let req = bot.notification_request("Hello, World!");
    let v: serde_json::Value = serde_json::from_str(&req.body).unwrap();
    let embeds = v["embeds"].as_array().unwrap();
    assert_eq!(embeds.len(), 1);
    assert_eq!(embeds[0]["title"], serde_json::Value::from("TEST_BOT"));
    assert_eq!(embeds[0]["description"], serde_json::Value::from("Hello, World!"));
    assert_eq!(embeds[0]["color"], serde_json::Value::from(3447003u32));
    assert!(embeds[0].get("image").is_none());
}

#[test]
fn escaped_message_round_trips_through_json() {
    let bot =
        DiscordBot::new_with_base_url("B\"ot\\", "1", "http://h", Some("t".to_string())).unwrap();
    let message = "a\"b\\c\nd\te\rf\u{0008}g\u{000c}h\u{0001}i\u{001f}j";
    let req = bot.notification_request(message);
    let v: serde_json::Value = serde_json::from_str(&req.body).unwrap();
    assert_eq!(v["embeds"][0]["description"].as_str().unwrap(), message);
    assert_eq!(v["embeds"][0]["title"].as_str().unwrap(), "B\"ot\\");
}
