use tgbot::api::RequestBody;
use tgbot::forum::GetForumTopicIconStickers;
use tgbot::json::{render_json, JsonValue};
use tgbot::update::{AllowedUpdate, GetUpdates, Update, UpdateError, UpdateType};

fn obj(fields: Vec<(&str, JsonValue)>) -> JsonValue {
    JsonValue::Obj(
        fields.into_iter().map(|(k, v)| (String::from(k), v)).collect(),
    )
}

fn assert_json_text_eq(actual: &str, expected: &str) {
    let a: serde_json::Value = serde_json::from_str(actual).unwrap();
    let b: serde_json::Value = serde_json::from_str(expected).unwrap();
    assert_eq!(a, b);
}

#[test]
fn allowed_update() {
    for (value, expected) in [
        (AllowedUpdate::Message, "message"),
        (AllowedUpdate::EditedMessage, "edited_message"),
        (AllowedUpdate::ChannelPost, "channel_post"),
        (AllowedUpdate::EditedChannelPost, "edited_channel_post"),
        (AllowedUpdate::InlineQuery, "inline_query"),
        (AllowedUpdate::ChosenInlineResult, "chosen_inline_result"),
        (AllowedUpdate::CallbackQuery, "callback_query"),
        (AllowedUpdate::ShippingQuery, "shipping_query"),
        (AllowedUpdate::PreCheckoutQuery, "pre_checkout_query"),
        (AllowedUpdate::Poll, "poll"),
        (AllowedUpdate::PollAnswer, "poll_answer"),
        (AllowedUpdate::UserStatus, "chat_member"),
    ] {
        assert_eq!(value.as_str(), expected);
    }
}

#[test]
fn get_updates() {
    let payload = GetUpdates::default().into_payload();
    assert_eq!(payload.name, "getUpdates");
    if let RequestBody::Json(data) = payload.body {
        assert_json_text_eq(&data, "{}");
    } else {
        panic!("Unexpected payload body");
    }

    let payload = GetUpdates::default()
        .with_offset(0)
        .with_limit(10)
        .with_timeout(10)
        .with_allowed_updates(vec![AllowedUpdate::Message])
        .add_allowed_update(AllowedUpdate::Message)
        .into_payload();
    assert_eq!(payload.name, "getUpdates");
    if let RequestBody::Json(data) = payload.body {
        assert_json_text_eq(
            &data,
            r#"{
                "offset": 0,
                "limit": 10,
                "timeout": 10,
                "allowed_updates": ["message"]
            }"#,
        );
    } else {
        panic!("Unexpected payload body");
    }
}

#[test]
fn get_forum_topic_icon_stickers() {
    let payload = GetForumTopicIconStickers.into_payload();
    assert_eq!(payload.name, "getForumTopicIconStickers");
    assert!(matches!(payload.body, RequestBody::Empty));
}

#[test]
fn decode_message_update() {
    let doc = obj(vec![
        ("update_id", JsonValue::Int(1)),
        ("message", obj(vec![("message_id", JsonValue::Int(5))])),
    ]);
    let update = Update::from_json(doc).unwrap();
    assert_eq!(update.id, 1);
    match update.update_type {
        UpdateType::Message(payload) => {
            assert_json_text_eq(&render_json(&payload), r#"{"message_id": 5}"#);
        }
        _ => panic!("unexpected update kind"),
    }
}

#[test]
fn decode_unknown_update_keeps_payload() {
    let doc = obj(vec![
        ("update_id", JsonValue::Int(5)),
        ("some_new_field", obj(vec![])),
    ]);
    let update = Update::from_json(doc).unwrap();
    assert_eq!(update.id, 5);
    match update.update_type {
        UpdateType::Unknown(payload) => {
            assert_eq!(render_json(&payload), r#"{"some_new_field":{}}"#);
        }
        _ => panic!("unexpected update kind"),
    }
}

#[test]
fn decode_update_id_not_integer() {
    let doc = obj(vec![("update_id", JsonValue::Str(String::from("not-a-number")))]);
    assert_eq!(Update::from_json(doc).unwrap_err(), UpdateError::InvalidUpdateId);
}

#[test]
fn decode_update_id_missing() {
    let doc = obj(vec![("message", obj(vec![]))]);
    assert_eq!(Update::from_json(doc).unwrap_err(), UpdateError::MissingUpdateId);
}

#[test]
fn decode_not_an_object() {
    assert_eq!(
        Update::from_json(JsonValue::Int(5)).unwrap_err(),
        UpdateError::NotObject
    );
}

#[test]
fn round_trip_each_known_variant() {
    let kinds: Vec<(&str, fn(JsonValue) -> UpdateType)> = vec![
        ("message", UpdateType::Message),
        ("edited_message", UpdateType::EditedMessage),
        ("channel_post", UpdateType::ChannelPost),
        ("edited_channel_post", UpdateType::EditedChannelPost),
        ("inline_query", UpdateType::InlineQuery),
        ("chosen_inline_result", UpdateType::ChosenInlineResult),
        ("callback_query", UpdateType::CallbackQuery),
        ("shipping_query", UpdateType::ShippingQuery),
        ("pre_checkout_query", UpdateType::PreCheckoutQuery),
        ("poll", UpdateType::Poll),
        ("poll_answer", UpdateType::PollAnswer),
        ("my_chat_member", UpdateType::BotStatus),
        ("chat_member", UpdateType::UserStatus),
        ("chat_join_request", UpdateType::ChatJoinRequest),
    ];
    for (key, make) in kinds {
        let payload = obj(vec![("marker", JsonValue::Str(String::from(key)))]);
        let update = Update::new(7, make(payload));
        let encoded = update.into_json();
        let rendered = render_json(&encoded);
        assert!(rendered.contains(key));
        let decoded = Update::from_json(encoded).unwrap();
        assert_eq!(decoded.id, 7);
        // Encoding the decoded update again gives the same document.
        let again = render_json(&decoded.into_json());
        assert_eq!(rendered, again);
    }
}

#[test]
fn round_trip_unknown_variant() {
    let update = Update::new(
        1,
        UpdateType::Unknown(obj(vec![("key", JsonValue::Str(String::from("value")))])),
    );
    let encoded = update.into_json();
    assert_eq!(render_json(&encoded), r#"{"update_id":1,"key":"value"}"#);
    let decoded = Update::from_json(encoded).unwrap();
    assert_eq!(decoded.id, 1);
    match decoded.update_type {
        UpdateType::Unknown(payload) => {
            assert_eq!(render_json(&payload), r#"{"key":"value"}"#);
        }
        _ => panic!("unexpected update kind"),
    }
}

#[test]
fn first_known_member_wins() {
    let doc = obj(vec![
        ("update_id", JsonValue::Int(2)),
        ("ignored", JsonValue::Bool(true)),
        ("poll", obj(vec![])),
        ("message", obj(vec![])),
    ]);
    let update = Update::from_json(doc).unwrap();
    assert!(matches!(update.update_type, UpdateType::Poll(_)));
}

#[test]
fn known_key_with_scalar_payload_falls_back_to_unknown() {
    let doc = obj(vec![
        ("update_id", JsonValue::Int(2)),
        ("message", JsonValue::Str(String::from("hi"))),
    ]);
    let update = Update::from_json(doc).unwrap();
    assert!(matches!(update.update_type, UpdateType::Unknown(_)));
}
