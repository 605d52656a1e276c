use tgbot::contact::{Contact, SendContact};
use tgbot::inline_mode::{
    InlineQueryResultArticle, InlineQueryResultAudio, InputMessageContent, InputTextMessageContent,
    RawInlineQueryResult, RawInlineQueryResultDataError,
};
use tgbot::input_media::{InputMediaAnimation, InputMediaPhoto};
use tgbot::json::render_json;
use tgbot::message::{Message, MessageData, MessageDataAudio, Text};
use tgbot::passport::{EncryptedPassportElementKind as Kind, PassportElementError, SetPassportDataErrors};
use tgbot::primitive::{ChatId, ParseMode};
use tgbot::text::{
    serialize_text_entities, RawTextEntity, TextEntities, TextEntity, TextEntityError,
    TextEntityPosition,
};
use tgbot::user::{Chat, MessageSender, PrivateChat, User};

fn assert_json_text_eq(actual: &str, expected: &str) {
    let a: serde_json::Value = serde_json::from_str(actual).unwrap();
    let b: serde_json::Value = serde_json::from_str(expected).unwrap();
    assert_eq!(a, b);
}

#[test]
fn serialize() {
    assert_json_text_eq(
        &render_json(
            &InputMediaAnimation::default()
                .thumb("attach://thumb.jpg")
                .caption("caption")
                .parse_mode(ParseMode::Markdown)
                .width(200)
                .height(200)
                .duration(10)
                .to_json(),
        ),
        r#"{
            "thumb": "attach://thumb.jpg",
            "caption": "caption",
            "parse_mode": "Markdown",
            "width": 200,
            "height": 200,
            "duration": 10
        }"#,
    );

    assert_json_text_eq(&render_json(&InputMediaAnimation::default().to_json()), "{}");
}

#[test]
fn caption_entities_vs_parse_mode() {
    let mut method = InputMediaAnimation::default();
    method = method.parse_mode(ParseMode::Markdown);
    assert_eq!(method.parse_mode.unwrap(), ParseMode::Markdown);
    assert!(method.caption_entities.is_none());
    method = method.caption_entities(vec![TextEntity::bold(TextEntityPosition::range(0, 10))]);
    assert!(method.caption_entities.is_some());
    assert!(method.parse_mode.is_none());
}

#[test]
fn input_media_photo_modes_exclude_each_other() {
    let photo = InputMediaPhoto::default()
        .with_caption("c")
        .with_caption_entities(vec![TextEntity::bold(TextEntityPosition::range(0, 1))])
        .with_caption_parse_mode(ParseMode::Html)
        .with_has_spoiler(true);
    assert!(photo.caption_entities.is_none());
    assert_eq!(photo.parse_mode, Some(ParseMode::Html));
    assert_json_text_eq(
        &render_json(&photo.to_json()),
        r#"{"caption": "c", "has_spoiler": true, "parse_mode": "HTML"}"#,
    );
}

#[test]
fn text_entities_serialize() {
    let entities = vec![
        TextEntity::bold(TextEntityPosition::range(0, 10)),
        TextEntity::text_link(TextEntityPosition::range(2, 4), "https://example.com"),
        TextEntity::pre(TextEntityPosition::range(4, 6), Some(String::from("rust"))),
        TextEntity::custom_emoji(TextEntityPosition::range(6, 8), "emoji-id"),
        TextEntity::text_mention(TextEntityPosition::range(8, 9), User::new(1, "John", false)),
    ];
    let rendered = serialize_text_entities(entities.as_slice()).unwrap();
    assert_json_text_eq(
        &rendered,
        r#"[
            {"type": "bold", "offset": 0, "length": 10},
            {"type": "text_link", "offset": 2, "length": 2, "url": "https://example.com"},
            {"type": "pre", "offset": 4, "length": 2, "language": "rust"},
            {"type": "custom_emoji", "offset": 6, "length": 2, "custom_emoji_id": "emoji-id"},
            {"type": "text_mention", "offset": 8, "length": 1,
             "user": {"id": 1, "first_name": "John", "is_bot": false}}
        ]"#,
    );

    let mut collection = TextEntities::new();
    collection.push(TextEntity::italic(TextEntityPosition::range(1, 2)));
    assert_json_text_eq(
        &collection.serialize().unwrap(),
        r#"[{"type": "italic", "offset": 1, "length": 1}]"#,
    );
}

#[test]
fn text_entity_raw_round_trip_and_errors() {
    let entity = TextEntity::text_link(TextEntityPosition::range(0, 4), "https://example.com");
    let raw = RawTextEntity::from_entity(entity);
    let back = TextEntity::from_raw(raw).unwrap();
    match back {
        TextEntity::TextLink { position, url } => {
            assert_eq!(position, TextEntityPosition::range(0, 4));
            assert_eq!(url, "https://example.com");
        }
        _ => panic!("unexpected entity kind"),
    }

    let missing_url = RawTextEntity {
        offset: 0,
        length: 1,
        entity_type: tgbot::text::RawTextEntityType::TextLink { url: None },
    };
    assert_eq!(TextEntity::from_raw(missing_url).unwrap_err(), TextEntityError::NoUrl);

    let missing_user = RawTextEntity {
        offset: 0,
        length: 1,
        entity_type: tgbot::text::RawTextEntityType::TextMention { user: None },
    };
    assert_eq!(TextEntity::from_raw(missing_user).unwrap_err(), TextEntityError::NoUser);

    let missing_emoji = RawTextEntity {
        offset: 0,
        length: 1,
        entity_type: tgbot::text::RawTextEntityType::CustomEmoji { custom_emoji_id: None },
    };
    assert_eq!(TextEntity::from_raw(missing_emoji).unwrap_err(), TextEntityError::NoCustomEmoji);
}

#[test]
fn passport_element_errors() {
    let err = PassportElementError::data_field(Kind::Address, "f", "h", "m").unwrap();
    assert_json_text_eq(
        &render_json(&err.to_json()),
        r#"{"source": "data", "type": "address", "field_name": "f", "data_hash": "h", "message": "m"}"#,
    );
    assert!(PassportElementError::data_field(Kind::UtilityBill, "f", "h", "m").is_err());

    let err = PassportElementError::front_side(Kind::Passport, "h", "m").unwrap();
    assert_json_text_eq(
        &render_json(&err.to_json()),
        r#"{"source": "front_side", "type": "passport", "file_hash": "h", "message": "m"}"#,
    );
    assert!(PassportElementError::front_side(Kind::Address, "h", "m").is_err());

    assert!(PassportElementError::reverse_side(Kind::DriverLicense, "h", "m").is_ok());
    assert!(PassportElementError::reverse_side(Kind::Passport, "h", "m").is_err());

    assert!(PassportElementError::selfie(Kind::IdentityCard, "h", "m").is_ok());
    assert!(PassportElementError::selfie(Kind::Email, "h", "m").is_err());

    assert!(PassportElementError::file(Kind::BankStatement, "h", "m").is_ok());
    assert!(PassportElementError::file(Kind::Passport, "h", "m").is_err());

    let err = PassportElementError::files(Kind::UtilityBill, vec![String::from("h1")], "m").unwrap();
    assert_json_text_eq(
        &render_json(&err.to_json()),
        r#"{"source": "files", "type": "utility_bill", "file_hashes": ["h1"], "message": "m"}"#,
    );
    assert!(PassportElementError::files(Kind::PhoneNumber, vec![], "m").is_err());

    assert!(PassportElementError::translation_file(Kind::Passport, "h", "m").is_ok());
    assert!(PassportElementError::translation_file(Kind::Email, "h", "m").is_err());
    assert!(PassportElementError::translation_files(Kind::RentalAgreement, vec![], "m").is_ok());
    assert!(PassportElementError::translation_files(Kind::PersonalDetails, vec![], "m").is_err());

    let unspecified = PassportElementError::unspecified(Kind::Email, "h", "m");
    let request = SetPassportDataErrors::new(1, vec![unspecified]).into_request();
    assert_eq!(
        request.build_url("base-url", "token"),
        "base-url/bottoken/setPassportDataErrors"
    );
    if let tgbot::api::RequestBody::Json(data) = request.into_body() {
        assert_json_text_eq(
            &data,
            r#"{"user_id": 1, "errors": [
                {"source": "unspecified", "type": "email", "element_hash": "h", "message": "m"}
            ]}"#,
        );
    } else {
        panic!("Unexpected request body");
    }
}

#[test]
fn inline_query_result_article() {
    let article = InlineQueryResultArticle::new(
        "id",
        "title",
        InputMessageContent::text(InputTextMessageContent::new("text")),
    )
    .url("URL")
    .hide_url(true)
    .description("desc")
    .thumb_url("thumb-url")
    .thumb_width(200)
    .thumb_height(200);
    assert_json_text_eq(
        &render_json(&article.to_json()),
        r#"{
            "id": "id",
            "title": "title",
            "input_message_content": {"message_text": "text"},
            "url": "URL",
            "hide_url": true,
            "description": "desc",
            "thumb_url": "thumb-url",
            "thumb_width": 200,
            "thumb_height": 200
        }"#,
    );
}

#[test]
fn inline_query_result_article_raw_round_trip() {
    let article = InlineQueryResultArticle::new(
        "id",
        "title",
        InputMessageContent::text(InputTextMessageContent::new("text")),
    );
    let raw = RawInlineQueryResult::from_article(article);
    let back = InlineQueryResultArticle::from_raw(raw).unwrap();
    assert_eq!(back.id, "id");
    assert_eq!(back.title, "title");

    let mut missing_title = RawInlineQueryResult::from_article(InlineQueryResultArticle::new(
        "id",
        "title",
        InputMessageContent::text(InputTextMessageContent::new("text")),
    ));
    missing_title.data.title = None;
    assert_eq!(
        InlineQueryResultArticle::from_raw(missing_title).unwrap_err(),
        RawInlineQueryResultDataError::MissingTitle
    );

    let mut missing_content = RawInlineQueryResult::from_article(InlineQueryResultArticle::new(
        "id",
        "title",
        InputMessageContent::text(InputTextMessageContent::new("text")),
    ));
    missing_content.data.input_message_content = None;
    assert_eq!(
        InlineQueryResultArticle::from_raw(missing_content).unwrap_err(),
        RawInlineQueryResultDataError::MissingContent
    );
}

#[test]
fn inline_query_result_audio_modes_exclude_each_other() {
    let audio = InlineQueryResultAudio::new("id", "url", "title")
        .caption_entities(vec![TextEntity::bold(TextEntityPosition::range(0, 1))])
        .parse_mode(ParseMode::Html);
    assert!(audio.caption_entities.is_none());
    assert_eq!(audio.parse_mode, Some(ParseMode::Html));
    let audio = audio.caption_entities(vec![TextEntity::bold(TextEntityPosition::range(0, 1))]);
    assert!(audio.caption_entities.is_some());
    assert!(audio.parse_mode.is_none());
}

#[test]
fn message_text_and_edits() {
    let chat = Chat::Private(PrivateChat::new(1, "John"));
    let sender = MessageSender::User(User::new(1, "John", false));
    let message = Message::new(
        1,
        0,
        chat,
        MessageData::Text(Text::new("message-text")),
        sender,
    );
    assert!(!message.is_edited());
    assert_eq!(message.get_text().unwrap().data, "message-text");

    let message = message.with_edit_date(1441);
    assert!(message.is_edited());

    let message = message.with_data(MessageData::Audio(MessageDataAudio {
        caption: Some(Text::new("caption")),
    }));
    assert_eq!(message.get_text().unwrap().data, "caption");

    let message = message.with_data(MessageData::Audio(MessageDataAudio { caption: None }));
    assert!(message.get_text().is_none());

    let message = message.with_data(MessageData::Empty);
    assert!(message.get_text().is_none());
}

#[test]
fn send_contact() {
    let payload = SendContact::new(ChatId::id(1), "John", "+5551234567")
        .with_business_connection_id("bc")
        .with_disable_notification(true)
        .with_last_name("Doe")
        .with_message_thread_id(7)
        .with_protect_content(true)
        .with_vcard("BEGIN:VCARD")
        .into_payload();
    assert_eq!(payload.name, "sendContact");
    if let tgbot::api::RequestBody::Json(data) = payload.body {
        assert_json_text_eq(
            &data,
            r#"{
                "chat_id": 1,
                "first_name": "John",
                "phone_number": "+5551234567",
                "business_connection_id": "bc",
                "disable_notification": true,
                "last_name": "Doe",
                "message_thread_id": 7,
                "protect_content": true,
                "vcard": "BEGIN:VCARD"
            }"#,
        );
    } else {
        panic!("Unexpected payload body");
    }

    let contact = Contact::new("John", "+5551234567")
        .with_last_name("Doe")
        .with_user_id(1)
        .with_vcard("BEGIN:VCARD");
    assert_eq!(contact.first_name, "John");
    assert_eq!(contact.last_name.unwrap(), "Doe");
    assert_eq!(contact.user_id, Some(1));
}

#[test]
fn chat_location() {
    let location = tgbot::user::Location::new(
        tgbot::json::Decimal::new(525_024_500, 7),
        tgbot::json::Decimal::new(134_049_790, 7),
    );
    let chat_location = tgbot::user::ChatLocation::new("Berlin", location);
    assert_eq!(chat_location.address, "Berlin");
    assert_eq!(render_json(&tgbot::json::JsonValue::Dec(chat_location.location.latitude)), "52.5024500");
}
