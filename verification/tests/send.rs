use tgbot::api::{Form, FormValue, InputFile, Payload, RequestBody, RequestMethod};
use tgbot::markup::{ForceReply, ReplyMarkup};
use tgbot::primitive::{ChatId, ParseMode};
use tgbot::sending::{SendAnimation, SendAudio, SendVideoNote, SendVoice};
use tgbot::text::{TextEntity, TextEntityPosition};

fn form_of(entries: Vec<(&str, FormValue)>) -> Form {
    let mut form = Form::new();
    for (name, value) in entries {
        form.insert_field(name, value);
    }
    form
}

fn assert_payload_eq(expected: Payload, actual: Payload) {
    assert_eq!(expected.name, actual.name);
    match (expected.body, actual.body) {
        (RequestBody::Json(a), RequestBody::Json(b)) => {
            let a: serde_json::Value = serde_json::from_str(&a).unwrap();
            let b: serde_json::Value = serde_json::from_str(&b).unwrap();
            assert_eq!(a, b);
        }
        (RequestBody::Form(a), RequestBody::Form(b)) => assert_eq!(a, b),
        (RequestBody::Empty, RequestBody::Empty) => {}
        _ => panic!("payload bodies differ in kind"),
    }
}

#[test]
fn send_audio() {
    let request = SendAudio::new(ChatId::id(1), InputFile::file_id("file-id"))
        .caption("caption")
        .parse_mode(ParseMode::Markdown)
        .duration(100)
        .performer("performer")
        .title("title")
        .thumb(InputFile::file_id("thumb-id"))
        .disable_notification(true)
        .protect_content(true)
        .reply_to_message_id(1)
        .allow_sending_without_reply(true)
        .reply_markup(ReplyMarkup::force_reply(ForceReply::new(true)))
        .unwrap()
        .into_request();
    assert_eq!(request.get_method(), RequestMethod::Post);
    assert_eq!(request.build_url("base-url", "token"), "base-url/bottoken/sendAudio");
    if let RequestBody::Form(form) = request.into_body() {
        assert_eq!(form.get("chat_id").unwrap().get_text().unwrap().as_str(), "1");
        assert!(form.get("audio").unwrap().get_file().is_some());
        assert_eq!(form.get("caption").unwrap().get_text().unwrap().as_str(), "caption");
        assert_eq!(form.get("parse_mode").unwrap().get_text().unwrap().as_str(), "Markdown");
        assert_eq!(form.get("duration").unwrap().get_text().unwrap().as_str(), "100");
        assert_eq!(form.get("performer").unwrap().get_text().unwrap().as_str(), "performer");
        assert_eq!(form.get("title").unwrap().get_text().unwrap().as_str(), "title");
        assert!(form.get("thumb").unwrap().get_file().is_some());
        assert_eq!(form.get("disable_notification").unwrap().get_text().unwrap().as_str(), "true");
        assert_eq!(form.get("protect_content").unwrap().get_text().unwrap().as_str(), "true");
        assert_eq!(form.get("reply_to_message_id").unwrap().get_text().unwrap().as_str(), "1");
        assert_eq!(
            form.get("allow_sending_without_reply").unwrap().get_text().unwrap().as_str(),
            "true"
        );
        assert_eq!(
            form.get("reply_markup").unwrap().get_text().unwrap().as_str(),
            r#"{"force_reply":true}"#
        );
    } else {
        panic!("Unexpected request body");
    }
}

#[test]
fn send_audio_caption() {
    let mut method = SendAudio::new(ChatId::id(1), InputFile::file_id("file-id"));
    method = method.parse_mode(ParseMode::Markdown);
    assert_eq!(method.form.get("parse_mode").unwrap().get_text().unwrap().as_str(), "Markdown");
    method = method
        .caption_entities(&[TextEntity::bold(TextEntityPosition::range(0, 10))])
        .unwrap();
    assert!(method.form.get("parse_mode").is_none());
    let caption_entities = method.form.get("caption_entities").unwrap().get_text().unwrap();
    let actual: serde_json::Value = serde_json::from_str(caption_entities.as_str()).unwrap();
    let wanted: serde_json::Value =
        serde_json::from_str(r#"[{"type": "bold", "offset": 0, "length": 10}]"#).unwrap();
    assert_eq!(actual, wanted);
}

#[test]
fn send_video_note() {
    let request = SendVideoNote::new(ChatId::id(1), InputFile::file_id("file-id"))
        .duration(50)
        .length(100)
        .thumb(InputFile::file_id("thumb-id"))
        .disable_notification(true)
        .protect_content(true)
        .reply_to_message_id(1)
        .allow_sending_without_reply(true)
        .reply_markup(ReplyMarkup::force_reply(ForceReply::new(true)))
        .unwrap()
        .into_request();
    assert_eq!(request.get_method(), RequestMethod::Post);
    assert_eq!(
        request.build_url("base-url", "token"),
        "base-url/bottoken/sendVideoNote"
    );
    if let RequestBody::Form(form) = request.into_body() {
        assert_eq!(form.get("chat_id").unwrap().get_text().unwrap().as_str(), "1");
        assert!(form.get("video_note").unwrap().get_file().is_some());
        assert_eq!(form.get("duration").unwrap().get_text().unwrap().as_str(), "50");
        assert_eq!(form.get("length").unwrap().get_text().unwrap().as_str(), "100");
        assert!(form.get("thumb").unwrap().get_file().is_some());
        assert_eq!(form.get("disable_notification").unwrap().get_text().unwrap().as_str(), "true");
        assert_eq!(form.get("protect_content").unwrap().get_text().unwrap().as_str(), "true");
        assert_eq!(form.get("reply_to_message_id").unwrap().get_text().unwrap().as_str(), "1");
        assert_eq!(
            form.get("allow_sending_without_reply").unwrap().get_text().unwrap().as_str(),
            "true"
        );
        assert_eq!(
            form.get("reply_markup").unwrap().get_text().unwrap().as_str(),
            r#"{"force_reply":true}"#
        );
    } else {
        panic!("Unexpected request body");
    }
}

#[test]
fn send_animation() {
    assert_payload_eq(
        Payload::form(
            "sendAnimation",
            form_of(vec![
                ("chat_id", FormValue::text("1")),
                ("animation", FormValue::File(InputFile::file_id("file-id"))),
            ]),
        ),
        SendAnimation::new(ChatId::id(1), InputFile::file_id("file-id")).into_payload(),
    );
    assert_payload_eq(
        Payload::form(
            "sendAnimation",
            form_of(vec![
                ("chat_id", FormValue::text("1")),
                ("animation", FormValue::File(InputFile::file_id("file-id"))),
                ("duration", FormValue::text("100")),
                ("width", FormValue::text("200")),
                ("height", FormValue::text("300")),
                ("thumbnail", FormValue::File(InputFile::file_id("thumb-file-id"))),
                ("caption", FormValue::text("Caption")),
                ("parse_mode", FormValue::text("Markdown")),
                ("disable_notification", FormValue::text("true")),
                ("protect_content", FormValue::text("true")),
                ("reply_to_message_id", FormValue::text("1")),
                ("allow_sending_without_reply", FormValue::text("true")),
                ("reply_markup", FormValue::text(r#"{"force_reply":true}"#)),
                ("message_thread_id", FormValue::text("1")),
                ("has_spoiler", FormValue::text("true")),
            ]),
        ),
        SendAnimation::new(ChatId::id(1), InputFile::file_id("file-id"))
            .duration(100)
            .width(200)
            .height(300)
            .thumbnail(InputFile::file_id("thumb-file-id"))
            .caption("Caption")
            .parse_mode(ParseMode::Markdown)
            .disable_notification(true)
            .protect_content(true)
            .reply_to_message_id(1)
            .allow_sending_without_reply(true)
            .reply_markup(ReplyMarkup::force_reply(ForceReply::new(true)))
            .unwrap()
            .message_thread_id(1)
            .has_spoiler(true)
            .into_payload(),
    );
}

#[test]
fn send_animation_caption_entities_vs_parse_mode() {
    assert_payload_eq(
        Payload::form(
            "sendAnimation",
            form_of(vec![
                ("chat_id", FormValue::text("1")),
                ("animation", FormValue::File(InputFile::file_id("file-id"))),
                (
                    "caption_entities",
                    FormValue::text(r#"[{"offset":0,"length":10,"type":"bold"}]"#),
                ),
            ]),
        ),
        SendAnimation::new(ChatId::id(1), InputFile::file_id("file-id"))
            .parse_mode(ParseMode::Markdown)
            .caption_entities(vec![TextEntity::bold(TextEntityPosition::range(0, 10))])
            .unwrap()
            .into_payload(),
    );
    assert_payload_eq(
        Payload::form(
            "sendAnimation",
            form_of(vec![
                ("chat_id", FormValue::text("1")),
                ("animation", FormValue::File(InputFile::file_id("file-id"))),
                ("parse_mode", FormValue::text("Markdown")),
            ]),
        ),
        SendAnimation::new(ChatId::id(1), InputFile::file_id("file-id"))
            .caption_entities(vec![TextEntity::bold(TextEntityPosition::range(0, 10))])
            .unwrap()
            .parse_mode(ParseMode::Markdown)
            .into_payload(),
    );
}

#[test]
fn send_voice() {
    assert_payload_eq(
        Payload::form(
            "sendVoice",
            form_of(vec![
                ("chat_id", FormValue::text("1")),
                ("voice", FormValue::File(InputFile::file_id("file-id"))),
            ]),
        ),
        SendVoice::new(ChatId::id(1), InputFile::file_id("file-id")).into_payload(),
    );
    assert_payload_eq(
        Payload::form(
            "sendVoice",
            form_of(vec![
                ("chat_id", FormValue::text("1")),
                ("voice", FormValue::File(InputFile::file_id("file-id"))),
                ("allow_sending_without_reply", FormValue::text("true")),
                ("caption", FormValue::text("Caption")),
                ("disable_notification", FormValue::text("true")),
                ("duration", FormValue::text("100")),
                ("message_thread_id", FormValue::text("1")),
                ("parse_mode", FormValue::text("Markdown")),
                ("protect_content", FormValue::text("true")),
                ("reply_markup", FormValue::text(r#"{"force_reply":true}"#)),
                ("reply_to_message_id", FormValue::text("1")),
            ]),
        ),
        SendVoice::new(ChatId::id(1), InputFile::file_id("file-id"))
            .with_allow_sending_without_reply(true)
            .with_caption("Caption")
            .with_disable_notification(true)
            .with_duration(100)
            .with_message_thread_id(1)
            .with_caption_parse_mode(ParseMode::Markdown)
            .with_protect_content(true)
            .with_reply_markup(ReplyMarkup::force_reply(ForceReply::new(true)))
            .unwrap()
            .with_reply_to_message_id(1)
            .into_payload(),
    );
}

#[test]
fn send_voice_entities_vs_parse_mode() {
    assert_payload_eq(
        Payload::form(
            "sendVoice",
            form_of(vec![
                ("chat_id", FormValue::text("1")),
                ("voice", FormValue::File(InputFile::file_id("file-id"))),
                ("parse_mode", FormValue::text("Markdown")),
            ]),
        ),
        SendVoice::new(ChatId::id(1), InputFile::file_id("file-id"))
            .with_caption_entities(vec![TextEntity::bold(TextEntityPosition::range(0, 10))])
            .unwrap()
            .with_caption_parse_mode(ParseMode::Markdown)
            .into_payload(),
    );
    assert_payload_eq(
        Payload::form(
            "sendVoice",
            form_of(vec![
                ("chat_id", FormValue::text("1")),
                ("voice", FormValue::File(InputFile::file_id("file-id"))),
                (
                    "caption_entities",
                    FormValue::text(r#"[{"offset":0,"length":10,"type":"bold"}]"#),
                ),
            ]),
        ),
        SendVoice::new(ChatId::id(1), InputFile::file_id("file-id"))
            .with_caption_parse_mode(ParseMode::Markdown)
            .with_caption_entities(vec![TextEntity::bold(TextEntityPosition::range(0, 10))])
            .unwrap()
            .into_payload(),
    );
}
