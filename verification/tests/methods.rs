use tgbot::api::{RequestBody, RequestMethod};
use tgbot::json::Decimal;
use tgbot::markup::{ForceReply, InlineKeyboardButton, InlineKeyboardMarkup, ReplyMarkup};
use tgbot::methods::{
    EditMessageText, ForwardMessage, PinChatMessage, PromoteChatMember, SendGame, SendPoll,
    SendQuiz, SendVenue, StopPoll,
};
use tgbot::primitive::{ChatId, ParseMode};
use tgbot::text::{TextEntity, TextEntityPosition};

fn assert_json_body(body: RequestBody, expected: &str) {
    if let RequestBody::Json(data) = body {
        let actual: serde_json::Value = serde_json::from_str(&data).unwrap();
        let wanted: serde_json::Value = serde_json::from_str(expected).unwrap();
        assert_eq!(actual, wanted);
    } else {
        panic!("Unexpected request body");
    }
}

fn force_reply() -> ReplyMarkup {
    ReplyMarkup::force_reply(ForceReply::new(true))
}

fn url_keyboard() -> InlineKeyboardMarkup {
    InlineKeyboardMarkup::from_vec(vec![vec![InlineKeyboardButton::with_url("text", "url")]])
}

#[test]
fn promote_chat_member_promote_all() {
    let request = PromoteChatMember::new(ChatId::id(1), 2).promote_all().into_request();
    assert_eq!(request.get_method(), RequestMethod::Post);
    assert_eq!(
        request.build_url("base-url", "token"),
        "base-url/bottoken/promoteChatMember"
    );
    assert_json_body(
        request.into_body(),
        r#"{
            "chat_id": 1,
            "user_id": 2,
            "is_anonymous": true,
            "can_change_info": true,
            "can_delete_messages": true,
            "can_edit_messages": true,
            "can_invite_users": true,
            "can_manage_chat": true,
            "can_manage_voice_chats": true,
            "can_pin_messages": true,
            "can_post_messages": true,
            "can_promote_members": true,
            "can_restrict_members": true
        }"#,
    );
}

#[test]
fn promote_chat_member_demote_all() {
    let request = PromoteChatMember::new(ChatId::id(1), 2).demote_all().into_request();
    assert_eq!(request.get_method(), RequestMethod::Post);
    assert_eq!(
        request.build_url("base-url", "token"),
        "base-url/bottoken/promoteChatMember"
    );
    assert_json_body(
        request.into_body(),
        r#"{
            "chat_id": 1,
            "user_id": 2,
            "is_anonymous": false,
            "can_change_info": false,
            "can_delete_messages": false,
            "can_edit_messages": false,
            "can_invite_users": false,
            "can_manage_chat": false,
            "can_manage_voice_chats": false,
            "can_pin_messages": false,
            "can_post_messages": false,
            "can_promote_members": false,
            "can_restrict_members": false
        }"#,
    );
}

#[test]
fn promote_chat_member_custom() {
    let request = PromoteChatMember::new(ChatId::id(1), 2)
        .is_anonymous(false)
        .can_change_info(true)
        .can_edit_messages(true)
        .can_delete_messages(false)
        .can_invite_users(true)
        .can_manage_chat(false)
        .can_manage_voice_chats(true)
        .can_pin_messages(true)
        .can_post_messages(false)
        .can_promote_members(false)
        .can_restrict_members(false)
        .into_request();
    assert_eq!(request.get_method(), RequestMethod::Post);
    assert_eq!(
        request.build_url("base-url", "token"),
        "base-url/bottoken/promoteChatMember"
    );
    assert_json_body(
        request.into_body(),
        r#"{
            "chat_id": 1,
            "user_id": 2,
            "is_anonymous": false,
            "can_change_info": true,
            "can_delete_messages": false,
            "can_edit_messages": true,
            "can_invite_users": true,
            "can_manage_chat": false,
            "can_manage_voice_chats": true,
            "can_pin_messages": true,
            "can_post_messages": false,
            "can_promote_members": false,
            "can_restrict_members": false
        }"#,
    );
}

#[test]
fn promote_chat_member_empty() {
    let request = PromoteChatMember::new(ChatId::id(1), 2).into_request();
    assert_eq!(request.get_method(), RequestMethod::Post);
    assert_eq!(
        request.build_url("base-url", "token"),
        "base-url/bottoken/promoteChatMember"
    );
    assert_json_body(request.into_body(), r#"{"chat_id": 1, "user_id": 2}"#);
}

#[test]
fn pin_chat_message() {
    let request = PinChatMessage::new(ChatId::id(1), 2).disable_notification(true).into_request();
    assert_eq!(request.get_method(), RequestMethod::Post);
    assert_eq!(
        request.build_url("base-url", "token"),
        "base-url/bottoken/pinChatMessage"
    );
    if let RequestBody::Json(data) = request.into_body() {
        let data: serde_json::Value = serde_json::from_str(&data).unwrap();
        assert_eq!(data["chat_id"], 1);
        assert_eq!(data["message_id"], 2);
        assert!(data["disable_notification"].as_bool().unwrap());
    } else {
        panic!("Unexpected request body");
    }
}

#[test]
fn send_game() {
    let request = SendGame::new(1, "name")
        .disable_notification(true)
        .protect_content(true)
        .reply_to_message_id(1)
        .allow_sending_without_reply(true)
        .reply_markup(url_keyboard())
        .into_request();
    assert_eq!(request.get_method(), RequestMethod::Post);
    assert_eq!(request.build_url("base-url", "token"), "base-url/bottoken/sendGame");
    assert_json_body(
        request.into_body(),
        r#"{
            "chat_id": 1,
            "game_short_name": "name",
            "disable_notification": true,
            "protect_content": true,
            "reply_to_message_id": 1,
            "allow_sending_without_reply": true,
            "reply_markup": {"inline_keyboard": [[{"text": "text", "url": "url"}]]}
        }"#,
    );
}

#[test]
fn edit_message_text() {
    let request = EditMessageText::new(ChatId::id(1), 2, "text")
        .parse_mode(ParseMode::Markdown)
        .disable_web_page_preview(true)
        .reply_markup(url_keyboard())
        .into_request();
    assert_eq!(request.get_method(), RequestMethod::Post);
    assert_eq!(
        request.build_url("base-url", "token"),
        "base-url/bottoken/editMessageText"
    );
    assert_json_body(
        request.into_body(),
        r#"{
            "chat_id": 1,
            "message_id": 2,
            "text": "text",
            "parse_mode": "Markdown",
            "disable_web_page_preview": true,
            "reply_markup": {"inline_keyboard": [[{"text": "text", "url": "url"}]]}
        }"#,
    );

    let request = EditMessageText::with_inline_message_id("msg-id", "text")
        .entities(vec![TextEntity::bold(TextEntityPosition::range(0, 4))])
        .into_request();
    assert_eq!(request.get_method(), RequestMethod::Post);
    assert_eq!(
        request.build_url("base-url", "token"),
        "base-url/bottoken/editMessageText"
    );
    assert_json_body(
        request.into_body(),
        r#"{
            "inline_message_id": "msg-id",
            "text": "text",
            "entities": [{"type": "bold", "offset": 0, "length": 4}]
        }"#,
    );
}

#[test]
fn forward_message() {
    let request = ForwardMessage::new(ChatId::id(1), ChatId::id(2), 3)
        .disable_notification(true)
        .protect_content(true)
        .into_request();
    assert_eq!(request.get_method(), RequestMethod::Post);
    assert_eq!(
        request.build_url("base-url", "token"),
        "base-url/bottoken/forwardMessage"
    );
    assert_json_body(
        request.into_body(),
        r#"{
            "chat_id": 1,
            "from_chat_id": 2,
            "message_id": 3,
            "disable_notification": true,
            "protect_content": true
        }"#,
    );
}

#[test]
fn send_quiz() {
    let request = SendQuiz::new(ChatId::id(1), "Q")
        .option("O1")
        .option("O2")
        .is_anonymous(false)
        .correct_option_id(0)
        .is_closed(false)
        .disable_notification(true)
        .protect_content(true)
        .reply_to_message_id(1)
        .allow_sending_without_reply(true)
        .reply_markup(force_reply())
        .into_request();
    assert_eq!(request.get_method(), RequestMethod::Post);
    assert_eq!(request.build_url("base-url", "token"), "base-url/bottoken/sendPoll");
    assert_json_body(
        request.into_body(),
        r#"{
            "chat_id": 1,
            "question": "Q",
            "type": "quiz",
            "options": ["O1", "O2"],
            "is_anonymous": false,
            "is_closed": false,
            "correct_option_id": 0,
            "disable_notification": true,
            "protect_content": true,
            "reply_to_message_id": 1,
            "allow_sending_without_reply": true,
            "reply_markup": {"force_reply": true}
        }"#,
    );
}

#[test]
fn send_poll() {
    let request = SendPoll::new(ChatId::id(1), "Q")
        .option("O1")
        .option("O2")
        .is_anonymous(false)
        .allows_multiple_answers(true)
        .is_closed(false)
        .disable_notification(true)
        .protect_content(true)
        .reply_to_message_id(1)
        .allow_sending_without_reply(true)
        .reply_markup(force_reply())
        .into_request();
    assert_eq!(request.get_method(), RequestMethod::Post);
    assert_eq!(request.build_url("base-url", "token"), "base-url/bottoken/sendPoll");
    assert_json_body(
        request.into_body(),
        r#"{
            "chat_id": 1,
            "question": "Q",
            "type": "regular",
            "options": ["O1", "O2"],
            "is_anonymous": false,
            "is_closed": false,
            "allows_multiple_answers": true,
            "disable_notification": true,
            "protect_content": true,
            "reply_to_message_id": 1,
            "allow_sending_without_reply": true,
            "reply_markup": {"force_reply": true}
        }"#,
    );
}

#[test]
fn stop_poll() {
    let request = StopPoll::new(ChatId::id(1), 2).reply_markup(url_keyboard()).into_request();
    assert_eq!(request.get_method(), RequestMethod::Post);
    assert_eq!(request.build_url("base-url", "token"), "base-url/bottoken/stopPoll");
    if let RequestBody::Json(data) = request.into_body() {
        let data: serde_json::Value = serde_json::from_str(&data).unwrap();
        assert_eq!(data["chat_id"], 1);
        assert_eq!(data["message_id"], 2);
        assert_eq!(data["reply_markup"]["inline_keyboard"][0][0]["text"], "text");
    } else {
        panic!("Unexpected request body");
    }
}

#[test]
fn send_venue() {
    let request = SendVenue::new(
        ChatId::id(1),
        Decimal::new(20, 1),
        Decimal::new(30, 1),
        "title",
        "addr",
    )
    .foursquare_id("f-id")
    .foursquare_type("f-type")
    .google_place_id("g-id")
    .google_place_type("g-type")
    .disable_notification(true)
    .protect_content(true)
    .reply_to_message_id(1)
    .allow_sending_without_reply(true)
    .reply_markup(force_reply())
    .into_request();
    assert_eq!(request.get_method(), RequestMethod::Post);
    assert_eq!(request.build_url("base-url", "token"), "base-url/bottoken/sendVenue");
    assert_json_body(
        request.into_body(),
        r#"{
            "chat_id": 1,
            "latitude": 2.0,
            "longitude": 3.0,
            "title": "title",
            "address": "addr",
            "foursquare_id": "f-id",
            "foursquare_type": "f-type",
            "google_place_id": "g-id",
            "google_place_type": "g-type",
            "disable_notification": true,
            "protect_content": true,
            "reply_to_message_id": 1,
            "allow_sending_without_reply": true,
            "reply_markup": {"force_reply": true}
        }"#,
    );
}

#[test]
fn send_quiz_explanation_modes_exclude_each_other() {
    let quiz = SendQuiz::new(ChatId::id(1), "Q")
        .explanation_parse_mode(ParseMode::MarkdownV2)
        .explanation_entities(vec![TextEntity::bold(TextEntityPosition::range(0, 1))]);
    assert!(quiz.inner.explanation_parse_mode.is_none());
    assert!(quiz.inner.explanation_entities.is_some());
    let quiz = quiz.explanation_parse_mode(ParseMode::Html);
    assert!(quiz.inner.explanation_parse_mode.is_some());
    assert!(quiz.inner.explanation_entities.is_none());
}

#[test]
fn send_poll_open_period_and_close_date_exclude_each_other() {
    let poll = SendPoll::new(ChatId::id(1), "Q").open_period(60).close_date(100);
    assert!(poll.inner.open_period.is_none());
    assert_eq!(poll.inner.close_date, Some(100));
    let poll = poll.open_period(60);
    assert_eq!(poll.inner.open_period, Some(60));
    assert!(poll.inner.close_date.is_none());
}

#[test]
fn chat_id_username_form() {
    let request = PinChatMessage::new(ChatId::username("@name"), 2).into_request();
    assert_json_body(request.into_body(), r#"{"chat_id": "@name", "message_id": 2}"#);
}
