use vstd::prelude::*;

verus! {

use crate::api::{Request, RequestBody, RequestMethod};
use crate::Integer;
use crate::json::{
    json_text, opt_bool_value, opt_int_value, opt_str_value, strings_json, strings_to_json,
    Decimal, JsonData, JsonObject, JsonValue,
};
use crate::markup::{
    keyboard_json, opt_keyboard_value, opt_reply_markup_value, reply_markup_json,
    view_opt_keyboard, view_opt_reply_markup, InlineKeyboardButtonData, InlineKeyboardMarkup,
    ReplyMarkup, ReplyMarkupData,
};
use crate::primitive::{
    chat_id_json, opt_chat_id_value, opt_parse_mode_value, view_opt_chat_id, view_opt_int,
    view_opt_str, ChatId, ChatIdData, ParseMode,
};
use crate::text::{
    entities_data, entities_json, opt_entities_value, view_opt_entities, TextEntities, TextEntity,
    TextEntityData,
};

/// Kind of a poll: a quiz with one correct answer, or a regular poll.
#[derive(Clone, Copy, Debug, PartialEq, Eq, Structural)]
pub enum PollKind {
    Quiz,
    Regular,
}

impl PollKind {
    /// Name of the kind on the wire.
    pub open spec fn spec_name(self) -> Seq<char> {
        match self {
            PollKind::Quiz => "quiz"@,
            PollKind::Regular => "regular"@,
        }
    }

    /// Returns the wire name of the kind.
    pub fn as_str(&self) -> (r: &'static str)
        ensures
            r@ == self.spec_name(),
    {
        match self {
            PollKind::Quiz => "quiz",
            PollKind::Regular => "regular",
        }
    }

    /// JSON value of the kind: its name as a string.
    pub fn to_json(&self) -> (r: JsonValue)
        ensures
            r@ == JsonData::Str(self.spec_name()),
    {
        JsonValue::Str(String::from_str(self.as_str()))
    }
}

/// Lifts an optional poll kind to an optional JSON value.
pub fn opt_poll_kind_value(v: &Option<PollKind>) -> (r: Option<JsonValue>)
    ensures
        crate::json::spec_opt_view(r) == match *v {
            Some(k) => Some(JsonData::Str(k.spec_name())),
            None => None::<JsonData>,
        },
{
    match v {
        Some(k) => Some(k.to_json()),
        None => None,
    }
}

/// Promotes or demotes a user in a supergroup or a channel.
#[derive(Clone, Debug)]
pub struct PromoteChatMember {
    pub chat_id: ChatId,
    pub user_id: Integer,
    pub is_anonymous: Option<bool>,
    pub can_change_info: Option<bool>,
    pub can_delete_messages: Option<bool>,
    pub can_edit_messages: Option<bool>,
    pub can_invite_users: Option<bool>,
    pub can_manage_chat: Option<bool>,
    pub can_manage_voice_chats: Option<bool>,
    pub can_pin_messages: Option<bool>,
    pub can_post_messages: Option<bool>,
    pub can_promote_members: Option<bool>,
    pub can_restrict_members: Option<bool>,
}

/// Model of `PromoteChatMember`.
pub struct PromoteChatMemberData {
    pub chat_id: ChatIdData,
    pub user_id: int,
    pub is_anonymous: Option<bool>,
    pub can_change_info: Option<bool>,
    pub can_delete_messages: Option<bool>,
    pub can_edit_messages: Option<bool>,
    pub can_invite_users: Option<bool>,
    pub can_manage_chat: Option<bool>,
    pub can_manage_voice_chats: Option<bool>,
    pub can_pin_messages: Option<bool>,
    pub can_post_messages: Option<bool>,
    pub can_promote_members: Option<bool>,
    pub can_restrict_members: Option<bool>,
}

impl View for PromoteChatMember {
    type V = PromoteChatMemberData;

    open spec fn view(&self) -> PromoteChatMemberData {
        PromoteChatMemberData {
            chat_id: self.chat_id@,
            user_id: self.user_id as int,
            is_anonymous: self.is_anonymous,
            can_change_info: self.can_change_info,
            can_delete_messages: self.can_delete_messages,
            can_edit_messages: self.can_edit_messages,
            can_invite_users: self.can_invite_users,
            can_manage_chat: self.can_manage_chat,
            can_manage_voice_chats: self.can_manage_voice_chats,
            can_pin_messages: self.can_pin_messages,
            can_post_messages: self.can_post_messages,
            can_promote_members: self.can_promote_members,
            can_restrict_members: self.can_restrict_members,
        }
    }
}

/// Members of the JSON object, in wire order; absent options add nothing.
pub open spec fn promote_chat_member_members(v: PromoteChatMemberData) -> Seq<(Seq<char>, JsonData)> {
    let m = Seq::<(Seq<char>, JsonData)>::empty();
    let m = m.push(("chat_id"@, chat_id_json(v.chat_id)));
    let m = m.push(("user_id"@, JsonData::Int(v.user_id)));
    let m = match v.is_anonymous {
        Some(x) => m.push(("is_anonymous"@, JsonData::Bool(x))),
        None => m,
    };
    let m = match v.can_change_info {
        Some(x) => m.push(("can_change_info"@, JsonData::Bool(x))),
        None => m,
    };
    let m = match v.can_delete_messages {
        Some(x) => m.push(("can_delete_messages"@, JsonData::Bool(x))),
        None => m,
    };
    let m = match v.can_edit_messages {
        Some(x) => m.push(("can_edit_messages"@, JsonData::Bool(x))),
        None => m,
    };
    let m = match v.can_invite_users {
        Some(x) => m.push(("can_invite_users"@, JsonData::Bool(x))),
        None => m,
    };
    let m = match v.can_manage_chat {
        Some(x) => m.push(("can_manage_chat"@, JsonData::Bool(x))),
        None => m,
    };
    let m = match v.can_manage_voice_chats {
        Some(x) => m.push(("can_manage_voice_chats"@, JsonData::Bool(x))),
        None => m,
    };
    let m = match v.can_pin_messages {
        Some(x) => m.push(("can_pin_messages"@, JsonData::Bool(x))),
        None => m,
    };
    let m = match v.can_post_messages {
        Some(x) => m.push(("can_post_messages"@, JsonData::Bool(x))),
        None => m,
    };
    let m = match v.can_promote_members {
        Some(x) => m.push(("can_promote_members"@, JsonData::Bool(x))),
        None => m,
    };
    let m = match v.can_restrict_members {
        Some(x) => m.push(("can_restrict_members"@, JsonData::Bool(x))),
        None => m,
    };
    m
}

/// JSON object sent for `PromoteChatMember`.
pub open spec fn promote_chat_member_json(v: PromoteChatMemberData) -> JsonData {
    JsonData::Obj(promote_chat_member_members(v))
}

impl PromoteChatMember {
    /// Creates a new `PromoteChatMember` with empty optional parameters.
    pub fn new(chat_id: ChatId, user_id: Integer) -> (r: PromoteChatMember)
        ensures
            r@ == (PromoteChatMemberData {
                chat_id: chat_id@,
                user_id: user_id as int,
                is_anonymous: None,
                can_change_info: None,
                can_delete_messages: None,
                can_edit_messages: None,
                can_invite_users: None,
                can_manage_chat: None,
                can_manage_voice_chats: None,
                can_pin_messages: None,
                can_post_messages: None,
                can_promote_members: None,
                can_restrict_members: None,
            }),
    {
        PromoteChatMember {
            chat_id,
            user_id,
            is_anonymous: None,
            can_change_info: None,
            can_delete_messages: None,
            can_edit_messages: None,
            can_invite_users: None,
            can_manage_chat: None,
            can_manage_voice_chats: None,
            can_pin_messages: None,
            can_post_messages: None,
            can_promote_members: None,
            can_restrict_members: None,
        }
    }

    /// Hides the administrator's presence in the chat if true.
    pub fn is_anonymous(self, value: bool) -> (r: PromoteChatMember)
        ensures
            r@ == (PromoteChatMemberData { is_anonymous: Some(value), ..self@ }),
    {
        PromoteChatMember { is_anonymous: Some(value), ..self }
    }

    /// Lets the administrator change chat title, photo and other settings.
    pub fn can_change_info(self, value: bool) -> (r: PromoteChatMember)
        ensures
            r@ == (PromoteChatMemberData { can_change_info: Some(value), ..self@ }),
    {
        PromoteChatMember { can_change_info: Some(value), ..self }
    }

    /// Lets the administrator delete messages of other users.
    pub fn can_delete_messages(self, value: bool) -> (r: PromoteChatMember)
        ensures
            r@ == (PromoteChatMemberData { can_delete_messages: Some(value), ..self@ }),
    {
        PromoteChatMember { can_delete_messages: Some(value), ..self }
    }

    /// Lets the administrator edit messages of other users, channels only.
    pub fn can_edit_messages(self, value: bool) -> (r: PromoteChatMember)
        ensures
            r@ == (PromoteChatMemberData { can_edit_messages: Some(value), ..self@ }),
    {
        PromoteChatMember { can_edit_messages: Some(value), ..self }
    }

    /// Lets the administrator invite new users to the chat.
    pub fn can_invite_users(self, value: bool) -> (r: PromoteChatMember)
        ensures
            r@ == (PromoteChatMemberData { can_invite_users: Some(value), ..self@ }),
    {
        PromoteChatMember { can_invite_users: Some(value), ..self }
    }

    /// Lets the administrator access the chat event log and statistics.
    pub fn can_manage_chat(self, value: bool) -> (r: PromoteChatMember)
        ensures
            r@ == (PromoteChatMemberData { can_manage_chat: Some(value), ..self@ }),
    {
        PromoteChatMember { can_manage_chat: Some(value), ..self }
    }

    /// Lets the administrator manage voice chats, supergroups only.
    pub fn can_manage_voice_chats(self, value: bool) -> (r: PromoteChatMember)
        ensures
            r@ == (PromoteChatMemberData { can_manage_voice_chats: Some(value), ..self@ }),
    {
        PromoteChatMember { can_manage_voice_chats: Some(value), ..self }
    }

    /// Lets the administrator pin messages, supergroups only.
    pub fn can_pin_messages(self, value: bool) -> (r: PromoteChatMember)
        ensures
            r@ == (PromoteChatMemberData { can_pin_messages: Some(value), ..self@ }),
    {
        PromoteChatMember { can_pin_messages: Some(value), ..self }
    }

    /// Lets the administrator create channel posts, channels only.
    pub fn can_post_messages(self, value: bool) -> (r: PromoteChatMember)
        ensures
            r@ == (PromoteChatMemberData { can_post_messages: Some(value), ..self@ }),
    {
        PromoteChatMember { can_post_messages: Some(value), ..self }
    }

    /// Lets the administrator add new administrators.
    pub fn can_promote_members(self, value: bool) -> (r: PromoteChatMember)
        ensures
            r@ == (PromoteChatMemberData { can_promote_members: Some(value), ..self@ }),
    {
        PromoteChatMember { can_promote_members: Some(value), ..self }
    }

    /// Grants every administrator privilege.
    pub fn promote_all(self) -> (r: PromoteChatMember)
        ensures
            r@ == (PromoteChatMemberData {
                is_anonymous: Some(true),
                can_change_info: Some(true),
                can_delete_messages: Some(true),
                can_edit_messages: Some(true),
                can_invite_users: Some(true),
                can_manage_chat: Some(true),
                can_manage_voice_chats: Some(true),
                can_pin_messages: Some(true),
                can_post_messages: Some(true),
                can_promote_members: Some(true),
                can_restrict_members: Some(true),
                ..self@
            }),
    {
        PromoteChatMember {
            is_anonymous: Some(true),
            can_change_info: Some(true),
            can_delete_messages: Some(true),
            can_edit_messages: Some(true),
            can_invite_users: Some(true),
            can_manage_chat: Some(true),
            can_manage_voice_chats: Some(true),
            can_pin_messages: Some(true),
            can_post_messages: Some(true),
            can_promote_members: Some(true),
            can_restrict_members: Some(true),
            ..self
        }
    }

    /// Revokes every administrator privilege.
    pub fn demote_all(self) -> (r: PromoteChatMember)
        ensures
            r@ == (PromoteChatMemberData {
                is_anonymous: Some(false),
                can_change_info: Some(false),
                can_delete_messages: Some(false),
                can_edit_messages: Some(false),
                can_invite_users: Some(false),
                can_manage_chat: Some(false),
                can_manage_voice_chats: Some(false),
                can_pin_messages: Some(false),
                can_post_messages: Some(false),
                can_promote_members: Some(false),
                can_restrict_members: Some(false),
                ..self@
            }),
    {
        PromoteChatMember {
            is_anonymous: Some(false),
            can_change_info: Some(false),
            can_delete_messages: Some(false),
            can_edit_messages: Some(false),
            can_invite_users: Some(false),
            can_manage_chat: Some(false),
            can_manage_voice_chats: Some(false),
            can_pin_messages: Some(false),
            can_post_messages: Some(false),
            can_promote_members: Some(false),
            can_restrict_members: Some(false),
            ..self
        }
    }

    /// Lets the administrator restrict, ban or unban chat members.
    pub fn can_restrict_members(self, value: bool) -> (r: PromoteChatMember)
        ensures
            r@ == (PromoteChatMemberData { can_restrict_members: Some(value), ..self@ }),
    {
        PromoteChatMember { can_restrict_members: Some(value), ..self }
    }

    /// JSON object of the call.
    pub fn to_json(&self) -> (r: JsonValue)
        ensures
            r@ == promote_chat_member_json(self@),
    {
        let mut obj = JsonObject::new();
        obj.set("chat_id", self.chat_id.to_json());
        obj.set("user_id", JsonValue::Int(self.user_id));
        obj.set_opt("is_anonymous", opt_bool_value(self.is_anonymous));
        obj.set_opt("can_change_info", opt_bool_value(self.can_change_info));
        obj.set_opt("can_delete_messages", opt_bool_value(self.can_delete_messages));
        obj.set_opt("can_edit_messages", opt_bool_value(self.can_edit_messages));
        obj.set_opt("can_invite_users", opt_bool_value(self.can_invite_users));
        obj.set_opt("can_manage_chat", opt_bool_value(self.can_manage_chat));
        obj.set_opt("can_manage_voice_chats", opt_bool_value(self.can_manage_voice_chats));
        obj.set_opt("can_pin_messages", opt_bool_value(self.can_pin_messages));
        obj.set_opt("can_post_messages", opt_bool_value(self.can_post_messages));
        obj.set_opt("can_promote_members", opt_bool_value(self.can_promote_members));
        obj.set_opt("can_restrict_members", opt_bool_value(self.can_restrict_members));
        proof {
            assert(obj@ == promote_chat_member_members(self@));
        }
        obj.into_value()
    }

    /// The request of the call: POST `promoteChatMember` with the JSON body.
    pub fn into_request(self) -> (r: Request)
        ensures
            r.http_method == RequestMethod::Post,
            r.name@ == "promoteChatMember"@,
            r.body matches RequestBody::Json(s) && s@ == json_text(promote_chat_member_json(self@)),
    {
        let body = self.to_json();
        Request::json("promoteChatMember", &body)
    }
}

/// Adds a message to the list of pinned messages in a chat.
#[derive(Clone, Debug)]
pub struct PinChatMessage {
    pub chat_id: ChatId,
    pub message_id: Integer,
    pub disable_notification: Option<bool>,
}

/// Model of `PinChatMessage`.
pub struct PinChatMessageData {
    pub chat_id: ChatIdData,
    pub message_id: int,
    pub disable_notification: Option<bool>,
}

impl View for PinChatMessage {
    type V = PinChatMessageData;

    open spec fn view(&self) -> PinChatMessageData {
        PinChatMessageData {
            chat_id: self.chat_id@,
            message_id: self.message_id as int,
            disable_notification: self.disable_notification,
        }
    }
}

/// Members of the JSON object, in wire order; absent options add nothing.
pub open spec fn pin_chat_message_members(v: PinChatMessageData) -> Seq<(Seq<char>, JsonData)> {
    let m = Seq::<(Seq<char>, JsonData)>::empty();
    let m = m.push(("chat_id"@, chat_id_json(v.chat_id)));
    let m = m.push(("message_id"@, JsonData::Int(v.message_id)));
    let m = match v.disable_notification {
        Some(x) => m.push(("disable_notification"@, JsonData::Bool(x))),
        None => m,
    };
    m
}

/// JSON object sent for `PinChatMessage`.
pub open spec fn pin_chat_message_json(v: PinChatMessageData) -> JsonData {
    JsonData::Obj(pin_chat_message_members(v))
}

impl PinChatMessage {
    /// Creates a new `PinChatMessage` with empty optional parameters.
    pub fn new(chat_id: ChatId, message_id: Integer) -> (r: PinChatMessage)
        ensures
            r@ == (PinChatMessageData {
                chat_id: chat_id@,
                message_id: message_id as int,
                disable_notification: None,
            }),
    {
        PinChatMessage {
            chat_id,
            message_id,
            disable_notification: None,
        }
    }

    /// Skips the notification to chat members about the new pinned message.
    pub fn disable_notification(self, value: bool) -> (r: PinChatMessage)
        ensures
            r@ == (PinChatMessageData { disable_notification: Some(value), ..self@ }),
    {
        PinChatMessage { disable_notification: Some(value), ..self }
    }

    /// JSON object of the call.
    pub fn to_json(&self) -> (r: JsonValue)
        ensures
            r@ == pin_chat_message_json(self@),
    {
        let mut obj = JsonObject::new();
        obj.set("chat_id", self.chat_id.to_json());
        obj.set("message_id", JsonValue::Int(self.message_id));
        obj.set_opt("disable_notification", opt_bool_value(self.disable_notification));
        proof {
            assert(obj@ == pin_chat_message_members(self@));
        }
        obj.into_value()
    }

    /// The request of the call: POST `pinChatMessage` with the JSON body.
    pub fn into_request(self) -> (r: Request)
        ensures
            r.http_method == RequestMethod::Post,
            r.name@ == "pinChatMessage"@,
            r.body matches RequestBody::Json(s) && s@ == json_text(pin_chat_message_json(self@)),
    {
        let body = self.to_json();
        Request::json("pinChatMessage", &body)
    }
}

/// Sends a game.
#[derive(Clone, Debug)]
pub struct SendGame {
    pub chat_id: Integer,
    pub game_short_name: String,
    pub disable_notification: Option<bool>,
    pub protect_content: Option<bool>,
    pub reply_to_message_id: Option<Integer>,
    pub allow_sending_without_reply: Option<bool>,
    pub reply_markup: Option<InlineKeyboardMarkup>,
}

/// Model of `SendGame`.
pub struct SendGameData {
    pub chat_id: int,
    pub game_short_name: Seq<char>,
    pub disable_notification: Option<bool>,
    pub protect_content: Option<bool>,
    pub reply_to_message_id: Option<int>,
    pub allow_sending_without_reply: Option<bool>,
    pub reply_markup: Option<Seq<Seq<InlineKeyboardButtonData>>>,
}

impl View for SendGame {
    type V = SendGameData;

    open spec fn view(&self) -> SendGameData {
        SendGameData {
            chat_id: self.chat_id as int,
            game_short_name: self.game_short_name@,
            disable_notification: self.disable_notification,
            protect_content: self.protect_content,
            reply_to_message_id: view_opt_int(self.reply_to_message_id),
            allow_sending_without_reply: self.allow_sending_without_reply,
            reply_markup: view_opt_keyboard(self.reply_markup),
        }
    }
}

/// Members of the JSON object, in wire order; absent options add nothing.
pub open spec fn send_game_members(v: SendGameData) -> Seq<(Seq<char>, JsonData)> {
    let m = Seq::<(Seq<char>, JsonData)>::empty();
    let m = m.push(("chat_id"@, JsonData::Int(v.chat_id)));
    let m = m.push(("game_short_name"@, JsonData::Str(v.game_short_name)));
    let m = match v.disable_notification {
        Some(x) => m.push(("disable_notification"@, JsonData::Bool(x))),
        None => m,
    };
    let m = match v.protect_content {
        Some(x) => m.push(("protect_content"@, JsonData::Bool(x))),
        None => m,
    };
    let m = match v.reply_to_message_id {
        Some(x) => m.push(("reply_to_message_id"@, JsonData::Int(x))),
        None => m,
    };
    let m = match v.allow_sending_without_reply {
        Some(x) => m.push(("allow_sending_without_reply"@, JsonData::Bool(x))),
        None => m,
    };
    let m = match v.reply_markup {
        Some(x) => m.push(("reply_markup"@, keyboard_json(x))),
        None => m,
    };
    m
}

/// JSON object sent for `SendGame`.
pub open spec fn send_game_json(v: SendGameData) -> JsonData {
    JsonData::Obj(send_game_members(v))
}

impl SendGame {
    /// Creates a new `SendGame` with empty optional parameters.
    pub fn new(chat_id: Integer, game_short_name: &str) -> (r: SendGame)
        ensures
            r@ == (SendGameData {
                chat_id: chat_id as int,
                game_short_name: game_short_name@,
                disable_notification: None,
                protect_content: None,
                reply_to_message_id: None,
                allow_sending_without_reply: None,
                reply_markup: None,
            }),
    {
        SendGame {
            chat_id,
            game_short_name: String::from_str(game_short_name),
            disable_notification: None,
            protect_content: None,
            reply_to_message_id: None,
            allow_sending_without_reply: None,
            reply_markup: None,
        }
    }

    /// Sends the message silently.
    pub fn disable_notification(self, value: bool) -> (r: SendGame)
        ensures
            r@ == (SendGameData { disable_notification: Some(value), ..self@ }),
    {
        SendGame { disable_notification: Some(value), ..self }
    }

    /// Protects the contents of the sent message from forwarding and saving.
    pub fn protect_content(self, value: bool) -> (r: SendGame)
        ensures
            r@ == (SendGameData { protect_content: Some(value), ..self@ }),
    {
        SendGame { protect_content: Some(value), ..self }
    }

    /// Marks the message as a reply to the given message.
    pub fn reply_to_message_id(self, value: Integer) -> (r: SendGame)
        ensures
            r@ == (SendGameData { reply_to_message_id: Some(value as int), ..self@ }),
    {
        SendGame { reply_to_message_id: Some(value), ..self }
    }

    /// Sends the message even if the replied-to message is not found.
    pub fn allow_sending_without_reply(self, value: bool) -> (r: SendGame)
        ensures
            r@ == (SendGameData { allow_sending_without_reply: Some(value), ..self@ }),
    {
        SendGame { allow_sending_without_reply: Some(value), ..self }
    }

    /// Attaches an inline keyboard.
    pub fn reply_markup(self, value: InlineKeyboardMarkup) -> (r: SendGame)
        ensures
            r@ == (SendGameData { reply_markup: Some(value@), ..self@ }),
    {
        SendGame { reply_markup: Some(value), ..self }
    }

    /// JSON object of the call.
    pub fn to_json(&self) -> (r: JsonValue)
        ensures
            r@ == send_game_json(self@),
    {
        let mut obj = JsonObject::new();
        obj.set("chat_id", JsonValue::Int(self.chat_id));
        obj.set("game_short_name", JsonValue::Str(self.game_short_name.clone()));
        obj.set_opt("disable_notification", opt_bool_value(self.disable_notification));
        obj.set_opt("protect_content", opt_bool_value(self.protect_content));
        obj.set_opt("reply_to_message_id", opt_int_value(self.reply_to_message_id));
        obj.set_opt("allow_sending_without_reply", opt_bool_value(self.allow_sending_without_reply));
        obj.set_opt("reply_markup", opt_keyboard_value(&self.reply_markup));
        proof {
            assert(obj@ == send_game_members(self@));
        }
        obj.into_value()
    }

    /// The request of the call: POST `sendGame` with the JSON body.
    pub fn into_request(self) -> (r: Request)
        ensures
            r.http_method == RequestMethod::Post,
            r.name@ == "sendGame"@,
            r.body matches RequestBody::Json(s) && s@ == json_text(send_game_json(self@)),
    {
        let body = self.to_json();
        Request::json("sendGame", &body)
    }
}

/// Forwards a message of any kind.
#[derive(Clone, Debug)]
pub struct ForwardMessage {
    pub chat_id: ChatId,
    pub from_chat_id: ChatId,
    pub message_id: Integer,
    pub disable_notification: Option<bool>,
    pub protect_content: Option<bool>,
}

/// Model of `ForwardMessage`.
pub struct ForwardMessageData {
    pub chat_id: ChatIdData,
    pub from_chat_id: ChatIdData,
    pub message_id: int,
    pub disable_notification: Option<bool>,
    pub protect_content: Option<bool>,
}

impl View for ForwardMessage {
    type V = ForwardMessageData;

    open spec fn view(&self) -> ForwardMessageData {
        ForwardMessageData {
            chat_id: self.chat_id@,
            from_chat_id: self.from_chat_id@,
            message_id: self.message_id as int,
            disable_notification: self.disable_notification,
            protect_content: self.protect_content,
        }
    }
}

/// Members of the JSON object, in wire order; absent options add nothing.
pub open spec fn forward_message_members(v: ForwardMessageData) -> Seq<(Seq<char>, JsonData)> {
    let m = Seq::<(Seq<char>, JsonData)>::empty();
    let m = m.push(("chat_id"@, chat_id_json(v.chat_id)));
    let m = m.push(("from_chat_id"@, chat_id_json(v.from_chat_id)));
    let m = m.push(("message_id"@, JsonData::Int(v.message_id)));
    let m = match v.disable_notification {
        Some(x) => m.push(("disable_notification"@, JsonData::Bool(x))),
        None => m,
    };
    let m = match v.protect_content {
        Some(x) => m.push(("protect_content"@, JsonData::Bool(x))),
        None => m,
    };
    m
}

/// JSON object sent for `ForwardMessage`.
pub open spec fn forward_message_json(v: ForwardMessageData) -> JsonData {
    JsonData::Obj(forward_message_members(v))
}

impl ForwardMessage {
    /// Creates a new `ForwardMessage` with empty optional parameters.
    pub fn new(chat_id: ChatId, from_chat_id: ChatId, message_id: Integer) -> (r: ForwardMessage)
        ensures
            r@ == (ForwardMessageData {
                chat_id: chat_id@,
                from_chat_id: from_chat_id@,
                message_id: message_id as int,
                disable_notification: None,
                protect_content: None,
            }),
    {
        ForwardMessage {
            chat_id,
            from_chat_id,
            message_id,
            disable_notification: None,
            protect_content: None,
        }
    }

    /// Sends the message silently.
    pub fn disable_notification(self, value: bool) -> (r: ForwardMessage)
        ensures
            r@ == (ForwardMessageData { disable_notification: Some(value), ..self@ }),
    {
        ForwardMessage { disable_notification: Some(value), ..self }
    }

    /// Protects the contents of the forwarded message from forwarding and saving.
    pub fn protect_content(self, value: bool) -> (r: ForwardMessage)
        ensures
            r@ == (ForwardMessageData { protect_content: Some(value), ..self@ }),
    {
        ForwardMessage { protect_content: Some(value), ..self }
    }

    /// JSON object of the call.
    pub fn to_json(&self) -> (r: JsonValue)
        ensures
            r@ == forward_message_json(self@),
    {
        let mut obj = JsonObject::new();
        obj.set("chat_id", self.chat_id.to_json());
        obj.set("from_chat_id", self.from_chat_id.to_json());
        obj.set("message_id", JsonValue::Int(self.message_id));
        obj.set_opt("disable_notification", opt_bool_value(self.disable_notification));
        obj.set_opt("protect_content", opt_bool_value(self.protect_content));
        proof {
            assert(obj@ == forward_message_members(self@));
        }
        obj.into_value()
    }

    /// The request of the call: POST `forwardMessage` with the JSON body.
    pub fn into_request(self) -> (r: Request)
        ensures
            r.http_method == RequestMethod::Post,
            r.name@ == "forwardMessage"@,
            r.body matches RequestBody::Json(s) && s@ == json_text(forward_message_json(self@)),
    {
        let body = self.to_json();
        Request::json("forwardMessage", &body)
    }
}

/// Edits text and game messages sent by the bot or via the bot.
#[derive(Clone, Debug)]
pub struct EditMessageText {
    pub chat_id: Option<ChatId>,
    pub message_id: Option<Integer>,
    pub inline_message_id: Option<String>,
    pub text: String,
    pub parse_mode: Option<ParseMode>,
    pub entities: Option<TextEntities>,
    pub disable_web_page_preview: Option<bool>,
    pub reply_markup: Option<InlineKeyboardMarkup>,
}

/// Model of `EditMessageText`.
pub struct EditMessageTextData {
    pub chat_id: Option<ChatIdData>,
    pub message_id: Option<int>,
    pub inline_message_id: Option<Seq<char>>,
    pub text: Seq<char>,
    pub parse_mode: Option<ParseMode>,
    pub entities: Option<Seq<TextEntityData>>,
    pub disable_web_page_preview: Option<bool>,
    pub reply_markup: Option<Seq<Seq<InlineKeyboardButtonData>>>,
}

impl View for EditMessageText {
    type V = EditMessageTextData;

    open spec fn view(&self) -> EditMessageTextData {
        EditMessageTextData {
            chat_id: view_opt_chat_id(self.chat_id),
            message_id: view_opt_int(self.message_id),
            inline_message_id: view_opt_str(self.inline_message_id),
            text: self.text@,
            parse_mode: self.parse_mode,
            entities: view_opt_entities(self.entities),
            disable_web_page_preview: self.disable_web_page_preview,
            reply_markup: view_opt_keyboard(self.reply_markup),
        }
    }
}

/// Members of the JSON object, in wire order; absent options add nothing.
pub open spec fn edit_message_text_members(v: EditMessageTextData) -> Seq<(Seq<char>, JsonData)> {
    let m = Seq::<(Seq<char>, JsonData)>::empty();
    let m = match v.chat_id {
        Some(x) => m.push(("chat_id"@, chat_id_json(x))),
        None => m,
    };
    let m = match v.message_id {
        Some(x) => m.push(("message_id"@, JsonData::Int(x))),
        None => m,
    };
    let m = match v.inline_message_id {
        Some(x) => m.push(("inline_message_id"@, JsonData::Str(x))),
        None => m,
    };
    let m = m.push(("text"@, JsonData::Str(v.text)));
    let m = match v.parse_mode {
        Some(x) => m.push(("parse_mode"@, JsonData::Str(x.spec_name()))),
        None => m,
    };
    let m = match v.entities {
        Some(x) => m.push(("entities"@, entities_json(x))),
        None => m,
    };
    let m = match v.disable_web_page_preview {
        Some(x) => m.push(("disable_web_page_preview"@, JsonData::Bool(x))),
        None => m,
    };
    let m = match v.reply_markup {
        Some(x) => m.push(("reply_markup"@, keyboard_json(x))),
        None => m,
    };
    m
}

/// JSON object sent for `EditMessageText`.
pub open spec fn edit_message_text_json(v: EditMessageTextData) -> JsonData {
    JsonData::Obj(edit_message_text_members(v))
}

impl EditMessageText {
    /// Creates a new `EditMessageText` for a message in a chat.
    pub fn new(chat_id: ChatId, message_id: Integer, text: &str) -> (r: EditMessageText)
        ensures
            r@ == (EditMessageTextData {
                chat_id: Some(chat_id@),
                message_id: Some(message_id as int),
                inline_message_id: None,
                text: text@,
                parse_mode: None,
                entities: None,
                disable_web_page_preview: None,
                reply_markup: None,
            }),
    {
        EditMessageText {
            chat_id: Some(chat_id),
            message_id: Some(message_id),
            inline_message_id: None,
            text: String::from_str(text),
            parse_mode: None,
            entities: None,
            disable_web_page_preview: None,
            reply_markup: None,
        }
    }

    /// Creates a new `EditMessageText` for an inline message.
    pub fn with_inline_message_id(inline_message_id: &str, text: &str) -> (r: EditMessageText)
        ensures
            r@ == (EditMessageTextData {
                chat_id: None,
                message_id: None,
                inline_message_id: Some(inline_message_id@),
                text: text@,
                parse_mode: None,
                entities: None,
                disable_web_page_preview: None,
                reply_markup: None,
            }),
    {
        EditMessageText {
            chat_id: None,
            message_id: None,
            inline_message_id: Some(String::from_str(inline_message_id)),
            text: String::from_str(text),
            parse_mode: None,
            entities: None,
            disable_web_page_preview: None,
            reply_markup: None,
        }
    }

    /// Sets the parse mode; entities are cleared.
    pub fn parse_mode(self, value: ParseMode) -> (r: EditMessageText)
        ensures
            r@ == (EditMessageTextData { parse_mode: Some(value), entities: None, ..self@ }),
    {
        EditMessageText { parse_mode: Some(value),entities: None, ..self }
    }

    /// Sets the entities of the text; the parse mode is cleared.
    pub fn entities(self, value: Vec<TextEntity>) -> (r: EditMessageText)
        ensures
            r@ == (EditMessageTextData { entities: Some(entities_data(value@)), parse_mode: None, ..self@ }),
    {
        EditMessageText { entities: Some(TextEntities::from_vec(value)),parse_mode: None, ..self }
    }

    /// Disables link previews for links in the message.
    pub fn disable_web_page_preview(self, value: bool) -> (r: EditMessageText)
        ensures
            r@ == (EditMessageTextData { disable_web_page_preview: Some(value), ..self@ }),
    {
        EditMessageText { disable_web_page_preview: Some(value), ..self }
    }

    /// Attaches an inline keyboard.
    pub fn reply_markup(self, value: InlineKeyboardMarkup) -> (r: EditMessageText)
        ensures
            r@ == (EditMessageTextData { reply_markup: Some(value@), ..self@ }),
    {
        EditMessageText { reply_markup: Some(value), ..self }
    }

    /// JSON object of the call.
    pub fn to_json(&self) -> (r: JsonValue)
        ensures
            r@ == edit_message_text_json(self@),
    {
        let mut obj = JsonObject::new();
        obj.set_opt("chat_id", opt_chat_id_value(&self.chat_id));
        obj.set_opt("message_id", opt_int_value(self.message_id));
        obj.set_opt("inline_message_id", opt_str_value(&self.inline_message_id));
        obj.set("text", JsonValue::Str(self.text.clone()));
        obj.set_opt("parse_mode", opt_parse_mode_value(&self.parse_mode));
        obj.set_opt("entities", opt_entities_value(&self.entities));
        obj.set_opt("disable_web_page_preview", opt_bool_value(self.disable_web_page_preview));
        obj.set_opt("reply_markup", opt_keyboard_value(&self.reply_markup));
        proof {
            assert(obj@ == edit_message_text_members(self@));
        }
        obj.into_value()
    }

    /// The request of the call: POST `editMessageText` with the JSON body.
    pub fn into_request(self) -> (r: Request)
        ensures
            r.http_method == RequestMethod::Post,
            r.name@ == "editMessageText"@,
            r.body matches RequestBody::Json(s) && s@ == json_text(edit_message_text_json(self@)),
    {
        let body = self.to_json();
        Request::json("editMessageText", &body)
    }
}

/// Parameters shared by the poll and quiz sending calls.
#[derive(Clone, Debug)]
pub struct PollParameters {
    pub chat_id: ChatId,
    pub question: String,
    pub options: Vec<String>,
    pub is_anonymous: Option<bool>,
    pub kind: Option<PollKind>,
    pub allows_multiple_answers: Option<bool>,
    pub correct_option_id: Option<Integer>,
    pub explanation: Option<String>,
    pub explanation_parse_mode: Option<ParseMode>,
    pub explanation_entities: Option<TextEntities>,
    pub open_period: Option<Integer>,
    pub close_date: Option<Integer>,
    pub is_closed: Option<bool>,
    pub disable_notification: Option<bool>,
    pub protect_content: Option<bool>,
    pub reply_to_message_id: Option<Integer>,
    pub allow_sending_without_reply: Option<bool>,
    pub reply_markup: Option<ReplyMarkup>,
}

/// Model of `PollParameters`.
pub struct PollParametersData {
    pub chat_id: ChatIdData,
    pub question: Seq<char>,
    pub options: Seq<Seq<char>>,
    pub is_anonymous: Option<bool>,
    pub kind: Option<PollKind>,
    pub allows_multiple_answers: Option<bool>,
    pub correct_option_id: Option<int>,
    pub explanation: Option<Seq<char>>,
    pub explanation_parse_mode: Option<ParseMode>,
    pub explanation_entities: Option<Seq<TextEntityData>>,
    pub open_period: Option<int>,
    pub close_date: Option<int>,
    pub is_closed: Option<bool>,
    pub disable_notification: Option<bool>,
    pub protect_content: Option<bool>,
    pub reply_to_message_id: Option<int>,
    pub allow_sending_without_reply: Option<bool>,
    pub reply_markup: Option<ReplyMarkupData>,
}

impl View for PollParameters {
    type V = PollParametersData;

    open spec fn view(&self) -> PollParametersData {
        PollParametersData {
            chat_id: self.chat_id@,
            question: self.question@,
            options: Seq::new(self.options@.len(), |i: int| self.options@[i]@),
            is_anonymous: self.is_anonymous,
            kind: self.kind,
            allows_multiple_answers: self.allows_multiple_answers,
            correct_option_id: view_opt_int(self.correct_option_id),
            explanation: view_opt_str(self.explanation),
            explanation_parse_mode: self.explanation_parse_mode,
            explanation_entities: view_opt_entities(self.explanation_entities),
            open_period: view_opt_int(self.open_period),
            close_date: view_opt_int(self.close_date),
            is_closed: self.is_closed,
            disable_notification: self.disable_notification,
            protect_content: self.protect_content,
            reply_to_message_id: view_opt_int(self.reply_to_message_id),
            allow_sending_without_reply: self.allow_sending_without_reply,
            reply_markup: view_opt_reply_markup(self.reply_markup),
        }
    }
}

/// Members of the JSON object, in wire order; absent options add nothing.
pub open spec fn poll_parameters_members(v: PollParametersData) -> Seq<(Seq<char>, JsonData)> {
    let m = Seq::<(Seq<char>, JsonData)>::empty();
    let m = m.push(("chat_id"@, chat_id_json(v.chat_id)));
    let m = m.push(("question"@, JsonData::Str(v.question)));
    let m = m.push(("options"@, strings_json(v.options)));
    let m = match v.is_anonymous {
        Some(x) => m.push(("is_anonymous"@, JsonData::Bool(x))),
        None => m,
    };
    let m = match v.kind {
        Some(x) => m.push(("type"@, JsonData::Str(x.spec_name()))),
        None => m,
    };
    let m = match v.allows_multiple_answers {
        Some(x) => m.push(("allows_multiple_answers"@, JsonData::Bool(x))),
        None => m,
    };
    let m = match v.correct_option_id {
        Some(x) => m.push(("correct_option_id"@, JsonData::Int(x))),
        None => m,
    };
    let m = match v.explanation {
        Some(x) => m.push(("explanation"@, JsonData::Str(x))),
        None => m,
    };
    let m = match v.explanation_parse_mode {
        Some(x) => m.push(("explanation_parse_mode"@, JsonData::Str(x.spec_name()))),
        None => m,
    };
    let m = match v.explanation_entities {
        Some(x) => m.push(("explanation_entities"@, entities_json(x))),
        None => m,
    };
    let m = match v.open_period {
        Some(x) => m.push(("open_period"@, JsonData::Int(x))),
        None => m,
    };
    let m = match v.close_date {
        Some(x) => m.push(("close_date"@, JsonData::Int(x))),
        None => m,
    };
    let m = match v.is_closed {
        Some(x) => m.push(("is_closed"@, JsonData::Bool(x))),
        None => m,
    };
    let m = match v.disable_notification {
        Some(x) => m.push(("disable_notification"@, JsonData::Bool(x))),
        None => m,
    };
    let m = match v.protect_content {
        Some(x) => m.push(("protect_content"@, JsonData::Bool(x))),
        None => m,
    };
    let m = match v.reply_to_message_id {
        Some(x) => m.push(("reply_to_message_id"@, JsonData::Int(x))),
        None => m,
    };
    let m = match v.allow_sending_without_reply {
        Some(x) => m.push(("allow_sending_without_reply"@, JsonData::Bool(x))),
        None => m,
    };
    let m = match v.reply_markup {
        Some(x) => m.push(("reply_markup"@, reply_markup_json(x))),
        None => m,
    };
    m
}

/// JSON object sent for `PollParameters`.
pub open spec fn poll_parameters_json(v: PollParametersData) -> JsonData {
    JsonData::Obj(poll_parameters_members(v))
}

impl PollParameters {
    /// Creates new parameters with no options and no optional members.
    pub fn new(chat_id: ChatId, question: &str, kind: PollKind) -> (r: PollParameters)
        ensures
            r@ == (PollParametersData {
                chat_id: chat_id@,
                question: question@,
                options: Seq::<Seq<char>>::empty(),
                is_anonymous: None,
                kind: Some(kind),
                allows_multiple_answers: None,
                correct_option_id: None,
                explanation: None,
                explanation_parse_mode: None,
                explanation_entities: None,
                open_period: None,
                close_date: None,
                is_closed: None,
                disable_notification: None,
                protect_content: None,
                reply_to_message_id: None,
                allow_sending_without_reply: None,
                reply_markup: None,
            }),
    {
        let r = PollParameters {
            chat_id,
            question: String::from_str(question),
            options: Vec::new(),
            is_anonymous: None,
            kind: Some(kind),
            allows_multiple_answers: None,
            correct_option_id: None,
            explanation: None,
            explanation_parse_mode: None,
            explanation_entities: None,
            open_period: None,
            close_date: None,
            is_closed: None,
            disable_notification: None,
            protect_content: None,
            reply_to_message_id: None,
            allow_sending_without_reply: None,
            reply_markup: None,
        };
        proof {
            assert(r@.options =~= Seq::<Seq<char>>::empty());
        }
        r
    }

    /// Appends one answer option.
    pub fn push_option(self, option: &str) -> (r: PollParameters)
        ensures
            r@ == (PollParametersData { options: self@.options.push(option@), ..self@ }),
    {
        let ghost pre = self@;
        let mut s = self;
        s.options.push(String::from_str(option));
        proof {
            assert(s@.options =~= pre.options.push(option@));
        }
        s
    }

    /// JSON object of the call.
    pub fn to_json(&self) -> (r: JsonValue)
        ensures
            r@ == poll_parameters_json(self@),
    {
        let mut obj = JsonObject::new();
        obj.set("chat_id", self.chat_id.to_json());
        obj.set("question", JsonValue::Str(self.question.clone()));
        obj.set("options", strings_to_json(&self.options));
        obj.set_opt("is_anonymous", opt_bool_value(self.is_anonymous));
        obj.set_opt("type", opt_poll_kind_value(&self.kind));
        obj.set_opt("allows_multiple_answers", opt_bool_value(self.allows_multiple_answers));
        obj.set_opt("correct_option_id", opt_int_value(self.correct_option_id));
        obj.set_opt("explanation", opt_str_value(&self.explanation));
        obj.set_opt("explanation_parse_mode", opt_parse_mode_value(&self.explanation_parse_mode));
        obj.set_opt("explanation_entities", opt_entities_value(&self.explanation_entities));
        obj.set_opt("open_period", opt_int_value(self.open_period));
        obj.set_opt("close_date", opt_int_value(self.close_date));
        obj.set_opt("is_closed", opt_bool_value(self.is_closed));
        obj.set_opt("disable_notification", opt_bool_value(self.disable_notification));
        obj.set_opt("protect_content", opt_bool_value(self.protect_content));
        obj.set_opt("reply_to_message_id", opt_int_value(self.reply_to_message_id));
        obj.set_opt("allow_sending_without_reply", opt_bool_value(self.allow_sending_without_reply));
        obj.set_opt("reply_markup", opt_reply_markup_value(&self.reply_markup));
        proof {
            assert(obj@ == poll_parameters_members(self@));
        }
        obj.into_value()
    }
}

/// Stops a poll which was sent by the bot.
#[derive(Clone, Debug)]
pub struct StopPoll {
    pub chat_id: ChatId,
    pub message_id: Integer,
    pub reply_markup: Option<InlineKeyboardMarkup>,
}

/// Model of `StopPoll`.
pub struct StopPollData {
    pub chat_id: ChatIdData,
    pub message_id: int,
    pub reply_markup: Option<Seq<Seq<InlineKeyboardButtonData>>>,
}

impl View for StopPoll {
    type V = StopPollData;

    open spec fn view(&self) -> StopPollData {
        StopPollData {
            chat_id: self.chat_id@,
            message_id: self.message_id as int,
            reply_markup: view_opt_keyboard(self.reply_markup),
        }
    }
}

/// Members of the JSON object, in wire order; absent options add nothing.
pub open spec fn stop_poll_members(v: StopPollData) -> Seq<(Seq<char>, JsonData)> {
    let m = Seq::<(Seq<char>, JsonData)>::empty();
    let m = m.push(("chat_id"@, chat_id_json(v.chat_id)));
    let m = m.push(("message_id"@, JsonData::Int(v.message_id)));
    let m = match v.reply_markup {
        Some(x) => m.push(("reply_markup"@, keyboard_json(x))),
        None => m,
    };
    m
}

/// JSON object sent for `StopPoll`.
pub open spec fn stop_poll_json(v: StopPollData) -> JsonData {
    JsonData::Obj(stop_poll_members(v))
}

impl StopPoll {
    /// Creates a new `StopPoll` with empty optional parameters.
    pub fn new(chat_id: ChatId, message_id: Integer) -> (r: StopPoll)
        ensures
            r@ == (StopPollData {
                chat_id: chat_id@,
                message_id: message_id as int,
                reply_markup: None,
            }),
    {
        StopPoll {
            chat_id,
            message_id,
            reply_markup: None,
        }
    }

    /// Attaches a new message inline keyboard.
    pub fn reply_markup(self, value: InlineKeyboardMarkup) -> (r: StopPoll)
        ensures
            r@ == (StopPollData { reply_markup: Some(value@), ..self@ }),
    {
        StopPoll { reply_markup: Some(value), ..self }
    }

    /// JSON object of the call.
    pub fn to_json(&self) -> (r: JsonValue)
        ensures
            r@ == stop_poll_json(self@),
    {
        let mut obj = JsonObject::new();
        obj.set("chat_id", self.chat_id.to_json());
        obj.set("message_id", JsonValue::Int(self.message_id));
        obj.set_opt("reply_markup", opt_keyboard_value(&self.reply_markup));
        proof {
            assert(obj@ == stop_poll_members(self@));
        }
        obj.into_value()
    }

    /// The request of the call: POST `stopPoll` with the JSON body.
    pub fn into_request(self) -> (r: Request)
        ensures
            r.http_method == RequestMethod::Post,
            r.name@ == "stopPoll"@,
            r.body matches RequestBody::Json(s) && s@ == json_text(stop_poll_json(self@)),
    {
        let body = self.to_json();
        Request::json("stopPoll", &body)
    }
}

/// Sends information about a venue.
#[derive(Clone, Debug)]
pub struct SendVenue {
    pub chat_id: ChatId,
    pub latitude: Decimal,
    pub longitude: Decimal,
    pub title: String,
    pub address: String,
    pub foursquare_id: Option<String>,
    pub foursquare_type: Option<String>,
    pub google_place_id: Option<String>,
    pub google_place_type: Option<String>,
    pub disable_notification: Option<bool>,
    pub protect_content: Option<bool>,
    pub reply_to_message_id: Option<Integer>,
    pub allow_sending_without_reply: Option<bool>,
    pub reply_markup: Option<ReplyMarkup>,
}

/// Model of `SendVenue`.
pub struct SendVenueData {
    pub chat_id: ChatIdData,
    pub latitude: Decimal,
    pub longitude: Decimal,
    pub title: Seq<char>,
    pub address: Seq<char>,
    pub foursquare_id: Option<Seq<char>>,
    pub foursquare_type: Option<Seq<char>>,
    pub google_place_id: Option<Seq<char>>,
    pub google_place_type: Option<Seq<char>>,
    pub disable_notification: Option<bool>,
    pub protect_content: Option<bool>,
    pub reply_to_message_id: Option<int>,
    pub allow_sending_without_reply: Option<bool>,
    pub reply_markup: Option<ReplyMarkupData>,
}

impl View for SendVenue {
    type V = SendVenueData;

    open spec fn view(&self) -> SendVenueData {
        SendVenueData {
            chat_id: self.chat_id@,
            latitude: self.latitude,
            longitude: self.longitude,
            title: self.title@,
            address: self.address@,
            foursquare_id: view_opt_str(self.foursquare_id),
            foursquare_type: view_opt_str(self.foursquare_type),
            google_place_id: view_opt_str(self.google_place_id),
            google_place_type: view_opt_str(self.google_place_type),
            disable_notification: self.disable_notification,
            protect_content: self.protect_content,
            reply_to_message_id: view_opt_int(self.reply_to_message_id),
            allow_sending_without_reply: self.allow_sending_without_reply,
            reply_markup: view_opt_reply_markup(self.reply_markup),
        }
    }
}

/// Members of the JSON object, in wire order; absent options add nothing.
pub open spec fn send_venue_members(v: SendVenueData) -> Seq<(Seq<char>, JsonData)> {
    let m = Seq::<(Seq<char>, JsonData)>::empty();
    let m = m.push(("chat_id"@, chat_id_json(v.chat_id)));
    let m = m.push(("latitude"@, JsonData::Dec(v.latitude.m(), v.latitude.s())));
    let m = m.push(("longitude"@, JsonData::Dec(v.longitude.m(), v.longitude.s())));
    let m = m.push(("title"@, JsonData::Str(v.title)));
    let m = m.push(("address"@, JsonData::Str(v.address)));
    let m = match v.foursquare_id {
        Some(x) => m.push(("foursquare_id"@, JsonData::Str(x))),
        None => m,
    };
    let m = match v.foursquare_type {
        Some(x) => m.push(("foursquare_type"@, JsonData::Str(x))),
        None => m,
    };
    let m = match v.google_place_id {
        Some(x) => m.push(("google_place_id"@, JsonData::Str(x))),
        None => m,
    };
    let m = match v.google_place_type {
        Some(x) => m.push(("google_place_type"@, JsonData::Str(x))),
        None => m,
    };
    let m = match v.disable_notification {
        Some(x) => m.push(("disable_notification"@, JsonData::Bool(x))),
        None => m,
    };
    let m = match v.protect_content {
        Some(x) => m.push(("protect_content"@, JsonData::Bool(x))),
        None => m,
    };
    let m = match v.reply_to_message_id {
        Some(x) => m.push(("reply_to_message_id"@, JsonData::Int(x))),
        None => m,
    };
    let m = match v.allow_sending_without_reply {
        Some(x) => m.push(("allow_sending_without_reply"@, JsonData::Bool(x))),
        None => m,
    };
    let m = match v.reply_markup {
        Some(x) => m.push(("reply_markup"@, reply_markup_json(x))),
        None => m,
    };
    m
}

/// JSON object sent for `SendVenue`.
pub open spec fn send_venue_json(v: SendVenueData) -> JsonData {
    JsonData::Obj(send_venue_members(v))
}

impl SendVenue {
    /// Creates a new `SendVenue` with empty optional parameters.
    pub fn new(chat_id: ChatId, latitude: Decimal, longitude: Decimal, title: &str, address: &str) -> (r: SendVenue)
        ensures
            r@ == (SendVenueData {
                chat_id: chat_id@,
                latitude,
                longitude,
                title: title@,
                address: address@,
                foursquare_id: None,
                foursquare_type: None,
                google_place_id: None,
                google_place_type: None,
                disable_notification: None,
                protect_content: None,
                reply_to_message_id: None,
                allow_sending_without_reply: None,
                reply_markup: None,
            }),
    {
        SendVenue {
            chat_id,
            latitude,
            longitude,
            title: String::from_str(title),
            address: String::from_str(address),
            foursquare_id: None,
            foursquare_type: None,
            google_place_id: None,
            google_place_type: None,
            disable_notification: None,
            protect_content: None,
            reply_to_message_id: None,
            allow_sending_without_reply: None,
            reply_markup: None,
        }
    }

    /// Sets the Foursquare identifier of the venue.
    pub fn foursquare_id(self, value: &str) -> (r: SendVenue)
        ensures
            r@ == (SendVenueData { foursquare_id: Some(value@), ..self@ }),
    {
        SendVenue { foursquare_id: Some(String::from_str(value)), ..self }
    }

    /// Sets the Foursquare type of the venue.
    pub fn foursquare_type(self, value: &str) -> (r: SendVenue)
        ensures
            r@ == (SendVenueData { foursquare_type: Some(value@), ..self@ }),
    {
        SendVenue { foursquare_type: Some(String::from_str(value)), ..self }
    }

    /// Sets the Google Places identifier of the venue.
    pub fn google_place_id(self, value: &str) -> (r: SendVenue)
        ensures
            r@ == (SendVenueData { google_place_id: Some(value@), ..self@ }),
    {
        SendVenue { google_place_id: Some(String::from_str(value)), ..self }
    }

    /// Sets the Google Places type of the venue.
    pub fn google_place_type(self, value: &str) -> (r: SendVenue)
        ensures
            r@ == (SendVenueData { google_place_type: Some(value@), ..self@ }),
    {
        SendVenue { google_place_type: Some(String::from_str(value)), ..self }
    }

    /// Sends the message silently.
    pub fn disable_notification(self, value: bool) -> (r: SendVenue)
        ensures
            r@ == (SendVenueData { disable_notification: Some(value), ..self@ }),
    {
        SendVenue { disable_notification: Some(value), ..self }
    }

    /// Protects the contents of the sent message from forwarding and saving.
    pub fn protect_content(self, value: bool) -> (r: SendVenue)
        ensures
            r@ == (SendVenueData { protect_content: Some(value), ..self@ }),
    {
        SendVenue { protect_content: Some(value), ..self }
    }

    /// Marks the message as a reply to the given message.
    pub fn reply_to_message_id(self, value: Integer) -> (r: SendVenue)
        ensures
            r@ == (SendVenueData { reply_to_message_id: Some(value as int), ..self@ }),
    {
        SendVenue { reply_to_message_id: Some(value), ..self }
    }

    /// Sends the message even if the replied-to message is not found.
    pub fn allow_sending_without_reply(self, value: bool) -> (r: SendVenue)
        ensures
            r@ == (SendVenueData { allow_sending_without_reply: Some(value), ..self@ }),
    {
        SendVenue { allow_sending_without_reply: Some(value), ..self }
    }

    /// Attaches additional interface options.
    pub fn reply_markup(self, value: ReplyMarkup) -> (r: SendVenue)
        ensures
            r@ == (SendVenueData { reply_markup: Some(value@), ..self@ }),
    {
        SendVenue { reply_markup: Some(value), ..self }
    }

    /// JSON object of the call.
    pub fn to_json(&self) -> (r: JsonValue)
        ensures
            r@ == send_venue_json(self@),
    {
        let mut obj = JsonObject::new();
        obj.set("chat_id", self.chat_id.to_json());
        obj.set("latitude", JsonValue::Dec(self.latitude));
        obj.set("longitude", JsonValue::Dec(self.longitude));
        obj.set("title", JsonValue::Str(self.title.clone()));
        obj.set("address", JsonValue::Str(self.address.clone()));
        obj.set_opt("foursquare_id", opt_str_value(&self.foursquare_id));
        obj.set_opt("foursquare_type", opt_str_value(&self.foursquare_type));
        obj.set_opt("google_place_id", opt_str_value(&self.google_place_id));
        obj.set_opt("google_place_type", opt_str_value(&self.google_place_type));
        obj.set_opt("disable_notification", opt_bool_value(self.disable_notification));
        obj.set_opt("protect_content", opt_bool_value(self.protect_content));
        obj.set_opt("reply_to_message_id", opt_int_value(self.reply_to_message_id));
        obj.set_opt("allow_sending_without_reply", opt_bool_value(self.allow_sending_without_reply));
        obj.set_opt("reply_markup", opt_reply_markup_value(&self.reply_markup));
        proof {
            assert(obj@ == send_venue_members(self@));
        }
        obj.into_value()
    }

    /// The request of the call: POST `sendVenue` with the JSON body.
    pub fn into_request(self) -> (r: Request)
        ensures
            r.http_method == RequestMethod::Post,
            r.name@ == "sendVenue"@,
            r.body matches RequestBody::Json(s) && s@ == json_text(send_venue_json(self@)),
    {
        let body = self.to_json();
        Request::json("sendVenue", &body)
    }
}


/// Sends a quiz; on success the sent message is returned.
#[derive(Clone, Debug)]
pub struct SendQuiz {
    pub inner: PollParameters,
}

impl View for SendQuiz {
    type V = PollParametersData;

    open spec fn view(&self) -> PollParametersData {
        self.inner@
    }
}

impl SendQuiz {
    /// Creates a new `SendQuiz` with empty optional parameters.
    pub fn new(chat_id: ChatId, question: &str) -> (r: SendQuiz)
        ensures
            r@ == (PollParametersData {
                chat_id: chat_id@,
                question: question@,
                options: Seq::<Seq<char>>::empty(),
                is_anonymous: None,
                kind: Some(PollKind::Quiz),
                allows_multiple_answers: None,
                correct_option_id: None,
                explanation: None,
                explanation_parse_mode: None,
                explanation_entities: None,
                open_period: None,
                close_date: None,
                is_closed: None,
                disable_notification: None,
                protect_content: None,
                reply_to_message_id: None,
                allow_sending_without_reply: None,
                reply_markup: None,
            }),
    {
        SendQuiz { inner: PollParameters::new(chat_id, question, PollKind::Quiz) }
    }

    /// Adds an answer option.
    pub fn option(self, option: &str) -> (r: SendQuiz)
        ensures
            r@ == (PollParametersData { options: self@.options.push(option@), ..self@ }),
    {
        SendQuiz { inner: self.inner.push_option(option) }
    }

    /// True when the poll needs to be anonymous.
    pub fn is_anonymous(self, value: bool) -> (r: SendQuiz)
        ensures
            r@ == (PollParametersData { is_anonymous: Some(value), ..self@ }),
    {
        SendQuiz { inner: PollParameters { is_anonymous: Some(value), ..self.inner } }
    }

    /// Zero-based identifier of the correct answer option.
    pub fn correct_option_id(self, value: Integer) -> (r: SendQuiz)
        ensures
            r@ == (PollParametersData { correct_option_id: Some(value as int), ..self@ }),
    {
        SendQuiz { inner: PollParameters { correct_option_id: Some(value), ..self.inner } }
    }

    /// Text shown when a user chooses an incorrect answer.
    pub fn explanation(self, value: &str) -> (r: SendQuiz)
        ensures
            r@ == (PollParametersData { explanation: Some(value@), ..self@ }),
    {
        SendQuiz { inner: PollParameters { explanation: Some(String::from_str(value)), ..self.inner } }
    }

    /// Mode for parsing entities in the explanation; explanation entities are cleared.
    pub fn explanation_parse_mode(self, value: ParseMode) -> (r: SendQuiz)
        ensures
            r@ == (PollParametersData { explanation_parse_mode: Some(value), explanation_entities: None, ..self@ }),
    {
        SendQuiz { inner: PollParameters { explanation_parse_mode: Some(value), explanation_entities: None, ..self.inner } }
    }

    /// Entities that appear in the explanation; the explanation parse mode is cleared.
    pub fn explanation_entities(self, value: Vec<TextEntity>) -> (r: SendQuiz)
        ensures
            r@ == (PollParametersData { explanation_entities: Some(entities_data(value@)), explanation_parse_mode: None, ..self@ }),
    {
        SendQuiz { inner: PollParameters { explanation_entities: Some(TextEntities::from_vec(value)), explanation_parse_mode: None, ..self.inner } }
    }

    /// Seconds the poll stays active after creation; the close date is cleared.
    pub fn open_period(self, value: Integer) -> (r: SendQuiz)
        ensures
            r@ == (PollParametersData { open_period: Some(value as int), close_date: None, ..self@ }),
    {
        SendQuiz { inner: PollParameters { open_period: Some(value), close_date: None, ..self.inner } }
    }

    /// Unix time when the poll is closed automatically; the open period is cleared.
    pub fn close_date(self, value: Integer) -> (r: SendQuiz)
        ensures
            r@ == (PollParametersData { close_date: Some(value as int), open_period: None, ..self@ }),
    {
        SendQuiz { inner: PollParameters { close_date: Some(value), open_period: None, ..self.inner } }
    }

    /// True when the poll needs to be immediately closed.
    pub fn is_closed(self, value: bool) -> (r: SendQuiz)
        ensures
            r@ == (PollParametersData { is_closed: Some(value), ..self@ }),
    {
        SendQuiz { inner: PollParameters { is_closed: Some(value), ..self.inner } }
    }

    /// Sends the message silently.
    pub fn disable_notification(self, value: bool) -> (r: SendQuiz)
        ensures
            r@ == (PollParametersData { disable_notification: Some(value), ..self@ }),
    {
        SendQuiz { inner: PollParameters { disable_notification: Some(value), ..self.inner } }
    }

    /// Protects the contents of the sent message from forwarding and saving.
    pub fn protect_content(self, value: bool) -> (r: SendQuiz)
        ensures
            r@ == (PollParametersData { protect_content: Some(value), ..self@ }),
    {
        SendQuiz { inner: PollParameters { protect_content: Some(value), ..self.inner } }
    }

    /// Marks the message as a reply to the given message.
    pub fn reply_to_message_id(self, value: Integer) -> (r: SendQuiz)
        ensures
            r@ == (PollParametersData { reply_to_message_id: Some(value as int), ..self@ }),
    {
        SendQuiz { inner: PollParameters { reply_to_message_id: Some(value), ..self.inner } }
    }

    /// Sends the message even if the replied-to message is not found.
    pub fn allow_sending_without_reply(self, value: bool) -> (r: SendQuiz)
        ensures
            r@ == (PollParametersData { allow_sending_without_reply: Some(value), ..self@ }),
    {
        SendQuiz { inner: PollParameters { allow_sending_without_reply: Some(value), ..self.inner } }
    }

    /// Attaches additional interface options.
    pub fn reply_markup(self, value: ReplyMarkup) -> (r: SendQuiz)
        ensures
            r@ == (PollParametersData { reply_markup: Some(value@), ..self@ }),
    {
        SendQuiz { inner: PollParameters { reply_markup: Some(value), ..self.inner } }
    }

    /// The request of the call: POST `sendPoll` with the JSON body.
    pub fn into_request(self) -> (r: Request)
        ensures
            r.http_method == RequestMethod::Post,
            r.name@ == "sendPoll"@,
            r.body matches RequestBody::Json(s) && s@ == json_text(poll_parameters_json(self@)),
    {
        let body = self.inner.to_json();
        Request::json("sendPoll", &body)
    }
}

/// Sends a native poll; on success the sent message is returned.
#[derive(Clone, Debug)]
pub struct SendPoll {
    pub inner: PollParameters,
}

impl View for SendPoll {
    type V = PollParametersData;

    open spec fn view(&self) -> PollParametersData {
        self.inner@
    }
}

impl SendPoll {
    /// Creates a new `SendPoll` with empty optional parameters.
    pub fn new(chat_id: ChatId, question: &str) -> (r: SendPoll)
        ensures
            r@ == (PollParametersData {
                chat_id: chat_id@,
                question: question@,
                options: Seq::<Seq<char>>::empty(),
                is_anonymous: None,
                kind: Some(PollKind::Regular),
                allows_multiple_answers: None,
                correct_option_id: None,
                explanation: None,
                explanation_parse_mode: None,
                explanation_entities: None,
                open_period: None,
                close_date: None,
                is_closed: None,
                disable_notification: None,
                protect_content: None,
                reply_to_message_id: None,
                allow_sending_without_reply: None,
                reply_markup: None,
            }),
    {
        SendPoll { inner: PollParameters::new(chat_id, question, PollKind::Regular) }
    }

    /// Adds an answer option.
    pub fn option(self, option: &str) -> (r: SendPoll)
        ensures
            r@ == (PollParametersData { options: self@.options.push(option@), ..self@ }),
    {
        SendPoll { inner: self.inner.push_option(option) }
    }

    /// True when the poll needs to be anonymous.
    pub fn is_anonymous(self, value: bool) -> (r: SendPoll)
        ensures
            r@ == (PollParametersData { is_anonymous: Some(value), ..self@ }),
    {
        SendPoll { inner: PollParameters { is_anonymous: Some(value), ..self.inner } }
    }

    /// True when the poll allows multiple answers.
    pub fn allows_multiple_answers(self, value: bool) -> (r: SendPoll)
        ensures
            r@ == (PollParametersData { allows_multiple_answers: Some(value), ..self@ }),
    {
        SendPoll { inner: PollParameters { allows_multiple_answers: Some(value), ..self.inner } }
    }

    /// Seconds the poll stays active after creation; the close date is cleared.
    pub fn open_period(self, value: Integer) -> (r: SendPoll)
        ensures
            r@ == (PollParametersData { open_period: Some(value as int), close_date: None, ..self@ }),
    {
        SendPoll { inner: PollParameters { open_period: Some(value), close_date: None, ..self.inner } }
    }

    /// Unix time when the poll is closed automatically; the open period is cleared.
    pub fn close_date(self, value: Integer) -> (r: SendPoll)
        ensures
            r@ == (PollParametersData { close_date: Some(value as int), open_period: None, ..self@ }),
    {
        SendPoll { inner: PollParameters { close_date: Some(value), open_period: None, ..self.inner } }
    }

    /// True when the poll needs to be immediately closed.
    pub fn is_closed(self, value: bool) -> (r: SendPoll)
        ensures
            r@ == (PollParametersData { is_closed: Some(value), ..self@ }),
    {
        SendPoll { inner: PollParameters { is_closed: Some(value), ..self.inner } }
    }

    /// Sends the message silently.
    pub fn disable_notification(self, value: bool) -> (r: SendPoll)
        ensures
            r@ == (PollParametersData { disable_notification: Some(value), ..self@ }),
    {
        SendPoll { inner: PollParameters { disable_notification: Some(value), ..self.inner } }
    }

    /// Protects the contents of the sent message from forwarding and saving.
    pub fn protect_content(self, value: bool) -> (r: SendPoll)
        ensures
            r@ == (PollParametersData { protect_content: Some(value), ..self@ }),
    {
        SendPoll { inner: PollParameters { protect_content: Some(value), ..self.inner } }
    }

    /// Marks the message as a reply to the given message.
    pub fn reply_to_message_id(self, value: Integer) -> (r: SendPoll)
        ensures
            r@ == (PollParametersData { reply_to_message_id: Some(value as int), ..self@ }),
    {
        SendPoll { inner: PollParameters { reply_to_message_id: Some(value), ..self.inner } }
    }

    /// Sends the message even if the replied-to message is not found.
    pub fn allow_sending_without_reply(self, value: bool) -> (r: SendPoll)
        ensures
            r@ == (PollParametersData { allow_sending_without_reply: Some(value), ..self@ }),
    {
        SendPoll { inner: PollParameters { allow_sending_without_reply: Some(value), ..self.inner } }
    }

    /// Attaches additional interface options.
    pub fn reply_markup(self, value: ReplyMarkup) -> (r: SendPoll)
        ensures
            r@ == (PollParametersData { reply_markup: Some(value@), ..self@ }),
    {
        SendPoll { inner: PollParameters { reply_markup: Some(value), ..self.inner } }
    }

    /// The request of the call: POST `sendPoll` with the JSON body.
    pub fn into_request(self) -> (r: Request)
        ensures
            r.http_method == RequestMethod::Post,
            r.name@ == "sendPoll"@,
            r.body matches RequestBody::Json(s) && s@ == json_text(poll_parameters_json(self@)),
    {
        let body = self.inner.to_json();
        Request::json("sendPoll", &body)
    }
}

/// Stops a quiz which was sent by the bot.
pub type StopQuiz = StopPoll;

} // verus!
