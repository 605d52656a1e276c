use vstd::prelude::*;

verus! {

use crate::Integer;
use crate::json::{int_chars, int_to_string, json_text, JsonData, JsonValue};

/// Mode for parsing entities in a text.
#[derive(Clone, Copy, Debug, PartialEq, Eq, Structural)]
pub enum ParseMode {
    Html,
    Markdown,
    MarkdownV2,
}

impl ParseMode {
    /// Name of the mode on the wire.
    pub open spec fn spec_name(self) -> Seq<char> {
        match self {
            ParseMode::Html => "HTML"@,
            ParseMode::Markdown => "Markdown"@,
            ParseMode::MarkdownV2 => "MarkdownV2"@,
        }
    }

    /// Returns the wire name of the mode.
    pub fn as_str(&self) -> (r: &'static str)
        ensures
            r@ == self.spec_name(),
    {
        match self {
            ParseMode::Html => "HTML",
            ParseMode::Markdown => "Markdown",
            ParseMode::MarkdownV2 => "MarkdownV2",
        }
    }

    /// JSON value of the mode: its name as a string.
    pub fn to_json(&self) -> (r: JsonValue)
        ensures
            r@ == JsonData::Str(self.spec_name()),
    {
        JsonValue::Str(String::from_str(self.as_str()))
    }
}

/// Model of a chat identifier: numeric ID or @username.
pub enum ChatIdData {
    Id(int),
    Username(Seq<char>),
}

/// Unique identifier of a target chat: numeric ID or @username.
#[derive(Clone, Debug)]
pub enum ChatId {
    Id(Integer),
    Username(String),
}

impl View for ChatId {
    type V = ChatIdData;

    open spec fn view(&self) -> ChatIdData {
        match self {
            ChatId::Id(n) => ChatIdData::Id(*n as int),
            ChatId::Username(u) => ChatIdData::Username(u@),
        }
    }
}

/// JSON value of a chat identifier: a number or a string.
pub open spec fn chat_id_json(c: ChatIdData) -> JsonData {
    match c {
        ChatIdData::Id(n) => JsonData::Int(n),
        ChatIdData::Username(u) => JsonData::Str(u),
    }
}

/// Form-field text of a chat identifier: decimal digits or the username.
pub open spec fn chat_id_chars(c: ChatIdData) -> Seq<char> {
    match c {
        ChatIdData::Id(n) => int_chars(n),
        ChatIdData::Username(u) => u,
    }
}

impl ChatId {
    /// A chat referred to by its numeric identifier.
    pub fn id(value: Integer) -> (r: ChatId)
        ensures
            r@ == ChatIdData::Id(value as int),
    {
        ChatId::Id(value)
    }

    /// A chat referred to by the @username of its channel or supergroup.
    pub fn username(value: &str) -> (r: ChatId)
        ensures
            r@ == ChatIdData::Username(value@),
    {
        ChatId::Username(String::from_str(value))
    }

    /// JSON value of the identifier.
    pub fn to_json(&self) -> (r: JsonValue)
        ensures
            r@ == chat_id_json(self@),
    {
        match self {
            ChatId::Id(n) => JsonValue::Int(*n),
            ChatId::Username(u) => JsonValue::Str(u.clone()),
        }
    }

    /// Form-field text of the identifier.
    pub fn to_form_text(&self) -> (r: String)
        ensures
            r@ == chat_id_chars(self@),
    {
        match self {
            ChatId::Id(n) => int_to_string(*n),
            ChatId::Username(u) => u.clone(),
        }
    }
}


/// JSON value of an optional boolean member.
pub open spec fn opt_bool_json(v: Option<bool>) -> Option<JsonData> {
    match v {
        Some(b) => Some(JsonData::Bool(b)),
        None => None,
    }
}

/// JSON value of an optional string member.
pub open spec fn opt_str_json(v: Option<Seq<char>>) -> Option<JsonData> {
    match v {
        Some(s) => Some(JsonData::Str(s)),
        None => None,
    }
}



/// View of an optional chat identifier.
pub open spec fn view_opt_chat_id(v: Option<ChatId>) -> Option<ChatIdData> {
    match v {
        Some(c) => Some(c@),
        None => None,
    }
}

/// Lifts an optional parse mode to an optional JSON value.
pub fn opt_parse_mode_value(v: &Option<ParseMode>) -> (r: Option<JsonValue>)
    ensures
        crate::json::spec_opt_view(r) == match *v {
            Some(m) => Some(JsonData::Str(m.spec_name())),
            None => None::<JsonData>,
        },
{
    match v {
        Some(m) => Some(m.to_json()),
        None => None,
    }
}

/// Lifts an optional chat identifier to an optional JSON value.
pub fn opt_chat_id_value(v: &Option<ChatId>) -> (r: Option<JsonValue>)
    ensures
        crate::json::spec_opt_view(r) == match view_opt_chat_id(*v) {
            Some(c) => Some(chat_id_json(c)),
            None => None::<JsonData>,
        },
{
    match v {
        Some(c) => Some(c.to_json()),
        None => None,
    }
}

/// View of an optional integer.
pub open spec fn view_opt_int(v: Option<Integer>) -> Option<int> {
    match v {
        Some(n) => Some(n as int),
        None => None,
    }
}

/// View of an optional string.
pub open spec fn view_opt_str(v: Option<String>) -> Option<Seq<char>> {
    match v {
        Some(s) => Some(s@),
        None => None,
    }
}

} // verus!
