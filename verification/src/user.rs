use vstd::prelude::*;

verus! {

use crate::Integer;
use crate::json::{entry_opt, JsonData};
use crate::primitive::{opt_str_json, view_opt_str};

/// A user of the messaging platform.
#[derive(Clone, Debug)]
pub struct User {
    /// Unique identifier of the user.
    pub id: Integer,
    /// First name of the user.
    pub first_name: String,
    /// Whether the user is a bot.
    pub is_bot: bool,
    /// Last name of the user.
    pub last_name: Option<String>,
    /// Username of the user.
    pub username: Option<String>,
}

/// Model of a user.
pub struct UserData {
    pub id: int,
    pub first_name: Seq<char>,
    pub is_bot: bool,
    pub last_name: Option<Seq<char>>,
    pub username: Option<Seq<char>>,
}

impl View for User {
    type V = UserData;

    open spec fn view(&self) -> UserData {
        UserData {
            id: self.id as int,
            first_name: self.first_name@,
            is_bot: self.is_bot,
            last_name: view_opt_str(self.last_name),
            username: view_opt_str(self.username),
        }
    }
}

/// JSON object of a user.
pub open spec fn user_json(u: UserData) -> JsonData {
    JsonData::Obj(
        seq![
            ("id"@, JsonData::Int(u.id)),
            ("first_name"@, JsonData::Str(u.first_name)),
            ("is_bot"@, JsonData::Bool(u.is_bot)),
        ] + entry_opt("last_name"@, opt_str_json(u.last_name))
            + entry_opt("username"@, opt_str_json(u.username)),
    )
}

impl User {
    /// Creates a new user.
    pub fn new(id: Integer, first_name: &str, is_bot: bool) -> (r: User)
        ensures
            r@ == (UserData {
                id: id as int,
                first_name: first_name@,
                is_bot,
                last_name: None,
                username: None,
            }),
    {
        User {
            id,
            first_name: String::from_str(first_name),
            is_bot,
            last_name: None,
            username: None,
        }
    }

    /// Sets a new last name.
    pub fn with_last_name(self, value: &str) -> (r: User)
        ensures
            r@ == (UserData { last_name: Some(value@), ..self@ }),
    {
        User { last_name: Some(String::from_str(value)), ..self }
    }

    /// Sets a new username.
    pub fn with_username(self, value: &str) -> (r: User)
        ensures
            r@ == (UserData { username: Some(value@), ..self@ }),
    {
        User { username: Some(String::from_str(value)), ..self }
    }

    /// JSON object of the user.
    pub fn to_json(&self) -> (r: crate::json::JsonValue)
        ensures
            r@ == user_json(self@),
    {
        let mut obj = crate::json::JsonObject::new();
        obj.set("id", crate::json::JsonValue::Int(self.id));
        obj.set("first_name", crate::json::JsonValue::Str(self.first_name.clone()));
        obj.set("is_bot", crate::json::JsonValue::Bool(self.is_bot));
        match &self.last_name {
            Some(v) => obj.set("last_name", crate::json::JsonValue::Str(v.clone())),
            None => {}
        }
        match &self.username {
            Some(v) => obj.set("username", crate::json::JsonValue::Str(v.clone())),
            None => {}
        }
        let r = obj.into_value();
        proof {
            assert(r@->Obj_0 =~= (seq![
                ("id"@, JsonData::Int(self@.id)),
                ("first_name"@, JsonData::Str(self@.first_name)),
                ("is_bot"@, JsonData::Bool(self@.is_bot)),
            ] + entry_opt("last_name"@, opt_str_json(self@.last_name))
                + entry_opt("username"@, opt_str_json(self@.username))));
        }
        r
    }
}

/// A private chat with a user.
#[derive(Clone, Debug)]
pub struct PrivateChat {
    pub id: Integer,
    pub first_name: String,
    pub last_name: Option<String>,
    pub username: Option<String>,
}

/// Model of a private chat.
pub struct PrivateChatData {
    pub id: int,
    pub first_name: Seq<char>,
    pub last_name: Option<Seq<char>>,
    pub username: Option<Seq<char>>,
}

impl View for PrivateChat {
    type V = PrivateChatData;

    open spec fn view(&self) -> PrivateChatData {
        PrivateChatData {
            id: self.id as int,
            first_name: self.first_name@,
            last_name: view_opt_str(self.last_name),
            username: view_opt_str(self.username),
        }
    }
}

impl PrivateChat {
    /// Creates a new private chat.
    pub fn new(id: Integer, first_name: &str) -> (r: PrivateChat)
        ensures
            r@ == (PrivateChatData {
                id: id as int,
                first_name: first_name@,
                last_name: None,
                username: None,
            }),
    {
        PrivateChat {
            id,
            first_name: String::from_str(first_name),
            last_name: None,
            username: None,
        }
    }

    /// Sets a new last name.
    pub fn with_last_name(self, value: &str) -> (r: PrivateChat)
        ensures
            r@ == (PrivateChatData { last_name: Some(value@), ..self@ }),
    {
        PrivateChat { last_name: Some(String::from_str(value)), ..self }
    }

    /// Sets a new username.
    pub fn with_username(self, value: &str) -> (r: PrivateChat)
        ensures
            r@ == (PrivateChatData { username: Some(value@), ..self@ }),
    {
        PrivateChat { username: Some(String::from_str(value)), ..self }
    }
}

/// A group chat.
#[derive(Clone, Debug)]
pub struct GroupChat {
    pub id: Integer,
    pub title: String,
}

/// Model of a group chat.
pub struct GroupChatData {
    pub id: int,
    pub title: Seq<char>,
}

impl View for GroupChat {
    type V = GroupChatData;

    open spec fn view(&self) -> GroupChatData {
        GroupChatData { id: self.id as int, title: self.title@ }
    }
}

impl GroupChat {
    /// Creates a new group chat.
    pub fn new(id: Integer, title: &str) -> (r: GroupChat)
        ensures
            r@ == (GroupChatData { id: id as int, title: title@ }),
    {
        GroupChat { id, title: String::from_str(title) }
    }
}

/// A channel chat.
#[derive(Clone, Debug)]
pub struct ChannelChat {
    pub id: Integer,
    pub title: String,
    pub username: Option<String>,
}

/// Model of a channel chat.
pub struct ChannelChatData {
    pub id: int,
    pub title: Seq<char>,
    pub username: Option<Seq<char>>,
}

impl View for ChannelChat {
    type V = ChannelChatData;

    open spec fn view(&self) -> ChannelChatData {
        ChannelChatData {
            id: self.id as int,
            title: self.title@,
            username: view_opt_str(self.username),
        }
    }
}

impl ChannelChat {
    /// Creates a new channel chat.
    pub fn new(id: Integer, title: &str) -> (r: ChannelChat)
        ensures
            r@ == (ChannelChatData { id: id as int, title: title@, username: None }),
    {
        ChannelChat { id, title: String::from_str(title), username: None }
    }

    /// Sets a new username.
    pub fn with_username(self, value: &str) -> (r: ChannelChat)
        ensures
            r@ == (ChannelChatData { username: Some(value@), ..self@ }),
    {
        ChannelChat { username: Some(String::from_str(value)), ..self }
    }
}

/// A chat of any kind.
#[derive(Clone, Debug)]
pub enum Chat {
    Private(PrivateChat),
    Group(GroupChat),
    Channel(ChannelChat),
}

/// Model of a chat.
pub enum ChatData {
    Private(PrivateChatData),
    Group(GroupChatData),
    Channel(ChannelChatData),
}

impl View for Chat {
    type V = ChatData;

    open spec fn view(&self) -> ChatData {
        match self {
            Chat::Private(c) => ChatData::Private(c@),
            Chat::Group(c) => ChatData::Group(c@),
            Chat::Channel(c) => ChatData::Channel(c@),
        }
    }
}

impl Chat {
    /// Unique identifier of the chat.
    pub fn get_id(&self) -> (r: Integer)
        ensures
            r as int == match self@ {
                ChatData::Private(c) => c.id,
                ChatData::Group(c) => c.id,
                ChatData::Channel(c) => c.id,
            },
    {
        match self {
            Chat::Private(c) => c.id,
            Chat::Group(c) => c.id,
            Chat::Channel(c) => c.id,
        }
    }
}

/// A point on the map, held as exact decimal coordinates.
#[derive(Clone, Copy, Debug)]
pub struct Location {
    /// Latitude of the location.
    pub latitude: crate::json::Decimal,
    /// Longitude of the location.
    pub longitude: crate::json::Decimal,
}

impl Location {
    /// Creates a new location.
    pub fn new(latitude: crate::json::Decimal, longitude: crate::json::Decimal) -> (r: Location)
        ensures
            r == (Location { latitude, longitude }),
    {
        Location { latitude, longitude }
    }
}

/// A location to which a chat is connected.
#[derive(Clone, Debug)]
pub struct ChatLocation {
    /// Location address, 1-64 characters, as defined by the chat owner.
    pub address: String,
    /// The location to which the chat is connected; not a live location.
    pub location: Location,
}

impl ChatLocation {
    /// Creates a new chat location.
    pub fn new(address: &str, location: Location) -> (r: ChatLocation)
        ensures
            r.address@ == address@,
            r.location == location,
    {
        ChatLocation { address: String::from_str(address), location }
    }
}

/// Sender of a message: a user, or a chat speaking as itself.
#[derive(Clone, Debug)]
pub enum MessageSender {
    User(User),
    Chat(Chat),
}

/// Model of a message sender.
pub enum MessageSenderData {
    User(UserData),
    Chat(ChatData),
}

impl View for MessageSender {
    type V = MessageSenderData;

    open spec fn view(&self) -> MessageSenderData {
        match self {
            MessageSender::User(u) => MessageSenderData::User(u@),
            MessageSender::Chat(c) => MessageSenderData::Chat(c@),
        }
    }
}

} // verus!
