use vstd::prelude::*;

verus! {

use crate::contact::Contact;
use crate::Integer;
use crate::markup::InlineKeyboardMarkup;
use crate::text::TextEntities;
use crate::user::{ChannelChat, Chat, MessageSender, User};

/// A text with its entities.
#[derive(Clone, Debug)]
pub struct Text {
    /// The text itself.
    pub data: String,
    /// Entities found in the text.
    pub entities: Option<TextEntities>,
}

impl Text {
    /// A plain text without entities.
    pub fn new(data: &str) -> (r: Text)
        ensures
            r.data@ == data@,
            r.entities is None,
    {
        Text { data: String::from_str(data), entities: None }
    }
}

/// Audio data of a message.
#[derive(Clone, Debug)]
pub struct MessageDataAudio {
    /// Caption of the audio.
    pub caption: Option<Text>,
}

/// Document data of a message.
#[derive(Clone, Debug)]
pub struct MessageDataDocument {
    /// Caption of the document.
    pub caption: Option<Text>,
}

/// Photo data of a message.
#[derive(Clone, Debug)]
pub struct MessageDataPhoto {
    /// Caption of the photo.
    pub caption: Option<Text>,
}

/// Video data of a message.
#[derive(Clone, Debug)]
pub struct MessageDataVideo {
    /// Caption of the video.
    pub caption: Option<Text>,
}

/// Voice data of a message.
#[derive(Clone, Debug)]
pub struct MessageDataVoice {
    /// Caption of the voice message.
    pub caption: Option<Text>,
}

/// Content carried by a message.
#[derive(Clone, Debug)]
pub enum MessageData {
    /// A text message.
    Text(Text),
    /// An audio file.
    Audio(MessageDataAudio),
    /// A general file.
    Document(MessageDataDocument),
    /// A photo.
    Photo(MessageDataPhoto),
    /// A video.
    Video(MessageDataVideo),
    /// A voice message.
    Voice(MessageDataVoice),
    /// A shared phone contact.
    Contact(Contact),
    /// A service message or content this model does not carry.
    Empty,
}

/// The text of a message: its own text, or the caption of its media.
pub open spec fn spec_message_text(d: MessageData) -> Option<Text> {
    match d {
        MessageData::Text(t) => Some(t),
        MessageData::Audio(a) => a.caption,
        MessageData::Document(doc) => doc.caption,
        MessageData::Photo(p) => p.caption,
        MessageData::Video(v) => v.caption,
        MessageData::Voice(v) => v.caption,
        _ => None,
    }
}

/// Forwarded-from information of a message.
#[derive(Clone, Debug)]
pub enum ForwardFrom {
    /// Forwarded from a user.
    User(User),
    /// Forwarded from a user who hid their account, with the sender name.
    HiddenUser(String),
    /// Forwarded from a channel.
    Channel { chat: ChannelChat, message_id: Integer, signature: Option<String> },
}

/// Forward data of a message.
#[derive(Clone, Debug)]
pub struct Forward {
    /// Date the original message was sent, in Unix time.
    pub date: Integer,
    /// Who sent the original message.
    pub from: ForwardFrom,
}

/// Represents a message.
#[derive(Debug)]
pub struct Message {
    /// Chat the message belongs to.
    pub chat: Chat,
    /// Date the message was sent, in Unix time.
    pub date: Integer,
    /// Date the message was last edited, in Unix time.
    pub edit_date: Option<Integer>,
    /// Whether the message cannot be forwarded.
    pub has_protected_content: bool,
    /// Unique message identifier inside the chat.
    pub id: Integer,
    /// Whether the message is an automatically forwarded channel post.
    pub is_automatic_forward: bool,
    /// Sender of the message.
    pub sender: MessageSender,
    /// Author signature.
    pub author_signature: Option<String>,
    /// Forwarded data.
    pub forward: Option<Forward>,
    /// Whether the media is covered by a spoiler animation.
    pub has_media_spoiler: Option<bool>,
    /// Whether the message is sent to a forum topic.
    pub is_topic_message: Option<bool>,
    /// Unique identifier of the media message group the message belongs to.
    pub media_group_id: Option<String>,
    /// Unique identifier of the message thread, supergroups only.
    pub message_thread_id: Option<Integer>,
    /// Inline keyboard attached to the message.
    pub reply_markup: Option<InlineKeyboardMarkup>,
    /// For replies, the original message.
    pub reply_to: Option<Box<Message>>,
    /// Bot through which the message was sent.
    pub via_bot: Option<User>,
    /// Content of the message.
    pub data: MessageData,
}

impl Message {
    /// Creates a new message with the optional members absent.
    pub fn new(id: Integer, date: Integer, chat: Chat, data: MessageData, sender: MessageSender) -> (r:
        Message)
        ensures
            r == (Message {
                chat,
                date,
                edit_date: None,
                has_protected_content: false,
                id,
                is_automatic_forward: false,
                sender,
                author_signature: None,
                forward: None,
                has_media_spoiler: None,
                is_topic_message: None,
                media_group_id: None,
                message_thread_id: None,
                reply_markup: None,
                reply_to: None,
                via_bot: None,
                data,
            }),
    {
        Message {
            chat,
            date,
            edit_date: None,
            has_protected_content: false,
            id,
            is_automatic_forward: false,
            sender,
            author_signature: None,
            forward: None,
            has_media_spoiler: None,
            is_topic_message: None,
            media_group_id: None,
            message_thread_id: None,
            reply_markup: None,
            reply_to: None,
            via_bot: None,
            data,
        }
    }

    /// Whether the message has been edited.
    pub fn is_edited(&self) -> (r: bool)
        ensures
            r == (self.edit_date is Some),
    {
        self.edit_date.is_some()
    }

    /// The text of the message, including a media caption.
    pub fn get_text(&self) -> (r: Option<&Text>)
        ensures
            match r {
                Some(t) => spec_message_text(self.data) == Some(*t),
                None => spec_message_text(self.data) is None,
            },
    {
        match &self.data {
            MessageData::Text(t) => Some(t),
            MessageData::Audio(a) => match &a.caption {
                Some(t) => Some(t),
                None => None,
            },
            MessageData::Document(d) => match &d.caption {
                Some(t) => Some(t),
                None => None,
            },
            MessageData::Photo(p) => match &p.caption {
                Some(t) => Some(t),
                None => None,
            },
            MessageData::Video(v) => match &v.caption {
                Some(t) => Some(t),
                None => None,
            },
            MessageData::Voice(v) => match &v.caption {
                Some(t) => Some(t),
                None => None,
            },
            _ => None,
        }
    }

    /// Sets a new chat.
    pub fn with_chat(self, value: Chat) -> (r: Message)
        ensures
            r == (Message { chat: value, ..self }),
    {
        Message { chat: value, ..self }
    }

    /// Sets a new data.
    pub fn with_data(self, value: MessageData) -> (r: Message)
        ensures
            r == (Message { data: value, ..self }),
    {
        Message { data: value, ..self }
    }

    /// Sets a new date.
    pub fn with_date(self, value: Integer) -> (r: Message)
        ensures
            r == (Message { date: value, ..self }),
    {
        Message { date: value, ..self }
    }

    /// Sets a new edit date.
    pub fn with_edit_date(self, value: Integer) -> (r: Message)
        ensures
            r == (Message { edit_date: Some(value), ..self }),
    {
        Message { edit_date: Some(value), ..self }
    }

    /// Sets whether the message cannot be forwarded.
    pub fn with_has_protected_content(self, value: bool) -> (r: Message)
        ensures
            r == (Message { has_protected_content: value, ..self }),
    {
        Message { has_protected_content: value, ..self }
    }

    /// Sets a new identifier.
    pub fn with_id(self, value: Integer) -> (r: Message)
        ensures
            r == (Message { id: value, ..self }),
    {
        Message { id: value, ..self }
    }

    /// Sets whether the message was automatically forwarded.
    pub fn with_is_automatic_forward(self, value: bool) -> (r: Message)
        ensures
            r == (Message { is_automatic_forward: value, ..self }),
    {
        Message { is_automatic_forward: value, ..self }
    }

    /// Sets a new sender.
    pub fn with_sender(self, value: MessageSender) -> (r: Message)
        ensures
            r == (Message { sender: value, ..self }),
    {
        Message { sender: value, ..self }
    }

    /// Sets a new author signature.
    pub fn with_author_signature(self, value: &str) -> (r: Message)
        ensures
            r == (Message { author_signature: r.author_signature, ..self }),
            r.author_signature matches Some(s) && s@ == value@,
    {
        Message { author_signature: Some(String::from_str(value)), ..self }
    }

    /// Sets a new forward.
    pub fn with_forward(self, value: Forward) -> (r: Message)
        ensures
            r == (Message { forward: Some(value), ..self }),
    {
        Message { forward: Some(value), ..self }
    }

    /// Sets whether the media has a spoiler animation.
    pub fn with_has_media_spoiler(self, value: bool) -> (r: Message)
        ensures
            r == (Message { has_media_spoiler: Some(value), ..self }),
    {
        Message { has_media_spoiler: Some(value), ..self }
    }

    /// Sets whether the message is a topic message.
    pub fn with_is_topic_message(self, value: bool) -> (r: Message)
        ensures
            r == (Message { is_topic_message: Some(value), ..self }),
    {
        Message { is_topic_message: Some(value), ..self }
    }

    /// Sets a new media group identifier.
    pub fn with_media_group_id(self, value: &str) -> (r: Message)
        ensures
            r == (Message { media_group_id: r.media_group_id, ..self }),
            r.media_group_id matches Some(s) && s@ == value@,
    {
        Message { media_group_id: Some(String::from_str(value)), ..self }
    }

    /// Sets a new message thread identifier.
    pub fn with_message_thread_id(self, value: Integer) -> (r: Message)
        ensures
            r == (Message { message_thread_id: Some(value), ..self }),
    {
        Message { message_thread_id: Some(value), ..self }
    }

    /// Sets a new reply markup.
    pub fn with_reply_markup(self, value: InlineKeyboardMarkup) -> (r: Message)
        ensures
            r == (Message { reply_markup: Some(value), ..self }),
    {
        Message { reply_markup: Some(value), ..self }
    }

    /// Sets the original message this one replies to.
    pub fn with_reply_to(self, value: Message) -> (r: Message)
        ensures
            r == (Message { reply_to: Some(Box::new(value)), ..self }),
    {
        Message { reply_to: Some(Box::new(value)), ..self }
    }

    /// Sets the bot through which the message was sent.
    pub fn with_via_bot(self, value: User) -> (r: Message)
        ensures
            r == (Message { via_bot: Some(value), ..self }),
    {
        Message { via_bot: Some(value), ..self }
    }
}

/// Result of an edit call: the edited message, or a plain confirmation when
/// the edited message was not sent by the bot.
#[derive(Debug)]
pub enum EditMessageResult {
    /// The edited message was sent by the bot.
    Message(Message),
    /// The edited message was not sent by the bot.
    Bool(bool),
}

/// A unique message identifier.
#[derive(Clone, Copy, Debug, PartialEq, Eq, Structural)]
pub struct MessageId {
    /// Unique message identifier.
    pub message_id: Integer,
}

} // verus!
