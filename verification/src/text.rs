use vstd::prelude::*;

verus! {

use crate::json::{
    entry_opt, json_text, JsonData, JsonObject, JsonValue, lemma_arr_view_elementwise, render_json,
};
use crate::primitive::{opt_str_json, view_opt_str};
use crate::user::{user_json, User, UserData};

/// Position of an entity in a text, in UTF-16 code units.
#[derive(Copy, Clone, Debug, PartialEq, Eq, Structural)]
pub struct TextEntityPosition {
    /// Offset to the start of the entity.
    pub offset: u32,
    /// Length of the entity.
    pub length: u32,
}

/// Model of an entity position.
pub struct TextEntityPositionData {
    pub offset: int,
    pub length: int,
}

impl View for TextEntityPosition {
    type V = TextEntityPositionData;

    open spec fn view(&self) -> TextEntityPositionData {
        TextEntityPositionData { offset: self.offset as int, length: self.length as int }
    }
}

impl TextEntityPosition {
    /// The position covering code units `start..end`.
    pub fn range(start: u32, end: u32) -> (r: TextEntityPosition)
        requires
            start <= end,
        ensures
            r@ == (TextEntityPositionData { offset: start as int, length: end - start }),
    {
        TextEntityPosition { offset: start, length: end - start }
    }
}

/// Represents an entity in a text.
#[derive(Clone, Debug)]
pub enum TextEntity {
    /// Bold text
    Bold(TextEntityPosition),
    /// Bot command
    BotCommand(TextEntityPosition),
    /// Cashtag
    Cashtag(TextEntityPosition),
    /// Monospace string
    Code(TextEntityPosition),
    /// Inline custom emoji sticker
    CustomEmoji { custom_emoji_id: String, position: TextEntityPosition },
    /// E-Mail
    Email(TextEntityPosition),
    /// Hashtag
    Hashtag(TextEntityPosition),
    /// Italic text
    Italic(TextEntityPosition),
    /// User mention, such as @username
    Mention(TextEntityPosition),
    /// Phone number
    PhoneNumber(TextEntityPosition),
    /// Monospace block
    Pre { position: TextEntityPosition, language: Option<String> },
    /// Spoiler message
    Spoiler(TextEntityPosition),
    /// Strikethrough text
    Strikethrough(TextEntityPosition),
    /// Clickable text URL
    TextLink { position: TextEntityPosition, url: String },
    /// Mention of a user without a username
    TextMention { position: TextEntityPosition, user: User },
    /// Underlined text
    Underline(TextEntityPosition),
    /// URL
    Url(TextEntityPosition),
}

/// Model of a text entity.
pub enum TextEntityData {
    Bold(TextEntityPositionData),
    BotCommand(TextEntityPositionData),
    Cashtag(TextEntityPositionData),
    Code(TextEntityPositionData),
    CustomEmoji { custom_emoji_id: Seq<char>, position: TextEntityPositionData },
    Email(TextEntityPositionData),
    Hashtag(TextEntityPositionData),
    Italic(TextEntityPositionData),
    Mention(TextEntityPositionData),
    PhoneNumber(TextEntityPositionData),
    Pre { position: TextEntityPositionData, language: Option<Seq<char>> },
    Spoiler(TextEntityPositionData),
    Strikethrough(TextEntityPositionData),
    TextLink { position: TextEntityPositionData, url: Seq<char> },
    TextMention { position: TextEntityPositionData, user: UserData },
    Underline(TextEntityPositionData),
    Url(TextEntityPositionData),
}

impl View for TextEntity {
    type V = TextEntityData;

    open spec fn view(&self) -> TextEntityData {
        match self {
            TextEntity::Bold(p) => TextEntityData::Bold(p@),
            TextEntity::BotCommand(p) => TextEntityData::BotCommand(p@),
            TextEntity::Cashtag(p) => TextEntityData::Cashtag(p@),
            TextEntity::Code(p) => TextEntityData::Code(p@),
            TextEntity::CustomEmoji { custom_emoji_id, position } => TextEntityData::CustomEmoji {
                custom_emoji_id: custom_emoji_id@,
                position: position@,
            },
            TextEntity::Email(p) => TextEntityData::Email(p@),
            TextEntity::Hashtag(p) => TextEntityData::Hashtag(p@),
            TextEntity::Italic(p) => TextEntityData::Italic(p@),
            TextEntity::Mention(p) => TextEntityData::Mention(p@),
            TextEntity::PhoneNumber(p) => TextEntityData::PhoneNumber(p@),
            TextEntity::Pre { position, language } => TextEntityData::Pre {
                position: position@,
                language: view_opt_str(*language),
            },
            TextEntity::Spoiler(p) => TextEntityData::Spoiler(p@),
            TextEntity::Strikethrough(p) => TextEntityData::Strikethrough(p@),
            TextEntity::TextLink { position, url } => TextEntityData::TextLink {
                position: position@,
                url: url@,
            },
            TextEntity::TextMention { position, user } => TextEntityData::TextMention {
                position: position@,
                user: user@,
            },
            TextEntity::Underline(p) => TextEntityData::Underline(p@),
            TextEntity::Url(p) => TextEntityData::Url(p@),
        }
    }
}

impl TextEntity {
    /// Creates a new bold entity.
    pub fn bold(pos: TextEntityPosition) -> (r: TextEntity)
        ensures
            r@ == TextEntityData::Bold(pos@),
    {
        TextEntity::Bold(pos)
    }

    /// Creates a new bot command entity.
    pub fn bot_command(pos: TextEntityPosition) -> (r: TextEntity)
        ensures
            r@ == TextEntityData::BotCommand(pos@),
    {
        TextEntity::BotCommand(pos)
    }

    /// Creates a new cashtag entity.
    pub fn cashtag(pos: TextEntityPosition) -> (r: TextEntity)
        ensures
            r@ == TextEntityData::Cashtag(pos@),
    {
        TextEntity::Cashtag(pos)
    }

    /// Creates a new monospace string entity.
    pub fn code(pos: TextEntityPosition) -> (r: TextEntity)
        ensures
            r@ == TextEntityData::Code(pos@),
    {
        TextEntity::Code(pos)
    }

    /// Creates a new e-mail entity.
    pub fn email(pos: TextEntityPosition) -> (r: TextEntity)
        ensures
            r@ == TextEntityData::Email(pos@),
    {
        TextEntity::Email(pos)
    }

    /// Creates a new hashtag entity.
    pub fn hashtag(pos: TextEntityPosition) -> (r: TextEntity)
        ensures
            r@ == TextEntityData::Hashtag(pos@),
    {
        TextEntity::Hashtag(pos)
    }

    /// Creates a new italic entity.
    pub fn italic(pos: TextEntityPosition) -> (r: TextEntity)
        ensures
            r@ == TextEntityData::Italic(pos@),
    {
        TextEntity::Italic(pos)
    }

    /// Creates a new mention entity.
    pub fn mention(pos: TextEntityPosition) -> (r: TextEntity)
        ensures
            r@ == TextEntityData::Mention(pos@),
    {
        TextEntity::Mention(pos)
    }

    /// Creates a new phone number entity.
    pub fn phone_number(pos: TextEntityPosition) -> (r: TextEntity)
        ensures
            r@ == TextEntityData::PhoneNumber(pos@),
    {
        TextEntity::PhoneNumber(pos)
    }

    /// Creates a new spoiler entity.
    pub fn spoiler(pos: TextEntityPosition) -> (r: TextEntity)
        ensures
            r@ == TextEntityData::Spoiler(pos@),
    {
        TextEntity::Spoiler(pos)
    }

    /// Creates a new strikethrough entity.
    pub fn strikethrough(pos: TextEntityPosition) -> (r: TextEntity)
        ensures
            r@ == TextEntityData::Strikethrough(pos@),
    {
        TextEntity::Strikethrough(pos)
    }

    /// Creates a new underline entity.
    pub fn underline(pos: TextEntityPosition) -> (r: TextEntity)
        ensures
            r@ == TextEntityData::Underline(pos@),
    {
        TextEntity::Underline(pos)
    }

    /// Creates a new URL entity.
    pub fn url(pos: TextEntityPosition) -> (r: TextEntity)
        ensures
            r@ == TextEntityData::Url(pos@),
    {
        TextEntity::Url(pos)
    }

    /// Creates a new custom emoji entity.
    pub fn custom_emoji(pos: TextEntityPosition, custom_emoji_id: &str) -> (r: TextEntity)
        ensures
            r@ == (TextEntityData::CustomEmoji { custom_emoji_id: custom_emoji_id@, position: pos@ }),
    {
        TextEntity::CustomEmoji { custom_emoji_id: String::from_str(custom_emoji_id), position: pos }
    }

    /// Creates a new monospace block entity.
    pub fn pre(pos: TextEntityPosition, language: Option<String>) -> (r: TextEntity)
        ensures
            r@ == (TextEntityData::Pre { position: pos@, language: view_opt_str(language) }),
    {
        TextEntity::Pre { position: pos, language }
    }

    /// Creates a new text link entity.
    pub fn text_link(pos: TextEntityPosition, url: &str) -> (r: TextEntity)
        ensures
            r@ == (TextEntityData::TextLink { position: pos@, url: url@ }),
    {
        TextEntity::TextLink { position: pos, url: String::from_str(url) }
    }

    /// Creates a new text mention entity.
    pub fn text_mention(pos: TextEntityPosition, user: User) -> (r: TextEntity)
        ensures
            r@ == (TextEntityData::TextMention { position: pos@, user: user@ }),
    {
        TextEntity::TextMention { position: pos, user }
    }
}

/// An error when converting entities.
#[derive(Copy, Clone, Debug, PartialEq, Eq, Structural)]
pub enum TextEntityError {
    /// Custom emoji is required for a custom_emoji entity.
    NoCustomEmoji,
    /// URL is required for a text_link entity.
    NoUrl,
    /// User is required for a text_mention entity.
    NoUser,
}

/// Represents a bot command found in a text.
///
/// Use [`TextEntity::BotCommand`] to get the position of the command.
#[derive(Clone, Debug)]
pub struct TextEntityBotCommand {
    /// Actual command.
    pub command: String,
    /// Username of a bot.
    pub bot_name: Option<String>,
}

/// Wire form of a text entity: position plus a tagged kind whose payload
/// fields are all optional, as they arrive in JSON.
#[derive(Clone, Debug)]
pub struct RawTextEntity {
    pub offset: u32,
    pub length: u32,
    pub entity_type: RawTextEntityType,
}

/// Kind tag of a raw text entity.
#[derive(Clone, Debug)]
pub enum RawTextEntityType {
    Bold,
    BotCommand,
    Cashtag,
    Code,
    CustomEmoji { custom_emoji_id: Option<String> },
    Email,
    Hashtag,
    Italic,
    Mention,
    PhoneNumber,
    Pre { language: Option<String> },
    Spoiler,
    Strikethrough,
    TextLink { url: Option<String> },
    TextMention { user: Option<User> },
    Underline,
    Url,
}

/// Model of a raw text entity.
pub struct RawTextEntityData {
    pub offset: int,
    pub length: int,
    pub entity_type: RawTextEntityTypeData,
}

/// Model of a raw entity kind.
pub enum RawTextEntityTypeData {
    Bold,
    BotCommand,
    Cashtag,
    Code,
    CustomEmoji { custom_emoji_id: Option<Seq<char>> },
    Email,
    Hashtag,
    Italic,
    Mention,
    PhoneNumber,
    Pre { language: Option<Seq<char>> },
    Spoiler,
    Strikethrough,
    TextLink { url: Option<Seq<char>> },
    TextMention { user: Option<UserData> },
    Underline,
    Url,
}

impl View for RawTextEntityType {
    type V = RawTextEntityTypeData;

    open spec fn view(&self) -> RawTextEntityTypeData {
        match self {
            RawTextEntityType::Bold => RawTextEntityTypeData::Bold,
            RawTextEntityType::BotCommand => RawTextEntityTypeData::BotCommand,
            RawTextEntityType::Cashtag => RawTextEntityTypeData::Cashtag,
            RawTextEntityType::Code => RawTextEntityTypeData::Code,
            RawTextEntityType::CustomEmoji { custom_emoji_id } => RawTextEntityTypeData::CustomEmoji {
                custom_emoji_id: view_opt_str(*custom_emoji_id),
            },
            RawTextEntityType::Email => RawTextEntityTypeData::Email,
            RawTextEntityType::Hashtag => RawTextEntityTypeData::Hashtag,
            RawTextEntityType::Italic => RawTextEntityTypeData::Italic,
            RawTextEntityType::Mention => RawTextEntityTypeData::Mention,
            RawTextEntityType::PhoneNumber => RawTextEntityTypeData::PhoneNumber,
            RawTextEntityType::Pre { language } => RawTextEntityTypeData::Pre {
                language: view_opt_str(*language),
            },
            RawTextEntityType::Spoiler => RawTextEntityTypeData::Spoiler,
            RawTextEntityType::Strikethrough => RawTextEntityTypeData::Strikethrough,
            RawTextEntityType::TextLink { url } => RawTextEntityTypeData::TextLink {
                url: view_opt_str(*url),
            },
            RawTextEntityType::TextMention { user } => RawTextEntityTypeData::TextMention {
                user: match user {
                    Some(u) => Some(u@),
                    None => None,
                },
            },
            RawTextEntityType::Underline => RawTextEntityTypeData::Underline,
            RawTextEntityType::Url => RawTextEntityTypeData::Url,
        }
    }
}

impl View for RawTextEntity {
    type V = RawTextEntityData;

    open spec fn view(&self) -> RawTextEntityData {
        RawTextEntityData {
            offset: self.offset as int,
            length: self.length as int,
            entity_type: self.entity_type@,
        }
    }
}

/// The raw form of an entity: position flattened beside the kind.
pub open spec fn raw_of(e: TextEntityData) -> RawTextEntityData {
    match e {
        TextEntityData::Bold(p) => raw_at(p, RawTextEntityTypeData::Bold),
        TextEntityData::BotCommand(p) => raw_at(p, RawTextEntityTypeData::BotCommand),
        TextEntityData::Cashtag(p) => raw_at(p, RawTextEntityTypeData::Cashtag),
        TextEntityData::Code(p) => raw_at(p, RawTextEntityTypeData::Code),
        TextEntityData::CustomEmoji { custom_emoji_id, position } => raw_at(
            position,
            RawTextEntityTypeData::CustomEmoji { custom_emoji_id: Some(custom_emoji_id) },
        ),
        TextEntityData::Email(p) => raw_at(p, RawTextEntityTypeData::Email),
        TextEntityData::Hashtag(p) => raw_at(p, RawTextEntityTypeData::Hashtag),
        TextEntityData::Italic(p) => raw_at(p, RawTextEntityTypeData::Italic),
        TextEntityData::Mention(p) => raw_at(p, RawTextEntityTypeData::Mention),
        TextEntityData::PhoneNumber(p) => raw_at(p, RawTextEntityTypeData::PhoneNumber),
        TextEntityData::Pre { position, language } => raw_at(
            position,
            RawTextEntityTypeData::Pre { language },
        ),
        TextEntityData::Spoiler(p) => raw_at(p, RawTextEntityTypeData::Spoiler),
        TextEntityData::Strikethrough(p) => raw_at(p, RawTextEntityTypeData::Strikethrough),
        TextEntityData::TextLink { position, url } => raw_at(
            position,
            RawTextEntityTypeData::TextLink { url: Some(url) },
        ),
        TextEntityData::TextMention { position, user } => raw_at(
            position,
            RawTextEntityTypeData::TextMention { user: Some(user) },
        ),
        TextEntityData::Underline(p) => raw_at(p, RawTextEntityTypeData::Underline),
        TextEntityData::Url(p) => raw_at(p, RawTextEntityTypeData::Url),
    }
}

/// A raw entity at a position.
pub open spec fn raw_at(p: TextEntityPositionData, t: RawTextEntityTypeData) -> RawTextEntityData {
    RawTextEntityData { offset: p.offset, length: p.length, entity_type: t }
}

/// The entity described by a raw entity, or the error naming the payload
/// field that is missing.
pub open spec fn entity_of_raw(r: RawTextEntityData) -> Result<TextEntityData, TextEntityError> {
    let p = TextEntityPositionData { offset: r.offset, length: r.length };
    match r.entity_type {
        RawTextEntityTypeData::Bold => Ok(TextEntityData::Bold(p)),
        RawTextEntityTypeData::BotCommand => Ok(TextEntityData::BotCommand(p)),
        RawTextEntityTypeData::Cashtag => Ok(TextEntityData::Cashtag(p)),
        RawTextEntityTypeData::Code => Ok(TextEntityData::Code(p)),
        RawTextEntityTypeData::CustomEmoji { custom_emoji_id } => match custom_emoji_id {
            Some(id) => Ok(TextEntityData::CustomEmoji { custom_emoji_id: id, position: p }),
            None => Err(TextEntityError::NoCustomEmoji),
        },
        RawTextEntityTypeData::Email => Ok(TextEntityData::Email(p)),
        RawTextEntityTypeData::Hashtag => Ok(TextEntityData::Hashtag(p)),
        RawTextEntityTypeData::Italic => Ok(TextEntityData::Italic(p)),
        RawTextEntityTypeData::Mention => Ok(TextEntityData::Mention(p)),
        RawTextEntityTypeData::PhoneNumber => Ok(TextEntityData::PhoneNumber(p)),
        RawTextEntityTypeData::Pre { language } => Ok(TextEntityData::Pre { position: p, language }),
        RawTextEntityTypeData::Spoiler => Ok(TextEntityData::Spoiler(p)),
        RawTextEntityTypeData::Strikethrough => Ok(TextEntityData::Strikethrough(p)),
        RawTextEntityTypeData::TextLink { url } => match url {
            Some(u) => Ok(TextEntityData::TextLink { position: p, url: u }),
            None => Err(TextEntityError::NoUrl),
        },
        RawTextEntityTypeData::TextMention { user } => match user {
            Some(u) => Ok(TextEntityData::TextMention { position: p, user: u }),
            None => Err(TextEntityError::NoUser),
        },
        RawTextEntityTypeData::Underline => Ok(TextEntityData::Underline(p)),
        RawTextEntityTypeData::Url => Ok(TextEntityData::Url(p)),
    }
}

/// An entity survives the trip through its raw form unchanged.
pub proof fn lemma_entity_raw_round_trip(e: TextEntityData)
    ensures
        entity_of_raw(raw_of(e)) == Ok::<TextEntityData, TextEntityError>(e),
{
}

impl RawTextEntity {
    /// Flattens an entity into its raw form.
    pub fn from_entity(entity: TextEntity) -> (r: RawTextEntity)
        ensures
            r@ == raw_of(entity@),
    {
        match entity {
            TextEntity::Bold(p) => raw(p, RawTextEntityType::Bold),
            TextEntity::BotCommand(p) => raw(p, RawTextEntityType::BotCommand),
            TextEntity::Cashtag(p) => raw(p, RawTextEntityType::Cashtag),
            TextEntity::Code(p) => raw(p, RawTextEntityType::Code),
            TextEntity::CustomEmoji { custom_emoji_id, position } => raw(
                position,
                RawTextEntityType::CustomEmoji { custom_emoji_id: Some(custom_emoji_id) },
            ),
            TextEntity::Email(p) => raw(p, RawTextEntityType::Email),
            TextEntity::Hashtag(p) => raw(p, RawTextEntityType::Hashtag),
            TextEntity::Italic(p) => raw(p, RawTextEntityType::Italic),
            TextEntity::Mention(p) => raw(p, RawTextEntityType::Mention),
            TextEntity::PhoneNumber(p) => raw(p, RawTextEntityType::PhoneNumber),
            TextEntity::Pre { position, language } => raw(position, RawTextEntityType::Pre { language }),
            TextEntity::Spoiler(p) => raw(p, RawTextEntityType::Spoiler),
            TextEntity::Strikethrough(p) => raw(p, RawTextEntityType::Strikethrough),
            TextEntity::TextLink { position, url } => raw(
                position,
                RawTextEntityType::TextLink { url: Some(url) },
            ),
            TextEntity::TextMention { position, user } => raw(
                position,
                RawTextEntityType::TextMention { user: Some(user) },
            ),
            TextEntity::Underline(p) => raw(p, RawTextEntityType::Underline),
            TextEntity::Url(p) => raw(p, RawTextEntityType::Url),
        }
    }
}

fn raw(p: TextEntityPosition, t: RawTextEntityType) -> (r: RawTextEntity)
    ensures
        r@ == raw_at(p@, t@),
{
    RawTextEntity { offset: p.offset, length: p.length, entity_type: t }
}

impl TextEntity {
    /// Reads an entity out of its raw form; fails with the exact error when
    /// the payload that the kind requires is missing.
    pub fn from_raw(raw_entity: RawTextEntity) -> (r: Result<TextEntity, TextEntityError>)
        ensures
            match r {
                Ok(e) => entity_of_raw(raw_entity@) == Ok::<TextEntityData, TextEntityError>(e@),
                Err(err) => entity_of_raw(raw_entity@) == Err::<TextEntityData, TextEntityError>(err),
            },
    {
        let position = TextEntityPosition { offset: raw_entity.offset, length: raw_entity.length };
        match raw_entity.entity_type {
            RawTextEntityType::Bold => Ok(TextEntity::Bold(position)),
            RawTextEntityType::BotCommand => Ok(TextEntity::BotCommand(position)),
            RawTextEntityType::Cashtag => Ok(TextEntity::Cashtag(position)),
            RawTextEntityType::Code => Ok(TextEntity::Code(position)),
            RawTextEntityType::CustomEmoji { custom_emoji_id } => match custom_emoji_id {
                Some(id) => Ok(TextEntity::CustomEmoji { custom_emoji_id: id, position }),
                None => Err(TextEntityError::NoCustomEmoji),
            },
            RawTextEntityType::Email => Ok(TextEntity::Email(position)),
            RawTextEntityType::Hashtag => Ok(TextEntity::Hashtag(position)),
            RawTextEntityType::Italic => Ok(TextEntity::Italic(position)),
            RawTextEntityType::Mention => Ok(TextEntity::Mention(position)),
            RawTextEntityType::PhoneNumber => Ok(TextEntity::PhoneNumber(position)),
            RawTextEntityType::Pre { language } => Ok(TextEntity::Pre { position, language }),
            RawTextEntityType::Spoiler => Ok(TextEntity::Spoiler(position)),
            RawTextEntityType::Strikethrough => Ok(TextEntity::Strikethrough(position)),
            RawTextEntityType::TextLink { url } => match url {
                Some(u) => Ok(TextEntity::TextLink { position, url: u }),
                None => Err(TextEntityError::NoUrl),
            },
            RawTextEntityType::TextMention { user } => match user {
                Some(u) => Ok(TextEntity::TextMention { position, user: u }),
                None => Err(TextEntityError::NoUser),
            },
            RawTextEntityType::Underline => Ok(TextEntity::Underline(position)),
            RawTextEntityType::Url => Ok(TextEntity::Url(position)),
        }
    }
}

/// Name of an entity kind on the wire.
pub open spec fn entity_kind_chars(e: TextEntityData) -> Seq<char> {
    match e {
        TextEntityData::Bold(_) => "bold"@,
        TextEntityData::BotCommand(_) => "bot_command"@,
        TextEntityData::Cashtag(_) => "cashtag"@,
        TextEntityData::Code(_) => "code"@,
        TextEntityData::CustomEmoji { .. } => "custom_emoji"@,
        TextEntityData::Email(_) => "email"@,
        TextEntityData::Hashtag(_) => "hashtag"@,
        TextEntityData::Italic(_) => "italic"@,
        TextEntityData::Mention(_) => "mention"@,
        TextEntityData::PhoneNumber(_) => "phone_number"@,
        TextEntityData::Pre { .. } => "pre"@,
        TextEntityData::Spoiler(_) => "spoiler"@,
        TextEntityData::Strikethrough(_) => "strikethrough"@,
        TextEntityData::TextLink { .. } => "text_link"@,
        TextEntityData::TextMention { .. } => "text_mention"@,
        TextEntityData::Underline(_) => "underline"@,
        TextEntityData::Url(_) => "url"@,
    }
}

/// Position of an entity.
pub open spec fn entity_position(e: TextEntityData) -> TextEntityPositionData {
    match e {
        TextEntityData::Bold(p) => p,
        TextEntityData::BotCommand(p) => p,
        TextEntityData::Cashtag(p) => p,
        TextEntityData::Code(p) => p,
        TextEntityData::CustomEmoji { position, .. } => position,
        TextEntityData::Email(p) => p,
        TextEntityData::Hashtag(p) => p,
        TextEntityData::Italic(p) => p,
        TextEntityData::Mention(p) => p,
        TextEntityData::PhoneNumber(p) => p,
        TextEntityData::Pre { position, .. } => position,
        TextEntityData::Spoiler(p) => p,
        TextEntityData::Strikethrough(p) => p,
        TextEntityData::TextLink { position, .. } => position,
        TextEntityData::TextMention { position, .. } => position,
        TextEntityData::Underline(p) => p,
        TextEntityData::Url(p) => p,
    }
}

/// Extra members an entity kind adds after `offset`, `length` and `type`.
pub open spec fn entity_extra(e: TextEntityData) -> Seq<(Seq<char>, JsonData)> {
    match e {
        TextEntityData::CustomEmoji { custom_emoji_id, .. } => seq![
            ("custom_emoji_id"@, JsonData::Str(custom_emoji_id)),
        ],
        TextEntityData::Pre { language, .. } => entry_opt("language"@, opt_str_json(language)),
        TextEntityData::TextLink { url, .. } => seq![("url"@, JsonData::Str(url))],
        TextEntityData::TextMention { user, .. } => seq![("user"@, user_json(user))],
        _ => Seq::empty(),
    }
}

/// JSON object of one entity: `offset`, `length`, `type`, then the payload.
pub open spec fn entity_json(e: TextEntityData) -> JsonData {
    JsonData::Obj(
        seq![
            ("offset"@, JsonData::Int(entity_position(e).offset)),
            ("length"@, JsonData::Int(entity_position(e).length)),
            ("type"@, JsonData::Str(entity_kind_chars(e))),
        ] + entity_extra(e),
    )
}

/// Writes the JSON object of one entity.
pub fn entity_to_json(e: &TextEntity) -> (r: JsonValue)
    ensures
        r@ == entity_json(e@),
{
    let position = match e {
        TextEntity::Bold(p) => *p,
        TextEntity::BotCommand(p) => *p,
        TextEntity::Cashtag(p) => *p,
        TextEntity::Code(p) => *p,
        TextEntity::CustomEmoji { position, .. } => *position,
        TextEntity::Email(p) => *p,
        TextEntity::Hashtag(p) => *p,
        TextEntity::Italic(p) => *p,
        TextEntity::Mention(p) => *p,
        TextEntity::PhoneNumber(p) => *p,
        TextEntity::Pre { position, .. } => *position,
        TextEntity::Spoiler(p) => *p,
        TextEntity::Strikethrough(p) => *p,
        TextEntity::TextLink { position, .. } => *position,
        TextEntity::TextMention { position, .. } => *position,
        TextEntity::Underline(p) => *p,
        TextEntity::Url(p) => *p,
    };
    let kind: &'static str = match e {
        TextEntity::Bold(_) => "bold",
        TextEntity::BotCommand(_) => "bot_command",
        TextEntity::Cashtag(_) => "cashtag",
        TextEntity::Code(_) => "code",
        TextEntity::CustomEmoji { .. } => "custom_emoji",
        TextEntity::Email(_) => "email",
        TextEntity::Hashtag(_) => "hashtag",
        TextEntity::Italic(_) => "italic",
        TextEntity::Mention(_) => "mention",
        TextEntity::PhoneNumber(_) => "phone_number",
        TextEntity::Pre { .. } => "pre",
        TextEntity::Spoiler(_) => "spoiler",
        TextEntity::Strikethrough(_) => "strikethrough",
        TextEntity::TextLink { .. } => "text_link",
        TextEntity::TextMention { .. } => "text_mention",
        TextEntity::Underline(_) => "underline",
        TextEntity::Url(_) => "url",
    };
    let mut obj = JsonObject::new();
    obj.set("offset", JsonValue::Int(position.offset as i64));
    obj.set("length", JsonValue::Int(position.length as i64));
    obj.set("type", JsonValue::Str(String::from_str(kind)));
    match e {
        TextEntity::CustomEmoji { custom_emoji_id, .. } => {
            obj.set("custom_emoji_id", JsonValue::Str(custom_emoji_id.clone()));
        }
        TextEntity::Pre { language, .. } => {
            match language {
                Some(l) => obj.set("language", JsonValue::Str(l.clone())),
                None => {}
            }
        }
        TextEntity::TextLink { url, .. } => {
            obj.set("url", JsonValue::Str(url.clone()));
        }
        TextEntity::TextMention { user, .. } => {
            obj.set("user", user.to_json());
        }
        _ => {}
    }
    let r = obj.into_value();
    proof {
        assert(r@->Obj_0 =~= (seq![
            ("offset"@, JsonData::Int(entity_position(e@).offset)),
            ("length"@, JsonData::Int(entity_position(e@).length)),
            ("type"@, JsonData::Str(entity_kind_chars(e@))),
        ] + entity_extra(e@)));
    }
    r
}

/// Views of a sequence of entities.
pub open spec fn entities_data(s: Seq<TextEntity>) -> Seq<TextEntityData> {
    Seq::new(s.len(), |i: int| s[i]@)
}

/// JSON array of a sequence of entities.
pub open spec fn entities_json(s: Seq<TextEntityData>) -> JsonData {
    JsonData::Arr(Seq::new(s.len(), |i: int| entity_json(s[i])))
}

/// Builds the JSON array of the entities.
pub fn entities_to_json(value: &[TextEntity]) -> (r: JsonValue)
    ensures
        r@ == entities_json(entities_data(value@)),
{
    let mut items: Vec<JsonValue> = Vec::new();
    let mut i: usize = 0;
    while i < value.len()
        invariant
            i <= value@.len(),
            items@.len() == i,
            forall|k: int| 0 <= k < i ==> items@[k]@ == entity_json(value@[k]@),
        decreases value@.len() - i,
    {
        let e = &value[i];
        items.push(entity_to_json(e));
        i = i + 1;
    }
    let r = JsonValue::Arr(items);
    proof {
        lemma_arr_view_elementwise(r->Arr_0@);
        assert(r@->Arr_0 =~= Seq::new(
            entities_data(value@).len(),
            |k: int| entity_json(entities_data(value@)[k]),
        ));
    }
    r
}

/// Serializes a list of text entities into a JSON string.
pub fn serialize_text_entities(value: &[TextEntity]) -> (r: Result<String, TextEntityError>)
    ensures
        r matches Ok(s) && s@ == json_text(entities_json(entities_data(value@))),
{
    let v = entities_to_json(value);
    Ok(render_json(&v))
}


/// View of an optional entity collection.
pub open spec fn view_opt_entities(v: Option<TextEntities>) -> Option<Seq<TextEntityData>> {
    match v {
        Some(e) => Some(e@),
        None => None,
    }
}

/// Lifts an optional entity collection to an optional JSON value.
pub fn opt_entities_value(v: &Option<TextEntities>) -> (r: Option<JsonValue>)
    ensures
        crate::json::spec_opt_view(r) == match view_opt_entities(*v) {
            Some(s) => Some(entities_json(s)),
            None => None::<JsonData>,
        },
{
    match v {
        Some(e) => Some(e.to_json()),
        None => None,
    }
}

/// Represents a collection of text entities.
#[derive(Clone, Debug)]
pub struct TextEntities {
    pub items: Vec<TextEntity>,
}

impl View for TextEntities {
    type V = Seq<TextEntityData>;

    open spec fn view(&self) -> Seq<TextEntityData> {
        entities_data(self.items@)
    }
}

impl TextEntities {
    /// An empty collection.
    pub fn new() -> (r: TextEntities)
        ensures
            r@ == Seq::<TextEntityData>::empty(),
    {
        let r = TextEntities { items: Vec::new() };
        proof {
            assert(r@ =~= Seq::<TextEntityData>::empty());
        }
        r
    }

    /// The collection holding exactly the given entities.
    pub fn from_vec(items: Vec<TextEntity>) -> (r: TextEntities)
        ensures
            r@ == entities_data(items@),
    {
        TextEntities { items }
    }

    /// Pushes a new item into the collection.
    pub fn push(&mut self, value: TextEntity)
        ensures
            final(self)@ == old(self)@.push(value@),
    {
        let ghost vv = value@;
        self.items.push(value);
        proof {
            assert(self@ =~= old(self)@.push(vv));
        }
    }

    /// Serializes the text entities into a JSON string.
    pub fn serialize(&self) -> (r: Result<String, TextEntityError>)
        ensures
            r matches Ok(s) && s@ == json_text(entities_json(self@)),
    {
        serialize_text_entities(self.items.as_slice())
    }

    /// JSON array of the entities.
    pub fn to_json(&self) -> (r: JsonValue)
        ensures
            r@ == entities_json(self@),
    {
        entities_to_json(self.items.as_slice())
    }
}

} // verus!
