use vstd::prelude::*;

verus! {

use crate::Integer;
use crate::json::{
    opt_bool_value, opt_int_value, opt_str_value, Decimal, JsonData, JsonObject, JsonValue,
};
use crate::markup::{
    keyboard_json, opt_keyboard_value, view_opt_keyboard, InlineKeyboardButtonData,
    InlineKeyboardMarkup,
};
use crate::primitive::{opt_parse_mode_value, view_opt_int, view_opt_str, ParseMode};
use crate::text::{
    entities_data, entities_json, opt_entities_value, view_opt_entities, TextEntities, TextEntity,
    TextEntityData,
};

/// Text content of a message to be sent as the result of an inline query.
#[derive(Clone, Debug)]
pub struct InputTextMessageContent {
    /// Text of the message; 1-4096 characters.
    pub message_text: String,
}

/// Model of a text message content.
pub struct InputTextMessageContentData {
    pub message_text: Seq<char>,
}

impl View for InputTextMessageContent {
    type V = InputTextMessageContentData;

    open spec fn view(&self) -> InputTextMessageContentData {
        InputTextMessageContentData { message_text: self.message_text@ }
    }
}

impl InputTextMessageContent {
    /// Creates a new text content.
    pub fn new(message_text: &str) -> (r: InputTextMessageContent)
        ensures
            r@ == (InputTextMessageContentData { message_text: message_text@ }),
    {
        InputTextMessageContent { message_text: String::from_str(message_text) }
    }
}

/// Content of the message to be sent instead of an inline query result.
#[derive(Clone, Debug)]
pub enum InputMessageContent {
    Text(InputTextMessageContent),
}

/// Model of a message content.
pub enum InputMessageContentData {
    Text(InputTextMessageContentData),
}

impl View for InputMessageContent {
    type V = InputMessageContentData;

    open spec fn view(&self) -> InputMessageContentData {
        match self {
            InputMessageContent::Text(t) => InputMessageContentData::Text(t@),
        }
    }
}

/// JSON object of a message content.
pub open spec fn input_message_content_json(c: InputMessageContentData) -> JsonData {
    match c {
        InputMessageContentData::Text(t) => JsonData::Obj(
            seq![("message_text"@, JsonData::Str(t.message_text))],
        ),
    }
}

impl InputMessageContent {
    /// Wraps a text content.
    pub fn text(value: InputTextMessageContent) -> (r: InputMessageContent)
        ensures
            r@ == InputMessageContentData::Text(value@),
    {
        InputMessageContent::Text(value)
    }

    /// JSON object of the content.
    pub fn to_json(&self) -> (r: JsonValue)
        ensures
            r@ == input_message_content_json(self@),
    {
        match self {
            InputMessageContent::Text(t) => {
                let mut obj = JsonObject::new();
                obj.set("message_text", JsonValue::Str(t.message_text.clone()));
                let r = obj.into_value();
                proof {
                    assert(r@->Obj_0 =~= seq![("message_text"@, JsonData::Str(t.message_text@))]);
                }
                r
            }
        }
    }
}

/// View of an optional message content.
pub open spec fn view_opt_content(v: Option<InputMessageContent>) -> Option<InputMessageContentData> {
    match v {
        Some(c) => Some(c@),
        None => None,
    }
}

/// Lifts an optional message content to an optional JSON value.
pub fn opt_content_value(v: &Option<InputMessageContent>) -> (r: Option<JsonValue>)
    ensures
        crate::json::spec_opt_view(r) == match view_opt_content(*v) {
            Some(c) => Some(input_message_content_json(c)),
            None => None::<JsonData>,
        },
{
    match v {
        Some(c) => Some(c.to_json()),
        None => None,
    }
}

/// Link to an article or a web page.
#[derive(Clone, Debug)]
pub struct InlineQueryResultArticle {
    pub id: String,
    pub title: String,
    pub input_message_content: InputMessageContent,
    pub reply_markup: Option<InlineKeyboardMarkup>,
    pub url: Option<String>,
    pub hide_url: Option<bool>,
    pub description: Option<String>,
    pub thumb_url: Option<String>,
    pub thumb_width: Option<Integer>,
    pub thumb_height: Option<Integer>,
}

/// Model of `InlineQueryResultArticle`.
pub struct InlineQueryResultArticleData {
    pub id: Seq<char>,
    pub title: Seq<char>,
    pub input_message_content: InputMessageContentData,
    pub reply_markup: Option<Seq<Seq<InlineKeyboardButtonData>>>,
    pub url: Option<Seq<char>>,
    pub hide_url: Option<bool>,
    pub description: Option<Seq<char>>,
    pub thumb_url: Option<Seq<char>>,
    pub thumb_width: Option<int>,
    pub thumb_height: Option<int>,
}

impl View for InlineQueryResultArticle {
    type V = InlineQueryResultArticleData;

    open spec fn view(&self) -> InlineQueryResultArticleData {
        InlineQueryResultArticleData {
            id: self.id@,
            title: self.title@,
            input_message_content: self.input_message_content@,
            reply_markup: view_opt_keyboard(self.reply_markup),
            url: view_opt_str(self.url),
            hide_url: self.hide_url,
            description: view_opt_str(self.description),
            thumb_url: view_opt_str(self.thumb_url),
            thumb_width: view_opt_int(self.thumb_width),
            thumb_height: view_opt_int(self.thumb_height),
        }
    }
}

/// Members of the JSON object, in wire order; absent options add nothing.
pub open spec fn inline_query_result_article_members(v: InlineQueryResultArticleData) -> Seq<(Seq<char>, JsonData)> {
    let m = Seq::<(Seq<char>, JsonData)>::empty();
    let m = m.push(("id"@, JsonData::Str(v.id)));
    let m = m.push(("title"@, JsonData::Str(v.title)));
    let m = m.push(("input_message_content"@, input_message_content_json(v.input_message_content)));
    let m = match v.reply_markup {
        Some(x) => m.push(("reply_markup"@, keyboard_json(x))),
        None => m,
    };
    let m = match v.url {
        Some(x) => m.push(("url"@, JsonData::Str(x))),
        None => m,
    };
    let m = match v.hide_url {
        Some(x) => m.push(("hide_url"@, JsonData::Bool(x))),
        None => m,
    };
    let m = match v.description {
        Some(x) => m.push(("description"@, JsonData::Str(x))),
        None => m,
    };
    let m = match v.thumb_url {
        Some(x) => m.push(("thumb_url"@, JsonData::Str(x))),
        None => m,
    };
    let m = match v.thumb_width {
        Some(x) => m.push(("thumb_width"@, JsonData::Int(x))),
        None => m,
    };
    let m = match v.thumb_height {
        Some(x) => m.push(("thumb_height"@, JsonData::Int(x))),
        None => m,
    };
    m
}

/// JSON object sent for `InlineQueryResultArticle`.
pub open spec fn inline_query_result_article_json(v: InlineQueryResultArticleData) -> JsonData {
    JsonData::Obj(inline_query_result_article_members(v))
}

impl InlineQueryResultArticle {
    /// Creates a new `InlineQueryResultArticle` with empty optional parameters.
    pub fn new(id: &str, title: &str, input_message_content: InputMessageContent) -> (r: InlineQueryResultArticle)
        ensures
            r@ == (InlineQueryResultArticleData {
                id: id@,
                title: title@,
                input_message_content: input_message_content@,
                reply_markup: None,
                url: None,
                hide_url: None,
                description: None,
                thumb_url: None,
                thumb_width: None,
                thumb_height: None,
            }),
    {
        InlineQueryResultArticle {
            id: String::from_str(id),
            title: String::from_str(title),
            input_message_content,
            reply_markup: None,
            url: None,
            hide_url: None,
            description: None,
            thumb_url: None,
            thumb_width: None,
            thumb_height: None,
        }
    }

    /// Attaches an inline keyboard.
    pub fn reply_markup(self, value: InlineKeyboardMarkup) -> (r: InlineQueryResultArticle)
        ensures
            r@ == (InlineQueryResultArticleData { reply_markup: Some(value@), ..self@ }),
    {
        InlineQueryResultArticle { reply_markup: Some(value), ..self }
    }

    /// Sets the URL of the result.
    pub fn url(self, value: &str) -> (r: InlineQueryResultArticle)
        ensures
            r@ == (InlineQueryResultArticleData { url: Some(value@), ..self@ }),
    {
        InlineQueryResultArticle { url: Some(String::from_str(value)), ..self }
    }

    /// Hides the URL in the message.
    pub fn hide_url(self, value: bool) -> (r: InlineQueryResultArticle)
        ensures
            r@ == (InlineQueryResultArticleData { hide_url: Some(value), ..self@ }),
    {
        InlineQueryResultArticle { hide_url: Some(value), ..self }
    }

    /// Sets a short description of the result.
    pub fn description(self, value: &str) -> (r: InlineQueryResultArticle)
        ensures
            r@ == (InlineQueryResultArticleData { description: Some(value@), ..self@ }),
    {
        InlineQueryResultArticle { description: Some(String::from_str(value)), ..self }
    }

    /// Sets the URL of the thumbnail.
    pub fn thumb_url(self, value: &str) -> (r: InlineQueryResultArticle)
        ensures
            r@ == (InlineQueryResultArticleData { thumb_url: Some(value@), ..self@ }),
    {
        InlineQueryResultArticle { thumb_url: Some(String::from_str(value)), ..self }
    }

    /// Sets the width of the thumbnail.
    pub fn thumb_width(self, value: Integer) -> (r: InlineQueryResultArticle)
        ensures
            r@ == (InlineQueryResultArticleData { thumb_width: Some(value as int), ..self@ }),
    {
        InlineQueryResultArticle { thumb_width: Some(value), ..self }
    }

    /// Sets the height of the thumbnail.
    pub fn thumb_height(self, value: Integer) -> (r: InlineQueryResultArticle)
        ensures
            r@ == (InlineQueryResultArticleData { thumb_height: Some(value as int), ..self@ }),
    {
        InlineQueryResultArticle { thumb_height: Some(value), ..self }
    }

    /// JSON object of the call.
    pub fn to_json(&self) -> (r: JsonValue)
        ensures
            r@ == inline_query_result_article_json(self@),
    {
        let mut obj = JsonObject::new();
        obj.set("id", JsonValue::Str(self.id.clone()));
        obj.set("title", JsonValue::Str(self.title.clone()));
        obj.set("input_message_content", self.input_message_content.to_json());
        obj.set_opt("reply_markup", opt_keyboard_value(&self.reply_markup));
        obj.set_opt("url", opt_str_value(&self.url));
        obj.set_opt("hide_url", opt_bool_value(self.hide_url));
        obj.set_opt("description", opt_str_value(&self.description));
        obj.set_opt("thumb_url", opt_str_value(&self.thumb_url));
        obj.set_opt("thumb_width", opt_int_value(self.thumb_width));
        obj.set_opt("thumb_height", opt_int_value(self.thumb_height));
        proof {
            assert(obj@ == inline_query_result_article_members(self@));
        }
        obj.into_value()
    }
}

/// Link to an mp3 audio file.
#[derive(Clone, Debug)]
pub struct InlineQueryResultAudio {
    pub id: String,
    pub audio_url: String,
    pub title: String,
    pub caption: Option<String>,
    pub caption_entities: Option<TextEntities>,
    pub parse_mode: Option<ParseMode>,
    pub performer: Option<String>,
    pub audio_duration: Option<Integer>,
    pub reply_markup: Option<InlineKeyboardMarkup>,
    pub input_message_content: Option<InputMessageContent>,
}

/// Model of `InlineQueryResultAudio`.
pub struct InlineQueryResultAudioData {
    pub id: Seq<char>,
    pub audio_url: Seq<char>,
    pub title: Seq<char>,
    pub caption: Option<Seq<char>>,
    pub caption_entities: Option<Seq<TextEntityData>>,
    pub parse_mode: Option<ParseMode>,
    pub performer: Option<Seq<char>>,
    pub audio_duration: Option<int>,
    pub reply_markup: Option<Seq<Seq<InlineKeyboardButtonData>>>,
    pub input_message_content: Option<InputMessageContentData>,
}

impl View for InlineQueryResultAudio {
    type V = InlineQueryResultAudioData;

    open spec fn view(&self) -> InlineQueryResultAudioData {
        InlineQueryResultAudioData {
            id: self.id@,
            audio_url: self.audio_url@,
            title: self.title@,
            caption: view_opt_str(self.caption),
            caption_entities: view_opt_entities(self.caption_entities),
            parse_mode: self.parse_mode,
            performer: view_opt_str(self.performer),
            audio_duration: view_opt_int(self.audio_duration),
            reply_markup: view_opt_keyboard(self.reply_markup),
            input_message_content: view_opt_content(self.input_message_content),
        }
    }
}

/// Members of the JSON object, in wire order; absent options add nothing.
pub open spec fn inline_query_result_audio_members(v: InlineQueryResultAudioData) -> Seq<(Seq<char>, JsonData)> {
    let m = Seq::<(Seq<char>, JsonData)>::empty();
    let m = m.push(("id"@, JsonData::Str(v.id)));
    let m = m.push(("audio_url"@, JsonData::Str(v.audio_url)));
    let m = m.push(("title"@, JsonData::Str(v.title)));
    let m = match v.caption {
        Some(x) => m.push(("caption"@, JsonData::Str(x))),
        None => m,
    };
    let m = match v.caption_entities {
        Some(x) => m.push(("caption_entities"@, entities_json(x))),
        None => m,
    };
    let m = match v.parse_mode {
        Some(x) => m.push(("parse_mode"@, JsonData::Str(x.spec_name()))),
        None => m,
    };
    let m = match v.performer {
        Some(x) => m.push(("performer"@, JsonData::Str(x))),
        None => m,
    };
    let m = match v.audio_duration {
        Some(x) => m.push(("audio_duration"@, JsonData::Int(x))),
        None => m,
    };
    let m = match v.reply_markup {
        Some(x) => m.push(("reply_markup"@, keyboard_json(x))),
        None => m,
    };
    let m = match v.input_message_content {
        Some(x) => m.push(("input_message_content"@, input_message_content_json(x))),
        None => m,
    };
    m
}

/// JSON object sent for `InlineQueryResultAudio`.
pub open spec fn inline_query_result_audio_json(v: InlineQueryResultAudioData) -> JsonData {
    JsonData::Obj(inline_query_result_audio_members(v))
}

impl InlineQueryResultAudio {
    /// Creates a new `InlineQueryResultAudio` with empty optional parameters.
    pub fn new(id: &str, audio_url: &str, title: &str) -> (r: InlineQueryResultAudio)
        ensures
            r@ == (InlineQueryResultAudioData {
                id: id@,
                audio_url: audio_url@,
                title: title@,
                caption: None,
                caption_entities: None,
                parse_mode: None,
                performer: None,
                audio_duration: None,
                reply_markup: None,
                input_message_content: None,
            }),
    {
        InlineQueryResultAudio {
            id: String::from_str(id),
            audio_url: String::from_str(audio_url),
            title: String::from_str(title),
            caption: None,
            caption_entities: None,
            parse_mode: None,
            performer: None,
            audio_duration: None,
            reply_markup: None,
            input_message_content: None,
        }
    }

    /// Sets the caption of the audio.
    pub fn caption(self, value: &str) -> (r: InlineQueryResultAudio)
        ensures
            r@ == (InlineQueryResultAudioData { caption: Some(value@), ..self@ }),
    {
        InlineQueryResultAudio { caption: Some(String::from_str(value)), ..self }
    }

    /// Sets the entities of the caption; the parse mode is cleared.
    pub fn caption_entities(self, value: Vec<TextEntity>) -> (r: InlineQueryResultAudio)
        ensures
            r@ == (InlineQueryResultAudioData { caption_entities: Some(entities_data(value@)), parse_mode: None, ..self@ }),
    {
        InlineQueryResultAudio { caption_entities: Some(TextEntities::from_vec(value)),parse_mode: None, ..self }
    }

    /// Sets the parse mode; caption entities are cleared.
    pub fn parse_mode(self, value: ParseMode) -> (r: InlineQueryResultAudio)
        ensures
            r@ == (InlineQueryResultAudioData { parse_mode: Some(value), caption_entities: None, ..self@ }),
    {
        InlineQueryResultAudio { parse_mode: Some(value),caption_entities: None, ..self }
    }

    /// Sets the performer of the audio.
    pub fn performer(self, value: &str) -> (r: InlineQueryResultAudio)
        ensures
            r@ == (InlineQueryResultAudioData { performer: Some(value@), ..self@ }),
    {
        InlineQueryResultAudio { performer: Some(String::from_str(value)), ..self }
    }

    /// Sets the duration of the audio in seconds.
    pub fn audio_duration(self, value: Integer) -> (r: InlineQueryResultAudio)
        ensures
            r@ == (InlineQueryResultAudioData { audio_duration: Some(value as int), ..self@ }),
    {
        InlineQueryResultAudio { audio_duration: Some(value), ..self }
    }

    /// Attaches an inline keyboard.
    pub fn reply_markup(self, value: InlineKeyboardMarkup) -> (r: InlineQueryResultAudio)
        ensures
            r@ == (InlineQueryResultAudioData { reply_markup: Some(value@), ..self@ }),
    {
        InlineQueryResultAudio { reply_markup: Some(value), ..self }
    }

    /// Sets the content sent instead of the audio.
    pub fn input_message_content(self, value: InputMessageContent) -> (r: InlineQueryResultAudio)
        ensures
            r@ == (InlineQueryResultAudioData { input_message_content: Some(value@), ..self@ }),
    {
        InlineQueryResultAudio { input_message_content: Some(value), ..self }
    }

    /// JSON object of the call.
    pub fn to_json(&self) -> (r: JsonValue)
        ensures
            r@ == inline_query_result_audio_json(self@),
    {
        let mut obj = JsonObject::new();
        obj.set("id", JsonValue::Str(self.id.clone()));
        obj.set("audio_url", JsonValue::Str(self.audio_url.clone()));
        obj.set("title", JsonValue::Str(self.title.clone()));
        obj.set_opt("caption", opt_str_value(&self.caption));
        obj.set_opt("caption_entities", opt_entities_value(&self.caption_entities));
        obj.set_opt("parse_mode", opt_parse_mode_value(&self.parse_mode));
        obj.set_opt("performer", opt_str_value(&self.performer));
        obj.set_opt("audio_duration", opt_int_value(self.audio_duration));
        obj.set_opt("reply_markup", opt_keyboard_value(&self.reply_markup));
        obj.set_opt("input_message_content", opt_content_value(&self.input_message_content));
        proof {
            assert(obj@ == inline_query_result_audio_members(self@));
        }
        obj.into_value()
    }
}

/// Link to a voice recording in an .ogg container encoded with OPUS.
#[derive(Clone, Debug)]
pub struct InlineQueryResultVoice {
    pub id: String,
    pub voice_url: String,
    pub title: String,
    pub caption: Option<String>,
    pub caption_entities: Option<TextEntities>,
    pub parse_mode: Option<ParseMode>,
    pub voice_duration: Option<Integer>,
    pub reply_markup: Option<InlineKeyboardMarkup>,
    pub input_message_content: Option<InputMessageContent>,
}

/// Model of `InlineQueryResultVoice`.
pub struct InlineQueryResultVoiceData {
    pub id: Seq<char>,
    pub voice_url: Seq<char>,
    pub title: Seq<char>,
    pub caption: Option<Seq<char>>,
    pub caption_entities: Option<Seq<TextEntityData>>,
    pub parse_mode: Option<ParseMode>,
    pub voice_duration: Option<int>,
    pub reply_markup: Option<Seq<Seq<InlineKeyboardButtonData>>>,
    pub input_message_content: Option<InputMessageContentData>,
}

impl View for InlineQueryResultVoice {
    type V = InlineQueryResultVoiceData;

    open spec fn view(&self) -> InlineQueryResultVoiceData {
        InlineQueryResultVoiceData {
            id: self.id@,
            voice_url: self.voice_url@,
            title: self.title@,
            caption: view_opt_str(self.caption),
            caption_entities: view_opt_entities(self.caption_entities),
            parse_mode: self.parse_mode,
            voice_duration: view_opt_int(self.voice_duration),
            reply_markup: view_opt_keyboard(self.reply_markup),
            input_message_content: view_opt_content(self.input_message_content),
        }
    }
}

/// Members of the JSON object, in wire order; absent options add nothing.
pub open spec fn inline_query_result_voice_members(v: InlineQueryResultVoiceData) -> Seq<(Seq<char>, JsonData)> {
    let m = Seq::<(Seq<char>, JsonData)>::empty();
    let m = m.push(("id"@, JsonData::Str(v.id)));
    let m = m.push(("voice_url"@, JsonData::Str(v.voice_url)));
    let m = m.push(("title"@, JsonData::Str(v.title)));
    let m = match v.caption {
        Some(x) => m.push(("caption"@, JsonData::Str(x))),
        None => m,
    };
    let m = match v.caption_entities {
        Some(x) => m.push(("caption_entities"@, entities_json(x))),
        None => m,
    };
    let m = match v.parse_mode {
        Some(x) => m.push(("parse_mode"@, JsonData::Str(x.spec_name()))),
        None => m,
    };
    let m = match v.voice_duration {
        Some(x) => m.push(("voice_duration"@, JsonData::Int(x))),
        None => m,
    };
    let m = match v.reply_markup {
        Some(x) => m.push(("reply_markup"@, keyboard_json(x))),
        None => m,
    };
    let m = match v.input_message_content {
        Some(x) => m.push(("input_message_content"@, input_message_content_json(x))),
        None => m,
    };
    m
}

/// JSON object sent for `InlineQueryResultVoice`.
pub open spec fn inline_query_result_voice_json(v: InlineQueryResultVoiceData) -> JsonData {
    JsonData::Obj(inline_query_result_voice_members(v))
}

impl InlineQueryResultVoice {
    /// Creates a new `InlineQueryResultVoice` with empty optional parameters.
    pub fn new(id: &str, voice_url: &str, title: &str) -> (r: InlineQueryResultVoice)
        ensures
            r@ == (InlineQueryResultVoiceData {
                id: id@,
                voice_url: voice_url@,
                title: title@,
                caption: None,
                caption_entities: None,
                parse_mode: None,
                voice_duration: None,
                reply_markup: None,
                input_message_content: None,
            }),
    {
        InlineQueryResultVoice {
            id: String::from_str(id),
            voice_url: String::from_str(voice_url),
            title: String::from_str(title),
            caption: None,
            caption_entities: None,
            parse_mode: None,
            voice_duration: None,
            reply_markup: None,
            input_message_content: None,
        }
    }

    /// Sets the caption of the recording.
    pub fn caption(self, value: &str) -> (r: InlineQueryResultVoice)
        ensures
            r@ == (InlineQueryResultVoiceData { caption: Some(value@), ..self@ }),
    {
        InlineQueryResultVoice { caption: Some(String::from_str(value)), ..self }
    }

    /// Sets the entities of the caption; the parse mode is cleared.
    pub fn caption_entities(self, value: Vec<TextEntity>) -> (r: InlineQueryResultVoice)
        ensures
            r@ == (InlineQueryResultVoiceData { caption_entities: Some(entities_data(value@)), parse_mode: None, ..self@ }),
    {
        InlineQueryResultVoice { caption_entities: Some(TextEntities::from_vec(value)),parse_mode: None, ..self }
    }

    /// Sets the parse mode.
    pub fn parse_mode(self, value: ParseMode) -> (r: InlineQueryResultVoice)
        ensures
            r@ == (InlineQueryResultVoiceData { parse_mode: Some(value), ..self@ }),
    {
        InlineQueryResultVoice { parse_mode: Some(value), ..self }
    }

    /// Sets the duration of the recording in seconds.
    pub fn voice_duration(self, value: Integer) -> (r: InlineQueryResultVoice)
        ensures
            r@ == (InlineQueryResultVoiceData { voice_duration: Some(value as int), ..self@ }),
    {
        InlineQueryResultVoice { voice_duration: Some(value), ..self }
    }

    /// Attaches an inline keyboard.
    pub fn reply_markup(self, value: InlineKeyboardMarkup) -> (r: InlineQueryResultVoice)
        ensures
            r@ == (InlineQueryResultVoiceData { reply_markup: Some(value@), ..self@ }),
    {
        InlineQueryResultVoice { reply_markup: Some(value), ..self }
    }

    /// Sets the content sent instead of the recording.
    pub fn input_message_content(self, value: InputMessageContent) -> (r: InlineQueryResultVoice)
        ensures
            r@ == (InlineQueryResultVoiceData { input_message_content: Some(value@), ..self@ }),
    {
        InlineQueryResultVoice { input_message_content: Some(value), ..self }
    }

    /// JSON object of the call.
    pub fn to_json(&self) -> (r: JsonValue)
        ensures
            r@ == inline_query_result_voice_json(self@),
    {
        let mut obj = JsonObject::new();
        obj.set("id", JsonValue::Str(self.id.clone()));
        obj.set("voice_url", JsonValue::Str(self.voice_url.clone()));
        obj.set("title", JsonValue::Str(self.title.clone()));
        obj.set_opt("caption", opt_str_value(&self.caption));
        obj.set_opt("caption_entities", opt_entities_value(&self.caption_entities));
        obj.set_opt("parse_mode", opt_parse_mode_value(&self.parse_mode));
        obj.set_opt("voice_duration", opt_int_value(self.voice_duration));
        obj.set_opt("reply_markup", opt_keyboard_value(&self.reply_markup));
        obj.set_opt("input_message_content", opt_content_value(&self.input_message_content));
        proof {
            assert(obj@ == inline_query_result_voice_members(self@));
        }
        obj.into_value()
    }
}

/// Link to a page containing an embedded video player or a video file.
#[derive(Clone, Debug)]
pub struct InlineQueryResultVideo {
    pub id: String,
    pub video_url: String,
    pub mime_type: String,
    pub thumb_url: String,
    pub title: String,
    pub caption: Option<String>,
    pub parse_mode: Option<ParseMode>,
    pub video_width: Option<Integer>,
    pub video_height: Option<Integer>,
    pub video_duration: Option<Integer>,
    pub description: Option<String>,
    pub caption_entities: Option<TextEntities>,
    pub reply_markup: Option<InlineKeyboardMarkup>,
    pub input_message_content: Option<InputMessageContent>,
}

/// Model of `InlineQueryResultVideo`.
pub struct InlineQueryResultVideoData {
    pub id: Seq<char>,
    pub video_url: Seq<char>,
    pub mime_type: Seq<char>,
    pub thumb_url: Seq<char>,
    pub title: Seq<char>,
    pub caption: Option<Seq<char>>,
    pub parse_mode: Option<ParseMode>,
    pub video_width: Option<int>,
    pub video_height: Option<int>,
    pub video_duration: Option<int>,
    pub description: Option<Seq<char>>,
    pub caption_entities: Option<Seq<TextEntityData>>,
    pub reply_markup: Option<Seq<Seq<InlineKeyboardButtonData>>>,
    pub input_message_content: Option<InputMessageContentData>,
}

impl View for InlineQueryResultVideo {
    type V = InlineQueryResultVideoData;

    open spec fn view(&self) -> InlineQueryResultVideoData {
        InlineQueryResultVideoData {
            id: self.id@,
            video_url: self.video_url@,
            mime_type: self.mime_type@,
            thumb_url: self.thumb_url@,
            title: self.title@,
            caption: view_opt_str(self.caption),
            parse_mode: self.parse_mode,
            video_width: view_opt_int(self.video_width),
            video_height: view_opt_int(self.video_height),
            video_duration: view_opt_int(self.video_duration),
            description: view_opt_str(self.description),
            caption_entities: view_opt_entities(self.caption_entities),
            reply_markup: view_opt_keyboard(self.reply_markup),
            input_message_content: view_opt_content(self.input_message_content),
        }
    }
}

/// Members of the JSON object, in wire order; absent options add nothing.
pub open spec fn inline_query_result_video_members(v: InlineQueryResultVideoData) -> Seq<(Seq<char>, JsonData)> {
    let m = Seq::<(Seq<char>, JsonData)>::empty();
    let m = m.push(("id"@, JsonData::Str(v.id)));
    let m = m.push(("video_url"@, JsonData::Str(v.video_url)));
    let m = m.push(("mime_type"@, JsonData::Str(v.mime_type)));
    let m = m.push(("thumb_url"@, JsonData::Str(v.thumb_url)));
    let m = m.push(("title"@, JsonData::Str(v.title)));
    let m = match v.caption {
        Some(x) => m.push(("caption"@, JsonData::Str(x))),
        None => m,
    };
    let m = match v.parse_mode {
        Some(x) => m.push(("parse_mode"@, JsonData::Str(x.spec_name()))),
        None => m,
    };
    let m = match v.video_width {
        Some(x) => m.push(("video_width"@, JsonData::Int(x))),
        None => m,
    };
    let m = match v.video_height {
        Some(x) => m.push(("video_height"@, JsonData::Int(x))),
        None => m,
    };
    let m = match v.video_duration {
        Some(x) => m.push(("video_duration"@, JsonData::Int(x))),
        None => m,
    };
    let m = match v.description {
        Some(x) => m.push(("description"@, JsonData::Str(x))),
        None => m,
    };
    let m = match v.caption_entities {
        Some(x) => m.push(("caption_entities"@, entities_json(x))),
        None => m,
    };
    let m = match v.reply_markup {
        Some(x) => m.push(("reply_markup"@, keyboard_json(x))),
        None => m,
    };
    let m = match v.input_message_content {
        Some(x) => m.push(("input_message_content"@, input_message_content_json(x))),
        None => m,
    };
    m
}

/// JSON object sent for `InlineQueryResultVideo`.
pub open spec fn inline_query_result_video_json(v: InlineQueryResultVideoData) -> JsonData {
    JsonData::Obj(inline_query_result_video_members(v))
}

impl InlineQueryResultVideo {
    /// Creates a new `InlineQueryResultVideo` with empty optional parameters.
    pub fn new(id: &str, video_url: &str, mime_type: &str, thumb_url: &str, title: &str) -> (r: InlineQueryResultVideo)
        ensures
            r@ == (InlineQueryResultVideoData {
                id: id@,
                video_url: video_url@,
                mime_type: mime_type@,
                thumb_url: thumb_url@,
                title: title@,
                caption: None,
                parse_mode: None,
                video_width: None,
                video_height: None,
                video_duration: None,
                description: None,
                caption_entities: None,
                reply_markup: None,
                input_message_content: None,
            }),
    {
        InlineQueryResultVideo {
            id: String::from_str(id),
            video_url: String::from_str(video_url),
            mime_type: String::from_str(mime_type),
            thumb_url: String::from_str(thumb_url),
            title: String::from_str(title),
            caption: None,
            parse_mode: None,
            video_width: None,
            video_height: None,
            video_duration: None,
            description: None,
            caption_entities: None,
            reply_markup: None,
            input_message_content: None,
        }
    }

    /// Sets the caption of the video.
    pub fn caption(self, value: &str) -> (r: InlineQueryResultVideo)
        ensures
            r@ == (InlineQueryResultVideoData { caption: Some(value@), ..self@ }),
    {
        InlineQueryResultVideo { caption: Some(String::from_str(value)), ..self }
    }

    /// Sets the entities of the caption; the parse mode is cleared.
    pub fn caption_entities(self, value: Vec<TextEntity>) -> (r: InlineQueryResultVideo)
        ensures
            r@ == (InlineQueryResultVideoData { caption_entities: Some(entities_data(value@)), parse_mode: None, ..self@ }),
    {
        InlineQueryResultVideo { caption_entities: Some(TextEntities::from_vec(value)),parse_mode: None, ..self }
    }

    /// Sets the parse mode; caption entities are cleared.
    pub fn parse_mode(self, value: ParseMode) -> (r: InlineQueryResultVideo)
        ensures
            r@ == (InlineQueryResultVideoData { parse_mode: Some(value), caption_entities: None, ..self@ }),
    {
        InlineQueryResultVideo { parse_mode: Some(value),caption_entities: None, ..self }
    }

    /// Sets the width of the video.
    pub fn video_width(self, value: Integer) -> (r: InlineQueryResultVideo)
        ensures
            r@ == (InlineQueryResultVideoData { video_width: Some(value as int), ..self@ }),
    {
        InlineQueryResultVideo { video_width: Some(value), ..self }
    }

    /// Sets the height of the video.
    pub fn video_height(self, value: Integer) -> (r: InlineQueryResultVideo)
        ensures
            r@ == (InlineQueryResultVideoData { video_height: Some(value as int), ..self@ }),
    {
        InlineQueryResultVideo { video_height: Some(value), ..self }
    }

    /// Sets the duration of the video in seconds.
    pub fn video_duration(self, value: Integer) -> (r: InlineQueryResultVideo)
        ensures
            r@ == (InlineQueryResultVideoData { video_duration: Some(value as int), ..self@ }),
    {
        InlineQueryResultVideo { video_duration: Some(value), ..self }
    }

    /// Sets a short description of the result.
    pub fn description(self, value: &str) -> (r: InlineQueryResultVideo)
        ensures
            r@ == (InlineQueryResultVideoData { description: Some(value@), ..self@ }),
    {
        InlineQueryResultVideo { description: Some(String::from_str(value)), ..self }
    }

    /// Attaches an inline keyboard.
    pub fn reply_markup(self, value: InlineKeyboardMarkup) -> (r: InlineQueryResultVideo)
        ensures
            r@ == (InlineQueryResultVideoData { reply_markup: Some(value@), ..self@ }),
    {
        InlineQueryResultVideo { reply_markup: Some(value), ..self }
    }

    /// Sets the content sent instead of the video.
    pub fn input_message_content(self, value: InputMessageContent) -> (r: InlineQueryResultVideo)
        ensures
            r@ == (InlineQueryResultVideoData { input_message_content: Some(value@), ..self@ }),
    {
        InlineQueryResultVideo { input_message_content: Some(value), ..self }
    }

    /// JSON object of the call.
    pub fn to_json(&self) -> (r: JsonValue)
        ensures
            r@ == inline_query_result_video_json(self@),
    {
        let mut obj = JsonObject::new();
        obj.set("id", JsonValue::Str(self.id.clone()));
        obj.set("video_url", JsonValue::Str(self.video_url.clone()));
        obj.set("mime_type", JsonValue::Str(self.mime_type.clone()));
        obj.set("thumb_url", JsonValue::Str(self.thumb_url.clone()));
        obj.set("title", JsonValue::Str(self.title.clone()));
        obj.set_opt("caption", opt_str_value(&self.caption));
        obj.set_opt("parse_mode", opt_parse_mode_value(&self.parse_mode));
        obj.set_opt("video_width", opt_int_value(self.video_width));
        obj.set_opt("video_height", opt_int_value(self.video_height));
        obj.set_opt("video_duration", opt_int_value(self.video_duration));
        obj.set_opt("description", opt_str_value(&self.description));
        obj.set_opt("caption_entities", opt_entities_value(&self.caption_entities));
        obj.set_opt("reply_markup", opt_keyboard_value(&self.reply_markup));
        obj.set_opt("input_message_content", opt_content_value(&self.input_message_content));
        proof {
            assert(obj@ == inline_query_result_video_members(self@));
        }
        obj.into_value()
    }
}

/// Link to a file.
#[derive(Clone, Debug)]
pub struct InlineQueryResultDocument {
    pub id: String,
    pub title: String,
    pub document_url: String,
    pub mime_type: String,
    pub caption: Option<String>,
    pub caption_entities: Option<TextEntities>,
    pub parse_mode: Option<ParseMode>,
    pub description: Option<String>,
    pub reply_markup: Option<InlineKeyboardMarkup>,
    pub input_message_content: Option<InputMessageContent>,
    pub thumb_url: Option<String>,
    pub thumb_width: Option<Integer>,
    pub thumb_height: Option<Integer>,
}

/// Model of `InlineQueryResultDocument`.
pub struct InlineQueryResultDocumentData {
    pub id: Seq<char>,
    pub title: Seq<char>,
    pub document_url: Seq<char>,
    pub mime_type: Seq<char>,
    pub caption: Option<Seq<char>>,
    pub caption_entities: Option<Seq<TextEntityData>>,
    pub parse_mode: Option<ParseMode>,
    pub description: Option<Seq<char>>,
    pub reply_markup: Option<Seq<Seq<InlineKeyboardButtonData>>>,
    pub input_message_content: Option<InputMessageContentData>,
    pub thumb_url: Option<Seq<char>>,
    pub thumb_width: Option<int>,
    pub thumb_height: Option<int>,
}

impl View for InlineQueryResultDocument {
    type V = InlineQueryResultDocumentData;

    open spec fn view(&self) -> InlineQueryResultDocumentData {
        InlineQueryResultDocumentData {
            id: self.id@,
            title: self.title@,
            document_url: self.document_url@,
            mime_type: self.mime_type@,
            caption: view_opt_str(self.caption),
            caption_entities: view_opt_entities(self.caption_entities),
            parse_mode: self.parse_mode,
            description: view_opt_str(self.description),
            reply_markup: view_opt_keyboard(self.reply_markup),
            input_message_content: view_opt_content(self.input_message_content),
            thumb_url: view_opt_str(self.thumb_url),
            thumb_width: view_opt_int(self.thumb_width),
            thumb_height: view_opt_int(self.thumb_height),
        }
    }
}

/// Members of the JSON object, in wire order; absent options add nothing.
pub open spec fn inline_query_result_document_members(v: InlineQueryResultDocumentData) -> Seq<(Seq<char>, JsonData)> {
    let m = Seq::<(Seq<char>, JsonData)>::empty();
    let m = m.push(("id"@, JsonData::Str(v.id)));
    let m = m.push(("title"@, JsonData::Str(v.title)));
    let m = m.push(("document_url"@, JsonData::Str(v.document_url)));
    let m = m.push(("mime_type"@, JsonData::Str(v.mime_type)));
    let m = match v.caption {
        Some(x) => m.push(("caption"@, JsonData::Str(x))),
        None => m,
    };
    let m = match v.caption_entities {
        Some(x) => m.push(("caption_entities"@, entities_json(x))),
        None => m,
    };
    let m = match v.parse_mode {
        Some(x) => m.push(("parse_mode"@, JsonData::Str(x.spec_name()))),
        None => m,
    };
    let m = match v.description {
        Some(x) => m.push(("description"@, JsonData::Str(x))),
        None => m,
    };
    let m = match v.reply_markup {
        Some(x) => m.push(("reply_markup"@, keyboard_json(x))),
        None => m,
    };
    let m = match v.input_message_content {
        Some(x) => m.push(("input_message_content"@, input_message_content_json(x))),
        None => m,
    };
    let m = match v.thumb_url {
        Some(x) => m.push(("thumb_url"@, JsonData::Str(x))),
        None => m,
    };
    let m = match v.thumb_width {
        Some(x) => m.push(("thumb_width"@, JsonData::Int(x))),
        None => m,
    };
    let m = match v.thumb_height {
        Some(x) => m.push(("thumb_height"@, JsonData::Int(x))),
        None => m,
    };
    m
}

/// JSON object sent for `InlineQueryResultDocument`.
pub open spec fn inline_query_result_document_json(v: InlineQueryResultDocumentData) -> JsonData {
    JsonData::Obj(inline_query_result_document_members(v))
}

impl InlineQueryResultDocument {
    /// Creates a new `InlineQueryResultDocument` with empty optional parameters.
    pub fn new(id: &str, title: &str, document_url: &str, mime_type: &str) -> (r: InlineQueryResultDocument)
        ensures
            r@ == (InlineQueryResultDocumentData {
                id: id@,
                title: title@,
                document_url: document_url@,
                mime_type: mime_type@,
                caption: None,
                caption_entities: None,
                parse_mode: None,
                description: None,
                reply_markup: None,
                input_message_content: None,
                thumb_url: None,
                thumb_width: None,
                thumb_height: None,
            }),
    {
        InlineQueryResultDocument {
            id: String::from_str(id),
            title: String::from_str(title),
            document_url: String::from_str(document_url),
            mime_type: String::from_str(mime_type),
            caption: None,
            caption_entities: None,
            parse_mode: None,
            description: None,
            reply_markup: None,
            input_message_content: None,
            thumb_url: None,
            thumb_width: None,
            thumb_height: None,
        }
    }

    /// Sets the caption of the document.
    pub fn caption(self, value: &str) -> (r: InlineQueryResultDocument)
        ensures
            r@ == (InlineQueryResultDocumentData { caption: Some(value@), ..self@ }),
    {
        InlineQueryResultDocument { caption: Some(String::from_str(value)), ..self }
    }

    /// Sets the entities of the caption; the parse mode is cleared.
    pub fn caption_entities(self, value: Vec<TextEntity>) -> (r: InlineQueryResultDocument)
        ensures
            r@ == (InlineQueryResultDocumentData { caption_entities: Some(entities_data(value@)), parse_mode: None, ..self@ }),
    {
        InlineQueryResultDocument { caption_entities: Some(TextEntities::from_vec(value)),parse_mode: None, ..self }
    }

    /// Sets the parse mode; caption entities are cleared.
    pub fn parse_mode(self, value: ParseMode) -> (r: InlineQueryResultDocument)
        ensures
            r@ == (InlineQueryResultDocumentData { parse_mode: Some(value), caption_entities: None, ..self@ }),
    {
        InlineQueryResultDocument { parse_mode: Some(value),caption_entities: None, ..self }
    }

    /// Sets a short description of the result.
    pub fn description(self, value: &str) -> (r: InlineQueryResultDocument)
        ensures
            r@ == (InlineQueryResultDocumentData { description: Some(value@), ..self@ }),
    {
        InlineQueryResultDocument { description: Some(String::from_str(value)), ..self }
    }

    /// Attaches an inline keyboard.
    pub fn reply_markup(self, value: InlineKeyboardMarkup) -> (r: InlineQueryResultDocument)
        ensures
            r@ == (InlineQueryResultDocumentData { reply_markup: Some(value@), ..self@ }),
    {
        InlineQueryResultDocument { reply_markup: Some(value), ..self }
    }

    /// Sets the content sent instead of the file.
    pub fn input_message_content(self, value: InputMessageContent) -> (r: InlineQueryResultDocument)
        ensures
            r@ == (InlineQueryResultDocumentData { input_message_content: Some(value@), ..self@ }),
    {
        InlineQueryResultDocument { input_message_content: Some(value), ..self }
    }

    /// Sets the URL of the thumbnail.
    pub fn thumb_url(self, value: &str) -> (r: InlineQueryResultDocument)
        ensures
            r@ == (InlineQueryResultDocumentData { thumb_url: Some(value@), ..self@ }),
    {
        InlineQueryResultDocument { thumb_url: Some(String::from_str(value)), ..self }
    }

    /// Sets the width of the thumbnail.
    pub fn thumb_width(self, value: Integer) -> (r: InlineQueryResultDocument)
        ensures
            r@ == (InlineQueryResultDocumentData { thumb_width: Some(value as int), ..self@ }),
    {
        InlineQueryResultDocument { thumb_width: Some(value), ..self }
    }

    /// Sets the height of the thumbnail.
    pub fn thumb_height(self, value: Integer) -> (r: InlineQueryResultDocument)
        ensures
            r@ == (InlineQueryResultDocumentData { thumb_height: Some(value as int), ..self@ }),
    {
        InlineQueryResultDocument { thumb_height: Some(value), ..self }
    }

    /// JSON object of the call.
    pub fn to_json(&self) -> (r: JsonValue)
        ensures
            r@ == inline_query_result_document_json(self@),
    {
        let mut obj = JsonObject::new();
        obj.set("id", JsonValue::Str(self.id.clone()));
        obj.set("title", JsonValue::Str(self.title.clone()));
        obj.set("document_url", JsonValue::Str(self.document_url.clone()));
        obj.set("mime_type", JsonValue::Str(self.mime_type.clone()));
        obj.set_opt("caption", opt_str_value(&self.caption));
        obj.set_opt("caption_entities", opt_entities_value(&self.caption_entities));
        obj.set_opt("parse_mode", opt_parse_mode_value(&self.parse_mode));
        obj.set_opt("description", opt_str_value(&self.description));
        obj.set_opt("reply_markup", opt_keyboard_value(&self.reply_markup));
        obj.set_opt("input_message_content", opt_content_value(&self.input_message_content));
        obj.set_opt("thumb_url", opt_str_value(&self.thumb_url));
        obj.set_opt("thumb_width", opt_int_value(self.thumb_width));
        obj.set_opt("thumb_height", opt_int_value(self.thumb_height));
        proof {
            assert(obj@ == inline_query_result_document_members(self@));
        }
        obj.into_value()
    }
}

/// A venue located at the given coordinates.
#[derive(Clone, Debug)]
pub struct InlineQueryResultVenue {
    pub id: String,
    pub latitude: Decimal,
    pub longitude: Decimal,
    pub title: String,
    pub address: String,
    pub foursquare_id: Option<String>,
    pub foursquare_type: Option<String>,
    pub google_place_id: Option<String>,
    pub google_place_type: Option<String>,
    pub reply_markup: Option<InlineKeyboardMarkup>,
    pub input_message_content: Option<InputMessageContent>,
    pub thumb_url: Option<String>,
    pub thumb_width: Option<Integer>,
    pub thumb_height: Option<Integer>,
}

/// Model of `InlineQueryResultVenue`.
pub struct InlineQueryResultVenueData {
    pub id: Seq<char>,
    pub latitude: Decimal,
    pub longitude: Decimal,
    pub title: Seq<char>,
    pub address: Seq<char>,
    pub foursquare_id: Option<Seq<char>>,
    pub foursquare_type: Option<Seq<char>>,
    pub google_place_id: Option<Seq<char>>,
    pub google_place_type: Option<Seq<char>>,
    pub reply_markup: Option<Seq<Seq<InlineKeyboardButtonData>>>,
    pub input_message_content: Option<InputMessageContentData>,
    pub thumb_url: Option<Seq<char>>,
    pub thumb_width: Option<int>,
    pub thumb_height: Option<int>,
}

impl View for InlineQueryResultVenue {
    type V = InlineQueryResultVenueData;

    open spec fn view(&self) -> InlineQueryResultVenueData {
        InlineQueryResultVenueData {
            id: self.id@,
            latitude: self.latitude,
            longitude: self.longitude,
            title: self.title@,
            address: self.address@,
            foursquare_id: view_opt_str(self.foursquare_id),
            foursquare_type: view_opt_str(self.foursquare_type),
            google_place_id: view_opt_str(self.google_place_id),
            google_place_type: view_opt_str(self.google_place_type),
            reply_markup: view_opt_keyboard(self.reply_markup),
            input_message_content: view_opt_content(self.input_message_content),
            thumb_url: view_opt_str(self.thumb_url),
            thumb_width: view_opt_int(self.thumb_width),
            thumb_height: view_opt_int(self.thumb_height),
        }
    }
}

/// Members of the JSON object, in wire order; absent options add nothing.
pub open spec fn inline_query_result_venue_members(v: InlineQueryResultVenueData) -> Seq<(Seq<char>, JsonData)> {
    let m = Seq::<(Seq<char>, JsonData)>::empty();
    let m = m.push(("id"@, JsonData::Str(v.id)));
    let m = m.push(("latitude"@, JsonData::Dec(v.latitude.m(), v.latitude.s())));
    let m = m.push(("longitude"@, JsonData::Dec(v.longitude.m(), v.longitude.s())));
    let m = m.push(("title"@, JsonData::Str(v.title)));
    let m = m.push(("address"@, JsonData::Str(v.address)));
    let m = match v.foursquare_id {
        Some(x) => m.push(("foursquare_id"@, JsonData::Str(x))),
        None => m,
    };
    let m = match v.foursquare_type {
        Some(x) => m.push(("foursquare_type"@, JsonData::Str(x))),
        None => m,
    };
    let m = match v.google_place_id {
        Some(x) => m.push(("google_place_id"@, JsonData::Str(x))),
        None => m,
    };
    let m = match v.google_place_type {
        Some(x) => m.push(("google_place_type"@, JsonData::Str(x))),
        None => m,
    };
    let m = match v.reply_markup {
        Some(x) => m.push(("reply_markup"@, keyboard_json(x))),
        None => m,
    };
    let m = match v.input_message_content {
        Some(x) => m.push(("input_message_content"@, input_message_content_json(x))),
        None => m,
    };
    let m = match v.thumb_url {
        Some(x) => m.push(("thumb_url"@, JsonData::Str(x))),
        None => m,
    };
    let m = match v.thumb_width {
        Some(x) => m.push(("thumb_width"@, JsonData::Int(x))),
        None => m,
    };
    let m = match v.thumb_height {
        Some(x) => m.push(("thumb_height"@, JsonData::Int(x))),
        None => m,
    };
    m
}

/// JSON object sent for `InlineQueryResultVenue`.
pub open spec fn inline_query_result_venue_json(v: InlineQueryResultVenueData) -> JsonData {
    JsonData::Obj(inline_query_result_venue_members(v))
}

impl InlineQueryResultVenue {
    /// Creates a new `InlineQueryResultVenue` with empty optional parameters.
    pub fn new(id: &str, latitude: Decimal, longitude: Decimal, title: &str, address: &str) -> (r: InlineQueryResultVenue)
        ensures
            r@ == (InlineQueryResultVenueData {
                id: id@,
                latitude,
                longitude,
                title: title@,
                address: address@,
                foursquare_id: None,
                foursquare_type: None,
                google_place_id: None,
                google_place_type: None,
                reply_markup: None,
                input_message_content: None,
                thumb_url: None,
                thumb_width: None,
                thumb_height: None,
            }),
    {
        InlineQueryResultVenue {
            id: String::from_str(id),
            latitude,
            longitude,
            title: String::from_str(title),
            address: String::from_str(address),
            foursquare_id: None,
            foursquare_type: None,
            google_place_id: None,
            google_place_type: None,
            reply_markup: None,
            input_message_content: None,
            thumb_url: None,
            thumb_width: None,
            thumb_height: None,
        }
    }

    /// Sets the Foursquare identifier of the venue.
    pub fn foursquare_id(self, value: &str) -> (r: InlineQueryResultVenue)
        ensures
            r@ == (InlineQueryResultVenueData { foursquare_id: Some(value@), ..self@ }),
    {
        InlineQueryResultVenue { foursquare_id: Some(String::from_str(value)), ..self }
    }

    /// Sets the Foursquare type of the venue.
    pub fn foursquare_type(self, value: &str) -> (r: InlineQueryResultVenue)
        ensures
            r@ == (InlineQueryResultVenueData { foursquare_type: Some(value@), ..self@ }),
    {
        InlineQueryResultVenue { foursquare_type: Some(String::from_str(value)), ..self }
    }

    /// Sets the Google Places identifier of the venue.
    pub fn google_place_id(self, value: &str) -> (r: InlineQueryResultVenue)
        ensures
            r@ == (InlineQueryResultVenueData { google_place_id: Some(value@), ..self@ }),
    {
        InlineQueryResultVenue { google_place_id: Some(String::from_str(value)), ..self }
    }

    /// Sets the Google Places type of the venue.
    pub fn google_place_type(self, value: &str) -> (r: InlineQueryResultVenue)
        ensures
            r@ == (InlineQueryResultVenueData { google_place_type: Some(value@), ..self@ }),
    {
        InlineQueryResultVenue { google_place_type: Some(String::from_str(value)), ..self }
    }

    /// Attaches an inline keyboard.
    pub fn reply_markup(self, value: InlineKeyboardMarkup) -> (r: InlineQueryResultVenue)
        ensures
            r@ == (InlineQueryResultVenueData { reply_markup: Some(value@), ..self@ }),
    {
        InlineQueryResultVenue { reply_markup: Some(value), ..self }
    }

    /// Sets the content sent instead of the venue.
    pub fn input_message_content(self, value: InputMessageContent) -> (r: InlineQueryResultVenue)
        ensures
            r@ == (InlineQueryResultVenueData { input_message_content: Some(value@), ..self@ }),
    {
        InlineQueryResultVenue { input_message_content: Some(value), ..self }
    }

    /// Sets the URL of the thumbnail.
    pub fn thumb_url(self, value: &str) -> (r: InlineQueryResultVenue)
        ensures
            r@ == (InlineQueryResultVenueData { thumb_url: Some(value@), ..self@ }),
    {
        InlineQueryResultVenue { thumb_url: Some(String::from_str(value)), ..self }
    }

    /// Sets the width of the thumbnail.
    pub fn thumb_width(self, value: Integer) -> (r: InlineQueryResultVenue)
        ensures
            r@ == (InlineQueryResultVenueData { thumb_width: Some(value as int), ..self@ }),
    {
        InlineQueryResultVenue { thumb_width: Some(value), ..self }
    }

    /// Sets the height of the thumbnail.
    pub fn thumb_height(self, value: Integer) -> (r: InlineQueryResultVenue)
        ensures
            r@ == (InlineQueryResultVenueData { thumb_height: Some(value as int), ..self@ }),
    {
        InlineQueryResultVenue { thumb_height: Some(value), ..self }
    }

    /// JSON object of the call.
    pub fn to_json(&self) -> (r: JsonValue)
        ensures
            r@ == inline_query_result_venue_json(self@),
    {
        let mut obj = JsonObject::new();
        obj.set("id", JsonValue::Str(self.id.clone()));
        obj.set("latitude", JsonValue::Dec(self.latitude));
        obj.set("longitude", JsonValue::Dec(self.longitude));
        obj.set("title", JsonValue::Str(self.title.clone()));
        obj.set("address", JsonValue::Str(self.address.clone()));
        obj.set_opt("foursquare_id", opt_str_value(&self.foursquare_id));
        obj.set_opt("foursquare_type", opt_str_value(&self.foursquare_type));
        obj.set_opt("google_place_id", opt_str_value(&self.google_place_id));
        obj.set_opt("google_place_type", opt_str_value(&self.google_place_type));
        obj.set_opt("reply_markup", opt_keyboard_value(&self.reply_markup));
        obj.set_opt("input_message_content", opt_content_value(&self.input_message_content));
        obj.set_opt("thumb_url", opt_str_value(&self.thumb_url));
        obj.set_opt("thumb_width", opt_int_value(self.thumb_width));
        obj.set_opt("thumb_height", opt_int_value(self.thumb_height));
        proof {
            assert(obj@ == inline_query_result_venue_members(self@));
        }
        obj.into_value()
    }
}

/// Link to an mp3 audio file stored on the servers.
#[derive(Clone, Debug)]
pub struct InlineQueryResultCachedAudio {
    pub id: String,
    pub audio_file_id: String,
    pub caption: Option<String>,
    pub caption_entities: Option<TextEntities>,
    pub parse_mode: Option<ParseMode>,
    pub reply_markup: Option<InlineKeyboardMarkup>,
    pub input_message_content: Option<InputMessageContent>,
}

/// Model of `InlineQueryResultCachedAudio`.
pub struct InlineQueryResultCachedAudioData {
    pub id: Seq<char>,
    pub audio_file_id: Seq<char>,
    pub caption: Option<Seq<char>>,
    pub caption_entities: Option<Seq<TextEntityData>>,
    pub parse_mode: Option<ParseMode>,
    pub reply_markup: Option<Seq<Seq<InlineKeyboardButtonData>>>,
    pub input_message_content: Option<InputMessageContentData>,
}

impl View for InlineQueryResultCachedAudio {
    type V = InlineQueryResultCachedAudioData;

    open spec fn view(&self) -> InlineQueryResultCachedAudioData {
        InlineQueryResultCachedAudioData {
            id: self.id@,
            audio_file_id: self.audio_file_id@,
            caption: view_opt_str(self.caption),
            caption_entities: view_opt_entities(self.caption_entities),
            parse_mode: self.parse_mode,
            reply_markup: view_opt_keyboard(self.reply_markup),
            input_message_content: view_opt_content(self.input_message_content),
        }
    }
}

/// Members of the JSON object, in wire order; absent options add nothing.
pub open spec fn inline_query_result_cached_audio_members(v: InlineQueryResultCachedAudioData) -> Seq<(Seq<char>, JsonData)> {
    let m = Seq::<(Seq<char>, JsonData)>::empty();
    let m = m.push(("id"@, JsonData::Str(v.id)));
    let m = m.push(("audio_file_id"@, JsonData::Str(v.audio_file_id)));
    let m = match v.caption {
        Some(x) => m.push(("caption"@, JsonData::Str(x))),
        None => m,
    };
    let m = match v.caption_entities {
        Some(x) => m.push(("caption_entities"@, entities_json(x))),
        None => m,
    };
    let m = match v.parse_mode {
        Some(x) => m.push(("parse_mode"@, JsonData::Str(x.spec_name()))),
        None => m,
    };
    let m = match v.reply_markup {
        Some(x) => m.push(("reply_markup"@, keyboard_json(x))),
        None => m,
    };
    let m = match v.input_message_content {
        Some(x) => m.push(("input_message_content"@, input_message_content_json(x))),
        None => m,
    };
    m
}

/// JSON object sent for `InlineQueryResultCachedAudio`.
pub open spec fn inline_query_result_cached_audio_json(v: InlineQueryResultCachedAudioData) -> JsonData {
    JsonData::Obj(inline_query_result_cached_audio_members(v))
}

impl InlineQueryResultCachedAudio {
    /// Creates a new `InlineQueryResultCachedAudio` with empty optional parameters.
    pub fn new(id: &str, audio_file_id: &str) -> (r: InlineQueryResultCachedAudio)
        ensures
            r@ == (InlineQueryResultCachedAudioData {
                id: id@,
                audio_file_id: audio_file_id@,
                caption: None,
                caption_entities: None,
                parse_mode: None,
                reply_markup: None,
                input_message_content: None,
            }),
    {
        InlineQueryResultCachedAudio {
            id: String::from_str(id),
            audio_file_id: String::from_str(audio_file_id),
            caption: None,
            caption_entities: None,
            parse_mode: None,
            reply_markup: None,
            input_message_content: None,
        }
    }

    /// Sets the caption of the audio.
    pub fn caption(self, value: &str) -> (r: InlineQueryResultCachedAudio)
        ensures
            r@ == (InlineQueryResultCachedAudioData { caption: Some(value@), ..self@ }),
    {
        InlineQueryResultCachedAudio { caption: Some(String::from_str(value)), ..self }
    }

    /// Sets the entities of the caption; the parse mode is cleared.
    pub fn caption_entities(self, value: Vec<TextEntity>) -> (r: InlineQueryResultCachedAudio)
        ensures
            r@ == (InlineQueryResultCachedAudioData { caption_entities: Some(entities_data(value@)), parse_mode: None, ..self@ }),
    {
        InlineQueryResultCachedAudio { caption_entities: Some(TextEntities::from_vec(value)),parse_mode: None, ..self }
    }

    /// Sets the parse mode; caption entities are cleared.
    pub fn parse_mode(self, value: ParseMode) -> (r: InlineQueryResultCachedAudio)
        ensures
            r@ == (InlineQueryResultCachedAudioData { parse_mode: Some(value), caption_entities: None, ..self@ }),
    {
        InlineQueryResultCachedAudio { parse_mode: Some(value),caption_entities: None, ..self }
    }

    /// Attaches an inline keyboard.
    pub fn reply_markup(self, value: InlineKeyboardMarkup) -> (r: InlineQueryResultCachedAudio)
        ensures
            r@ == (InlineQueryResultCachedAudioData { reply_markup: Some(value@), ..self@ }),
    {
        InlineQueryResultCachedAudio { reply_markup: Some(value), ..self }
    }

    /// Sets the content sent instead of the audio.
    pub fn input_message_content(self, value: InputMessageContent) -> (r: InlineQueryResultCachedAudio)
        ensures
            r@ == (InlineQueryResultCachedAudioData { input_message_content: Some(value@), ..self@ }),
    {
        InlineQueryResultCachedAudio { input_message_content: Some(value), ..self }
    }

    /// JSON object of the call.
    pub fn to_json(&self) -> (r: JsonValue)
        ensures
            r@ == inline_query_result_cached_audio_json(self@),
    {
        let mut obj = JsonObject::new();
        obj.set("id", JsonValue::Str(self.id.clone()));
        obj.set("audio_file_id", JsonValue::Str(self.audio_file_id.clone()));
        obj.set_opt("caption", opt_str_value(&self.caption));
        obj.set_opt("caption_entities", opt_entities_value(&self.caption_entities));
        obj.set_opt("parse_mode", opt_parse_mode_value(&self.parse_mode));
        obj.set_opt("reply_markup", opt_keyboard_value(&self.reply_markup));
        obj.set_opt("input_message_content", opt_content_value(&self.input_message_content));
        proof {
            assert(obj@ == inline_query_result_cached_audio_members(self@));
        }
        obj.into_value()
    }
}

/// Link to a voice message stored on the servers.
#[derive(Clone, Debug)]
pub struct InlineQueryResultCachedVoice {
    pub id: String,
    pub voice_file_id: String,
    pub title: String,
    pub caption: Option<String>,
    pub caption_entities: Option<TextEntities>,
    pub parse_mode: Option<ParseMode>,
    pub reply_markup: Option<InlineKeyboardMarkup>,
    pub input_message_content: Option<InputMessageContent>,
}

/// Model of `InlineQueryResultCachedVoice`.
pub struct InlineQueryResultCachedVoiceData {
    pub id: Seq<char>,
    pub voice_file_id: Seq<char>,
    pub title: Seq<char>,
    pub caption: Option<Seq<char>>,
    pub caption_entities: Option<Seq<TextEntityData>>,
    pub parse_mode: Option<ParseMode>,
    pub reply_markup: Option<Seq<Seq<InlineKeyboardButtonData>>>,
    pub input_message_content: Option<InputMessageContentData>,
}

impl View for InlineQueryResultCachedVoice {
    type V = InlineQueryResultCachedVoiceData;

    open spec fn view(&self) -> InlineQueryResultCachedVoiceData {
        InlineQueryResultCachedVoiceData {
            id: self.id@,
            voice_file_id: self.voice_file_id@,
            title: self.title@,
            caption: view_opt_str(self.caption),
            caption_entities: view_opt_entities(self.caption_entities),
            parse_mode: self.parse_mode,
            reply_markup: view_opt_keyboard(self.reply_markup),
            input_message_content: view_opt_content(self.input_message_content),
        }
    }
}

/// Members of the JSON object, in wire order; absent options add nothing.
pub open spec fn inline_query_result_cached_voice_members(v: InlineQueryResultCachedVoiceData) -> Seq<(Seq<char>, JsonData)> {
    let m = Seq::<(Seq<char>, JsonData)>::empty();
    let m = m.push(("id"@, JsonData::Str(v.id)));
    let m = m.push(("voice_file_id"@, JsonData::Str(v.voice_file_id)));
    let m = m.push(("title"@, JsonData::Str(v.title)));
    let m = match v.caption {
        Some(x) => m.push(("caption"@, JsonData::Str(x))),
        None => m,
    };
    let m = match v.caption_entities {
        Some(x) => m.push(("caption_entities"@, entities_json(x))),
        None => m,
    };
    let m = match v.parse_mode {
        Some(x) => m.push(("parse_mode"@, JsonData::Str(x.spec_name()))),
        None => m,
    };
    let m = match v.reply_markup {
        Some(x) => m.push(("reply_markup"@, keyboard_json(x))),
        None => m,
    };
    let m = match v.input_message_content {
        Some(x) => m.push(("input_message_content"@, input_message_content_json(x))),
        None => m,
    };
    m
}

/// JSON object sent for `InlineQueryResultCachedVoice`.
pub open spec fn inline_query_result_cached_voice_json(v: InlineQueryResultCachedVoiceData) -> JsonData {
    JsonData::Obj(inline_query_result_cached_voice_members(v))
}

impl InlineQueryResultCachedVoice {
    /// Creates a new `InlineQueryResultCachedVoice` with empty optional parameters.
    pub fn new(id: &str, voice_file_id: &str, title: &str) -> (r: InlineQueryResultCachedVoice)
        ensures
            r@ == (InlineQueryResultCachedVoiceData {
                id: id@,
                voice_file_id: voice_file_id@,
                title: title@,
                caption: None,
                caption_entities: None,
                parse_mode: None,
                reply_markup: None,
                input_message_content: None,
            }),
    {
        InlineQueryResultCachedVoice {
            id: String::from_str(id),
            voice_file_id: String::from_str(voice_file_id),
            title: String::from_str(title),
            caption: None,
            caption_entities: None,
            parse_mode: None,
            reply_markup: None,
            input_message_content: None,
        }
    }

    /// Sets the caption of the voice message.
    pub fn caption(self, value: &str) -> (r: InlineQueryResultCachedVoice)
        ensures
            r@ == (InlineQueryResultCachedVoiceData { caption: Some(value@), ..self@ }),
    {
        InlineQueryResultCachedVoice { caption: Some(String::from_str(value)), ..self }
    }

    /// Sets the entities of the caption; the parse mode is cleared.
    pub fn caption_entities(self, value: Vec<TextEntity>) -> (r: InlineQueryResultCachedVoice)
        ensures
            r@ == (InlineQueryResultCachedVoiceData { caption_entities: Some(entities_data(value@)), parse_mode: None, ..self@ }),
    {
        InlineQueryResultCachedVoice { caption_entities: Some(TextEntities::from_vec(value)),parse_mode: None, ..self }
    }

    /// Sets the parse mode; caption entities are cleared.
    pub fn parse_mode(self, value: ParseMode) -> (r: InlineQueryResultCachedVoice)
        ensures
            r@ == (InlineQueryResultCachedVoiceData { parse_mode: Some(value), caption_entities: None, ..self@ }),
    {
        InlineQueryResultCachedVoice { parse_mode: Some(value),caption_entities: None, ..self }
    }

    /// Attaches an inline keyboard.
    pub fn reply_markup(self, value: InlineKeyboardMarkup) -> (r: InlineQueryResultCachedVoice)
        ensures
            r@ == (InlineQueryResultCachedVoiceData { reply_markup: Some(value@), ..self@ }),
    {
        InlineQueryResultCachedVoice { reply_markup: Some(value), ..self }
    }

    /// Sets the content sent instead of the voice message.
    pub fn input_message_content(self, value: InputMessageContent) -> (r: InlineQueryResultCachedVoice)
        ensures
            r@ == (InlineQueryResultCachedVoiceData { input_message_content: Some(value@), ..self@ }),
    {
        InlineQueryResultCachedVoice { input_message_content: Some(value), ..self }
    }

    /// JSON object of the call.
    pub fn to_json(&self) -> (r: JsonValue)
        ensures
            r@ == inline_query_result_cached_voice_json(self@),
    {
        let mut obj = JsonObject::new();
        obj.set("id", JsonValue::Str(self.id.clone()));
        obj.set("voice_file_id", JsonValue::Str(self.voice_file_id.clone()));
        obj.set("title", JsonValue::Str(self.title.clone()));
        obj.set_opt("caption", opt_str_value(&self.caption));
        obj.set_opt("caption_entities", opt_entities_value(&self.caption_entities));
        obj.set_opt("parse_mode", opt_parse_mode_value(&self.parse_mode));
        obj.set_opt("reply_markup", opt_keyboard_value(&self.reply_markup));
        obj.set_opt("input_message_content", opt_content_value(&self.input_message_content));
        proof {
            assert(obj@ == inline_query_result_cached_voice_members(self@));
        }
        obj.into_value()
    }
}

/// Link to a video file stored on the servers.
#[derive(Clone, Debug)]
pub struct InlineQueryResultCachedVideo {
    pub id: String,
    pub video_file_id: String,
    pub title: String,
    pub description: Option<String>,
    pub caption: Option<String>,
    pub caption_entities: Option<TextEntities>,
    pub parse_mode: Option<ParseMode>,
    pub reply_markup: Option<InlineKeyboardMarkup>,
    pub input_message_content: Option<InputMessageContent>,
}

/// Model of `InlineQueryResultCachedVideo`.
pub struct InlineQueryResultCachedVideoData {
    pub id: Seq<char>,
    pub video_file_id: Seq<char>,
    pub title: Seq<char>,
    pub description: Option<Seq<char>>,
    pub caption: Option<Seq<char>>,
    pub caption_entities: Option<Seq<TextEntityData>>,
    pub parse_mode: Option<ParseMode>,
    pub reply_markup: Option<Seq<Seq<InlineKeyboardButtonData>>>,
    pub input_message_content: Option<InputMessageContentData>,
}

impl View for InlineQueryResultCachedVideo {
    type V = InlineQueryResultCachedVideoData;

    open spec fn view(&self) -> InlineQueryResultCachedVideoData {
        InlineQueryResultCachedVideoData {
            id: self.id@,
            video_file_id: self.video_file_id@,
            title: self.title@,
            description: view_opt_str(self.description),
            caption: view_opt_str(self.caption),
            caption_entities: view_opt_entities(self.caption_entities),
            parse_mode: self.parse_mode,
            reply_markup: view_opt_keyboard(self.reply_markup),
            input_message_content: view_opt_content(self.input_message_content),
        }
    }
}

/// Members of the JSON object, in wire order; absent options add nothing.
pub open spec fn inline_query_result_cached_video_members(v: InlineQueryResultCachedVideoData) -> Seq<(Seq<char>, JsonData)> {
    let m = Seq::<(Seq<char>, JsonData)>::empty();
    let m = m.push(("id"@, JsonData::Str(v.id)));
    let m = m.push(("video_file_id"@, JsonData::Str(v.video_file_id)));
    let m = m.push(("title"@, JsonData::Str(v.title)));
    let m = match v.description {
        Some(x) => m.push(("description"@, JsonData::Str(x))),
        None => m,
    };
    let m = match v.caption {
        Some(x) => m.push(("caption"@, JsonData::Str(x))),
        None => m,
    };
    let m = match v.caption_entities {
        Some(x) => m.push(("caption_entities"@, entities_json(x))),
        None => m,
    };
    let m = match v.parse_mode {
        Some(x) => m.push(("parse_mode"@, JsonData::Str(x.spec_name()))),
        None => m,
    };
    let m = match v.reply_markup {
        Some(x) => m.push(("reply_markup"@, keyboard_json(x))),
        None => m,
    };
    let m = match v.input_message_content {
        Some(x) => m.push(("input_message_content"@, input_message_content_json(x))),
        None => m,
    };
    m
}

/// JSON object sent for `InlineQueryResultCachedVideo`.
pub open spec fn inline_query_result_cached_video_json(v: InlineQueryResultCachedVideoData) -> JsonData {
    JsonData::Obj(inline_query_result_cached_video_members(v))
}

impl InlineQueryResultCachedVideo {
    /// Creates a new `InlineQueryResultCachedVideo` with empty optional parameters.
    pub fn new(id: &str, video_file_id: &str, title: &str) -> (r: InlineQueryResultCachedVideo)
        ensures
            r@ == (InlineQueryResultCachedVideoData {
                id: id@,
                video_file_id: video_file_id@,
                title: title@,
                description: None,
                caption: None,
                caption_entities: None,
                parse_mode: None,
                reply_markup: None,
                input_message_content: None,
            }),
    {
        InlineQueryResultCachedVideo {
            id: String::from_str(id),
            video_file_id: String::from_str(video_file_id),
            title: String::from_str(title),
            description: None,
            caption: None,
            caption_entities: None,
            parse_mode: None,
            reply_markup: None,
            input_message_content: None,
        }
    }

    /// Sets a short description of the result.
    pub fn description(self, value: &str) -> (r: InlineQueryResultCachedVideo)
        ensures
            r@ == (InlineQueryResultCachedVideoData { description: Some(value@), ..self@ }),
    {
        InlineQueryResultCachedVideo { description: Some(String::from_str(value)), ..self }
    }

    /// Sets the caption of the video.
    pub fn caption(self, value: &str) -> (r: InlineQueryResultCachedVideo)
        ensures
            r@ == (InlineQueryResultCachedVideoData { caption: Some(value@), ..self@ }),
    {
        InlineQueryResultCachedVideo { caption: Some(String::from_str(value)), ..self }
    }

    /// Sets the entities of the caption; the parse mode is cleared.
    pub fn caption_entities(self, value: Vec<TextEntity>) -> (r: InlineQueryResultCachedVideo)
        ensures
            r@ == (InlineQueryResultCachedVideoData { caption_entities: Some(entities_data(value@)), parse_mode: None, ..self@ }),
    {
        InlineQueryResultCachedVideo { caption_entities: Some(TextEntities::from_vec(value)),parse_mode: None, ..self }
    }

    /// Sets the parse mode; caption entities are cleared.
    pub fn parse_mode(self, value: ParseMode) -> (r: InlineQueryResultCachedVideo)
        ensures
            r@ == (InlineQueryResultCachedVideoData { parse_mode: Some(value), caption_entities: None, ..self@ }),
    {
        InlineQueryResultCachedVideo { parse_mode: Some(value),caption_entities: None, ..self }
    }

    /// Attaches an inline keyboard.
    pub fn reply_markup(self, value: InlineKeyboardMarkup) -> (r: InlineQueryResultCachedVideo)
        ensures
            r@ == (InlineQueryResultCachedVideoData { reply_markup: Some(value@), ..self@ }),
    {
        InlineQueryResultCachedVideo { reply_markup: Some(value), ..self }
    }

    /// Sets the content sent instead of the video.
    pub fn input_message_content(self, value: InputMessageContent) -> (r: InlineQueryResultCachedVideo)
        ensures
            r@ == (InlineQueryResultCachedVideoData { input_message_content: Some(value@), ..self@ }),
    {
        InlineQueryResultCachedVideo { input_message_content: Some(value), ..self }
    }

    /// JSON object of the call.
    pub fn to_json(&self) -> (r: JsonValue)
        ensures
            r@ == inline_query_result_cached_video_json(self@),
    {
        let mut obj = JsonObject::new();
        obj.set("id", JsonValue::Str(self.id.clone()));
        obj.set("video_file_id", JsonValue::Str(self.video_file_id.clone()));
        obj.set("title", JsonValue::Str(self.title.clone()));
        obj.set_opt("description", opt_str_value(&self.description));
        obj.set_opt("caption", opt_str_value(&self.caption));
        obj.set_opt("caption_entities", opt_entities_value(&self.caption_entities));
        obj.set_opt("parse_mode", opt_parse_mode_value(&self.parse_mode));
        obj.set_opt("reply_markup", opt_keyboard_value(&self.reply_markup));
        obj.set_opt("input_message_content", opt_content_value(&self.input_message_content));
        proof {
            assert(obj@ == inline_query_result_cached_video_members(self@));
        }
        obj.into_value()
    }
}

/// Link to a video animation stored on the servers.
#[derive(Clone, Debug)]
pub struct InlineQueryResultCachedMpeg4Gif {
    pub id: String,
    pub mpeg4_file_id: String,
    pub title: Option<String>,
    pub caption: Option<String>,
    pub caption_entities: Option<TextEntities>,
    pub parse_mode: Option<ParseMode>,
    pub reply_markup: Option<InlineKeyboardMarkup>,
    pub input_message_content: Option<InputMessageContent>,
}

/// Model of `InlineQueryResultCachedMpeg4Gif`.
pub struct InlineQueryResultCachedMpeg4GifData {
    pub id: Seq<char>,
    pub mpeg4_file_id: Seq<char>,
    pub title: Option<Seq<char>>,
    pub caption: Option<Seq<char>>,
    pub caption_entities: Option<Seq<TextEntityData>>,
    pub parse_mode: Option<ParseMode>,
    pub reply_markup: Option<Seq<Seq<InlineKeyboardButtonData>>>,
    pub input_message_content: Option<InputMessageContentData>,
}

impl View for InlineQueryResultCachedMpeg4Gif {
    type V = InlineQueryResultCachedMpeg4GifData;

    open spec fn view(&self) -> InlineQueryResultCachedMpeg4GifData {
        InlineQueryResultCachedMpeg4GifData {
            id: self.id@,
            mpeg4_file_id: self.mpeg4_file_id@,
            title: view_opt_str(self.title),
            caption: view_opt_str(self.caption),
            caption_entities: view_opt_entities(self.caption_entities),
            parse_mode: self.parse_mode,
            reply_markup: view_opt_keyboard(self.reply_markup),
            input_message_content: view_opt_content(self.input_message_content),
        }
    }
}

/// Members of the JSON object, in wire order; absent options add nothing.
pub open spec fn inline_query_result_cached_mpeg4_gif_members(v: InlineQueryResultCachedMpeg4GifData) -> Seq<(Seq<char>, JsonData)> {
    let m = Seq::<(Seq<char>, JsonData)>::empty();
    let m = m.push(("id"@, JsonData::Str(v.id)));
    let m = m.push(("mpeg4_file_id"@, JsonData::Str(v.mpeg4_file_id)));
    let m = match v.title {
        Some(x) => m.push(("title"@, JsonData::Str(x))),
        None => m,
    };
    let m = match v.caption {
        Some(x) => m.push(("caption"@, JsonData::Str(x))),
        None => m,
    };
    let m = match v.caption_entities {
        Some(x) => m.push(("caption_entities"@, entities_json(x))),
        None => m,
    };
    let m = match v.parse_mode {
        Some(x) => m.push(("parse_mode"@, JsonData::Str(x.spec_name()))),
        None => m,
    };
    let m = match v.reply_markup {
        Some(x) => m.push(("reply_markup"@, keyboard_json(x))),
        None => m,
    };
    let m = match v.input_message_content {
        Some(x) => m.push(("input_message_content"@, input_message_content_json(x))),
        None => m,
    };
    m
}

/// JSON object sent for `InlineQueryResultCachedMpeg4Gif`.
pub open spec fn inline_query_result_cached_mpeg4_gif_json(v: InlineQueryResultCachedMpeg4GifData) -> JsonData {
    JsonData::Obj(inline_query_result_cached_mpeg4_gif_members(v))
}

impl InlineQueryResultCachedMpeg4Gif {
    /// Creates a new `InlineQueryResultCachedMpeg4Gif` with empty optional parameters.
    pub fn new(id: &str, mpeg4_file_id: &str) -> (r: InlineQueryResultCachedMpeg4Gif)
        ensures
            r@ == (InlineQueryResultCachedMpeg4GifData {
                id: id@,
                mpeg4_file_id: mpeg4_file_id@,
                title: None,
                caption: None,
                caption_entities: None,
                parse_mode: None,
                reply_markup: None,
                input_message_content: None,
            }),
    {
        InlineQueryResultCachedMpeg4Gif {
            id: String::from_str(id),
            mpeg4_file_id: String::from_str(mpeg4_file_id),
            title: None,
            caption: None,
            caption_entities: None,
            parse_mode: None,
            reply_markup: None,
            input_message_content: None,
        }
    }

    /// Sets the title of the result.
    pub fn title(self, value: &str) -> (r: InlineQueryResultCachedMpeg4Gif)
        ensures
            r@ == (InlineQueryResultCachedMpeg4GifData { title: Some(value@), ..self@ }),
    {
        InlineQueryResultCachedMpeg4Gif { title: Some(String::from_str(value)), ..self }
    }

    /// Sets the caption of the animation.
    pub fn caption(self, value: &str) -> (r: InlineQueryResultCachedMpeg4Gif)
        ensures
            r@ == (InlineQueryResultCachedMpeg4GifData { caption: Some(value@), ..self@ }),
    {
        InlineQueryResultCachedMpeg4Gif { caption: Some(String::from_str(value)), ..self }
    }

    /// Sets the entities of the caption; the parse mode is cleared.
    pub fn caption_entities(self, value: Vec<TextEntity>) -> (r: InlineQueryResultCachedMpeg4Gif)
        ensures
            r@ == (InlineQueryResultCachedMpeg4GifData { caption_entities: Some(entities_data(value@)), parse_mode: None, ..self@ }),
    {
        InlineQueryResultCachedMpeg4Gif { caption_entities: Some(TextEntities::from_vec(value)),parse_mode: None, ..self }
    }

    /// Sets the parse mode; caption entities are cleared.
    pub fn parse_mode(self, value: ParseMode) -> (r: InlineQueryResultCachedMpeg4Gif)
        ensures
            r@ == (InlineQueryResultCachedMpeg4GifData { parse_mode: Some(value), caption_entities: None, ..self@ }),
    {
        InlineQueryResultCachedMpeg4Gif { parse_mode: Some(value),caption_entities: None, ..self }
    }

    /// Attaches an inline keyboard.
    pub fn reply_markup(self, value: InlineKeyboardMarkup) -> (r: InlineQueryResultCachedMpeg4Gif)
        ensures
            r@ == (InlineQueryResultCachedMpeg4GifData { reply_markup: Some(value@), ..self@ }),
    {
        InlineQueryResultCachedMpeg4Gif { reply_markup: Some(value), ..self }
    }

    /// Sets the content sent instead of the animation.
    pub fn input_message_content(self, value: InputMessageContent) -> (r: InlineQueryResultCachedMpeg4Gif)
        ensures
            r@ == (InlineQueryResultCachedMpeg4GifData { input_message_content: Some(value@), ..self@ }),
    {
        InlineQueryResultCachedMpeg4Gif { input_message_content: Some(value), ..self }
    }

    /// JSON object of the call.
    pub fn to_json(&self) -> (r: JsonValue)
        ensures
            r@ == inline_query_result_cached_mpeg4_gif_json(self@),
    {
        let mut obj = JsonObject::new();
        obj.set("id", JsonValue::Str(self.id.clone()));
        obj.set("mpeg4_file_id", JsonValue::Str(self.mpeg4_file_id.clone()));
        obj.set_opt("title", opt_str_value(&self.title));
        obj.set_opt("caption", opt_str_value(&self.caption));
        obj.set_opt("caption_entities", opt_entities_value(&self.caption_entities));
        obj.set_opt("parse_mode", opt_parse_mode_value(&self.parse_mode));
        obj.set_opt("reply_markup", opt_keyboard_value(&self.reply_markup));
        obj.set_opt("input_message_content", opt_content_value(&self.input_message_content));
        proof {
            assert(obj@ == inline_query_result_cached_mpeg4_gif_members(self@));
        }
        obj.into_value()
    }
}


/// Wire form of an inline query result: the tag, the identifier and every
/// result member left optional.
#[derive(Clone, Debug)]
pub struct RawInlineQueryResult {
    pub id: String,
    pub kind: RawInlineQueryResultKind,
    pub data: RawInlineQueryResultData,
}

/// Tag of a raw inline query result.
#[derive(Clone, Copy, Debug, PartialEq, Eq, Structural)]
pub enum RawInlineQueryResultKind {
    Article,
}

/// Members of a raw inline query result that an article may carry.
#[derive(Clone, Debug)]
pub struct RawInlineQueryResultData {
    pub title: Option<String>,
    pub input_message_content: Option<InputMessageContent>,
    pub reply_markup: Option<InlineKeyboardMarkup>,
    pub url: Option<String>,
    pub hide_url: Option<bool>,
    pub description: Option<String>,
    pub thumb_url: Option<String>,
    pub thumb_width: Option<Integer>,
    pub thumb_height: Option<Integer>,
}

/// An error when reading a typed result out of its raw form.
#[derive(Clone, Copy, Debug, PartialEq, Eq, Structural)]
pub enum RawInlineQueryResultDataError {
    /// A member that the result kind requires is missing; the name tells which.
    MissingTitle,
    MissingContent,
}

impl InlineQueryResultArticle {
    /// Reads an article out of its raw form; fails when the title or the
    /// content is missing.
    pub fn from_raw(value: RawInlineQueryResult) -> (r: Result<
        InlineQueryResultArticle,
        RawInlineQueryResultDataError,
    >)
        ensures
            value.data.title is None ==> r == Err::<InlineQueryResultArticle, RawInlineQueryResultDataError>(
                RawInlineQueryResultDataError::MissingTitle,
            ),
            value.data.title is Some && value.data.input_message_content is None ==> r == Err::<
                InlineQueryResultArticle,
                RawInlineQueryResultDataError,
            >(RawInlineQueryResultDataError::MissingContent),
            value.data.title is Some && value.data.input_message_content is Some ==> (r matches Ok(a)
                && a@ == (InlineQueryResultArticleData {
                    id: value.id@,
                    title: value.data.title->0@,
                    input_message_content: value.data.input_message_content->0@,
                    reply_markup: view_opt_keyboard(value.data.reply_markup),
                    url: view_opt_str(value.data.url),
                    hide_url: value.data.hide_url,
                    description: view_opt_str(value.data.description),
                    thumb_url: view_opt_str(value.data.thumb_url),
                    thumb_width: view_opt_int(value.data.thumb_width),
                    thumb_height: view_opt_int(value.data.thumb_height),
                })),
    {
        let title = match value.data.title {
            Some(t) => t,
            None => {
                return Err(RawInlineQueryResultDataError::MissingTitle);
            }
        };
        let content = match value.data.input_message_content {
            Some(c) => c,
            None => {
                return Err(RawInlineQueryResultDataError::MissingContent);
            }
        };
        Ok(InlineQueryResultArticle {
            id: value.id,
            title,
            input_message_content: content,
            reply_markup: value.data.reply_markup,
            url: value.data.url,
            hide_url: value.data.hide_url,
            description: value.data.description,
            thumb_url: value.data.thumb_url,
            thumb_width: value.data.thumb_width,
            thumb_height: value.data.thumb_height,
        })
    }
}

impl RawInlineQueryResult {
    /// Flattens an article into its raw form.
    pub fn from_article(value: InlineQueryResultArticle) -> (r: RawInlineQueryResult)
        ensures
            r.kind == RawInlineQueryResultKind::Article,
            r.id@ == value@.id,
            r.data.title matches Some(t) && t@ == value@.title,
            r.data.input_message_content matches Some(c) && c@ == value@.input_message_content,
            view_opt_keyboard(r.data.reply_markup) == value@.reply_markup,
            view_opt_str(r.data.url) == value@.url,
            r.data.hide_url == value@.hide_url,
            view_opt_str(r.data.description) == value@.description,
            view_opt_str(r.data.thumb_url) == value@.thumb_url,
            view_opt_int(r.data.thumb_width) == value@.thumb_width,
            view_opt_int(r.data.thumb_height) == value@.thumb_height,
    {
        RawInlineQueryResult {
            id: value.id,
            kind: RawInlineQueryResultKind::Article,
            data: RawInlineQueryResultData {
                title: Some(value.title),
                input_message_content: Some(value.input_message_content),
                reply_markup: value.reply_markup,
                url: value.url,
                hide_url: value.hide_url,
                description: value.description,
                thumb_url: value.thumb_url,
                thumb_width: value.thumb_width,
                thumb_height: value.thumb_height,
            },
        }
    }
}

} // verus!
