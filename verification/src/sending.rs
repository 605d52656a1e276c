use vstd::prelude::*;

verus! {

use crate::api::{
    form_without, Form, FormValue, FormValueData, InputFile, Payload, Request, RequestBody,
    RequestMethod,
};
use crate::Integer;
use crate::json::{bool_to_string, int_chars, int_to_string, json_text, JsonData};
use crate::markup::{reply_markup_json, ReplyMarkup, ReplyMarkupError};
use crate::primitive::{chat_id_chars, ChatId, ParseMode};
use crate::text::{
    entities_data, entities_json, serialize_text_entities, TextEntity, TextEntityError,
};

/// The form fields after writing `name = value`: any earlier field of that
/// name is gone and the new field stands last.
pub open spec fn form_set(
    s: Seq<(Seq<char>, FormValueData)>,
    name: Seq<char>,
    value: FormValueData,
) -> Seq<(Seq<char>, FormValueData)> {
    form_without(s, name).push((name, value))
}

/// Text of a boolean form field.
pub open spec fn bool_chars(b: bool) -> Seq<char> {
    json_text(JsonData::Bool(b))
}

/// Sends an audio file, to be shown as a playable track.
#[derive(Debug)]
pub struct SendAudio {
    pub form: Form,
}

impl SendAudio {
    /// Creates a new `SendAudio` with empty optional parameters.
    pub fn new(chat_id: ChatId, audio: InputFile) -> (r: SendAudio)
        ensures
            r.form@ == form_set(
                form_set(
                    Seq::<(Seq<char>, FormValueData)>::empty(),
                    "chat_id"@,
                    FormValueData::Text(chat_id_chars(chat_id@)),
                ),
                "audio"@,
                FormValueData::File(audio@),
            ),
    {
        let mut form = Form::new();
        form.insert_field("chat_id", FormValue::Text(chat_id.to_form_text()));
        form.insert_field("audio", FormValue::File(audio));
        SendAudio { form }
    }

    /// Sets the caption of the audio.
    pub fn caption(self, value: &str) -> (r: SendAudio)
        ensures
            r.form@ == form_set(self.form@, "caption"@, FormValueData::Text(value@)),
    {
        let mut form = self.form;
        form.insert_field("caption", FormValue::text(value));
        SendAudio { form }
    }

    /// Sets the entities of the caption; the parse mode is cleared.
    pub fn caption_entities(self, value: &[TextEntity]) -> (r: Result<SendAudio, TextEntityError>)
        ensures
            r matches Ok(m) && m.form@ == form_without(
                form_set(
                    self.form@,
                    "caption_entities"@,
                    FormValueData::Text(json_text(entities_json(entities_data(value@)))),
                ),
                "parse_mode"@,
            ),
    {
        let rendered = match serialize_text_entities(value) {
            Ok(s) => s,
            Err(e) => {
                return Err(e);
            }
        };
        let mut form = self.form;
        form.insert_field("caption_entities", FormValue::Text(rendered));
        form.remove_field("parse_mode");
        Ok(SendAudio { form })
    }

    /// Sets the parse mode; caption entities are cleared.
    pub fn parse_mode(self, value: ParseMode) -> (r: SendAudio)
        ensures
            r.form@ == form_without(
                form_set(self.form@, "parse_mode"@, FormValueData::Text(value.spec_name())),
                "caption_entities"@,
            ),
    {
        let mut form = self.form;
        form.insert_field("parse_mode", FormValue::text(value.as_str()));
        form.remove_field("caption_entities");
        SendAudio { form }
    }

    /// Sets the duration of the audio in seconds.
    pub fn duration(self, value: Integer) -> (r: SendAudio)
        ensures
            r.form@ == form_set(self.form@, "duration"@, FormValueData::Text(int_chars(value as int))),
    {
        let mut form = self.form;
        form.insert_field("duration", FormValue::Text(int_to_string(value)));
        SendAudio { form }
    }

    /// Sets the performer of the audio.
    pub fn performer(self, value: &str) -> (r: SendAudio)
        ensures
            r.form@ == form_set(self.form@, "performer"@, FormValueData::Text(value@)),
    {
        let mut form = self.form;
        form.insert_field("performer", FormValue::text(value));
        SendAudio { form }
    }

    /// Sets the track name.
    pub fn title(self, value: &str) -> (r: SendAudio)
        ensures
            r.form@ == form_set(self.form@, "title"@, FormValueData::Text(value@)),
    {
        let mut form = self.form;
        form.insert_field("title", FormValue::text(value));
        SendAudio { form }
    }

    /// Sets the thumbnail of the file.
    pub fn thumb(self, value: InputFile) -> (r: SendAudio)
        ensures
            r.form@ == form_set(self.form@, "thumb"@, FormValueData::File(value@)),
    {
        let mut form = self.form;
        form.insert_field("thumb", FormValue::File(value));
        SendAudio { form }
    }

    /// Sends the message silently.
    pub fn disable_notification(self, value: bool) -> (r: SendAudio)
        ensures
            r.form@ == form_set(self.form@, "disable_notification"@, FormValueData::Text(bool_chars(value))),
    {
        let mut form = self.form;
        form.insert_field("disable_notification", FormValue::Text(bool_to_string(value)));
        SendAudio { form }
    }

    /// Protects the contents of the sent message from forwarding and saving.
    pub fn protect_content(self, value: bool) -> (r: SendAudio)
        ensures
            r.form@ == form_set(self.form@, "protect_content"@, FormValueData::Text(bool_chars(value))),
    {
        let mut form = self.form;
        form.insert_field("protect_content", FormValue::Text(bool_to_string(value)));
        SendAudio { form }
    }

    /// Marks the message as a reply to the given message.
    pub fn reply_to_message_id(self, value: Integer) -> (r: SendAudio)
        ensures
            r.form@ == form_set(
                self.form@,
                "reply_to_message_id"@,
                FormValueData::Text(int_chars(value as int)),
            ),
    {
        let mut form = self.form;
        form.insert_field("reply_to_message_id", FormValue::Text(int_to_string(value)));
        SendAudio { form }
    }

    /// Sends the message even if the replied-to message is not found.
    pub fn allow_sending_without_reply(self, value: bool) -> (r: SendAudio)
        ensures
            r.form@ == form_set(
                self.form@,
                "allow_sending_without_reply"@,
                FormValueData::Text(bool_chars(value)),
            ),
    {
        let mut form = self.form;
        form.insert_field("allow_sending_without_reply", FormValue::Text(bool_to_string(value)));
        SendAudio { form }
    }

    /// Attaches additional interface options.
    pub fn reply_markup(self, value: ReplyMarkup) -> (r: Result<SendAudio, ReplyMarkupError>)
        ensures
            r matches Ok(m) && m.form@ == form_set(
                self.form@,
                "reply_markup"@,
                FormValueData::Text(json_text(reply_markup_json(value@))),
            ),
    {
        let rendered = match value.serialize() {
            Ok(s) => s,
            Err(e) => {
                return Err(e);
            }
        };
        let mut form = self.form;
        form.insert_field("reply_markup", FormValue::Text(rendered));
        Ok(SendAudio { form })
    }

    /// The request of the call: POST `sendAudio` with the form.
    pub fn into_request(self) -> (r: Request)
        ensures
            r.http_method == RequestMethod::Post,
            r.name@ == "sendAudio"@,
            r.body matches RequestBody::Form(f) && f@ == self.form@,
    {
        Request::form("sendAudio", self.form)
    }
}

/// Sends a rounded square video message of up to one minute.
#[derive(Debug)]
pub struct SendVideoNote {
    pub form: Form,
}

impl SendVideoNote {
    /// Creates a new `SendVideoNote` with empty optional parameters.
    pub fn new(chat_id: ChatId, video_note: InputFile) -> (r: SendVideoNote)
        ensures
            r.form@ == form_set(
                form_set(
                    Seq::<(Seq<char>, FormValueData)>::empty(),
                    "chat_id"@,
                    FormValueData::Text(chat_id_chars(chat_id@)),
                ),
                "video_note"@,
                FormValueData::File(video_note@),
            ),
    {
        let mut form = Form::new();
        form.insert_field("chat_id", FormValue::Text(chat_id.to_form_text()));
        form.insert_field("video_note", FormValue::File(video_note));
        SendVideoNote { form }
    }

    /// Sets the duration of the video in seconds.
    pub fn duration(self, value: Integer) -> (r: SendVideoNote)
        ensures
            r.form@ == form_set(self.form@, "duration"@, FormValueData::Text(int_chars(value as int))),
    {
        let mut form = self.form;
        form.insert_field("duration", FormValue::Text(int_to_string(value)));
        SendVideoNote { form }
    }

    /// Sets the diameter of the video message.
    pub fn length(self, value: Integer) -> (r: SendVideoNote)
        ensures
            r.form@ == form_set(self.form@, "length"@, FormValueData::Text(int_chars(value as int))),
    {
        let mut form = self.form;
        form.insert_field("length", FormValue::Text(int_to_string(value)));
        SendVideoNote { form }
    }

    /// Sets the thumbnail of the file.
    pub fn thumb(self, value: InputFile) -> (r: SendVideoNote)
        ensures
            r.form@ == form_set(self.form@, "thumb"@, FormValueData::File(value@)),
    {
        let mut form = self.form;
        form.insert_field("thumb", FormValue::File(value));
        SendVideoNote { form }
    }

    /// Sends the message silently.
    pub fn disable_notification(self, value: bool) -> (r: SendVideoNote)
        ensures
            r.form@ == form_set(self.form@, "disable_notification"@, FormValueData::Text(bool_chars(value))),
    {
        let mut form = self.form;
        form.insert_field("disable_notification", FormValue::Text(bool_to_string(value)));
        SendVideoNote { form }
    }

    /// Protects the contents of the sent message from forwarding and saving.
    pub fn protect_content(self, value: bool) -> (r: SendVideoNote)
        ensures
            r.form@ == form_set(self.form@, "protect_content"@, FormValueData::Text(bool_chars(value))),
    {
        let mut form = self.form;
        form.insert_field("protect_content", FormValue::Text(bool_to_string(value)));
        SendVideoNote { form }
    }

    /// Marks the message as a reply to the given message.
    pub fn reply_to_message_id(self, value: Integer) -> (r: SendVideoNote)
        ensures
            r.form@ == form_set(
                self.form@,
                "reply_to_message_id"@,
                FormValueData::Text(int_chars(value as int)),
            ),
    {
        let mut form = self.form;
        form.insert_field("reply_to_message_id", FormValue::Text(int_to_string(value)));
        SendVideoNote { form }
    }

    /// Sends the message even if the replied-to message is not found.
    pub fn allow_sending_without_reply(self, value: bool) -> (r: SendVideoNote)
        ensures
            r.form@ == form_set(
                self.form@,
                "allow_sending_without_reply"@,
                FormValueData::Text(bool_chars(value)),
            ),
    {
        let mut form = self.form;
        form.insert_field("allow_sending_without_reply", FormValue::Text(bool_to_string(value)));
        SendVideoNote { form }
    }

    /// Attaches additional interface options.
    pub fn reply_markup(self, value: ReplyMarkup) -> (r: Result<SendVideoNote, ReplyMarkupError>)
        ensures
            r matches Ok(m) && m.form@ == form_set(
                self.form@,
                "reply_markup"@,
                FormValueData::Text(json_text(reply_markup_json(value@))),
            ),
    {
        let rendered = match value.serialize() {
            Ok(s) => s,
            Err(e) => {
                return Err(e);
            }
        };
        let mut form = self.form;
        form.insert_field("reply_markup", FormValue::Text(rendered));
        Ok(SendVideoNote { form })
    }

    /// The request of the call: POST `sendVideoNote` with the form.
    pub fn into_request(self) -> (r: Request)
        ensures
            r.http_method == RequestMethod::Post,
            r.name@ == "sendVideoNote"@,
            r.body matches RequestBody::Form(f) && f@ == self.form@,
    {
        Request::form("sendVideoNote", self.form)
    }
}

/// Sends an animation file (GIF or H.264/MPEG-4 AVC video without sound).
#[derive(Debug)]
pub struct SendAnimation {
    pub form: Form,
}

impl SendAnimation {
    /// Creates a new `SendAnimation` with empty optional parameters.
    pub fn new(chat_id: ChatId, animation: InputFile) -> (r: SendAnimation)
        ensures
            r.form@ == form_set(
                form_set(
                    Seq::<(Seq<char>, FormValueData)>::empty(),
                    "chat_id"@,
                    FormValueData::Text(chat_id_chars(chat_id@)),
                ),
                "animation"@,
                FormValueData::File(animation@),
            ),
    {
        let mut form = Form::new();
        form.insert_field("chat_id", FormValue::Text(chat_id.to_form_text()));
        form.insert_field("animation", FormValue::File(animation));
        SendAnimation { form }
    }

    /// Sets the duration of the animation in seconds.
    pub fn duration(self, value: Integer) -> (r: SendAnimation)
        ensures
            r.form@ == form_set(self.form@, "duration"@, FormValueData::Text(int_chars(value as int))),
    {
        let mut form = self.form;
        form.insert_field("duration", FormValue::Text(int_to_string(value)));
        SendAnimation { form }
    }

    /// Sets the width of the animation.
    pub fn width(self, value: Integer) -> (r: SendAnimation)
        ensures
            r.form@ == form_set(self.form@, "width"@, FormValueData::Text(int_chars(value as int))),
    {
        let mut form = self.form;
        form.insert_field("width", FormValue::Text(int_to_string(value)));
        SendAnimation { form }
    }

    /// Sets the height of the animation.
    pub fn height(self, value: Integer) -> (r: SendAnimation)
        ensures
            r.form@ == form_set(self.form@, "height"@, FormValueData::Text(int_chars(value as int))),
    {
        let mut form = self.form;
        form.insert_field("height", FormValue::Text(int_to_string(value)));
        SendAnimation { form }
    }

    /// Sets the thumbnail of the animation.
    pub fn thumbnail(self, value: InputFile) -> (r: SendAnimation)
        ensures
            r.form@ == form_set(self.form@, "thumbnail"@, FormValueData::File(value@)),
    {
        let mut form = self.form;
        form.insert_field("thumbnail", FormValue::File(value));
        SendAnimation { form }
    }

    /// Sets the caption of the animation.
    pub fn caption(self, value: &str) -> (r: SendAnimation)
        ensures
            r.form@ == form_set(self.form@, "caption"@, FormValueData::Text(value@)),
    {
        let mut form = self.form;
        form.insert_field("caption", FormValue::text(value));
        SendAnimation { form }
    }

    /// Sets the entities of the caption; the parse mode is cleared.
    pub fn caption_entities(self, value: Vec<TextEntity>) -> (r: Result<SendAnimation, TextEntityError>)
        ensures
            r matches Ok(m) && m.form@ == form_without(
                form_set(
                    self.form@,
                    "caption_entities"@,
                    FormValueData::Text(json_text(entities_json(entities_data(value@)))),
                ),
                "parse_mode"@,
            ),
    {
        let rendered = match serialize_text_entities(value.as_slice()) {
            Ok(s) => s,
            Err(e) => {
                return Err(e);
            }
        };
        let mut form = self.form;
        form.insert_field("caption_entities", FormValue::Text(rendered));
        form.remove_field("parse_mode");
        Ok(SendAnimation { form })
    }

    /// Sets the parse mode; caption entities are cleared.
    pub fn parse_mode(self, value: ParseMode) -> (r: SendAnimation)
        ensures
            r.form@ == form_without(
                form_set(self.form@, "parse_mode"@, FormValueData::Text(value.spec_name())),
                "caption_entities"@,
            ),
    {
        let mut form = self.form;
        form.insert_field("parse_mode", FormValue::text(value.as_str()));
        form.remove_field("caption_entities");
        SendAnimation { form }
    }

    /// Sends the message silently.
    pub fn disable_notification(self, value: bool) -> (r: SendAnimation)
        ensures
            r.form@ == form_set(self.form@, "disable_notification"@, FormValueData::Text(bool_chars(value))),
    {
        let mut form = self.form;
        form.insert_field("disable_notification", FormValue::Text(bool_to_string(value)));
        SendAnimation { form }
    }

    /// Protects the contents of the sent message from forwarding and saving.
    pub fn protect_content(self, value: bool) -> (r: SendAnimation)
        ensures
            r.form@ == form_set(self.form@, "protect_content"@, FormValueData::Text(bool_chars(value))),
    {
        let mut form = self.form;
        form.insert_field("protect_content", FormValue::Text(bool_to_string(value)));
        SendAnimation { form }
    }

    /// Marks the message as a reply to the given message.
    pub fn reply_to_message_id(self, value: Integer) -> (r: SendAnimation)
        ensures
            r.form@ == form_set(
                self.form@,
                "reply_to_message_id"@,
                FormValueData::Text(int_chars(value as int)),
            ),
    {
        let mut form = self.form;
        form.insert_field("reply_to_message_id", FormValue::Text(int_to_string(value)));
        SendAnimation { form }
    }

    /// Sends the message even if the replied-to message is not found.
    pub fn allow_sending_without_reply(self, value: bool) -> (r: SendAnimation)
        ensures
            r.form@ == form_set(
                self.form@,
                "allow_sending_without_reply"@,
                FormValueData::Text(bool_chars(value)),
            ),
    {
        let mut form = self.form;
        form.insert_field("allow_sending_without_reply", FormValue::Text(bool_to_string(value)));
        SendAnimation { form }
    }

    /// Attaches additional interface options.
    pub fn reply_markup(self, value: ReplyMarkup) -> (r: Result<SendAnimation, ReplyMarkupError>)
        ensures
            r matches Ok(m) && m.form@ == form_set(
                self.form@,
                "reply_markup"@,
                FormValueData::Text(json_text(reply_markup_json(value@))),
            ),
    {
        let rendered = match value.serialize() {
            Ok(s) => s,
            Err(e) => {
                return Err(e);
            }
        };
        let mut form = self.form;
        form.insert_field("reply_markup", FormValue::Text(rendered));
        Ok(SendAnimation { form })
    }

    /// Sets the target message thread, supergroups only.
    pub fn message_thread_id(self, value: Integer) -> (r: SendAnimation)
        ensures
            r.form@ == form_set(
                self.form@,
                "message_thread_id"@,
                FormValueData::Text(int_chars(value as int)),
            ),
    {
        let mut form = self.form;
        form.insert_field("message_thread_id", FormValue::Text(int_to_string(value)));
        SendAnimation { form }
    }

    /// Covers the animation with a spoiler.
    pub fn has_spoiler(self, value: bool) -> (r: SendAnimation)
        ensures
            r.form@ == form_set(self.form@, "has_spoiler"@, FormValueData::Text(bool_chars(value))),
    {
        let mut form = self.form;
        form.insert_field("has_spoiler", FormValue::Text(bool_to_string(value)));
        SendAnimation { form }
    }

    /// The payload of the call: `sendAnimation` with the form.
    pub fn into_payload(self) -> (r: Payload)
        ensures
            r.name@ == "sendAnimation"@,
            r.body matches RequestBody::Form(f) && f@ == self.form@,
    {
        Payload::form("sendAnimation", self.form)
    }
}

/// Sends an audio file, to be shown as a playable voice message.
#[derive(Debug)]
pub struct SendVoice {
    pub form: Form,
}

impl SendVoice {
    /// Creates a new `SendVoice` with empty optional parameters.
    pub fn new(chat_id: ChatId, voice: InputFile) -> (r: SendVoice)
        ensures
            r.form@ == form_set(
                form_set(
                    Seq::<(Seq<char>, FormValueData)>::empty(),
                    "chat_id"@,
                    FormValueData::Text(chat_id_chars(chat_id@)),
                ),
                "voice"@,
                FormValueData::File(voice@),
            ),
    {
        let mut form = Form::new();
        form.insert_field("chat_id", FormValue::Text(chat_id.to_form_text()));
        form.insert_field("voice", FormValue::File(voice));
        SendVoice { form }
    }

    /// Sends the message even if the replied-to message is not found.
    pub fn with_allow_sending_without_reply(self, value: bool) -> (r: SendVoice)
        ensures
            r.form@ == form_set(
                self.form@,
                "allow_sending_without_reply"@,
                FormValueData::Text(bool_chars(value)),
            ),
    {
        let mut form = self.form;
        form.insert_field("allow_sending_without_reply", FormValue::Text(bool_to_string(value)));
        SendVoice { form }
    }

    /// Sets the caption of the voice message.
    pub fn with_caption(self, value: &str) -> (r: SendVoice)
        ensures
            r.form@ == form_set(self.form@, "caption"@, FormValueData::Text(value@)),
    {
        let mut form = self.form;
        form.insert_field("caption", FormValue::text(value));
        SendVoice { form }
    }

    /// Sets the entities of the caption; the parse mode is cleared.
    pub fn with_caption_entities(self, value: Vec<TextEntity>) -> (r: Result<SendVoice, TextEntityError>)
        ensures
            r matches Ok(m) && m.form@ == form_without(
                form_set(
                    self.form@,
                    "caption_entities"@,
                    FormValueData::Text(json_text(entities_json(entities_data(value@)))),
                ),
                "parse_mode"@,
            ),
    {
        let rendered = match serialize_text_entities(value.as_slice()) {
            Ok(s) => s,
            Err(e) => {
                return Err(e);
            }
        };
        let mut form = self.form;
        form.insert_field("caption_entities", FormValue::Text(rendered));
        form.remove_field("parse_mode");
        Ok(SendVoice { form })
    }

    /// Sets the parse mode of the caption; caption entities are cleared.
    pub fn with_caption_parse_mode(self, value: ParseMode) -> (r: SendVoice)
        ensures
            r.form@ == form_without(
                form_set(self.form@, "parse_mode"@, FormValueData::Text(value.spec_name())),
                "caption_entities"@,
            ),
    {
        let mut form = self.form;
        form.insert_field("parse_mode", FormValue::text(value.as_str()));
        form.remove_field("caption_entities");
        SendVoice { form }
    }

    /// Sends the message silently.
    pub fn with_disable_notification(self, value: bool) -> (r: SendVoice)
        ensures
            r.form@ == form_set(self.form@, "disable_notification"@, FormValueData::Text(bool_chars(value))),
    {
        let mut form = self.form;
        form.insert_field("disable_notification", FormValue::Text(bool_to_string(value)));
        SendVoice { form }
    }

    /// Sets the duration of the voice message in seconds.
    pub fn with_duration(self, value: Integer) -> (r: SendVoice)
        ensures
            r.form@ == form_set(self.form@, "duration"@, FormValueData::Text(int_chars(value as int))),
    {
        let mut form = self.form;
        form.insert_field("duration", FormValue::Text(int_to_string(value)));
        SendVoice { form }
    }

    /// Sets the target message thread, supergroups only.
    pub fn with_message_thread_id(self, value: Integer) -> (r: SendVoice)
        ensures
            r.form@ == form_set(
                self.form@,
                "message_thread_id"@,
                FormValueData::Text(int_chars(value as int)),
            ),
    {
        let mut form = self.form;
        form.insert_field("message_thread_id", FormValue::Text(int_to_string(value)));
        SendVoice { form }
    }

    /// Protects the contents of the sent message from forwarding and saving.
    pub fn with_protect_content(self, value: bool) -> (r: SendVoice)
        ensures
            r.form@ == form_set(self.form@, "protect_content"@, FormValueData::Text(bool_chars(value))),
    {
        let mut form = self.form;
        form.insert_field("protect_content", FormValue::Text(bool_to_string(value)));
        SendVoice { form }
    }

    /// Attaches additional interface options.
    pub fn with_reply_markup(self, value: ReplyMarkup) -> (r: Result<SendVoice, ReplyMarkupError>)
        ensures
            r matches Ok(m) && m.form@ == form_set(
                self.form@,
                "reply_markup"@,
                FormValueData::Text(json_text(reply_markup_json(value@))),
            ),
    {
        let rendered = match value.serialize() {
            Ok(s) => s,
            Err(e) => {
                return Err(e);
            }
        };
        let mut form = self.form;
        form.insert_field("reply_markup", FormValue::Text(rendered));
        Ok(SendVoice { form })
    }

    /// Marks the message as a reply to the given message.
    pub fn with_reply_to_message_id(self, value: Integer) -> (r: SendVoice)
        ensures
            r.form@ == form_set(
                self.form@,
                "reply_to_message_id"@,
                FormValueData::Text(int_chars(value as int)),
            ),
    {
        let mut form = self.form;
        form.insert_field("reply_to_message_id", FormValue::Text(int_to_string(value)));
        SendVoice { form }
    }

    /// The payload of the call: `sendVoice` with the form.
    pub fn into_payload(self) -> (r: Payload)
        ensures
            r.name@ == "sendVoice"@,
            r.body matches RequestBody::Form(f) && f@ == self.form@,
    {
        Payload::form("sendVoice", self.form)
    }
}

} // verus!
