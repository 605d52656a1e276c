use vstd::prelude::*;

verus! {

use crate::Integer;
use crate::json::{
    entry_opt, json_text, lemma_arr_view_elementwise, JsonData, JsonObject, JsonValue, render_json,
};
use crate::primitive::opt_bool_json;

/// Asks clients to show a reply interface to the user.
#[derive(Clone, Debug)]
pub struct ForceReply {
    pub force_reply: bool,
    pub selective: Option<bool>,
}

/// Model of a force-reply markup.
pub struct ForceReplyData {
    pub force_reply: bool,
    pub selective: Option<bool>,
}

impl View for ForceReply {
    type V = ForceReplyData;

    open spec fn view(&self) -> ForceReplyData {
        ForceReplyData { force_reply: self.force_reply, selective: self.selective }
    }
}

/// JSON object of a force-reply markup.
pub open spec fn force_reply_json(f: ForceReplyData) -> JsonData {
    JsonData::Obj(
        seq![("force_reply"@, JsonData::Bool(f.force_reply))] + entry_opt(
            "selective"@,
            opt_bool_json(f.selective),
        ),
    )
}

impl ForceReply {
    /// Creates a new force-reply markup.
    pub fn new(force_reply: bool) -> (r: ForceReply)
        ensures
            r@ == (ForceReplyData { force_reply, selective: None }),
    {
        ForceReply { force_reply, selective: None }
    }

    /// Sets whether only selected users are asked to reply.
    pub fn selective(self, value: bool) -> (r: ForceReply)
        ensures
            r@ == (ForceReplyData { selective: Some(value), ..self@ }),
    {
        ForceReply { selective: Some(value), ..self }
    }

    /// JSON object of the markup.
    pub fn to_json(&self) -> (r: JsonValue)
        ensures
            r@ == force_reply_json(self@),
    {
        let mut obj = JsonObject::new();
        obj.set("force_reply", JsonValue::Bool(self.force_reply));
        match self.selective {
            Some(v) => obj.set("selective", JsonValue::Bool(v)),
            None => {}
        }
        let r = obj.into_value();
        proof {
            assert(r@->Obj_0 =~= (seq![("force_reply"@, JsonData::Bool(self@.force_reply))]
                + entry_opt("selective"@, opt_bool_json(self@.selective))));
        }
        r
    }
}

/// One button of an inline keyboard.
#[derive(Clone, Debug)]
pub struct InlineKeyboardButton {
    /// Label shown on the button.
    pub text: String,
    /// HTTP URL opened when the button is pressed.
    pub url: String,
}

/// Model of an inline keyboard button.
pub struct InlineKeyboardButtonData {
    pub text: Seq<char>,
    pub url: Seq<char>,
}

impl View for InlineKeyboardButton {
    type V = InlineKeyboardButtonData;

    open spec fn view(&self) -> InlineKeyboardButtonData {
        InlineKeyboardButtonData { text: self.text@, url: self.url@ }
    }
}

/// JSON object of one button.
pub open spec fn button_json(b: InlineKeyboardButtonData) -> JsonData {
    JsonData::Obj(
        seq![("text"@, JsonData::Str(b.text)), ("url"@, JsonData::Str(b.url))],
    )
}

impl InlineKeyboardButton {
    /// Creates a button opening the URL.
    pub fn with_url(text: &str, url: &str) -> (r: InlineKeyboardButton)
        ensures
            r@ == (InlineKeyboardButtonData { text: text@, url: url@ }),
    {
        InlineKeyboardButton { text: String::from_str(text), url: String::from_str(url) }
    }

    /// JSON object of the button.
    pub fn to_json(&self) -> (r: JsonValue)
        ensures
            r@ == button_json(self@),
    {
        let mut obj = JsonObject::new();
        obj.set("text", JsonValue::Str(self.text.clone()));
        obj.set("url", JsonValue::Str(self.url.clone()));
        let r = obj.into_value();
        proof {
            assert(r@->Obj_0 =~= seq![
                ("text"@, JsonData::Str(self@.text)),
                ("url"@, JsonData::Str(self@.url)),
            ]);
        }
        r
    }
}

/// An inline keyboard attached to a message: rows of buttons.
#[derive(Clone, Debug)]
pub struct InlineKeyboardMarkup {
    pub inline_keyboard: Vec<Vec<InlineKeyboardButton>>,
}

impl View for InlineKeyboardMarkup {
    type V = Seq<Seq<InlineKeyboardButtonData>>;

    open spec fn view(&self) -> Seq<Seq<InlineKeyboardButtonData>> {
        Seq::new(
            self.inline_keyboard@.len(),
            |i: int| Seq::new(
                self.inline_keyboard@[i]@.len(),
                |j: int| self.inline_keyboard@[i]@[j]@,
            ),
        )
    }
}

/// JSON array of one keyboard row.
pub open spec fn keyboard_row_json(row: Seq<InlineKeyboardButtonData>) -> JsonData {
    JsonData::Arr(Seq::new(row.len(), |j: int| button_json(row[j])))
}

/// JSON object of an inline keyboard.
pub open spec fn keyboard_json(rows: Seq<Seq<InlineKeyboardButtonData>>) -> JsonData {
    JsonData::Obj(
        seq![
            ("inline_keyboard"@, JsonData::Arr(Seq::new(rows.len(), |i: int| keyboard_row_json(rows[i])))),
        ],
    )
}

impl InlineKeyboardMarkup {
    /// A keyboard holding exactly the given rows of buttons.
    pub fn from_vec(rows: Vec<Vec<InlineKeyboardButton>>) -> (r: InlineKeyboardMarkup)
        ensures
            r@ == Seq::new(
                rows@.len(),
                |i: int| Seq::new(rows@[i]@.len(), |j: int| rows@[i]@[j]@),
            ),
    {
        InlineKeyboardMarkup { inline_keyboard: rows }
    }

    /// JSON object of the keyboard.
    pub fn to_json(&self) -> (r: JsonValue)
        ensures
            r@ == keyboard_json(self@),
    {
        let mut rows_json: Vec<JsonValue> = Vec::new();
        let mut i: usize = 0;
        while i < self.inline_keyboard.len()
            invariant
                i <= self.inline_keyboard@.len(),
                rows_json@.len() == i,
                forall|k: int| 0 <= k < i ==> rows_json@[k]@ == keyboard_row_json(self@[k]),
            decreases self.inline_keyboard@.len() - i,
        {
            let row = &self.inline_keyboard[i];
            let mut row_json: Vec<JsonValue> = Vec::new();
            let mut j: usize = 0;
            while j < row.len()
                invariant
                    j <= row@.len(),
                    row_json@.len() == j,
                    forall|k: int| 0 <= k < j ==> row_json@[k]@ == button_json(row@[k]@),
                decreases row@.len() - j,
            {
                row_json.push(row[j].to_json());
                j = j + 1;
            }
            let rj = JsonValue::Arr(row_json);
            proof {
                lemma_arr_view_elementwise(rj->Arr_0@);
                assert(rj@->Arr_0 =~= Seq::new(self@[i as int].len(), |k: int| button_json(self@[i as int][k])));
            }
            rows_json.push(rj);
            i = i + 1;
        }
        let arr = JsonValue::Arr(rows_json);
        proof {
            lemma_arr_view_elementwise(arr->Arr_0@);
            assert(arr@->Arr_0 =~= Seq::new(self@.len(), |k: int| keyboard_row_json(self@[k])));
        }
        let mut obj = JsonObject::new();
        obj.set("inline_keyboard", arr);
        let r = obj.into_value();
        proof {
            assert(r@->Obj_0 =~= seq![
                ("inline_keyboard"@, JsonData::Arr(Seq::new(self@.len(), |k: int| keyboard_row_json(self@[k])))),
            ]);
        }
        r
    }
}

/// An error when serializing reply markup.
///
/// Kept for the shape of the builder results; rendering here is total, so no
/// value of it is ever produced.
#[derive(Copy, Clone, Debug, PartialEq, Eq, Structural)]
pub enum ReplyMarkupError {
    Serialize,
}

/// Additional interface options attached to an outgoing message.
#[derive(Clone, Debug)]
pub enum ReplyMarkup {
    ForceReply(ForceReply),
    InlineKeyboardMarkup(InlineKeyboardMarkup),
}

/// Model of a reply markup.
pub enum ReplyMarkupData {
    ForceReply(ForceReplyData),
    InlineKeyboardMarkup(Seq<Seq<InlineKeyboardButtonData>>),
}

impl View for ReplyMarkup {
    type V = ReplyMarkupData;

    open spec fn view(&self) -> ReplyMarkupData {
        match self {
            ReplyMarkup::ForceReply(f) => ReplyMarkupData::ForceReply(f@),
            ReplyMarkup::InlineKeyboardMarkup(k) => ReplyMarkupData::InlineKeyboardMarkup(k@),
        }
    }
}

/// JSON object of a reply markup.
pub open spec fn reply_markup_json(m: ReplyMarkupData) -> JsonData {
    match m {
        ReplyMarkupData::ForceReply(f) => force_reply_json(f),
        ReplyMarkupData::InlineKeyboardMarkup(rows) => keyboard_json(rows),
    }
}

impl ReplyMarkup {
    /// Wraps a force-reply markup.
    pub fn force_reply(value: ForceReply) -> (r: ReplyMarkup)
        ensures
            r@ == ReplyMarkupData::ForceReply(value@),
    {
        ReplyMarkup::ForceReply(value)
    }

    /// Wraps an inline keyboard.
    pub fn inline_keyboard(value: InlineKeyboardMarkup) -> (r: ReplyMarkup)
        ensures
            r@ == ReplyMarkupData::InlineKeyboardMarkup(value@),
    {
        ReplyMarkup::InlineKeyboardMarkup(value)
    }

    /// JSON object of the markup.
    pub fn to_json(&self) -> (r: JsonValue)
        ensures
            r@ == reply_markup_json(self@),
    {
        match self {
            ReplyMarkup::ForceReply(f) => f.to_json(),
            ReplyMarkup::InlineKeyboardMarkup(k) => k.to_json(),
        }
    }

    /// Serializes the markup into a JSON string.
    pub fn serialize(&self) -> (r: Result<String, ReplyMarkupError>)
        ensures
            r matches Ok(s) && s@ == json_text(reply_markup_json(self@)),
    {
        let v = self.to_json();
        Ok(render_json(&v))
    }
}


/// View of an optional inline keyboard.
pub open spec fn view_opt_keyboard(v: Option<InlineKeyboardMarkup>) -> Option<Seq<Seq<InlineKeyboardButtonData>>> {
    match v {
        Some(k) => Some(k@),
        None => None,
    }
}


/// View of an optional reply markup.
pub open spec fn view_opt_reply_markup(v: Option<ReplyMarkup>) -> Option<ReplyMarkupData> {
    match v {
        Some(m) => Some(m@),
        None => None,
    }
}

/// Lifts an optional inline keyboard to an optional JSON value.
pub fn opt_keyboard_value(v: &Option<InlineKeyboardMarkup>) -> (r: Option<JsonValue>)
    ensures
        crate::json::spec_opt_view(r) == match view_opt_keyboard(*v) {
            Some(rows) => Some(keyboard_json(rows)),
            None => None::<JsonData>,
        },
{
    match v {
        Some(k) => Some(k.to_json()),
        None => None,
    }
}

/// Lifts an optional reply markup to an optional JSON value.
pub fn opt_reply_markup_value(v: &Option<ReplyMarkup>) -> (r: Option<JsonValue>)
    ensures
        crate::json::spec_opt_view(r) == match view_opt_reply_markup(*v) {
            Some(m) => Some(reply_markup_json(m)),
            None => None::<JsonData>,
        },
{
    match v {
        Some(m) => Some(m.to_json()),
        None => None,
    }
}

/// Description of the message an outgoing message replies to.
#[derive(Clone, Debug)]
pub struct ReplyParameters {
    /// Identifier of the message to reply to.
    pub message_id: Integer,
    /// Whether the message may be sent when the replied-to message is gone.
    pub allow_sending_without_reply: Option<bool>,
}

/// Model of reply parameters.
pub struct ReplyParametersData {
    pub message_id: int,
    pub allow_sending_without_reply: Option<bool>,
}

impl View for ReplyParameters {
    type V = ReplyParametersData;

    open spec fn view(&self) -> ReplyParametersData {
        ReplyParametersData {
            message_id: self.message_id as int,
            allow_sending_without_reply: self.allow_sending_without_reply,
        }
    }
}

/// JSON object of reply parameters.
pub open spec fn reply_parameters_json(p: ReplyParametersData) -> JsonData {
    JsonData::Obj(
        seq![("message_id"@, JsonData::Int(p.message_id))] + entry_opt(
            "allow_sending_without_reply"@,
            opt_bool_json(p.allow_sending_without_reply),
        ),
    )
}


/// View of optional reply parameters.
pub open spec fn view_opt_reply_parameters(v: Option<ReplyParameters>) -> Option<ReplyParametersData> {
    match v {
        Some(p) => Some(p@),
        None => None,
    }
}

/// Lifts optional reply parameters to an optional JSON value.
pub fn opt_reply_parameters_value(v: &Option<ReplyParameters>) -> (r: Option<JsonValue>)
    ensures
        crate::json::spec_opt_view(r) == match view_opt_reply_parameters(*v) {
            Some(p) => Some(reply_parameters_json(p)),
            None => None::<JsonData>,
        },
{
    match v {
        Some(p) => Some(p.to_json()),
        None => None,
    }
}

impl ReplyParameters {
    /// Creates new reply parameters.
    pub fn new(message_id: Integer) -> (r: ReplyParameters)
        ensures
            r@ == (ReplyParametersData { message_id: message_id as int, allow_sending_without_reply: None }),
    {
        ReplyParameters { message_id, allow_sending_without_reply: None }
    }

    /// JSON object of the parameters.
    pub fn to_json(&self) -> (r: JsonValue)
        ensures
            r@ == reply_parameters_json(self@),
    {
        let mut obj = JsonObject::new();
        obj.set("message_id", JsonValue::Int(self.message_id));
        match self.allow_sending_without_reply {
            Some(v) => obj.set("allow_sending_without_reply", JsonValue::Bool(v)),
            None => {}
        }
        let r = obj.into_value();
        proof {
            assert(r@->Obj_0 =~= (seq![("message_id"@, JsonData::Int(self@.message_id))]
                + entry_opt("allow_sending_without_reply"@, opt_bool_json(self@.allow_sending_without_reply))));
        }
        r
    }
}

} // verus!
