use vstd::prelude::*;

verus! {

use crate::api::{form_without, Form, FormValue, FormValueData, InputFile, InputFileData};
use crate::json::{
    json_text, nat_chars, uint_to_string, spec_opt_view, strings_json, strings_to_json, Decimal,
    JsonData, JsonObject, JsonValue,
};
use crate::sending::form_set;
use vstd::string::StringExecFns;

/// Part of the face a mask should be placed relative to.
#[derive(Clone, Copy, Debug, PartialEq, Eq, Structural)]
pub enum MaskPositionPoint {
    Forehead,
    Eyes,
    Mouth,
    Chin,
}

impl MaskPositionPoint {
    /// Name of the point on the wire.
    pub open spec fn spec_name(self) -> Seq<char> {
        match self {
            MaskPositionPoint::Forehead => "forehead"@,
            MaskPositionPoint::Eyes => "eyes"@,
            MaskPositionPoint::Mouth => "mouth"@,
            MaskPositionPoint::Chin => "chin"@,
        }
    }

    /// Returns the wire name of the point.
    pub fn as_str(&self) -> (r: &'static str)
        ensures
            r@ == self.spec_name(),
    {
        match self {
            MaskPositionPoint::Forehead => "forehead",
            MaskPositionPoint::Eyes => "eyes",
            MaskPositionPoint::Mouth => "mouth",
            MaskPositionPoint::Chin => "chin",
        }
    }
}

/// Where a mask should be placed on a face.
#[derive(Clone, Copy, Debug)]
pub struct MaskPosition {
    /// The part of the face the mask is placed relative to.
    pub point: MaskPositionPoint,
    /// Scaling coefficient of the mask.
    pub scale: Decimal,
    /// Shift along the X axis, in widths of the mask.
    pub x_shift: Decimal,
    /// Shift along the Y axis, in heights of the mask.
    pub y_shift: Decimal,
}

/// JSON object of a mask position.
pub open spec fn mask_position_json(m: MaskPosition) -> JsonData {
    JsonData::Obj(
        seq![
            ("point"@, JsonData::Str(m.point.spec_name())),
            ("scale"@, JsonData::Dec(m.scale.m(), m.scale.s())),
            ("x_shift"@, JsonData::Dec(m.x_shift.m(), m.x_shift.s())),
            ("y_shift"@, JsonData::Dec(m.y_shift.m(), m.y_shift.s())),
        ],
    )
}

impl MaskPosition {
    /// Creates a new mask position.
    pub fn new(point: MaskPositionPoint, scale: Decimal, x_shift: Decimal, y_shift: Decimal) -> (r:
        MaskPosition)
        ensures
            r == (MaskPosition { point, scale, x_shift, y_shift }),
    {
        MaskPosition { point, scale, x_shift, y_shift }
    }

    /// JSON object of the position.
    pub fn to_json(&self) -> (r: JsonValue)
        ensures
            r@ == mask_position_json(*self),
    {
        let mut obj = JsonObject::new();
        obj.set("point", JsonValue::Str(String::from_str(self.point.as_str())));
        obj.set("scale", JsonValue::Dec(self.scale));
        obj.set("x_shift", JsonValue::Dec(self.x_shift));
        obj.set("y_shift", JsonValue::Dec(self.y_shift));
        let r = obj.into_value();
        proof {
            assert(r@->Obj_0 =~= mask_position_json(*self)->Obj_0);
        }
        r
    }
}

/// A sticker to upload, with the emoji that stand for it.
#[derive(Debug)]
pub struct InputSticker {
    /// The sticker file.
    pub sticker: InputFile,
    /// Emoji associated with the sticker.
    pub emoji_list: Vec<String>,
    /// Position where a mask should be placed on a face.
    pub mask_position: Option<MaskPosition>,
    /// Search keywords for the sticker.
    pub keywords: Option<Vec<String>>,
}

/// Model of a sticker to upload.
pub struct InputStickerData {
    pub sticker: InputFileData,
    pub emoji_list: Seq<Seq<char>>,
    pub mask_position: Option<MaskPosition>,
    pub keywords: Option<Seq<Seq<char>>>,
}

impl View for InputSticker {
    type V = InputStickerData;

    open spec fn view(&self) -> InputStickerData {
        InputStickerData {
            sticker: self.sticker@,
            emoji_list: Seq::new(self.emoji_list@.len(), |i: int| self.emoji_list@[i]@),
            mask_position: self.mask_position,
            keywords: match self.keywords {
                Some(ks) => Some(Seq::new(ks@.len(), |i: int| ks@[i]@)),
                None => None,
            },
        }
    }
}

/// How the sticker file is named inside the sticker JSON: uploads are
/// referred to through the given attach name.
pub open spec fn sticker_ref(f: InputFileData, attach: Seq<char>) -> Seq<char> {
    match f {
        InputFileData::FileId(s) => s,
        InputFileData::Url(s) => s,
        InputFileData::Reader(_) => "attach://"@ + attach,
    }
}

/// Members of one sticker JSON object.
pub open spec fn input_sticker_members(v: InputStickerData, attach: Seq<char>) -> Seq<
    (Seq<char>, JsonData),
> {
    let m = Seq::<(Seq<char>, JsonData)>::empty();
    let m = m.push(("sticker"@, JsonData::Str(sticker_ref(v.sticker, attach))));
    let m = m.push(("emoji_list"@, strings_json(v.emoji_list)));
    let m = match v.mask_position {
        Some(p) => m.push(("mask_position"@, mask_position_json(p))),
        None => m,
    };
    let m = match v.keywords {
        Some(ks) => m.push(("keywords"@, strings_json(ks))),
        None => m,
    };
    m
}

/// JSON object of one sticker.
pub open spec fn input_sticker_json(v: InputStickerData, attach: Seq<char>) -> JsonData {
    JsonData::Obj(input_sticker_members(v, attach))
}

/// Lifts an optional mask position to an optional JSON value.
fn opt_mask_value(v: &Option<MaskPosition>) -> (r: Option<JsonValue>)
    ensures
        spec_opt_view(r) == match *v {
            Some(m) => Some(mask_position_json(m)),
            None => None::<JsonData>,
        },
{
    match v {
        Some(m) => Some(m.to_json()),
        None => None,
    }
}

/// Lifts an optional string list to an optional JSON value.
fn opt_strings_value(v: &Option<Vec<String>>) -> (r: Option<JsonValue>)
    ensures
        spec_opt_view(r) == match *v {
            Some(ks) => Some(strings_json(Seq::new(ks@.len(), |i: int| ks@[i]@))),
            None => None::<JsonData>,
        },
{
    match v {
        Some(ks) => Some(strings_to_json(ks)),
        None => None,
    }
}

fn sticker_json_value(v: &InputSticker, attach_ref: String) -> (r: JsonValue)
    ensures
        r@ == JsonData::Obj(
            {
                let m = Seq::<(Seq<char>, JsonData)>::empty();
                let m = m.push(("sticker"@, JsonData::Str(attach_ref@)));
                let m = m.push(("emoji_list"@, strings_json(v@.emoji_list)));
                let m = match v@.mask_position {
                    Some(p) => m.push(("mask_position"@, mask_position_json(p))),
                    None => m,
                };
                let m = match v@.keywords {
                    Some(ks) => m.push(("keywords"@, strings_json(ks))),
                    None => m,
                };
                m
            },
        ),
{
    let mut obj = JsonObject::new();
    obj.set("sticker", JsonValue::Str(attach_ref));
    obj.set("emoji_list", strings_to_json(&v.emoji_list));
    obj.set_opt("mask_position", opt_mask_value(&v.mask_position));
    obj.set_opt("keywords", opt_strings_value(&v.keywords));
    obj.into_value()
}

impl InputSticker {
    /// Creates a new sticker to upload.
    pub fn new(sticker: InputFile, emoji_list: Vec<String>) -> (r: InputSticker)
        ensures
            r@ == (InputStickerData {
                sticker: sticker@,
                emoji_list: Seq::new(emoji_list@.len(), |i: int| emoji_list@[i]@),
                mask_position: None,
                keywords: None,
            }),
    {
        InputSticker { sticker, emoji_list, mask_position: None, keywords: None }
    }

    /// Sets the search keywords of the sticker.
    pub fn with_keywords(self, value: Vec<String>) -> (r: InputSticker)
        ensures
            r@ == (InputStickerData {
                keywords: Some(Seq::new(value@.len(), |i: int| value@[i]@)),
                ..self@
            }),
    {
        InputSticker { keywords: Some(value), ..self }
    }

    /// Sets the mask position of the sticker.
    pub fn with_mask_position(self, value: MaskPosition) -> (r: InputSticker)
        ensures
            r@ == (InputStickerData { mask_position: Some(value), ..self@ }),
    {
        InputSticker { mask_position: Some(value), ..self }
    }

    /// The form of the sticker: an upload travels as a file field named
    /// `tgbot_input_sticker`, referred to from the sticker JSON.
    pub fn into_form(self) -> (r: Form)
        ensures
            r@ == match self@.sticker {
                InputFileData::Reader(_) => form_set(
                    form_set(
                        Seq::<(Seq<char>, FormValueData)>::empty(),
                        "tgbot_input_sticker"@,
                        FormValueData::File(self@.sticker),
                    ),
                    "sticker"@,
                    FormValueData::Text(
                        json_text(input_sticker_json(self@, "tgbot_input_sticker"@)),
                    ),
                ),
                _ => form_set(
                    Seq::<(Seq<char>, FormValueData)>::empty(),
                    "sticker"@,
                    FormValueData::Text(
                        json_text(input_sticker_json(self@, "tgbot_input_sticker"@)),
                    ),
                ),
            },
    {
        let ghost sv = self@;
        let attach_ref: String = match &self.sticker {
            InputFile::FileId(s) => s.clone(),
            InputFile::Url(s) => s.clone(),
            InputFile::Reader(_) => {
                let r = String::from_str("attach://tgbot_input_sticker");
                proof {
                    reveal_strlit("attach://tgbot_input_sticker");
                    reveal_strlit("attach://");
                    reveal_strlit("tgbot_input_sticker");
                    assert(r@ =~= "attach://"@ + "tgbot_input_sticker"@);
                }
                r
            }
        };
        let body = sticker_json_value(&self, attach_ref);
        proof {
            assert(body@ == input_sticker_json(sv, "tgbot_input_sticker"@));
        }
        let rendered = crate::json::render_json(&body);
        let mut fields: Vec<(String, FormValue)> = Vec::new();
        match self.sticker {
            InputFile::Reader(bytes) => {
                proof {
                    assert(sv.sticker == InputFileData::Reader(bytes@));
                }
                fields.push((
                    String::from_str("tgbot_input_sticker"),
                    FormValue::File(InputFile::Reader(bytes)),
                ));
                fields.push((String::from_str("sticker"), FormValue::Text(rendered)));
                proof {
                    reveal_strlit("tgbot_input_sticker");
                    reveal_strlit("sticker");
                    assert("tgbot_input_sticker"@.len() != "sticker"@.len());
                    let inner = form_set(
                        Seq::<(Seq<char>, FormValueData)>::empty(),
                        "tgbot_input_sticker"@,
                        FormValueData::File(sv.sticker),
                    );
                    assert(inner.len() == 1);
                    assert(inner.drop_last() =~= Seq::<(Seq<char>, FormValueData)>::empty());
                    assert(form_without(inner.drop_last(), "sticker"@) == Seq::<(Seq<char>, FormValueData)>::empty());
                    assert(form_without(inner, "sticker"@) =~= inner);
                    assert(Seq::new(fields@.len(), |k: int| (fields@[k].0@, fields@[k].1@)) =~= form_set(
                        form_set(
                            Seq::<(Seq<char>, FormValueData)>::empty(),
                            "tgbot_input_sticker"@,
                            FormValueData::File(sv.sticker),
                        ),
                        "sticker"@,
                        FormValueData::Text(
                            json_text(input_sticker_json(sv, "tgbot_input_sticker"@)),
                        ),
                    ));
                }
            }
            _ => {
                fields.push((String::from_str("sticker"), FormValue::Text(rendered)));
                proof {
                    assert(Seq::new(fields@.len(), |k: int| (fields@[k].0@, fields@[k].1@)) =~= form_set(
                        Seq::<(Seq<char>, FormValueData)>::empty(),
                        "sticker"@,
                        FormValueData::Text(
                            json_text(input_sticker_json(sv, "tgbot_input_sticker"@)),
                        ),
                    ));
                }
            }
        }
        let form = Form { fields };
        form
    }
}

/// Stickers to upload together.
#[derive(Debug)]
pub struct InputStickers {
    pub stickers: Vec<InputSticker>,
}

impl View for InputStickers {
    type V = Seq<InputStickerData>;

    open spec fn view(&self) -> Seq<InputStickerData> {
        Seq::new(self.stickers@.len(), |i: int| self.stickers@[i]@)
    }
}

/// Attach name of the upload at the given position.
pub open spec fn attach_name_at(i: int) -> Seq<char> {
    "tgbot_input_sticker_"@ + nat_chars(i as nat)
}

/// JSON objects of the stickers; an upload at position `i` is referred to
/// through the attach name carrying `i`.
pub open spec fn stickers_arr(s: Seq<InputStickerData>) -> Seq<JsonData> {
    Seq::new(s.len(), |i: int| input_sticker_json(s[i], attach_name_at(i)))
}

/// File fields of the uploads among the stickers, in order.
pub open spec fn reader_entries(s: Seq<InputStickerData>) -> Seq<(Seq<char>, FormValueData)>
    decreases s.len(),
{
    if s.len() == 0 {
        Seq::empty()
    } else {
        let rest = reader_entries(s.drop_last());
        if s.last().sticker is Reader {
            rest.push((attach_name_at(s.len() - 1), FormValueData::File(s.last().sticker)))
        } else {
            rest
        }
    }
}

impl Default for InputStickers {
    /// No stickers yet.
    fn default() -> (r: InputStickers)
        ensures
            r@ == Seq::<InputStickerData>::empty(),
    {
        let r = InputStickers { stickers: Vec::new() };
        proof {
            assert(r@ =~= Seq::<InputStickerData>::empty());
        }
        r
    }
}

impl InputStickers {
    /// Appends one sticker.
    pub fn add_sticker(self, value: InputSticker) -> (r: InputStickers)
        ensures
            r@ == self@.push(value@),
    {
        let ghost pre = self@;
        let ghost vv = value@;
        let mut stickers = self.stickers;
        stickers.push(value);
        let r = InputStickers { stickers };
        proof {
            assert(r@ =~= pre.push(vv));
        }
        r
    }

    /// The form of the stickers: every upload travels as its own file field,
    /// and the `stickers` field holds the JSON array referring to them.
    pub fn into_form(self) -> (r: Form)
        ensures
            r@ == reader_entries(self@).push(
                ("stickers"@, FormValueData::Text(json_text(JsonData::Arr(stickers_arr(self@))))),
            ),
    {
        let ghost whole = self@;
        let mut items: Vec<JsonValue> = Vec::new();
        let mut fields: Vec<(String, FormValue)> = Vec::new();
        let mut rest = self.stickers;
        let total = rest.len();
        let mut i: usize = 0;
        while rest.len() > 0
            invariant
                i + rest@.len() == whole.len(),
                whole.len() == total,
                forall|k: int| 0 <= k < rest@.len() ==> rest@[k]@ == whole[i + k],
                items@.len() == i,
                forall|k: int| 0 <= k < i ==> items@[k]@ == input_sticker_json(
                    whole[k],
                    attach_name_at(k),
                ),
                Seq::new(fields@.len(), |k: int| (fields@[k].0@, fields@[k].1@)) == reader_entries(
                    whole.take(i as int),
                ),
            decreases rest@.len(),
        {
            let st = rest.remove(0);
            let ghost stv = st@;
            proof {
                assert(stv == whole[i as int]);
            }
            let attach_name = {
                let mut n = String::from_str("tgbot_input_sticker_");
                n.append(uint_to_string(i as u64).as_str());
                n
            };
            let attach_ref: String = match &st.sticker {
                InputFile::FileId(s) => s.clone(),
                InputFile::Url(s) => s.clone(),
                InputFile::Reader(_) => {
                    let mut r = String::from_str("attach://");
                    r.append(attach_name.as_str());
                    r
                }
            };
            proof {
                assert(attach_name@ == attach_name_at(i as int));
                assert(attach_ref@ == sticker_ref(stv.sticker, attach_name_at(i as int)));
            }
            let body = {
                let mut obj = JsonObject::new();
                obj.set("sticker", JsonValue::Str(attach_ref));
                obj.set("emoji_list", strings_to_json(&st.emoji_list));
                obj.set_opt("mask_position", opt_mask_value(&st.mask_position));
                obj.set_opt("keywords", opt_strings_value(&st.keywords));
                obj.into_value()
            };
            proof {
                assert(body@ == input_sticker_json(stv, attach_name_at(i as int)));
            }
            items.push(body);
            match st.sticker {
                InputFile::Reader(bytes) => {
                    fields.push((attach_name, FormValue::File(InputFile::Reader(bytes))));
                }
                _ => {}
            }
            i = i + 1;
            proof {
                let t = whole.take(i as int);
                assert(t.drop_last() =~= whole.take(i - 1));
                assert(t.last() == whole[i - 1]);
                assert(Seq::new(fields@.len(), |k: int| (fields@[k].0@, fields@[k].1@))
                    =~= reader_entries(whole.take(i as int)));
            }
        }
        proof {
            assert(whole.take(i as int) =~= whole);
        }
        let arr = JsonValue::Arr(items);
        proof {
            crate::json::lemma_arr_view_elementwise(arr->Arr_0@);
            assert(arr@->Arr_0 =~= stickers_arr(whole));
        }
        fields.push((String::from_str("stickers"), FormValue::Text(crate::json::render_json(&arr))));
        let form = Form { fields };
        proof {
            assert(form@ =~= reader_entries(whole).push(
                ("stickers"@, FormValueData::Text(json_text(JsonData::Arr(stickers_arr(whole))))),
            ));
        }
        form
    }
}

} // verus!
