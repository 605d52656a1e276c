use vstd::prelude::*;

verus! {

use crate::Integer;
use crate::json::{opt_bool_value, opt_int_value, opt_str_value, JsonData, JsonObject, JsonValue};
use crate::primitive::{opt_parse_mode_value, view_opt_int, view_opt_str, ParseMode};
use crate::text::{
    entities_data, entities_json, opt_entities_value, view_opt_entities, TextEntities, TextEntity,
    TextEntityData,
};

/// Animation file (GIF or H.264/MPEG-4 AVC video without sound) to be sent.
#[derive(Clone, Debug)]
pub struct InputMediaAnimation {
    pub thumb: Option<String>,
    pub caption: Option<String>,
    pub caption_entities: Option<TextEntities>,
    pub parse_mode: Option<ParseMode>,
    pub width: Option<Integer>,
    pub height: Option<Integer>,
    pub duration: Option<Integer>,
}

/// Model of `InputMediaAnimation`.
pub struct InputMediaAnimationData {
    pub thumb: Option<Seq<char>>,
    pub caption: Option<Seq<char>>,
    pub caption_entities: Option<Seq<TextEntityData>>,
    pub parse_mode: Option<ParseMode>,
    pub width: Option<int>,
    pub height: Option<int>,
    pub duration: Option<int>,
}

impl View for InputMediaAnimation {
    type V = InputMediaAnimationData;

    open spec fn view(&self) -> InputMediaAnimationData {
        InputMediaAnimationData {
            thumb: view_opt_str(self.thumb),
            caption: view_opt_str(self.caption),
            caption_entities: view_opt_entities(self.caption_entities),
            parse_mode: self.parse_mode,
            width: view_opt_int(self.width),
            height: view_opt_int(self.height),
            duration: view_opt_int(self.duration),
        }
    }
}

/// Members of the JSON object, in wire order; absent options add nothing.
pub open spec fn input_media_animation_members(v: InputMediaAnimationData) -> Seq<(Seq<char>, JsonData)> {
    let m = Seq::<(Seq<char>, JsonData)>::empty();
    let m = match v.thumb {
        Some(x) => m.push(("thumb"@, JsonData::Str(x))),
        None => m,
    };
    let m = match v.caption {
        Some(x) => m.push(("caption"@, JsonData::Str(x))),
        None => m,
    };
    let m = match v.caption_entities {
        Some(x) => m.push(("caption_entities"@, entities_json(x))),
        None => m,
    };
    let m = match v.parse_mode {
        Some(x) => m.push(("parse_mode"@, JsonData::Str(x.spec_name()))),
        None => m,
    };
    let m = match v.width {
        Some(x) => m.push(("width"@, JsonData::Int(x))),
        None => m,
    };
    let m = match v.height {
        Some(x) => m.push(("height"@, JsonData::Int(x))),
        None => m,
    };
    let m = match v.duration {
        Some(x) => m.push(("duration"@, JsonData::Int(x))),
        None => m,
    };
    m
}

/// JSON object sent for `InputMediaAnimation`.
pub open spec fn input_media_animation_json(v: InputMediaAnimationData) -> JsonData {
    JsonData::Obj(input_media_animation_members(v))
}

impl InputMediaAnimation {
    /// Sets a thumbnail for the animation.
    pub fn thumb(self, value: &str) -> (r: InputMediaAnimation)
        ensures
            r@ == (InputMediaAnimationData { thumb: Some(value@), ..self@ }),
    {
        InputMediaAnimation { thumb: Some(String::from_str(value)), ..self }
    }

    /// Sets the caption of the animation.
    pub fn caption(self, value: &str) -> (r: InputMediaAnimation)
        ensures
            r@ == (InputMediaAnimationData { caption: Some(value@), ..self@ }),
    {
        InputMediaAnimation { caption: Some(String::from_str(value)), ..self }
    }

    /// Sets the entities of the caption; the parse mode is cleared.
    pub fn caption_entities(self, value: Vec<TextEntity>) -> (r: InputMediaAnimation)
        ensures
            r@ == (InputMediaAnimationData { caption_entities: Some(entities_data(value@)), parse_mode: None, ..self@ }),
    {
        InputMediaAnimation { caption_entities: Some(TextEntities::from_vec(value)),parse_mode: None, ..self }
    }

    /// Sets the parse mode.
    pub fn parse_mode(self, value: ParseMode) -> (r: InputMediaAnimation)
        ensures
            r@ == (InputMediaAnimationData { parse_mode: Some(value), ..self@ }),
    {
        InputMediaAnimation { parse_mode: Some(value), ..self }
    }

    /// Sets the width of the animation.
    pub fn width(self, value: Integer) -> (r: InputMediaAnimation)
        ensures
            r@ == (InputMediaAnimationData { width: Some(value as int), ..self@ }),
    {
        InputMediaAnimation { width: Some(value), ..self }
    }

    /// Sets the height of the animation.
    pub fn height(self, value: Integer) -> (r: InputMediaAnimation)
        ensures
            r@ == (InputMediaAnimationData { height: Some(value as int), ..self@ }),
    {
        InputMediaAnimation { height: Some(value), ..self }
    }

    /// Sets the duration of the animation.
    pub fn duration(self, value: Integer) -> (r: InputMediaAnimation)
        ensures
            r@ == (InputMediaAnimationData { duration: Some(value as int), ..self@ }),
    {
        InputMediaAnimation { duration: Some(value), ..self }
    }

    /// JSON object of the call.
    pub fn to_json(&self) -> (r: JsonValue)
        ensures
            r@ == input_media_animation_json(self@),
    {
        let mut obj = JsonObject::new();
        obj.set_opt("thumb", opt_str_value(&self.thumb));
        obj.set_opt("caption", opt_str_value(&self.caption));
        obj.set_opt("caption_entities", opt_entities_value(&self.caption_entities));
        obj.set_opt("parse_mode", opt_parse_mode_value(&self.parse_mode));
        obj.set_opt("width", opt_int_value(self.width));
        obj.set_opt("height", opt_int_value(self.height));
        obj.set_opt("duration", opt_int_value(self.duration));
        proof {
            assert(obj@ == input_media_animation_members(self@));
        }
        obj.into_value()
    }
}

/// A photo to be sent.
#[derive(Clone, Debug)]
pub struct InputMediaPhoto {
    pub caption: Option<String>,
    pub caption_entities: Option<TextEntities>,
    pub has_spoiler: Option<bool>,
    pub parse_mode: Option<ParseMode>,
}

/// Model of `InputMediaPhoto`.
pub struct InputMediaPhotoData {
    pub caption: Option<Seq<char>>,
    pub caption_entities: Option<Seq<TextEntityData>>,
    pub has_spoiler: Option<bool>,
    pub parse_mode: Option<ParseMode>,
}

impl View for InputMediaPhoto {
    type V = InputMediaPhotoData;

    open spec fn view(&self) -> InputMediaPhotoData {
        InputMediaPhotoData {
            caption: view_opt_str(self.caption),
            caption_entities: view_opt_entities(self.caption_entities),
            has_spoiler: self.has_spoiler,
            parse_mode: self.parse_mode,
        }
    }
}

/// Members of the JSON object, in wire order; absent options add nothing.
pub open spec fn input_media_photo_members(v: InputMediaPhotoData) -> Seq<(Seq<char>, JsonData)> {
    let m = Seq::<(Seq<char>, JsonData)>::empty();
    let m = match v.caption {
        Some(x) => m.push(("caption"@, JsonData::Str(x))),
        None => m,
    };
    let m = match v.caption_entities {
        Some(x) => m.push(("caption_entities"@, entities_json(x))),
        None => m,
    };
    let m = match v.has_spoiler {
        Some(x) => m.push(("has_spoiler"@, JsonData::Bool(x))),
        None => m,
    };
    let m = match v.parse_mode {
        Some(x) => m.push(("parse_mode"@, JsonData::Str(x.spec_name()))),
        None => m,
    };
    m
}

/// JSON object sent for `InputMediaPhoto`.
pub open spec fn input_media_photo_json(v: InputMediaPhotoData) -> JsonData {
    JsonData::Obj(input_media_photo_members(v))
}

impl InputMediaPhoto {
    /// Sets the caption of the photo.
    pub fn with_caption(self, value: &str) -> (r: InputMediaPhoto)
        ensures
            r@ == (InputMediaPhotoData { caption: Some(value@), ..self@ }),
    {
        InputMediaPhoto { caption: Some(String::from_str(value)), ..self }
    }

    /// Sets the entities of the caption; the parse mode is cleared.
    pub fn with_caption_entities(self, value: Vec<TextEntity>) -> (r: InputMediaPhoto)
        ensures
            r@ == (InputMediaPhotoData { caption_entities: Some(entities_data(value@)), parse_mode: None, ..self@ }),
    {
        InputMediaPhoto { caption_entities: Some(TextEntities::from_vec(value)),parse_mode: None, ..self }
    }

    /// Sets the parse mode of the caption; caption entities are cleared.
    pub fn with_caption_parse_mode(self, value: ParseMode) -> (r: InputMediaPhoto)
        ensures
            r@ == (InputMediaPhotoData { parse_mode: Some(value), caption_entities: None, ..self@ }),
    {
        InputMediaPhoto { parse_mode: Some(value),caption_entities: None, ..self }
    }

    /// Covers the photo with a spoiler animation.
    pub fn with_has_spoiler(self, value: bool) -> (r: InputMediaPhoto)
        ensures
            r@ == (InputMediaPhotoData { has_spoiler: Some(value), ..self@ }),
    {
        InputMediaPhoto { has_spoiler: Some(value), ..self }
    }

    /// JSON object of the call.
    pub fn to_json(&self) -> (r: JsonValue)
        ensures
            r@ == input_media_photo_json(self@),
    {
        let mut obj = JsonObject::new();
        obj.set_opt("caption", opt_str_value(&self.caption));
        obj.set_opt("caption_entities", opt_entities_value(&self.caption_entities));
        obj.set_opt("has_spoiler", opt_bool_value(self.has_spoiler));
        obj.set_opt("parse_mode", opt_parse_mode_value(&self.parse_mode));
        proof {
            assert(obj@ == input_media_photo_members(self@));
        }
        obj.into_value()
    }
}


impl Default for InputMediaAnimation {
    /// An animation with every member absent.
    fn default() -> (r: InputMediaAnimation)
        ensures
            r@ == (InputMediaAnimationData {
                thumb: None,
                caption: None,
                caption_entities: None,
                parse_mode: None,
                width: None,
                height: None,
                duration: None,
            }),
    {
        InputMediaAnimation {
            thumb: None,
            caption: None,
            caption_entities: None,
            parse_mode: None,
            width: None,
            height: None,
            duration: None,
        }
    }
}

impl Default for InputMediaPhoto {
    /// A photo with every member absent.
    fn default() -> (r: InputMediaPhoto)
        ensures
            r@ == (InputMediaPhotoData {
                caption: None,
                caption_entities: None,
                has_spoiler: None,
                parse_mode: None,
            }),
    {
        InputMediaPhoto {
            caption: None,
            caption_entities: None,
            has_spoiler: None,
            parse_mode: None,
        }
    }
}

} // verus!
