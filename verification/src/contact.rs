use vstd::prelude::*;

verus! {

use crate::api::{Payload, RequestBody};
use crate::Integer;
use crate::json::{
    json_text, opt_bool_value, opt_int_value, opt_str_value, JsonData, JsonObject, JsonValue,
};
use crate::markup::{
    opt_reply_markup_value, opt_reply_parameters_value, reply_markup_json, reply_parameters_json,
    view_opt_reply_markup, view_opt_reply_parameters, ReplyMarkup, ReplyMarkupData,
    ReplyParameters, ReplyParametersData,
};
use crate::primitive::{chat_id_json, view_opt_int, view_opt_str, ChatId, ChatIdData};

/// Represents a phone contact.
#[derive(Clone, Debug)]
pub struct Contact {
    /// First name.
    pub first_name: String,
    /// Phone number.
    pub phone_number: String,
    /// Last name.
    pub last_name: Option<String>,
    /// Identifier of the contact's account, when known.
    pub user_id: Option<Integer>,
    /// Additional data in the form of a vCard.
    pub vcard: Option<String>,
}

/// Model of a contact.
pub struct ContactData {
    pub first_name: Seq<char>,
    pub phone_number: Seq<char>,
    pub last_name: Option<Seq<char>>,
    pub user_id: Option<int>,
    pub vcard: Option<Seq<char>>,
}

impl View for Contact {
    type V = ContactData;

    open spec fn view(&self) -> ContactData {
        ContactData {
            first_name: self.first_name@,
            phone_number: self.phone_number@,
            last_name: view_opt_str(self.last_name),
            user_id: view_opt_int(self.user_id),
            vcard: view_opt_str(self.vcard),
        }
    }
}

impl Contact {
    /// Creates a new `Contact`.
    pub fn new(first_name: &str, phone_number: &str) -> (r: Contact)
        ensures
            r@ == (ContactData {
                first_name: first_name@,
                phone_number: phone_number@,
                last_name: None,
                user_id: None,
                vcard: None,
            }),
    {
        Contact {
            first_name: String::from_str(first_name),
            phone_number: String::from_str(phone_number),
            last_name: None,
            user_id: None,
            vcard: None,
        }
    }

    /// Sets a new last name.
    pub fn with_last_name(self, value: &str) -> (r: Contact)
        ensures
            r@ == (ContactData { last_name: Some(value@), ..self@ }),
    {
        Contact { last_name: Some(String::from_str(value)), ..self }
    }

    /// Sets a new user ID.
    pub fn with_user_id(self, value: Integer) -> (r: Contact)
        ensures
            r@ == (ContactData { user_id: Some(value as int), ..self@ }),
    {
        Contact { user_id: Some(value), ..self }
    }

    /// Sets a new vCard.
    pub fn with_vcard(self, value: &str) -> (r: Contact)
        ensures
            r@ == (ContactData { vcard: Some(value@), ..self@ }),
    {
        Contact { vcard: Some(String::from_str(value)), ..self }
    }
}

/// Sends a phone contact.
#[derive(Clone, Debug)]
pub struct SendContact {
    pub chat_id: ChatId,
    pub first_name: String,
    pub phone_number: String,
    pub business_connection_id: Option<String>,
    pub disable_notification: Option<bool>,
    pub last_name: Option<String>,
    pub message_thread_id: Option<Integer>,
    pub protect_content: Option<bool>,
    pub reply_markup: Option<ReplyMarkup>,
    pub reply_parameters: Option<ReplyParameters>,
    pub vcard: Option<String>,
}

/// Model of `SendContact`.
pub struct SendContactData {
    pub chat_id: ChatIdData,
    pub first_name: Seq<char>,
    pub phone_number: Seq<char>,
    pub business_connection_id: Option<Seq<char>>,
    pub disable_notification: Option<bool>,
    pub last_name: Option<Seq<char>>,
    pub message_thread_id: Option<int>,
    pub protect_content: Option<bool>,
    pub reply_markup: Option<ReplyMarkupData>,
    pub reply_parameters: Option<ReplyParametersData>,
    pub vcard: Option<Seq<char>>,
}

impl View for SendContact {
    type V = SendContactData;

    open spec fn view(&self) -> SendContactData {
        SendContactData {
            chat_id: self.chat_id@,
            first_name: self.first_name@,
            phone_number: self.phone_number@,
            business_connection_id: view_opt_str(self.business_connection_id),
            disable_notification: self.disable_notification,
            last_name: view_opt_str(self.last_name),
            message_thread_id: view_opt_int(self.message_thread_id),
            protect_content: self.protect_content,
            reply_markup: view_opt_reply_markup(self.reply_markup),
            reply_parameters: view_opt_reply_parameters(self.reply_parameters),
            vcard: view_opt_str(self.vcard),
        }
    }
}

/// Members of the JSON object, in wire order; absent options add nothing.
pub open spec fn send_contact_members(v: SendContactData) -> Seq<(Seq<char>, JsonData)> {
    let m = Seq::<(Seq<char>, JsonData)>::empty();
    let m = m.push(("chat_id"@, chat_id_json(v.chat_id)));
    let m = m.push(("first_name"@, JsonData::Str(v.first_name)));
    let m = m.push(("phone_number"@, JsonData::Str(v.phone_number)));
    let m = match v.business_connection_id {
        Some(x) => m.push(("business_connection_id"@, JsonData::Str(x))),
        None => m,
    };
    let m = match v.disable_notification {
        Some(x) => m.push(("disable_notification"@, JsonData::Bool(x))),
        None => m,
    };
    let m = match v.last_name {
        Some(x) => m.push(("last_name"@, JsonData::Str(x))),
        None => m,
    };
    let m = match v.message_thread_id {
        Some(x) => m.push(("message_thread_id"@, JsonData::Int(x))),
        None => m,
    };
    let m = match v.protect_content {
        Some(x) => m.push(("protect_content"@, JsonData::Bool(x))),
        None => m,
    };
    let m = match v.reply_markup {
        Some(x) => m.push(("reply_markup"@, reply_markup_json(x))),
        None => m,
    };
    let m = match v.reply_parameters {
        Some(x) => m.push(("reply_parameters"@, reply_parameters_json(x))),
        None => m,
    };
    let m = match v.vcard {
        Some(x) => m.push(("vcard"@, JsonData::Str(x))),
        None => m,
    };
    m
}

/// JSON object sent for `SendContact`.
pub open spec fn send_contact_json(v: SendContactData) -> JsonData {
    JsonData::Obj(send_contact_members(v))
}

impl SendContact {
    /// Creates a new `SendContact` with empty optional parameters.
    pub fn new(chat_id: ChatId, first_name: &str, phone_number: &str) -> (r: SendContact)
        ensures
            r@ == (SendContactData {
                chat_id: chat_id@,
                first_name: first_name@,
                phone_number: phone_number@,
                business_connection_id: None,
                disable_notification: None,
                last_name: None,
                message_thread_id: None,
                protect_content: None,
                reply_markup: None,
                reply_parameters: None,
                vcard: None,
            }),
    {
        SendContact {
            chat_id,
            first_name: String::from_str(first_name),
            phone_number: String::from_str(phone_number),
            business_connection_id: None,
            disable_notification: None,
            last_name: None,
            message_thread_id: None,
            protect_content: None,
            reply_markup: None,
            reply_parameters: None,
            vcard: None,
        }
    }

    /// Sets the unique identifier of the business connection.
    pub fn with_business_connection_id(self, value: &str) -> (r: SendContact)
        ensures
            r@ == (SendContactData { business_connection_id: Some(value@), ..self@ }),
    {
        SendContact { business_connection_id: Some(String::from_str(value)), ..self }
    }

    /// Sends the message silently.
    pub fn with_disable_notification(self, value: bool) -> (r: SendContact)
        ensures
            r@ == (SendContactData { disable_notification: Some(value), ..self@ }),
    {
        SendContact { disable_notification: Some(value), ..self }
    }

    /// Sets the contact's last name.
    pub fn with_last_name(self, value: &str) -> (r: SendContact)
        ensures
            r@ == (SendContactData { last_name: Some(value@), ..self@ }),
    {
        SendContact { last_name: Some(String::from_str(value)), ..self }
    }

    /// Sets the target message thread, supergroups only.
    pub fn with_message_thread_id(self, value: Integer) -> (r: SendContact)
        ensures
            r@ == (SendContactData { message_thread_id: Some(value as int), ..self@ }),
    {
        SendContact { message_thread_id: Some(value), ..self }
    }

    /// Protects the contents of the sent message from forwarding and saving.
    pub fn with_protect_content(self, value: bool) -> (r: SendContact)
        ensures
            r@ == (SendContactData { protect_content: Some(value), ..self@ }),
    {
        SendContact { protect_content: Some(value), ..self }
    }

    /// Attaches a reply markup.
    pub fn with_reply_markup(self, value: ReplyMarkup) -> (r: SendContact)
        ensures
            r@ == (SendContactData { reply_markup: Some(value@), ..self@ }),
    {
        SendContact { reply_markup: Some(value), ..self }
    }

    /// Describes the message to reply to.
    pub fn with_reply_parameters(self, value: ReplyParameters) -> (r: SendContact)
        ensures
            r@ == (SendContactData { reply_parameters: Some(value@), ..self@ }),
    {
        SendContact { reply_parameters: Some(value), ..self }
    }

    /// Sets additional data about the contact as a vCard.
    pub fn with_vcard(self, value: &str) -> (r: SendContact)
        ensures
            r@ == (SendContactData { vcard: Some(value@), ..self@ }),
    {
        SendContact { vcard: Some(String::from_str(value)), ..self }
    }

    /// JSON object of the call.
    pub fn to_json(&self) -> (r: JsonValue)
        ensures
            r@ == send_contact_json(self@),
    {
        let mut obj = JsonObject::new();
        obj.set("chat_id", self.chat_id.to_json());
        obj.set("first_name", JsonValue::Str(self.first_name.clone()));
        obj.set("phone_number", JsonValue::Str(self.phone_number.clone()));
        obj.set_opt("business_connection_id", opt_str_value(&self.business_connection_id));
        obj.set_opt("disable_notification", opt_bool_value(self.disable_notification));
        obj.set_opt("last_name", opt_str_value(&self.last_name));
        obj.set_opt("message_thread_id", opt_int_value(self.message_thread_id));
        obj.set_opt("protect_content", opt_bool_value(self.protect_content));
        obj.set_opt("reply_markup", opt_reply_markup_value(&self.reply_markup));
        obj.set_opt("reply_parameters", opt_reply_parameters_value(&self.reply_parameters));
        obj.set_opt("vcard", opt_str_value(&self.vcard));
        proof {
            assert(obj@ == send_contact_members(self@));
        }
        obj.into_value()
    }

    /// The payload of the call: `sendContact` with the JSON body.
    pub fn into_payload(self) -> (r: Payload)
        ensures
            r.name@ == "sendContact"@,
            r.body matches RequestBody::Json(s) && s@ == json_text(send_contact_json(self@)),
    {
        let body = self.to_json();
        Payload::json("sendContact", &body)
    }
}


} // verus!
