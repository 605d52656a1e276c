use vstd::prelude::*;

verus! {

use crate::api::{Payload, RequestBody};
use crate::Integer;
use crate::json::{
    lemma_arr_view_elementwise, lookup_field, opt_int_value, str_eq, without_field, JsonData,
    JsonObject, JsonValue,
};
use crate::primitive::view_opt_int;

/// Kind of update that the remote service may be asked to deliver.
#[derive(Clone, Copy, Debug, PartialEq, Eq, Structural)]
pub enum AllowedUpdate {
    Message,
    EditedMessage,
    ChannelPost,
    EditedChannelPost,
    InlineQuery,
    ChosenInlineResult,
    CallbackQuery,
    ShippingQuery,
    PreCheckoutQuery,
    Poll,
    PollAnswer,
    UserStatus,
}

impl AllowedUpdate {
    /// Name of the kind on the wire.
    pub open spec fn spec_name(self) -> Seq<char> {
        match self {
            AllowedUpdate::Message => "message"@,
            AllowedUpdate::EditedMessage => "edited_message"@,
            AllowedUpdate::ChannelPost => "channel_post"@,
            AllowedUpdate::EditedChannelPost => "edited_channel_post"@,
            AllowedUpdate::InlineQuery => "inline_query"@,
            AllowedUpdate::ChosenInlineResult => "chosen_inline_result"@,
            AllowedUpdate::CallbackQuery => "callback_query"@,
            AllowedUpdate::ShippingQuery => "shipping_query"@,
            AllowedUpdate::PreCheckoutQuery => "pre_checkout_query"@,
            AllowedUpdate::Poll => "poll"@,
            AllowedUpdate::PollAnswer => "poll_answer"@,
            AllowedUpdate::UserStatus => "chat_member"@,
        }
    }

    /// Returns the wire name of the kind.
    pub fn as_str(&self) -> (r: &'static str)
        ensures
            r@ == self.spec_name(),
    {
        match self {
            AllowedUpdate::Message => "message",
            AllowedUpdate::EditedMessage => "edited_message",
            AllowedUpdate::ChannelPost => "channel_post",
            AllowedUpdate::EditedChannelPost => "edited_channel_post",
            AllowedUpdate::InlineQuery => "inline_query",
            AllowedUpdate::ChosenInlineResult => "chosen_inline_result",
            AllowedUpdate::CallbackQuery => "callback_query",
            AllowedUpdate::ShippingQuery => "shipping_query",
            AllowedUpdate::PreCheckoutQuery => "pre_checkout_query",
            AllowedUpdate::Poll => "poll",
            AllowedUpdate::PollAnswer => "poll_answer",
            AllowedUpdate::UserStatus => "chat_member",
        }
    }
}

/// The payload of an update: exactly one of the named kinds, or an unknown
/// shape kept as its raw members.
#[derive(Debug)]
pub enum UpdateType {
    /// New incoming message.
    Message(JsonValue),
    /// New version of an edited message.
    EditedMessage(JsonValue),
    /// New channel post.
    ChannelPost(JsonValue),
    /// New version of an edited channel post.
    EditedChannelPost(JsonValue),
    /// New inline query.
    InlineQuery(JsonValue),
    /// Result of an inline query chosen by a user.
    ChosenInlineResult(JsonValue),
    /// New callback query.
    CallbackQuery(JsonValue),
    /// New shipping query.
    ShippingQuery(JsonValue),
    /// New pre-checkout query.
    PreCheckoutQuery(JsonValue),
    /// New poll state.
    Poll(JsonValue),
    /// A changed poll answer.
    PollAnswer(JsonValue),
    /// The bot's own chat member status changed.
    BotStatus(JsonValue),
    /// A chat member's status changed.
    UserStatus(JsonValue),
    /// A request to join a chat.
    ChatJoinRequest(JsonValue),
    /// An update shape this library does not know; its raw members are kept.
    Unknown(JsonValue),
}

/// Model of an update payload.
pub enum UpdateTypeData {
    Message(JsonData),
    EditedMessage(JsonData),
    ChannelPost(JsonData),
    EditedChannelPost(JsonData),
    InlineQuery(JsonData),
    ChosenInlineResult(JsonData),
    CallbackQuery(JsonData),
    ShippingQuery(JsonData),
    PreCheckoutQuery(JsonData),
    Poll(JsonData),
    PollAnswer(JsonData),
    BotStatus(JsonData),
    UserStatus(JsonData),
    ChatJoinRequest(JsonData),
    Unknown(JsonData),
}

impl View for UpdateType {
    type V = UpdateTypeData;

    open spec fn view(&self) -> UpdateTypeData {
        match self {
            UpdateType::Message(p) => UpdateTypeData::Message(p@),
            UpdateType::EditedMessage(p) => UpdateTypeData::EditedMessage(p@),
            UpdateType::ChannelPost(p) => UpdateTypeData::ChannelPost(p@),
            UpdateType::EditedChannelPost(p) => UpdateTypeData::EditedChannelPost(p@),
            UpdateType::InlineQuery(p) => UpdateTypeData::InlineQuery(p@),
            UpdateType::ChosenInlineResult(p) => UpdateTypeData::ChosenInlineResult(p@),
            UpdateType::CallbackQuery(p) => UpdateTypeData::CallbackQuery(p@),
            UpdateType::ShippingQuery(p) => UpdateTypeData::ShippingQuery(p@),
            UpdateType::PreCheckoutQuery(p) => UpdateTypeData::PreCheckoutQuery(p@),
            UpdateType::Poll(p) => UpdateTypeData::Poll(p@),
            UpdateType::PollAnswer(p) => UpdateTypeData::PollAnswer(p@),
            UpdateType::BotStatus(p) => UpdateTypeData::BotStatus(p@),
            UpdateType::UserStatus(p) => UpdateTypeData::UserStatus(p@),
            UpdateType::ChatJoinRequest(p) => UpdateTypeData::ChatJoinRequest(p@),
            UpdateType::Unknown(p) => UpdateTypeData::Unknown(p@),
        }
    }
}

/// One inbound event envelope: a sequence number and one payload.
#[derive(Debug)]
pub struct Update {
    /// Monotonically increasing update identifier.
    pub id: Integer,
    /// The payload of the update.
    pub update_type: UpdateType,
}

/// Model of an update.
pub struct UpdateData {
    pub id: int,
    pub update_type: UpdateTypeData,
}

impl View for Update {
    type V = UpdateData;

    open spec fn view(&self) -> UpdateData {
        UpdateData { id: self.id as int, update_type: self.update_type@ }
    }
}

impl Update {
    /// Creates a new update.
    pub fn new(id: Integer, update_type: UpdateType) -> (r: Update)
        ensures
            r@ == (UpdateData { id: id as int, update_type: update_type@ }),
    {
        Update { id, update_type }
    }
}

/// Whether a member name is one of the known payload keys.
pub open spec fn known_key(k: Seq<char>) -> bool {
    ||| k == "message"@
    ||| k == "edited_message"@
    ||| k == "channel_post"@
    ||| k == "edited_channel_post"@
    ||| k == "inline_query"@
    ||| k == "chosen_inline_result"@
    ||| k == "callback_query"@
    ||| k == "shipping_query"@
    ||| k == "pre_checkout_query"@
    ||| k == "poll"@
    ||| k == "poll_answer"@
    ||| k == "my_chat_member"@
    ||| k == "chat_member"@
    ||| k == "chat_join_request"@
}

/// The payload kind stored under a known key.
pub open spec fn variant_of(k: Seq<char>, p: JsonData) -> UpdateTypeData {
    if k == "message"@ { UpdateTypeData::Message(p) }
    else if k == "edited_message"@ { UpdateTypeData::EditedMessage(p) }
    else if k == "channel_post"@ { UpdateTypeData::ChannelPost(p) }
    else if k == "edited_channel_post"@ { UpdateTypeData::EditedChannelPost(p) }
    else if k == "inline_query"@ { UpdateTypeData::InlineQuery(p) }
    else if k == "chosen_inline_result"@ { UpdateTypeData::ChosenInlineResult(p) }
    else if k == "callback_query"@ { UpdateTypeData::CallbackQuery(p) }
    else if k == "shipping_query"@ { UpdateTypeData::ShippingQuery(p) }
    else if k == "pre_checkout_query"@ { UpdateTypeData::PreCheckoutQuery(p) }
    else if k == "poll"@ { UpdateTypeData::Poll(p) }
    else if k == "poll_answer"@ { UpdateTypeData::PollAnswer(p) }
    else if k == "my_chat_member"@ { UpdateTypeData::BotStatus(p) }
    else if k == "chat_member"@ { UpdateTypeData::UserStatus(p) }
    else { UpdateTypeData::ChatJoinRequest(p) }
}

/// The key a payload kind is stored under.
pub open spec fn update_key(t: UpdateTypeData) -> Seq<char> {
    match t {
        UpdateTypeData::Message(_) => "message"@,
        UpdateTypeData::EditedMessage(_) => "edited_message"@,
        UpdateTypeData::ChannelPost(_) => "channel_post"@,
        UpdateTypeData::EditedChannelPost(_) => "edited_channel_post"@,
        UpdateTypeData::InlineQuery(_) => "inline_query"@,
        UpdateTypeData::ChosenInlineResult(_) => "chosen_inline_result"@,
        UpdateTypeData::CallbackQuery(_) => "callback_query"@,
        UpdateTypeData::ShippingQuery(_) => "shipping_query"@,
        UpdateTypeData::PreCheckoutQuery(_) => "pre_checkout_query"@,
        UpdateTypeData::Poll(_) => "poll"@,
        UpdateTypeData::PollAnswer(_) => "poll_answer"@,
        UpdateTypeData::BotStatus(_) => "my_chat_member"@,
        UpdateTypeData::UserStatus(_) => "chat_member"@,
        UpdateTypeData::ChatJoinRequest(_) => "chat_join_request"@,
        UpdateTypeData::Unknown(_) => Seq::empty(),
    }
}

/// The raw payload of a kind.
pub open spec fn update_payload(t: UpdateTypeData) -> JsonData {
    match t {
        UpdateTypeData::Message(p) => p,
        UpdateTypeData::EditedMessage(p) => p,
        UpdateTypeData::ChannelPost(p) => p,
        UpdateTypeData::EditedChannelPost(p) => p,
        UpdateTypeData::InlineQuery(p) => p,
        UpdateTypeData::ChosenInlineResult(p) => p,
        UpdateTypeData::CallbackQuery(p) => p,
        UpdateTypeData::ShippingQuery(p) => p,
        UpdateTypeData::PreCheckoutQuery(p) => p,
        UpdateTypeData::Poll(p) => p,
        UpdateTypeData::PollAnswer(p) => p,
        UpdateTypeData::BotStatus(p) => p,
        UpdateTypeData::UserStatus(p) => p,
        UpdateTypeData::ChatJoinRequest(p) => p,
        UpdateTypeData::Unknown(p) => p,
    }
}

/// A well-formed update: a known payload is an object; an unknown payload is
/// an object whose member names are neither `update_id` nor a known key.
pub open spec fn update_wf(u: UpdateData) -> bool {
    match u.update_type {
        UpdateTypeData::Unknown(p) => p matches JsonData::Obj(fs) && forall|i: int|
            0 <= i < fs.len() ==> fs[i].0 != "update_id"@ && !known_key(#[trigger] fs[i].0),
        _ => update_payload(u.update_type) is Obj,
    }
}

/// The wire shape of an update: `update_id` first, then the payload under its
/// key, or the members of an unknown payload spliced in.
pub open spec fn encode_update(u: UpdateData) -> JsonData {
    match u.update_type {
        UpdateTypeData::Unknown(p) => match p {
            JsonData::Obj(fs) => JsonData::Obj(seq![("update_id"@, JsonData::Int(u.id))] + fs),
            _ => JsonData::Obj(seq![("update_id"@, JsonData::Int(u.id))]),
        },
        t => JsonData::Obj(
            seq![("update_id"@, JsonData::Int(u.id)), (update_key(t), update_payload(t))],
        ),
    }
}

/// Why a document is not an update.
#[derive(Clone, Copy, Debug, PartialEq, Eq, Structural)]
pub enum UpdateError {
    /// The body is not valid JSON that this model can carry.
    InvalidJson,
    /// The document is not a JSON object.
    NotObject,
    /// The object has no `update_id` member.
    MissingUpdateId,
    /// The `update_id` member is not an integer.
    InvalidUpdateId,
}

/// First member holding a known key with an object payload.
pub open spec fn find_variant(fs: Seq<(Seq<char>, JsonData)>) -> Option<(Seq<char>, JsonData)>
    decreases fs.len(),
{
    if fs.len() == 0 {
        None
    } else if known_key(fs[0].0) && fs[0].1 is Obj {
        Some(fs[0])
    } else {
        find_variant(fs.drop_first())
    }
}

/// The payload kind of the members of an update object (without `update_id`).
pub open spec fn decode_kind(fs: Seq<(Seq<char>, JsonData)>) -> UpdateTypeData {
    match find_variant(fs) {
        Some(kp) => variant_of(kp.0, kp.1),
        None => UpdateTypeData::Unknown(JsonData::Obj(fs)),
    }
}

/// What a JSON document decodes to: the update, or the exact error.
pub open spec fn decode_update(d: JsonData) -> Result<UpdateData, UpdateError> {
    match d {
        JsonData::Obj(fs) => match lookup_field(fs, "update_id"@) {
            Some(JsonData::Int(n)) => Ok(
                UpdateData { id: n, update_type: decode_kind(without_field(fs, "update_id"@)) },
            ),
            Some(_) => Err(UpdateError::InvalidUpdateId),
            None => Err(UpdateError::MissingUpdateId),
        },
        _ => Err(UpdateError::NotObject),
    }
}

fn is_known_key(name: &str) -> (r: bool)
    ensures
        r == known_key(name@),
{
    str_eq(name, "message") || str_eq(name, "edited_message") || str_eq(name, "channel_post")
        || str_eq(name, "edited_channel_post") || str_eq(name, "inline_query") || str_eq(
        name,
        "chosen_inline_result",
    ) || str_eq(name, "callback_query") || str_eq(name, "shipping_query") || str_eq(
        name,
        "pre_checkout_query",
    ) || str_eq(name, "poll") || str_eq(name, "poll_answer") || str_eq(name, "my_chat_member")
        || str_eq(name, "chat_member") || str_eq(name, "chat_join_request")
}

fn known_variant(name: &String, payload: JsonValue) -> (r: UpdateType)
    requires
        known_key(name@),
    ensures
        r@ == variant_of(name@, payload@),
{
    if str_eq(name.as_str(), "message") { UpdateType::Message(payload) }
    else if str_eq(name.as_str(), "edited_message") { UpdateType::EditedMessage(payload) }
    else if str_eq(name.as_str(), "channel_post") { UpdateType::ChannelPost(payload) }
    else if str_eq(name.as_str(), "edited_channel_post") { UpdateType::EditedChannelPost(payload) }
    else if str_eq(name.as_str(), "inline_query") { UpdateType::InlineQuery(payload) }
    else if str_eq(name.as_str(), "chosen_inline_result") { UpdateType::ChosenInlineResult(payload) }
    else if str_eq(name.as_str(), "callback_query") { UpdateType::CallbackQuery(payload) }
    else if str_eq(name.as_str(), "shipping_query") { UpdateType::ShippingQuery(payload) }
    else if str_eq(name.as_str(), "pre_checkout_query") { UpdateType::PreCheckoutQuery(payload) }
    else if str_eq(name.as_str(), "poll") { UpdateType::Poll(payload) }
    else if str_eq(name.as_str(), "poll_answer") { UpdateType::PollAnswer(payload) }
    else if str_eq(name.as_str(), "my_chat_member") { UpdateType::BotStatus(payload) }
    else if str_eq(name.as_str(), "chat_member") { UpdateType::UserStatus(payload) }
    else { UpdateType::ChatJoinRequest(payload) }
}

fn find_update_id(fields: &Vec<(String, JsonValue)>) -> (r: Result<i64, UpdateError>)
    ensures
        match lookup_field(crate::json::obj_view(fields@), "update_id"@) {
            Some(JsonData::Int(n)) => r matches Ok(m) && m as int == n,
            Some(_) => r == Err::<i64, UpdateError>(UpdateError::InvalidUpdateId),
            None => r == Err::<i64, UpdateError>(UpdateError::MissingUpdateId),
        },
{
    let ghost fsv = crate::json::obj_view(fields@);
    let mut i: usize = 0;
    proof {
        assert(fsv.skip(0) =~= fsv);
        crate::json::lemma_obj_view_len(fields@);
    }
    while i < fields.len()
        invariant
            i <= fields@.len(),
            fsv == crate::json::obj_view(fields@),
            fsv.len() == fields@.len(),
            lookup_field(fsv, "update_id"@) == lookup_field(fsv.skip(i as int), "update_id"@),
        decreases fields@.len() - i,
    {
        proof {
            crate::json::lemma_obj_view_index(fields@, i as int);
            assert(fsv.skip(i as int)[0] == fsv[i as int]);
        }
        if str_eq(fields[i].0.as_str(), "update_id") {
            match &fields[i].1 {
                JsonValue::Int(n) => {
                    return Ok(*n);
                }
                _ => {
                    return Err(UpdateError::InvalidUpdateId);
                }
            }
        }
        proof {
            assert(fsv.skip(i as int).drop_first() =~= fsv.skip(i as int + 1));
        }
        i = i + 1;
    }
    proof {
        assert(fsv.skip(fields@.len() as int) =~= Seq::<(Seq<char>, JsonData)>::empty());
    }
    Err(UpdateError::MissingUpdateId)
}

fn strip_update_id(fields: Vec<(String, JsonValue)>) -> (r: Vec<(String, JsonValue)>)
    ensures
        crate::json::obj_view(r@) == without_field(crate::json::obj_view(fields@), "update_id"@),
{
    let ghost fsv = crate::json::obj_view(fields@);
    let mut kept: Vec<(String, JsonValue)> = Vec::new();
    let mut held = fields;
    while held.len() > 0
        invariant
            without_field(fsv, "update_id"@) == without_field(
                crate::json::obj_view(held@),
                "update_id"@,
            ) + rev_members(crate::json::obj_view(kept@)),
        decreases held@.len(),
    {
        let ghost hv0 = held@;
        let ghost kept_pre = crate::json::obj_view(kept@);
        let p = held.pop().unwrap();
        let ghost pv = crate::json::member_view(p);
        proof {
            crate::json::lemma_obj_view_pop(hv0);
            assert(crate::json::obj_view(held@) == crate::json::obj_view(hv0).drop_last());
            assert(crate::json::obj_view(hv0).last() == pv);
        }
        if !str_eq(p.0.as_str(), "update_id") {
            let ghost kv0 = kept@;
            let ghost pp = p;
            kept.push(p);
            proof {
                crate::json::lemma_obj_view_push(kv0, pp);
                let kept_now = crate::json::obj_view(kept@);
                assert(kept_now == kept_pre.push(pv));
                assert(kept_now.drop_last() =~= kept_pre);
                assert(rev_members(kept_now) =~= seq![pv] + rev_members(kept_pre));
                assert(without_field(crate::json::obj_view(hv0), "update_id"@)
                    == without_field(crate::json::obj_view(held@), "update_id"@).push(pv));
                assert(without_field(crate::json::obj_view(held@), "update_id"@) + rev_members(kept_now)
                    =~= without_field(crate::json::obj_view(hv0), "update_id"@) + rev_members(kept_pre));
            }
        }
    }
    let mut members: Vec<(String, JsonValue)> = Vec::new();
    while kept.len() > 0
        invariant
            without_field(fsv, "update_id"@) == crate::json::obj_view(members@) + rev_members(
                crate::json::obj_view(kept@),
            ),
        decreases kept@.len(),
    {
        let ghost kv0 = kept@;
        let ghost mv0 = crate::json::obj_view(members@);
        let p = kept.pop().unwrap();
        let ghost pv = crate::json::member_view(p);
        let ghost pp = p;
        let ghost mvec0 = members@;
        proof {
            crate::json::lemma_obj_view_pop(kv0);
        }
        members.push(p);
        proof {
            crate::json::lemma_obj_view_push(mvec0, pp);
            assert(crate::json::obj_view(members@) == mv0.push(pv));
            let kept_now = crate::json::obj_view(kept@);
            assert(kept_now == crate::json::obj_view(kv0).drop_last());
            assert(rev_members(crate::json::obj_view(kv0)) =~= seq![pv] + rev_members(kept_now));
            assert(mv0 + rev_members(crate::json::obj_view(kv0)) =~= crate::json::obj_view(members@)
                + rev_members(kept_now));
        }
    }
    proof {
        assert(rev_members(crate::json::obj_view(kept@)) =~= Seq::<(Seq<char>, JsonData)>::empty());
        assert(crate::json::obj_view(members@) =~= crate::json::obj_view(members@)
            + rev_members(crate::json::obj_view(kept@)));
    }
    members
}

fn find_known(members: &Vec<(String, JsonValue)>) -> (r: Option<usize>)
    ensures
        match r {
            Some(j) => {
                let mv = crate::json::obj_view(members@);
                &&& j < members@.len()
                &&& find_variant(mv) == Some(mv[j as int])
                &&& known_key(mv[j as int].0)
                &&& mv[j as int].1 is Obj
            },
            None => find_variant(crate::json::obj_view(members@)) is None,
        },
{
    let ghost mv = crate::json::obj_view(members@);
    let mut j: usize = 0;
    proof {
        assert(mv.skip(0) =~= mv);
        crate::json::lemma_obj_view_len(members@);
    }
    while j < members.len()
        invariant
            j <= members@.len(),
            mv == crate::json::obj_view(members@),
            mv.len() == members@.len(),
            find_variant(mv) == find_variant(mv.skip(j as int)),
        decreases members@.len() - j,
    {
        proof {
            crate::json::lemma_obj_view_index(members@, j as int);
            assert(mv.skip(j as int)[0] == mv[j as int]);
        }
        let is_obj = match &members[j].1 {
            JsonValue::Obj(_) => true,
            _ => false,
        };
        if is_obj && is_known_key(members[j].0.as_str()) {
            return Some(j);
        }
        proof {
            assert(mv.skip(j as int).drop_first() =~= mv.skip(j as int + 1));
        }
        j = j + 1;
    }
    proof {
        assert(mv.skip(members@.len() as int) =~= Seq::<(Seq<char>, JsonData)>::empty());
    }
    None
}

impl Update {
    /// Reads an update out of a JSON document; fails with the exact error
    /// `decode_update` names for the document.
    pub fn from_json(value: JsonValue) -> (r: Result<Update, UpdateError>)
        ensures
            match r {
                Ok(u) => decode_update(value@) == Ok::<UpdateData, UpdateError>(u@),
                Err(e) => decode_update(value@) == Err::<UpdateData, UpdateError>(e),
            },
    {
        let ghost dv = value@;
        let fields = match value {
            JsonValue::Obj(fields) => fields,
            _ => {
                return Err(UpdateError::NotObject);
            }
        };
        let ghost fsv = crate::json::obj_view(fields@);
        proof {
            assert(dv == JsonData::Obj(fsv));
        }
        let id = match find_update_id(&fields) {
            Ok(n) => n,
            Err(e) => {
                return Err(e);
            }
        };
        let mut members = strip_update_id(fields);
        let ghost mv = crate::json::obj_view(members@);
        match find_known(&members) {
            Some(j) => {
                let ghost m0 = members@;
                let pair = members.remove(j);
                let ghost pv = crate::json::member_view(pair);
                proof {
                    crate::json::lemma_obj_view_index(m0, j as int);
                    assert(pair == m0[j as int]);
                    assert(pv == mv[j as int]);
                }
                let kind = known_variant(&pair.0, pair.1);
                Ok(Update { id, update_type: kind })
            }
            None => Ok(Update { id, update_type: UpdateType::Unknown(JsonValue::Obj(members)) }),
        }
    }

    /// The wire shape of the update as a JSON document.
    pub fn into_json(self) -> (r: JsonValue)
        ensures
            r@ == encode_update(self@),
    {
        let ghost uv = self@;
        match self.update_type {
            UpdateType::Unknown(p) => {
                let mut fields: Vec<(String, JsonValue)> = Vec::new();
                let ghost f0 = fields@;
                let id_pair = (String::from_str("update_id"), JsonValue::Int(self.id));
                let ghost idp = id_pair;
                fields.push(id_pair);
                proof {
                    crate::json::lemma_obj_view_push(f0, idp);
                    assert(crate::json::obj_view(f0) =~= Seq::<(Seq<char>, JsonData)>::empty());
                    assert(crate::json::obj_view(fields@) =~= seq![("update_id"@, JsonData::Int(uv.id))]);
                }
                match p {
                    JsonValue::Obj(extra) => {
                        let ghost extra0 = extra@;
                        let ghost ev = crate::json::obj_view(extra@);
                        let mut src = extra;
                        proof {
                            crate::json::lemma_obj_view_len(extra0);
                            assert forall|k: int| 0 <= k < extra0.len() implies (
                                #[trigger] extra0[k].0@,
                                extra0[k].1@,
                            ) == ev[k] by {
                                crate::json::lemma_obj_view_index(extra0, k);
                            }
                        }
                        let total = src.len();
                        let mut i: usize = 0;
                        while src.len() > 0
                            invariant
                                i + src@.len() == total,
                                ev.len() == total,
                                forall|k: int| 0 <= k < src@.len() ==> (
                                    #[trigger] src@[k].0@,
                                    src@[k].1@,
                                ) == ev[i + k],
                                crate::json::obj_view(fields@) == seq![
                                    ("update_id"@, JsonData::Int(uv.id)),
                                ] + ev.take(i as int),
                            decreases src@.len(),
                        {
                            let ghost pre = crate::json::obj_view(fields@);
                            let ghost fv0 = fields@;
                            let q = src.remove(0);
                            let ghost qq = q;
                            let ghost qv = crate::json::member_view(q);
                            proof {
                                assert(qv == ev[i as int]);
                            }
                            fields.push(q);
                            i = i + 1;
                            proof {
                                crate::json::lemma_obj_view_push(fv0, qq);
                                let t = ev.take(i as int);
                                assert(t.drop_last() =~= ev.take(i - 1));
                                assert(t.last() == ev[i - 1]);
                                assert(crate::json::obj_view(fields@) =~= seq![
                                    ("update_id"@, JsonData::Int(uv.id)),
                                ] + ev.take(i as int));
                            }
                        }
                        let r = JsonValue::Obj(fields);
                        proof {
                            assert(ev.take(total as int) =~= ev);
                            assert(r@->Obj_0 =~= seq![("update_id"@, JsonData::Int(uv.id))] + ev);
                        }
                        r
                    }
                    _ => {
                        let r = JsonValue::Obj(fields);
                        proof {
                            assert(r@->Obj_0 =~= seq![("update_id"@, JsonData::Int(uv.id))]);
                        }
                        r
                    }
                }
            }
            t => {
                let key: &'static str = match &t {
                    UpdateType::Message(_) => "message",
                    UpdateType::EditedMessage(_) => "edited_message",
                    UpdateType::ChannelPost(_) => "channel_post",
                    UpdateType::EditedChannelPost(_) => "edited_channel_post",
                    UpdateType::InlineQuery(_) => "inline_query",
                    UpdateType::ChosenInlineResult(_) => "chosen_inline_result",
                    UpdateType::CallbackQuery(_) => "callback_query",
                    UpdateType::ShippingQuery(_) => "shipping_query",
                    UpdateType::PreCheckoutQuery(_) => "pre_checkout_query",
                    UpdateType::Poll(_) => "poll",
                    UpdateType::PollAnswer(_) => "poll_answer",
                    UpdateType::BotStatus(_) => "my_chat_member",
                    UpdateType::UserStatus(_) => "chat_member",
                    UpdateType::ChatJoinRequest(_) => "chat_join_request",
                    UpdateType::Unknown(_) => "",
                };
                let payload = match t {
                    UpdateType::Message(p) => p,
                    UpdateType::EditedMessage(p) => p,
                    UpdateType::ChannelPost(p) => p,
                    UpdateType::EditedChannelPost(p) => p,
                    UpdateType::InlineQuery(p) => p,
                    UpdateType::ChosenInlineResult(p) => p,
                    UpdateType::CallbackQuery(p) => p,
                    UpdateType::ShippingQuery(p) => p,
                    UpdateType::PreCheckoutQuery(p) => p,
                    UpdateType::Poll(p) => p,
                    UpdateType::PollAnswer(p) => p,
                    UpdateType::BotStatus(p) => p,
                    UpdateType::UserStatus(p) => p,
                    UpdateType::ChatJoinRequest(p) => p,
                    UpdateType::Unknown(p) => p,
                };
                let mut obj = JsonObject::new();
                obj.set("update_id", JsonValue::Int(self.id));
                obj.set(key, payload);
                let r = obj.into_value();
                proof {
                    assert(r@->Obj_0 =~= seq![
                        ("update_id"@, JsonData::Int(uv.id)),
                        (update_key(uv.update_type), update_payload(uv.update_type)),
                    ]);
                }
                r
            }
        }
    }
}


/// Removing a name distributes over concatenation of member lists.
proof fn lemma_without_field_concat(
    a: Seq<(Seq<char>, JsonData)>,
    b: Seq<(Seq<char>, JsonData)>,
    name: Seq<char>,
)
    ensures
        without_field(a + b, name) == without_field(a, name) + without_field(b, name),
    decreases b.len(),
{
    if b.len() == 0 {
        assert(a + b =~= a);
        assert(without_field(b, name) =~= Seq::<(Seq<char>, JsonData)>::empty());
        assert(without_field(a, name) + without_field(b, name) =~= without_field(a, name));
    } else {
        assert((a + b).drop_last() =~= a + b.drop_last());
        assert((a + b).last() == b.last());
        lemma_without_field_concat(a, b.drop_last(), name);
        if b.last().0 != name {
            assert(without_field(a, name) + without_field(b, name) =~= (without_field(a, name)
                + without_field(b.drop_last(), name)).push(b.last()));
        }
    }
}

/// Removing a name that no member carries changes nothing.
proof fn lemma_without_field_absent(fs: Seq<(Seq<char>, JsonData)>, name: Seq<char>)
    requires
        forall|i: int| 0 <= i < fs.len() ==> (#[trigger] fs[i]).0 != name,
    ensures
        without_field(fs, name) == fs,
    decreases fs.len(),
{
    if fs.len() > 0 {
        lemma_without_field_absent(fs.drop_last(), name);
        assert(without_field(fs.drop_last(), name).push(fs.last()) =~= fs);
    }
}

/// A member list without known keys holds no payload member.
proof fn lemma_find_variant_none(fs: Seq<(Seq<char>, JsonData)>)
    requires
        forall|i: int| 0 <= i < fs.len() ==> !known_key((#[trigger] fs[i]).0),
    ensures
        find_variant(fs) is None,
    decreases fs.len(),
{
    if fs.len() > 0 {
        assert(!known_key(fs[0].0));
        assert(forall|i: int| 0 <= i < fs.drop_first().len() ==> (#[trigger] fs.drop_first()[i])
            == fs[i + 1]);
        lemma_find_variant_none(fs.drop_first());
    }
}

/// The payload keys, and `update_id`, are pairwise different names.
proof fn lemma_update_keys_distinct()
    ensures
        "update_id"@.len() == 9,
        "message"@.len() == 7,
        "edited_message"@.len() == 14,
        "channel_post"@.len() == 12,
        "edited_channel_post"@.len() == 19,
        "inline_query"@.len() == 12,
        "chosen_inline_result"@.len() == 20,
        "callback_query"@.len() == 14,
        "shipping_query"@.len() == 14,
        "pre_checkout_query"@.len() == 18,
        "poll"@.len() == 4,
        "poll_answer"@.len() == 11,
        "my_chat_member"@.len() == 14,
        "chat_member"@.len() == 11,
        "chat_join_request"@.len() == 17,
        "channel_post"@ != "inline_query"@,
        "edited_message"@ != "callback_query"@,
        "edited_message"@ != "shipping_query"@,
        "edited_message"@ != "my_chat_member"@,
        "callback_query"@ != "shipping_query"@,
        "callback_query"@ != "my_chat_member"@,
        "shipping_query"@ != "my_chat_member"@,
        "poll_answer"@ != "chat_member"@,
{
    reveal_strlit("update_id");
    reveal_strlit("message");
    reveal_strlit("edited_message");
    reveal_strlit("channel_post");
    reveal_strlit("edited_channel_post");
    reveal_strlit("inline_query");
    reveal_strlit("chosen_inline_result");
    reveal_strlit("callback_query");
    reveal_strlit("shipping_query");
    reveal_strlit("pre_checkout_query");
    reveal_strlit("poll");
    reveal_strlit("poll_answer");
    reveal_strlit("my_chat_member");
    reveal_strlit("chat_member");
    reveal_strlit("chat_join_request");
    assert("channel_post"@[0] != "inline_query"@[0]);
    assert("edited_message"@[0] != "callback_query"@[0]);
    assert("edited_message"@[0] != "shipping_query"@[0]);
    assert("edited_message"@[0] != "my_chat_member"@[0]);
    assert("callback_query"@[0] != "shipping_query"@[0]);
    assert("callback_query"@[0] != "my_chat_member"@[0]);
    assert("shipping_query"@[0] != "my_chat_member"@[0]);
    assert("poll_answer"@[0] != "chat_member"@[0]);
}

/// Encoding a well-formed update and decoding the result yields the update
/// unchanged: the wire shape loses nothing.
pub proof fn lemma_update_round_trip(u: UpdateData)
    requires
        update_wf(u),
    ensures
        decode_update(encode_update(u)) == Ok::<UpdateData, UpdateError>(u),
{
    lemma_update_keys_distinct();
    match u.update_type {
        UpdateTypeData::Unknown(p) => {
            let fs = p->Obj_0;
            let enc = seq![("update_id"@, JsonData::Int(u.id))] + fs;
            assert(encode_update(u) == JsonData::Obj(enc));
            assert(enc[0] == ("update_id"@, JsonData::Int(u.id)));
            assert(lookup_field(enc, "update_id"@) == Some(JsonData::Int(u.id)));
            lemma_without_field_concat(
                seq![("update_id"@, JsonData::Int(u.id))],
                fs,
                "update_id"@,
            );
            let single = seq![("update_id"@, JsonData::Int(u.id))];
            assert(single.drop_last() =~= Seq::<(Seq<char>, JsonData)>::empty());
            assert(without_field(single.drop_last(), "update_id"@)
                == Seq::<(Seq<char>, JsonData)>::empty());
            assert(without_field(single, "update_id"@) =~= Seq::<(Seq<char>, JsonData)>::empty());
            lemma_without_field_absent(fs, "update_id"@);
            assert(without_field(enc, "update_id"@) =~= fs);
            lemma_find_variant_none(fs);
            assert(decode_kind(fs) == UpdateTypeData::Unknown(JsonData::Obj(fs)));
        }
        t => {
            let key = update_key(t);
            let payload = update_payload(t);
            let enc = seq![("update_id"@, JsonData::Int(u.id)), (key, payload)];
            assert(encode_update(u) == JsonData::Obj(enc));
            assert(lookup_field(enc, "update_id"@) == Some(JsonData::Int(u.id)));
            assert(key != "update_id"@);
            let stripped = without_field(enc, "update_id"@);
            assert(enc.drop_last() =~= seq![("update_id"@, JsonData::Int(u.id))]);
            assert(enc.drop_last().drop_last() =~= Seq::<(Seq<char>, JsonData)>::empty());
            assert(without_field(enc.drop_last().drop_last(), "update_id"@)
                == Seq::<(Seq<char>, JsonData)>::empty());
            assert(without_field(enc.drop_last(), "update_id"@)
                =~= Seq::<(Seq<char>, JsonData)>::empty());
            assert(stripped =~= seq![(key, payload)]);
            assert(known_key(key));
            assert(payload is Obj);
            assert(find_variant(stripped) == Some((key, payload)));
            assert(variant_of(key, payload) == t);
        }
    }
}

spec fn rev_members(s: Seq<(Seq<char>, JsonData)>) -> Seq<(Seq<char>, JsonData)>
    decreases s.len(),
{
    if s.len() == 0 {
        Seq::empty()
    } else {
        seq![s.last()] + rev_members(s.drop_last())
    }
}

/// A limit request for the long poll: offset cursor, batch limit, poll
/// timeout and the kinds asked for.
#[derive(Clone, Debug)]
pub struct GetUpdates {
    pub offset: Option<Integer>,
    pub limit: Option<Integer>,
    pub timeout: Option<Integer>,
    pub allowed_updates: Option<Vec<AllowedUpdate>>,
}

/// Model of a fetch request.
pub struct GetUpdatesData {
    pub offset: Option<int>,
    pub limit: Option<int>,
    pub timeout: Option<int>,
    pub allowed_updates: Option<Seq<AllowedUpdate>>,
}

impl View for GetUpdates {
    type V = GetUpdatesData;

    open spec fn view(&self) -> GetUpdatesData {
        GetUpdatesData {
            offset: view_opt_int(self.offset),
            limit: view_opt_int(self.limit),
            timeout: view_opt_int(self.timeout),
            allowed_updates: match self.allowed_updates {
                Some(v) => Some(v@),
                None => None,
            },
        }
    }
}

/// JSON array of allowed update kinds.
pub open spec fn allowed_updates_json(s: Seq<AllowedUpdate>) -> JsonData {
    JsonData::Arr(Seq::new(s.len(), |i: int| JsonData::Str(s[i].spec_name())))
}

/// Members of the JSON object of a fetch request, in wire order; absent
/// options add nothing.
pub open spec fn get_updates_members(v: GetUpdatesData) -> Seq<(Seq<char>, JsonData)> {
    let m = Seq::<(Seq<char>, JsonData)>::empty();
    let m = match v.offset {
        Some(x) => m.push(("offset"@, JsonData::Int(x))),
        None => m,
    };
    let m = match v.limit {
        Some(x) => m.push(("limit"@, JsonData::Int(x))),
        None => m,
    };
    let m = match v.timeout {
        Some(x) => m.push(("timeout"@, JsonData::Int(x))),
        None => m,
    };
    let m = match v.allowed_updates {
        Some(s) => m.push(("allowed_updates"@, allowed_updates_json(s))),
        None => m,
    };
    m
}

/// JSON object sent for `GetUpdates`.
pub open spec fn get_updates_json(v: GetUpdatesData) -> JsonData {
    JsonData::Obj(get_updates_members(v))
}

fn opt_allowed_value(v: &Option<Vec<AllowedUpdate>>) -> (r: Option<JsonValue>)
    ensures
        crate::json::spec_opt_view(r) == match *v {
            Some(s) => Some(allowed_updates_json(s@)),
            None => None::<JsonData>,
        },
{
    match v {
        Some(s) => {
            let mut items: Vec<JsonValue> = Vec::new();
            let mut i: usize = 0;
            while i < s.len()
                invariant
                    i <= s@.len(),
                    items@.len() == i,
                    forall|k: int| 0 <= k < i ==> items@[k]@ == JsonData::Str(s@[k].spec_name()),
                decreases s@.len() - i,
            {
                items.push(JsonValue::Str(String::from_str(s[i].as_str())));
                i = i + 1;
            }
            let arr = JsonValue::Arr(items);
            proof {
                lemma_arr_view_elementwise(arr->Arr_0@);
                assert(arr@->Arr_0 =~= Seq::new(s@.len(), |k: int| JsonData::Str(s@[k].spec_name())));
            }
            Some(arr)
        }
        None => None,
    }
}

impl Default for GetUpdates {
    /// A fetch request with every member absent.
    fn default() -> (r: GetUpdates)
        ensures
            r@ == (GetUpdatesData { offset: None, limit: None, timeout: None, allowed_updates: None }),
    {
        GetUpdates { offset: None, limit: None, timeout: None, allowed_updates: None }
    }
}

impl GetUpdates {
    /// Sets the offset: the identifier of the first update to fetch.
    pub fn with_offset(self, value: Integer) -> (r: GetUpdates)
        ensures
            r@ == (GetUpdatesData { offset: Some(value as int), ..self@ }),
    {
        GetUpdates { offset: Some(value), ..self }
    }

    /// Sets the largest number of updates one fetch may return.
    pub fn with_limit(self, value: Integer) -> (r: GetUpdates)
        ensures
            r@ == (GetUpdatesData { limit: Some(value as int), ..self@ }),
    {
        GetUpdates { limit: Some(value), ..self }
    }

    /// Sets the seconds the remote service may hold the poll open.
    pub fn with_timeout(self, value: Integer) -> (r: GetUpdates)
        ensures
            r@ == (GetUpdatesData { timeout: Some(value as int), ..self@ }),
    {
        GetUpdates { timeout: Some(value), ..self }
    }

    /// Replaces the kinds asked for.
    pub fn with_allowed_updates(self, value: Vec<AllowedUpdate>) -> (r: GetUpdates)
        ensures
            r@ == (GetUpdatesData { allowed_updates: Some(value@), ..self@ }),
    {
        GetUpdates { allowed_updates: Some(value), ..self }
    }

    /// Adds one kind to ask for, once: a kind already present is not added
    /// again.
    pub fn add_allowed_update(self, value: AllowedUpdate) -> (r: GetUpdates)
        ensures
            r@ == (GetUpdatesData {
                allowed_updates: match self@.allowed_updates {
                    None => Some(seq![value]),
                    Some(s) => if s.contains(value) {
                        Some(s)
                    } else {
                        Some(s.push(value))
                    },
                },
                ..self@
            }),
    {
        let mut current = match self.allowed_updates {
            Some(v) => v,
            None => Vec::new(),
        };
        let ghost cs = current@;
        let mut found = false;
        let mut i: usize = 0;
        while i < current.len()
            invariant
                i <= cs.len(),
                current@ == cs,
                found == exists|k: int| 0 <= k < i && cs[k] == value,
            decreases cs.len() - i,
        {
            if current[i] == value {
                found = true;
                proof {
                    assert(cs[i as int] == value);
                }
            }
            i = i + 1;
        }
        proof {
            assert(found == cs.contains(value));
        }
        if !found {
            current.push(value);
        }
        let r = GetUpdates { allowed_updates: Some(current), ..self };
        proof {
            if cs.contains(value) {
                assert(r@.allowed_updates == Some(cs));
            } else {
                assert(r@.allowed_updates == Some(cs.push(value)));
            }
            assert(Seq::<AllowedUpdate>::empty().push(value) =~= seq![value]);
        }
        r
    }

    /// JSON object of the request.
    pub fn to_json(&self) -> (r: JsonValue)
        ensures
            r@ == get_updates_json(self@),
    {
        let mut obj = JsonObject::new();
        obj.set_opt("offset", opt_int_value(self.offset));
        obj.set_opt("limit", opt_int_value(self.limit));
        obj.set_opt("timeout", opt_int_value(self.timeout));
        obj.set_opt("allowed_updates", opt_allowed_value(&self.allowed_updates));
        proof {
            assert(obj@ == get_updates_members(self@));
        }
        obj.into_value()
    }

    /// The payload of the call: `getUpdates` with the JSON body.
    pub fn into_payload(self) -> (r: Payload)
        ensures
            r.name@ == "getUpdates"@,
            r.body matches RequestBody::Json(s) && s@ == crate::json::json_text(get_updates_json(self@)),
    {
        let body = self.to_json();
        Payload::json("getUpdates", &body)
    }
}

} // verus!
