use vstd::prelude::*;

verus! {

use crate::json::{json_text, str_eq, JsonData, JsonValue};
use vstd::string::StringExecFns;

/// Content of a file to send: an identifier of a file already on the
/// servers, an HTTP URL, or raw bytes read by the caller.
#[derive(Debug)]
pub enum InputFile {
    FileId(String),
    Url(String),
    Reader(Vec<u8>),
}

/// Model of the content of a file to send.
pub enum InputFileData {
    FileId(Seq<char>),
    Url(Seq<char>),
    Reader(Seq<u8>),
}

impl View for InputFile {
    type V = InputFileData;

    open spec fn view(&self) -> InputFileData {
        match self {
            InputFile::FileId(s) => InputFileData::FileId(s@),
            InputFile::Url(s) => InputFileData::Url(s@),
            InputFile::Reader(b) => InputFileData::Reader(b@),
        }
    }
}

impl InputFile {
    /// A file already stored on the servers, by its file identifier.
    pub fn file_id(value: &str) -> (r: InputFile)
        ensures
            r@ == InputFileData::FileId(value@),
    {
        InputFile::FileId(String::from_str(value))
    }

    /// A file on the web, fetched by the remote service from the URL.
    pub fn url(value: &str) -> (r: InputFile)
        ensures
            r@ == InputFileData::Url(value@),
    {
        InputFile::Url(String::from_str(value))
    }

    /// A file uploaded as raw bytes that the caller has already read.
    pub fn reader(value: Vec<u8>) -> (r: InputFile)
        ensures
            r@ == InputFileData::Reader(value@),
    {
        InputFile::Reader(value)
    }
}

fn bytes_eq(a: &Vec<u8>, b: &Vec<u8>) -> (r: bool)
    ensures
        r == (a@ == b@),
{
    if a.len() != b.len() {
        proof {
            assert(a@.len() != b@.len());
        }
        return false;
    }
    let mut i: usize = 0;
    while i < a.len()
        invariant
            i <= a.len(),
            a@.len() == b@.len(),
            forall|k: int| 0 <= k < i ==> a@[k] == b@[k],
        decreases a.len() - i,
    {
        if a[i] != b[i] {
            return false;
        }
        i = i + 1;
    }
    proof {
        assert(a@ =~= b@);
    }
    true
}

impl PartialEq for InputFile {
    fn eq(&self, other: &InputFile) -> (r: bool) {
        match (self, other) {
            (InputFile::FileId(a), InputFile::FileId(b)) => str_eq(a.as_str(), b.as_str()),
            (InputFile::Url(a), InputFile::Url(b)) => str_eq(a.as_str(), b.as_str()),
            (InputFile::Reader(a), InputFile::Reader(b)) => bytes_eq(a, b),
            _ => false,
        }
    }
}

impl vstd::std_specs::cmp::PartialEqSpecImpl for InputFile {
    open spec fn obeys_eq_spec() -> bool {
        true
    }

    open spec fn eq_spec(&self, other: &InputFile) -> bool {
        self@ == other@
    }
}

/// One value of a multipart form: a text field or a file.
#[derive(Debug)]
pub enum FormValue {
    Text(String),
    File(InputFile),
}

/// Model of one form value.
pub enum FormValueData {
    Text(Seq<char>),
    File(InputFileData),
}

impl View for FormValue {
    type V = FormValueData;

    open spec fn view(&self) -> FormValueData {
        match self {
            FormValue::Text(s) => FormValueData::Text(s@),
            FormValue::File(f) => FormValueData::File(f@),
        }
    }
}

impl FormValue {
    /// A text field with the given content.
    pub fn text(value: &str) -> (r: FormValue)
        ensures
            r@ == FormValueData::Text(value@),
    {
        FormValue::Text(String::from_str(value))
    }

    /// The text of the value, when it is a text field.
    pub fn get_text(&self) -> (r: Option<&String>)
        ensures
            match r {
                Some(s) => self@ matches FormValueData::Text(t) && s@ == t,
                None => !(self@ is Text),
            },
    {
        match self {
            FormValue::Text(s) => Some(s),
            FormValue::File(_) => None,
        }
    }

    /// The file, when the value is one.
    pub fn get_file(&self) -> (r: Option<&InputFile>)
        ensures
            match r {
                Some(f) => self@ matches FormValueData::File(d) && f@ == d,
                None => !(self@ is File),
            },
    {
        match self {
            FormValue::Text(_) => None,
            FormValue::File(f) => Some(f),
        }
    }
}

impl PartialEq for FormValue {
    fn eq(&self, other: &FormValue) -> (r: bool) {
        match (self, other) {
            (FormValue::Text(a), FormValue::Text(b)) => str_eq(a.as_str(), b.as_str()),
            (FormValue::File(a), FormValue::File(b)) => a == b,
            _ => false,
        }
    }
}

impl vstd::std_specs::cmp::PartialEqSpecImpl for FormValue {
    open spec fn obeys_eq_spec() -> bool {
        true
    }

    open spec fn eq_spec(&self, other: &FormValue) -> bool {
        self@ == other@
    }
}

/// Fields of a multipart form, in the order they were written.
#[derive(Debug)]
pub struct Form {
    pub fields: Vec<(String, FormValue)>,
}

impl View for Form {
    type V = Seq<(Seq<char>, FormValueData)>;

    open spec fn view(&self) -> Seq<(Seq<char>, FormValueData)> {
        Seq::new(self.fields@.len(), |i: int| (self.fields@[i].0@, self.fields@[i].1@))
    }
}

/// The form fields with every field named `name` removed.
pub open spec fn form_without(
    s: Seq<(Seq<char>, FormValueData)>,
    name: Seq<char>,
) -> Seq<(Seq<char>, FormValueData)>
    decreases s.len(),
{
    if s.len() == 0 {
        Seq::empty()
    } else if s.last().0 == name {
        form_without(s.drop_last(), name)
    } else {
        form_without(s.drop_last(), name).push(s.last())
    }
}

/// First value stored under `name`, scanning fields left to right.
pub open spec fn form_lookup(
    s: Seq<(Seq<char>, FormValueData)>,
    name: Seq<char>,
) -> Option<FormValueData>
    decreases s.len(),
{
    if s.len() == 0 {
        None
    } else if s[0].0 == name {
        Some(s[0].1)
    } else {
        form_lookup(s.drop_first(), name)
    }
}

spec fn rev_fields(s: Seq<(Seq<char>, FormValueData)>) -> Seq<(Seq<char>, FormValueData)>
    decreases s.len(),
{
    if s.len() == 0 {
        Seq::empty()
    } else {
        seq![s.last()] + rev_fields(s.drop_last())
    }
}

impl Form {
    /// A form with no fields.
    pub fn new() -> (r: Form)
        ensures
            r@ == Seq::<(Seq<char>, FormValueData)>::empty(),
    {
        let r = Form { fields: Vec::new() };
        proof {
            assert(r@ =~= Seq::<(Seq<char>, FormValueData)>::empty());
        }
        r
    }

    /// Removes every field named `name`, keeping the others in order.
    pub fn remove_field(&mut self, name: &str)
        ensures
            final(self)@ == form_without(old(self)@, name@),
    {
        let ghost orig = self@;
        let mut kept: Vec<(String, FormValue)> = Vec::new();
        while self.fields.len() > 0
            invariant
                form_without(orig, name@) == form_without(self@, name@) + rev_fields(
                    Seq::new(kept@.len(), |i: int| (kept@[i].0@, kept@[i].1@)),
                ),
            decreases self.fields.len(),
        {
            let ghost pre = self@;
            let ghost kept_pre = Seq::new(kept@.len(), |i: int| (kept@[i].0@, kept@[i].1@));
            let p = self.fields.pop().unwrap();
            proof {
                assert(self@ =~= pre.drop_last());
                assert(pre.last() == (p.0@, p.1@));
            }
            if !str_eq(p.0.as_str(), name) {
                let ghost pv = (p.0@, p.1@);
                kept.push(p);
                proof {
                    let kept_now = Seq::new(kept@.len(), |i: int| (kept@[i].0@, kept@[i].1@));
                    assert(kept_now.drop_last() =~= kept_pre);
                    assert(kept_now.last() == pv);
                    assert(rev_fields(kept_now) =~= seq![pv] + rev_fields(kept_pre));
                    assert(form_without(pre, name@) =~= form_without(pre.drop_last(), name@).push(pv));
                    assert(form_without(pre.drop_last(), name@) + rev_fields(kept_now)
                        =~= form_without(pre, name@) + rev_fields(kept_pre));
                }
            }
        }
        while kept.len() > 0
            invariant
                form_without(orig, name@) == self@ + rev_fields(
                    Seq::new(kept@.len(), |i: int| (kept@[i].0@, kept@[i].1@)),
                ),
            decreases kept.len(),
        {
            let ghost pre = self@;
            let ghost kept_pre = Seq::new(kept@.len(), |i: int| (kept@[i].0@, kept@[i].1@));
            let p = kept.pop().unwrap();
            let ghost pv = (p.0@, p.1@);
            self.fields.push(p);
            proof {
                let kept_now = Seq::new(kept@.len(), |i: int| (kept@[i].0@, kept@[i].1@));
                assert(kept_now =~= kept_pre.drop_last());
                assert(kept_pre.last() == pv);
                assert(rev_fields(kept_pre) =~= seq![pv] + rev_fields(kept_now));
                assert(self@ =~= pre.push(pv));
                assert(pre + rev_fields(kept_pre) =~= self@ + rev_fields(kept_now));
            }
        }
        proof {
            let kept_now = Seq::new(0nat, |i: int| (Seq::<char>::empty(), FormValueData::Text(Seq::empty())));
            assert(rev_fields(Seq::<(Seq<char>, FormValueData)>::empty()) =~= Seq::<(Seq<char>, FormValueData)>::empty());
            assert(form_without(orig, name@) =~= self@);
        }
    }

    /// Writes `name = value`, replacing any earlier field of that name; the
    /// field takes the last position.
    pub fn insert_field(&mut self, name: &str, value: FormValue)
        ensures
            final(self)@ == form_without(old(self)@, name@).push((name@, value@)),
    {
        self.remove_field(name);
        let ghost pre = self@;
        let ghost pv = value@;
        self.fields.push((String::from_str(name), value));
        proof {
            assert(self@ =~= pre.push((name@, pv)));
        }
    }

    /// Looks a field up by name.
    pub fn get(&self, name: &str) -> (r: Option<&FormValue>)
        ensures
            match r {
                Some(v) => form_lookup(self@, name@) == Some(v@),
                None => form_lookup(self@, name@) is None,
            },
    {
        let mut i: usize = 0;
        proof {
            assert(self@.skip(0) =~= self@);
        }
        while i < self.fields.len()
            invariant
                i <= self.fields.len(),
                form_lookup(self@, name@) == form_lookup(self@.skip(i as int), name@),
            decreases self.fields.len() - i,
        {
            proof {
                assert(self@.skip(i as int)[0] == self@[i as int]);
            }
            if str_eq(self.fields[i].0.as_str(), name) {
                return Some(&self.fields[i].1);
            }
            proof {
                assert(self@.skip(i as int).drop_first() =~= self@.skip(i as int + 1));
            }
            i = i + 1;
        }
        proof {
            assert(self@.skip(self.fields.len() as int) =~= Seq::<(Seq<char>, FormValueData)>::empty());
        }
        None
    }

    /// Number of fields.
    pub fn len(&self) -> (r: usize)
        ensures
            r == self@.len(),
    {
        self.fields.len()
    }
}

impl PartialEq for Form {
    fn eq(&self, other: &Form) -> (r: bool) {
        if self.fields.len() != other.fields.len() {
            proof {
                assert(self@.len() != other@.len());
            }
            return false;
        }
        let mut i: usize = 0;
        while i < self.fields.len()
            invariant
                i <= self.fields.len(),
                self@.len() == self.fields.len(),
                other@.len() == self.fields.len(),
                forall|k: int| 0 <= k < i ==> self@[k] == other@[k],
            decreases self.fields.len() - i,
        {
            if !(self.fields[i].0 == other.fields[i].0) {
                proof {
                    assert(self@[i as int].0 != other@[i as int].0);
                }
                return false;
            }
            if !(self.fields[i].1 == other.fields[i].1) {
                proof {
                    assert(self@[i as int].1 != other@[i as int].1);
                }
                return false;
            }
            i = i + 1;
        }
        proof {
            assert(self@ =~= other@);
        }
        true
    }
}

impl vstd::std_specs::cmp::PartialEqSpecImpl for Form {
    open spec fn obeys_eq_spec() -> bool {
        true
    }

    open spec fn eq_spec(&self, other: &Form) -> bool {
        self@ == other@
    }
}

/// HTTP method of an outgoing request.
#[derive(Clone, Copy, Debug, PartialEq, Eq, Structural)]
pub enum RequestMethod {
    Get,
    Post,
}

/// Body of an outgoing request.
#[derive(Debug)]
pub enum RequestBody {
    /// Rendered JSON text.
    Json(String),
    /// Multipart form.
    Form(Form),
    /// No body at all.
    Empty,
}

/// An outgoing call of a named remote method.
#[derive(Debug)]
pub struct Request {
    pub http_method: RequestMethod,
    pub name: String,
    pub body: RequestBody,
}

impl Request {
    /// A POST request whose body is the rendered JSON document.
    pub fn json(name: &str, body: &JsonValue) -> (r: Request)
        ensures
            r.http_method == RequestMethod::Post,
            r.name@ == name@,
            r.body matches RequestBody::Json(s) && s@ == json_text(body@),
    {
        Request {
            http_method: RequestMethod::Post,
            name: String::from_str(name),
            body: RequestBody::Json(crate::json::render_json(body)),
        }
    }

    /// A POST request carrying a multipart form.
    pub fn form(name: &str, form: Form) -> (r: Request)
        ensures
            r.http_method == RequestMethod::Post,
            r.name@ == name@,
            r.body matches RequestBody::Form(f) && f@ == form@,
    {
        Request {
            http_method: RequestMethod::Post,
            name: String::from_str(name),
            body: RequestBody::Form(form),
        }
    }

    /// A GET request with no body.
    pub fn empty(name: &str) -> (r: Request)
        ensures
            r.http_method == RequestMethod::Get,
            r.name@ == name@,
            r.body is Empty,
    {
        Request {
            http_method: RequestMethod::Get,
            name: String::from_str(name),
            body: RequestBody::Empty,
        }
    }

    /// HTTP method of the request.
    pub fn get_method(&self) -> (r: RequestMethod)
        ensures
            r == self.http_method,
    {
        self.http_method
    }

    /// URL of the request: `{base}/bot{token}/{method}`.
    pub fn build_url(&self, base_url: &str, token: &str) -> (r: String)
        ensures
            r@ == base_url@ + "/bot"@ + token@ + "/"@ + self.name@,
    {
        let mut url = String::from_str(base_url);
        url.append("/bot");
        url.append(token);
        url.append("/");
        url.append(self.name.as_str());
        url
    }

    /// Takes the body out of the request.
    pub fn into_body(self) -> (r: RequestBody)
        ensures
            r == self.body,
    {
        self.body
    }
}

/// An outgoing call of a named remote method, as name plus body.
#[derive(Debug)]
pub struct Payload {
    pub name: String,
    pub body: RequestBody,
}

impl Payload {
    /// A payload whose body is the rendered JSON document.
    pub fn json(name: &str, body: &JsonValue) -> (r: Payload)
        ensures
            r.name@ == name@,
            r.body matches RequestBody::Json(s) && s@ == json_text(body@),
    {
        Payload {
            name: String::from_str(name),
            body: RequestBody::Json(crate::json::render_json(body)),
        }
    }

    /// A payload carrying a multipart form.
    pub fn form(name: &str, form: Form) -> (r: Payload)
        ensures
            r.name@ == name@,
            r.body matches RequestBody::Form(f) && f@ == form@,
    {
        Payload {
            name: String::from_str(name),
            body: RequestBody::Form(form),
        }
    }

    /// A payload with no body.
    pub fn empty(name: &str) -> (r: Payload)
        ensures
            r.name@ == name@,
            r.body is Empty,
    {
        Payload {
            name: String::from_str(name),
            body: RequestBody::Empty,
        }
    }
}

} // verus!
