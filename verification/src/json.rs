use vstd::prelude::*;

verus! {

use crate::Integer;
use vstd::string::StrSliceExecFns;

/// Mathematical model of a JSON document.
///
/// Strings are character sequences, integers are unbounded, and a decimal
/// fraction is kept exactly as a mantissa together with the number of digits
/// printed after the decimal point.
#[verifier::ext_equal]
pub enum JsonData {
    Null,
    Bool(bool),
    Int(int),
    /// The number `mantissa / 10^scale`, printed with `scale` fractional digits.
    Dec(int, nat),
    Str(Seq<char>),
    Arr(Seq<JsonData>),
    Obj(Seq<(Seq<char>, JsonData)>),
}

/// An exact decimal fraction: `mantissa / 10^scale`.
///
/// The Bot API uses such values for geographic coordinates and mask
/// positions; keeping them as scaled integers keeps their text form exact.
#[derive(Clone, Copy, Debug)]
pub struct Decimal {
    mantissa: Integer,
    scale: u32,
}

impl Decimal {
    /// Mantissa of the fraction.
    pub closed spec fn m(self) -> int {
        self.mantissa as int
    }

    /// Number of digits printed after the decimal point.
    pub closed spec fn s(self) -> nat {
        self.scale as nat
    }

    #[verifier::type_invariant]
    spec fn type_inv(self) -> bool {
        self.mantissa > i64::MIN && 1 <= self.scale <= 17
    }

    /// Creates the decimal fraction `mantissa / 10^scale`.
    pub fn new(mantissa: Integer, scale: u32) -> (r: Decimal)
        requires
            mantissa > i64::MIN,
            1 <= scale <= 17,
        ensures
            r.m() == mantissa,
            r.s() == scale,
    {
        Decimal { mantissa, scale }
    }
}

/// A JSON document held as a value tree.
#[derive(Debug)]
pub enum JsonValue {
    Null,
    Bool(bool),
    Int(Integer),
    Dec(Decimal),
    Str(String),
    Arr(Vec<JsonValue>),
    Obj(Vec<(String, JsonValue)>),
}

/// Model of a JSON value tree.
pub open spec fn json_view(v: JsonValue) -> JsonData
    decreases v,
{
    match v {
        JsonValue::Null => JsonData::Null,
        JsonValue::Bool(b) => JsonData::Bool(b),
        JsonValue::Int(n) => JsonData::Int(n as int),
        JsonValue::Dec(d) => JsonData::Dec(d.m(), d.s()),
        JsonValue::Str(s) => JsonData::Str(s@),
        JsonValue::Arr(items) => JsonData::Arr(arr_view(items@)),
        JsonValue::Obj(fields) => JsonData::Obj(obj_view(fields@)),
    }
}

/// Model of the elements of a JSON array.
pub open spec fn arr_view(items: Seq<JsonValue>) -> Seq<JsonData>
    decreases items,
{
    if items.len() == 0 {
        Seq::empty()
    } else {
        arr_view(items.drop_last()).push(json_view(items[items.len() - 1]))
    }
}

/// Model of one object member.
pub open spec fn member_view(p: (String, JsonValue)) -> (Seq<char>, JsonData)
    decreases p,
{
    (p.0@, json_view(p.1))
}

/// Model of the members of a JSON object.
pub open spec fn obj_view(fields: Seq<(String, JsonValue)>) -> Seq<(Seq<char>, JsonData)>
    decreases fields,
{
    if fields.len() == 0 {
        Seq::empty()
    } else {
        obj_view(fields.drop_last()).push(member_view(fields[fields.len() - 1]))
    }
}

pub proof fn lemma_arr_view_index(items: Seq<JsonValue>, j: int)
    requires
        0 <= j < items.len(),
    ensures
        arr_view(items).len() == items.len(),
        arr_view(items)[j] == json_view(items[j]),
    decreases items,
{
    lemma_arr_view_len(items);
    if j < items.len() - 1 {
        lemma_arr_view_index(items.drop_last(), j);
    }
}

/// Element-wise reading of `arr_view`.
pub proof fn lemma_arr_view_elementwise(items: Seq<JsonValue>)
    ensures
        arr_view(items).len() == items.len(),
        forall|i: int| 0 <= i < items.len() ==> arr_view(items)[i] == json_view(items[i]),
{
    lemma_arr_view_len(items);
    assert forall|i: int| 0 <= i < items.len() implies arr_view(items)[i] == json_view(items[i]) by {
        lemma_arr_view_index(items, i);
    }
}

pub proof fn lemma_arr_view_len(items: Seq<JsonValue>)
    ensures
        arr_view(items).len() == items.len(),
    decreases items,
{
    if items.len() > 0 {
        lemma_arr_view_len(items.drop_last());
    }
}

pub proof fn lemma_obj_view_index(fields: Seq<(String, JsonValue)>, j: int)
    requires
        0 <= j < fields.len(),
    ensures
        obj_view(fields).len() == fields.len(),
        obj_view(fields)[j] == member_view(fields[j]),
    decreases fields,
{
    lemma_obj_view_len(fields);
    if j < fields.len() - 1 {
        lemma_obj_view_index(fields.drop_last(), j);
    }
}

pub proof fn lemma_obj_view_len(fields: Seq<(String, JsonValue)>)
    ensures
        obj_view(fields).len() == fields.len(),
    decreases fields,
{
    if fields.len() > 0 {
        lemma_obj_view_len(fields.drop_last());
    }
}

/// Popping the last member commutes with the view.
pub proof fn lemma_obj_view_pop(s: Seq<(String, JsonValue)>)
    requires
        s.len() > 0,
    ensures
        obj_view(s).len() == s.len(),
        obj_view(s.drop_last()) == obj_view(s).drop_last(),
        member_view(s.last()) == obj_view(s).last(),
{
    lemma_obj_view_len(s);
    assert(obj_view(s) == obj_view(s.drop_last()).push(member_view(s.last())));
    assert(obj_view(s).drop_last() =~= obj_view(s.drop_last()));
}

/// Pushing a member commutes with the view.
pub proof fn lemma_obj_view_push(s: Seq<(String, JsonValue)>, p: (String, JsonValue))
    ensures
        obj_view(s.push(p)) == obj_view(s).push(member_view(p)),
{
    assert(s.push(p).drop_last() =~= s);
    assert(s.push(p).last() == p);
    assert(obj_view(s.push(p)) == obj_view(s.push(p).drop_last()).push(member_view(s.push(p).last())));
    assert(obj_view(s.push(p).drop_last()) == obj_view(s));
}

impl View for JsonValue {
    type V = JsonData;

    open spec fn view(&self) -> JsonData {
        json_view(*self)
    }
}

/// The character for one decimal digit.
pub open spec fn digit_char(d: int) -> char {
    if d == 0 { '0' }
    else if d == 1 { '1' }
    else if d == 2 { '2' }
    else if d == 3 { '3' }
    else if d == 4 { '4' }
    else if d == 5 { '5' }
    else if d == 6 { '6' }
    else if d == 7 { '7' }
    else if d == 8 { '8' }
    else { '9' }
}

/// Decimal digits of a natural number, most significant first.
pub open spec fn nat_chars(n: nat) -> Seq<char>
    decreases n,
{
    if n < 10 {
        seq![digit_char(n as int)]
    } else {
        nat_chars(n / 10).push(digit_char((n % 10) as int))
    }
}

/// Decimal text of an integer, with a leading minus sign when negative.
pub open spec fn int_chars(n: int) -> Seq<char> {
    if n < 0 {
        seq!['-'] + nat_chars((-n) as nat)
    } else {
        nat_chars(n as nat)
    }
}

pub open spec fn pow10(n: nat) -> nat
    decreases n,
{
    if n == 0 {
        1
    } else {
        10 * pow10((n - 1) as nat)
    }
}

/// Exactly `s` fractional digits of `f`, zero padded on the left.
pub open spec fn frac_chars(f: nat, s: nat) -> Seq<char>
    decreases s,
{
    if s == 0 {
        Seq::empty()
    } else {
        frac_chars(f / 10, (s - 1) as nat).push(digit_char((f % 10) as int))
    }
}

/// Text of the decimal fraction `m / 10^s`, always with a decimal point.
pub open spec fn dec_chars(m: int, s: nat) -> Seq<char> {
    let mag = if m < 0 { -m } else { m };
    let p = pow10(s) as int;
    (if m < 0 { seq!['-'] } else { Seq::<char>::empty() })
        + nat_chars((mag / p) as nat)
        + seq!['.']
        + frac_chars((mag % p) as nat, s)
}

/// The character for one lower-case hexadecimal digit.
pub open spec fn hex_char(d: int) -> char {
    if d < 10 {
        digit_char(d)
    } else if d == 10 { 'a' }
    else if d == 11 { 'b' }
    else if d == 12 { 'c' }
    else if d == 13 { 'd' }
    else if d == 14 { 'e' }
    else { 'f' }
}

/// JSON escape of one character inside a string literal.
pub open spec fn esc_char(c: char) -> Seq<char> {
    if c == '"' { seq!['\\', '"'] }
    else if c == '\\' { seq!['\\', '\\'] }
    else if c == '\u{8}' { seq!['\\', 'b'] }
    else if c == '\u{c}' { seq!['\\', 'f'] }
    else if c == '\n' { seq!['\\', 'n'] }
    else if c == '\r' { seq!['\\', 'r'] }
    else if c == '\t' { seq!['\\', 't'] }
    else if (c as u32) < 32 {
        seq!['\\', 'u', '0', '0', hex_char((c as u32) as int / 16), hex_char((c as u32) as int % 16)]
    } else {
        seq![c]
    }
}

/// JSON escape of a whole string body (without the surrounding quotes).
pub open spec fn escaped(s: Seq<char>) -> Seq<char>
    decreases s.len(),
{
    if s.len() == 0 {
        Seq::empty()
    } else {
        escaped(s.drop_last()) + esc_char(s.last())
    }
}

/// Compact JSON text of a document, as `serde_json::to_string` prints it.
pub open spec fn json_text(d: JsonData) -> Seq<char>
    decreases d,
{
    match d {
        JsonData::Null => seq!['n', 'u', 'l', 'l'],
        JsonData::Bool(b) => if b {
            seq!['t', 'r', 'u', 'e']
        } else {
            seq!['f', 'a', 'l', 's', 'e']
        },
        JsonData::Int(n) => int_chars(n),
        JsonData::Dec(m, s) => dec_chars(m, s),
        JsonData::Str(s) => seq!['"'] + escaped(s) + seq!['"'],
        JsonData::Arr(items) => seq!['['] + arr_text(items) + seq![']'],
        JsonData::Obj(fields) => seq!['{'] + obj_text(fields) + seq!['}'],
    }
}

/// Comma separated element list of a JSON array.
pub open spec fn arr_text(items: Seq<JsonData>) -> Seq<char>
    decreases items,
{
    if items.len() == 0 {
        Seq::empty()
    } else if items.len() == 1 {
        json_text(items.last())
    } else {
        arr_text(items.drop_last()) + seq![','] + json_text(items.last())
    }
}

/// One `"key":value` member of a JSON object.
pub open spec fn pair_text(p: (Seq<char>, JsonData)) -> Seq<char>
    decreases p,
{
    seq!['"'] + escaped(p.0) + seq!['"', ':'] + json_text(p.1)
}

/// Comma separated member list of a JSON object.
pub open spec fn obj_text(fields: Seq<(Seq<char>, JsonData)>) -> Seq<char>
    decreases fields,
{
    if fields.len() == 0 {
        Seq::empty()
    } else if fields.len() == 1 {
        pair_text(fields.last())
    } else {
        obj_text(fields.drop_last()) + seq![','] + pair_text(fields.last())
    }
}

/// First value stored under `name`, scanning members left to right.
pub open spec fn lookup_field(fields: Seq<(Seq<char>, JsonData)>, name: Seq<char>) -> Option<JsonData>
    decreases fields.len(),
{
    if fields.len() == 0 {
        None
    } else if fields[0].0 == name {
        Some(fields[0].1)
    } else {
        lookup_field(fields.drop_first(), name)
    }
}

/// The members of an object with every member named `name` removed.
pub open spec fn without_field(fields: Seq<(Seq<char>, JsonData)>, name: Seq<char>) -> Seq<(Seq<char>, JsonData)>
    decreases fields.len(),
{
    if fields.len() == 0 {
        Seq::empty()
    } else if fields.last().0 == name {
        without_field(fields.drop_last(), name)
    } else {
        without_field(fields.drop_last(), name).push(fields.last())
    }
}

/// Optional object member: one entry when present, nothing when absent.
pub open spec fn entry_opt(name: Seq<char>, v: Option<JsonData>) -> Seq<(Seq<char>, JsonData)> {
    match v {
        Some(j) => seq![(name, j)],
        None => Seq::empty(),
    }
}

fn digit_of(d: u64) -> (r: char)
    requires
        d < 10,
    ensures
        r == digit_char(d as int),
{
    if d == 0 { '0' }
    else if d == 1 { '1' }
    else if d == 2 { '2' }
    else if d == 3 { '3' }
    else if d == 4 { '4' }
    else if d == 5 { '5' }
    else if d == 6 { '6' }
    else if d == 7 { '7' }
    else if d == 8 { '8' }
    else { '9' }
}

fn hex_of(d: u32) -> (r: char)
    requires
        d < 16,
    ensures
        r == hex_char(d as int),
{
    if d < 10 {
        digit_of(d as u64)
    } else if d == 10 { 'a' }
    else if d == 11 { 'b' }
    else if d == 12 { 'c' }
    else if d == 13 { 'd' }
    else if d == 14 { 'e' }
    else { 'f' }
}

fn write_u64(n: u64, out: &mut Vec<char>)
    ensures
        final(out)@ == old(out)@ + nat_chars(n as nat),
    decreases n,
{
    if n < 10 {
        out.push(digit_of(n));
        assert(out@ =~= old(out)@ + nat_chars(n as nat));
    } else {
        write_u64(n / 10, out);
        out.push(digit_of(n % 10));
        assert(out@ =~= old(out)@ + nat_chars(n as nat));
    }
}

/// Writes the decimal text of an integer.
fn write_int(n: i64, out: &mut Vec<char>)
    ensures
        final(out)@ == old(out)@ + int_chars(n as int),
{
    if n >= 0 {
        write_u64(n as u64, out);
    } else if n == i64::MIN {
        out.push('-');
        write_u64(9223372036854775808u64, out);
        assert(out@ =~= old(out)@ + int_chars(n as int));
    } else {
        out.push('-');
        write_u64((-n) as u64, out);
        assert(out@ =~= old(out)@ + int_chars(n as int));
    }
}

fn write_frac(f: u64, s: u32, out: &mut Vec<char>)
    ensures
        final(out)@ == old(out)@ + frac_chars(f as nat, s as nat),
    decreases s,
{
    if s == 0 {
        assert(out@ =~= old(out)@ + frac_chars(f as nat, 0));
    } else {
        write_frac(f / 10, s - 1, out);
        out.push(digit_of(f % 10));
        assert(out@ =~= old(out)@ + frac_chars(f as nat, s as nat));
    }
}

proof fn lemma_pow10_bound(s: nat)
    requires
        s <= 17,
    ensures
        pow10(s) <= 100_000_000_000_000_000,
        pow10(s) >= 1,
{
    lemma_pow10_mono(0, s);
    lemma_pow10_mono(s, 17);
    reveal_with_fuel(pow10, 18);
    assert(pow10(17) == 100_000_000_000_000_000);
}

fn write_dec(d: &Decimal, out: &mut Vec<char>)
    ensures
        final(out)@ == old(out)@ + dec_chars(d.m(), d.s()),
{
    proof {
        use_type_invariant(d);
        lemma_pow10_bound(d.s());
    }
    let mag: u64 = if d.mantissa >= 0 { d.mantissa as u64 } else { (-d.mantissa) as u64 };
    let mut pow: u64 = 1;
    let mut k: u32 = 0;
    while k < d.scale
        invariant
            k <= d.scale,
            d.scale <= 17,
            pow == pow10(k as nat),
            pow10(d.scale as nat) <= 100_000_000_000_000_000,
        decreases d.scale - k,
    {
        proof {
            lemma_pow10_mono(k as nat + 1, d.scale as nat);
        }
        pow = pow * 10;
        k = k + 1;
    }
    if d.mantissa < 0 {
        out.push('-');
    }
    write_u64(mag / pow, out);
    out.push('.');
    write_frac(mag % pow, d.scale, out);
    assert(out@ =~= old(out)@ + dec_chars(d.m(), d.s()));
}

proof fn lemma_pow10_mono(a: nat, b: nat)
    requires
        a <= b,
    ensures
        pow10(a) <= pow10(b),
    decreases b,
{
    if a < b && b > 0 {
        lemma_pow10_mono(a, (b - 1) as nat);
    }
}

fn write_esc_char(c: char, out: &mut Vec<char>)
    ensures
        final(out)@ == old(out)@ + esc_char(c),
{
    if c == '"' {
        out.push('\\');
        out.push('"');
    } else if c == '\\' {
        out.push('\\');
        out.push('\\');
    } else if c == '\u{8}' {
        out.push('\\');
        out.push('b');
    } else if c == '\u{c}' {
        out.push('\\');
        out.push('f');
    } else if c == '\n' {
        out.push('\\');
        out.push('n');
    } else if c == '\r' {
        out.push('\\');
        out.push('r');
    } else if c == '\t' {
        out.push('\\');
        out.push('t');
    } else if (c as u32) < 32 {
        out.push('\\');
        out.push('u');
        out.push('0');
        out.push('0');
        out.push(hex_of((c as u32) / 16));
        out.push(hex_of((c as u32) % 16));
    } else {
        out.push(c);
    }
    assert(out@ =~= old(out)@ + esc_char(c));
}

/// Writes the escaped body of a JSON string literal.
fn write_escaped(s: &str, out: &mut Vec<char>)
    ensures
        final(out)@ == old(out)@ + escaped(s@),
{
    let n = s.unicode_len();
    let mut i: usize = 0;
    while i < n
        invariant
            i <= n,
            n == s@.len(),
            out@ == old(out)@ + escaped(s@.take(i as int)),
        decreases n - i,
    {
        let c = s.get_char(i);
        write_esc_char(c, out);
        i = i + 1;
        proof {
            let t = s@.take(i as int);
            assert(t.drop_last() =~= s@.take(i - 1));
            assert(t.last() == s@[i - 1]);
            assert(out@ =~= old(out)@ + escaped(s@.take(i as int)));
        }
    }
    proof {
        assert(s@.take(n as int) =~= s@);
    }
}

/// Writes the compact JSON text of a document.
fn write_json(v: &JsonValue, out: &mut Vec<char>)
    ensures
        final(out)@ == old(out)@ + json_text(v@),
    decreases v@,
{
    match v {
        JsonValue::Null => {
            out.push('n');
            out.push('u');
            out.push('l');
            out.push('l');
            assert(out@ =~= old(out)@ + json_text(v@));
        }
        JsonValue::Bool(b) => {
            if *b {
                out.push('t');
                out.push('r');
                out.push('u');
                out.push('e');
            } else {
                out.push('f');
                out.push('a');
                out.push('l');
                out.push('s');
                out.push('e');
            }
            assert(out@ =~= old(out)@ + json_text(v@));
        }
        JsonValue::Int(n) => {
            write_int(*n, out);
        }
        JsonValue::Dec(d) => {
            write_dec(d, out);
        }
        JsonValue::Str(s) => {
            out.push('"');
            write_escaped(s.as_str(), out);
            out.push('"');
            assert(out@ =~= old(out)@ + json_text(v@));
        }
        JsonValue::Arr(items) => {
            let ghost velems = arr_view(items@);
            proof {
                lemma_arr_view_len(items@);
            }
            out.push('[');
            let mut j: usize = 0;
            while j < items.len()
                invariant
                    j <= items.len(),
                    *v matches JsonValue::Arr(k) && k == *items,
                    velems == arr_view(items@),
                    velems.len() == items@.len(),
                    out@ == old(out)@ + seq!['['] + arr_text(velems.take(j as int)),
                decreases items.len() - j,
            {
                if j > 0 {
                    out.push(',');
                }
                proof {
                    lemma_arr_view_index(items@, j as int);
                    assert(v@ == JsonData::Arr(velems));
                    assert(decreases_to!(v@ => v@->Arr_0));
                    assert(decreases_to!(v@->Arr_0 => v@->Arr_0[j as int]));
                    assert(v@->Arr_0[j as int] == items@[j as int]@);
                }
                write_json(&items[j], out);
                j = j + 1;
                proof {
                    let t = velems.take(j as int);
                    assert(t.drop_last() =~= velems.take(j - 1));
                    assert(t.last() == velems[j - 1]);
                    assert(out@ =~= old(out)@ + seq!['['] + arr_text(velems.take(j as int)));
                }
            }
            out.push(']');
            proof {
                assert(velems.take(items@.len() as int) =~= velems);
                assert(out@ =~= old(out)@ + json_text(v@));
            }
        }
        JsonValue::Obj(fields) => {
            let ghost vfields = obj_view(fields@);
            proof {
                lemma_obj_view_len(fields@);
            }
            out.push('{');
            let mut j: usize = 0;
            while j < fields.len()
                invariant
                    j <= fields.len(),
                    *v matches JsonValue::Obj(k) && k == *fields,
                    vfields == obj_view(fields@),
                    vfields.len() == fields@.len(),
                    out@ == old(out)@ + seq!['{'] + obj_text(vfields.take(j as int)),
                decreases fields.len() - j,
            {
                if j > 0 {
                    out.push(',');
                }
                out.push('"');
                write_escaped(fields[j].0.as_str(), out);
                out.push('"');
                out.push(':');
                proof {
                    lemma_obj_view_index(fields@, j as int);
                    assert(v@ == JsonData::Obj(vfields));
                    assert(decreases_to!(v@ => v@->Obj_0));
                    assert(decreases_to!(v@->Obj_0 => v@->Obj_0[j as int]));
                    assert(decreases_to!(v@->Obj_0[j as int] => v@->Obj_0[j as int].1));
                    assert(v@->Obj_0[j as int].1 == fields@[j as int].1@);
                }
                write_json(&fields[j].1, out);
                j = j + 1;
                proof {
                    let t = vfields.take(j as int);
                    assert(t.drop_last() =~= vfields.take(j - 1));
                    assert(t.last() == vfields[j - 1]);
                    assert(vfields[j - 1] == member_view(fields@[j - 1]));
                    assert(pair_text(vfields[j - 1]) =~= seq!['"'] + escaped(fields@[j - 1].0@)
                        + seq!['"', ':'] + json_text(fields@[j - 1].1@));
                    assert(out@ =~= old(out)@ + seq!['{'] + obj_text(vfields.take(j as int)));
                }
            }
            out.push('}');
            proof {
                assert(vfields.take(fields@.len() as int) =~= vfields);
                assert(out@ =~= old(out)@ + json_text(v@));
            }
        }
    }
}

/// Relies on `String: FromIterator<char>`: collecting characters yields the
/// string with exactly those characters in order.
#[verifier::external_body]
fn chars_to_string(cs: &Vec<char>) -> (r: String)
    ensures
        r@ == cs@,
{
    cs.iter().collect()
}

/// Renders a JSON document as compact text.
pub fn render_json(v: &JsonValue) -> (r: String)
    ensures
        r@ == json_text(v@),
{
    let mut out: Vec<char> = Vec::new();
    write_json(v, &mut out);
    chars_to_string(&out)
}

/// JSON array of plain strings.
pub open spec fn strings_json(s: Seq<Seq<char>>) -> JsonData {
    JsonData::Arr(Seq::new(s.len(), |i: int| JsonData::Str(s[i])))
}

/// Builds the JSON array of the strings.
pub fn strings_to_json(v: &Vec<String>) -> (r: JsonValue)
    ensures
        r@ == strings_json(Seq::new(v@.len(), |i: int| v@[i]@)),
{
    let mut items: Vec<JsonValue> = Vec::new();
    let mut i: usize = 0;
    while i < v.len()
        invariant
            i <= v@.len(),
            items@.len() == i,
            forall|k: int| 0 <= k < i ==> items@[k]@ == JsonData::Str(v@[k]@),
        decreases v@.len() - i,
    {
        items.push(JsonValue::Str(v[i].clone()));
        i = i + 1;
    }
    let r = JsonValue::Arr(items);
    proof {
        lemma_arr_view_elementwise(r->Arr_0@);
        let target = Seq::new(v@.len(), |i: int| v@[i]@);
        assert(r@->Arr_0 =~= Seq::new(target.len(), |i: int| JsonData::Str(target[i])));
    }
    r
}

/// Decimal text of an integer.
pub fn int_to_string(n: Integer) -> (r: String)
    ensures
        r@ == int_chars(n as int),
{
    let mut out: Vec<char> = Vec::new();
    write_int(n, &mut out);
    chars_to_string(&out)
}

/// Decimal text of an unsigned integer.
pub fn uint_to_string(n: u64) -> (r: String)
    ensures
        r@ == nat_chars(n as nat),
{
    let mut out: Vec<char> = Vec::new();
    write_u64(n, &mut out);
    chars_to_string(&out)
}

/// The words printed for a boolean.
pub fn bool_to_string(b: bool) -> (r: String)
    ensures
        r@ == json_text(JsonData::Bool(b)),
{
    if b {
        let r = String::from_str("true");
        proof {
            reveal_strlit("true");
            assert(r@ =~= seq!['t', 'r', 'u', 'e']);
        }
        r
    } else {
        let r = String::from_str("false");
        proof {
            reveal_strlit("false");
            assert(r@ =~= seq!['f', 'a', 'l', 's', 'e']);
        }
        r
    }
}

/// Relies on `str`'s `PartialEq`: two string slices are equal exactly when
/// their character sequences are equal.
#[verifier::external_body]
pub fn str_eq(a: &str, b: &str) -> (r: bool)
    ensures
        r == (a@ == b@),
{
    a == b
}

/// Builds a JSON object member by member, in order.
pub struct JsonObject {
    pub fields: Vec<(String, JsonValue)>,
}

impl View for JsonObject {
    type V = Seq<(Seq<char>, JsonData)>;

    open spec fn view(&self) -> Seq<(Seq<char>, JsonData)> {
        obj_view(self.fields@)
    }
}

impl JsonObject {
    /// An object with no members yet.
    pub fn new() -> (r: JsonObject)
        ensures
            r@ == Seq::<(Seq<char>, JsonData)>::empty(),
    {
        JsonObject { fields: Vec::new() }
    }

    /// Appends the member `name: value`.
    pub fn set(&mut self, name: &str, value: JsonValue)
        ensures
            final(self)@ == old(self)@.push((name@, value@)),
    {
        let ghost before = self.fields@;
        let ghost vv = value@;
        self.fields.push((String::from_str(name), value));
        proof {
            assert(self.fields@.drop_last() =~= before);
            assert(self@ == obj_view(before).push(member_view(self.fields@[self.fields@.len() - 1])));
            assert(self@ =~= old(self)@.push((name@, vv)));
        }
    }

    /// Appends `name: value` when a value is present, else appends nothing.
    pub fn set_opt(&mut self, name: &str, value: Option<JsonValue>)
        ensures
            final(self)@ == match spec_opt_view(value) {
                Some(j) => old(self)@.push((name@, j)),
                None => old(self)@,
            },
    {
        match value {
            Some(v) => {
                self.set(name, v);
            }
            None => {}
        }
    }

    /// Finishes the object.
    pub fn into_value(self) -> (r: JsonValue)
        ensures
            r@ == JsonData::Obj(self@),
    {
        JsonValue::Obj(self.fields)
    }
}

/// View of an optional JSON value.
pub open spec fn spec_opt_view(v: Option<JsonValue>) -> Option<JsonData> {
    match v {
        Some(x) => Some(x@),
        None => None,
    }
}

/// Lifts an optional boolean to an optional JSON value.
pub fn opt_bool_value(v: Option<bool>) -> (r: Option<JsonValue>)
    ensures
        spec_opt_view(r) == match v {
            Some(b) => Some(JsonData::Bool(b)),
            None => None::<JsonData>,
        },
{
    match v {
        Some(b) => Some(JsonValue::Bool(b)),
        None => None,
    }
}

/// Lifts an optional integer to an optional JSON value.
pub fn opt_int_value(v: Option<Integer>) -> (r: Option<JsonValue>)
    ensures
        spec_opt_view(r) == match v {
            Some(n) => Some(JsonData::Int(n as int)),
            None => None::<JsonData>,
        },
{
    match v {
        Some(n) => Some(JsonValue::Int(n)),
        None => None,
    }
}

/// Lifts an optional string to an optional JSON value.
pub fn opt_str_value(v: &Option<String>) -> (r: Option<JsonValue>)
    ensures
        spec_opt_view(r) == match *v {
            Some(s) => Some(JsonData::Str(s@)),
            None => None::<JsonData>,
        },
{
    match v {
        Some(s) => Some(JsonValue::Str(s.clone())),
        None => None,
    }
}

/// What `serde_json` parses a piece of text into, in this library's model:
/// `None` stands both for text that is not valid JSON and for documents
/// holding numbers outside the `i64` range, which this model does not carry.
pub uninterp spec fn parsed_json(s: Seq<char>) -> Option<JsonData>;

#[verifier::external_type_specification]
#[verifier::external_body]
pub struct ExSerdeValue(serde_json::Value);

/// Relies on `serde_json::Value`: each parsed node is mirrored one variant at
/// a time; a number that does not fit in `i64` makes the whole document
/// unrepresentable here.
#[verifier::external_body]
fn serde_value_to_json(v: serde_json::Value) -> (r: Option<JsonValue>) {
    match v {
        serde_json::Value::Null => Some(JsonValue::Null),
        serde_json::Value::Bool(b) => Some(JsonValue::Bool(b)),
        serde_json::Value::Number(n) => n.as_i64().map(JsonValue::Int),
        serde_json::Value::String(s) => Some(JsonValue::Str(s)),
        serde_json::Value::Array(a) => a.into_iter().map(serde_value_to_json).collect::<Option<
            Vec<JsonValue>,
        >>().map(JsonValue::Arr),
        serde_json::Value::Object(m) => m.into_iter().map(
            |(k, x)| serde_value_to_json(x).map(|j| (k, j)),
        ).collect::<Option<Vec<(String, JsonValue)>>>().map(JsonValue::Obj),
    }
}

/// Relies on `serde_json::from_str::<serde_json::Value>`: parsing is a
/// function of the text alone; the parsed tree is mirrored into the library's
/// own document model.
#[verifier::external_body]
pub fn parse_json(s: &str) -> (r: Option<JsonValue>)
    ensures
        match r {
            Some(v) => parsed_json(s@) == Some(v@),
            None => parsed_json(s@) is None,
        },
{
    match serde_json::from_str::<serde_json::Value>(s) {
        Ok(v) => serde_value_to_json(v),
        Err(_) => None,
    }
}

} // verus!
