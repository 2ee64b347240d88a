//! A JSON document as the library holds it, and its mathematical model.
//!
//! `Json` carries the same six kinds of value as a JSON text. A number is held as the
//! decimal text that denotes it, so that no floating-point value enters the library.
//! An object is a list of (key, value) pairs in the order in which they were given;
//! lookups return the first pair with the key.
use vstd::prelude::*;

use crate::text::{format_i64, format_u64, signed_decimal, str_eq};

verus! {

/// The mathematical model of a JSON value.
pub enum JsonV {
    Null,
    Bool(bool),
    Number(Seq<char>),
    Str(Seq<char>),
    Array(Seq<JsonV>),
    Object(Seq<(Seq<char>, JsonV)>),
}

/// A JSON value.
pub enum Json {
    Null,
    Bool(bool),
    Number(String),
    Str(String),
    Array(Vec<Json>),
    Object(Vec<(String, Json)>),
}

/// The models of a sequence of values.
pub open spec fn items_view(s: Seq<Json>) -> Seq<JsonV>
    decreases s,
{
    Seq::new(s.len(), |i: int| if 0 <= i < s.len() { s[i].view_json() } else { JsonV::Null })
}

/// The models of a sequence of object members.
pub open spec fn entries_view(s: Seq<(String, Json)>) -> Seq<(Seq<char>, JsonV)>
    decreases s,
{
    Seq::new(
        s.len(),
        |i: int|
            if 0 <= i < s.len() {
                (s[i].0@, s[i].1.view_json())
            } else {
                (Seq::empty(), JsonV::Null)
            },
    )
}

impl Json {
    /// The model of this value.
    pub open spec fn view_json(self) -> JsonV
        decreases self,
    {
        match self {
            Json::Null => JsonV::Null,
            Json::Bool(b) => JsonV::Bool(b),
            Json::Number(n) => JsonV::Number(n@),
            Json::Str(s) => JsonV::Str(s@),
            Json::Array(v) => JsonV::Array(items_view(v@)),
            Json::Object(v) => JsonV::Object(entries_view(v@)),
        }
    }
}

impl View for Json {
    type V = JsonV;

    open spec fn view(&self) -> JsonV {
        self.view_json()
    }
}

/// The value of the first member named `key`, if any.
pub open spec fn entries_get(e: Seq<(Seq<char>, JsonV)>, key: Seq<char>) -> Option<JsonV>
    decreases e.len(),
{
    if e.len() == 0 {
        None
    } else if e[0].0 == key {
        Some(e[0].1)
    } else {
        entries_get(e.drop_first(), key)
    }
}

/// Sets member `key` to `value`: the first member with that key is replaced, or the
/// member is appended where there is none.
pub open spec fn entries_insert(e: Seq<(Seq<char>, JsonV)>, key: Seq<char>, value: JsonV) -> Seq<
    (Seq<char>, JsonV),
>
    decreases e.len(),
{
    if e.len() == 0 {
        seq![(key, value)]
    } else if e[0].0 == key {
        e.update(0, (key, value))
    } else {
        seq![e[0]] + entries_insert(e.drop_first(), key, value)
    }
}

/// Whether some member is named `key`.
pub open spec fn entries_has(e: Seq<(Seq<char>, JsonV)>, key: Seq<char>) -> bool {
    entries_get(e, key) is Some
}

impl JsonV {
    /// `value[key]` for an object; nothing for any other value.
    pub open spec fn get(self, key: Seq<char>) -> Option<JsonV> {
        match self {
            JsonV::Object(e) => entries_get(e, key),
            _ => None,
        }
    }

    /// The elements of an array.
    pub open spec fn array(self) -> Option<Seq<JsonV>> {
        match self {
            JsonV::Array(a) => Some(a),
            _ => None,
        }
    }

    /// The members of an object.
    pub open spec fn object(self) -> Option<Seq<(Seq<char>, JsonV)>> {
        match self {
            JsonV::Object(e) => Some(e),
            _ => None,
        }
    }

    /// The characters of a string.
    pub open spec fn string(self) -> Option<Seq<char>> {
        match self {
            JsonV::Str(s) => Some(s),
            _ => None,
        }
    }
}

/// `o.get(key)` lifted to an optional value.
pub open spec fn opt_get(o: Option<JsonV>, key: Seq<char>) -> Option<JsonV> {
    match o {
        Some(v) => v.get(key),
        None => None,
    }
}

/// An optional value as JSON: `null` where there is none.
pub open spec fn or_null(o: Option<JsonV>) -> JsonV {
    match o {
        Some(v) => v,
        None => JsonV::Null,
    }
}

/// The model of an optional reference to a value.
pub open spec fn opt_view(o: Option<&Json>) -> Option<JsonV> {
    match o {
        Some(j) => Some(j@),
        None => None,
    }
}

/// A JSON string made of the given characters.
pub open spec fn jstr(s: Seq<char>) -> JsonV {
    JsonV::Str(s)
}

/// The first member of `e` named `key`, found by a scan from the front.
pub fn entries_lookup<'a>(e: &'a Vec<(String, Json)>, key: &str) -> (r: Option<&'a Json>)
    ensures
        opt_view(r) == entries_get(entries_view(e@), key@),
{
    let ghost ev = entries_view(e@);
    assert(ev.subrange(0, ev.len() as int) =~= ev);
    let mut i: usize = 0;
    while i < e.len()
        invariant
            0 <= i <= e.len(),
            ev == entries_view(e@),
            entries_get(ev, key@) == entries_get(ev.subrange(i as int, ev.len() as int), key@),
        decreases e.len() - i,
    {
        let ghost rest = ev.subrange(i as int, ev.len() as int);
        assert(rest[0] == ev[i as int]);
        assert(rest.drop_first() =~= ev.subrange(i + 1, ev.len() as int));
        if str_eq(e[i].0.as_str(), key) {
            return Some(&e[i].1);
        }
        i = i + 1;
    }
    assert(ev.subrange(i as int, ev.len() as int).len() == 0);
    None
}

/// Member `key` of the object `e`, set to `value`; the first member of that name is
/// replaced, or the member is appended.
pub fn entries_set(e: &mut Vec<(String, Json)>, key: String, value: Json)
    ensures
        entries_view(final(e)@) == entries_insert(entries_view(old(e)@), key@, value@),
{
    let ghost ev = entries_view(e@);
    let ghost kv = key@;
    let ghost vv = value@;
    let mut i: usize = 0;
    while i < e.len()
        invariant
            0 <= i <= e.len(),
            ev == entries_view(e@),
            ev == entries_view(old(e)@),
            kv == key@,
            vv == value@,
            forall|j: int| 0 <= j < i ==> ev[j].0 != kv,
        decreases e.len() - i,
    {
        if str_eq(e[i].0.as_str(), key.as_str()) {
            proof {
                lemma_insert_at(ev, kv, vv, i as int);
            }
            let ghost before = e@;
            e.set(i, (key, value));
            assert(e@ == before.update(i as int, (key, value)));
            assert(entries_view(e@) =~= ev.update(i as int, (kv, vv)));
            return ;
        }
        i = i + 1;
    }
    proof {
        lemma_insert_absent(ev, kv, vv);
    }
    e.push((key, value));
    assert(entries_view(e@) =~= ev.push((kv, vv)));
}

/// Inserting a key whose first occurrence is at `i` replaces that member.
pub proof fn lemma_insert_at(e: Seq<(Seq<char>, JsonV)>, key: Seq<char>, value: JsonV, i: int)
    requires
        0 <= i < e.len(),
        e[i].0 == key,
        forall|j: int| 0 <= j < i ==> e[j].0 != key,
    ensures
        entries_insert(e, key, value) == e.update(i, (key, value)),
    decreases i,
{
    if i == 0 {
    } else {
        lemma_insert_at(e.drop_first(), key, value, i - 1);
        assert(seq![e[0]] + e.drop_first().update(i - 1, (key, value)) =~= e.update(
            i,
            (key, value),
        ));
    }
}

/// Inserting a key that no member has appends the member.
pub proof fn lemma_insert_absent(e: Seq<(Seq<char>, JsonV)>, key: Seq<char>, value: JsonV)
    requires
        forall|j: int| 0 <= j < e.len() ==> e[j].0 != key,
    ensures
        entries_insert(e, key, value) == e.push((key, value)),
    decreases e.len(),
{
    if e.len() == 0 {
        assert(seq![(key, value)] =~= e.push((key, value)));
    } else {
        lemma_insert_absent(e.drop_first(), key, value);
        assert(seq![e[0]] + e.drop_first().push((key, value)) =~= e.push((key, value)));
    }
}

impl Json {
    /// `self[key]` where `self` is an object; `None` for any other value.
    pub fn get(&self, key: &str) -> (r: Option<&Json>)
        ensures
            opt_view(r) == self@.get(key@),
    {
        match self {
            Json::Object(e) => entries_lookup(e, key),
            _ => None,
        }
    }

    /// The elements, where `self` is an array.
    pub fn as_array(&self) -> (r: Option<&Vec<Json>>)
        ensures
            match r {
                Some(v) => self@.array() == Some(items_view(v@)),
                None => self@.array() is None,
            },
    {
        match self {
            Json::Array(v) => Some(v),
            _ => None,
        }
    }

    /// The members, where `self` is an object.
    pub fn as_object(&self) -> (r: Option<&Vec<(String, Json)>>)
        ensures
            match r {
                Some(v) => self@.object() == Some(entries_view(v@)),
                None => self@.object() is None,
            },
    {
        match self {
            Json::Object(v) => Some(v),
            _ => None,
        }
    }

    /// The text, where `self` is a string.
    pub fn as_str(&self) -> (r: Option<&String>)
        ensures
            match r {
                Some(s) => self@.string() == Some(s@),
                None => self@.string() is None,
            },
    {
        match self {
            Json::Str(s) => Some(s),
            _ => None,
        }
    }

    /// A string value with the characters of `s`.
    pub fn text(s: &str) -> (r: Json)
        ensures
            r@ == JsonV::Str(s@),
    {
        Json::Str(s.to_owned())
    }

    /// A copy of this value.
    #[verifier::loop_isolation(false)]
    pub fn deep_clone(&self) -> (r: Json)
        ensures
            r@ == self@,
        decreases self,
    {
        match self {
            Json::Null => Json::Null,
            Json::Bool(b) => Json::Bool(*b),
            Json::Number(n) => Json::Number(n.clone()),
            Json::Str(s) => Json::Str(s.clone()),
            Json::Array(v) => {
                let mut out: Vec<Json> = Vec::new();
                let mut i: usize = 0;
                while i < v.len()
                    invariant
                        0 <= i <= v.len(),
                        out@.len() == i,
                        forall|j: int| 0 <= j < i ==> out@[j]@ == v@[j]@,
                    decreases v.len() - i,
                {
                    proof {
                        assert(decreases_to!(*v => v[i as int]));
                        assert(decreases_to!(*self => self->Array_0));
                        assert(decreases_to!(*self => v[i as int]));
                    }
                    out.push(v[i].deep_clone());
                    i = i + 1;
                }
                assert(items_view(out@) =~= items_view(v@));
                Json::Array(out)
            },
            Json::Object(v) => {
                let mut out: Vec<(String, Json)> = Vec::new();
                let mut i: usize = 0;
                while i < v.len()
                    invariant
                        0 <= i <= v.len(),
                        out@.len() == i,
                        forall|j: int| 0 <= j < i ==> out@[j].0@ == v@[j].0@,
                        forall|j: int| 0 <= j < i ==> out@[j].1@ == v@[j].1@,
                    decreases v.len() - i,
                {
                    proof {
                        assert(decreases_to!(*v => v[i as int]));
                        assert(decreases_to!(*self => self->Object_0));
                        assert(decreases_to!(v[i as int] => v[i as int].1));
                        assert(decreases_to!(*self => v[i as int].1));
                    }
                    let k = v[i].0.clone();
                    let c = v[i].1.deep_clone();
                    out.push((k, c));
                    i = i + 1;
                }
                assert(entries_view(out@) =~= entries_view(v@));
                Json::Object(out)
            },
        }
    }
}

/// Copies of a list of values.
pub fn clone_items(v: &Vec<Json>) -> (r: Vec<Json>)
    ensures
        items_view(r@) == items_view(v@),
{
    let mut out: Vec<Json> = Vec::new();
    let mut i: usize = 0;
    while i < v.len()
        invariant
            0 <= i <= v.len(),
            out@.len() == i,
            forall|j: int| 0 <= j < i ==> out@[j]@ == v@[j]@,
        decreases v.len() - i,
    {
        out.push(v[i].deep_clone());
        i = i + 1;
    }
    assert(items_view(out@) =~= items_view(v@));
    out
}

/// Copies of a list of members.
pub fn clone_entries(v: &Vec<(String, Json)>) -> (r: Vec<(String, Json)>)
    ensures
        entries_view(r@) == entries_view(v@),
{
    let mut out: Vec<(String, Json)> = Vec::new();
    let mut i: usize = 0;
    while i < v.len()
        invariant
            0 <= i <= v.len(),
            out@.len() == i,
            forall|j: int| 0 <= j < i ==> out@[j].0@ == v@[j].0@,
            forall|j: int| 0 <= j < i ==> out@[j].1@ == v@[j].1@,
        decreases v.len() - i,
    {
        let k = v[i].0.clone();
        let c = v[i].1.deep_clone();
        out.push((k, c));
        i = i + 1;
    }
    assert(entries_view(out@) =~= entries_view(v@));
    out
}

/// A copy of an optional value, `null` where there is none.
pub fn or_null_of(o: Option<&Json>) -> (r: Json)
    ensures
        r@ == or_null(opt_view(o)),
{
    match o {
        Some(j) => j.deep_clone(),
        None => Json::Null,
    }
}

/// An object member: `key` and a value.
pub fn member(key: &str, value: Json) -> (r: (String, Json))
    ensures
        r.0@ == key@,
        r.1@ == value@,
{
    (key.to_owned(), value)
}

/// The JSON number for an integer.
pub open spec fn int_v(n: int) -> JsonV {
    JsonV::Number(signed_decimal(n))
}

/// The JSON value for an optional text: the string, or `null`.
pub open spec fn opt_text_v(o: Option<String>) -> JsonV {
    match o {
        Some(s) => JsonV::Str(s@),
        None => JsonV::Null,
    }
}

/// The JSON value for an optional integer: the number, or `null`.
pub open spec fn opt_int_v(o: Option<i32>) -> JsonV {
    match o {
        Some(n) => int_v(n as int),
        None => JsonV::Null,
    }
}

/// The JSON value for an optional value: the value, or `null`.
pub open spec fn opt_json_v(o: Option<Json>) -> JsonV {
    match o {
        Some(j) => j@,
        None => JsonV::Null,
    }
}

/// The JSON number for an integer.
pub fn int_json(n: i64) -> (r: Json)
    ensures
        r@ == int_v(n as int),
{
    Json::Number(format_i64(n))
}

/// The JSON number for a count.
pub fn count_json(n: usize) -> (r: Json)
    ensures
        r@ == int_v(n as int),
{
    Json::Number(format_u64(n as u64))
}

/// The JSON value for an optional text.
pub fn opt_text_json(o: &Option<String>) -> (r: Json)
    ensures
        r@ == opt_text_v(*o),
{
    match o {
        Some(s) => Json::Str(s.clone()),
        None => Json::Null,
    }
}

/// The JSON value for an optional integer.
pub fn opt_int_json(o: Option<i32>) -> (r: Json)
    ensures
        r@ == opt_int_v(o),
{
    match o {
        Some(n) => int_json(n as i64),
        None => Json::Null,
    }
}

/// A JSON value as serde_json holds it.
#[verifier::external_type_specification]
#[verifier::external_body]
pub struct ExJsonValue(serde_json::Value);

/// The JSON value that `text` holds, as serde_json reads it; none where it is not JSON.
pub uninterp spec fn json_parse_v(text: Seq<char>) -> Option<JsonV>;

/// The compact JSON text of a value, as serde_json writes it.
pub uninterp spec fn json_text_v(v: JsonV) -> Seq<char>;

/// The indented JSON text of a value, as serde_json's pretty writer gives it.
pub uninterp spec fn pretty_json_v(v: JsonV) -> Seq<char>;

/// serde_json's value as the library holds it, kind for kind (a number as its text).
///
/// Trusted: moves each part of the value over, with `Number`'s `Display` for numbers;
/// the callers state what comes of it.
#[verifier::external_body]
fn from_serde(v: serde_json::Value) -> Json {
    match v {
        serde_json::Value::Null => Json::Null,
        serde_json::Value::Bool(b) => Json::Bool(b),
        serde_json::Value::Number(n) => Json::Number(n.to_string()),
        serde_json::Value::String(t) => Json::Str(t),
        serde_json::Value::Array(a) => Json::Array(a.into_iter().map(from_serde).collect()),
        serde_json::Value::Object(m) => Json::Object(m.into_iter().map(|(k, x)| (k, from_serde(x))).collect()),
    }
}

/// The library's value as serde_json holds it, kind for kind; a number is read back from
/// its text by `serde_json::Number`'s `FromStr`, and one that does not read is `null`.
///
/// Trusted: moves each part of the value over; the callers state what comes of it.
#[verifier::external_body]
fn to_serde(j: &Json) -> serde_json::Value {
    match j {
        Json::Null => serde_json::Value::Null,
        Json::Bool(b) => serde_json::Value::Bool(*b),
        Json::Number(t) => t.parse::<serde_json::Number>().map(serde_json::Value::Number).unwrap_or(serde_json::Value::Null),
        Json::Str(t) => serde_json::Value::String(t.clone()),
        Json::Array(a) => serde_json::Value::Array(a.iter().map(to_serde).collect()),
        Json::Object(m) => serde_json::Value::Object(m.iter().map(|(k, x)| (k.clone(), to_serde(x))).collect()),
    }
}

/// The JSON value that a text holds; none where the text is not JSON.
///
/// Trusted: `serde_json::from_str::<serde_json::Value>`, its error read as none. Its
/// result is named `json_parse_v`; it depends on the text alone.
#[verifier::external_body]
pub fn parse_json(text: &str) -> (r: Option<Json>)
    ensures
        match r {
            Some(j) => json_parse_v(text@) == Some(j@),
            None => json_parse_v(text@) is None,
        },
{
    serde_json::from_str::<serde_json::Value>(text).ok().map(from_serde)
}

impl Json {
    /// The compact JSON text of this value.
    ///
    /// Trusted: the `Display` of `serde_json::Value` (its `to_string`), which writes the
    /// value compactly; the result is named `json_text_v`, a function of the value alone.
    #[verifier::external_body]
    pub fn to_text(&self) -> (r: String)
        ensures
            r@ == json_text_v(self@),
    {
        to_serde(self).to_string()
    }
}

/// The indented JSON text of a value.
///
/// Trusted: `serde_json::to_string_pretty`, with `null` where it fails, which it does not
/// for a value held in memory; the result is named `pretty_json_v`, a function of the
/// value alone.
#[verifier::external_body]
pub fn pretty_json(j: &Json) -> (r: String)
    ensures
        r@ == pretty_json_v(j@),
{
    serde_json::to_string_pretty(&to_serde(j)).unwrap_or_else(|_| "null".to_string())
}

} // verus!
