//! The requests a tool plans, and helpers shared by the tools for building them and
//! for turning replies into results.
use vstd::prelude::*;

use crate::client::{command_v, ApiRequest, ApiRequestV, Response, ResponseV};
use crate::json::{
    json_text_v,
    clone_entries, entries_get, entries_has, entries_view, int_json, int_v, items_view, opt_get,
    Json, JsonV,
};

verus! {

/// The models of a list of requests.
pub open spec fn requests_view(s: Seq<ApiRequest>) -> Seq<ApiRequestV> {
    Seq::new(s.len(), |i: int| s[i]@)
}

/// The model of a plan: the requests to send in order, or the message with which the
/// tool refuses its arguments before sending anything.
pub open spec fn plan_view(r: Result<Vec<ApiRequest>, String>) -> Result<Seq<ApiRequestV>, Seq<char>> {
    match r {
        Ok(v) => Ok(requests_view(v@)),
        Err(e) => Err(e@),
    }
}

/// The number of requests a plan holds (none for a refusal).
pub open spec fn plan_len(p: Result<Seq<ApiRequestV>, Seq<char>>) -> nat {
    match p {
        Ok(s) => s.len(),
        Err(_) => 0,
    }
}

/// A plan of one request.
pub fn single(req: ApiRequest) -> (r: Result<Vec<ApiRequest>, String>)
    ensures
        plan_view(r) == Ok::<Seq<ApiRequestV>, Seq<char>>(seq![req@]),
{
    let v = vec![req];
    assert(requests_view(v@) =~= seq![v@[0]@]);
    Ok(v)
}

/// The models of a list of texts.
pub open spec fn strs_view(s: Seq<&str>) -> Seq<Seq<char>> {
    Seq::new(s.len(), |i: int| s[i]@)
}

/// The refusal of `value` for the argument `field` where it is none of `allowed` (listed
/// in `choices`): `ValidationError: <field> must be one of <choices>, got '<value>'`.
pub open spec fn choice_problem_v(
    field: Seq<char>,
    choices: Seq<char>,
    allowed: Seq<Seq<char>>,
    value: Seq<char>,
) -> Option<Seq<char>> {
    if allowed.contains(value) {
        None
    } else {
        Some("ValidationError: "@ + field + " must be one of "@ + choices + ", got '"@ + value + "'"@)
    }
}

/// The refusal of an optional argument's value, where one is given and is none of
/// `allowed`.
pub open spec fn opt_choice_problem_v(
    field: Seq<char>,
    choices: Seq<char>,
    allowed: Seq<Seq<char>>,
    value: Option<String>,
) -> Option<Seq<char>> {
    match value {
        Some(v) => choice_problem_v(field, choices, allowed, v@),
        None => None,
    }
}

/// The refusal of `value` for the argument `field` where it is none of `allowed`.
pub fn choice_problem(field: &str, choices: &str, allowed: &Vec<&'static str>, value: &str) -> (r:
    Option<String>)
    ensures
        crate::tool::opt_str_view(r) == choice_problem_v(field@, choices@, strs_view(allowed@), value@),
{
    let ghost a = strs_view(allowed@);
    let mut i: usize = 0;
    while i < allowed.len()
        invariant
            0 <= i <= allowed.len(),
            a == strs_view(allowed@),
            forall|j: int| 0 <= j < i ==> a[j] != value@,
        decreases allowed.len() - i,
    {
        if crate::text::str_eq(allowed[i], value) {
            assert(a[i as int] == value@);
            return None;
        }
        i = i + 1;
    }
    let mut m = crate::text::concat3("ValidationError: ", field, " must be one of ");
    m.append(choices);
    m.append(", got '");
    m.append(value);
    m.append("'");
    Some(m)
}

/// The refusal of an optional argument's value.
pub fn opt_choice_problem(
    field: &str,
    choices: &str,
    allowed: &Vec<&'static str>,
    value: &Option<String>,
) -> (r: Option<String>)
    ensures
        crate::tool::opt_str_view(r) == opt_choice_problem_v(field@, choices@, strs_view(allowed@), *value),
{
    match value {
        Some(v) => choice_problem(field, choices, allowed, v.as_str()),
        None => None,
    }
}

/// A refusal with `msg`.
pub fn refuse(msg: String) -> (r: Result<Vec<ApiRequest>, String>)
    ensures
        plan_view(r) == Err::<Seq<ApiRequestV>, Seq<char>>(msg@),
{
    Err(msg)
}

/// Whether a reply carries an `error` member.
pub open spec fn has_error_v(r: ResponseV) -> bool {
    entries_has(r.fields, "error"@)
}

/// The message of a reply's `error` member: its `message` where it is an object with a
/// string `message`, else the member rendered as JSON text.
pub open spec fn error_message_v(r: ResponseV) -> Option<Seq<char>> {
    match entries_get(r.fields, "error"@) {
        None => None,
        Some(e) => Some(
            match e {
                JsonV::Object(m) => match entries_get(m, "message"@) {
                    Some(JsonV::Str(s)) => s,
                    _ => json_text_v(e),
                },
                _ => json_text_v(e),
            },
        ),
    }
}

/// The message reported for a failed reply: its error message, or `Unknown error`.
pub open spec fn error_msg_v(r: ResponseV) -> Seq<char> {
    match error_message_v(r) {
        Some(m) => m,
        None => "Unknown error"@,
    }
}

/// A reply as a JSON object.
pub open spec fn reply_json_v(r: ResponseV) -> JsonV {
    JsonV::Object(r.fields)
}

/// A reply as a JSON object.
pub fn reply_json(r: &Response) -> (j: Json)
    ensures
        j@ == reply_json_v(r@),
{
    Json::Object(clone_entries(&r.fields))
}

/// Pairs each key with the reply at the same place: `{keys[i]: replies[i]}`.
pub open spec fn keyed_replies_v(keys: Seq<Seq<char>>, replies: Seq<ResponseV>) -> JsonV {
    JsonV::Object(Seq::new(keys.len(), |i: int| (keys[i], reply_json_v(replies[i]))))
}

/// Pairs each key with the reply at the same place.
pub fn keyed_replies(keys: &Vec<&str>, replies: &Vec<Response>) -> (j: Json)
    requires
        keys.len() <= replies.len(),
    ensures
        j@ == keyed_replies_v(Seq::new(keys@.len(), |i: int| keys@[i]@), crate::client::responses_view(replies@)),
{
    let mut out: Vec<(String, Json)> = Vec::new();
    let mut i: usize = 0;
    while i < keys.len()
        invariant
            keys.len() <= replies.len(),
            0 <= i <= keys.len(),
            out@.len() == i,
            forall|j: int| 0 <= j < i ==> out@[j].0@ == keys@[j]@,
            forall|j: int| 0 <= j < i ==> out@[j].1@ == reply_json_v(replies@[j]@),
        decreases keys.len() - i,
    {
        out.push((crate::text::owned(keys[i]), reply_json(&replies[i])));
        i = i + 1;
    }
    let ghost ks = Seq::new(keys@.len(), |i: int| keys@[i]@);
    let ghost rs = crate::client::responses_view(replies@);
    assert(entries_view(out@) =~= Seq::new(ks.len(), |i: int| (ks[i], reply_json_v(rs[i]))));
    Json::Object(out)
}

/// A command to a device's `main` component.
pub open spec fn device_command_v(
    device_id: Seq<char>,
    capability: Seq<char>,
    command: Seq<char>,
    arguments: Seq<JsonV>,
) -> ApiRequestV {
    command_v(device_id, capability, command, arguments, "main"@)
}

/// The single argument `[s]`.
pub fn str_arg(s: &str) -> (r: Option<Vec<Json>>)
    ensures
        r is Some,
        items_view(r->0@) == seq![JsonV::Str(s@)],
{
    let v = vec![Json::text(s)];
    assert(items_view(v@) =~= seq![JsonV::Str(s@)]);
    Some(v)
}

/// The single argument `[n]`.
pub fn int_arg(n: i32) -> (r: Option<Vec<Json>>)
    ensures
        r is Some,
        items_view(r->0@) == seq![int_v(n as int)],
{
    let v = vec![int_json(n as i64)];
    assert(items_view(v@) =~= seq![int_v(n as int)]);
    Some(v)
}

/// The single argument `[v]`.
pub fn json_arg(j: &Json) -> (r: Option<Vec<Json>>)
    ensures
        r is Some,
        items_view(r->0@) == seq![j@],
{
    let v = vec![j.deep_clone()];
    assert(items_view(v@) =~= seq![j@]);
    Some(v)
}

/// The `value` of attribute `attribute` of capability `capability` in the `main`
/// component of a status reply.
pub open spec fn status_value_v(r: ResponseV, capability: Seq<char>, attribute: Seq<char>) -> Option<
    JsonV,
> {
    opt_get(status_attribute_v(r, capability, attribute), "value"@)
}

/// Attribute `attribute` of capability `capability` in the `main` component of a status
/// reply.
pub open spec fn status_attribute_v(r: ResponseV, capability: Seq<char>, attribute: Seq<char>) -> Option<
    JsonV,
> {
    opt_get(opt_get(opt_get(entries_get(r.fields, "components"@), "main"@), capability), attribute)
}

/// Attribute `attribute` of capability `capability` in the `main` component.
pub fn status_attribute<'a>(r: &'a Response, capability: &str, attribute: &str) -> (v: Option<&'a Json>)
    ensures
        crate::json::opt_view(v) == status_attribute_v(r@, capability@, attribute@),
{
    match crate::json::entries_lookup(&r.fields, "components") {
        Some(c) => match c.get("main") {
            Some(m) => match m.get(capability) {
                Some(cap) => cap.get(attribute),
                None => None,
            },
            None => None,
        },
        None => None,
    }
}

/// The `value` of an attribute in the `main` component.
pub fn status_value<'a>(r: &'a Response, capability: &str, attribute: &str) -> (v: Option<&'a Json>)
    ensures
        crate::json::opt_view(v) == status_value_v(r@, capability@, attribute@),
{
    match status_attribute(r, capability, attribute) {
        Some(a) => a.get("value"),
        None => None,
    }
}

/// `[a]` where `b` holds, else nothing.
pub open spec fn sent_if<A>(b: bool, a: A) -> Seq<A> {
    if b {
        seq![a]
    } else {
        Seq::empty()
    }
}

/// The requests of a plan that sends what is given, in order.
pub open spec fn requests_of(v: Seq<ApiRequest>) -> Seq<ApiRequestV> {
    requests_view(v)
}

/// A member `(key, v)` where a value is given, else nothing.
pub open spec fn opt_member_v(key: Seq<char>, o: Option<JsonV>) -> Seq<(Seq<char>, JsonV)> {
    match o {
        Some(v) => seq![(key, v)],
        None => Seq::empty(),
    }
}

/// Appends member `(key, v)` where a value is given.
pub fn push_opt_member(out: &mut Vec<(String, Json)>, key: &str, o: Option<&Json>)
    ensures
        entries_view(final(out)@) == entries_view(old(out)@) + opt_member_v(key@, crate::json::opt_view(o)),
{
    let ghost before = entries_view(out@);
    match o {
        Some(v) => {
            out.push((crate::text::owned(key), v.deep_clone()));
            assert(entries_view(out@) =~= before + seq![(key@, v@)]);
        },
        None => {
            assert(entries_view(out@) =~= before + Seq::empty());
        },
    }
}

/// Appends a request to a plan.
pub fn push_request(plan: &mut Vec<ApiRequest>, req: ApiRequest)
    ensures
        requests_view(final(plan)@) == requests_view(old(plan)@).push(req@),
{
    plan.push(req);
    assert(requests_view(plan@) =~= requests_view(old(plan)@).push(req@));
}

} // verus!

