//! The requests that the SmartThings REST API is sent, and the replies it gives.
//!
//! The library describes each request as a value; the program that embeds it sends it
//! (with the headers named here) and hands the reply back as an `HttpOutcome`.
use vstd::prelude::*;

use crate::json::{
    entries_insert, entries_set, entries_view, json_parse_v, member, parse_json, Json, JsonV, jstr,
};
use crate::text::{blank, concat, concat3, decimal, format_u64, is_blank, owned};

verus! {

/// Where every path of the API is rooted.
pub const BASE_URL: &'static str = "https://api.smartthings.com/v1";

/// The HTTP methods that the tools use.
#[derive(Clone, Copy, PartialEq, Eq, Structural)]
pub enum Method {
    Get,
    Post,
}

impl Method {
    /// The method's name as it goes on the wire.
    pub open spec fn name_v(self) -> Seq<char> {
        match self {
            Method::Get => "GET"@,
            Method::Post => "POST"@,
        }
    }

    /// The method's name as it goes on the wire.
    pub fn as_str(&self) -> (r: &'static str)
        ensures
            r@ == self.name_v(),
    {
        match self {
            Method::Get => "GET",
            Method::Post => "POST",
        }
    }
}

/// The model of a request.
pub struct ApiRequestV {
    pub method: Method,
    pub path: Seq<char>,
    pub body: Option<JsonV>,
    pub params: Seq<(Seq<char>, Seq<char>)>,
}

/// A request to the API: method, path below `BASE_URL`, JSON body, query parameters.
pub struct ApiRequest {
    pub method: Method,
    pub path: String,
    pub body: Option<Json>,
    pub params: Vec<(String, String)>,
}

/// The model of a list of query parameters.
pub open spec fn params_view(s: Seq<(String, String)>) -> Seq<(Seq<char>, Seq<char>)> {
    Seq::new(s.len(), |i: int| (s[i].0@, s[i].1@))
}

impl View for ApiRequest {
    type V = ApiRequestV;

    open spec fn view(&self) -> ApiRequestV {
        ApiRequestV {
            method: self.method,
            path: self.path@,
            body: match self.body {
                Some(b) => Some(b@),
                None => None,
            },
            params: params_view(self.params@),
        }
    }
}

/// A copy of a list of query parameters.
pub fn copy_params(p: &Vec<(String, String)>) -> (r: Vec<(String, String)>)
    ensures
        params_view(r@) == params_view(p@),
{
    let mut out: Vec<(String, String)> = Vec::new();
    let mut i: usize = 0;
    while i < p.len()
        invariant
            0 <= i <= p.len(),
            out@.len() == i,
            forall|j: int| 0 <= j < i ==> out@[j].0@ == p@[j].0@ && out@[j].1@ == p@[j].1@,
        decreases p.len() - i,
    {
        out.push((p[i].0.clone(), p[i].1.clone()));
        i = i + 1;
    }
    assert(params_view(out@) =~= params_view(p@));
    out
}

impl ApiRequest {
    /// A copy of this request.
    pub fn copy(&self) -> (r: ApiRequest)
        ensures
            r@ == self@,
    {
        ApiRequest {
            method: self.method,
            path: self.path.clone(),
            body: match &self.body {
                Some(b) => Some(b.deep_clone()),
                None => None,
            },
            params: copy_params(&self.params),
        }
    }
}

/// The full URL of a path of the API.
pub fn request_url(path: &str) -> (r: String)
    ensures
        r@ == BASE_URL@ + path@,
{
    concat(BASE_URL, path)
}

/// The body of a device command:
/// `{"commands": [{"component", "capability", "command", "arguments"}]}`.
pub open spec fn command_body_v(
    component: Seq<char>,
    capability: Seq<char>,
    command: Seq<char>,
    arguments: Seq<JsonV>,
) -> JsonV {
    JsonV::Object(
        seq![
            (
                "commands"@,
                JsonV::Array(
                    seq![
                        JsonV::Object(
                            seq![
                                ("component"@, jstr(component)),
                                ("capability"@, jstr(capability)),
                                ("command"@, jstr(command)),
                                ("arguments"@, JsonV::Array(arguments)),
                            ],
                        ),
                    ],
                ),
            ),
        ],
    )
}

/// The request that sends a command to a device.
pub open spec fn command_v(
    device_id: Seq<char>,
    capability: Seq<char>,
    command: Seq<char>,
    arguments: Seq<JsonV>,
    component: Seq<char>,
) -> ApiRequestV {
    ApiRequestV {
        method: Method::Post,
        path: "/devices/"@ + device_id + "/commands"@,
        body: Some(command_body_v(component, capability, command, arguments)),
        params: Seq::empty(),
    }
}

/// The request that reads a path.
pub open spec fn get_v(path: Seq<char>, params: Seq<(Seq<char>, Seq<char>)>) -> ApiRequestV {
    ApiRequestV { method: Method::Get, path, body: None, params }
}

/// The request that posts to a path.
pub open spec fn post_v(path: Seq<char>, body: Option<JsonV>) -> ApiRequestV {
    ApiRequestV { method: Method::Post, path, body, params: Seq::empty() }
}

/// The request that reads a device's status.
pub open spec fn status_v(device_id: Seq<char>) -> ApiRequestV {
    get_v("/devices/"@ + device_id + "/status"@, Seq::empty())
}

/// A client of the SmartThings API: the personal access token that authorises it.
pub struct SmartThingsClient {
    token: String,
}

impl SmartThingsClient {
    /// The token.
    pub closed spec fn token_v(self) -> Seq<char> {
        self.token@
    }

    /// A client that authorises itself with `token`.
    pub fn new(token: String) -> (r: SmartThingsClient)
        ensures
            r.token_v() == token@,
    {
        SmartThingsClient { token }
    }

    /// The value of the `Authorization` header: `Bearer <token>`.
    pub fn authorization(&self) -> (r: String)
        ensures
            r@ == "Bearer "@ + self.token_v(),
    {
        concat("Bearer ", self.token.as_str())
    }

    /// A request with the given method, path, body and query parameters.
    pub fn request(
        &self,
        method: Method,
        path: &str,
        body: Option<Json>,
        params: Option<Vec<(String, String)>>,
    ) -> (r: ApiRequest)
        ensures
            r@ == (ApiRequestV {
                method,
                path: path@,
                body: match body {
                    Some(b) => Some(b@),
                    None => None,
                },
                params: match params {
                    Some(p) => params_view(p@),
                    None => Seq::empty(),
                },
            }),
    {
        let params = match params {
            Some(p) => p,
            None => {
                let v: Vec<(String, String)> = Vec::new();
                assert(params_view(v@) =~= Seq::empty());
                v
            },
        };
        ApiRequest { method, path: owned(path), body, params }
    }

    /// A GET request for `path`.
    pub fn get(&self, path: &str, params: Option<Vec<(String, String)>>) -> (r: ApiRequest)
        ensures
            r@ == get_v(
                path@,
                match params {
                    Some(p) => params_view(p@),
                    None => Seq::empty(),
                },
            ),
    {
        self.request(Method::Get, path, None, params)
    }

    /// A POST request for `path` with an optional body.
    pub fn post(&self, path: &str, body: Option<Json>) -> (r: ApiRequest)
        ensures
            r@ == post_v(
                path@,
                match body {
                    Some(b) => Some(b@),
                    None => None,
                },
            ),
    {
        self.request(Method::Post, path, body, None)
    }

    /// The request that runs `command` of `capability` on a device's component
    /// (`main` where none is given), with the given arguments (none where none are given).
    pub fn command(
        &self,
        device_id: &str,
        capability: &str,
        command: &str,
        arguments: Option<Vec<Json>>,
        component: Option<&str>,
    ) -> (r: ApiRequest)
        ensures
            r@ == command_v(
                device_id@,
                capability@,
                command@,
                match arguments {
                    Some(a) => crate::json::items_view(a@),
                    None => Seq::empty(),
                },
                match component {
                    Some(c) => c@,
                    None => "main"@,
                },
            ),
    {
        let comp = match component {
            Some(c) => c,
            None => "main",
        };
        let args = match arguments {
            Some(a) => a,
            None => Vec::new(),
        };
        let ghost argsv = crate::json::items_view(args@);
        assert(argsv =~= match arguments {
            Some(a) => crate::json::items_view(a@),
            None => Seq::empty(),
        });
        let inner = vec![
            member("component", Json::text(comp)),
            member("capability", Json::text(capability)),
            member("command", Json::text(command)),
            member("arguments", Json::Array(args)),
        ];
        let ghost innerv = entries_view(inner@);
        let list = vec![Json::Object(inner)];
        let ghost listv = crate::json::items_view(list@);
        let outer = vec![member("commands", Json::Array(list))];
        let body = Json::Object(outer);
        proof {
            assert(innerv =~= command_body_v(comp@, capability@, command@, argsv)->Object_0[0].1->Array_0[0]->Object_0);
            assert(listv =~= command_body_v(comp@, capability@, command@, argsv)->Object_0[0].1->Array_0);
            assert(entries_view(outer@) =~= command_body_v(comp@, capability@, command@, argsv)->Object_0);
            assert(body@ == command_body_v(comp@, capability@, command@, argsv));
        }
        let path = concat3("/devices/", device_id, "/commands");
        self.post(path.as_str(), Some(body))
    }
}

/// The model of a reply.
pub struct ResponseV {
    pub fields: Seq<(Seq<char>, JsonV)>,
}

/// A reply of the API, as the members of a JSON object.
pub struct Response {
    pub fields: Vec<(String, Json)>,
}

impl View for Response {
    type V = ResponseV;

    open spec fn view(&self) -> ResponseV {
        ResponseV { fields: entries_view(self.fields@) }
    }
}

/// The models of a list of replies.
pub open spec fn responses_view(s: Seq<Response>) -> Seq<ResponseV> {
    Seq::new(s.len(), |i: int| s[i]@)
}

/// What came of sending a request.
pub enum HttpOutcome {
    /// The service answered with `status`; `text` is the body.
    Replied { status: u16, text: String },
    /// The service could not be reached; `message` tells why.
    Unreachable { message: String },
}

/// The model of a reply body: nothing where the text is blank, the parsed object where
/// it is one, and `{"raw": text}` where it is not.
pub open spec fn body_fields_v(
    text: Seq<char>,
    parsed: Option<Seq<(Seq<char>, JsonV)>>,
) -> Seq<(Seq<char>, JsonV)> {
    if blank(text) {
        Seq::empty()
    } else {
        match parsed {
            Some(f) => f,
            None => seq![("raw"@, jstr(text))],
        }
    }
}

/// The reply that the tools see for an answer with `status`: the body as an object, and
/// for an error status (400 or more) also `status_code`.
pub open spec fn response_v(
    status: nat,
    text: Seq<char>,
    parsed: Option<Seq<(Seq<char>, JsonV)>>,
) -> ResponseV {
    let fields = body_fields_v(text, parsed);
    ResponseV {
        fields: if status < 400 {
            fields
        } else {
            entries_insert(fields, "status_code"@, JsonV::Number(decimal(status)))
        },
    }
}

/// The reply for a service that could not be reached: `{"error": message, "status_code": 0}`.
pub open spec fn unreachable_v(message: Seq<char>) -> ResponseV {
    ResponseV {
        fields: seq![("error"@, jstr(message)), ("status_code"@, JsonV::Number("0"@))],
    }
}

/// The members of a JSON object; none for any other value or for no value.
pub open spec fn object_members_v(o: Option<JsonV>) -> Option<Seq<(Seq<char>, JsonV)>> {
    match o {
        Some(JsonV::Object(e)) => Some(e),
        _ => None,
    }
}

/// The reply body as an object, given the value that its text was read as: empty where
/// the text is blank, the members where the value is an object, else `{"raw": text}`.
pub fn body_response(text: String, parsed: Option<Json>) -> (r: Response)
    ensures
        r@.fields == body_fields_v(
            text@,
            match parsed {
                Some(j) => object_members_v(Some(j@)),
                None => None,
            },
        ),
{
    if is_blank(text.as_str()) {
        let v: Vec<(String, Json)> = Vec::new();
        assert(entries_view(v@) =~= Seq::empty());
        return Response { fields: v };
    }
    match parsed {
        Some(Json::Object(f)) => Response { fields: f },
        _ => {
            let ghost t = text@;
            let v = vec![member("raw", Json::Str(text))];
            assert(entries_view(v@) =~= seq![("raw"@, jstr(t))]);
            Response { fields: v }
        },
    }
}

/// The reply body as an object: empty where the text is blank, the members where the
/// text is a JSON object, else `{"raw": text}`.
pub fn parse_response(text: String) -> (r: Response)
    ensures
        r@.fields == body_fields_v(text@, object_members_v(json_parse_v(text@))),
{
    let parsed = parse_json(text.as_str());
    body_response(text, parsed)
}

/// The reply that the tools see for what came of a request.
pub fn response_of(outcome: HttpOutcome) -> (r: Response)
    ensures
        match outcome {
            HttpOutcome::Replied { status, text } => r@ == response_v(
                status as nat,
                text@,
                object_members_v(json_parse_v(text@)),
            ),
            HttpOutcome::Unreachable { message } => r@ == unreachable_v(message@),
        },
{
    match outcome {
        HttpOutcome::Replied { status, text } => {
            let mut r = parse_response(text);
            if status >= 400 {
                let code = Json::Number(format_u64(status as u64));
                entries_set(&mut r.fields, owned("status_code"), code);
            }
            r
        },
        HttpOutcome::Unreachable { message } => {
            let ghost m = message@;
            let v = vec![
                member("error", Json::Str(message)),
                member("status_code", Json::Number(owned("0"))),
            ];
            assert(entries_view(v@) =~= seq![
                ("error"@, jstr(m)),
                ("status_code"@, JsonV::Number("0"@)),
            ]);
            Response { fields: v }
        },
    }
}

} // verus!
