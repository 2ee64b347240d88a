//! The calls that a survey makes: the request it hands to the program to send, and the
//! record it makes of what came back.
use vstd::prelude::*;

use crate::client::{copy_params, params_view, BASE_URL};
use crate::explorer::models::{
    copy_opt_json, opt_json_view, opt_text_view, ApiCallResult, ApiCallResultV, RequestInfo,
    RequestInfoV, ResponseInfo, ResponseInfoV,
};
use crate::json::{json_parse_v, parse_json, Json, JsonV};
use crate::text::{blank, concat, is_blank, owned};

verus! {

/// A client of the SmartThings API, holding the personal access token.
pub struct ApiClient {
    token: String,
}

impl View for ApiClient {
    type V = Seq<char>;

    closed spec fn view(&self) -> Seq<char> {
        self.token@
    }
}

/// The model of a request to send.
pub struct PendingCallV {
    pub method: Seq<char>,
    pub url: Seq<char>,
    pub headers: Seq<(Seq<char>, Seq<char>)>,
    pub body: Option<JsonV>,
    pub query: Seq<(Seq<char>, Seq<char>)>,
}

/// A request to send: method, URL, headers, JSON body (sent with a JSON content type),
/// and query parameters to add to the URL.
pub struct PendingCall {
    pub method: String,
    pub url: String,
    pub headers: Vec<(String, String)>,
    pub body: Option<Json>,
    pub query: Vec<(String, String)>,
}

impl View for PendingCall {
    type V = PendingCallV;

    open spec fn view(&self) -> PendingCallV {
        PendingCallV {
            method: self.method@,
            url: self.url@,
            headers: params_view(self.headers@),
            body: opt_json_view(self.body),
            query: params_view(self.query@),
        }
    }
}

impl PendingCall {
    /// A copy of this request.
    pub fn copy(&self) -> (r: PendingCall)
        ensures
            r@ == self@,
    {
        PendingCall {
            method: self.method.clone(),
            url: self.url.clone(),
            headers: copy_params(&self.headers),
            body: copy_opt_json(&self.body),
            query: copy_params(&self.query),
        }
    }
}

/// The request that a client with `token` makes for `method` on `path`: the URL below
/// `BASE_URL`, a bearer `Authorization` header and `Accept: application/json`.
pub open spec fn pending_v(
    token: Seq<char>,
    method: Seq<char>,
    path: Seq<char>,
    body: Option<JsonV>,
    query: Option<Seq<(Seq<char>, Seq<char>)>>,
) -> PendingCallV {
    PendingCallV {
        method,
        url: BASE_URL@ + path,
        headers: seq![("Authorization"@, "Bearer "@ + token), ("Accept"@, "application/json"@)],
        body,
        query: match query {
            Some(q) => q,
            None => Seq::empty(),
        },
    }
}

/// The model of a reply that the service gave.
pub struct AnswerV {
    pub status: u16,
    pub status_text: Seq<char>,
    pub final_url: Seq<char>,
    pub text: Option<Seq<char>>,
}

/// A reply that the service gave: status, reason phrase, the URL finally requested, the
/// body text (where it could be read).
pub struct Answer {
    pub status: u16,
    pub status_text: String,
    pub final_url: String,
    pub text: Option<String>,
}

impl View for Answer {
    type V = AnswerV;

    open spec fn view(&self) -> AnswerV {
        AnswerV {
            status: self.status,
            status_text: self.status_text@,
            final_url: self.final_url@,
            text: opt_text_view(self.text),
        }
    }
}

/// The model of what came of sending a request.
pub enum HttpReplyV {
    Answered { answer: AnswerV, duration_ms: u128 },
    Failed { rendered: Seq<char> },
}

/// What came of sending a request: a reply (error statuses included) and the time it
/// took, or a failure to reach the service, with the transport error as text.
pub enum HttpReply {
    Answered { answer: Answer, duration_ms: u128 },
    Failed { rendered: String },
}

impl View for HttpReply {
    type V = HttpReplyV;

    open spec fn view(&self) -> HttpReplyV {
        match self {
            HttpReply::Answered { answer, duration_ms } => HttpReplyV::Answered {
                answer: answer@,
                duration_ms: *duration_ms,
            },
            HttpReply::Failed { rendered } => HttpReplyV::Failed { rendered: rendered@ },
        }
    }
}

/// The JSON value that a body text holds, where there is a text and it is JSON.
pub open spec fn text_parse_v(text: Option<Seq<char>>) -> Option<JsonV> {
    match text {
        Some(t) => json_parse_v(t),
        None => None,
    }
}

/// The body recorded for a reply, given the value that its text was read as: nothing
/// where no text could be read or the text is blank; the JSON value where the text is
/// JSON; else the text as a string.
pub open spec fn response_body_v(text: Option<Seq<char>>, parsed: Option<JsonV>) -> Option<JsonV> {
    match text {
        None => None,
        Some(t) => if blank(t) {
            None
        } else {
            match parsed {
                Some(v) => Some(v),
                None => Some(JsonV::Str(t)),
            }
        },
    }
}

/// The record of a call, given the value that the reply's text was read as: the request
/// as sent (its URL the one finally requested, or `fallback_url` where that is empty) and
/// the reply.
pub open spec fn call_record_v(
    answer: AnswerV,
    parsed: Option<JsonV>,
    method: Seq<char>,
    fallback_url: Seq<char>,
    request_body: Option<JsonV>,
    duration_ms: u128,
) -> ApiCallResultV {
    ApiCallResultV {
        request: RequestInfoV {
            method,
            url: if answer.final_url.len() == 0 {
                fallback_url
            } else {
                answer.final_url
            },
            body: request_body,
        },
        response: ResponseInfoV {
            status: answer.status as i32,
            status_text: answer.status_text,
            body: response_body_v(answer.text, parsed),
        },
        duration_ms,
    }
}

/// The record of a call, its reply's text read as JSON.
pub open spec fn call_result_v(
    answer: AnswerV,
    method: Seq<char>,
    fallback_url: Seq<char>,
    request_body: Option<JsonV>,
    duration_ms: u128,
) -> ApiCallResultV {
    call_record_v(answer, text_parse_v(answer.text), method, fallback_url, request_body, duration_ms)
}

/// What a call comes to: its record, or for a service that could not be reached the
/// message `네트워크 오류: <error>`.
pub open spec fn completed_v(call: PendingCallV, reply: HttpReplyV) -> Result<ApiCallResultV, Seq<char>> {
    match reply {
        HttpReplyV::Answered { answer, duration_ms } => Ok(
            call_result_v(answer, call.method, call.url, call.body, duration_ms),
        ),
        HttpReplyV::Failed { rendered } => Err("네트워크 오류: "@ + rendered),
    }
}

impl ApiClient {
    /// A client with the given token.
    pub fn new(token: String) -> (r: ApiClient)
        ensures
            r@ == token@,
    {
        ApiClient { token }
    }

    /// A copy of this client.
    pub fn copy(&self) -> (r: ApiClient)
        ensures
            r@ == self@,
    {
        ApiClient { token: self.token.clone() }
    }

    /// The value of the `Authorization` header: `Bearer <token>`.
    pub fn authorization(&self) -> (r: String)
        ensures
            r@ == "Bearer "@ + self@,
    {
        concat("Bearer ", self.token.as_str())
    }

    /// The request for `method` on `path`, with an optional JSON body and query.
    pub fn request(
        &self,
        method: &str,
        path: &str,
        body: Option<Json>,
        query: Option<Vec<(String, String)>>,
    ) -> (r: PendingCall)
        ensures
            r@ == pending_v(
                self@,
                method@,
                path@,
                opt_json_view(body),
                match query {
                    Some(q) => Some(params_view(q@)),
                    None => None,
                },
            ),
    {
        let headers = vec![
            (owned("Authorization"), self.authorization()),
            (owned("Accept"), owned("application/json")),
        ];
        let q = match query {
            Some(q) => q,
            None => Vec::new(),
        };
        let r = PendingCall {
            method: owned(method),
            url: concat(BASE_URL, path),
            headers,
            body,
            query: q,
        };
        assert(r@.headers =~= pending_v(self@, method@, path@, None, None).headers);
        assert(r@.query =~= pending_v(
            self@,
            method@,
            path@,
            None,
            match query {
                Some(q) => Some(params_view(q@)),
                None => None,
            },
        ).query);
        r
    }

    /// The record of a reply to a request, given the value that the reply's text was read
    /// as.
    pub fn record_call(
        answer: Answer,
        parsed: Option<Json>,
        method: &str,
        fallback_url: &str,
        request_body: Option<Json>,
        duration_ms: u128,
    ) -> (r: ApiCallResult)
        ensures
            r@ == call_record_v(
                answer@,
                opt_json_view(parsed),
                method@,
                fallback_url@,
                opt_json_view(request_body),
                duration_ms,
            ),
    {
        let Answer { status, status_text, final_url, text } = answer;
        let body = match text {
            None => None,
            Some(t) => if is_blank(t.as_str()) {
                None
            } else {
                match parsed {
                    Some(v) => Some(v),
                    None => Some(Json::Str(t)),
                }
            },
        };
        let url = if final_url.as_str().is_empty() {
            owned(fallback_url)
        } else {
            final_url
        };
        ApiCallResult {
            request: RequestInfo { method: owned(method), url, body: request_body },
            response: ResponseInfo { status: status as i32, status_text, body },
            duration_ms,
        }
    }

    /// The record of a reply to a request, its body text read as JSON.
    pub fn to_call_result(
        answer: Answer,
        method: &str,
        fallback_url: &str,
        request_body: Option<Json>,
        duration_ms: u128,
    ) -> (r: ApiCallResult)
        ensures
            r@ == call_result_v(
                answer@,
                method@,
                fallback_url@,
                opt_json_view(request_body),
                duration_ms,
            ),
    {
        let parsed = match &answer.text {
            Some(t) => parse_json(t.as_str()),
            None => None,
        };
        ApiClient::record_call(answer, parsed, method, fallback_url, request_body, duration_ms)
    }

    /// What a request comes to, given what came of sending it.
    pub fn complete(call: &PendingCall, reply: HttpReply) -> (r: Result<ApiCallResult, String>)
        ensures
            match r {
                Ok(c) => completed_v(call@, reply@) == Ok::<ApiCallResultV, Seq<char>>(c@),
                Err(m) => completed_v(call@, reply@) == Err::<ApiCallResultV, Seq<char>>(m@),
            },
    {
        match reply {
            HttpReply::Answered { answer, duration_ms } => Ok(
                ApiClient::to_call_result(
                    answer,
                    call.method.as_str(),
                    call.url.as_str(),
                    copy_opt_json(&call.body),
                    duration_ms,
                ),
            ),
            HttpReply::Failed { rendered } => Err(concat("네트워크 오류: ", rendered.as_str())),
        }
    }
}

} // verus!
