//! The run of one tool call, as a machine that the caller drives: it names the next
//! request to send, takes the reply, and at the end answers the call's result.
//!
//! A run sends the requests of its plan in order and stops at the first reply that
//! carries an error, answering a failure with the service's message; when every request
//! was answered without an error it answers the tool's result.
use vstd::prelude::*;

use crate::catalog::{Tool, ToolInput};
use crate::client::{responses_view, ApiRequest, ApiRequestV, Response, ResponseV, SmartThingsClient};
use crate::common_tools::extract_error_msg;
use crate::plan::{error_msg_v, has_error_v, reply_json, reply_json_v, requests_view};
use crate::text::concat;
use crate::tool::{fail_v, fail_with_data_v, ToolResult, ToolResultV};

verus! {

/// What was asked of a run: a tool that does not exist, or arguments that were read
/// (or could not be read, with the reader's message).
pub enum Invocation {
    UnknownTool(Seq<char>),
    Arguments(Result<ToolInput, Seq<char>>),
}

/// The failure answered for a reply that carries an error: its message, and for the
/// tools that report it, the reply itself as data.
pub open spec fn failure_v(tool: Tool, r: ResponseV) -> ToolResultV {
    if tool.reports_reply() {
        fail_with_data_v(error_msg_v(r), reply_json_v(r))
    } else {
        fail_v(error_msg_v(r))
    }
}

/// The position of the first reply that carries an error.
pub open spec fn first_error(replies: Seq<ResponseV>) -> Option<int>
    decreases replies.len(),
{
    if replies.len() == 0 {
        None
    } else if has_error_v(replies[0]) {
        Some(0)
    } else {
        match first_error(replies.drop_first()) {
            Some(k) => Some(k + 1),
            None => None,
        }
    }
}

/// The answer to a call whose plan is `plan`, after `replies` (nothing while a request
/// of the plan is still to be sent).
pub open spec fn answer_v(input: ToolInput, plan: Seq<ApiRequestV>, replies: Seq<ResponseV>) -> Option<
    ToolResultV,
> {
    let answered = if replies.len() <= plan.len() {
        replies
    } else {
        replies.take(plan.len() as int)
    };
    match first_error(answered) {
        Some(k) => Some(failure_v(input.tool_v(), answered[k])),
        None => if replies.len() >= plan.len() {
            Some(input.finish_v(replies.take(plan.len() as int)))
        } else {
            None
        },
    }
}

/// The answer of a run after `replies` (nothing while it has a request to send): for an
/// unknown tool `Unknown tool: <name>`; for arguments that could not be read
/// `ValidationError: <message>`; for a plan that refuses the arguments its message; else
/// the failure of the first reply with an error, or the tool's result.
pub open spec fn outcome_v(call: Invocation, replies: Seq<ResponseV>) -> Option<ToolResultV> {
    match call {
        Invocation::UnknownTool(name) => Some(fail_v("Unknown tool: "@ + name)),
        Invocation::Arguments(Err(e)) => Some(fail_v("ValidationError: "@ + e)),
        Invocation::Arguments(Ok(input)) => match input.plan_v() {
            Err(m) => Some(fail_v(m)),
            Ok(plan) => answer_v(input, plan, replies),
        },
    }
}

/// The request that a run sends after `replies`.
pub open spec fn next_request_v(call: Invocation, replies: Seq<ResponseV>) -> ApiRequestV {
    match call {
        Invocation::Arguments(Ok(input)) => input.plan_v()->Ok_0[replies.len() as int],
        _ => arbitrary(),
    }
}

/// The call made with arguments read, or with the message of the failure to read them.
pub open spec fn arguments_call(parsed: Result<ToolInput, String>) -> Invocation {
    Invocation::Arguments(
        match parsed {
            Ok(i) => Ok(i),
            Err(e) => Err(e@),
        },
    )
}

/// One step of a run.
pub enum Action {
    /// Send this request and hand its reply to `on_response`.
    Send(ApiRequest),
    /// The call is answered.
    Done(ToolResult),
}

/// A run of one tool call.
pub struct ToolRun {
    input: Option<ToolInput>,
    plan: Vec<ApiRequest>,
    replies: Vec<Response>,
    result: Option<ToolResult>,
    call: Ghost<Invocation>,
}

/// A reply with an error appended to replies without one is the first with an error.
pub proof fn lemma_first_error_push(s: Seq<ResponseV>, x: ResponseV)
    ensures
        first_error(s.push(x)) == match first_error(s) {
            Some(k) => Some(k),
            None => if has_error_v(x) {
                Some(s.len() as int)
            } else {
                None
            },
        },
    decreases s.len(),
{
    reveal_with_fuel(first_error, 2);
    if s.len() == 0 {
        assert(s.push(x)[0] == x);
        assert(s.push(x).drop_first() =~= Seq::<ResponseV>::empty());
    } else {
        assert(s.push(x)[0] == s[0]);
        assert(s.push(x).drop_first() =~= s.drop_first().push(x));
        lemma_first_error_push(s.drop_first(), x);
    }
}

/// The first error found lies in the replies and carries an error; none before it does.
pub proof fn lemma_first_error_sound(s: Seq<ResponseV>)
    ensures
        match first_error(s) {
            Some(k) => 0 <= k < s.len() && has_error_v(s[k]) && forall|j: int|
                0 <= j < k ==> !has_error_v(#[trigger] s[j]),
            None => forall|j: int| 0 <= j < s.len() ==> !has_error_v(#[trigger] s[j]),
        },
    decreases s.len(),
{
    if s.len() > 0 {
        lemma_first_error_sound(s.drop_first());
        assert forall|j: int| 1 <= j < s.len() implies s[j] == s.drop_first()[j - 1] by {}
    }
}

impl ToolRun {
    /// What was asked of this run.
    pub closed spec fn call_v(&self) -> Invocation {
        self.call@
    }

    /// The replies handed to this run so far.
    pub closed spec fn replies_v(&self) -> Seq<ResponseV> {
        responses_view(self.replies@)
    }

    /// The run's state is consistent with what was asked and the replies so far.
    pub closed spec fn wf(&self) -> bool {
        match self.result {
            Some(r) => outcome_v(self.call@, responses_view(self.replies@)) == Some(r@),
            None => {
                &&& outcome_v(self.call@, responses_view(self.replies@)) is None
                &&& self.input is Some
                &&& self.call@ == Invocation::Arguments(Ok(self.input->0))
                &&& self.input->0.plan_v() == Ok::<Seq<ApiRequestV>, Seq<char>>(requests_view(self.plan@))
                &&& self.replies@.len() < self.plan@.len()
            },
        }
    }

    /// A run that is answered from the start.
    fn answered(call: Ghost<Invocation>, result: ToolResult) -> (r: ToolRun)
        requires
            outcome_v(call@, Seq::empty()) == Some(result@),
        ensures
            r.wf(),
            r.call_v() == call@,
            r.replies_v() == Seq::<ResponseV>::empty(),
    {
        let r = ToolRun { input: None, plan: Vec::new(), replies: Vec::new(), result: Some(result), call };
        assert(responses_view(r.replies@) =~= Seq::<ResponseV>::empty());
        r
    }

    /// A run for a tool that does not exist.
    pub fn unknown_tool(name: &str) -> (r: ToolRun)
        ensures
            r.wf(),
            r.call_v() == Invocation::UnknownTool(name@),
            r.replies_v() == Seq::<ResponseV>::empty(),
    {
        let msg = concat("Unknown tool: ", name);
        ToolRun::answered(Ghost(Invocation::UnknownTool(name@)), ToolResult::fail(msg))
    }

    /// A run for a call with the arguments read (or the message of the failure to read
    /// them).
    pub fn start(client: &SmartThingsClient, parsed: Result<ToolInput, String>) -> (r: ToolRun)
        ensures
            r.wf(),
            r.call_v() == arguments_call(parsed),
            r.replies_v() == Seq::<ResponseV>::empty(),
    {
        let ghost call = arguments_call(parsed);
        match parsed {
            Err(e) => {
                let msg = concat("ValidationError: ", e.as_str());
                ToolRun::answered(Ghost(call), ToolResult::fail(msg))
            },
            Ok(input) => match input.plan(client) {
                Err(m) => ToolRun::answered(Ghost(call), ToolResult::fail(m)),
                Ok(plan) => {
                    let replies: Vec<Response> = Vec::new();
                    assert(responses_view(replies@) =~= Seq::<ResponseV>::empty());
                    if plan.len() == 0 {
                        assert(Seq::<ResponseV>::empty().take(0) =~= Seq::<ResponseV>::empty());
                        let result = input.finish(client, &replies);
                        ToolRun::answered(Ghost(call), result)
                    } else {
                        ToolRun { input: Some(input), plan, replies, result: None, call: Ghost(call) }
                    }
                },
            },
        }
    }

    /// The next step: the request to send, or the answer.
    pub fn next_action(&self) -> (a: Action)
        requires
            self.wf(),
        ensures
            match a {
                Action::Done(r) => outcome_v(self.call_v(), self.replies_v()) == Some(r@),
                Action::Send(q) => outcome_v(self.call_v(), self.replies_v()) is None && q@
                    == next_request_v(self.call_v(), self.replies_v()),
            },
    {
        match &self.result {
            Some(r) => Action::Done(r.copy()),
            None => {
                let k = self.replies.len();
                proof {
                    assert(requests_view(self.plan@)[k as int] == self.plan@[k as int]@);
                }
                Action::Send(self.plan[k].copy())
            },
        }
    }

    /// Takes the reply to the request last named by `next_action`.
    pub fn on_response(&mut self, client: &SmartThingsClient, reply: Response)
        requires
            old(self).wf(),
            outcome_v(old(self).call_v(), old(self).replies_v()) is None,
        ensures
            final(self).wf(),
            final(self).call_v() == old(self).call_v(),
            final(self).replies_v() == old(self).replies_v().push(reply@),
    {
        let ghost before = responses_view(self.replies@);
        let ghost rv = reply@;
        proof {
            let input = self.input->0;
            let plan = requests_view(self.plan@);
            lemma_first_error_push(before, rv);
            assert(before.len() <= plan.len());
            assert(first_error(before) is None);
        }
        let failed = crate::common_tools::has_error(&reply);
        let tool = match &self.input {
            Some(i) => i.tool(),
            None => Tool::ListDevices,
        };
        let failure = if failed {
            let msg = extract_error_msg(&reply);
            if tool.reports_reply_exec() {
                Some(ToolResult::fail_with_data(msg, reply_json(&reply)))
            } else {
                Some(ToolResult::fail(msg))
            }
        } else {
            None
        };
        self.replies.push(reply);
        assert(responses_view(self.replies@) =~= before.push(rv));
        proof {
            let s = before.push(rv);
            assert(s.len() <= self.plan@.len());
            assert(s[before.len() as int] == rv);
        }
        match failure {
            Some(f) => {
                self.result = Some(f);
            },
            None => {
                if self.replies.len() == self.plan.len() {
                    let result = match &self.input {
                        Some(i) => {
                            assert(responses_view(self.replies@).take(self.plan@.len() as int)
                                =~= responses_view(self.replies@));
                            i.finish(client, &self.replies)
                        },
                        None => ToolResult::fail(String::new()),
                    };
                    self.result = Some(result);
                }
            },
        }
    }
}

} // verus!
