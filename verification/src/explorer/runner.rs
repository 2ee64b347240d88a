//! The run of one endpoint test, as a machine that the program drives: it decides
//! whether the endpoint is skipped, names each request to send, takes what came of it,
//! keeps what the survey needs later, and answers the endpoint's result.
use vstd::prelude::*;

use crate::explorer::client::{completed_v, pending_v, ApiClient, HttpReply, HttpReplyV, PendingCall, PendingCallV};
use crate::explorer::endpoint::{
    first_call, first_call_v, follow_up, follow_up_v, record, recorded_v, CallV, EndpointCall,
};
use crate::explorer::models::{
    calls_view, copy_calls, ApiCallResult, ApiCallResultV, ApiEndpointTest, ApiEndpointTestV,
    EndpointTestResult, EndpointTestResultV, Endpoint, TestContext, TestContextV,
};
use crate::text::{contains_seq, str_contains};

verus! {

/// Whether an endpoint whose note says `needs` lacks what it needs: the note names an
/// installed app, a device profile, a rule or an app, and none has been found.
pub open spec fn missing_setup_v(needs: Seq<char>, s: Map<Seq<char>, Seq<char>>) -> bool {
    ||| contains_seq(needs, "installedApp"@) && !s.contains_key("installedAppId"@)
    ||| contains_seq(needs, "등록된 디바이스 프로필"@) && !s.contains_key("deviceProfileId"@)
    ||| contains_seq(needs, "등록된 규칙"@) && !s.contains_key("ruleId"@)
    ||| contains_seq(needs, "등록된 앱"@) && !s.contains_key("appId"@)
}

/// Whether an endpoint is skipped: it changes the home and such endpoints are not tried,
/// or it lacks what it needs.
pub open spec fn skipped_v(t: ApiEndpointTestV, c: TestContextV) -> bool {
    ||| t.has_side_effect && !c.run_side_effects
    ||| match t.needs_setup {
        Some(n) => missing_setup_v(n, c.store),
        None => false,
    }
}

/// The request sent for an endpoint's call by a client with `token`.
pub open spec fn sent_v(token: Seq<char>, c: CallV) -> PendingCallV {
    pending_v(token, c.method, c.path, c.body, c.query)
}

/// What the first reply comes to, for an endpoint whose first request can be made.
pub open spec fn first_done_v(e: Endpoint, c0: TestContextV, reply: HttpReplyV) -> Result<
    ApiCallResultV,
    Seq<char>,
> {
    completed_v(sent_v(c0.token, first_call_v(e, c0.store)->Ok_0), reply)
}

/// What an endpoint's test comes to after `replies`: its calls, or the message that
/// stopped it; nothing while a request is still to be sent.
pub open spec fn script_v(e: Endpoint, c0: TestContextV, replies: Seq<HttpReplyV>) -> Option<
    Result<Seq<ApiCallResultV>, Seq<char>>,
> {
    match first_call_v(e, c0.store) {
        Err(m) => Some(Err(m)),
        Ok(c1) => if replies.len() == 0 {
            None
        } else {
            match first_done_v(e, c0, replies[0]) {
                Err(m) => Some(Err(m)),
                Ok(r1) => match follow_up_v(e, c0.store, r1) {
                    None => Some(Ok(seq![r1])),
                    Some(c2) => if replies.len() == 1 {
                        None
                    } else {
                        match completed_v(sent_v(c0.token, c2), replies[1]) {
                            Err(m) => Some(Err(m)),
                            Ok(r2) => Some(Ok(seq![r1, r2])),
                        }
                    },
                },
            }
        },
    }
}

/// The request to send after `replies`, while the test still has one to send.
pub open spec fn next_call_v(e: Endpoint, c0: TestContextV, replies: Seq<HttpReplyV>) -> PendingCallV {
    if replies.len() == 0 {
        sent_v(c0.token, first_call_v(e, c0.store)->Ok_0)
    } else {
        sent_v(c0.token, follow_up_v(e, c0.store, first_done_v(e, c0, replies[0])->Ok_0)->0)
    }
}

/// Whether every call was answered with a status below 400.
pub open spec fn all_accepted_v(calls: Seq<ApiCallResultV>) -> bool {
    forall|i: int| 0 <= i < calls.len() ==> (#[trigger] calls[i]).response.status < 400
}

/// The result of an endpoint after `replies`: skipped (and successful) where it is
/// skipped; failed with the message where one stopped it; else its calls, successful
/// where each was answered below 400. Nothing while a request is still to be sent.
pub open spec fn result_v(t: ApiEndpointTestV, c0: TestContextV, replies: Seq<HttpReplyV>) -> Option<
    EndpointTestResultV,
> {
    if skipped_v(t, c0) {
        Some(
            EndpointTestResultV {
                endpoint: t,
                calls: Seq::empty(),
                success: true,
                skipped: true,
                error: None,
            },
        )
    } else {
        match script_v(t.test, c0, replies) {
            None => None,
            Some(Ok(calls)) => Some(
                EndpointTestResultV {
                    endpoint: t,
                    calls,
                    success: all_accepted_v(calls),
                    skipped: false,
                    error: None,
                },
            ),
            Some(Err(m)) => Some(
                EndpointTestResultV {
                    endpoint: t,
                    calls: Seq::empty(),
                    success: false,
                    skipped: false,
                    error: Some(m),
                },
            ),
        }
    }
}

/// The survey's context after `replies`: a skipped endpoint changes nothing; an endpoint
/// whose first request was answered keeps what it found.
pub open spec fn context_after_v(t: ApiEndpointTestV, c0: TestContextV, replies: Seq<HttpReplyV>) -> TestContextV {
    let e = t.test;
    if skipped_v(t, c0) || first_call_v(e, c0.store) is Err || replies.len() == 0 {
        c0
    } else {
        match first_done_v(e, c0, replies[0]) {
            Ok(r1) => TestContextV { store: recorded_v(e, c0.store, r1), ..c0 },
            Err(_) => c0,
        }
    }
}

/// The calls completed so far by a test that still has a request to send.
pub open spec fn calls_so_far_v(e: Endpoint, c0: TestContextV, replies: Seq<HttpReplyV>) -> Seq<
    ApiCallResultV,
> {
    if replies.len() == 0 {
        Seq::empty()
    } else {
        seq![first_done_v(e, c0, replies[0])->Ok_0]
    }
}

/// Recording what a first call found does not change the follow-up request.
pub proof fn lemma_follow_up_after_record(e: Endpoint, s: Map<Seq<char>, Seq<char>>, r: ApiCallResultV)
    ensures
        follow_up_v(e, recorded_v(e, s, r), r) == follow_up_v(e, s, r),
{
}

/// One step of a run.
pub enum RunAction {
    /// Send this request and hand what came of it to `on_reply`.
    Send(PendingCall),
    /// The endpoint's result.
    Done(EndpointTestResult),
}

/// The run of one endpoint test.
pub struct TestRun {
    endpoint: ApiEndpointTest,
    ctx: TestContext,
    pending: Option<PendingCall>,
    calls: Vec<ApiCallResult>,
    result: Option<EndpointTestResult>,
    start: Ghost<TestContextV>,
    replies: Ghost<Seq<HttpReplyV>>,
}

/// Whether some stored identifier is missing for an endpoint whose note says `needs`.
pub fn missing_setup(needs: &str, ctx: &TestContext) -> (r: bool)
    ensures
        r == missing_setup_v(needs@, ctx@.store),
{
    (str_contains(needs, "installedApp") && !ctx.has_store("installedAppId")) || (str_contains(
        needs,
        "등록된 디바이스 프로필",
    ) && !ctx.has_store("deviceProfileId")) || (str_contains(needs, "등록된 규칙")
        && !ctx.has_store("ruleId")) || (str_contains(needs, "등록된 앱") && !ctx.has_store(
        "appId",
    ))
}

/// Whether every call was answered with a status below 400.
pub fn all_accepted(calls: &Vec<ApiCallResult>) -> (r: bool)
    ensures
        r == all_accepted_v(calls_view(calls@)),
{
    let mut i: usize = 0;
    while i < calls.len()
        invariant
            0 <= i <= calls.len(),
            forall|j: int| 0 <= j < i ==> (#[trigger] calls@[j]).response.status < 400,
        decreases calls.len() - i,
    {
        if calls[i].response.status >= 400 {
            assert(calls_view(calls@)[i as int].response.status >= 400);
            return false;
        }
        i = i + 1;
    }
    assert forall|j: int| 0 <= j < calls_view(calls@).len() implies (#[trigger] calls_view(
        calls@,
    )[j]).response.status < 400 by {
        assert(calls_view(calls@)[j] == calls@[j]@);
    }
    true
}

/// The request sent for an endpoint's call.
pub fn send(client: &ApiClient, c: EndpointCall) -> (r: PendingCall)
    ensures
        r@ == sent_v(client@, c@),
{
    client.request(c.method.as_str(), c.path.as_str(), c.body, c.query)
}

/// Starts the run of `endpoint`, with the survey's context.
pub fn run_test(endpoint: &ApiEndpointTest, ctx: TestContext) -> (r: TestRun)
    ensures
        r.wf(),
        r.endpoint_v() == endpoint@,
        r.start_v() == ctx@,
        r.replies_v() == Seq::<HttpReplyV>::empty(),
{
    let ghost c0 = ctx@;
    let ghost none = Seq::<HttpReplyV>::empty();
    let skip_side_effect = endpoint.has_side_effect && !ctx.run_side_effects();
    let skip_setup = match &endpoint.needs_setup {
        Some(needs) => missing_setup(needs.as_str(), &ctx),
        None => false,
    };
    if skip_side_effect || skip_setup {
        let result = EndpointTestResult {
            endpoint: endpoint.copy(),
            calls: Vec::new(),
            success: true,
            skipped: true,
            error: None,
        };
        assert(calls_view(result.calls@) =~= Seq::<ApiCallResultV>::empty());
        return TestRun {
            endpoint: endpoint.copy(),
            ctx,
            pending: None,
            calls: Vec::new(),
            result: Some(result),
            start: Ghost(c0),
            replies: Ghost(none),
        };
    }
    match first_call(endpoint.test, &ctx) {
        Err(m) => {
            let result = EndpointTestResult {
                endpoint: endpoint.copy(),
                calls: Vec::new(),
                success: false,
                skipped: false,
                error: Some(m),
            };
            assert(calls_view(result.calls@) =~= Seq::<ApiCallResultV>::empty());
            TestRun {
                endpoint: endpoint.copy(),
                ctx,
                pending: None,
                calls: Vec::new(),
                result: Some(result),
                start: Ghost(c0),
                replies: Ghost(none),
            }
        },
        Ok(c) => {
            let pending = send(ctx.client(), c);
            let calls: Vec<ApiCallResult> = Vec::new();
            assert(calls_view(calls@) =~= Seq::<ApiCallResultV>::empty());
            TestRun {
                endpoint: endpoint.copy(),
                ctx,
                pending: Some(pending),
                calls,
                result: None,
                start: Ghost(c0),
                replies: Ghost(none),
            }
        },
    }
}

impl TestRun {
    /// The endpoint being tried.
    pub closed spec fn endpoint_v(&self) -> ApiEndpointTestV {
        self.endpoint@
    }

    /// The survey's context when the run started.
    pub closed spec fn start_v(&self) -> TestContextV {
        self.start@
    }

    /// What came of the requests sent so far.
    pub closed spec fn replies_v(&self) -> Seq<HttpReplyV> {
        self.replies@
    }

    /// The run's state agrees with what came of its requests so far.
    pub closed spec fn wf(&self) -> bool {
        let t = self.endpoint@;
        let c0 = self.start@;
        let rs = self.replies@;
        &&& self.ctx@ == context_after_v(t, c0, rs)
        &&& rs.len() <= 2
        &&& match self.result {
            Some(r) => result_v(t, c0, rs) == Some(r@),
            None => {
                &&& result_v(t, c0, rs) is None
                &&& !skipped_v(t, c0)
                &&& first_call_v(t.test, c0.store) is Ok
                &&& rs.len() < 2
                &&& self.pending is Some
                &&& self.pending->0@ == next_call_v(t.test, c0, rs)
                &&& calls_view(self.calls@) == calls_so_far_v(t.test, c0, rs)
                &&& rs.len() == 1 ==> first_done_v(t.test, c0, rs[0]) is Ok
            },
        }
    }

    /// The next step: the request to send, or the endpoint's result.
    pub fn next_action(&self) -> (a: RunAction)
        requires
            self.wf(),
        ensures
            match a {
                RunAction::Done(r) => result_v(self.endpoint_v(), self.start_v(), self.replies_v())
                    == Some(r@),
                RunAction::Send(q) => result_v(self.endpoint_v(), self.start_v(), self.replies_v())
                    is None && q@ == next_call_v(
                    self.endpoint_v().test,
                    self.start_v(),
                    self.replies_v(),
                ),
            },
    {
        match &self.result {
            Some(r) => RunAction::Done(r.copy()),
            None => match &self.pending {
                Some(p) => RunAction::Send(p.copy()),
                None => RunAction::Done(
                    EndpointTestResult {
                        endpoint: self.endpoint.copy(),
                        calls: Vec::new(),
                        success: false,
                        skipped: false,
                        error: None,
                    },
                ),
            },
        }
    }

    /// The survey's context as this run leaves it.
    pub fn into_context(self) -> (r: TestContext)
        requires
            self.wf(),
        ensures
            r@ == context_after_v(self.endpoint_v(), self.start_v(), self.replies_v()),
    {
        self.ctx
    }

    /// Takes what came of the request last named by `next_action`.
    pub fn on_reply(&mut self, reply: HttpReply)
        requires
            old(self).wf(),
            result_v(old(self).endpoint_v(), old(self).start_v(), old(self).replies_v()) is None,
        ensures
            final(self).wf(),
            final(self).endpoint_v() == old(self).endpoint_v(),
            final(self).start_v() == old(self).start_v(),
            final(self).replies_v() == old(self).replies_v().push(reply@),
    {
        let ghost t = self.endpoint@;
        let ghost c0 = self.start@;
        let ghost before = self.replies@;
        let ghost rv = reply@;
        let ghost after = before.push(rv);
        let e = self.endpoint.test;
        let pending = match self.pending.take() {
            Some(p) => p,
            None => {
                return ;
            },
        };
        proof {
            assert(after[before.len() as int] == rv);
            if before.len() == 1 {
                assert(after[0] == before[0]);
            }
        }
        let done = ApiClient::complete(&pending, reply);
        self.replies = Ghost(after);
        match done {
            Err(m) => {
                let result = EndpointTestResult {
                    endpoint: self.endpoint.copy(),
                    calls: Vec::new(),
                    success: false,
                    skipped: false,
                    error: Some(m),
                };
                assert(calls_view(result.calls@) =~= Seq::<ApiCallResultV>::empty());
                self.calls = Vec::new();
                self.result = Some(result);
                assert(self.wf());
            },
            Ok(r) => {
                if self.calls.len() == 0 {
                    record(e, &mut self.ctx, &r);
                    proof {
                        lemma_follow_up_after_record(e, c0.store, r@);
                    }
                    match follow_up(e, &self.ctx, &r) {
                        Some(c2) => {
                            let next = send(self.ctx.client(), c2);
                            self.pending = Some(next);
                            self.calls.push(r);
                            assert(calls_view(self.calls@) =~= seq![self.calls@[0]@]);
                            assert(self.wf());
                        },
                        None => {
                            self.calls.push(r);
                            assert(calls_view(self.calls@) =~= seq![self.calls@[0]@]);
                            let success = all_accepted(&self.calls);
                            let result = EndpointTestResult {
                                endpoint: self.endpoint.copy(),
                                calls: copy_calls(&self.calls),
                                success,
                                skipped: false,
                                error: None,
                            };
                            self.result = Some(result);
                            assert(self.wf());
                        },
                    }
                } else {
                    assert(calls_view(self.calls@).len() == 1);
                    assert(before.len() == 1);
                    let ghost r1 = self.calls@[0]@;
                    assert(r1 == calls_view(self.calls@)[0]);
                    self.calls.push(r);
                    assert(calls_view(self.calls@) =~= seq![r1, self.calls@[1]@]);
                    let success = all_accepted(&self.calls);
                    let result = EndpointTestResult {
                        endpoint: self.endpoint.copy(),
                        calls: copy_calls(&self.calls),
                        success,
                        skipped: false,
                        error: None,
                    };
                    self.result = Some(result);
                    assert(self.wf());
                }
            },
        }
    }
}

} // verus!
