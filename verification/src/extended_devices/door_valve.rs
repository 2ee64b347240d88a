use vstd::prelude::*;

use crate::client::{responses_view, ApiRequest, ApiRequestV, Response, ResponseV, SmartThingsClient};
use crate::extended_devices::security::{action_result, action_result_v};
use crate::plan::{device_command_v, plan_view, single};
use crate::schemas::extended_devices::{GarageDoorInput, ValveInput};
use crate::tool::{ToolResult, ToolResultV};

verus! {

/// Opens or closes a garage door.
pub struct GarageDoorTool<'a> {
    pub client: &'a SmartThingsClient,
}

impl<'a> GarageDoorTool<'a> {
    /// The plan: the `doorControl` command named by the action.
    /// A `action` other than open, close is refused before anything is sent.
    pub open spec fn plan_v(input: GarageDoorInput) -> Result<Seq<ApiRequestV>, Seq<char>> {
        match crate::plan::choice_problem_v("action"@, "open, close"@, seq!["open"@, "close"@], input.action@) {
            Some(m) => Err(m),
            None => {
                Ok(seq![device_command_v(input.device_id@, "doorControl"@, input.action@, Seq::empty())])
            },
        }
    }

    /// The plan.
    pub fn plan(&self, input: &GarageDoorInput) -> (r: Result<Vec<ApiRequest>, String>)
        ensures
            plan_view(r) == Self::plan_v(*input),
    {
        let allowed: Vec<&'static str> = vec!["open", "close"];
        assert(crate::plan::strs_view(allowed@) =~= seq!["open"@, "close"@]);
        if let Some(m) = crate::plan::choice_problem("action", "open, close", &allowed, input.action.as_str()) {
            return crate::plan::refuse(m);
        }
        single(self.client.command(input.device_id.as_str(), "doorControl", input.action.as_str(), None, None))
    }

    /// The result: `{"device_id", "action", "result": reply}`.
    pub open spec fn finish_v(input: GarageDoorInput, replies: Seq<ResponseV>) -> ToolResultV {
        action_result_v(input.device_id@, input.action@, replies[0])
    }

    /// The result.
    pub fn finish(&self, input: &GarageDoorInput, replies: &Vec<Response>) -> (r: ToolResult)
        requires
            replies.len() == 1,
        ensures
            r@ == Self::finish_v(*input, responses_view(replies@)),
    {
        action_result(&input.device_id, &input.action, &replies[0])
    }
}

/// Opens or closes a valve (such as a water shut-off valve).
pub struct ValveTool<'a> {
    pub client: &'a SmartThingsClient,
}

impl<'a> ValveTool<'a> {
    /// The plan: the `valve` command named by the action.
    /// A `action` other than open, close is refused before anything is sent.
    pub open spec fn plan_v(input: ValveInput) -> Result<Seq<ApiRequestV>, Seq<char>> {
        match crate::plan::choice_problem_v("action"@, "open, close"@, seq!["open"@, "close"@], input.action@) {
            Some(m) => Err(m),
            None => {
                Ok(seq![device_command_v(input.device_id@, "valve"@, input.action@, Seq::empty())])
            },
        }
    }

    /// The plan.
    pub fn plan(&self, input: &ValveInput) -> (r: Result<Vec<ApiRequest>, String>)
        ensures
            plan_view(r) == Self::plan_v(*input),
    {
        let allowed: Vec<&'static str> = vec!["open", "close"];
        assert(crate::plan::strs_view(allowed@) =~= seq!["open"@, "close"@]);
        if let Some(m) = crate::plan::choice_problem("action", "open, close", &allowed, input.action.as_str()) {
            return crate::plan::refuse(m);
        }
        single(self.client.command(input.device_id.as_str(), "valve", input.action.as_str(), None, None))
    }

    /// The result: `{"device_id", "action", "result": reply}`.
    pub open spec fn finish_v(input: ValveInput, replies: Seq<ResponseV>) -> ToolResultV {
        action_result_v(input.device_id@, input.action@, replies[0])
    }

    /// The result.
    pub fn finish(&self, input: &ValveInput, replies: &Vec<Response>) -> (r: ToolResult)
        requires
            replies.len() == 1,
        ensures
            r@ == Self::finish_v(*input, responses_view(replies@)),
    {
        action_result(&input.device_id, &input.action, &replies[0])
    }
}

} // verus!
