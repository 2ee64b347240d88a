use vstd::prelude::*;

use crate::client::{responses_view, ApiRequest, ApiRequestV, Response, ResponseV, SmartThingsClient};
use crate::plan::{device_command_v, plan_view, reply_json, reply_json_v, single};
use crate::schemas::extended_devices::DoorLockInput;
use crate::tool::{ok_v, ToolResult, ToolResultV};

verus! {

/// The result of tools that report the first reply as it came.
pub open spec fn first_reply_v(replies: Seq<ResponseV>) -> ToolResultV {
    ok_v(reply_json_v(replies[0]))
}

/// The result of tools that report the first reply as it came.
pub fn first_reply(replies: &Vec<Response>) -> (r: ToolResult)
    requires
        replies.len() >= 1,
    ensures
        r@ == first_reply_v(responses_view(replies@)),
{
    ToolResult::ok(reply_json(&replies[0]))
}

/// Locks or unlocks a door lock.
pub struct DoorLockTool<'a> {
    pub client: &'a SmartThingsClient,
}

impl<'a> DoorLockTool<'a> {
    /// The plan: the `lock` command named by the action (`lock`, `unlock`).
    /// A `action` other than lock, unlock is refused before anything is sent.
    pub open spec fn plan_v(input: DoorLockInput) -> Result<Seq<ApiRequestV>, Seq<char>> {
        match crate::plan::choice_problem_v("action"@, "lock, unlock"@, seq!["lock"@, "unlock"@], input.action@) {
            Some(m) => Err(m),
            None => {
                Ok(seq![device_command_v(input.device_id@, "lock"@, input.action@, Seq::empty())])
            },
        }
    }

    /// The plan.
    pub fn plan(&self, input: &DoorLockInput) -> (r: Result<Vec<ApiRequest>, String>)
        ensures
            plan_view(r) == Self::plan_v(*input),
    {
        let allowed: Vec<&'static str> = vec!["lock", "unlock"];
        assert(crate::plan::strs_view(allowed@) =~= seq!["lock"@, "unlock"@]);
        if let Some(m) = crate::plan::choice_problem("action", "lock, unlock", &allowed, input.action.as_str()) {
            return crate::plan::refuse(m);
        }
        single(self.client.command(input.device_id.as_str(), "lock", input.action.as_str(), None, None))
    }

    /// The result: the reply.
    pub open spec fn finish_v(input: DoorLockInput, replies: Seq<ResponseV>) -> ToolResultV {
        first_reply_v(replies)
    }

    /// The result.
    pub fn finish(&self, input: &DoorLockInput, replies: &Vec<Response>) -> (r: ToolResult)
        requires
            replies.len() == 1,
        ensures
            r@ == Self::finish_v(*input, responses_view(replies@)),
    {
        first_reply(replies)
    }
}

} // verus!
