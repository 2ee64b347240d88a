use vstd::prelude::*;

use crate::client::{responses_view, ApiRequest, ApiRequestV, Response, ResponseV, SmartThingsClient};
use crate::json::{entries_view, member, Json, JsonV, jstr};
use crate::plan::{device_command_v, plan_view, single};
use crate::schemas::my_devices::SwitchPowerInput;
use crate::tool::{ok_v, ToolResult, ToolResultV};

verus! {

/// Turns a device on or off.
pub struct SwitchPowerTool<'a> {
    pub client: &'a SmartThingsClient,
}

impl<'a> SwitchPowerTool<'a> {
    /// The plan: the `switch` command named by the state (`on`, `off`).
    /// A `state` other than on, off is refused before anything is sent.
    pub open spec fn plan_v(input: SwitchPowerInput) -> Result<Seq<ApiRequestV>, Seq<char>> {
        match crate::plan::choice_problem_v("state"@, "on, off"@, seq!["on"@, "off"@], input.state@) {
            Some(m) => Err(m),
            None => {
                Ok(seq![device_command_v(input.device_id@, "switch"@, input.state@, Seq::empty())])
            },
        }
    }

    /// The plan.
    pub fn plan(&self, input: &SwitchPowerInput) -> (r: Result<Vec<ApiRequest>, String>)
        ensures
            plan_view(r) == Self::plan_v(*input),
    {
        let allowed: Vec<&'static str> = vec!["on", "off"];
        assert(crate::plan::strs_view(allowed@) =~= seq!["on"@, "off"@]);
        if let Some(m) = crate::plan::choice_problem("state", "on, off", &allowed, input.state.as_str()) {
            return crate::plan::refuse(m);
        }
        single(self.client.command(input.device_id.as_str(), "switch", input.state.as_str(), None, None))
    }

    /// The result: `{"device_id", "state"}`.
    pub open spec fn finish_v(input: SwitchPowerInput, replies: Seq<ResponseV>) -> ToolResultV {
        ok_v(JsonV::Object(seq![("device_id"@, jstr(input.device_id@)), ("state"@, jstr(input.state@))]))
    }

    /// The result.
    pub fn finish(&self, input: &SwitchPowerInput, replies: &Vec<Response>) -> (r: ToolResult)
        ensures
            r@ == Self::finish_v(*input, responses_view(replies@)),
    {
        let v = vec![member("device_id", Json::Str(input.device_id.clone())), member("state", Json::Str(input.state.clone()))];
        assert(entries_view(v@) =~= Self::finish_v(*input, responses_view(replies@)).data.unwrap()->Object_0);
        ToolResult::ok(Json::Object(v))
    }
}

} // verus!
