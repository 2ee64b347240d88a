use vstd::prelude::*;

use crate::client::{responses_view, ApiRequest, ApiRequestV, Response, ResponseV, SmartThingsClient};
use crate::extended_devices::lock::{first_reply, first_reply_v};
use crate::json::jstr;
use crate::plan::{device_command_v, plan_view, refuse, single, str_arg};
use crate::schemas::extended_devices::RefrigeratorInput;
use crate::text::{concat, str_eq};
use crate::tool::{ToolResult, ToolResultV};

verus! {

/// The `refrigeration` command for a feature, where the feature exists.
pub open spec fn feature_command_v(feature: Seq<char>) -> Option<Seq<char>> {
    if feature == "rapidCooling"@ {
        Some("setRapidCooling"@)
    } else if feature == "rapidFreezing"@ {
        Some("setRapidFreezing"@)
    } else if feature == "defrost"@ {
        Some("setDefrost"@)
    } else {
        None
    }
}

/// Turns a refrigerator's rapid cooling, rapid freezing or defrost on or off.
pub struct RefrigeratorTool<'a> {
    pub client: &'a SmartThingsClient,
}

impl<'a> RefrigeratorTool<'a> {
    /// The plan: `refrigeration.<command of the feature>(state)`; refused for a feature
    /// that does not exist.
    /// A `state` other than on, off is refused before anything is sent.
    pub open spec fn plan_v(input: RefrigeratorInput) -> Result<Seq<ApiRequestV>, Seq<char>> {
        match crate::plan::choice_problem_v("state"@, "on, off"@, seq!["on"@, "off"@], input.state@) {
            Some(m) => Err(m),
            None => {
                match feature_command_v(input.feature@) {
                    Some(c) => Ok(seq![device_command_v(input.device_id@, "refrigeration"@, c, seq![jstr(input.state@)])]),
                    None => Err("Unsupported feature: "@ + input.feature@),
                }
            },
        }
    }

    /// The plan.
    pub fn plan(&self, input: &RefrigeratorInput) -> (r: Result<Vec<ApiRequest>, String>)
        ensures
            plan_view(r) == Self::plan_v(*input),
    {
        let allowed: Vec<&'static str> = vec!["on", "off"];
        assert(crate::plan::strs_view(allowed@) =~= seq!["on"@, "off"@]);
        if let Some(m) = crate::plan::choice_problem("state", "on, off", &allowed, input.state.as_str()) {
            return crate::plan::refuse(m);
        }
        let f = input.feature.as_str();
        let cmd = if str_eq(f, "rapidCooling") {
            "setRapidCooling"
        } else if str_eq(f, "rapidFreezing") {
            "setRapidFreezing"
        } else if str_eq(f, "defrost") {
            "setDefrost"
        } else {
            return refuse(concat("Unsupported feature: ", f));
        };
        single(self.client.command(input.device_id.as_str(), "refrigeration", cmd, str_arg(input.state.as_str()), None))
    }

    /// The result: the reply.
    pub open spec fn finish_v(input: RefrigeratorInput, replies: Seq<ResponseV>) -> ToolResultV {
        first_reply_v(replies)
    }

    /// The result.
    pub fn finish(&self, input: &RefrigeratorInput, replies: &Vec<Response>) -> (r: ToolResult)
        requires
            replies.len() == 1,
        ensures
            r@ == Self::finish_v(*input, responses_view(replies@)),
    {
        first_reply(replies)
    }
}

} // verus!
