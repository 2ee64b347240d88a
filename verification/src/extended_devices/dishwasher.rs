use vstd::prelude::*;

use crate::client::{responses_view, ApiRequest, ApiRequestV, Response, ResponseV, SmartThingsClient};
use crate::extended_devices::laundry::{machine_plan, machine_plan_v};
use crate::extended_devices::lock::{first_reply, first_reply_v};
use crate::plan::plan_view;
use crate::schemas::extended_devices::DishwasherInput;
use crate::tool::{ToolResult, ToolResultV};

verus! {

/// Runs, pauses or stops a dishwasher, and sets its washing mode.
pub struct DishwasherTool<'a> {
    pub client: &'a SmartThingsClient,
}

impl<'a> DishwasherTool<'a> {
    /// The plan: `dishwasherOperatingState.setMachineState(action)`, then `dishwasherMode.setDishwasherMode(mode)`
    /// where a mode is given.
    /// A `action` other than run, pause, stop is refused before anything is sent.
    pub open spec fn plan_v(input: DishwasherInput) -> Result<Seq<ApiRequestV>, Seq<char>> {
        match crate::plan::choice_problem_v("action"@, "run, pause, stop"@, seq!["run"@, "pause"@, "stop"@], input.action@) {
            Some(m) => Err(m),
            None => {
                machine_plan_v(input.device_id@, "dishwasherOperatingState"@, input.action@, "dishwasherMode"@, "setDishwasherMode"@, input.mode)
            },
        }
    }

    /// The plan.
    pub fn plan(&self, input: &DishwasherInput) -> (r: Result<Vec<ApiRequest>, String>)
        ensures
            plan_view(r) == Self::plan_v(*input),
    {
        let allowed: Vec<&'static str> = vec!["run", "pause", "stop"];
        assert(crate::plan::strs_view(allowed@) =~= seq!["run"@, "pause"@, "stop"@]);
        if let Some(m) = crate::plan::choice_problem("action", "run, pause, stop", &allowed, input.action.as_str()) {
            return crate::plan::refuse(m);
        }
        machine_plan(self.client, &input.device_id, "dishwasherOperatingState", &input.action, "dishwasherMode", "setDishwasherMode", &input.mode)
    }

    /// The result: the reply to the first command.
    pub open spec fn finish_v(input: DishwasherInput, replies: Seq<ResponseV>) -> ToolResultV {
        first_reply_v(replies)
    }

    /// The result.
    pub fn finish(&self, input: &DishwasherInput, replies: &Vec<Response>) -> (r: ToolResult)
        requires
            Self::plan_v(*input) is Ok,
            replies.len() == crate::plan::plan_len(Self::plan_v(*input)),
        ensures
            r@ == Self::finish_v(*input, responses_view(replies@)),
    {
        first_reply(replies)
    }
}

} // verus!
