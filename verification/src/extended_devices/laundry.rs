use vstd::prelude::*;

use crate::client::{responses_view, ApiRequest, ApiRequestV, Response, ResponseV, SmartThingsClient};
use crate::extended_devices::lock::{first_reply, first_reply_v};
use crate::json::jstr;
use crate::plan::{device_command_v, plan_view, push_request, requests_view, sent_if, str_arg};
use crate::schemas::extended_devices::{DryerInput, WasherInput};
use crate::tool::{ToolResult, ToolResultV};

verus! {

/// The plan of an appliance run: `<state>.setMachineState(action)`, then
/// `<mode capability>.<mode command>(mode)` where a mode is given.
pub open spec fn machine_plan_v(
    device_id: Seq<char>,
    state_capability: Seq<char>,
    action: Seq<char>,
    mode_capability: Seq<char>,
    mode_command: Seq<char>,
    mode: Option<String>,
) -> Result<Seq<ApiRequestV>, Seq<char>> {
    Ok(
        seq![device_command_v(device_id, state_capability, "setMachineState"@, seq![jstr(action)])]
            + sent_if(mode is Some, device_command_v(device_id, mode_capability, mode_command, seq![jstr(mode->0@)])),
    )
}

/// The plan of an appliance run.
pub fn machine_plan(
    client: &SmartThingsClient,
    device_id: &String,
    state_capability: &str,
    action: &String,
    mode_capability: &str,
    mode_command: &str,
    mode: &Option<String>,
) -> (r: Result<Vec<ApiRequest>, String>)
    ensures
        plan_view(r) == machine_plan_v(device_id@, state_capability@, action@, mode_capability@, mode_command@, *mode),
{
    let d = device_id.as_str();
    let mut plan: Vec<ApiRequest> = Vec::new();
    assert(requests_view(plan@) =~= Seq::empty());
    push_request(&mut plan, client.command(d, state_capability, "setMachineState", str_arg(action.as_str()), None));
    if let Some(m) = mode {
        push_request(&mut plan, client.command(d, mode_capability, mode_command, str_arg(m.as_str()), None));
    }
    assert(requests_view(plan@) =~= machine_plan_v(device_id@, state_capability@, action@, mode_capability@, mode_command@, *mode)->Ok_0);
    Ok(plan)
}

/// Runs, pauses or stops a washer, and sets its wash mode.
pub struct WasherTool<'a> {
    pub client: &'a SmartThingsClient,
}

impl<'a> WasherTool<'a> {
    /// The plan: `washerOperatingState.setMachineState(action)`, then `washerMode.setWasherMode(mode)`
    /// where a mode is given.
    /// A `action` other than run, pause, stop is refused before anything is sent.
    pub open spec fn plan_v(input: WasherInput) -> Result<Seq<ApiRequestV>, Seq<char>> {
        match crate::plan::choice_problem_v("action"@, "run, pause, stop"@, seq!["run"@, "pause"@, "stop"@], input.action@) {
            Some(m) => Err(m),
            None => {
                machine_plan_v(input.device_id@, "washerOperatingState"@, input.action@, "washerMode"@, "setWasherMode"@, input.mode)
            },
        }
    }

    /// The plan.
    pub fn plan(&self, input: &WasherInput) -> (r: Result<Vec<ApiRequest>, String>)
        ensures
            plan_view(r) == Self::plan_v(*input),
    {
        let allowed: Vec<&'static str> = vec!["run", "pause", "stop"];
        assert(crate::plan::strs_view(allowed@) =~= seq!["run"@, "pause"@, "stop"@]);
        if let Some(m) = crate::plan::choice_problem("action", "run, pause, stop", &allowed, input.action.as_str()) {
            return crate::plan::refuse(m);
        }
        machine_plan(self.client, &input.device_id, "washerOperatingState", &input.action, "washerMode", "setWasherMode", &input.mode)
    }

    /// The result: the reply to the first command.
    pub open spec fn finish_v(input: WasherInput, replies: Seq<ResponseV>) -> ToolResultV {
        first_reply_v(replies)
    }

    /// The result.
    pub fn finish(&self, input: &WasherInput, replies: &Vec<Response>) -> (r: ToolResult)
        requires
            Self::plan_v(*input) is Ok,
            replies.len() == crate::plan::plan_len(Self::plan_v(*input)),
        ensures
            r@ == Self::finish_v(*input, responses_view(replies@)),
    {
        first_reply(replies)
    }
}

/// Runs, pauses or stops a dryer, and sets its drying mode.
pub struct DryerTool<'a> {
    pub client: &'a SmartThingsClient,
}

impl<'a> DryerTool<'a> {
    /// The plan: `dryerOperatingState.setMachineState(action)`, then `dryerMode.setDryerMode(mode)`
    /// where a mode is given.
    /// A `action` other than run, pause, stop is refused before anything is sent.
    pub open spec fn plan_v(input: DryerInput) -> Result<Seq<ApiRequestV>, Seq<char>> {
        match crate::plan::choice_problem_v("action"@, "run, pause, stop"@, seq!["run"@, "pause"@, "stop"@], input.action@) {
            Some(m) => Err(m),
            None => {
                machine_plan_v(input.device_id@, "dryerOperatingState"@, input.action@, "dryerMode"@, "setDryerMode"@, input.mode)
            },
        }
    }

    /// The plan.
    pub fn plan(&self, input: &DryerInput) -> (r: Result<Vec<ApiRequest>, String>)
        ensures
            plan_view(r) == Self::plan_v(*input),
    {
        let allowed: Vec<&'static str> = vec!["run", "pause", "stop"];
        assert(crate::plan::strs_view(allowed@) =~= seq!["run"@, "pause"@, "stop"@]);
        if let Some(m) = crate::plan::choice_problem("action", "run, pause, stop", &allowed, input.action.as_str()) {
            return crate::plan::refuse(m);
        }
        machine_plan(self.client, &input.device_id, "dryerOperatingState", &input.action, "dryerMode", "setDryerMode", &input.mode)
    }

    /// The result: the reply to the first command.
    pub open spec fn finish_v(input: DryerInput, replies: Seq<ResponseV>) -> ToolResultV {
        first_reply_v(replies)
    }

    /// The result.
    pub fn finish(&self, input: &DryerInput, replies: &Vec<Response>) -> (r: ToolResult)
        requires
            Self::plan_v(*input) is Ok,
            replies.len() == crate::plan::plan_len(Self::plan_v(*input)),
        ensures
            r@ == Self::finish_v(*input, responses_view(replies@)),
    {
        first_reply(replies)
    }
}

} // verus!
