use vstd::prelude::*;

use crate::client::{responses_view, ApiRequest, ApiRequestV, Response, ResponseV, SmartThingsClient};
use crate::extended_devices::lock::{first_reply, first_reply_v};
use crate::json::jstr;
use crate::plan::{device_command_v, plan_view, push_request, refuse, requests_view, sent_if, str_arg};
use crate::schemas::extended_devices::RobotVacuumInput;
use crate::text::{concat, str_eq};
use crate::tool::{ToolResult, ToolResultV};

verus! {

/// The movement a vacuum action asks for, where the action exists.
pub open spec fn movement_v(action: Seq<char>) -> Option<Seq<char>> {
    if action == "start"@ {
        Some("cleaning"@)
    } else if action == "pause"@ {
        Some("pause"@)
    } else if action == "returnToHome"@ {
        Some("homing"@)
    } else {
        None
    }
}

/// Starts, pauses or sends home a robot vacuum, and sets its cleaning and turbo modes.
pub struct RobotVacuumTool<'a> {
    pub client: &'a SmartThingsClient,
}

impl<'a> RobotVacuumTool<'a> {
    /// The plan: the movement (refused for an action that does not exist), then the
    /// cleaning mode and the turbo mode, each where given.
    /// A given `turbo` other than on, off, silence is refused before anything is sent.
    pub open spec fn plan_v(input: RobotVacuumInput) -> Result<Seq<ApiRequestV>, Seq<char>> {
        match crate::plan::opt_choice_problem_v("turbo"@, "on, off, silence"@, seq!["on"@, "off"@, "silence"@], input.turbo) {
            Some(m) => Err(m),
            None => {
                let d = input.device_id@;
                match movement_v(input.action@) {
                    None => Err("Unsupported action: "@ + input.action@),
                    Some(m) => Ok(
                        seq![device_command_v(d, "robotCleanerMovement"@, "setRobotCleanerMovement"@, seq![jstr(m)])]
                            + sent_if(
                            input.cleaning_mode is Some,
                            device_command_v(
                                d,
                                "robotCleanerCleaningMode"@,
                                "setRobotCleanerCleaningMode"@,
                                seq![jstr(input.cleaning_mode->0@)],
                            ),
                        ) + sent_if(
                            input.turbo is Some,
                            device_command_v(
                                d,
                                "robotCleanerTurboMode"@,
                                "setRobotCleanerTurboMode"@,
                                seq![jstr(input.turbo->0@)],
                            ),
                        ),
                    ),
                }
            },
        }
    }

    /// The plan.
    pub fn plan(&self, input: &RobotVacuumInput) -> (r: Result<Vec<ApiRequest>, String>)
        ensures
            plan_view(r) == Self::plan_v(*input),
    {
        let allowed: Vec<&'static str> = vec!["on", "off", "silence"];
        assert(crate::plan::strs_view(allowed@) =~= seq!["on"@, "off"@, "silence"@]);
        if let Some(m) = crate::plan::opt_choice_problem("turbo", "on, off, silence", &allowed, &input.turbo) {
            return crate::plan::refuse(m);
        }
        let a = input.action.as_str();
        let movement = if str_eq(a, "start") {
            "cleaning"
        } else if str_eq(a, "pause") {
            "pause"
        } else if str_eq(a, "returnToHome") {
            "homing"
        } else {
            return refuse(concat("Unsupported action: ", a));
        };
        let d = input.device_id.as_str();
        let mut plan: Vec<ApiRequest> = Vec::new();
        assert(requests_view(plan@) =~= Seq::empty());
        push_request(&mut plan, self.client.command(d, "robotCleanerMovement", "setRobotCleanerMovement", str_arg(movement), None));
        if let Some(mode) = &input.cleaning_mode {
            push_request(&mut plan, self.client.command(d, "robotCleanerCleaningMode", "setRobotCleanerCleaningMode", str_arg(mode.as_str()), None));
        }
        if let Some(turbo) = &input.turbo {
            push_request(&mut plan, self.client.command(d, "robotCleanerTurboMode", "setRobotCleanerTurboMode", str_arg(turbo.as_str()), None));
        }
        assert(requests_view(plan@) =~= Self::plan_v(*input)->Ok_0);
        Ok(plan)
    }

    /// The result: the reply to the movement command.
    pub open spec fn finish_v(input: RobotVacuumInput, replies: Seq<ResponseV>) -> ToolResultV {
        first_reply_v(replies)
    }

    /// The result.
    pub fn finish(&self, input: &RobotVacuumInput, replies: &Vec<Response>) -> (r: ToolResult)
        requires
            Self::plan_v(*input) is Ok,
            replies.len() == crate::plan::plan_len(Self::plan_v(*input)),
            Self::plan_v(*input) is Ok,
        ensures
            r@ == Self::finish_v(*input, responses_view(replies@)),
    {
        first_reply(replies)
    }
}

} // verus!
