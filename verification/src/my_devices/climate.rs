use vstd::prelude::*;

use crate::client::{responses_view, ApiRequest, ApiRequestV, Response, ResponseV, SmartThingsClient};
use crate::json::jstr;
use crate::plan::{
    device_command_v, json_arg, keyed_replies, keyed_replies_v, plan_view, push_request, requests_view,
    sent_if, str_arg,
};
use crate::schemas::my_devices::AcControlInput;
use crate::text::{format_i64, signed_decimal};
use crate::tool::{ok_v, ToolResult, ToolResultV};

verus! {

/// Controls an air conditioner: power, mode, target temperature, fan level.
pub struct AcControlTool<'a> {
    pub client: &'a SmartThingsClient,
}

impl<'a> AcControlTool<'a> {
    /// The plan: for each setting given, in this order, its command: `switch` (power),
    /// `airConditionerMode.setAirConditionerMode`, `thermostatCoolingSetpoint.setCoolingSetpoint`,
    /// `airConditionerFanMode.setFanMode` (the level as a string).
    /// A given `power` other than on, off is refused before anything is sent.
    pub open spec fn plan_v(input: AcControlInput) -> Result<Seq<ApiRequestV>, Seq<char>> {
        match crate::plan::opt_choice_problem_v("power"@, "on, off"@, seq!["on"@, "off"@], input.power) {
            Some(m) => Err(m),
            None => {
                let d = input.device_id@;
                Ok(
                    sent_if(input.power is Some, device_command_v(d, "switch"@, input.power->0@, Seq::empty()))
                        + sent_if(
                        input.mode is Some,
                        device_command_v(d, "airConditionerMode"@, "setAirConditionerMode"@, seq![jstr(input.mode->0@)]),
                    ) + sent_if(
                        input.temperature is Some,
                        device_command_v(d, "thermostatCoolingSetpoint"@, "setCoolingSetpoint"@, seq![input.temperature->0@]),
                    ) + sent_if(
                        input.wind_level is Some,
                        device_command_v(
                            d,
                            "airConditionerFanMode"@,
                            "setFanMode"@,
                            seq![jstr(signed_decimal(input.wind_level->0 as int))],
                        ),
                    ),
                )
            },
        }
    }

    /// The names under which the replies are reported, one per command sent.
    pub open spec fn keys_v(input: AcControlInput) -> Seq<Seq<char>> {
        sent_if(input.power is Some, "power"@) + sent_if(input.mode is Some, "mode"@) + sent_if(
            input.temperature is Some,
            "temperature"@,
        ) + sent_if(input.wind_level is Some, "wind_level"@)
    }

    /// The plan.
    pub fn plan(&self, input: &AcControlInput) -> (r: Result<Vec<ApiRequest>, String>)
        ensures
            plan_view(r) == Self::plan_v(*input),
    {
        let allowed: Vec<&'static str> = vec!["on", "off"];
        assert(crate::plan::strs_view(allowed@) =~= seq!["on"@, "off"@]);
        if let Some(m) = crate::plan::opt_choice_problem("power", "on, off", &allowed, &input.power) {
            return crate::plan::refuse(m);
        }
        let d = input.device_id.as_str();
        let mut plan: Vec<ApiRequest> = Vec::new();
        assert(requests_view(plan@) =~= Seq::empty());
        if let Some(power) = &input.power {
            push_request(&mut plan, self.client.command(d, "switch", power.as_str(), None, None));
        }
        if let Some(mode) = &input.mode {
            push_request(&mut plan, self.client.command(d, "airConditionerMode", "setAirConditionerMode", str_arg(mode.as_str()), None));
        }
        if let Some(temp) = &input.temperature {
            push_request(&mut plan, self.client.command(d, "thermostatCoolingSetpoint", "setCoolingSetpoint", json_arg(temp), None));
        }
        if let Some(wind) = input.wind_level {
            let level = format_i64(wind as i64);
            push_request(&mut plan, self.client.command(d, "airConditionerFanMode", "setFanMode", str_arg(level.as_str()), None));
        }
        assert(requests_view(plan@) =~= Self::plan_v(*input)->Ok_0);
        Ok(plan)
    }

    /// The result: the reply to each command, under the name of its setting.
    pub open spec fn finish_v(input: AcControlInput, replies: Seq<ResponseV>) -> ToolResultV {
        ok_v(keyed_replies_v(Self::keys_v(input), replies))
    }

    /// The names of the settings given.
    pub fn keys(input: &AcControlInput) -> (r: Vec<&'static str>)
        ensures
            Seq::new(r@.len(), |i: int| r@[i]@) == Self::keys_v(*input),
    {
        let mut k: Vec<&'static str> = Vec::new();
        if input.power.is_some() {
            k.push("power");
        }
        if input.mode.is_some() {
            k.push("mode");
        }
        if input.temperature.is_some() {
            k.push("temperature");
        }
        if input.wind_level.is_some() {
            k.push("wind_level");
        }
        assert(Seq::new(k@.len(), |i: int| k@[i]@) =~= Self::keys_v(*input));
        k
    }

    /// The result.
    pub fn finish(&self, input: &AcControlInput, replies: &Vec<Response>) -> (r: ToolResult)
        requires
            Self::plan_v(*input) is Ok,
            replies.len() == crate::plan::plan_len(Self::plan_v(*input)),
        ensures
            r@ == Self::finish_v(*input, responses_view(replies@)),
    {
        let keys = Self::keys(input);
        assert(keys.len() == Self::plan_v(*input)->Ok_0.len());
        ToolResult::ok(keyed_replies(&keys, replies))
    }
}

} // verus!
