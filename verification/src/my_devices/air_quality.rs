use vstd::prelude::*;

use crate::client::{responses_view, ApiRequest, ApiRequestV, Response, ResponseV, SmartThingsClient};
use crate::json::{int_v, jstr};
use crate::plan::{
    device_command_v, int_arg, keyed_replies, keyed_replies_v, plan_view, push_request, requests_view,
    sent_if, str_arg,
};
use crate::schemas::my_devices::{AirPurifierInput, DehumidifierInput};
use crate::tool::{ok_v, ToolResult, ToolResultV};

verus! {

/// Controls an air purifier: power and fan mode.
pub struct AirPurifierTool<'a> {
    pub client: &'a SmartThingsClient,
}

impl<'a> AirPurifierTool<'a> {
    /// The plan: `switch` (power) and `airPurifierFanMode.setAirPurifierFanMode`, each where given.
    /// A given `power` other than on, off is refused before anything is sent.
    pub open spec fn plan_v(input: AirPurifierInput) -> Result<Seq<ApiRequestV>, Seq<char>> {
        match crate::plan::opt_choice_problem_v("power"@, "on, off"@, seq!["on"@, "off"@], input.power) {
            Some(m) => Err(m),
            None => {
                let d = input.device_id@;
                Ok(
                    sent_if(input.power is Some, device_command_v(d, "switch"@, input.power->0@, Seq::empty()))
                        + sent_if(
                        input.mode is Some,
                        device_command_v(d, "airPurifierFanMode"@, "setAirPurifierFanMode"@, seq![jstr(input.mode->0@)]),
                    ),
                )
            },
        }
    }

    /// The names under which the replies are reported.
    pub open spec fn keys_v(input: AirPurifierInput) -> Seq<Seq<char>> {
        sent_if(input.power is Some, "power"@) + sent_if(input.mode is Some, "mode"@)
    }

    /// The plan.
    pub fn plan(&self, input: &AirPurifierInput) -> (r: Result<Vec<ApiRequest>, String>)
        ensures
            plan_view(r) == Self::plan_v(*input),
    {
        let allowed: Vec<&'static str> = vec!["on", "off"];
        assert(crate::plan::strs_view(allowed@) =~= seq!["on"@, "off"@]);
        if let Some(m) = crate::plan::opt_choice_problem("power", "on, off", &allowed, &input.power) {
            return crate::plan::refuse(m);
        }
        let d = input.device_id.as_str();
        let mut plan: Vec<ApiRequest> = Vec::new();
        assert(requests_view(plan@) =~= Seq::empty());
        if let Some(power) = &input.power {
            push_request(&mut plan, self.client.command(d, "switch", power.as_str(), None, None));
        }
        if let Some(mode) = &input.mode {
            push_request(&mut plan, self.client.command(d, "airPurifierFanMode", "setAirPurifierFanMode", str_arg(mode.as_str()), None));
        }
        assert(requests_view(plan@) =~= Self::plan_v(*input)->Ok_0);
        Ok(plan)
    }

    /// The result: the reply to each command, under the name of its setting.
    pub open spec fn finish_v(input: AirPurifierInput, replies: Seq<ResponseV>) -> ToolResultV {
        ok_v(keyed_replies_v(Self::keys_v(input), replies))
    }

    /// The result.
    pub fn finish(&self, input: &AirPurifierInput, replies: &Vec<Response>) -> (r: ToolResult)
        requires
            Self::plan_v(*input) is Ok,
            replies.len() == crate::plan::plan_len(Self::plan_v(*input)),
        ensures
            r@ == Self::finish_v(*input, responses_view(replies@)),
    {
        let mut k: Vec<&'static str> = Vec::new();
        if input.power.is_some() {
            k.push("power");
        }
        if input.mode.is_some() {
            k.push("mode");
        }
        assert(Seq::new(k@.len(), |i: int| k@[i]@) =~= Self::keys_v(*input));
        ToolResult::ok(keyed_replies(&k, replies))
    }
}

/// Controls a dehumidifier: power, mode, target humidity.
pub struct DehumidifierTool<'a> {
    pub client: &'a SmartThingsClient,
}

impl<'a> DehumidifierTool<'a> {
    /// The plan: `switch` (power), `samsungce.dehumidifierMode.setDehumidifierMode` and
    /// `samsungce.relativeHumidityLevel.setHumidityLevel`, each where given.
    /// A given `power` other than on, off is refused before anything is sent.
    pub open spec fn plan_v(input: DehumidifierInput) -> Result<Seq<ApiRequestV>, Seq<char>> {
        match crate::plan::opt_choice_problem_v("power"@, "on, off"@, seq!["on"@, "off"@], input.power) {
            Some(m) => Err(m),
            None => {
                let d = input.device_id@;
                Ok(
                    sent_if(input.power is Some, device_command_v(d, "switch"@, input.power->0@, Seq::empty()))
                        + sent_if(
                        input.mode is Some,
                        device_command_v(
                            d,
                            "samsungce.dehumidifierMode"@,
                            "setDehumidifierMode"@,
                            seq![jstr(input.mode->0@)],
                        ),
                    ) + sent_if(
                        input.target_humidity is Some,
                        device_command_v(
                            d,
                            "samsungce.relativeHumidityLevel"@,
                            "setHumidityLevel"@,
                            seq![int_v(input.target_humidity->0 as int)],
                        ),
                    ),
                )
            },
        }
    }

    /// The names under which the replies are reported.
    pub open spec fn keys_v(input: DehumidifierInput) -> Seq<Seq<char>> {
        sent_if(input.power is Some, "power"@) + sent_if(input.mode is Some, "mode"@) + sent_if(
            input.target_humidity is Some,
            "target_humidity"@,
        )
    }

    /// The plan.
    pub fn plan(&self, input: &DehumidifierInput) -> (r: Result<Vec<ApiRequest>, String>)
        ensures
            plan_view(r) == Self::plan_v(*input),
    {
        let allowed: Vec<&'static str> = vec!["on", "off"];
        assert(crate::plan::strs_view(allowed@) =~= seq!["on"@, "off"@]);
        if let Some(m) = crate::plan::opt_choice_problem("power", "on, off", &allowed, &input.power) {
            return crate::plan::refuse(m);
        }
        let d = input.device_id.as_str();
        let mut plan: Vec<ApiRequest> = Vec::new();
        assert(requests_view(plan@) =~= Seq::empty());
        if let Some(power) = &input.power {
            push_request(&mut plan, self.client.command(d, "switch", power.as_str(), None, None));
        }
        if let Some(mode) = &input.mode {
            push_request(&mut plan, self.client.command(d, "samsungce.dehumidifierMode", "setDehumidifierMode", str_arg(mode.as_str()), None));
        }
        if let Some(h) = input.target_humidity {
            push_request(&mut plan, self.client.command(d, "samsungce.relativeHumidityLevel", "setHumidityLevel", int_arg(h), None));
        }
        assert(requests_view(plan@) =~= Self::plan_v(*input)->Ok_0);
        Ok(plan)
    }

    /// The result: the reply to each command, under the name of its setting.
    pub open spec fn finish_v(input: DehumidifierInput, replies: Seq<ResponseV>) -> ToolResultV {
        ok_v(keyed_replies_v(Self::keys_v(input), replies))
    }

    /// The result.
    pub fn finish(&self, input: &DehumidifierInput, replies: &Vec<Response>) -> (r: ToolResult)
        requires
            Self::plan_v(*input) is Ok,
            replies.len() == crate::plan::plan_len(Self::plan_v(*input)),
        ensures
            r@ == Self::finish_v(*input, responses_view(replies@)),
    {
        let mut k: Vec<&'static str> = Vec::new();
        if input.power.is_some() {
            k.push("power");
        }
        if input.mode.is_some() {
            k.push("mode");
        }
        if input.target_humidity.is_some() {
            k.push("target_humidity");
        }
        assert(Seq::new(k@.len(), |i: int| k@[i]@) =~= Self::keys_v(*input));
        ToolResult::ok(keyed_replies(&k, replies))
    }
}

} // verus!
