use vstd::prelude::*;

use crate::client::{responses_view, ApiRequest, ApiRequestV, Response, ResponseV, SmartThingsClient};
use crate::json::{entries_view, member, Json, JsonV, jstr};
use crate::plan::{
    device_command_v, json_arg, keyed_replies, keyed_replies_v, plan_view, push_request, refuse,
    requests_view, sent_if, str_arg,
};
use crate::schemas::extended_devices::ThermostatInput;
use crate::text::owned;
use crate::tool::{ok_v, ToolResult, ToolResultV};

verus! {

/// Sets a thermostat's mode, heating and cooling set points, and fan mode.
pub struct ThermostatTool<'a> {
    pub client: &'a SmartThingsClient,
}

/// `{key: key}` for each key.
pub open spec fn echo_keys_v(keys: Seq<Seq<char>>) -> JsonV {
    JsonV::Object(Seq::new(keys.len(), |i: int| (keys[i], jstr(keys[i]))))
}

impl<'a> ThermostatTool<'a> {
    /// The plan: for each setting given, in this order, its command:
    /// `thermostatMode.setThermostatMode`, `thermostatHeatingSetpoint.setHeatingSetpoint`,
    /// `thermostatCoolingSetpoint.setCoolingSetpoint`, `thermostatFanMode.setThermostatFanMode`;
    /// refused where none is given.
    pub open spec fn plan_v(input: ThermostatInput) -> Result<Seq<ApiRequestV>, Seq<char>> {
        let d = input.device_id@;
        let cmds = sent_if(
            input.mode is Some,
            device_command_v(d, "thermostatMode"@, "setThermostatMode"@, seq![jstr(input.mode->0@)]),
        ) + sent_if(
            input.heating_setpoint is Some,
            device_command_v(d, "thermostatHeatingSetpoint"@, "setHeatingSetpoint"@, seq![input.heating_setpoint->0@]),
        ) + sent_if(
            input.cooling_setpoint is Some,
            device_command_v(d, "thermostatCoolingSetpoint"@, "setCoolingSetpoint"@, seq![input.cooling_setpoint->0@]),
        ) + sent_if(
            input.fan_mode is Some,
            device_command_v(d, "thermostatFanMode"@, "setThermostatFanMode"@, seq![jstr(input.fan_mode->0@)]),
        );
        if cmds.len() == 0 {
            Err("설정할 항목이 없습니다."@)
        } else {
            Ok(cmds)
        }
    }

    /// The names of the settings given, in the order of their commands.
    pub open spec fn keys_v(input: ThermostatInput) -> Seq<Seq<char>> {
        sent_if(input.mode is Some, "mode"@) + sent_if(input.heating_setpoint is Some, "heating_setpoint"@)
            + sent_if(input.cooling_setpoint is Some, "cooling_setpoint"@) + sent_if(
            input.fan_mode is Some,
            "fan_mode"@,
        )
    }

    /// The plan.
    pub fn plan(&self, input: &ThermostatInput) -> (r: Result<Vec<ApiRequest>, String>)
        ensures
            plan_view(r) == Self::plan_v(*input),
    {
        let d = input.device_id.as_str();
        let mut plan: Vec<ApiRequest> = Vec::new();
        assert(requests_view(plan@) =~= Seq::empty());
        if let Some(mode) = &input.mode {
            push_request(&mut plan, self.client.command(d, "thermostatMode", "setThermostatMode", str_arg(mode.as_str()), None));
        }
        if let Some(heat) = &input.heating_setpoint {
            push_request(&mut plan, self.client.command(d, "thermostatHeatingSetpoint", "setHeatingSetpoint", json_arg(heat), None));
        }
        if let Some(cool) = &input.cooling_setpoint {
            push_request(&mut plan, self.client.command(d, "thermostatCoolingSetpoint", "setCoolingSetpoint", json_arg(cool), None));
        }
        if let Some(fan) = &input.fan_mode {
            push_request(&mut plan, self.client.command(d, "thermostatFanMode", "setThermostatFanMode", str_arg(fan.as_str()), None));
        }
        if plan.len() == 0 {
            return refuse(owned("설정할 항목이 없습니다."));
        }
        assert(requests_view(plan@) =~= Self::plan_v(*input)->Ok_0);
        Ok(plan)
    }

    /// The result: `{"device_id", "set": {key: key}, "results": {key: reply}}` for the
    /// settings given.
    pub open spec fn finish_v(input: ThermostatInput, replies: Seq<ResponseV>) -> ToolResultV {
        ok_v(
            JsonV::Object(
                seq![
                    ("device_id"@, jstr(input.device_id@)),
                    ("set"@, echo_keys_v(Self::keys_v(input))),
                    ("results"@, keyed_replies_v(Self::keys_v(input), replies)),
                ],
            ),
        )
    }

    /// The result.
    pub fn finish(&self, input: &ThermostatInput, replies: &Vec<Response>) -> (r: ToolResult)
        requires
            Self::plan_v(*input) is Ok,
            replies.len() == crate::plan::plan_len(Self::plan_v(*input)),
        ensures
            r@ == Self::finish_v(*input, responses_view(replies@)),
    {
        let mut k: Vec<&'static str> = Vec::new();
        if input.mode.is_some() {
            k.push("mode");
        }
        if input.heating_setpoint.is_some() {
            k.push("heating_setpoint");
        }
        if input.cooling_setpoint.is_some() {
            k.push("cooling_setpoint");
        }
        if input.fan_mode.is_some() {
            k.push("fan_mode");
        }
        let ghost keys = Seq::new(k@.len(), |i: int| k@[i]@);
        assert(keys =~= Self::keys_v(*input));
        let mut applied: Vec<(String, Json)> = Vec::new();
        let mut i: usize = 0;
        while i < k.len()
            invariant
                0 <= i <= k.len(),
                keys == Seq::new(k@.len(), |i: int| k@[i]@),
                applied@.len() == i,
                forall|j: int| 0 <= j < i ==> applied@[j].0@ == keys[j] && applied@[j].1@ == jstr(keys[j]),
            decreases k.len() - i,
        {
            applied.push(member(k[i], Json::text(k[i])));
            i = i + 1;
        }
        assert(entries_view(applied@) =~= echo_keys_v(keys)->Object_0);
        let results = keyed_replies(&k, replies);
        let v = vec![
            member("device_id", Json::Str(input.device_id.clone())),
            member("set", Json::Object(applied)),
            member("results", results),
        ];
        assert(entries_view(v@) =~= Self::finish_v(*input, responses_view(replies@)).data.unwrap()->Object_0);
        ToolResult::ok(Json::Object(v))
    }
}

} // verus!
