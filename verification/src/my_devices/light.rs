use vstd::prelude::*;

use crate::client::{responses_view, ApiRequest, ApiRequestV, Response, ResponseV, SmartThingsClient};
use crate::json::{entries_view, int_json, int_v, items_view, member, Json, JsonV, jstr};
use crate::plan::{device_command_v, int_arg, plan_view, single};
use crate::schemas::my_devices::{SetBrightnessInput, SetColorInput, SetColorTemperatureInput};
use crate::tool::{ok_v, ToolResult, ToolResultV};

verus! {

/// Sets a light's brightness (0 to 100).
pub struct SetBrightnessTool<'a> {
    pub client: &'a SmartThingsClient,
}

impl<'a> SetBrightnessTool<'a> {
    /// The plan: `switchLevel.setLevel(level)`.
    pub open spec fn plan_v(input: SetBrightnessInput) -> Result<Seq<ApiRequestV>, Seq<char>> {
        Ok(seq![device_command_v(input.device_id@, "switchLevel"@, "setLevel"@, seq![int_v(input.level as int)])])
    }

    /// The plan.
    pub fn plan(&self, input: &SetBrightnessInput) -> (r: Result<Vec<ApiRequest>, String>)
        ensures
            plan_view(r) == Self::plan_v(*input),
    {
        single(self.client.command(input.device_id.as_str(), "switchLevel", "setLevel", int_arg(input.level), None))
    }

    /// The result: `{"device_id", "level"}`.
    pub open spec fn finish_v(input: SetBrightnessInput, replies: Seq<ResponseV>) -> ToolResultV {
        ok_v(JsonV::Object(seq![("device_id"@, jstr(input.device_id@)), ("level"@, int_v(input.level as int))]))
    }

    /// The result.
    pub fn finish(&self, input: &SetBrightnessInput, replies: &Vec<Response>) -> (r: ToolResult)
        ensures
            r@ == Self::finish_v(*input, responses_view(replies@)),
    {
        let v = vec![member("device_id", Json::Str(input.device_id.clone())), member("level", int_json(input.level as i64))];
        assert(entries_view(v@) =~= Self::finish_v(*input, responses_view(replies@)).data.unwrap()->Object_0);
        ToolResult::ok(Json::Object(v))
    }
}

/// Sets a light's colour: hue and saturation (0 to 100).
pub struct SetColorTool<'a> {
    pub client: &'a SmartThingsClient,
}

/// The colour argument `{"hue", "saturation"}`.
pub open spec fn color_v(hue: i32, saturation: i32) -> JsonV {
    JsonV::Object(seq![("hue"@, int_v(hue as int)), ("saturation"@, int_v(saturation as int))])
}

impl<'a> SetColorTool<'a> {
    /// The plan: `colorControl.setColor({"hue", "saturation"})`.
    pub open spec fn plan_v(input: SetColorInput) -> Result<Seq<ApiRequestV>, Seq<char>> {
        Ok(seq![device_command_v(input.device_id@, "colorControl"@, "setColor"@, seq![color_v(input.hue, input.saturation)])])
    }

    /// The plan.
    pub fn plan(&self, input: &SetColorInput) -> (r: Result<Vec<ApiRequest>, String>)
        ensures
            plan_view(r) == Self::plan_v(*input),
    {
        let color = vec![member("hue", int_json(input.hue as i64)), member("saturation", int_json(input.saturation as i64))];
        assert(entries_view(color@) =~= color_v(input.hue, input.saturation)->Object_0);
        let args = vec![Json::Object(color)];
        assert(items_view(args@) =~= seq![color_v(input.hue, input.saturation)]);
        single(self.client.command(input.device_id.as_str(), "colorControl", "setColor", Some(args), None))
    }

    /// The result: `{"device_id", "hue", "saturation"}`.
    pub open spec fn finish_v(input: SetColorInput, replies: Seq<ResponseV>) -> ToolResultV {
        ok_v(
            JsonV::Object(
                seq![
                    ("device_id"@, jstr(input.device_id@)),
                    ("hue"@, int_v(input.hue as int)),
                    ("saturation"@, int_v(input.saturation as int)),
                ],
            ),
        )
    }

    /// The result.
    pub fn finish(&self, input: &SetColorInput, replies: &Vec<Response>) -> (r: ToolResult)
        ensures
            r@ == Self::finish_v(*input, responses_view(replies@)),
    {
        let v = vec![
            member("device_id", Json::Str(input.device_id.clone())),
            member("hue", int_json(input.hue as i64)),
            member("saturation", int_json(input.saturation as i64)),
        ];
        assert(entries_view(v@) =~= Self::finish_v(*input, responses_view(replies@)).data.unwrap()->Object_0);
        ToolResult::ok(Json::Object(v))
    }
}

/// Sets a light's colour temperature in kelvin.
pub struct SetColorTemperatureTool<'a> {
    pub client: &'a SmartThingsClient,
}

impl<'a> SetColorTemperatureTool<'a> {
    /// The plan: `colorTemperature.setColorTemperature(temperature)`.
    pub open spec fn plan_v(input: SetColorTemperatureInput) -> Result<Seq<ApiRequestV>, Seq<char>> {
        Ok(
            seq![
                device_command_v(
                    input.device_id@,
                    "colorTemperature"@,
                    "setColorTemperature"@,
                    seq![int_v(input.temperature as int)],
                ),
            ],
        )
    }

    /// The plan.
    pub fn plan(&self, input: &SetColorTemperatureInput) -> (r: Result<Vec<ApiRequest>, String>)
        ensures
            plan_view(r) == Self::plan_v(*input),
    {
        single(
            self.client.command(
                input.device_id.as_str(),
                "colorTemperature",
                "setColorTemperature",
                int_arg(input.temperature),
                None,
            ),
        )
    }

    /// The result: `{"device_id", "temperature"}`.
    pub open spec fn finish_v(input: SetColorTemperatureInput, replies: Seq<ResponseV>) -> ToolResultV {
        ok_v(
            JsonV::Object(
                seq![("device_id"@, jstr(input.device_id@)), ("temperature"@, int_v(input.temperature as int))],
            ),
        )
    }

    /// The result.
    pub fn finish(&self, input: &SetColorTemperatureInput, replies: &Vec<Response>) -> (r: ToolResult)
        ensures
            r@ == Self::finish_v(*input, responses_view(replies@)),
    {
        let v = vec![
            member("device_id", Json::Str(input.device_id.clone())),
            member("temperature", int_json(input.temperature as i64)),
        ];
        assert(entries_view(v@) =~= Self::finish_v(*input, responses_view(replies@)).data.unwrap()->Object_0);
        ToolResult::ok(Json::Object(v))
    }
}

} // verus!
