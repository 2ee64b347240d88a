use vstd::prelude::*;

use crate::client::{responses_view, ApiRequest, ApiRequestV, Response, ResponseV, SmartThingsClient};
use crate::json::{entries_view, member, opt_text_json, opt_text_v, Json, JsonV, jstr};
use crate::my_devices::media::{volume_plan, volume_plan_v, volume_result, volume_result_v};
use crate::plan::{device_command_v, plan_view, refuse, single, str_arg};
use crate::schemas::my_devices::{TvChannelInput, TvInputInput, TvMuteInput, TvPowerInput, TvVolumeInput};
use crate::text::{concat, owned, str_eq};
use crate::tool::{ok_v, ToolResult, ToolResultV};

verus! {

/// `{"device_id", "state"}`.
pub open spec fn state_result_v(device_id: Seq<char>, state: Seq<char>) -> ToolResultV {
    ok_v(JsonV::Object(seq![("device_id"@, jstr(device_id)), ("state"@, jstr(state))]))
}

/// `{"device_id", "state"}`.
pub fn state_result(device_id: &String, state: &String) -> (r: ToolResult)
    ensures
        r@ == state_result_v(device_id@, state@),
{
    let v = vec![member("device_id", Json::Str(device_id.clone())), member("state", Json::Str(state.clone()))];
    assert(entries_view(v@) =~= state_result_v(device_id@, state@).data.unwrap()->Object_0);
    ToolResult::ok(Json::Object(v))
}

/// Turns a TV on or off.
pub struct TvPowerTool<'a> {
    pub client: &'a SmartThingsClient,
}

impl<'a> TvPowerTool<'a> {
    /// The plan: the `switch` command named by the state.
    /// A `state` other than on, off is refused before anything is sent.
    pub open spec fn plan_v(input: TvPowerInput) -> Result<Seq<ApiRequestV>, Seq<char>> {
        match crate::plan::choice_problem_v("state"@, "on, off"@, seq!["on"@, "off"@], input.state@) {
            Some(m) => Err(m),
            None => {
                Ok(seq![device_command_v(input.device_id@, "switch"@, input.state@, Seq::empty())])
            },
        }
    }

    /// The plan.
    pub fn plan(&self, input: &TvPowerInput) -> (r: Result<Vec<ApiRequest>, String>)
        ensures
            plan_view(r) == Self::plan_v(*input),
    {
        let allowed: Vec<&'static str> = vec!["on", "off"];
        assert(crate::plan::strs_view(allowed@) =~= seq!["on"@, "off"@]);
        if let Some(m) = crate::plan::choice_problem("state", "on, off", &allowed, input.state.as_str()) {
            return crate::plan::refuse(m);
        }
        single(self.client.command(input.device_id.as_str(), "switch", input.state.as_str(), None, None))
    }

    /// The result: `{"device_id", "state"}`.
    pub open spec fn finish_v(input: TvPowerInput, replies: Seq<ResponseV>) -> ToolResultV {
        state_result_v(input.device_id@, input.state@)
    }

    /// The result.
    pub fn finish(&self, input: &TvPowerInput, replies: &Vec<Response>) -> (r: ToolResult)
        ensures
            r@ == Self::finish_v(*input, responses_view(replies@)),
    {
        state_result(&input.device_id, &input.state)
    }
}

/// Sets, raises or lowers a TV's volume.
pub struct TvVolumeTool<'a> {
    pub client: &'a SmartThingsClient,
}

impl<'a> TvVolumeTool<'a> {
    /// The plan: the volume action.
    pub open spec fn plan_v(input: TvVolumeInput) -> Result<Seq<ApiRequestV>, Seq<char>> {
        volume_plan_v(input.device_id@, input.action@, input.volume)
    }

    /// The plan.
    pub fn plan(&self, input: &TvVolumeInput) -> (r: Result<Vec<ApiRequest>, String>)
        ensures
            plan_view(r) == Self::plan_v(*input),
    {
        volume_plan(self.client, &input.device_id, &input.action, input.volume)
    }

    /// The result: `{"device_id", "action", "volume"}`.
    pub open spec fn finish_v(input: TvVolumeInput, replies: Seq<ResponseV>) -> ToolResultV {
        volume_result_v(input.device_id@, input.action@, input.volume)
    }

    /// The result.
    pub fn finish(&self, input: &TvVolumeInput, replies: &Vec<Response>) -> (r: ToolResult)
        ensures
            r@ == Self::finish_v(*input, responses_view(replies@)),
    {
        volume_result(&input.device_id, &input.action, input.volume)
    }
}

/// Mutes or unmutes a TV.
pub struct TvMuteTool<'a> {
    pub client: &'a SmartThingsClient,
}

impl<'a> TvMuteTool<'a> {
    /// The plan: the `audioMute` command named by the state (`mute`, `unmute`).
    /// A `state` other than mute, unmute is refused before anything is sent.
    pub open spec fn plan_v(input: TvMuteInput) -> Result<Seq<ApiRequestV>, Seq<char>> {
        match crate::plan::choice_problem_v("state"@, "mute, unmute"@, seq!["mute"@, "unmute"@], input.state@) {
            Some(m) => Err(m),
            None => {
                Ok(seq![device_command_v(input.device_id@, "audioMute"@, input.state@, Seq::empty())])
            },
        }
    }

    /// The plan.
    pub fn plan(&self, input: &TvMuteInput) -> (r: Result<Vec<ApiRequest>, String>)
        ensures
            plan_view(r) == Self::plan_v(*input),
    {
        let allowed: Vec<&'static str> = vec!["mute", "unmute"];
        assert(crate::plan::strs_view(allowed@) =~= seq!["mute"@, "unmute"@]);
        if let Some(m) = crate::plan::choice_problem("state", "mute, unmute", &allowed, input.state.as_str()) {
            return crate::plan::refuse(m);
        }
        single(self.client.command(input.device_id.as_str(), "audioMute", input.state.as_str(), None, None))
    }

    /// The result: `{"device_id", "state"}`.
    pub open spec fn finish_v(input: TvMuteInput, replies: Seq<ResponseV>) -> ToolResultV {
        state_result_v(input.device_id@, input.state@)
    }

    /// The result.
    pub fn finish(&self, input: &TvMuteInput, replies: &Vec<Response>) -> (r: ToolResult)
        ensures
            r@ == Self::finish_v(*input, responses_view(replies@)),
    {
        state_result(&input.device_id, &input.state)
    }
}

/// Changes a TV's channel: to a given channel, or up and down.
pub struct TvChannelTool<'a> {
    pub client: &'a SmartThingsClient,
}

impl<'a> TvChannelTool<'a> {
    /// The plan: `set` (which needs a channel), `up` or `down`.
    pub open spec fn plan_v(input: TvChannelInput) -> Result<Seq<ApiRequestV>, Seq<char>> {
        let d = input.device_id@;
        if input.action@ == "set"@ {
            match input.channel {
                Some(c) => Ok(seq![device_command_v(d, "tvChannel"@, "setTvChannel"@, seq![jstr(c@)])]),
                None => Err("channel is required when action is 'set'."@),
            }
        } else if input.action@ == "up"@ {
            Ok(seq![device_command_v(d, "tvChannel"@, "channelUp"@, Seq::empty())])
        } else if input.action@ == "down"@ {
            Ok(seq![device_command_v(d, "tvChannel"@, "channelDown"@, Seq::empty())])
        } else {
            Err("Unsupported channel action: "@ + input.action@)
        }
    }

    /// The plan.
    pub fn plan(&self, input: &TvChannelInput) -> (r: Result<Vec<ApiRequest>, String>)
        ensures
            plan_view(r) == Self::plan_v(*input),
    {
        let d = input.device_id.as_str();
        if str_eq(input.action.as_str(), "set") {
            match &input.channel {
                Some(c) => single(self.client.command(d, "tvChannel", "setTvChannel", str_arg(c.as_str()), None)),
                None => refuse(owned("channel is required when action is 'set'.")),
            }
        } else if str_eq(input.action.as_str(), "up") {
            single(self.client.command(d, "tvChannel", "channelUp", None, None))
        } else if str_eq(input.action.as_str(), "down") {
            single(self.client.command(d, "tvChannel", "channelDown", None, None))
        } else {
            refuse(concat("Unsupported channel action: ", input.action.as_str()))
        }
    }

    /// The result: `{"device_id", "action", "channel"}`.
    pub open spec fn finish_v(input: TvChannelInput, replies: Seq<ResponseV>) -> ToolResultV {
        ok_v(
            JsonV::Object(
                seq![
                    ("device_id"@, jstr(input.device_id@)),
                    ("action"@, jstr(input.action@)),
                    ("channel"@, opt_text_v(input.channel)),
                ],
            ),
        )
    }

    /// The result.
    pub fn finish(&self, input: &TvChannelInput, replies: &Vec<Response>) -> (r: ToolResult)
        ensures
            r@ == Self::finish_v(*input, responses_view(replies@)),
    {
        let v = vec![
            member("device_id", Json::Str(input.device_id.clone())),
            member("action", Json::Str(input.action.clone())),
            member("channel", opt_text_json(&input.channel)),
        ];
        assert(entries_view(v@) =~= Self::finish_v(*input, responses_view(replies@)).data.unwrap()->Object_0);
        ToolResult::ok(Json::Object(v))
    }
}

/// Switches a TV's input source.
pub struct TvInputTool<'a> {
    pub client: &'a SmartThingsClient,
}

impl<'a> TvInputTool<'a> {
    /// The plan: `mediaInputSource.setInputSource(source)`.
    pub open spec fn plan_v(input: TvInputInput) -> Result<Seq<ApiRequestV>, Seq<char>> {
        Ok(seq![device_command_v(input.device_id@, "mediaInputSource"@, "setInputSource"@, seq![jstr(input.source@)])])
    }

    /// The plan.
    pub fn plan(&self, input: &TvInputInput) -> (r: Result<Vec<ApiRequest>, String>)
        ensures
            plan_view(r) == Self::plan_v(*input),
    {
        single(
            self.client.command(
                input.device_id.as_str(),
                "mediaInputSource",
                "setInputSource",
                str_arg(input.source.as_str()),
                None,
            ),
        )
    }

    /// The result: `{"device_id", "source"}`.
    pub open spec fn finish_v(input: TvInputInput, replies: Seq<ResponseV>) -> ToolResultV {
        ok_v(JsonV::Object(seq![("device_id"@, jstr(input.device_id@)), ("source"@, jstr(input.source@))]))
    }

    /// The result.
    pub fn finish(&self, input: &TvInputInput, replies: &Vec<Response>) -> (r: ToolResult)
        ensures
            r@ == Self::finish_v(*input, responses_view(replies@)),
    {
        let v = vec![member("device_id", Json::Str(input.device_id.clone())), member("source", Json::Str(input.source.clone()))];
        assert(entries_view(v@) =~= Self::finish_v(*input, responses_view(replies@)).data.unwrap()->Object_0);
        ToolResult::ok(Json::Object(v))
    }
}

} // verus!
