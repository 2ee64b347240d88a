use vstd::prelude::*;

use crate::client::{responses_view, ApiRequest, ApiRequestV, Response, ResponseV, SmartThingsClient};
use crate::json::{entries_view, int_v, member, opt_int_json, opt_int_v, Json, JsonV, jstr};
use crate::plan::{device_command_v, int_arg, plan_view, refuse, single};
use crate::schemas::my_devices::{MediaPlaybackInput, MediaVolumeInput};
use crate::text::{concat, owned, str_eq};
use crate::tool::{ok_v, ToolResult, ToolResultV};

verus! {

/// The plan of a volume action: `set` (which needs a volume), `up` or `down`.
pub open spec fn volume_plan_v(device_id: Seq<char>, action: Seq<char>, volume: Option<i32>) -> Result<
    Seq<ApiRequestV>,
    Seq<char>,
> {
    if action == "set"@ {
        match volume {
            Some(v) => Ok(seq![device_command_v(device_id, "audioVolume"@, "setVolume"@, seq![int_v(v as int)])]),
            None => Err("volume is required when action is 'set'."@),
        }
    } else if action == "up"@ {
        Ok(seq![device_command_v(device_id, "audioVolume"@, "volumeUp"@, Seq::empty())])
    } else if action == "down"@ {
        Ok(seq![device_command_v(device_id, "audioVolume"@, "volumeDown"@, Seq::empty())])
    } else {
        Err("Unsupported volume action: "@ + action)
    }
}

/// The plan of a volume action.
pub fn volume_plan(client: &SmartThingsClient, device_id: &String, action: &String, volume: Option<i32>) -> (r: Result<
    Vec<ApiRequest>,
    String,
>)
    ensures
        plan_view(r) == volume_plan_v(device_id@, action@, volume),
{
    if str_eq(action.as_str(), "set") {
        match volume {
            Some(v) => single(client.command(device_id.as_str(), "audioVolume", "setVolume", int_arg(v), None)),
            None => refuse(owned("volume is required when action is 'set'.")),
        }
    } else if str_eq(action.as_str(), "up") {
        single(client.command(device_id.as_str(), "audioVolume", "volumeUp", None, None))
    } else if str_eq(action.as_str(), "down") {
        single(client.command(device_id.as_str(), "audioVolume", "volumeDown", None, None))
    } else {
        refuse(concat("Unsupported volume action: ", action.as_str()))
    }
}

/// The result of a volume action: `{"device_id", "action", "volume"}`.
pub open spec fn volume_result_v(device_id: Seq<char>, action: Seq<char>, volume: Option<i32>) -> ToolResultV {
    ok_v(
        JsonV::Object(
            seq![("device_id"@, jstr(device_id)), ("action"@, jstr(action)), ("volume"@, opt_int_v(volume))],
        ),
    )
}

/// The result of a volume action.
pub fn volume_result(device_id: &String, action: &String, volume: Option<i32>) -> (r: ToolResult)
    ensures
        r@ == volume_result_v(device_id@, action@, volume),
{
    let v = vec![
        member("device_id", Json::Str(device_id.clone())),
        member("action", Json::Str(action.clone())),
        member("volume", opt_int_json(volume)),
    ];
    assert(entries_view(v@) =~= volume_result_v(device_id@, action@, volume).data.unwrap()->Object_0);
    ToolResult::ok(Json::Object(v))
}

/// Controls media playback: play, pause, stop, fast forward, rewind.
pub struct MediaPlaybackTool<'a> {
    pub client: &'a SmartThingsClient,
}

impl<'a> MediaPlaybackTool<'a> {
    /// The plan: the `mediaPlayback` command named by the action.
    /// A `action` other than play, pause, stop, fastForward, rewind is refused before anything is sent.
    pub open spec fn plan_v(input: MediaPlaybackInput) -> Result<Seq<ApiRequestV>, Seq<char>> {
        match crate::plan::choice_problem_v("action"@, "play, pause, stop, fastForward, rewind"@, seq!["play"@, "pause"@, "stop"@, "fastForward"@, "rewind"@], input.action@) {
            Some(m) => Err(m),
            None => {
                Ok(seq![device_command_v(input.device_id@, "mediaPlayback"@, input.action@, Seq::empty())])
            },
        }
    }

    /// The plan.
    pub fn plan(&self, input: &MediaPlaybackInput) -> (r: Result<Vec<ApiRequest>, String>)
        ensures
            plan_view(r) == Self::plan_v(*input),
    {
        let allowed: Vec<&'static str> = vec!["play", "pause", "stop", "fastForward", "rewind"];
        assert(crate::plan::strs_view(allowed@) =~= seq!["play"@, "pause"@, "stop"@, "fastForward"@, "rewind"@]);
        if let Some(m) = crate::plan::choice_problem("action", "play, pause, stop, fastForward, rewind", &allowed, input.action.as_str()) {
            return crate::plan::refuse(m);
        }
        single(self.client.command(input.device_id.as_str(), "mediaPlayback", input.action.as_str(), None, None))
    }

    /// The result: `{"device_id", "action"}`.
    pub open spec fn finish_v(input: MediaPlaybackInput, replies: Seq<ResponseV>) -> ToolResultV {
        ok_v(JsonV::Object(seq![("device_id"@, jstr(input.device_id@)), ("action"@, jstr(input.action@))]))
    }

    /// The result.
    pub fn finish(&self, input: &MediaPlaybackInput, replies: &Vec<Response>) -> (r: ToolResult)
        ensures
            r@ == Self::finish_v(*input, responses_view(replies@)),
    {
        let v = vec![member("device_id", Json::Str(input.device_id.clone())), member("action", Json::Str(input.action.clone()))];
        assert(entries_view(v@) =~= Self::finish_v(*input, responses_view(replies@)).data.unwrap()->Object_0);
        ToolResult::ok(Json::Object(v))
    }
}

/// Sets, raises or lowers a media device's volume.
pub struct MediaVolumeTool<'a> {
    pub client: &'a SmartThingsClient,
}

impl<'a> MediaVolumeTool<'a> {
    /// The plan: the volume action.
    pub open spec fn plan_v(input: MediaVolumeInput) -> Result<Seq<ApiRequestV>, Seq<char>> {
        volume_plan_v(input.device_id@, input.action@, input.volume)
    }

    /// The plan.
    pub fn plan(&self, input: &MediaVolumeInput) -> (r: Result<Vec<ApiRequest>, String>)
        ensures
            plan_view(r) == Self::plan_v(*input),
    {
        volume_plan(self.client, &input.device_id, &input.action, input.volume)
    }

    /// The result: `{"device_id", "action", "volume"}`.
    pub open spec fn finish_v(input: MediaVolumeInput, replies: Seq<ResponseV>) -> ToolResultV {
        volume_result_v(input.device_id@, input.action@, input.volume)
    }

    /// The result.
    pub fn finish(&self, input: &MediaVolumeInput, replies: &Vec<Response>) -> (r: ToolResult)
        ensures
            r@ == Self::finish_v(*input, responses_view(replies@)),
    {
        volume_result(&input.device_id, &input.action, input.volume)
    }
}

} // verus!
