use vstd::prelude::*;

use crate::client::{responses_view, ApiRequest, ApiRequestV, Response, ResponseV, SmartThingsClient};
use crate::json::{entries_view, int_v, member, opt_int_json, opt_int_v, opt_text_json, opt_text_v, Json, JsonV, jstr};
use crate::plan::{
    device_command_v, int_arg, plan_view, push_request, refuse, reply_json, reply_json_v, requests_view, sent_if,
};
use crate::schemas::my_devices::ControlCurtainInput;
use crate::text::{concat, owned, str_eq};
use crate::tool::{ok_v, ToolResult, ToolResultV};

verus! {

/// The curtain actions that exist: `open`, `close`, `pause`.
pub open spec fn curtain_action_v(a: Seq<char>) -> bool {
    a == "open"@ || a == "close"@ || a == "pause"@
}

/// Opens, closes or pauses a curtain or blind, or moves it to a level (0 to 100).
pub struct ControlCurtainTool<'a> {
    pub client: &'a SmartThingsClient,
}

impl<'a> ControlCurtainTool<'a> {
    /// The plan: the `windowShade` action where one is given (refused where it is not one
    /// of `open`, `close`, `pause`), then `switchLevel.setLevel` where a level is given;
    /// refused where neither is given.
    pub open spec fn plan_v(input: ControlCurtainInput) -> Result<Seq<ApiRequestV>, Seq<char>> {
        let d = input.device_id@;
        if input.action is Some && !curtain_action_v(input.action->0@) {
            Err("Unsupported curtain action: "@ + input.action->0@)
        } else if input.action is None && input.level is None {
            Err("Either action or level must be provided."@)
        } else {
            Ok(
                sent_if(input.action is Some, device_command_v(d, "windowShade"@, input.action->0@, Seq::empty()))
                    + sent_if(
                    input.level is Some,
                    device_command_v(d, "switchLevel"@, "setLevel"@, seq![int_v(input.level->0 as int)]),
                ),
            )
        }
    }

    /// The plan.
    pub fn plan(&self, input: &ControlCurtainInput) -> (r: Result<Vec<ApiRequest>, String>)
        ensures
            plan_view(r) == Self::plan_v(*input),
    {
        let d = input.device_id.as_str();
        let mut plan: Vec<ApiRequest> = Vec::new();
        assert(requests_view(plan@) =~= Seq::empty());
        if let Some(action) = &input.action {
            if !(str_eq(action.as_str(), "open") || str_eq(action.as_str(), "close") || str_eq(action.as_str(), "pause")) {
                return refuse(concat("Unsupported curtain action: ", action.as_str()));
            }
            push_request(&mut plan, self.client.command(d, "windowShade", action.as_str(), None, None));
        }
        if let Some(level) = input.level {
            push_request(&mut plan, self.client.command(d, "switchLevel", "setLevel", int_arg(level), None));
        }
        if input.action.is_none() && input.level.is_none() {
            return refuse(owned("Either action or level must be provided."));
        }
        assert(requests_view(plan@) =~= Self::plan_v(*input)->Ok_0);
        Ok(plan)
    }

    /// The result: `{"device_id", "action", "level", "shade_result", "level_result"}`, the
    /// two results being the replies to the two commands (`null` for one not sent).
    pub open spec fn finish_v(input: ControlCurtainInput, replies: Seq<ResponseV>) -> ToolResultV {
        let shade = if input.action is Some {
            reply_json_v(replies[0])
        } else {
            JsonV::Null
        };
        let level = if input.level is Some {
            reply_json_v(replies[if input.action is Some { 1int } else { 0int }])
        } else {
            JsonV::Null
        };
        ok_v(
            JsonV::Object(
                seq![
                    ("device_id"@, jstr(input.device_id@)),
                    ("action"@, opt_text_v(input.action)),
                    ("level"@, opt_int_v(input.level)),
                    ("shade_result"@, shade),
                    ("level_result"@, level),
                ],
            ),
        )
    }

    /// The result.
    pub fn finish(&self, input: &ControlCurtainInput, replies: &Vec<Response>) -> (r: ToolResult)
        requires
            Self::plan_v(*input) is Ok,
            replies.len() == crate::plan::plan_len(Self::plan_v(*input)),
            Self::plan_v(*input) is Ok,
        ensures
            r@ == Self::finish_v(*input, responses_view(replies@)),
    {
        let shade = if input.action.is_some() {
            reply_json(&replies[0])
        } else {
            Json::Null
        };
        let level = if input.level.is_some() {
            let k: usize = if input.action.is_some() { 1 } else { 0 };
            reply_json(&replies[k])
        } else {
            Json::Null
        };
        let v = vec![
            member("device_id", Json::Str(input.device_id.clone())),
            member("action", opt_text_json(&input.action)),
            member("level", opt_int_json(input.level)),
            member("shade_result", shade),
            member("level_result", level),
        ];
        assert(entries_view(v@) =~= Self::finish_v(*input, responses_view(replies@)).data.unwrap()->Object_0);
        ToolResult::ok(Json::Object(v))
    }
}

} // verus!
