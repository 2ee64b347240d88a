use vstd::prelude::*;

use crate::client::{responses_view, ApiRequest, ApiRequestV, Response, ResponseV, SmartThingsClient};
use crate::json::{entries_view, member, Json, JsonV, jstr};
use crate::plan::{device_command_v, plan_view, reply_json, reply_json_v, single};
use crate::schemas::extended_devices::{AlarmInput, SecuritySystemInput};
use crate::tool::{ok_v, ToolResult, ToolResultV};

verus! {

/// `{"device_id", "action", "result": reply}`.
pub open spec fn action_result_v(device_id: Seq<char>, action: Seq<char>, reply: ResponseV) -> ToolResultV {
    ok_v(
        JsonV::Object(
            seq![("device_id"@, jstr(device_id)), ("action"@, jstr(action)), ("result"@, reply_json_v(reply))],
        ),
    )
}

/// `{"device_id", "action", "result": reply}`.
pub fn action_result(device_id: &String, action: &String, reply: &Response) -> (r: ToolResult)
    ensures
        r@ == action_result_v(device_id@, action@, reply@),
{
    let v = vec![
        member("device_id", Json::Str(device_id.clone())),
        member("action", Json::Str(action.clone())),
        member("result", reply_json(reply)),
    ];
    assert(entries_view(v@) =~= action_result_v(device_id@, action@, reply@).data.unwrap()->Object_0);
    ToolResult::ok(Json::Object(v))
}

/// Sounds a siren or strobe, or silences it.
pub struct AlarmTool<'a> {
    pub client: &'a SmartThingsClient,
}

impl<'a> AlarmTool<'a> {
    /// The plan: the `alarm` command named by the action.
    /// A `action` other than siren, strobe, both, off is refused before anything is sent.
    pub open spec fn plan_v(input: AlarmInput) -> Result<Seq<ApiRequestV>, Seq<char>> {
        match crate::plan::choice_problem_v("action"@, "siren, strobe, both, off"@, seq!["siren"@, "strobe"@, "both"@, "off"@], input.action@) {
            Some(m) => Err(m),
            None => {
                Ok(seq![device_command_v(input.device_id@, "alarm"@, input.action@, Seq::empty())])
            },
        }
    }

    /// The plan.
    pub fn plan(&self, input: &AlarmInput) -> (r: Result<Vec<ApiRequest>, String>)
        ensures
            plan_view(r) == Self::plan_v(*input),
    {
        let allowed: Vec<&'static str> = vec!["siren", "strobe", "both", "off"];
        assert(crate::plan::strs_view(allowed@) =~= seq!["siren"@, "strobe"@, "both"@, "off"@]);
        if let Some(m) = crate::plan::choice_problem("action", "siren, strobe, both, off", &allowed, input.action.as_str()) {
            return crate::plan::refuse(m);
        }
        single(self.client.command(input.device_id.as_str(), "alarm", input.action.as_str(), None, None))
    }

    /// The result: `{"device_id", "action", "result": reply}`.
    pub open spec fn finish_v(input: AlarmInput, replies: Seq<ResponseV>) -> ToolResultV {
        action_result_v(input.device_id@, input.action@, replies[0])
    }

    /// The result.
    pub fn finish(&self, input: &AlarmInput, replies: &Vec<Response>) -> (r: ToolResult)
        requires
            replies.len() == 1,
        ensures
            r@ == Self::finish_v(*input, responses_view(replies@)),
    {
        action_result(&input.device_id, &input.action, &replies[0])
    }
}

/// Arms (away, stay) or disarms a security system.
pub struct SecuritySystemTool<'a> {
    pub client: &'a SmartThingsClient,
}

impl<'a> SecuritySystemTool<'a> {
    /// The plan: the `securitySystem` command named by the action.
    /// A `action` other than armAway, armStay, disarm is refused before anything is sent.
    pub open spec fn plan_v(input: SecuritySystemInput) -> Result<Seq<ApiRequestV>, Seq<char>> {
        match crate::plan::choice_problem_v("action"@, "armAway, armStay, disarm"@, seq!["armAway"@, "armStay"@, "disarm"@], input.action@) {
            Some(m) => Err(m),
            None => {
                Ok(seq![device_command_v(input.device_id@, "securitySystem"@, input.action@, Seq::empty())])
            },
        }
    }

    /// The plan.
    pub fn plan(&self, input: &SecuritySystemInput) -> (r: Result<Vec<ApiRequest>, String>)
        ensures
            plan_view(r) == Self::plan_v(*input),
    {
        let allowed: Vec<&'static str> = vec!["armAway", "armStay", "disarm"];
        assert(crate::plan::strs_view(allowed@) =~= seq!["armAway"@, "armStay"@, "disarm"@]);
        if let Some(m) = crate::plan::choice_problem("action", "armAway, armStay, disarm", &allowed, input.action.as_str()) {
            return crate::plan::refuse(m);
        }
        single(self.client.command(input.device_id.as_str(), "securitySystem", input.action.as_str(), None, None))
    }

    /// The result: `{"device_id", "action", "result": reply}`.
    pub open spec fn finish_v(input: SecuritySystemInput, replies: Seq<ResponseV>) -> ToolResultV {
        action_result_v(input.device_id@, input.action@, replies[0])
    }

    /// The result.
    pub fn finish(&self, input: &SecuritySystemInput, replies: &Vec<Response>) -> (r: ToolResult)
        requires
            replies.len() == 1,
        ensures
            r@ == Self::finish_v(*input, responses_view(replies@)),
    {
        action_result(&input.device_id, &input.action, &replies[0])
    }
}

} // verus!
