use vstd::prelude::*;

use crate::client::{responses_view, status_v, ApiRequest, ApiRequestV, Response, ResponseV, SmartThingsClient};
use crate::json::{entries_view, member, opt_view, or_null, or_null_of, Json, JsonV, jstr};
use crate::my_devices::energy::status_request;
use crate::plan::{plan_view, single, status_value, status_value_v};
use crate::schemas::extended_devices::SafetySensorInput;
use crate::tool::{ok_v, ToolResult, ToolResultV};

verus! {

/// `{key: reading, "device_id"}`.
pub open spec fn reading_v(key: Seq<char>, reading: Option<JsonV>, device_id: Seq<char>) -> ToolResultV {
    ok_v(JsonV::Object(seq![(key, or_null(reading)), ("device_id"@, jstr(device_id))]))
}

/// `{key: reading, "device_id"}`.
pub fn reading(key: &str, value: Option<&Json>, device_id: &String) -> (r: ToolResult)
    ensures
        r@ == reading_v(key@, opt_view(value), device_id@),
{
    let v = vec![member(key, or_null_of(value)), member("device_id", Json::Str(device_id.clone()))];
    assert(entries_view(v@) =~= reading_v(key@, opt_view(value), device_id@).data.unwrap()->Object_0);
    ToolResult::ok(Json::Object(v))
}

/// Reads a smoke detector.
pub struct SmokeDetectorTool<'a> {
    pub client: &'a SmartThingsClient,
}

impl<'a> SmokeDetectorTool<'a> {
    /// The plan: one read of the device's status.
    pub open spec fn plan_v(input: SafetySensorInput) -> Result<Seq<ApiRequestV>, Seq<char>> {
        Ok(seq![status_v(input.device_id@)])
    }

    /// The plan.
    pub fn plan(&self, input: &SafetySensorInput) -> (r: Result<Vec<ApiRequest>, String>)
        ensures
            plan_view(r) == Self::plan_v(*input),
    {
        single(status_request(self.client, &input.device_id))
    }

    /// The result: `{"smoke": smokeDetector.smoke, "device_id"}`.
    pub open spec fn finish_v(input: SafetySensorInput, replies: Seq<ResponseV>) -> ToolResultV {
        reading_v("smoke"@, status_value_v(replies[0], "smokeDetector"@, "smoke"@), input.device_id@)
    }

    /// The result.
    pub fn finish(&self, input: &SafetySensorInput, replies: &Vec<Response>) -> (r: ToolResult)
        requires
            replies.len() == 1,
        ensures
            r@ == Self::finish_v(*input, responses_view(replies@)),
    {
        reading("smoke", status_value(&replies[0], "smokeDetector", "smoke"), &input.device_id)
    }
}

/// Reads a carbon monoxide detector.
pub struct CoDetectorTool<'a> {
    pub client: &'a SmartThingsClient,
}

impl<'a> CoDetectorTool<'a> {
    /// The plan: one read of the device's status.
    pub open spec fn plan_v(input: SafetySensorInput) -> Result<Seq<ApiRequestV>, Seq<char>> {
        Ok(seq![status_v(input.device_id@)])
    }

    /// The plan.
    pub fn plan(&self, input: &SafetySensorInput) -> (r: Result<Vec<ApiRequest>, String>)
        ensures
            plan_view(r) == Self::plan_v(*input),
    {
        single(status_request(self.client, &input.device_id))
    }

    /// The result: `{"carbon_monoxide": carbonMonoxideDetector.carbonMonoxide, "device_id"}`.
    pub open spec fn finish_v(input: SafetySensorInput, replies: Seq<ResponseV>) -> ToolResultV {
        reading_v("carbon_monoxide"@, status_value_v(replies[0], "carbonMonoxideDetector"@, "carbonMonoxide"@), input.device_id@)
    }

    /// The result.
    pub fn finish(&self, input: &SafetySensorInput, replies: &Vec<Response>) -> (r: ToolResult)
        requires
            replies.len() == 1,
        ensures
            r@ == Self::finish_v(*input, responses_view(replies@)),
    {
        reading("carbon_monoxide", status_value(&replies[0], "carbonMonoxideDetector", "carbonMonoxide"), &input.device_id)
    }
}

/// Reads a water leak sensor.
pub struct WaterLeakTool<'a> {
    pub client: &'a SmartThingsClient,
}

impl<'a> WaterLeakTool<'a> {
    /// The plan: one read of the device's status.
    pub open spec fn plan_v(input: SafetySensorInput) -> Result<Seq<ApiRequestV>, Seq<char>> {
        Ok(seq![status_v(input.device_id@)])
    }

    /// The plan.
    pub fn plan(&self, input: &SafetySensorInput) -> (r: Result<Vec<ApiRequest>, String>)
        ensures
            plan_view(r) == Self::plan_v(*input),
    {
        single(status_request(self.client, &input.device_id))
    }

    /// The result: `{"water": waterSensor.water, "device_id"}`.
    pub open spec fn finish_v(input: SafetySensorInput, replies: Seq<ResponseV>) -> ToolResultV {
        reading_v("water"@, status_value_v(replies[0], "waterSensor"@, "water"@), input.device_id@)
    }

    /// The result.
    pub fn finish(&self, input: &SafetySensorInput, replies: &Vec<Response>) -> (r: ToolResult)
        requires
            replies.len() == 1,
        ensures
            r@ == Self::finish_v(*input, responses_view(replies@)),
    {
        reading("water", status_value(&replies[0], "waterSensor", "water"), &input.device_id)
    }
}

} // verus!
