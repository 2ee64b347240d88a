use vstd::prelude::*;

use crate::client::{responses_view, status_v, ApiRequest, ApiRequestV, Response, ResponseV, SmartThingsClient};
use crate::json::{entries_view, Json, JsonV};
use crate::my_devices::energy::status_request;
use crate::my_devices::oven::{temperature, temperature_v};
use crate::plan::{opt_member_v, plan_view, push_opt_member, single, status_value, status_value_v};
use crate::schemas::my_devices::GetSensorDataInput;
use crate::tool::{ok_v, ToolResult, ToolResultV};

verus! {

/// The sound reading: `soundDetected`, or else `soundDetectionState`.
pub open spec fn sound_v(r: ResponseV) -> Option<JsonV> {
    match status_value_v(r, "soundDetection"@, "soundDetected"@) {
        Some(v) => Some(v),
        None => status_value_v(r, "soundDetection"@, "soundDetectionState"@),
    }
}

/// The readings of a sensor, each present only where the device reports it.
pub open spec fn readings_v(r: ResponseV) -> Seq<(Seq<char>, JsonV)> {
    opt_member_v("presence"@, status_value_v(r, "presenceSensor"@, "presence"@))
        + opt_member_v("motion"@, status_value_v(r, "motionSensor"@, "motion"@))
        + (if status_value_v(r, "temperatureMeasurement"@, "temperature"@) is Some {
        seq![("temperature"@, temperature_v(r))]
    } else {
        Seq::empty()
    }) + opt_member_v("humidity"@, status_value_v(r, "relativeHumidityMeasurement"@, "humidity"@))
        + opt_member_v("illuminance"@, status_value_v(r, "illuminanceMeasurement"@, "illuminance"@))
        + opt_member_v("contact"@, status_value_v(r, "contactSensor"@, "contact"@))
        + opt_member_v("sound_detection"@, sound_v(r)) + opt_member_v(
        "battery"@,
        status_value_v(r, "battery"@, "battery"@),
    )
}

/// Reads a sensor: presence, motion, temperature, humidity, illuminance, contact, sound,
/// battery.
pub struct GetSensorDataTool<'a> {
    pub client: &'a SmartThingsClient,
}

impl<'a> GetSensorDataTool<'a> {
    /// The plan: one read of the device's status.
    pub open spec fn plan_v(input: GetSensorDataInput) -> Result<Seq<ApiRequestV>, Seq<char>> {
        Ok(seq![status_v(input.device_id@)])
    }

    /// The plan.
    pub fn plan(&self, input: &GetSensorDataInput) -> (r: Result<Vec<ApiRequest>, String>)
        ensures
            plan_view(r) == Self::plan_v(*input),
    {
        single(status_request(self.client, &input.device_id))
    }

    /// The result: the readings that the device reports.
    pub open spec fn finish_v(input: GetSensorDataInput, replies: Seq<ResponseV>) -> ToolResultV {
        ok_v(JsonV::Object(readings_v(replies[0])))
    }

    /// The result.
    pub fn finish(&self, input: &GetSensorDataInput, replies: &Vec<Response>) -> (r: ToolResult)
        requires
            replies.len() == 1,
        ensures
            r@ == Self::finish_v(*input, responses_view(replies@)),
    {
        let r0 = &replies[0];
        let ghost rv = r0@;
        let mut data: Vec<(String, Json)> = Vec::new();
        assert(entries_view(data@) =~= Seq::empty());
        push_opt_member(&mut data, "presence", status_value(r0, "presenceSensor", "presence"));
        push_opt_member(&mut data, "motion", status_value(r0, "motionSensor", "motion"));
        if status_value(r0, "temperatureMeasurement", "temperature").is_some() {
            let t = temperature(r0);
            push_opt_member(&mut data, "temperature", Some(&t));
        }
        push_opt_member(&mut data, "humidity", status_value(r0, "relativeHumidityMeasurement", "humidity"));
        push_opt_member(&mut data, "illuminance", status_value(r0, "illuminanceMeasurement", "illuminance"));
        push_opt_member(&mut data, "contact", status_value(r0, "contactSensor", "contact"));
        let sound = match status_value(r0, "soundDetection", "soundDetected") {
            Some(v) => Some(v),
            None => status_value(r0, "soundDetection", "soundDetectionState"),
        };
        push_opt_member(&mut data, "sound_detection", sound);
        push_opt_member(&mut data, "battery", status_value(r0, "battery", "battery"));
        assert(entries_view(data@) =~= readings_v(rv));
        ToolResult::ok(Json::Object(data))
    }
}

} // verus!
