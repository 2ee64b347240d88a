use vstd::prelude::*;

use crate::client::{responses_view, status_v, ApiRequest, ApiRequestV, Response, ResponseV, SmartThingsClient};
use crate::json::{entries_view, member, opt_get, or_null, or_null_of, Json, JsonV};
use crate::my_devices::energy::status_request;
use crate::plan::{plan_view, single, status_attribute, status_attribute_v, status_value, status_value_v};
use crate::schemas::my_devices::OvenStatusInput;
use crate::tool::{ok_v, ToolResult, ToolResultV};

verus! {

/// Reads an oven's mode, operating state and temperature.
pub struct OvenStatusTool<'a> {
    pub client: &'a SmartThingsClient,
}

/// `{"value", "unit"}` of the `temperature` attribute of `temperatureMeasurement`.
pub open spec fn temperature_v(r: ResponseV) -> JsonV {
    JsonV::Object(
        seq![
            ("value"@, or_null(status_value_v(r, "temperatureMeasurement"@, "temperature"@))),
            (
                "unit"@,
                or_null(opt_get(status_attribute_v(r, "temperatureMeasurement"@, "temperature"@), "unit"@)),
            ),
        ],
    )
}

/// `{"value", "unit"}` of the `temperature` attribute of `temperatureMeasurement`.
pub fn temperature(r: &Response) -> (j: Json)
    ensures
        j@ == temperature_v(r@),
{
    let unit = match status_attribute(r, "temperatureMeasurement", "temperature") {
        Some(a) => a.get("unit"),
        None => None,
    };
    let v = vec![
        member("value", or_null_of(status_value(r, "temperatureMeasurement", "temperature"))),
        member("unit", or_null_of(unit)),
    ];
    assert(entries_view(v@) =~= temperature_v(r@)->Object_0);
    Json::Object(v)
}

impl<'a> OvenStatusTool<'a> {
    /// The plan: one read of the device's status.
    pub open spec fn plan_v(input: OvenStatusInput) -> Result<Seq<ApiRequestV>, Seq<char>> {
        Ok(seq![status_v(input.device_id@)])
    }

    /// The plan.
    pub fn plan(&self, input: &OvenStatusInput) -> (r: Result<Vec<ApiRequest>, String>)
        ensures
            plan_view(r) == Self::plan_v(*input),
    {
        single(status_request(self.client, &input.device_id))
    }

    /// The result: `{"oven_mode", "oven_operating_state", "temperature": {"value", "unit"}}`.
    pub open spec fn finish_v(input: OvenStatusInput, replies: Seq<ResponseV>) -> ToolResultV {
        ok_v(
            JsonV::Object(
                seq![
                    ("oven_mode"@, or_null(status_value_v(replies[0], "ovenMode"@, "ovenMode"@))),
                    (
                        "oven_operating_state"@,
                        or_null(status_value_v(replies[0], "ovenOperatingState"@, "machineState"@)),
                    ),
                    ("temperature"@, temperature_v(replies[0])),
                ],
            ),
        )
    }

    /// The result.
    pub fn finish(&self, input: &OvenStatusInput, replies: &Vec<Response>) -> (r: ToolResult)
        requires
            replies.len() == 1,
        ensures
            r@ == Self::finish_v(*input, responses_view(replies@)),
    {
        let r0 = &replies[0];
        let v = vec![
            member("oven_mode", or_null_of(status_value(r0, "ovenMode", "ovenMode"))),
            member("oven_operating_state", or_null_of(status_value(r0, "ovenOperatingState", "machineState"))),
            member("temperature", temperature(r0)),
        ];
        assert(entries_view(v@) =~= Self::finish_v(*input, responses_view(replies@)).data.unwrap()->Object_0);
        ToolResult::ok(Json::Object(v))
    }
}

} // verus!
