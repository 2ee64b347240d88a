use vstd::prelude::*;

use crate::client::{responses_view, status_v, ApiRequest, ApiRequestV, Response, ResponseV, SmartThingsClient};
use crate::json::{entries_view, member, or_null, or_null_of, Json, JsonV};
use crate::plan::{plan_view, single, status_value, status_value_v};
use crate::schemas::my_devices::{GetBatteryInput, GetEnergyDataInput};
use crate::text::concat3;
use crate::tool::{ok_v, ToolResult, ToolResultV};

verus! {

/// The request for a device's status.
pub fn status_request(client: &SmartThingsClient, device_id: &String) -> (r: ApiRequest)
    ensures
        r@ == status_v(device_id@),
{
    let path = concat3("/devices/", device_id.as_str(), "/status");
    client.get(path.as_str(), None)
}

/// Reads a smart plug's power (W) and energy (kWh).
pub struct GetEnergyDataTool<'a> {
    pub client: &'a SmartThingsClient,
}

impl<'a> GetEnergyDataTool<'a> {
    /// The plan: one read of the device's status.
    pub open spec fn plan_v(input: GetEnergyDataInput) -> Result<Seq<ApiRequestV>, Seq<char>> {
        Ok(seq![status_v(input.device_id@)])
    }

    /// The plan.
    pub fn plan(&self, input: &GetEnergyDataInput) -> (r: Result<Vec<ApiRequest>, String>)
        ensures
            plan_view(r) == Self::plan_v(*input),
    {
        single(status_request(self.client, &input.device_id))
    }

    /// The result: `{"power_w": powerMeter.power, "energy_kwh": energyMeter.energy}`.
    pub open spec fn finish_v(input: GetEnergyDataInput, replies: Seq<ResponseV>) -> ToolResultV {
        ok_v(
            JsonV::Object(
                seq![
                    ("power_w"@, or_null(status_value_v(replies[0], "powerMeter"@, "power"@))),
                    ("energy_kwh"@, or_null(status_value_v(replies[0], "energyMeter"@, "energy"@))),
                ],
            ),
        )
    }

    /// The result.
    pub fn finish(&self, input: &GetEnergyDataInput, replies: &Vec<Response>) -> (r: ToolResult)
        requires
            replies.len() == 1,
        ensures
            r@ == Self::finish_v(*input, responses_view(replies@)),
    {
        let v = vec![
            member("power_w", or_null_of(status_value(&replies[0], "powerMeter", "power"))),
            member("energy_kwh", or_null_of(status_value(&replies[0], "energyMeter", "energy"))),
        ];
        assert(entries_view(v@) =~= Self::finish_v(*input, responses_view(replies@)).data.unwrap()->Object_0);
        ToolResult::ok(Json::Object(v))
    }
}

/// Reads a battery-powered device's charge.
pub struct GetBatteryStatusTool<'a> {
    pub client: &'a SmartThingsClient,
}

impl<'a> GetBatteryStatusTool<'a> {
    /// The plan: one read of the device's status.
    pub open spec fn plan_v(input: GetBatteryInput) -> Result<Seq<ApiRequestV>, Seq<char>> {
        Ok(seq![status_v(input.device_id@)])
    }

    /// The plan.
    pub fn plan(&self, input: &GetBatteryInput) -> (r: Result<Vec<ApiRequest>, String>)
        ensures
            plan_view(r) == Self::plan_v(*input),
    {
        single(status_request(self.client, &input.device_id))
    }

    /// The result: `{"battery_percent": battery.battery}`.
    pub open spec fn finish_v(input: GetBatteryInput, replies: Seq<ResponseV>) -> ToolResultV {
        ok_v(JsonV::Object(seq![("battery_percent"@, or_null(status_value_v(replies[0], "battery"@, "battery"@)))]))
    }

    /// The result.
    pub fn finish(&self, input: &GetBatteryInput, replies: &Vec<Response>) -> (r: ToolResult)
        requires
            replies.len() == 1,
        ensures
            r@ == Self::finish_v(*input, responses_view(replies@)),
    {
        let v = vec![member("battery_percent", or_null_of(status_value(&replies[0], "battery", "battery")))];
        assert(entries_view(v@) =~= Self::finish_v(*input, responses_view(replies@)).data.unwrap()->Object_0);
        ToolResult::ok(Json::Object(v))
    }
}

} // verus!
