//! What the reading tools report of a status reply, stated over the reply itself: each
//! reading is the `value` of one attribute of one capability of the `main` component.
use vstd::prelude::*;

use crate::client::ResponseV;
use crate::json::{entries_get, int_v, opt_get, or_null, jstr, JsonV};

verus! {

/// Attribute `attribute` of capability `capability` of the `main` component of a status
/// reply: `components.main.<capability>.<attribute>`.
pub open spec fn main_attribute(r: ResponseV, capability: Seq<char>, attribute: Seq<char>) -> Option<JsonV> {
    opt_get(opt_get(opt_get(entries_get(r.fields, "components"@), "main"@), capability), attribute)
}

/// The `value` of that attribute.
pub open spec fn main_value(r: ResponseV, capability: Seq<char>, attribute: Seq<char>) -> Option<JsonV> {
    opt_get(main_attribute(r, capability, attribute), "value"@)
}

/// The member `key` of a tool's data, where the data is an object.
pub open spec fn data_member(data: Option<JsonV>, key: Seq<char>) -> Option<JsonV> {
    match data {
        Some(d) => d.get(key),
        None => None,
    }
}

/// The energy data of a device are `power_w`, the value of `powerMeter.power`, and
/// `energy_kwh`, the value of `energyMeter.energy`, each `null` where the device reports none.
pub proof fn law_energy_reading(input: crate::schemas::my_devices::GetEnergyDataInput, replies: Seq<ResponseV>)
    requires
        replies.len() == 1,
    ensures
        crate::my_devices::energy::GetEnergyDataTool::finish_v(input, replies).success,
        data_member(crate::my_devices::energy::GetEnergyDataTool::finish_v(input, replies).data, "power_w"@) == Some(or_null(main_value(replies[0], "powerMeter"@, "power"@))),
        data_member(crate::my_devices::energy::GetEnergyDataTool::finish_v(input, replies).data, "energy_kwh"@) == Some(or_null(main_value(replies[0], "energyMeter"@, "energy"@))),
{
    reveal_strlit("power_w");
    reveal_strlit("energy_kwh");
    assert("power_w"@.len() == 7 && "energy_kwh"@.len() == 10);
    reveal_with_fuel(entries_get, 3);
}

/// The battery of a device is `battery_percent`, the value of `battery.battery` (`null`
/// where it reports none).
pub proof fn law_battery_reading(input: crate::schemas::my_devices::GetBatteryInput, replies: Seq<ResponseV>)
    requires
        replies.len() == 1,
    ensures
        crate::my_devices::energy::GetBatteryStatusTool::finish_v(input, replies).success,
        data_member(crate::my_devices::energy::GetBatteryStatusTool::finish_v(input, replies).data, "battery_percent"@) == Some(or_null(main_value(replies[0], "battery"@, "battery"@))),
{
    reveal_strlit("battery_percent");
    assert("battery_percent"@.len() == 15);
    reveal_with_fuel(entries_get, 2);
}

/// A smoke detector reports `smoke`, the value of `smokeDetector.smoke` (`null` where it reports
/// none), and the device asked about.
pub proof fn law_smoke_reading(input: crate::schemas::extended_devices::SafetySensorInput, replies: Seq<ResponseV>)
    requires
        replies.len() == 1,
    ensures
        crate::extended_devices::safety_sensor::SmokeDetectorTool::finish_v(input, replies).success,
        data_member(crate::extended_devices::safety_sensor::SmokeDetectorTool::finish_v(input, replies).data, "smoke"@) == Some(or_null(main_value(replies[0], "smokeDetector"@, "smoke"@))),
        data_member(crate::extended_devices::safety_sensor::SmokeDetectorTool::finish_v(input, replies).data, "device_id"@) == Some(jstr(input.device_id@)),
{
    reveal_strlit("smoke");
    reveal_strlit("device_id");
    assert("smoke"@.len() == 5 && "device_id"@.len() == 9);
    reveal_with_fuel(entries_get, 3);
}

/// A carbon monoxide detector reports `carbon_monoxide`, the value of `carbonMonoxideDetector.carbonMonoxide` (`null` where it reports
/// none), and the device asked about.
pub proof fn law_co_reading(input: crate::schemas::extended_devices::SafetySensorInput, replies: Seq<ResponseV>)
    requires
        replies.len() == 1,
    ensures
        crate::extended_devices::safety_sensor::CoDetectorTool::finish_v(input, replies).success,
        data_member(crate::extended_devices::safety_sensor::CoDetectorTool::finish_v(input, replies).data, "carbon_monoxide"@) == Some(or_null(main_value(replies[0], "carbonMonoxideDetector"@, "carbonMonoxide"@))),
        data_member(crate::extended_devices::safety_sensor::CoDetectorTool::finish_v(input, replies).data, "device_id"@) == Some(jstr(input.device_id@)),
{
    reveal_strlit("carbon_monoxide");
    reveal_strlit("device_id");
    assert("carbon_monoxide"@.len() == 15 && "device_id"@.len() == 9);
    reveal_with_fuel(entries_get, 3);
}

/// A water leak sensor reports `water`, the value of `waterSensor.water` (`null` where it reports
/// none), and the device asked about.
pub proof fn law_water_reading(input: crate::schemas::extended_devices::SafetySensorInput, replies: Seq<ResponseV>)
    requires
        replies.len() == 1,
    ensures
        crate::extended_devices::safety_sensor::WaterLeakTool::finish_v(input, replies).success,
        data_member(crate::extended_devices::safety_sensor::WaterLeakTool::finish_v(input, replies).data, "water"@) == Some(or_null(main_value(replies[0], "waterSensor"@, "water"@))),
        data_member(crate::extended_devices::safety_sensor::WaterLeakTool::finish_v(input, replies).data, "device_id"@) == Some(jstr(input.device_id@)),
{
    reveal_strlit("water");
    reveal_strlit("device_id");
    assert("water"@.len() == 5 && "device_id"@.len() == 9);
    reveal_with_fuel(entries_get, 3);
}

/// An oven reports `oven_mode`, the value of `ovenMode.ovenMode`, `oven_operating_state`,
/// the value of `ovenOperatingState.machineState`, and `temperature` with the `value` and
/// `unit` of `temperatureMeasurement.temperature` (`null` for what it does not report).
pub proof fn law_oven_reading(input: crate::schemas::my_devices::OvenStatusInput, replies: Seq<ResponseV>)
    requires
        replies.len() == 1,
    ensures
        crate::my_devices::oven::OvenStatusTool::finish_v(input, replies).success,
        data_member(crate::my_devices::oven::OvenStatusTool::finish_v(input, replies).data, "oven_mode"@) == Some(or_null(main_value(replies[0], "ovenMode"@, "ovenMode"@))),
        data_member(crate::my_devices::oven::OvenStatusTool::finish_v(input, replies).data, "oven_operating_state"@) == Some(or_null(main_value(replies[0], "ovenOperatingState"@, "machineState"@))),
        data_member(crate::my_devices::oven::OvenStatusTool::finish_v(input, replies).data, "temperature"@) == Some(JsonV::Object(seq![("value"@, or_null(main_value(replies[0], "temperatureMeasurement"@, "temperature"@))), ("unit"@, or_null(opt_get(main_attribute(replies[0], "temperatureMeasurement"@, "temperature"@), "unit"@)))])),
{
    reveal_strlit("oven_mode");
    reveal_strlit("oven_operating_state");
    reveal_strlit("temperature");
    assert("oven_mode"@.len() == 9 && "oven_operating_state"@.len() == 20 && "temperature"@.len() == 11);
    reveal_with_fuel(entries_get, 4);
}

/// The weather of a location is the reply itself, as an object.
pub proof fn law_weather_is_the_reply(input: crate::schemas::common::GetWeatherInput, replies: Seq<ResponseV>)
    requires
        replies.len() == 1,
    ensures
        crate::common_tools::GetWeatherTool::finish_v(input, replies).success,
        crate::common_tools::GetWeatherTool::finish_v(input, replies).data == Some(JsonV::Object(replies[0].fields)),
{
}


/// The member `k` of a list of members followed by others: from the first list where it
/// is there, else from the others.
proof fn lemma_get_concat(a: Seq<(Seq<char>, JsonV)>, b: Seq<(Seq<char>, JsonV)>, k: Seq<char>)
    ensures
        entries_get(a + b, k) == if entries_get(a, k) is Some {
            entries_get(a, k)
        } else {
            entries_get(b, k)
        },
    decreases a.len(),
{
    if a.len() == 0 {
        assert(a + b =~= b);
    } else {
        assert((a + b).drop_first() =~= a.drop_first() + b);
        assert((a + b)[0] == a[0]);
        lemma_get_concat(a.drop_first(), b, k);
    }
}

/// The member `k` of at most one member `key`.
proof fn lemma_get_member(key: Seq<char>, o: Option<JsonV>, k: Seq<char>)
    ensures
        entries_get(crate::plan::opt_member_v(key, o), k) == if k == key {
            o
        } else {
            None
        },
{
    reveal_with_fuel(entries_get, 2);
}

/// The readings of a sensor are the values of its main component's attributes:
/// `presence` of `presenceSensor.presence`, `motion` of `motionSensor.motion`,
/// `temperature` the `value` and `unit` of `temperatureMeasurement.temperature`,
/// `humidity` of `relativeHumidityMeasurement.humidity`, `illuminance` of
/// `illuminanceMeasurement.illuminance`, `contact` of `contactSensor.contact`,
/// `sound_detection` of `soundDetection.soundDetected` (else `soundDetectionState`), and
/// `battery` of `battery.battery`; each present exactly where the device reports it.
pub proof fn law_sensor_readings(input: crate::schemas::my_devices::GetSensorDataInput, replies: Seq<ResponseV>)
    requires
        replies.len() == 1,
    ensures
        crate::my_devices::sensor::GetSensorDataTool::finish_v(input, replies).success,
        data_member(crate::my_devices::sensor::GetSensorDataTool::finish_v(input, replies).data, "presence"@) == main_value(replies[0], "presenceSensor"@, "presence"@),
        data_member(crate::my_devices::sensor::GetSensorDataTool::finish_v(input, replies).data, "motion"@) == main_value(replies[0], "motionSensor"@, "motion"@),
        data_member(crate::my_devices::sensor::GetSensorDataTool::finish_v(input, replies).data, "temperature"@) == (if main_value(replies[0], "temperatureMeasurement"@, "temperature"@) is Some { Some(JsonV::Object(seq![("value"@, or_null(main_value(replies[0], "temperatureMeasurement"@, "temperature"@))), ("unit"@, or_null(opt_get(main_attribute(replies[0], "temperatureMeasurement"@, "temperature"@), "unit"@)))])) } else { None }),
        data_member(crate::my_devices::sensor::GetSensorDataTool::finish_v(input, replies).data, "humidity"@) == main_value(replies[0], "relativeHumidityMeasurement"@, "humidity"@),
        data_member(crate::my_devices::sensor::GetSensorDataTool::finish_v(input, replies).data, "illuminance"@) == main_value(replies[0], "illuminanceMeasurement"@, "illuminance"@),
        data_member(crate::my_devices::sensor::GetSensorDataTool::finish_v(input, replies).data, "contact"@) == main_value(replies[0], "contactSensor"@, "contact"@),
        data_member(crate::my_devices::sensor::GetSensorDataTool::finish_v(input, replies).data, "sound_detection"@) == (match main_value(replies[0], "soundDetection"@, "soundDetected"@) { Some(v) => Some(v), None => main_value(replies[0], "soundDetection"@, "soundDetectionState"@) }),
        data_member(crate::my_devices::sensor::GetSensorDataTool::finish_v(input, replies).data, "battery"@) == main_value(replies[0], "battery"@, "battery"@),
{
    reveal_strlit("presence");
    reveal_strlit("motion");
    reveal_strlit("temperature");
    reveal_strlit("humidity");
    reveal_strlit("illuminance");
    reveal_strlit("contact");
    reveal_strlit("sound_detection");
    reveal_strlit("battery");
    assert("presence"@.len() == 8 && "motion"@.len() == 6 && "temperature"@.len() == 11 && "humidity"@.len() == 8 && "illuminance"@.len() == 11 && "contact"@.len() == 7 && "sound_detection"@.len() == 15 && "battery"@.len() == 7);
    assert("presence"@[0] != "humidity"@[0] && "temperature"@[0] != "illuminance"@[0] && "contact"@[0] != "battery"@[0]);
    let p0 = crate::plan::opt_member_v("presence"@, main_value(replies[0], "presenceSensor"@, "presence"@));
    let p1 = crate::plan::opt_member_v("motion"@, main_value(replies[0], "motionSensor"@, "motion"@));
    let p2 = crate::plan::opt_member_v("temperature"@, (if main_value(replies[0], "temperatureMeasurement"@, "temperature"@) is Some { Some(JsonV::Object(seq![("value"@, or_null(main_value(replies[0], "temperatureMeasurement"@, "temperature"@))), ("unit"@, or_null(opt_get(main_attribute(replies[0], "temperatureMeasurement"@, "temperature"@), "unit"@)))])) } else { None }));
    let p3 = crate::plan::opt_member_v("humidity"@, main_value(replies[0], "relativeHumidityMeasurement"@, "humidity"@));
    let p4 = crate::plan::opt_member_v("illuminance"@, main_value(replies[0], "illuminanceMeasurement"@, "illuminance"@));
    let p5 = crate::plan::opt_member_v("contact"@, main_value(replies[0], "contactSensor"@, "contact"@));
    let p6 = crate::plan::opt_member_v("sound_detection"@, (match main_value(replies[0], "soundDetection"@, "soundDetected"@) { Some(v) => Some(v), None => main_value(replies[0], "soundDetection"@, "soundDetectionState"@) }));
    let p7 = crate::plan::opt_member_v("battery"@, main_value(replies[0], "battery"@, "battery"@));
    let s0 = p0;
    let s1 = s0 + p1;
    let s2 = s1 + p2;
    let s3 = s2 + p3;
    let s4 = s3 + p4;
    let s5 = s4 + p5;
    let s6 = s5 + p6;
    let s7 = s6 + p7;
    assert(crate::my_devices::sensor::readings_v(replies[0]) == s7);
    assert forall|k: Seq<char>| #[trigger] entries_get(s7, k) == (
        if k == "presence"@ { entries_get(p0, k) } else
        if k == "motion"@ { entries_get(p1, k) } else
        if k == "temperature"@ { entries_get(p2, k) } else
        if k == "humidity"@ { entries_get(p3, k) } else
        if k == "illuminance"@ { entries_get(p4, k) } else
        if k == "contact"@ { entries_get(p5, k) } else
        if k == "sound_detection"@ { entries_get(p6, k) } else
        if k == "battery"@ { entries_get(p7, k) } else { None }
    ) by {
        lemma_get_member("presence"@, main_value(replies[0], "presenceSensor"@, "presence"@), k);
        lemma_get_member("motion"@, main_value(replies[0], "motionSensor"@, "motion"@), k);
        lemma_get_member("temperature"@, (if main_value(replies[0], "temperatureMeasurement"@, "temperature"@) is Some { Some(JsonV::Object(seq![("value"@, or_null(main_value(replies[0], "temperatureMeasurement"@, "temperature"@))), ("unit"@, or_null(opt_get(main_attribute(replies[0], "temperatureMeasurement"@, "temperature"@), "unit"@)))])) } else { None }), k);
        lemma_get_member("humidity"@, main_value(replies[0], "relativeHumidityMeasurement"@, "humidity"@), k);
        lemma_get_member("illuminance"@, main_value(replies[0], "illuminanceMeasurement"@, "illuminance"@), k);
        lemma_get_member("contact"@, main_value(replies[0], "contactSensor"@, "contact"@), k);
        lemma_get_member("sound_detection"@, (match main_value(replies[0], "soundDetection"@, "soundDetected"@) { Some(v) => Some(v), None => main_value(replies[0], "soundDetection"@, "soundDetectionState"@) }), k);
        lemma_get_member("battery"@, main_value(replies[0], "battery"@, "battery"@), k);
        lemma_get_concat(s0, p1, k);
        lemma_get_concat(s1, p2, k);
        lemma_get_concat(s2, p3, k);
        lemma_get_concat(s3, p4, k);
        lemma_get_concat(s4, p5, k);
        lemma_get_concat(s5, p6, k);
        lemma_get_concat(s6, p7, k);
    }
}


/// Switching reports the device and the state asked for.
pub proof fn law_switch_result(input: crate::schemas::my_devices::SwitchPowerInput, replies: Seq<ResponseV>)
    ensures
        crate::my_devices::switch::SwitchPowerTool::finish_v(input, replies).success,
        data_member(crate::my_devices::switch::SwitchPowerTool::finish_v(input, replies).data, "device_id"@) == Some(jstr(input.device_id@)),
        data_member(crate::my_devices::switch::SwitchPowerTool::finish_v(input, replies).data, "state"@) == Some(jstr(input.state@)),
{
    reveal_strlit("device_id");
    reveal_strlit("state");
    assert("device_id"@.len() == 9 && "state"@.len() == 5);
    reveal_with_fuel(entries_get, 3);
}

/// Turning a TV on or off reports the device and the state asked for.
pub proof fn law_tv_power_result(input: crate::schemas::my_devices::TvPowerInput, replies: Seq<ResponseV>)
    ensures
        crate::my_devices::tv::TvPowerTool::finish_v(input, replies).success,
        data_member(crate::my_devices::tv::TvPowerTool::finish_v(input, replies).data, "device_id"@) == Some(jstr(input.device_id@)),
        data_member(crate::my_devices::tv::TvPowerTool::finish_v(input, replies).data, "state"@) == Some(jstr(input.state@)),
{
    reveal_strlit("device_id");
    reveal_strlit("state");
    assert("device_id"@.len() == 9 && "state"@.len() == 5);
    reveal_with_fuel(entries_get, 3);
}

/// Muting reports the device and the state asked for.
pub proof fn law_tv_mute_result(input: crate::schemas::my_devices::TvMuteInput, replies: Seq<ResponseV>)
    ensures
        crate::my_devices::tv::TvMuteTool::finish_v(input, replies).success,
        data_member(crate::my_devices::tv::TvMuteTool::finish_v(input, replies).data, "device_id"@) == Some(jstr(input.device_id@)),
        data_member(crate::my_devices::tv::TvMuteTool::finish_v(input, replies).data, "state"@) == Some(jstr(input.state@)),
{
    reveal_strlit("device_id");
    reveal_strlit("state");
    assert("device_id"@.len() == 9 && "state"@.len() == 5);
    reveal_with_fuel(entries_get, 3);
}

/// A TV volume action reports the device, the action and the level given (`null` for none).
pub proof fn law_tv_volume_result(input: crate::schemas::my_devices::TvVolumeInput, replies: Seq<ResponseV>)
    ensures
        crate::my_devices::tv::TvVolumeTool::finish_v(input, replies).success,
        data_member(crate::my_devices::tv::TvVolumeTool::finish_v(input, replies).data, "device_id"@) == Some(jstr(input.device_id@)),
        data_member(crate::my_devices::tv::TvVolumeTool::finish_v(input, replies).data, "action"@) == Some(jstr(input.action@)),
        data_member(crate::my_devices::tv::TvVolumeTool::finish_v(input, replies).data, "volume"@) == Some((match input.volume { Some(v) => int_v(v as int), None => JsonV::Null })),
{
    reveal_strlit("device_id");
    reveal_strlit("action");
    reveal_strlit("volume");
    assert("device_id"@.len() == 9 && "action"@.len() == 6 && "volume"@.len() == 6);
    assert("action"@[0] != "volume"@[0]);
    reveal_with_fuel(entries_get, 4);
}

/// A media volume action reports the device, the action and the level given (`null` for none).
pub proof fn law_media_volume_result(input: crate::schemas::my_devices::MediaVolumeInput, replies: Seq<ResponseV>)
    ensures
        crate::my_devices::media::MediaVolumeTool::finish_v(input, replies).success,
        data_member(crate::my_devices::media::MediaVolumeTool::finish_v(input, replies).data, "device_id"@) == Some(jstr(input.device_id@)),
        data_member(crate::my_devices::media::MediaVolumeTool::finish_v(input, replies).data, "action"@) == Some(jstr(input.action@)),
        data_member(crate::my_devices::media::MediaVolumeTool::finish_v(input, replies).data, "volume"@) == Some((match input.volume { Some(v) => int_v(v as int), None => JsonV::Null })),
{
    reveal_strlit("device_id");
    reveal_strlit("action");
    reveal_strlit("volume");
    assert("device_id"@.len() == 9 && "action"@.len() == 6 && "volume"@.len() == 6);
    assert("action"@[0] != "volume"@[0]);
    reveal_with_fuel(entries_get, 4);
}

/// A channel action reports the device, the action and the channel given (`null` for none).
pub proof fn law_tv_channel_result(input: crate::schemas::my_devices::TvChannelInput, replies: Seq<ResponseV>)
    ensures
        crate::my_devices::tv::TvChannelTool::finish_v(input, replies).success,
        data_member(crate::my_devices::tv::TvChannelTool::finish_v(input, replies).data, "device_id"@) == Some(jstr(input.device_id@)),
        data_member(crate::my_devices::tv::TvChannelTool::finish_v(input, replies).data, "action"@) == Some(jstr(input.action@)),
        data_member(crate::my_devices::tv::TvChannelTool::finish_v(input, replies).data, "channel"@) == Some((match input.channel { Some(t) => jstr(t@), None => JsonV::Null })),
{
    reveal_strlit("device_id");
    reveal_strlit("action");
    reveal_strlit("channel");
    assert("device_id"@.len() == 9 && "action"@.len() == 6 && "channel"@.len() == 7);
    reveal_with_fuel(entries_get, 4);
}

/// Choosing an input reports the device and the source.
pub proof fn law_tv_input_result(input: crate::schemas::my_devices::TvInputInput, replies: Seq<ResponseV>)
    ensures
        crate::my_devices::tv::TvInputTool::finish_v(input, replies).success,
        data_member(crate::my_devices::tv::TvInputTool::finish_v(input, replies).data, "device_id"@) == Some(jstr(input.device_id@)),
        data_member(crate::my_devices::tv::TvInputTool::finish_v(input, replies).data, "source"@) == Some(jstr(input.source@)),
{
    reveal_strlit("device_id");
    reveal_strlit("source");
    assert("device_id"@.len() == 9 && "source"@.len() == 6);
    reveal_with_fuel(entries_get, 3);
}

/// A playback action reports the device and the action.
pub proof fn law_media_playback_result(input: crate::schemas::my_devices::MediaPlaybackInput, replies: Seq<ResponseV>)
    ensures
        crate::my_devices::media::MediaPlaybackTool::finish_v(input, replies).success,
        data_member(crate::my_devices::media::MediaPlaybackTool::finish_v(input, replies).data, "device_id"@) == Some(jstr(input.device_id@)),
        data_member(crate::my_devices::media::MediaPlaybackTool::finish_v(input, replies).data, "action"@) == Some(jstr(input.action@)),
{
    reveal_strlit("device_id");
    reveal_strlit("action");
    assert("device_id"@.len() == 9 && "action"@.len() == 6);
    reveal_with_fuel(entries_get, 3);
}

/// Setting the brightness reports the device and the level.
pub proof fn law_brightness_result(input: crate::schemas::my_devices::SetBrightnessInput, replies: Seq<ResponseV>)
    ensures
        crate::my_devices::light::SetBrightnessTool::finish_v(input, replies).success,
        data_member(crate::my_devices::light::SetBrightnessTool::finish_v(input, replies).data, "device_id"@) == Some(jstr(input.device_id@)),
        data_member(crate::my_devices::light::SetBrightnessTool::finish_v(input, replies).data, "level"@) == Some(int_v(input.level as int)),
{
    reveal_strlit("device_id");
    reveal_strlit("level");
    assert("device_id"@.len() == 9 && "level"@.len() == 5);
    reveal_with_fuel(entries_get, 3);
}

/// Setting the colour reports the device, the hue and the saturation.
pub proof fn law_color_result(input: crate::schemas::my_devices::SetColorInput, replies: Seq<ResponseV>)
    ensures
        crate::my_devices::light::SetColorTool::finish_v(input, replies).success,
        data_member(crate::my_devices::light::SetColorTool::finish_v(input, replies).data, "device_id"@) == Some(jstr(input.device_id@)),
        data_member(crate::my_devices::light::SetColorTool::finish_v(input, replies).data, "hue"@) == Some(int_v(input.hue as int)),
        data_member(crate::my_devices::light::SetColorTool::finish_v(input, replies).data, "saturation"@) == Some(int_v(input.saturation as int)),
{
    reveal_strlit("device_id");
    reveal_strlit("hue");
    reveal_strlit("saturation");
    assert("device_id"@.len() == 9 && "hue"@.len() == 3 && "saturation"@.len() == 10);
    reveal_with_fuel(entries_get, 4);
}

/// Setting the colour temperature reports the device and the temperature.
pub proof fn law_color_temperature_result(input: crate::schemas::my_devices::SetColorTemperatureInput, replies: Seq<ResponseV>)
    ensures
        crate::my_devices::light::SetColorTemperatureTool::finish_v(input, replies).success,
        data_member(crate::my_devices::light::SetColorTemperatureTool::finish_v(input, replies).data, "device_id"@) == Some(jstr(input.device_id@)),
        data_member(crate::my_devices::light::SetColorTemperatureTool::finish_v(input, replies).data, "temperature"@) == Some(int_v(input.temperature as int)),
{
    reveal_strlit("device_id");
    reveal_strlit("temperature");
    assert("device_id"@.len() == 9 && "temperature"@.len() == 11);
    reveal_with_fuel(entries_get, 3);
}

/// An alarm action reports the device, the action and the reply as `result`.
pub proof fn law_alarm_result(input: crate::schemas::extended_devices::AlarmInput, replies: Seq<ResponseV>)
    requires
        replies.len() >= 1,
    ensures
        crate::extended_devices::security::AlarmTool::finish_v(input, replies).success,
        data_member(crate::extended_devices::security::AlarmTool::finish_v(input, replies).data, "device_id"@) == Some(jstr(input.device_id@)),
        data_member(crate::extended_devices::security::AlarmTool::finish_v(input, replies).data, "action"@) == Some(jstr(input.action@)),
        data_member(crate::extended_devices::security::AlarmTool::finish_v(input, replies).data, "result"@) == Some(JsonV::Object(replies[0].fields)),
{
    reveal_strlit("device_id");
    reveal_strlit("action");
    reveal_strlit("result");
    assert("device_id"@.len() == 9 && "action"@.len() == 6 && "result"@.len() == 6);
    assert("action"@[0] != "result"@[0]);
    reveal_with_fuel(entries_get, 4);
}

/// A security system action reports the device, the action and the reply as `result`.
pub proof fn law_security_system_result(input: crate::schemas::extended_devices::SecuritySystemInput, replies: Seq<ResponseV>)
    requires
        replies.len() >= 1,
    ensures
        crate::extended_devices::security::SecuritySystemTool::finish_v(input, replies).success,
        data_member(crate::extended_devices::security::SecuritySystemTool::finish_v(input, replies).data, "device_id"@) == Some(jstr(input.device_id@)),
        data_member(crate::extended_devices::security::SecuritySystemTool::finish_v(input, replies).data, "action"@) == Some(jstr(input.action@)),
        data_member(crate::extended_devices::security::SecuritySystemTool::finish_v(input, replies).data, "result"@) == Some(JsonV::Object(replies[0].fields)),
{
    reveal_strlit("device_id");
    reveal_strlit("action");
    reveal_strlit("result");
    assert("device_id"@.len() == 9 && "action"@.len() == 6 && "result"@.len() == 6);
    assert("action"@[0] != "result"@[0]);
    reveal_with_fuel(entries_get, 4);
}

/// A garage door action reports the device, the action and the reply as `result`.
pub proof fn law_garage_door_result(input: crate::schemas::extended_devices::GarageDoorInput, replies: Seq<ResponseV>)
    requires
        replies.len() >= 1,
    ensures
        crate::extended_devices::door_valve::GarageDoorTool::finish_v(input, replies).success,
        data_member(crate::extended_devices::door_valve::GarageDoorTool::finish_v(input, replies).data, "device_id"@) == Some(jstr(input.device_id@)),
        data_member(crate::extended_devices::door_valve::GarageDoorTool::finish_v(input, replies).data, "action"@) == Some(jstr(input.action@)),
        data_member(crate::extended_devices::door_valve::GarageDoorTool::finish_v(input, replies).data, "result"@) == Some(JsonV::Object(replies[0].fields)),
{
    reveal_strlit("device_id");
    reveal_strlit("action");
    reveal_strlit("result");
    assert("device_id"@.len() == 9 && "action"@.len() == 6 && "result"@.len() == 6);
    assert("action"@[0] != "result"@[0]);
    reveal_with_fuel(entries_get, 4);
}

/// A valve action reports the device, the action and the reply as `result`.
pub proof fn law_valve_result(input: crate::schemas::extended_devices::ValveInput, replies: Seq<ResponseV>)
    requires
        replies.len() >= 1,
    ensures
        crate::extended_devices::door_valve::ValveTool::finish_v(input, replies).success,
        data_member(crate::extended_devices::door_valve::ValveTool::finish_v(input, replies).data, "device_id"@) == Some(jstr(input.device_id@)),
        data_member(crate::extended_devices::door_valve::ValveTool::finish_v(input, replies).data, "action"@) == Some(jstr(input.action@)),
        data_member(crate::extended_devices::door_valve::ValveTool::finish_v(input, replies).data, "result"@) == Some(JsonV::Object(replies[0].fields)),
{
    reveal_strlit("device_id");
    reveal_strlit("action");
    reveal_strlit("result");
    assert("device_id"@.len() == 9 && "action"@.len() == 6 && "result"@.len() == 6);
    assert("action"@[0] != "result"@[0]);
    reveal_with_fuel(entries_get, 4);
}

/// A command reports the device and the reply as `result`.
pub proof fn law_send_command_result(input: crate::schemas::common::SendCommandInput, replies: Seq<ResponseV>)
    requires
        replies.len() >= 1,
    ensures
        crate::common_tools::SendCommandTool::finish_v(input, replies).success,
        data_member(crate::common_tools::SendCommandTool::finish_v(input, replies).data, "device_id"@) == Some(jstr(input.device_id@)),
        data_member(crate::common_tools::SendCommandTool::finish_v(input, replies).data, "result"@) == Some(JsonV::Object(replies[0].fields)),
{
    reveal_strlit("device_id");
    reveal_strlit("result");
    assert("device_id"@.len() == 9 && "result"@.len() == 6);
    reveal_with_fuel(entries_get, 3);
}

/// Running a scene reports the scene and the reply as `result`.
pub proof fn law_execute_scene_result(input: crate::schemas::common::ExecuteSceneInput, replies: Seq<ResponseV>)
    requires
        replies.len() >= 1,
    ensures
        crate::common_tools::ExecuteSceneTool::finish_v(input, replies).success,
        data_member(crate::common_tools::ExecuteSceneTool::finish_v(input, replies).data, "scene_id"@) == Some(jstr(input.scene_id@)),
        data_member(crate::common_tools::ExecuteSceneTool::finish_v(input, replies).data, "result"@) == Some(JsonV::Object(replies[0].fields)),
{
    reveal_strlit("scene_id");
    reveal_strlit("result");
    assert("scene_id"@.len() == 8 && "result"@.len() == 6);
    reveal_with_fuel(entries_get, 3);
}

/// The tools that report their first reply as it came: locking, the robot vacuum, the
/// washer, dryer and dishwasher, and the refrigerator.
pub proof fn law_first_reply_results(replies: Seq<ResponseV>)
    requires
        replies.len() >= 1,
    ensures
        forall|i: crate::schemas::extended_devices::DoorLockInput|
            #[trigger] crate::extended_devices::lock::DoorLockTool::finish_v(i, replies) == crate::tool::ok_v(JsonV::Object(replies[0].fields)),
        forall|i: crate::schemas::extended_devices::RobotVacuumInput|
            #[trigger] crate::extended_devices::vacuum::RobotVacuumTool::finish_v(i, replies) == crate::tool::ok_v(JsonV::Object(replies[0].fields)),
        forall|i: crate::schemas::extended_devices::WasherInput|
            #[trigger] crate::extended_devices::laundry::WasherTool::finish_v(i, replies) == crate::tool::ok_v(JsonV::Object(replies[0].fields)),
        forall|i: crate::schemas::extended_devices::DryerInput|
            #[trigger] crate::extended_devices::laundry::DryerTool::finish_v(i, replies) == crate::tool::ok_v(JsonV::Object(replies[0].fields)),
        forall|i: crate::schemas::extended_devices::DishwasherInput|
            #[trigger] crate::extended_devices::dishwasher::DishwasherTool::finish_v(i, replies) == crate::tool::ok_v(JsonV::Object(replies[0].fields)),
        forall|i: crate::schemas::extended_devices::RefrigeratorInput|
            #[trigger] crate::extended_devices::refrigerator::RefrigeratorTool::finish_v(i, replies) == crate::tool::ok_v(JsonV::Object(replies[0].fields)),
{
}


/// The member `k` of a list of members where `k` first stands at place `idx`.
proof fn lemma_get_at(e: Seq<(Seq<char>, JsonV)>, k: Seq<char>, idx: int)
    requires
        0 <= idx < e.len(),
        e[idx].0 == k,
        forall|i: int| 0 <= i < idx ==> e[i].0 != k,
    ensures
        entries_get(e, k) == Some(e[idx].1),
    decreases idx,
{
    if idx > 0 {
        lemma_get_at(e.drop_first(), k, idx - 1);
    }
}

/// A list of members none of which is named `k` has no member `k`.
proof fn lemma_get_none(e: Seq<(Seq<char>, JsonV)>, k: Seq<char>)
    requires
        forall|i: int| 0 <= i < e.len() ==> e[i].0 != k,
    ensures
        entries_get(e, k) is None,
    decreases e.len(),
{
    if e.len() > 0 {
        lemma_get_none(e.drop_first(), k);
    }
}

/// Where `k` stands at place `idx` of `keys` and not before, the member `k` of the
/// replies keyed by `keys` is the reply at place `idx`.
proof fn lemma_keyed_index(keys: Seq<Seq<char>>, replies: Seq<ResponseV>, k: Seq<char>, idx: int)
    requires
        0 <= idx < keys.len(),
        keys[idx] == k,
        forall|i: int| 0 <= i < idx ==> keys[i] != k,
    ensures
        crate::plan::keyed_replies_v(keys, replies).get(k) == Some(JsonV::Object(replies[idx].fields)),
{
    let e = crate::plan::keyed_replies_v(keys, replies)->Object_0;
    assert(forall|i: int| 0 <= i < keys.len() ==> #[trigger] e[i] == (keys[i], crate::plan::reply_json_v(replies[i])));
    lemma_get_at(e, k, idx);
}

/// Where `k` is not among `keys`, the replies keyed by `keys` have no member `k`.
proof fn lemma_keyed_absent(keys: Seq<Seq<char>>, replies: Seq<ResponseV>, k: Seq<char>)
    requires
        forall|i: int| 0 <= i < keys.len() ==> keys[i] != k,
    ensures
        crate::plan::keyed_replies_v(keys, replies).get(k) is None,
{
    let e = crate::plan::keyed_replies_v(keys, replies)->Object_0;
    assert(forall|i: int| 0 <= i < keys.len() ==> #[trigger] e[i] == (keys[i], crate::plan::reply_json_v(replies[i])));
    lemma_get_none(e, k);
}

/// An air conditioner reports, under `power`, `mode`, `temperature` and `wind_level`, the
/// reply to the command of that setting, for each setting given, in the order sent.
pub proof fn law_ac_result(input: crate::schemas::my_devices::AcControlInput, replies: Seq<ResponseV>)
    ensures
        crate::my_devices::climate::AcControlTool::finish_v(input, replies).success,
        data_member(crate::my_devices::climate::AcControlTool::finish_v(input, replies).data, "power"@) == if input.power is Some {
            Some(JsonV::Object(replies[0int].fields))
        } else {
            None
        },
        data_member(crate::my_devices::climate::AcControlTool::finish_v(input, replies).data, "mode"@) == if input.mode is Some {
            Some(JsonV::Object(replies[(if input.power is Some { 1int } else { 0int })].fields))
        } else {
            None
        },
        data_member(crate::my_devices::climate::AcControlTool::finish_v(input, replies).data, "temperature"@) == if input.temperature is Some {
            Some(JsonV::Object(replies[(if input.power is Some { 1int } else { 0int }) + (if input.mode is Some { 1int } else { 0int })].fields))
        } else {
            None
        },
        data_member(crate::my_devices::climate::AcControlTool::finish_v(input, replies).data, "wind_level"@) == if input.wind_level is Some {
            Some(JsonV::Object(replies[(if input.power is Some { 1int } else { 0int }) + (if input.mode is Some { 1int } else { 0int }) + (if input.temperature is Some { 1int } else { 0int })].fields))
        } else {
            None
        },
{
    reveal_strlit("power");
    reveal_strlit("mode");
    reveal_strlit("temperature");
    reveal_strlit("wind_level");
    assert("power"@.len() == 5 && "mode"@.len() == 4 && "temperature"@.len() == 11 && "wind_level"@.len() == 10);
    let q0 = crate::plan::sent_if(input.power is Some, "power"@);
    let q1 = crate::plan::sent_if(input.mode is Some, "mode"@);
    let q2 = crate::plan::sent_if(input.temperature is Some, "temperature"@);
    let q3 = crate::plan::sent_if(input.wind_level is Some, "wind_level"@);
    let keys = q0 + q1 + q2 + q3;
    assert(crate::my_devices::climate::AcControlTool::keys_v(input) == keys);
    if input.power is Some {
        let idx: int = (0) as int;
        assert(keys[idx] == "power"@);
        assert forall|i: int| 0 <= i < idx implies keys[i] != "power"@ by {

        }
        lemma_keyed_index(keys, replies, "power"@, idx);
    } else {
        assert forall|i: int| 0 <= i < keys.len() implies keys[i] != "power"@ by {
            if input.mode is Some && i == (q0.len()) as int { assert(keys[i] == "mode"@); }
            if input.temperature is Some && i == (q0.len() + q1.len()) as int { assert(keys[i] == "temperature"@); }
            if input.wind_level is Some && i == (q0.len() + q1.len() + q2.len()) as int { assert(keys[i] == "wind_level"@); }
        }
        lemma_keyed_absent(keys, replies, "power"@);
    }
    if input.mode is Some {
        let idx: int = (q0.len()) as int;
        assert(keys[idx] == "mode"@);
        assert forall|i: int| 0 <= i < idx implies keys[i] != "mode"@ by {
            if input.power is Some && i == (0) as int { assert(keys[i] == "power"@); }
        }
        lemma_keyed_index(keys, replies, "mode"@, idx);
    } else {
        assert forall|i: int| 0 <= i < keys.len() implies keys[i] != "mode"@ by {
            if input.power is Some && i == (0) as int { assert(keys[i] == "power"@); }
            if input.temperature is Some && i == (q0.len() + q1.len()) as int { assert(keys[i] == "temperature"@); }
            if input.wind_level is Some && i == (q0.len() + q1.len() + q2.len()) as int { assert(keys[i] == "wind_level"@); }
        }
        lemma_keyed_absent(keys, replies, "mode"@);
    }
    if input.temperature is Some {
        let idx: int = (q0.len() + q1.len()) as int;
        assert(keys[idx] == "temperature"@);
        assert forall|i: int| 0 <= i < idx implies keys[i] != "temperature"@ by {
            if input.power is Some && i == (0) as int { assert(keys[i] == "power"@); }
            if input.mode is Some && i == (q0.len()) as int { assert(keys[i] == "mode"@); }
        }
        lemma_keyed_index(keys, replies, "temperature"@, idx);
    } else {
        assert forall|i: int| 0 <= i < keys.len() implies keys[i] != "temperature"@ by {
            if input.power is Some && i == (0) as int { assert(keys[i] == "power"@); }
            if input.mode is Some && i == (q0.len()) as int { assert(keys[i] == "mode"@); }
            if input.wind_level is Some && i == (q0.len() + q1.len() + q2.len()) as int { assert(keys[i] == "wind_level"@); }
        }
        lemma_keyed_absent(keys, replies, "temperature"@);
    }
    if input.wind_level is Some {
        let idx: int = (q0.len() + q1.len() + q2.len()) as int;
        assert(keys[idx] == "wind_level"@);
        assert forall|i: int| 0 <= i < idx implies keys[i] != "wind_level"@ by {
            if input.power is Some && i == (0) as int { assert(keys[i] == "power"@); }
            if input.mode is Some && i == (q0.len()) as int { assert(keys[i] == "mode"@); }
            if input.temperature is Some && i == (q0.len() + q1.len()) as int { assert(keys[i] == "temperature"@); }
        }
        lemma_keyed_index(keys, replies, "wind_level"@, idx);
    } else {
        assert forall|i: int| 0 <= i < keys.len() implies keys[i] != "wind_level"@ by {
            if input.power is Some && i == (0) as int { assert(keys[i] == "power"@); }
            if input.mode is Some && i == (q0.len()) as int { assert(keys[i] == "mode"@); }
            if input.temperature is Some && i == (q0.len() + q1.len()) as int { assert(keys[i] == "temperature"@); }
        }
        lemma_keyed_absent(keys, replies, "wind_level"@);
    }
}

/// An air purifier reports, under `power` and `mode`, the reply to the command of that
/// setting, for each setting given, in the order sent.
pub proof fn law_air_purifier_result(input: crate::schemas::my_devices::AirPurifierInput, replies: Seq<ResponseV>)
    ensures
        crate::my_devices::air_quality::AirPurifierTool::finish_v(input, replies).success,
        data_member(crate::my_devices::air_quality::AirPurifierTool::finish_v(input, replies).data, "power"@) == if input.power is Some {
            Some(JsonV::Object(replies[0int].fields))
        } else {
            None
        },
        data_member(crate::my_devices::air_quality::AirPurifierTool::finish_v(input, replies).data, "mode"@) == if input.mode is Some {
            Some(JsonV::Object(replies[(if input.power is Some { 1int } else { 0int })].fields))
        } else {
            None
        },
{
    reveal_strlit("power");
    reveal_strlit("mode");
    assert("power"@.len() == 5 && "mode"@.len() == 4);
    let q0 = crate::plan::sent_if(input.power is Some, "power"@);
    let q1 = crate::plan::sent_if(input.mode is Some, "mode"@);
    let keys = q0 + q1;
    assert(crate::my_devices::air_quality::AirPurifierTool::keys_v(input) == keys);
    if input.power is Some {
        let idx: int = (0) as int;
        assert(keys[idx] == "power"@);
        assert forall|i: int| 0 <= i < idx implies keys[i] != "power"@ by {

        }
        lemma_keyed_index(keys, replies, "power"@, idx);
    } else {
        assert forall|i: int| 0 <= i < keys.len() implies keys[i] != "power"@ by {
            if input.mode is Some && i == (q0.len()) as int { assert(keys[i] == "mode"@); }
        }
        lemma_keyed_absent(keys, replies, "power"@);
    }
    if input.mode is Some {
        let idx: int = (q0.len()) as int;
        assert(keys[idx] == "mode"@);
        assert forall|i: int| 0 <= i < idx implies keys[i] != "mode"@ by {
            if input.power is Some && i == (0) as int { assert(keys[i] == "power"@); }
        }
        lemma_keyed_index(keys, replies, "mode"@, idx);
    } else {
        assert forall|i: int| 0 <= i < keys.len() implies keys[i] != "mode"@ by {
            if input.power is Some && i == (0) as int { assert(keys[i] == "power"@); }
        }
        lemma_keyed_absent(keys, replies, "mode"@);
    }
}

/// A dehumidifier reports, under `power`, `mode` and `target_humidity`, the reply to the
/// command of that setting, for each setting given, in the order sent.
pub proof fn law_dehumidifier_result(input: crate::schemas::my_devices::DehumidifierInput, replies: Seq<ResponseV>)
    ensures
        crate::my_devices::air_quality::DehumidifierTool::finish_v(input, replies).success,
        data_member(crate::my_devices::air_quality::DehumidifierTool::finish_v(input, replies).data, "power"@) == if input.power is Some {
            Some(JsonV::Object(replies[0int].fields))
        } else {
            None
        },
        data_member(crate::my_devices::air_quality::DehumidifierTool::finish_v(input, replies).data, "mode"@) == if input.mode is Some {
            Some(JsonV::Object(replies[(if input.power is Some { 1int } else { 0int })].fields))
        } else {
            None
        },
        data_member(crate::my_devices::air_quality::DehumidifierTool::finish_v(input, replies).data, "target_humidity"@) == if input.target_humidity is Some {
            Some(JsonV::Object(replies[(if input.power is Some { 1int } else { 0int }) + (if input.mode is Some { 1int } else { 0int })].fields))
        } else {
            None
        },
{
    reveal_strlit("power");
    reveal_strlit("mode");
    reveal_strlit("target_humidity");
    assert("power"@.len() == 5 && "mode"@.len() == 4 && "target_humidity"@.len() == 15);
    let q0 = crate::plan::sent_if(input.power is Some, "power"@);
    let q1 = crate::plan::sent_if(input.mode is Some, "mode"@);
    let q2 = crate::plan::sent_if(input.target_humidity is Some, "target_humidity"@);
    let keys = q0 + q1 + q2;
    assert(crate::my_devices::air_quality::DehumidifierTool::keys_v(input) == keys);
    if input.power is Some {
        let idx: int = (0) as int;
        assert(keys[idx] == "power"@);
        assert forall|i: int| 0 <= i < idx implies keys[i] != "power"@ by {

        }
        lemma_keyed_index(keys, replies, "power"@, idx);
    } else {
        assert forall|i: int| 0 <= i < keys.len() implies keys[i] != "power"@ by {
            if input.mode is Some && i == (q0.len()) as int { assert(keys[i] == "mode"@); }
            if input.target_humidity is Some && i == (q0.len() + q1.len()) as int { assert(keys[i] == "target_humidity"@); }
        }
        lemma_keyed_absent(keys, replies, "power"@);
    }
    if input.mode is Some {
        let idx: int = (q0.len()) as int;
        assert(keys[idx] == "mode"@);
        assert forall|i: int| 0 <= i < idx implies keys[i] != "mode"@ by {
            if input.power is Some && i == (0) as int { assert(keys[i] == "power"@); }
        }
        lemma_keyed_index(keys, replies, "mode"@, idx);
    } else {
        assert forall|i: int| 0 <= i < keys.len() implies keys[i] != "mode"@ by {
            if input.power is Some && i == (0) as int { assert(keys[i] == "power"@); }
            if input.target_humidity is Some && i == (q0.len() + q1.len()) as int { assert(keys[i] == "target_humidity"@); }
        }
        lemma_keyed_absent(keys, replies, "mode"@);
    }
    if input.target_humidity is Some {
        let idx: int = (q0.len() + q1.len()) as int;
        assert(keys[idx] == "target_humidity"@);
        assert forall|i: int| 0 <= i < idx implies keys[i] != "target_humidity"@ by {
            if input.power is Some && i == (0) as int { assert(keys[i] == "power"@); }
            if input.mode is Some && i == (q0.len()) as int { assert(keys[i] == "mode"@); }
        }
        lemma_keyed_index(keys, replies, "target_humidity"@, idx);
    } else {
        assert forall|i: int| 0 <= i < keys.len() implies keys[i] != "target_humidity"@ by {
            if input.power is Some && i == (0) as int { assert(keys[i] == "power"@); }
            if input.mode is Some && i == (q0.len()) as int { assert(keys[i] == "mode"@); }
        }
        lemma_keyed_absent(keys, replies, "target_humidity"@);
    }
}

/// A thermostat reports under `results`, keyed `mode`, `heating_setpoint`,
/// `cooling_setpoint` and `fan_mode`, the reply to the command of that setting, for each
/// setting given, in the order sent.
pub proof fn law_thermostat_result(input: crate::schemas::extended_devices::ThermostatInput, replies: Seq<ResponseV>)
    ensures
        crate::extended_devices::thermostat::ThermostatTool::finish_v(input, replies).success,
        data_member(data_member(crate::extended_devices::thermostat::ThermostatTool::finish_v(input, replies).data, "results"@), "mode"@) == if input.mode is Some {
            Some(JsonV::Object(replies[0int].fields))
        } else {
            None
        },
        data_member(data_member(crate::extended_devices::thermostat::ThermostatTool::finish_v(input, replies).data, "results"@), "heating_setpoint"@) == if input.heating_setpoint is Some {
            Some(JsonV::Object(replies[(if input.mode is Some { 1int } else { 0int })].fields))
        } else {
            None
        },
        data_member(data_member(crate::extended_devices::thermostat::ThermostatTool::finish_v(input, replies).data, "results"@), "cooling_setpoint"@) == if input.cooling_setpoint is Some {
            Some(JsonV::Object(replies[(if input.mode is Some { 1int } else { 0int }) + (if input.heating_setpoint is Some { 1int } else { 0int })].fields))
        } else {
            None
        },
        data_member(data_member(crate::extended_devices::thermostat::ThermostatTool::finish_v(input, replies).data, "results"@), "fan_mode"@) == if input.fan_mode is Some {
            Some(JsonV::Object(replies[(if input.mode is Some { 1int } else { 0int }) + (if input.heating_setpoint is Some { 1int } else { 0int }) + (if input.cooling_setpoint is Some { 1int } else { 0int })].fields))
        } else {
            None
        },
{
    reveal_strlit("mode");
    reveal_strlit("heating_setpoint");
    reveal_strlit("cooling_setpoint");
    reveal_strlit("fan_mode");
    assert("mode"@.len() == 4 && "heating_setpoint"@.len() == 16 && "cooling_setpoint"@.len() == 16 && "fan_mode"@.len() == 8);
    assert("heating_setpoint"@[0] != "cooling_setpoint"@[0]);
    let q0 = crate::plan::sent_if(input.mode is Some, "mode"@);
    let q1 = crate::plan::sent_if(input.heating_setpoint is Some, "heating_setpoint"@);
    let q2 = crate::plan::sent_if(input.cooling_setpoint is Some, "cooling_setpoint"@);
    let q3 = crate::plan::sent_if(input.fan_mode is Some, "fan_mode"@);
    let keys = q0 + q1 + q2 + q3;
    assert(crate::extended_devices::thermostat::ThermostatTool::keys_v(input) == keys);
    reveal_strlit("results");
    reveal_strlit("set");
    reveal_strlit("device_id");
    assert("results"@.len() == 7 && "set"@.len() == 3 && "device_id"@.len() == 9);
    assert(data_member(crate::extended_devices::thermostat::ThermostatTool::finish_v(input, replies).data, "results"@)
        == Some(crate::plan::keyed_replies_v(keys, replies))) by {
        reveal_with_fuel(entries_get, 4);
    }
    if input.mode is Some {
        let idx: int = (0) as int;
        assert(keys[idx] == "mode"@);
        assert forall|i: int| 0 <= i < idx implies keys[i] != "mode"@ by {

        }
        lemma_keyed_index(keys, replies, "mode"@, idx);
    } else {
        assert forall|i: int| 0 <= i < keys.len() implies keys[i] != "mode"@ by {
            if input.heating_setpoint is Some && i == (q0.len()) as int { assert(keys[i] == "heating_setpoint"@); }
            if input.cooling_setpoint is Some && i == (q0.len() + q1.len()) as int { assert(keys[i] == "cooling_setpoint"@); }
            if input.fan_mode is Some && i == (q0.len() + q1.len() + q2.len()) as int { assert(keys[i] == "fan_mode"@); }
        }
        lemma_keyed_absent(keys, replies, "mode"@);
    }
    if input.heating_setpoint is Some {
        let idx: int = (q0.len()) as int;
        assert(keys[idx] == "heating_setpoint"@);
        assert forall|i: int| 0 <= i < idx implies keys[i] != "heating_setpoint"@ by {
            if input.mode is Some && i == (0) as int { assert(keys[i] == "mode"@); }
        }
        lemma_keyed_index(keys, replies, "heating_setpoint"@, idx);
    } else {
        assert forall|i: int| 0 <= i < keys.len() implies keys[i] != "heating_setpoint"@ by {
            if input.mode is Some && i == (0) as int { assert(keys[i] == "mode"@); }
            if input.cooling_setpoint is Some && i == (q0.len() + q1.len()) as int { assert(keys[i] == "cooling_setpoint"@); }
            if input.fan_mode is Some && i == (q0.len() + q1.len() + q2.len()) as int { assert(keys[i] == "fan_mode"@); }
        }
        lemma_keyed_absent(keys, replies, "heating_setpoint"@);
    }
    if input.cooling_setpoint is Some {
        let idx: int = (q0.len() + q1.len()) as int;
        assert(keys[idx] == "cooling_setpoint"@);
        assert forall|i: int| 0 <= i < idx implies keys[i] != "cooling_setpoint"@ by {
            if input.mode is Some && i == (0) as int { assert(keys[i] == "mode"@); }
            if input.heating_setpoint is Some && i == (q0.len()) as int { assert(keys[i] == "heating_setpoint"@); }
        }
        lemma_keyed_index(keys, replies, "cooling_setpoint"@, idx);
    } else {
        assert forall|i: int| 0 <= i < keys.len() implies keys[i] != "cooling_setpoint"@ by {
            if input.mode is Some && i == (0) as int { assert(keys[i] == "mode"@); }
            if input.heating_setpoint is Some && i == (q0.len()) as int { assert(keys[i] == "heating_setpoint"@); }
            if input.fan_mode is Some && i == (q0.len() + q1.len() + q2.len()) as int { assert(keys[i] == "fan_mode"@); }
        }
        lemma_keyed_absent(keys, replies, "cooling_setpoint"@);
    }
    if input.fan_mode is Some {
        let idx: int = (q0.len() + q1.len() + q2.len()) as int;
        assert(keys[idx] == "fan_mode"@);
        assert forall|i: int| 0 <= i < idx implies keys[i] != "fan_mode"@ by {
            if input.mode is Some && i == (0) as int { assert(keys[i] == "mode"@); }
            if input.heating_setpoint is Some && i == (q0.len()) as int { assert(keys[i] == "heating_setpoint"@); }
            if input.cooling_setpoint is Some && i == (q0.len() + q1.len()) as int { assert(keys[i] == "cooling_setpoint"@); }
        }
        lemma_keyed_index(keys, replies, "fan_mode"@, idx);
    } else {
        assert forall|i: int| 0 <= i < keys.len() implies keys[i] != "fan_mode"@ by {
            if input.mode is Some && i == (0) as int { assert(keys[i] == "mode"@); }
            if input.heating_setpoint is Some && i == (q0.len()) as int { assert(keys[i] == "heating_setpoint"@); }
            if input.cooling_setpoint is Some && i == (q0.len() + q1.len()) as int { assert(keys[i] == "cooling_setpoint"@); }
        }
        lemma_keyed_absent(keys, replies, "fan_mode"@);
    }
}


/// A curtain reports the device, the action and level given (`null` for none), the reply
/// to the shade command as `shade_result` and that to the level command as
/// `level_result` (`null` where that command was not sent).
pub proof fn law_curtain_result(input: crate::schemas::my_devices::ControlCurtainInput, replies: Seq<ResponseV>)
    ensures
        crate::my_devices::curtain::ControlCurtainTool::finish_v(input, replies).success,
        data_member(crate::my_devices::curtain::ControlCurtainTool::finish_v(input, replies).data, "device_id"@)
            == Some(jstr(input.device_id@)),
        data_member(crate::my_devices::curtain::ControlCurtainTool::finish_v(input, replies).data, "action"@)
            == Some(match input.action {
            Some(t) => jstr(t@),
            None => JsonV::Null,
        }),
        data_member(crate::my_devices::curtain::ControlCurtainTool::finish_v(input, replies).data, "level"@)
            == Some(match input.level {
            Some(v) => int_v(v as int),
            None => JsonV::Null,
        }),
        data_member(crate::my_devices::curtain::ControlCurtainTool::finish_v(input, replies).data, "shade_result"@)
            == Some(if input.action is Some {
            JsonV::Object(replies[0].fields)
        } else {
            JsonV::Null
        }),
        data_member(crate::my_devices::curtain::ControlCurtainTool::finish_v(input, replies).data, "level_result"@)
            == Some(if input.level is Some {
            JsonV::Object(replies[if input.action is Some { 1int } else { 0int }].fields)
        } else {
            JsonV::Null
        }),
{
    reveal_strlit("device_id");
    reveal_strlit("action");
    reveal_strlit("level");
    reveal_strlit("shade_result");
    reveal_strlit("level_result");
    assert("device_id"@.len() == 9 && "action"@.len() == 6 && "level"@.len() == 5 && "shade_result"@.len()
        == 12 && "level_result"@.len() == 12);
    assert("shade_result"@[0] != "level_result"@[0]);
    reveal_with_fuel(entries_get, 6);
}


/// The three safety sensors, which take the same arguments, each answer under their own
/// name with their own reading: `smoke_detector_status` reports `smoke`,
/// `co_detector_status` reports `carbon_monoxide`, `water_leak_status` reports `water`.
pub proof fn law_safety_sensors_dispatch(i: crate::schemas::extended_devices::SafetySensorInput, replies: Seq<ResponseV>)
    requires
        replies.len() == 1,
    ensures
        crate::catalog::ToolInput::SmokeDetector(i).tool_v().name_v() == "smoke_detector_status"@,
        crate::catalog::ToolInput::CoDetector(i).tool_v().name_v() == "co_detector_status"@,
        crate::catalog::ToolInput::WaterLeak(i).tool_v().name_v() == "water_leak_status"@,
        data_member(crate::catalog::ToolInput::SmokeDetector(i).finish_v(replies).data, "smoke"@)
            == Some(or_null(main_value(replies[0], "smokeDetector"@, "smoke"@))),
        data_member(crate::catalog::ToolInput::CoDetector(i).finish_v(replies).data, "carbon_monoxide"@)
            == Some(or_null(main_value(replies[0], "carbonMonoxideDetector"@, "carbonMonoxide"@))),
        data_member(crate::catalog::ToolInput::WaterLeak(i).finish_v(replies).data, "water"@)
            == Some(or_null(main_value(replies[0], "waterSensor"@, "water"@))),
{
    law_smoke_reading(i, replies);
    law_co_reading(i, replies);
    law_water_reading(i, replies);
}


/// A reply carries an error exactly where it has an `error` member. A tool that meets
/// one fails with that error's `message` where it is an object with a string `message`
/// (with no data, or with the whole reply for the five general tools: listing, status,
/// command, scene and weather).
pub proof fn law_error_reply(tool: crate::catalog::Tool, r: ResponseV, m: Seq<(Seq<char>, JsonV)>, msg: Seq<char>)
    ensures
        crate::plan::has_error_v(r) <==> entries_get(r.fields, "error"@) is Some,
        entries_get(r.fields, "error"@) == Some(JsonV::Object(m)) && entries_get(m, "message"@) == Some(
            JsonV::Str(msg),
        ) ==> {
            let f = crate::run::failure_v(tool, r);
            &&& !f.success
            &&& f.error == Some(msg)
            &&& f.data == if tool == crate::catalog::Tool::ListDevices || tool == crate::catalog::Tool::GetDeviceStatus
                || tool == crate::catalog::Tool::SendCommand || tool == crate::catalog::Tool::ExecuteScene
                || tool == crate::catalog::Tool::GetWeather {
                Some(JsonV::Object(r.fields))
            } else {
                None
            }
        },
{
}

} // verus!
