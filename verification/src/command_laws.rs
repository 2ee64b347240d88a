//! Which command each device tool sends for its arguments, and what it refuses, stated
//! over the arguments alone.
use vstd::prelude::*;

use crate::client::{get_v, ApiRequestV};
use crate::json::{int_v, jstr, JsonV};
use crate::plan::device_command_v;

verus! {

/// A plan of exactly one request.
pub open spec fn one_request(r: ApiRequestV) -> Result<Seq<ApiRequestV>, Seq<char>> {
    Ok(seq![r])
}

/// Switching a device sends `switch.on` or `switch.off` to it as its one command; any other `state` is refused and nothing is sent.
pub proof fn law_switch_power(input: crate::schemas::my_devices::SwitchPowerInput)
    ensures
        input.state@ == "on"@ || input.state@ == "off"@ ==> crate::my_devices::switch::SwitchPowerTool::plan_v(input) == one_request(
            device_command_v(input.device_id@, "switch"@, input.state@, Seq::empty()),
        ),
        !(input.state@ == "on"@ || input.state@ == "off"@) ==> crate::my_devices::switch::SwitchPowerTool::plan_v(input) is Err,
{
    assert(seq!["on"@, "off"@][0] == "on"@);
    assert(seq!["on"@, "off"@][1] == "off"@);
}

/// Turning a TV on or off sends `switch.on` or `switch.off` to it as its one command; any other `state` is refused and nothing is sent.
pub proof fn law_tv_power(input: crate::schemas::my_devices::TvPowerInput)
    ensures
        input.state@ == "on"@ || input.state@ == "off"@ ==> crate::my_devices::tv::TvPowerTool::plan_v(input) == one_request(
            device_command_v(input.device_id@, "switch"@, input.state@, Seq::empty()),
        ),
        !(input.state@ == "on"@ || input.state@ == "off"@) ==> crate::my_devices::tv::TvPowerTool::plan_v(input) is Err,
{
    assert(seq!["on"@, "off"@][0] == "on"@);
    assert(seq!["on"@, "off"@][1] == "off"@);
}

/// Muting a TV sends `audioMute.mute`, unmuting it `audioMute.unmute`, as its one command; any other `state` is refused and nothing is sent.
pub proof fn law_tv_mute(input: crate::schemas::my_devices::TvMuteInput)
    ensures
        input.state@ == "mute"@ || input.state@ == "unmute"@ ==> crate::my_devices::tv::TvMuteTool::plan_v(input) == one_request(
            device_command_v(input.device_id@, "audioMute"@, input.state@, Seq::empty()),
        ),
        !(input.state@ == "mute"@ || input.state@ == "unmute"@) ==> crate::my_devices::tv::TvMuteTool::plan_v(input) is Err,
{
    assert(seq!["mute"@, "unmute"@][0] == "mute"@);
    assert(seq!["mute"@, "unmute"@][1] == "unmute"@);
}

/// A playback action is sent as the `mediaPlayback` command of that name, as the one command; any other `action` is refused and nothing is sent.
pub proof fn law_media_playback(input: crate::schemas::my_devices::MediaPlaybackInput)
    ensures
        input.action@ == "play"@ || input.action@ == "pause"@ || input.action@ == "stop"@ || input.action@ == "fastForward"@ || input.action@ == "rewind"@ ==> crate::my_devices::media::MediaPlaybackTool::plan_v(input) == one_request(
            device_command_v(input.device_id@, "mediaPlayback"@, input.action@, Seq::empty()),
        ),
        !(input.action@ == "play"@ || input.action@ == "pause"@ || input.action@ == "stop"@ || input.action@ == "fastForward"@ || input.action@ == "rewind"@) ==> crate::my_devices::media::MediaPlaybackTool::plan_v(input) is Err,
{
    assert(seq!["play"@, "pause"@, "stop"@, "fastForward"@, "rewind"@][0] == "play"@);
    assert(seq!["play"@, "pause"@, "stop"@, "fastForward"@, "rewind"@][1] == "pause"@);
    assert(seq!["play"@, "pause"@, "stop"@, "fastForward"@, "rewind"@][2] == "stop"@);
    assert(seq!["play"@, "pause"@, "stop"@, "fastForward"@, "rewind"@][3] == "fastForward"@);
    assert(seq!["play"@, "pause"@, "stop"@, "fastForward"@, "rewind"@][4] == "rewind"@);
}

/// Locking a door sends `lock.lock`, unlocking it `lock.unlock`, as its one command; any other `action` is refused and nothing is sent.
pub proof fn law_door_lock(input: crate::schemas::extended_devices::DoorLockInput)
    ensures
        input.action@ == "lock"@ || input.action@ == "unlock"@ ==> crate::extended_devices::lock::DoorLockTool::plan_v(input) == one_request(
            device_command_v(input.device_id@, "lock"@, input.action@, Seq::empty()),
        ),
        !(input.action@ == "lock"@ || input.action@ == "unlock"@) ==> crate::extended_devices::lock::DoorLockTool::plan_v(input) is Err,
{
    assert(seq!["lock"@, "unlock"@][0] == "lock"@);
    assert(seq!["lock"@, "unlock"@][1] == "unlock"@);
}

/// Opening or closing a garage door sends `doorControl.open` or `doorControl.close` as its one command; any other `action` is refused and nothing is sent.
pub proof fn law_garage_door(input: crate::schemas::extended_devices::GarageDoorInput)
    ensures
        input.action@ == "open"@ || input.action@ == "close"@ ==> crate::extended_devices::door_valve::GarageDoorTool::plan_v(input) == one_request(
            device_command_v(input.device_id@, "doorControl"@, input.action@, Seq::empty()),
        ),
        !(input.action@ == "open"@ || input.action@ == "close"@) ==> crate::extended_devices::door_valve::GarageDoorTool::plan_v(input) is Err,
{
    assert(seq!["open"@, "close"@][0] == "open"@);
    assert(seq!["open"@, "close"@][1] == "close"@);
}

/// Opening or closing a valve sends `valve.open` or `valve.close` as its one command; any other `action` is refused and nothing is sent.
pub proof fn law_valve(input: crate::schemas::extended_devices::ValveInput)
    ensures
        input.action@ == "open"@ || input.action@ == "close"@ ==> crate::extended_devices::door_valve::ValveTool::plan_v(input) == one_request(
            device_command_v(input.device_id@, "valve"@, input.action@, Seq::empty()),
        ),
        !(input.action@ == "open"@ || input.action@ == "close"@) ==> crate::extended_devices::door_valve::ValveTool::plan_v(input) is Err,
{
    assert(seq!["open"@, "close"@][0] == "open"@);
    assert(seq!["open"@, "close"@][1] == "close"@);
}

/// An alarm action is sent as the `alarm` command of that name, as the one command; any other `action` is refused and nothing is sent.
pub proof fn law_alarm(input: crate::schemas::extended_devices::AlarmInput)
    ensures
        input.action@ == "siren"@ || input.action@ == "strobe"@ || input.action@ == "both"@ || input.action@ == "off"@ ==> crate::extended_devices::security::AlarmTool::plan_v(input) == one_request(
            device_command_v(input.device_id@, "alarm"@, input.action@, Seq::empty()),
        ),
        !(input.action@ == "siren"@ || input.action@ == "strobe"@ || input.action@ == "both"@ || input.action@ == "off"@) ==> crate::extended_devices::security::AlarmTool::plan_v(input) is Err,
{
    assert(seq!["siren"@, "strobe"@, "both"@, "off"@][0] == "siren"@);
    assert(seq!["siren"@, "strobe"@, "both"@, "off"@][1] == "strobe"@);
    assert(seq!["siren"@, "strobe"@, "both"@, "off"@][2] == "both"@);
    assert(seq!["siren"@, "strobe"@, "both"@, "off"@][3] == "off"@);
}

/// Arming or disarming sends the `securitySystem` command of that name, as the one command; any other `action` is refused and nothing is sent.
pub proof fn law_security_system(input: crate::schemas::extended_devices::SecuritySystemInput)
    ensures
        input.action@ == "armAway"@ || input.action@ == "armStay"@ || input.action@ == "disarm"@ ==> crate::extended_devices::security::SecuritySystemTool::plan_v(input) == one_request(
            device_command_v(input.device_id@, "securitySystem"@, input.action@, Seq::empty()),
        ),
        !(input.action@ == "armAway"@ || input.action@ == "armStay"@ || input.action@ == "disarm"@) ==> crate::extended_devices::security::SecuritySystemTool::plan_v(input) is Err,
{
    assert(seq!["armAway"@, "armStay"@, "disarm"@][0] == "armAway"@);
    assert(seq!["armAway"@, "armStay"@, "disarm"@][1] == "armStay"@);
    assert(seq!["armAway"@, "armStay"@, "disarm"@][2] == "disarm"@);
}

/// Reading a device's status sends one request: a GET of `/devices/<id>/status` for the device named.
pub proof fn law_device_status_reads_status(input: crate::schemas::common::GetDeviceStatusInput)
    ensures
        crate::common_tools::GetDeviceStatusTool::plan_v(input) == one_request(get_v("/devices/"@ + input.device_id@ + "/status"@, Seq::empty())),
{
}

/// Reading a sensor's readings sends one request: a GET of `/devices/<id>/status` for the device named.
pub proof fn law_sensor_reads_status(input: crate::schemas::my_devices::GetSensorDataInput)
    ensures
        crate::my_devices::sensor::GetSensorDataTool::plan_v(input) == one_request(get_v("/devices/"@ + input.device_id@ + "/status"@, Seq::empty())),
{
}

/// Reading a device's energy data sends one request: a GET of `/devices/<id>/status` for the device named.
pub proof fn law_energy_reads_status(input: crate::schemas::my_devices::GetEnergyDataInput)
    ensures
        crate::my_devices::energy::GetEnergyDataTool::plan_v(input) == one_request(get_v("/devices/"@ + input.device_id@ + "/status"@, Seq::empty())),
{
}

/// Reading a device's battery sends one request: a GET of `/devices/<id>/status` for the device named.
pub proof fn law_battery_reads_status(input: crate::schemas::my_devices::GetBatteryInput)
    ensures
        crate::my_devices::energy::GetBatteryStatusTool::plan_v(input) == one_request(get_v("/devices/"@ + input.device_id@ + "/status"@, Seq::empty())),
{
}

/// Reading an oven's state sends one request: a GET of `/devices/<id>/status` for the device named.
pub proof fn law_oven_reads_status(input: crate::schemas::my_devices::OvenStatusInput)
    ensures
        crate::my_devices::oven::OvenStatusTool::plan_v(input) == one_request(get_v("/devices/"@ + input.device_id@ + "/status"@, Seq::empty())),
{
}

/// Reading a smoke detector's state sends one request: a GET of `/devices/<id>/status` for the device named.
pub proof fn law_smoke_detector_reads_status(input: crate::schemas::extended_devices::SafetySensorInput)
    ensures
        crate::extended_devices::safety_sensor::SmokeDetectorTool::plan_v(input) == one_request(get_v("/devices/"@ + input.device_id@ + "/status"@, Seq::empty())),
{
}

/// Reading a carbon monoxide detector's state sends one request: a GET of `/devices/<id>/status` for the device named.
pub proof fn law_co_detector_reads_status(input: crate::schemas::extended_devices::SafetySensorInput)
    ensures
        crate::extended_devices::safety_sensor::CoDetectorTool::plan_v(input) == one_request(get_v("/devices/"@ + input.device_id@ + "/status"@, Seq::empty())),
{
}

/// Reading a water leak sensor's state sends one request: a GET of `/devices/<id>/status` for the device named.
pub proof fn law_water_leak_reads_status(input: crate::schemas::extended_devices::SafetySensorInput)
    ensures
        crate::extended_devices::safety_sensor::WaterLeakTool::plan_v(input) == one_request(get_v("/devices/"@ + input.device_id@ + "/status"@, Seq::empty())),
{
}

/// Listing devices sends one GET of `/devices`, with `locationId` and `capability`
/// among its query parameters exactly where they are given, in that order.
pub proof fn law_list_devices_query(input: crate::schemas::common::ListDevicesInput)
    ensures
        crate::common_tools::ListDevicesTool::plan_v(input) == one_request(
            get_v(
                "/devices"@,
                (match input.location_id {
                    Some(l) => seq![("locationId"@, l@)],
                    None => Seq::empty(),
                }) + (match input.capability {
                    Some(c) => seq![("capability"@, c@)],
                    None => Seq::empty(),
                }),
            ),
        ),
{
}

/// A scene is run by one POST of an empty object to `/scenes/<id>/execute`.
pub proof fn law_execute_scene(input: crate::schemas::common::ExecuteSceneInput)
    ensures
        crate::common_tools::ExecuteSceneTool::plan_v(input) == one_request(
            crate::client::post_v(
                "/scenes/"@ + input.scene_id@ + "/execute"@,
                Some(JsonV::Object(Seq::empty())),
            ),
        ),
{
}

/// The weather of a location is read by one GET of
/// `/services/coordinate/locations/<id>/weather`.
pub proof fn law_weather_request(input: crate::schemas::common::GetWeatherInput)
    ensures
        crate::common_tools::GetWeatherTool::plan_v(input) == one_request(
            get_v("/services/coordinate/locations/"@ + input.location_id@ + "/weather"@, Seq::empty()),
        ),
{
}

/// Any command is sent as given: its capability, command, arguments and component, to
/// the device named.
pub proof fn law_send_command(input: crate::schemas::common::SendCommandInput)
    ensures
        crate::common_tools::SendCommandTool::plan_v(input) == one_request(
            crate::client::command_v(
                input.device_id@,
                input.capability@,
                input.command@,
                crate::json::items_view(input.arguments@),
                input.component@,
            ),
        ),
{
}

/// The brightness of a light is set by `switchLevel.setLevel` with the level.
pub proof fn law_set_brightness(input: crate::schemas::my_devices::SetBrightnessInput)
    ensures
        crate::my_devices::light::SetBrightnessTool::plan_v(input) == one_request(
            device_command_v(input.device_id@, "switchLevel"@, "setLevel"@, seq![int_v(input.level as int)]),
        ),
{
}

/// The colour of a light is set by `colorControl.setColor` with `{"hue", "saturation"}`.
pub proof fn law_set_color(input: crate::schemas::my_devices::SetColorInput)
    ensures
        crate::my_devices::light::SetColorTool::plan_v(input) == one_request(
            device_command_v(
                input.device_id@,
                "colorControl"@,
                "setColor"@,
                seq![
                    JsonV::Object(
                        seq![("hue"@, int_v(input.hue as int)), ("saturation"@, int_v(input.saturation as int))],
                    ),
                ],
            ),
        ),
{
}

/// The colour temperature of a light is set by `colorTemperature.setColorTemperature`
/// with the temperature.
pub proof fn law_set_color_temperature(input: crate::schemas::my_devices::SetColorTemperatureInput)
    ensures
        crate::my_devices::light::SetColorTemperatureTool::plan_v(input) == one_request(
            device_command_v(
                input.device_id@,
                "colorTemperature"@,
                "setColorTemperature"@,
                seq![int_v(input.temperature as int)],
            ),
        ),
{
}

/// A TV's input is chosen by `mediaInputSource.setInputSource` with the source.
pub proof fn law_tv_input(input: crate::schemas::my_devices::TvInputInput)
    ensures
        crate::my_devices::tv::TvInputTool::plan_v(input) == one_request(
            device_command_v(input.device_id@, "mediaInputSource"@, "setInputSource"@, seq![jstr(input.source@)]),
        ),
{
}

/// A TV's channel goes up by `tvChannel.channelUp`, down by `tvChannel.channelDown`, and
/// is set by `tvChannel.setTvChannel` with the channel given; `set` without a channel and
/// any other action are refused.
pub proof fn law_tv_channel(input: crate::schemas::my_devices::TvChannelInput)
    ensures
        input.action@ == "up"@ ==> crate::my_devices::tv::TvChannelTool::plan_v(input) == one_request(
            device_command_v(input.device_id@, "tvChannel"@, "channelUp"@, Seq::empty()),
        ),
        input.action@ == "down"@ ==> crate::my_devices::tv::TvChannelTool::plan_v(input) == one_request(
            device_command_v(input.device_id@, "tvChannel"@, "channelDown"@, Seq::empty()),
        ),
        input.action@ == "set"@ && input.channel is Some ==> crate::my_devices::tv::TvChannelTool::plan_v(input)
            == one_request(
            device_command_v(input.device_id@, "tvChannel"@, "setTvChannel"@, seq![jstr(input.channel->0@)]),
        ),
        input.action@ == "set"@ && input.channel is None ==> crate::my_devices::tv::TvChannelTool::plan_v(input) is Err,
        !(input.action@ == "up"@ || input.action@ == "down"@ || input.action@ == "set"@)
            ==> crate::my_devices::tv::TvChannelTool::plan_v(input) is Err,
{
    reveal_strlit("up");
    reveal_strlit("down");
    reveal_strlit("set");
    assert("up"@.len() == 2 && "down"@.len() == 4 && "set"@.len() == 3);
}

/// A refrigerator feature is switched by the `refrigeration` command of that feature
/// (`setRapidCooling`, `setRapidFreezing`, `setDefrost`) with the state `on` or `off`;
/// another feature or state is refused.
pub proof fn law_refrigerator(input: crate::schemas::extended_devices::RefrigeratorInput)
    ensures
        (input.state@ == "on"@ || input.state@ == "off"@) ==> {
            let plan = crate::extended_devices::refrigerator::RefrigeratorTool::plan_v(input);
            let cmd = |c: Seq<char>|
                one_request(device_command_v(input.device_id@, "refrigeration"@, c, seq![jstr(input.state@)]));
            &&& input.feature@ == "rapidCooling"@ ==> plan == cmd("setRapidCooling"@)
            &&& input.feature@ == "rapidFreezing"@ ==> plan == cmd("setRapidFreezing"@)
            &&& input.feature@ == "defrost"@ ==> plan == cmd("setDefrost"@)
            &&& !(input.feature@ == "rapidCooling"@ || input.feature@ == "rapidFreezing"@ || input.feature@
                == "defrost"@) ==> plan is Err
        },
        !(input.state@ == "on"@ || input.state@ == "off"@)
            ==> crate::extended_devices::refrigerator::RefrigeratorTool::plan_v(input) is Err,
{
    reveal_strlit("rapidCooling");
    reveal_strlit("rapidFreezing");
    reveal_strlit("defrost");
    assert("rapidCooling"@.len() == 12 && "rapidFreezing"@.len() == 13 && "defrost"@.len() == 7);
    assert(seq!["on"@, "off"@][0] == "on"@);
    assert(seq!["on"@, "off"@][1] == "off"@);
}


/// An air purifier's power is sent as `switch.on` or `switch.off` and its mode as
/// `airPurifierFanMode.setAirPurifierFanMode`, one command for each setting given; a power
/// other than on or off is refused.
pub proof fn law_air_purifier(input: crate::schemas::my_devices::AirPurifierInput)
    ensures
        (input.power is None || input.power->0@ == "on"@ || input.power->0@ == "off"@) ==> crate::my_devices::air_quality::AirPurifierTool::plan_v(input) is Ok,
        !((input.power is None || input.power->0@ == "on"@ || input.power->0@ == "off"@)) ==> crate::my_devices::air_quality::AirPurifierTool::plan_v(input) is Err,
        crate::my_devices::air_quality::AirPurifierTool::plan_v(input) matches Ok(reqs) ==> {
            &&& reqs.len() == (if input.power is Some { 1int } else { 0int }) + (if input.mode is Some { 1int } else { 0int })
            &&& input.power is Some ==> reqs.contains(device_command_v(input.device_id@, "switch"@, input.power->0@, Seq::empty()))
            &&& input.mode is Some ==> reqs.contains(device_command_v(input.device_id@, "airPurifierFanMode"@, "setAirPurifierFanMode"@, seq![jstr(input.mode->0@)]))
        },
{
    assert(seq!["on"@, "off"@][0] == "on"@);
    assert(seq!["on"@, "off"@][1] == "off"@);
    let p0 = crate::plan::sent_if(input.power is Some, device_command_v(input.device_id@, "switch"@, input.power->0@, Seq::empty()));
    let p1 = crate::plan::sent_if(input.mode is Some, device_command_v(input.device_id@, "airPurifierFanMode"@, "setAirPurifierFanMode"@, seq![jstr(input.mode->0@)]));
    let all = p0 + p1;
    if crate::my_devices::air_quality::AirPurifierTool::plan_v(input) is Ok {
        assert(crate::my_devices::air_quality::AirPurifierTool::plan_v(input) == Ok::<Seq<ApiRequestV>, Seq<char>>(all));
        if input.power is Some {
            assert(all[0int] == device_command_v(input.device_id@, "switch"@, input.power->0@, Seq::empty()));
        }
        if input.mode is Some {
            assert(all[(p0.len()) as int] == device_command_v(input.device_id@, "airPurifierFanMode"@, "setAirPurifierFanMode"@, seq![jstr(input.mode->0@)]));
        }
    }
}

/// A dehumidifier's power is sent as `switch.on` or `switch.off`, its mode as
/// `samsungce.dehumidifierMode.setDehumidifierMode` and its target humidity as
/// `samsungce.relativeHumidityLevel.setHumidityLevel`, one command for each setting given;
/// a power other than on or off is refused.
pub proof fn law_dehumidifier(input: crate::schemas::my_devices::DehumidifierInput)
    ensures
        (input.power is None || input.power->0@ == "on"@ || input.power->0@ == "off"@) ==> crate::my_devices::air_quality::DehumidifierTool::plan_v(input) is Ok,
        !((input.power is None || input.power->0@ == "on"@ || input.power->0@ == "off"@)) ==> crate::my_devices::air_quality::DehumidifierTool::plan_v(input) is Err,
        crate::my_devices::air_quality::DehumidifierTool::plan_v(input) matches Ok(reqs) ==> {
            &&& reqs.len() == (if input.power is Some { 1int } else { 0int }) + (if input.mode is Some { 1int } else { 0int }) + (if input.target_humidity is Some { 1int } else { 0int })
            &&& input.power is Some ==> reqs.contains(device_command_v(input.device_id@, "switch"@, input.power->0@, Seq::empty()))
            &&& input.mode is Some ==> reqs.contains(device_command_v(input.device_id@, "samsungce.dehumidifierMode"@, "setDehumidifierMode"@, seq![jstr(input.mode->0@)]))
            &&& input.target_humidity is Some ==> reqs.contains(device_command_v(input.device_id@, "samsungce.relativeHumidityLevel"@, "setHumidityLevel"@, seq![int_v(input.target_humidity->0 as int)]))
        },
{
    assert(seq!["on"@, "off"@][0] == "on"@);
    assert(seq!["on"@, "off"@][1] == "off"@);
    let p0 = crate::plan::sent_if(input.power is Some, device_command_v(input.device_id@, "switch"@, input.power->0@, Seq::empty()));
    let p1 = crate::plan::sent_if(input.mode is Some, device_command_v(input.device_id@, "samsungce.dehumidifierMode"@, "setDehumidifierMode"@, seq![jstr(input.mode->0@)]));
    let p2 = crate::plan::sent_if(input.target_humidity is Some, device_command_v(input.device_id@, "samsungce.relativeHumidityLevel"@, "setHumidityLevel"@, seq![int_v(input.target_humidity->0 as int)]));
    let all = p0 + p1 + p2;
    if crate::my_devices::air_quality::DehumidifierTool::plan_v(input) is Ok {
        assert(crate::my_devices::air_quality::DehumidifierTool::plan_v(input) == Ok::<Seq<ApiRequestV>, Seq<char>>(all));
        if input.power is Some {
            assert(all[0int] == device_command_v(input.device_id@, "switch"@, input.power->0@, Seq::empty()));
        }
        if input.mode is Some {
            assert(all[(p0.len()) as int] == device_command_v(input.device_id@, "samsungce.dehumidifierMode"@, "setDehumidifierMode"@, seq![jstr(input.mode->0@)]));
        }
        if input.target_humidity is Some {
            assert(all[(p0.len() + p1.len()) as int] == device_command_v(input.device_id@, "samsungce.relativeHumidityLevel"@, "setHumidityLevel"@, seq![int_v(input.target_humidity->0 as int)]));
        }
    }
}

/// An air conditioner gets one command for each setting given: power as `switch.on` or
/// `switch.off`, mode as `airConditionerMode.setAirConditionerMode`, temperature as
/// `thermostatCoolingSetpoint.setCoolingSetpoint`, fan level as
/// `airConditionerFanMode.setFanMode` with the level's decimal text; a power other than on
/// or off is refused.
pub proof fn law_ac_each_setting(input: crate::schemas::my_devices::AcControlInput)
    ensures
        (input.power is None || input.power->0@ == "on"@ || input.power->0@ == "off"@) ==> crate::my_devices::climate::AcControlTool::plan_v(input) is Ok,
        !((input.power is None || input.power->0@ == "on"@ || input.power->0@ == "off"@)) ==> crate::my_devices::climate::AcControlTool::plan_v(input) is Err,
        crate::my_devices::climate::AcControlTool::plan_v(input) matches Ok(reqs) ==> {
            &&& reqs.len() == (if input.power is Some { 1int } else { 0int }) + (if input.mode is Some { 1int } else { 0int }) + (if input.temperature is Some { 1int } else { 0int }) + (if input.wind_level is Some { 1int } else { 0int })
            &&& input.power is Some ==> reqs.contains(device_command_v(input.device_id@, "switch"@, input.power->0@, Seq::empty()))
            &&& input.mode is Some ==> reqs.contains(device_command_v(input.device_id@, "airConditionerMode"@, "setAirConditionerMode"@, seq![jstr(input.mode->0@)]))
            &&& input.temperature is Some ==> reqs.contains(device_command_v(input.device_id@, "thermostatCoolingSetpoint"@, "setCoolingSetpoint"@, seq![input.temperature->0@]))
            &&& input.wind_level is Some ==> reqs.contains(device_command_v(input.device_id@, "airConditionerFanMode"@, "setFanMode"@, seq![jstr(crate::text::signed_decimal(input.wind_level->0 as int))]))
        },
{
    assert(seq!["on"@, "off"@][0] == "on"@);
    assert(seq!["on"@, "off"@][1] == "off"@);
    let p0 = crate::plan::sent_if(input.power is Some, device_command_v(input.device_id@, "switch"@, input.power->0@, Seq::empty()));
    let p1 = crate::plan::sent_if(input.mode is Some, device_command_v(input.device_id@, "airConditionerMode"@, "setAirConditionerMode"@, seq![jstr(input.mode->0@)]));
    let p2 = crate::plan::sent_if(input.temperature is Some, device_command_v(input.device_id@, "thermostatCoolingSetpoint"@, "setCoolingSetpoint"@, seq![input.temperature->0@]));
    let p3 = crate::plan::sent_if(input.wind_level is Some, device_command_v(input.device_id@, "airConditionerFanMode"@, "setFanMode"@, seq![jstr(crate::text::signed_decimal(input.wind_level->0 as int))]));
    let all = p0 + p1 + p2 + p3;
    if crate::my_devices::climate::AcControlTool::plan_v(input) is Ok {
        assert(crate::my_devices::climate::AcControlTool::plan_v(input) == Ok::<Seq<ApiRequestV>, Seq<char>>(all));
        if input.power is Some {
            assert(all[0int] == device_command_v(input.device_id@, "switch"@, input.power->0@, Seq::empty()));
        }
        if input.mode is Some {
            assert(all[(p0.len()) as int] == device_command_v(input.device_id@, "airConditionerMode"@, "setAirConditionerMode"@, seq![jstr(input.mode->0@)]));
        }
        if input.temperature is Some {
            assert(all[(p0.len() + p1.len()) as int] == device_command_v(input.device_id@, "thermostatCoolingSetpoint"@, "setCoolingSetpoint"@, seq![input.temperature->0@]));
        }
        if input.wind_level is Some {
            assert(all[(p0.len() + p1.len() + p2.len()) as int] == device_command_v(input.device_id@, "airConditionerFanMode"@, "setFanMode"@, seq![jstr(crate::text::signed_decimal(input.wind_level->0 as int))]));
        }
    }
}

/// A curtain's action is sent as the `windowShade` command of that name (`open`, `close`
/// or `pause`) and its level as `switchLevel.setLevel`, one command for each given;
/// another action, or neither, is refused.
pub proof fn law_curtain(input: crate::schemas::my_devices::ControlCurtainInput)
    ensures
        ((input.action is None || input.action->0@ == "open"@ || input.action->0@ == "close"@ || input.action->0@ == "pause"@) && (input.action is Some || input.level is Some)) ==> crate::my_devices::curtain::ControlCurtainTool::plan_v(input) is Ok,
        !(((input.action is None || input.action->0@ == "open"@ || input.action->0@ == "close"@ || input.action->0@ == "pause"@) && (input.action is Some || input.level is Some))) ==> crate::my_devices::curtain::ControlCurtainTool::plan_v(input) is Err,
        crate::my_devices::curtain::ControlCurtainTool::plan_v(input) matches Ok(reqs) ==> {
            &&& reqs.len() == (if input.action is Some { 1int } else { 0int }) + (if input.level is Some { 1int } else { 0int })
            &&& input.action is Some ==> reqs.contains(device_command_v(input.device_id@, "windowShade"@, input.action->0@, Seq::empty()))
            &&& input.level is Some ==> reqs.contains(device_command_v(input.device_id@, "switchLevel"@, "setLevel"@, seq![int_v(input.level->0 as int)]))
        },
{
    let p0 = crate::plan::sent_if(input.action is Some, device_command_v(input.device_id@, "windowShade"@, input.action->0@, Seq::empty()));
    let p1 = crate::plan::sent_if(input.level is Some, device_command_v(input.device_id@, "switchLevel"@, "setLevel"@, seq![int_v(input.level->0 as int)]));
    let all = p0 + p1;
    if crate::my_devices::curtain::ControlCurtainTool::plan_v(input) is Ok {
        assert(crate::my_devices::curtain::ControlCurtainTool::plan_v(input) == Ok::<Seq<ApiRequestV>, Seq<char>>(all));
        if input.action is Some {
            assert(all[0int] == device_command_v(input.device_id@, "windowShade"@, input.action->0@, Seq::empty()));
        }
        if input.level is Some {
            assert(all[(p0.len()) as int] == device_command_v(input.device_id@, "switchLevel"@, "setLevel"@, seq![int_v(input.level->0 as int)]));
        }
    }
}

/// A washer's action (`run`, `pause` or `stop`) is sent first as
/// `washerOperatingState.setMachineState` with the action, then a given mode as
/// `washerMode.setWasherMode`; another action is refused.
pub proof fn law_washer(input: crate::schemas::extended_devices::WasherInput)
    ensures
        (input.action@ == "run"@ || input.action@ == "pause"@ || input.action@ == "stop"@) ==> crate::extended_devices::laundry::WasherTool::plan_v(input) is Ok,
        !((input.action@ == "run"@ || input.action@ == "pause"@ || input.action@ == "stop"@)) ==> crate::extended_devices::laundry::WasherTool::plan_v(input) is Err,
        crate::extended_devices::laundry::WasherTool::plan_v(input) matches Ok(reqs) ==> {
            &&& reqs.len() == (if true { 1int } else { 0int }) + (if input.mode is Some { 1int } else { 0int })
            &&& true ==> reqs.contains(device_command_v(input.device_id@, "washerOperatingState"@, "setMachineState"@, seq![jstr(input.action@)]))
            &&& input.mode is Some ==> reqs.contains(device_command_v(input.device_id@, "washerMode"@, "setWasherMode"@, seq![jstr(input.mode->0@)]))
        },
{
    assert(seq!["run"@, "pause"@, "stop"@][0] == "run"@);
    assert(seq!["run"@, "pause"@, "stop"@][1] == "pause"@);
    assert(seq!["run"@, "pause"@, "stop"@][2] == "stop"@);
    let p0 = crate::plan::sent_if(true, device_command_v(input.device_id@, "washerOperatingState"@, "setMachineState"@, seq![jstr(input.action@)]));
    let p1 = crate::plan::sent_if(input.mode is Some, device_command_v(input.device_id@, "washerMode"@, "setWasherMode"@, seq![jstr(input.mode->0@)]));
    let all = p0 + p1;
    if crate::extended_devices::laundry::WasherTool::plan_v(input) is Ok {
        assert(crate::extended_devices::laundry::WasherTool::plan_v(input) == Ok::<Seq<ApiRequestV>, Seq<char>>(all));
        if true {
            assert(all[0int] == device_command_v(input.device_id@, "washerOperatingState"@, "setMachineState"@, seq![jstr(input.action@)]));
        }
        if input.mode is Some {
            assert(all[(p0.len()) as int] == device_command_v(input.device_id@, "washerMode"@, "setWasherMode"@, seq![jstr(input.mode->0@)]));
        }
    }
}

/// A dryer's action (`run`, `pause` or `stop`) is sent first as
/// `dryerOperatingState.setMachineState` with the action, then a given mode as
/// `dryerMode.setDryerMode`; another action is refused.
pub proof fn law_dryer(input: crate::schemas::extended_devices::DryerInput)
    ensures
        (input.action@ == "run"@ || input.action@ == "pause"@ || input.action@ == "stop"@) ==> crate::extended_devices::laundry::DryerTool::plan_v(input) is Ok,
        !((input.action@ == "run"@ || input.action@ == "pause"@ || input.action@ == "stop"@)) ==> crate::extended_devices::laundry::DryerTool::plan_v(input) is Err,
        crate::extended_devices::laundry::DryerTool::plan_v(input) matches Ok(reqs) ==> {
            &&& reqs.len() == (if true { 1int } else { 0int }) + (if input.mode is Some { 1int } else { 0int })
            &&& true ==> reqs.contains(device_command_v(input.device_id@, "dryerOperatingState"@, "setMachineState"@, seq![jstr(input.action@)]))
            &&& input.mode is Some ==> reqs.contains(device_command_v(input.device_id@, "dryerMode"@, "setDryerMode"@, seq![jstr(input.mode->0@)]))
        },
{
    assert(seq!["run"@, "pause"@, "stop"@][0] == "run"@);
    assert(seq!["run"@, "pause"@, "stop"@][1] == "pause"@);
    assert(seq!["run"@, "pause"@, "stop"@][2] == "stop"@);
    let p0 = crate::plan::sent_if(true, device_command_v(input.device_id@, "dryerOperatingState"@, "setMachineState"@, seq![jstr(input.action@)]));
    let p1 = crate::plan::sent_if(input.mode is Some, device_command_v(input.device_id@, "dryerMode"@, "setDryerMode"@, seq![jstr(input.mode->0@)]));
    let all = p0 + p1;
    if crate::extended_devices::laundry::DryerTool::plan_v(input) is Ok {
        assert(crate::extended_devices::laundry::DryerTool::plan_v(input) == Ok::<Seq<ApiRequestV>, Seq<char>>(all));
        if true {
            assert(all[0int] == device_command_v(input.device_id@, "dryerOperatingState"@, "setMachineState"@, seq![jstr(input.action@)]));
        }
        if input.mode is Some {
            assert(all[(p0.len()) as int] == device_command_v(input.device_id@, "dryerMode"@, "setDryerMode"@, seq![jstr(input.mode->0@)]));
        }
    }
}

/// A dishwasher's action (`run`, `pause` or `stop`) is sent first as
/// `dishwasherOperatingState.setMachineState` with the action, then a given mode as
/// `dishwasherMode.setDishwasherMode`; another action is refused.
pub proof fn law_dishwasher(input: crate::schemas::extended_devices::DishwasherInput)
    ensures
        (input.action@ == "run"@ || input.action@ == "pause"@ || input.action@ == "stop"@) ==> crate::extended_devices::dishwasher::DishwasherTool::plan_v(input) is Ok,
        !((input.action@ == "run"@ || input.action@ == "pause"@ || input.action@ == "stop"@)) ==> crate::extended_devices::dishwasher::DishwasherTool::plan_v(input) is Err,
        crate::extended_devices::dishwasher::DishwasherTool::plan_v(input) matches Ok(reqs) ==> {
            &&& reqs.len() == (if true { 1int } else { 0int }) + (if input.mode is Some { 1int } else { 0int })
            &&& true ==> reqs.contains(device_command_v(input.device_id@, "dishwasherOperatingState"@, "setMachineState"@, seq![jstr(input.action@)]))
            &&& input.mode is Some ==> reqs.contains(device_command_v(input.device_id@, "dishwasherMode"@, "setDishwasherMode"@, seq![jstr(input.mode->0@)]))
        },
{
    assert(seq!["run"@, "pause"@, "stop"@][0] == "run"@);
    assert(seq!["run"@, "pause"@, "stop"@][1] == "pause"@);
    assert(seq!["run"@, "pause"@, "stop"@][2] == "stop"@);
    let p0 = crate::plan::sent_if(true, device_command_v(input.device_id@, "dishwasherOperatingState"@, "setMachineState"@, seq![jstr(input.action@)]));
    let p1 = crate::plan::sent_if(input.mode is Some, device_command_v(input.device_id@, "dishwasherMode"@, "setDishwasherMode"@, seq![jstr(input.mode->0@)]));
    let all = p0 + p1;
    if crate::extended_devices::dishwasher::DishwasherTool::plan_v(input) is Ok {
        assert(crate::extended_devices::dishwasher::DishwasherTool::plan_v(input) == Ok::<Seq<ApiRequestV>, Seq<char>>(all));
        if true {
            assert(all[0int] == device_command_v(input.device_id@, "dishwasherOperatingState"@, "setMachineState"@, seq![jstr(input.action@)]));
        }
        if input.mode is Some {
            assert(all[(p0.len()) as int] == device_command_v(input.device_id@, "dishwasherMode"@, "setDishwasherMode"@, seq![jstr(input.mode->0@)]));
        }
    }
}


/// A robot vacuum is first sent `robotCleanerMovement.setRobotCleanerMovement` with
/// `cleaning` for `start`, `pause` for `pause` and `homing` for `returnToHome`; then a
/// given cleaning mode as `robotCleanerCleaningMode.setRobotCleanerCleaningMode` and a
/// given turbo mode as `robotCleanerTurboMode.setRobotCleanerTurboMode`. Another action,
/// or a turbo mode other than on, off or silence, is refused.
pub proof fn law_robot_vacuum(input: crate::schemas::extended_devices::RobotVacuumInput)
    ensures
        ({
            let plan = crate::extended_devices::vacuum::RobotVacuumTool::plan_v(input);
            let turbo_ok = input.turbo is None || input.turbo->0@ == "on"@ || input.turbo->0@ == "off"@
                || input.turbo->0@ == "silence"@;
            let movement = |m: Seq<char>|
                device_command_v(input.device_id@, "robotCleanerMovement"@, "setRobotCleanerMovement"@, seq![jstr(m)]);
            &&& !turbo_ok ==> plan is Err
            &&& !(input.action@ == "start"@ || input.action@ == "pause"@ || input.action@ == "returnToHome"@)
                ==> plan is Err
            &&& turbo_ok && input.action@ == "start"@ ==> (plan is Ok && plan->Ok_0[0] == movement("cleaning"@))
            &&& turbo_ok && input.action@ == "pause"@ ==> (plan is Ok && plan->Ok_0[0] == movement("pause"@))
            &&& turbo_ok && input.action@ == "returnToHome"@ ==> (plan is Ok && plan->Ok_0[0] == movement("homing"@))
            &&& plan matches Ok(reqs) ==> {
                &&& reqs.len() == 1 + (if input.cleaning_mode is Some { 1int } else { 0int }) + (if input.turbo is Some { 1int } else { 0int })
                &&& input.cleaning_mode is Some ==> reqs.contains(
                    device_command_v(
                        input.device_id@,
                        "robotCleanerCleaningMode"@,
                        "setRobotCleanerCleaningMode"@,
                        seq![jstr(input.cleaning_mode->0@)],
                    ),
                )
                &&& input.turbo is Some ==> reqs.contains(
                    device_command_v(
                        input.device_id@,
                        "robotCleanerTurboMode"@,
                        "setRobotCleanerTurboMode"@,
                        seq![jstr(input.turbo->0@)],
                    ),
                )
            }
        }),
{
    reveal_strlit("start");
    reveal_strlit("pause");
    reveal_strlit("returnToHome");
    assert("start"@.len() == 5 && "pause"@.len() == 5 && "returnToHome"@.len() == 12);
    assert("start"@[0] != "pause"@[0]);
    assert(seq!["on"@, "off"@, "silence"@][0] == "on"@);
    assert(seq!["on"@, "off"@, "silence"@][1] == "off"@);
    assert(seq!["on"@, "off"@, "silence"@][2] == "silence"@);
    let d = input.device_id@;
    let plan = crate::extended_devices::vacuum::RobotVacuumTool::plan_v(input);
    if plan is Ok {
        let m = crate::extended_devices::vacuum::movement_v(input.action@)->0;
        let p0 = seq![device_command_v(d, "robotCleanerMovement"@, "setRobotCleanerMovement"@, seq![jstr(m)])];
        let p1 = crate::plan::sent_if(
            input.cleaning_mode is Some,
            device_command_v(d, "robotCleanerCleaningMode"@, "setRobotCleanerCleaningMode"@, seq![jstr(input.cleaning_mode->0@)]),
        );
        let p2 = crate::plan::sent_if(
            input.turbo is Some,
            device_command_v(d, "robotCleanerTurboMode"@, "setRobotCleanerTurboMode"@, seq![jstr(input.turbo->0@)]),
        );
        let all = p0 + p1 + p2;
        assert(plan == Ok::<Seq<ApiRequestV>, Seq<char>>(all));
        assert(all[0] == p0[0]);
        if input.cleaning_mode is Some {
            assert(all[1] == p1[0]);
        }
        if input.turbo is Some {
            assert(all[(1 + p1.len()) as int] == p2[0]);
        }
    }
}


/// A thermostat gets one command for each setting given and is refused where none is.
pub proof fn law_thermostat_count(input: crate::schemas::extended_devices::ThermostatInput)
    ensures
        (input.mode is Some || input.heating_setpoint is Some || input.cooling_setpoint is Some
            || input.fan_mode is Some) ==> (crate::extended_devices::thermostat::ThermostatTool::plan_v(input) is Ok
            && crate::extended_devices::thermostat::ThermostatTool::plan_v(input)->Ok_0.len() == (if input.mode is Some { 1int } else { 0int }) + (if input.heating_setpoint is Some { 1int } else { 0int }) + (if input.cooling_setpoint is Some { 1int } else { 0int }) + (if input.fan_mode is Some { 1int } else { 0int })),
        !(input.mode is Some || input.heating_setpoint is Some || input.cooling_setpoint is Some
            || input.fan_mode is Some) ==> crate::extended_devices::thermostat::ThermostatTool::plan_v(input) is Err,
{
}

} // verus!
