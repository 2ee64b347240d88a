//! What holds of the toolkit as a whole.
use vstd::prelude::*;

use crate::catalog::{Tool, ToolInput};
use crate::client::{response_v, ResponseV};
use crate::common_tools::{attribute_values_v, flatten_status_v};
use crate::json::{entries_get, entries_insert, JsonV, jstr};
use crate::plan::{has_error_v, plan_len};
use crate::run::{failure_v, first_error, lemma_first_error_sound, outcome_v, Invocation};
use crate::text::decimal;
use crate::tool::{anthropic_tool_v, fail_v, openai_tool_v};
use crate::{find_named, tools_v};

verus! {

/// With the tools for less common devices 38 tools are offered, without them 24.
pub proof fn law_tool_counts()
    ensures
        tools_v(true).len() == 38,
        tools_v(false).len() == 24,
{
}

/// The tools offered without those for less common devices are the first ones offered
/// with them, in the same order.
pub proof fn law_extended_tools_extend(i: int)
    requires
        0 <= i < tools_v(false).len(),
    ensures
        tools_v(true)[i] == tools_v(false)[i],
{
}

/// The tool whose name is `name`, read back from its length and its first and fifth
/// characters, which tell the names apart.
pub open spec fn tool_named(name: Seq<char>) -> Option<Tool> {
    if name.len() == 12 && name[0] == 'l' && name[4] == '_' {
        Some(Tool::ListDevices)
    } else if name.len() == 17 && name[0] == 'g' && name[4] == 'd' {
        Some(Tool::GetDeviceStatus)
    } else if name.len() == 12 && name[0] == 's' && name[4] == '_' {
        Some(Tool::SendCommand)
    } else if name.len() == 13 && name[0] == 'e' && name[4] == 'u' {
        Some(Tool::ExecuteScene)
    } else if name.len() == 11 && name[0] == 'g' && name[4] == 'w' {
        Some(Tool::GetWeather)
    } else if name.len() == 12 && name[0] == 's' && name[4] == 'c' {
        Some(Tool::SwitchPower)
    } else if name.len() == 14 && name[0] == 's' && name[4] == 'b' {
        Some(Tool::SetBrightness)
    } else if name.len() == 9 && name[0] == 's' && name[4] == 'c' {
        Some(Tool::SetColor)
    } else if name.len() == 21 && name[0] == 's' && name[4] == 'c' {
        Some(Tool::SetColorTemperature)
    } else if name.len() == 15 && name[0] == 'c' && name[4] == 'r' {
        Some(Tool::ControlCurtain)
    } else if name.len() == 8 && name[0] == 't' && name[4] == 'o' {
        Some(Tool::TvPower)
    } else if name.len() == 9 && name[0] == 't' && name[4] == 'o' {
        Some(Tool::TvVolume)
    } else if name.len() == 7 && name[0] == 't' && name[4] == 'u' {
        Some(Tool::TvMute)
    } else if name.len() == 10 && name[0] == 't' && name[4] == 'h' {
        Some(Tool::TvChannel)
    } else if name.len() == 8 && name[0] == 't' && name[4] == 'n' {
        Some(Tool::TvInput)
    } else if name.len() == 14 && name[0] == 'm' && name[4] == 'a' {
        Some(Tool::MediaPlayback)
    } else if name.len() == 12 && name[0] == 'm' && name[4] == 'a' {
        Some(Tool::MediaVolume)
    } else if name.len() == 10 && name[0] == 'a' && name[4] == 'o' {
        Some(Tool::AcControl)
    } else if name.len() == 20 && name[0] == 'a' && name[4] == 'p' {
        Some(Tool::AirPurifier)
    } else if name.len() == 20 && name[0] == 'd' && name[4] == 'm' {
        Some(Tool::Dehumidifier)
    } else if name.len() == 11 && name[0] == 'o' && name[4] == '_' {
        Some(Tool::OvenStatus)
    } else if name.len() == 15 && name[0] == 'g' && name[4] == 's' {
        Some(Tool::GetSensorData)
    } else if name.len() == 15 && name[0] == 'g' && name[4] == 'e' {
        Some(Tool::GetEnergyData)
    } else if name.len() == 18 && name[0] == 'g' && name[4] == 'b' {
        Some(Tool::GetBatteryStatus)
    } else if name.len() == 20 && name[0] == 'r' && name[4] == 't' {
        Some(Tool::RobotVacuum)
    } else if name.len() == 17 && name[0] == 'd' && name[4] == '_' {
        Some(Tool::DoorLock)
    } else if name.len() == 14 && name[0] == 'w' && name[4] == 'e' {
        Some(Tool::Washer)
    } else if name.len() == 13 && name[0] == 'd' && name[4] == 'r' {
        Some(Tool::Dryer)
    } else if name.len() == 18 && name[0] == 'd' && name[4] == 'w' {
        Some(Tool::Dishwasher)
    } else if name.len() == 20 && name[0] == 'r' && name[4] == 'i' {
        Some(Tool::Refrigerator)
    } else if name.len() == 18 && name[0] == 't' && name[4] == 'm' {
        Some(Tool::Thermostat)
    } else if name.len() == 13 && name[0] == 'a' && name[4] == 'm' {
        Some(Tool::Alarm)
    } else if name.len() == 23 && name[0] == 's' && name[4] == 'r' {
        Some(Tool::SecuritySystem)
    } else if name.len() == 19 && name[0] == 'g' && name[4] == 'g' {
        Some(Tool::GarageDoor)
    } else if name.len() == 13 && name[0] == 'v' && name[4] == 'e' {
        Some(Tool::Valve)
    } else if name.len() == 21 && name[0] == 's' && name[4] == 'e' {
        Some(Tool::SmokeDetector)
    } else if name.len() == 18 && name[0] == 'c' && name[4] == 'e' {
        Some(Tool::CoDetector)
    } else if name.len() == 17 && name[0] == 'w' && name[4] == 'r' {
        Some(Tool::WaterLeak)
    } else {
        None
    }
}

/// A tool's name reads back as the tool.
pub proof fn lemma_name_reads_back(t: Tool)
    ensures
        tool_named(t.name_v()) == Some(t),
{
    match t {
        Tool::ListDevices => {
            reveal_strlit("list_devices");
        },
        Tool::GetDeviceStatus => {
            reveal_strlit("get_device_status");
        },
        Tool::SendCommand => {
            reveal_strlit("send_command");
        },
        Tool::ExecuteScene => {
            reveal_strlit("execute_scene");
        },
        Tool::GetWeather => {
            reveal_strlit("get_weather");
        },
        Tool::SwitchPower => {
            reveal_strlit("switch_power");
        },
        Tool::SetBrightness => {
            reveal_strlit("set_brightness");
        },
        Tool::SetColor => {
            reveal_strlit("set_color");
        },
        Tool::SetColorTemperature => {
            reveal_strlit("set_color_temperature");
        },
        Tool::ControlCurtain => {
            reveal_strlit("control_curtain");
        },
        Tool::TvPower => {
            reveal_strlit("tv_power");
        },
        Tool::TvVolume => {
            reveal_strlit("tv_volume");
        },
        Tool::TvMute => {
            reveal_strlit("tv_mute");
        },
        Tool::TvChannel => {
            reveal_strlit("tv_channel");
        },
        Tool::TvInput => {
            reveal_strlit("tv_input");
        },
        Tool::MediaPlayback => {
            reveal_strlit("media_playback");
        },
        Tool::MediaVolume => {
            reveal_strlit("media_volume");
        },
        Tool::AcControl => {
            reveal_strlit("ac_control");
        },
        Tool::AirPurifier => {
            reveal_strlit("air_purifier_control");
        },
        Tool::Dehumidifier => {
            reveal_strlit("dehumidifier_control");
        },
        Tool::OvenStatus => {
            reveal_strlit("oven_status");
        },
        Tool::GetSensorData => {
            reveal_strlit("get_sensor_data");
        },
        Tool::GetEnergyData => {
            reveal_strlit("get_energy_data");
        },
        Tool::GetBatteryStatus => {
            reveal_strlit("get_battery_status");
        },
        Tool::RobotVacuum => {
            reveal_strlit("robot_vacuum_control");
        },
        Tool::DoorLock => {
            reveal_strlit("door_lock_control");
        },
        Tool::Washer => {
            reveal_strlit("washer_control");
        },
        Tool::Dryer => {
            reveal_strlit("dryer_control");
        },
        Tool::Dishwasher => {
            reveal_strlit("dishwasher_control");
        },
        Tool::Refrigerator => {
            reveal_strlit("refrigerator_control");
        },
        Tool::Thermostat => {
            reveal_strlit("thermostat_control");
        },
        Tool::Alarm => {
            reveal_strlit("alarm_control");
        },
        Tool::SecuritySystem => {
            reveal_strlit("security_system_control");
        },
        Tool::GarageDoor => {
            reveal_strlit("garage_door_control");
        },
        Tool::Valve => {
            reveal_strlit("valve_control");
        },
        Tool::SmokeDetector => {
            reveal_strlit("smoke_detector_status");
        },
        Tool::CoDetector => {
            reveal_strlit("co_detector_status");
        },
        Tool::WaterLeak => {
            reveal_strlit("water_leak_status");
        },
    }
}

/// No two tools share a name.
pub proof fn law_tool_names_identify(a: Tool, b: Tool)
    requires
        a.name_v() == b.name_v(),
    ensures
        a == b,
{
    lemma_name_reads_back(a);
    lemma_name_reads_back(b);
}

/// The tools offered are distinct, so that each name finds the tool offered under it.
pub proof fn law_offered_tools_distinct(include_extended: bool, i: int, j: int)
    requires
        0 <= i < j < tools_v(include_extended).len(),
    ensures
        tools_v(include_extended)[i] != tools_v(include_extended)[j],
        tools_v(include_extended)[i].name_v() != tools_v(include_extended)[j].name_v(),
{
    if tools_v(include_extended)[i].name_v() == tools_v(include_extended)[j].name_v() {
        law_tool_names_identify(tools_v(include_extended)[i], tools_v(include_extended)[j]);
    }
}

/// Looking a name up finds a tool of that name, or there is none of that name.
pub proof fn law_find_named(tools: Seq<Tool>, name: Seq<char>)
    ensures
        match find_named(tools, name) {
            Some(t) => t.name_v() == name && tools.contains(t),
            None => forall|i: int| 0 <= i < tools.len() ==> #[trigger] tools[i].name_v() != name,
        },
    decreases tools.len(),
{
    if tools.len() > 0 {
        law_find_named(tools.drop_first(), name);
        if find_named(tools, name) is Some && tools[0].name_v() != name {
            let t = find_named(tools, name)->0;
            let k = choose|k: int| 0 <= k < tools.drop_first().len() && tools.drop_first()[k] == t;
            assert(tools[k + 1] == t);
        }
        assert forall|i: int| 1 <= i < tools.len() implies tools[i] == tools.drop_first()[i - 1] by {}
    }
}

/// A call of a tool that is not offered is answered `Unknown tool: <name>` before any
/// request is sent, whatever replies would follow.
pub proof fn law_unknown_tool_refused(name: Seq<char>, replies: Seq<ResponseV>)
    ensures
        outcome_v(Invocation::UnknownTool(name), replies) == Some(fail_v("Unknown tool: "@ + name)),
{
}

/// Arguments that cannot be read are answered `ValidationError: <message>` before any
/// request is sent.
pub proof fn law_unreadable_arguments_refused(message: Seq<char>, replies: Seq<ResponseV>)
    ensures
        outcome_v(Invocation::Arguments(Err(message)), replies) == Some(
            fail_v("ValidationError: "@ + message),
        ),
{
}

/// While every reply so far came without an error and the plan is not exhausted, the run
/// still has a request to send.
pub proof fn law_run_continues(input: ToolInput, replies: Seq<ResponseV>)
    requires
        input.plan_v() is Ok,
        replies.len() < plan_len(input.plan_v()),
        forall|j: int| 0 <= j < replies.len() ==> !has_error_v(#[trigger] replies[j]),
    ensures
        outcome_v(Invocation::Arguments(Ok(input)), replies) is None,
{
    lemma_first_error_sound(replies);
}

/// A request that the service refuses ends the run: the call is answered with the
/// failure of that reply (its error message, and for the tools that report it the reply),
/// and whatever replies would follow change nothing.
pub proof fn law_refused_request_ends_run(input: ToolInput, replies: Seq<ResponseV>, k: int, more: Seq<ResponseV>)
    requires
        input.plan_v() is Ok,
        0 <= k < plan_len(input.plan_v()),
        k < replies.len(),
        has_error_v(replies[k]),
        forall|j: int| 0 <= j < k ==> !has_error_v(#[trigger] replies[j]),
    ensures
        outcome_v(Invocation::Arguments(Ok(input)), replies.take(k + 1)) == Some(
            failure_v(input.tool_v(), replies[k]),
        ),
        outcome_v(Invocation::Arguments(Ok(input)), replies.take(k + 1) + more) == Some(
            failure_v(input.tool_v(), replies[k]),
        ),
{
    let plan = input.plan_v()->Ok_0;
    let s = replies.take(k + 1);
    let t = s + more;
    let at = if t.len() <= plan.len() {
        t
    } else {
        t.take(plan.len() as int)
    };
    lemma_first_error_sound(s);
    lemma_first_error_sound(at);
    assert(first_error(s) == Some(k)) by {
        match first_error(s) {
            Some(m) => {
                assert(s[k] == replies[k]);
                if m < k {
                    assert(s[m] == replies[m]);
                }
            },
            None => {
                assert(s[k] == replies[k]);
            },
        }
    }
    assert(first_error(at) == Some(k)) by {
        assert(at[k] == replies[k]);
        match first_error(at) {
            Some(m) => {
                if m < k {
                    assert(at[m] == replies[m]);
                }
            },
            None => {},
        }
    }
    assert(at[k] == replies[k]);
    assert(s[k] == replies[k]);
}

/// Every answer is a success without an error message, or a failure with one.
pub proof fn law_success_without_error(call: Invocation, replies: Seq<ResponseV>)
    ensures
        match outcome_v(call, replies) {
            Some(r) => r.success <==> r.error is None,
            None => true,
        },
{
    match call {
        Invocation::Arguments(Ok(input)) => {
            match input.plan_v() {
                Ok(plan) => {
                    let answered = if replies.len() <= plan.len() {
                        replies
                    } else {
                        replies.take(plan.len() as int)
                    };
                    match first_error(answered) {
                        Some(k) => {},
                        None => {
                            if replies.len() >= plan.len() {
                                let r = input.finish_v(replies.take(plan.len() as int));
                                assert(r.success && r.error is None);
                            }
                        },
                    }
                },
                Err(_) => {},
            }
        },
        _ => {},
    }
}

/// A tool described for OpenAI's API is of type `function`.
pub proof fn law_openai_tools_are_functions(name: Seq<char>, description: Seq<char>, schema: JsonV)
    ensures
        openai_tool_v(name, description, schema).get("type"@) == Some(jstr("function"@)),
{
}

/// A tool described for Anthropic's API carries the schema of its arguments as its
/// `input_schema`.
pub proof fn law_anthropic_tools_carry_schema(name: Seq<char>, description: Seq<char>, schema: JsonV)
    ensures
        anthropic_tool_v(name, description, schema).get("input_schema"@) == Some(schema),
{
    reveal_strlit("name");
    reveal_strlit("description");
    reveal_strlit("input_schema");
    reveal_with_fuel(entries_get, 4);
    assert("name"@.len() == 4);
    assert("input_schema"@.len() == 12);
    assert("name"@ != "input_schema"@);
}

/// Setting a member and reading it back gives what was set.
pub proof fn law_member_read_after_set(e: Seq<(Seq<char>, JsonV)>, key: Seq<char>, value: JsonV)
    ensures
        entries_get(entries_insert(e, key, value), key) == Some(value),
    decreases e.len(),
{
    if e.len() > 0 && e[0].0 != key {
        law_member_read_after_set(e.drop_first(), key, value);
        assert((seq![e[0]] + entries_insert(e.drop_first(), key, value)).drop_first()
            =~= entries_insert(e.drop_first(), key, value));
    }
}

/// A reply with an error status (400 or more) always tells the status in `status_code`.
pub proof fn law_error_status_reported(
    status: nat,
    text: Seq<char>,
    parsed: Option<Seq<(Seq<char>, JsonV)>>,
)
    requires
        status >= 400,
    ensures
        entries_get(response_v(status, text, parsed).fields, "status_code"@)
            == Some(JsonV::Number(decimal(status))),
{
    law_member_read_after_set(
        crate::client::body_fields_v(text, parsed),
        "status_code"@,
        JsonV::Number(decimal(status)),
    );
}


/// Each attribute with a `value` is listed as `capability.attribute`.
proof fn lemma_attribute_listed(capability: Seq<char>, attrs: Seq<(Seq<char>, JsonV)>, j: int, v: JsonV)
    requires
        0 <= j < attrs.len(),
        attrs[j].1.get("value"@) == Some(v),
    ensures
        attribute_values_v(capability, attrs).contains((capability + "."@ + attrs[j].0, v)),
    decreases attrs.len(),
{
    let p = attribute_values_v(capability, attrs.drop_last());
    let r = attribute_values_v(capability, attrs);
    if j == attrs.len() - 1 {
        assert(r[p.len() as int] == (capability + "."@ + attrs[j].0, v));
    } else {
        assert(attrs.drop_last()[j] == attrs[j]);
        lemma_attribute_listed(capability, attrs.drop_last(), j, v);
        let k = choose|k: int| 0 <= k < p.len() && p[k] == (capability + "."@ + attrs[j].0, v);
        assert(r[k] == p[k]);
    }
}

/// Each member listed is `capability.attribute` with the `value` of an attribute.
proof fn lemma_attribute_from(capability: Seq<char>, attrs: Seq<(Seq<char>, JsonV)>, k: int)
    requires
        0 <= k < attribute_values_v(capability, attrs).len(),
    ensures
        exists|j: int|
            0 <= j < attrs.len() && #[trigger] attrs[j].1.get("value"@) == Some(
                attribute_values_v(capability, attrs)[k].1,
            ) && attribute_values_v(capability, attrs)[k].0 == capability + "."@ + attrs[j].0,
    decreases attrs.len(),
{
    let p = attribute_values_v(capability, attrs.drop_last());
    let r = attribute_values_v(capability, attrs);
    if k < p.len() {
        assert(r[k] == p[k]);
        lemma_attribute_from(capability, attrs.drop_last(), k);
        let j = choose|j: int|
            0 <= j < attrs.drop_last().len() && #[trigger] attrs.drop_last()[j].1.get("value"@) == Some(
                p[k].1,
            ) && p[k].0 == capability + "."@ + attrs.drop_last()[j].0;
        assert(attrs[j] == attrs.drop_last()[j]);
    } else {
        assert(attrs[attrs.len() - 1] == attrs.last());
    }
}

/// The status of a device lists `capability.attribute` with its value for every attribute
/// of its main component that has a `value`, and nothing else.
pub proof fn law_status_lists_each_value(
    caps: Seq<(Seq<char>, JsonV)>,
    i: int,
    j: int,
    v: JsonV,
    k: int,
)
    ensures
        0 <= i < caps.len() && caps[i].1 is Object && 0 <= j < caps[i].1->Object_0.len()
            && caps[i].1->Object_0[j].1.get("value"@) == Some(v) ==> flatten_status_v(caps).contains(
            (caps[i].0 + "."@ + caps[i].1->Object_0[j].0, v),
        ),
        0 <= k < flatten_status_v(caps).len() ==> exists|i2: int, j2: int|
            0 <= i2 < caps.len() && caps[i2].1 is Object && 0 <= j2 < caps[i2].1->Object_0.len()
                && #[trigger] caps[i2].1->Object_0[j2].1.get("value"@) == Some(flatten_status_v(caps)[k].1)
                && flatten_status_v(caps)[k].0 == caps[i2].0 + "."@ + caps[i2].1->Object_0[j2].0,
    decreases caps.len(),
{
    if caps.len() > 0 {
        let pc = caps.drop_last();
        let p = flatten_status_v(pc);
        let f = flatten_status_v(caps);
        let last = caps.last();
        let tail = match last.1 {
            JsonV::Object(attrs) => attribute_values_v(last.0, attrs),
            _ => Seq::empty(),
        };
        assert(f == p + tail);
        if 0 <= i < caps.len() && caps[i].1 is Object && 0 <= j < caps[i].1->Object_0.len()
            && caps[i].1->Object_0[j].1.get("value"@) == Some(v) {
            if i < caps.len() - 1 {
                assert(pc[i] == caps[i]);
                law_status_lists_each_value(pc, i, j, v, 0);
                let x = choose|x: int| 0 <= x < p.len() && p[x] == (caps[i].0 + "."@ + caps[i].1->Object_0[j].0, v);
                assert(f[x] == p[x]);
            } else {
                lemma_attribute_listed(last.0, last.1->Object_0, j, v);
                let x = choose|x: int| 0 <= x < tail.len() && tail[x] == (caps[i].0 + "."@ + caps[i].1->Object_0[j].0, v);
                assert(f[p.len() + x] == tail[x]);
            }
        }
        if 0 <= k < f.len() {
            if k < p.len() {
                assert(f[k] == p[k]);
                law_status_lists_each_value(pc, 0, 0, v, k);
                let (i2, j2) = choose|i2: int, j2: int|
                    0 <= i2 < pc.len() && pc[i2].1 is Object && 0 <= j2 < pc[i2].1->Object_0.len()
                        && #[trigger] pc[i2].1->Object_0[j2].1.get("value"@) == Some(p[k].1)
                        && p[k].0 == pc[i2].0 + "."@ + pc[i2].1->Object_0[j2].0;
                assert(caps[i2] == pc[i2]);
            } else {
                assert(f[k] == tail[k - p.len()]);
                lemma_attribute_from(last.0, last.1->Object_0, k - p.len());
                assert(caps[caps.len() - 1] == last);
            }
        }
    }
}

} // verus!
