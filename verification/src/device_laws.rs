//! What the device tools send and report, stated over their arguments and the replies:
//! which capability and command carries each setting, and what a reply is read as.
use vstd::prelude::*;

use crate::client::ResponseV;
use crate::common_tools::{GetDeviceStatusTool, ListDevicesTool};
use crate::extended_devices::thermostat::ThermostatTool;
use crate::json::{entries_get, int_v, opt_get, or_null, jstr, JsonV};
use crate::my_devices::climate::AcControlTool;
use crate::my_devices::media::MediaVolumeTool;
use crate::my_devices::tv::TvVolumeTool;
use crate::plan::device_command_v;
use crate::schemas::common::{GetDeviceStatusInput, ListDevicesInput};
use crate::schemas::extended_devices::ThermostatInput;
use crate::schemas::my_devices::{AcControlInput, MediaVolumeInput, TvVolumeInput};

verus! {

/// Two device commands are the same request only where they name the same device,
/// capability, command and arguments.
pub proof fn lemma_command_parts(
    d1: Seq<char>,
    c1: Seq<char>,
    m1: Seq<char>,
    a1: Seq<JsonV>,
    d2: Seq<char>,
    c2: Seq<char>,
    m2: Seq<char>,
    a2: Seq<JsonV>,
)
    requires
        device_command_v(d1, c1, m1, a1) == device_command_v(d2, c2, m2, a2),
    ensures
        c1 == c2,
        m1 == m2,
        a1 == a2,
{
    let b1 = device_command_v(d1, c1, m1, a1).body->0->Object_0[0].1->Array_0[0]->Object_0;
    let b2 = device_command_v(d2, c2, m2, a2).body->0->Object_0[0].1->Array_0[0]->Object_0;
    assert(b1 == b2);
    assert(b1[1].1 == jstr(c1));
    assert(b2[1].1 == jstr(c2));
    assert(b1[2].1 == jstr(m1));
    assert(b2[2].1 == jstr(m2));
    assert(b1[3].1 == JsonV::Array(a1));
    assert(b2[3].1 == JsonV::Array(a2));
}

/// The volume of a TV goes up for `up` and down for `down`: the one command sent to the
/// device named is `audioVolume.volumeUp` or `audioVolume.volumeDown`, without arguments,
/// and `set` with a level sends `audioVolume.setVolume` with that level.
pub proof fn law_tv_volume_direction(input: TvVolumeInput)
    ensures
        input.action@ == "up"@ ==> TvVolumeTool::plan_v(input) == Ok::<Seq<crate::client::ApiRequestV>, Seq<char>>(
            seq![device_command_v(input.device_id@, "audioVolume"@, "volumeUp"@, Seq::empty())],
        ),
        input.action@ == "down"@ ==> TvVolumeTool::plan_v(input) == Ok::<Seq<crate::client::ApiRequestV>, Seq<char>>(
            seq![device_command_v(input.device_id@, "audioVolume"@, "volumeDown"@, Seq::empty())],
        ),
        input.action@ == "set"@ && input.volume is Some ==> TvVolumeTool::plan_v(input) == Ok::<
            Seq<crate::client::ApiRequestV>,
            Seq<char>,
        >(
            seq![device_command_v(input.device_id@, "audioVolume"@, "setVolume"@, seq![int_v(input.volume->0 as int)])],
        ),
{
    reveal_strlit("up");
    reveal_strlit("down");
    reveal_strlit("set");
    assert("up"@.len() == 2 && "down"@.len() == 4 && "set"@.len() == 3);
    assert("up"@ != "set"@ && "down"@ != "set"@ && "down"@ != "up"@);
}

/// The volume of a media device goes up for `up` and down for `down`, as for a TV.
pub proof fn law_media_volume_direction(input: MediaVolumeInput)
    ensures
        input.action@ == "up"@ ==> MediaVolumeTool::plan_v(input) == Ok::<Seq<crate::client::ApiRequestV>, Seq<char>>(
            seq![device_command_v(input.device_id@, "audioVolume"@, "volumeUp"@, Seq::empty())],
        ),
        input.action@ == "down"@ ==> MediaVolumeTool::plan_v(input) == Ok::<
            Seq<crate::client::ApiRequestV>,
            Seq<char>,
        >(seq![device_command_v(input.device_id@, "audioVolume"@, "volumeDown"@, Seq::empty())]),
        input.action@ == "set"@ && input.volume is Some ==> MediaVolumeTool::plan_v(input) == Ok::<
            Seq<crate::client::ApiRequestV>,
            Seq<char>,
        >(
            seq![device_command_v(input.device_id@, "audioVolume"@, "setVolume"@, seq![int_v(input.volume->0 as int)])],
        ),
{
    reveal_strlit("up");
    reveal_strlit("down");
    reveal_strlit("set");
    assert("up"@.len() == 2 && "down"@.len() == 4 && "set"@.len() == 3);
    assert("up"@ != "set"@ && "down"@ != "set"@ && "down"@ != "up"@);
}

/// The settings of a thermostat each travel on their own capability and command, to the
/// device named: the mode as `thermostatMode.setThermostatMode`, the heating set point as
/// `thermostatHeatingSetpoint.setHeatingSetpoint`, the cooling set point as
/// `thermostatCoolingSetpoint.setCoolingSetpoint`, the fan mode as
/// `thermostatFanMode.setThermostatFanMode`. Each given setting is sent so, and each such
/// command carries the setting given and no other value.
#[verifier::spinoff_prover]
#[verifier::rlimit(40)]
pub proof fn law_thermostat_settings(input: ThermostatInput, k: int, args: Seq<JsonV>)
    ensures
        ThermostatTool::plan_v(input) matches Ok(reqs) ==> {
            let d = input.device_id@;
            &&& input.mode is Some ==> reqs.contains(
                device_command_v(d, "thermostatMode"@, "setThermostatMode"@, seq![jstr(input.mode->0@)]),
            )
            &&& input.heating_setpoint is Some ==> reqs.contains(
                device_command_v(
                    d,
                    "thermostatHeatingSetpoint"@,
                    "setHeatingSetpoint"@,
                    seq![input.heating_setpoint->0@],
                ),
            )
            &&& input.cooling_setpoint is Some ==> reqs.contains(
                device_command_v(
                    d,
                    "thermostatCoolingSetpoint"@,
                    "setCoolingSetpoint"@,
                    seq![input.cooling_setpoint->0@],
                ),
            )
            &&& input.fan_mode is Some ==> reqs.contains(
                device_command_v(d, "thermostatFanMode"@, "setThermostatFanMode"@, seq![jstr(input.fan_mode->0@)]),
            )
            &&& 0 <= k < reqs.len() && reqs[k] == device_command_v(
                d,
                "thermostatHeatingSetpoint"@,
                "setHeatingSetpoint"@,
                args,
            ) ==> input.heating_setpoint is Some && args == seq![input.heating_setpoint->0@]
            &&& 0 <= k < reqs.len() && reqs[k] == device_command_v(
                d,
                "thermostatCoolingSetpoint"@,
                "setCoolingSetpoint"@,
                args,
            ) ==> input.cooling_setpoint is Some && args == seq![input.cooling_setpoint->0@]
        },
{
    reveal_strlit("thermostatMode");
    reveal_strlit("thermostatHeatingSetpoint");
    reveal_strlit("thermostatCoolingSetpoint");
    reveal_strlit("thermostatFanMode");
    let d = input.device_id@;
    let heat = "thermostatHeatingSetpoint"@;
    let cool = "thermostatCoolingSetpoint"@;
    let mode = "thermostatMode"@;
    let fan = "thermostatFanMode"@;
    assert(heat[10] != cool[10]);
    assert(heat != cool && heat != mode && heat != fan && cool != mode && cool != fan);
    let m = crate::plan::sent_if(
        input.mode is Some,
        device_command_v(d, mode, "setThermostatMode"@, seq![jstr(input.mode->0@)]),
    );
    let h = crate::plan::sent_if(
        input.heating_setpoint is Some,
        device_command_v(d, heat, "setHeatingSetpoint"@, seq![input.heating_setpoint->0@]),
    );
    let c = crate::plan::sent_if(
        input.cooling_setpoint is Some,
        device_command_v(d, cool, "setCoolingSetpoint"@, seq![input.cooling_setpoint->0@]),
    );
    let f = crate::plan::sent_if(
        input.fan_mode is Some,
        device_command_v(d, fan, "setThermostatFanMode"@, seq![jstr(input.fan_mode->0@)]),
    );
    let all = m + h + c + f;
    if ThermostatTool::plan_v(input) is Ok {
        assert(ThermostatTool::plan_v(input) == Ok::<Seq<crate::client::ApiRequestV>, Seq<char>>(all));
        if input.mode is Some {
            assert(all[0] == m[0]);
        }
        if input.heating_setpoint is Some {
            assert(all[m.len() as int] == h[0]);
        }
        if input.cooling_setpoint is Some {
            assert(all[(m.len() + h.len()) as int] == c[0]);
        }
        if input.fan_mode is Some {
            assert(all[(m.len() + h.len() + c.len()) as int] == f[0]);
        }
        if 0 <= k < all.len() {
            let r = all[k];
            if k < m.len() {
                assert(r == m[k]);
                if r == device_command_v(d, heat, "setHeatingSetpoint"@, args) {
                    lemma_command_parts(d, mode, "setThermostatMode"@, seq![jstr(input.mode->0@)], d, heat, "setHeatingSetpoint"@, args);
                }
                if r == device_command_v(d, cool, "setCoolingSetpoint"@, args) {
                    lemma_command_parts(d, mode, "setThermostatMode"@, seq![jstr(input.mode->0@)], d, cool, "setCoolingSetpoint"@, args);
                }
            } else if k < m.len() + h.len() {
                assert(r == h[k - m.len()]);
                if r == device_command_v(d, heat, "setHeatingSetpoint"@, args) {
                    lemma_command_parts(d, heat, "setHeatingSetpoint"@, seq![input.heating_setpoint->0@], d, heat, "setHeatingSetpoint"@, args);
                }
                if r == device_command_v(d, cool, "setCoolingSetpoint"@, args) {
                    lemma_command_parts(d, heat, "setHeatingSetpoint"@, seq![input.heating_setpoint->0@], d, cool, "setCoolingSetpoint"@, args);
                }
            } else if k < m.len() + h.len() + c.len() {
                assert(r == c[k - m.len() - h.len()]);
                if r == device_command_v(d, heat, "setHeatingSetpoint"@, args) {
                    lemma_command_parts(d, cool, "setCoolingSetpoint"@, seq![input.cooling_setpoint->0@], d, heat, "setHeatingSetpoint"@, args);
                }
                if r == device_command_v(d, cool, "setCoolingSetpoint"@, args) {
                    lemma_command_parts(d, cool, "setCoolingSetpoint"@, seq![input.cooling_setpoint->0@], d, cool, "setCoolingSetpoint"@, args);
                }
            } else {
                assert(r == f[k - m.len() - h.len() - c.len()]);
                if r == device_command_v(d, heat, "setHeatingSetpoint"@, args) {
                    lemma_command_parts(d, fan, "setThermostatFanMode"@, seq![jstr(input.fan_mode->0@)], d, heat, "setHeatingSetpoint"@, args);
                }
                if r == device_command_v(d, cool, "setCoolingSetpoint"@, args) {
                    lemma_command_parts(d, fan, "setThermostatFanMode"@, seq![jstr(input.fan_mode->0@)], d, cool, "setCoolingSetpoint"@, args);
                }
            }
        }
    }
}

/// An air conditioner's settings go to the device named: the power as the `switch`
/// command of that name, and the temperature as the argument of
/// `thermostatCoolingSetpoint.setCoolingSetpoint`. A given temperature is sent so, each
/// such command carries the temperature given, and no heating set point is ever sent.
#[verifier::spinoff_prover]
#[verifier::rlimit(40)]
pub proof fn law_ac_settings(input: AcControlInput, k: int, args: Seq<JsonV>)
    ensures
        AcControlTool::plan_v(input) matches Ok(reqs) ==> {
            let d = input.device_id@;
            &&& input.power is Some ==> reqs.contains(device_command_v(d, "switch"@, input.power->0@, Seq::empty()))
            &&& input.temperature is Some ==> reqs.contains(
                device_command_v(
                    d,
                    "thermostatCoolingSetpoint"@,
                    "setCoolingSetpoint"@,
                    seq![input.temperature->0@],
                ),
            )
            &&& 0 <= k < reqs.len() && reqs[k] == device_command_v(
                d,
                "thermostatCoolingSetpoint"@,
                "setCoolingSetpoint"@,
                args,
            ) ==> input.temperature is Some && args == seq![input.temperature->0@]
            &&& 0 <= k < reqs.len() ==> reqs[k] != device_command_v(
                d,
                "thermostatHeatingSetpoint"@,
                "setHeatingSetpoint"@,
                args,
            )
        },
{
    reveal_strlit("switch");
    reveal_strlit("airConditionerMode");
    reveal_strlit("thermostatCoolingSetpoint");
    reveal_strlit("thermostatHeatingSetpoint");
    reveal_strlit("airConditionerFanMode");
    let d = input.device_id@;
    let sw = "switch"@;
    let mode = "airConditionerMode"@;
    let cool = "thermostatCoolingSetpoint"@;
    let heat = "thermostatHeatingSetpoint"@;
    let fan = "airConditionerFanMode"@;
    assert(heat[10] != cool[10]);
    assert(sw.len() == 6 && mode.len() == 18 && cool.len() == 25 && heat.len() == 25 && fan.len() == 21);
    assert(cool != sw && cool != mode && cool != fan && heat != sw && heat != mode && heat != fan && heat != cool);
    let margs = seq![jstr(input.mode->0@)];
    let targs = seq![input.temperature->0@];
    let fargs = seq![jstr(crate::text::signed_decimal(input.wind_level->0 as int))];
    let p = crate::plan::sent_if(input.power is Some, device_command_v(d, sw, input.power->0@, Seq::empty()));
    let m = crate::plan::sent_if(input.mode is Some, device_command_v(d, mode, "setAirConditionerMode"@, margs));
    let t = crate::plan::sent_if(input.temperature is Some, device_command_v(d, cool, "setCoolingSetpoint"@, targs));
    let f = crate::plan::sent_if(input.wind_level is Some, device_command_v(d, fan, "setFanMode"@, fargs));
    let all = p + m + t + f;
    if AcControlTool::plan_v(input) is Ok {
        assert(AcControlTool::plan_v(input) == Ok::<Seq<crate::client::ApiRequestV>, Seq<char>>(all));
        if input.power is Some {
            assert(all[0] == p[0]);
        }
        if input.temperature is Some {
            assert(all[(p.len() + m.len()) as int] == t[0]);
        }
        if 0 <= k < all.len() {
            let r = all[k];
            let (c0, m0, a0) = if k < p.len() {
                assert(r == p[k]);
                (sw, input.power->0@, Seq::<JsonV>::empty())
            } else if k < p.len() + m.len() {
                assert(r == m[k - p.len()]);
                (mode, "setAirConditionerMode"@, margs)
            } else if k < p.len() + m.len() + t.len() {
                assert(r == t[k - p.len() - m.len()]);
                (cool, "setCoolingSetpoint"@, targs)
            } else {
                assert(r == f[k - p.len() - m.len() - t.len()]);
                (fan, "setFanMode"@, fargs)
            };
            assert(r == device_command_v(d, c0, m0, a0));
            if r == device_command_v(d, cool, "setCoolingSetpoint"@, args) {
                lemma_command_parts(d, c0, m0, a0, d, cool, "setCoolingSetpoint"@, args);
            }
            if r == device_command_v(d, heat, "setHeatingSetpoint"@, args) {
                lemma_command_parts(d, c0, m0, a0, d, heat, "setHeatingSetpoint"@, args);
            }
        }
    }
}

/// The status read for a device is the `main` component of its reply, flattened: where
/// the reply's `components.main` is an object, the status has `c.a: v` for each
/// capability `c` of it with an attribute `a` whose `value` is `v`, and every member of
/// the status is one of these; where there is no such object, the status is empty. The
/// result also names the device asked about.
pub proof fn law_device_status(
    input: GetDeviceStatusInput,
    replies: Seq<ResponseV>,
    i: int,
    j: int,
    v: JsonV,
    k: int,
)
    requires
        replies.len() == 1,
    ensures
        GetDeviceStatusTool::finish_v(input, replies).success,
        GetDeviceStatusTool::finish_v(input, replies).data matches Some(JsonV::Object(top)) && {
            &&& top.len() == 2
            &&& top[0] == ("device_id"@, jstr(input.device_id@))
            &&& top[1].0 == "status"@
            &&& top[1].1 matches JsonV::Object(st) && (match opt_get(
                entries_get(replies[0].fields, "components"@),
                "main"@,
            ) {
                Some(JsonV::Object(main)) => {
                    &&& 0 <= i < main.len() && main[i].1 is Object && 0 <= j < main[i].1->Object_0.len()
                        && main[i].1->Object_0[j].1.get("value"@) == Some(v) ==> st.contains(
                        (main[i].0 + "."@ + main[i].1->Object_0[j].0, v),
                    )
                    &&& 0 <= k < st.len() ==> exists|i2: int, j2: int|
                        0 <= i2 < main.len() && main[i2].1 is Object && 0 <= j2
                            < main[i2].1->Object_0.len()
                            && #[trigger] main[i2].1->Object_0[j2].1.get("value"@) == Some(st[k].1)
                            && st[k].0 == main[i2].0 + "."@ + main[i2].1->Object_0[j2].0
                },
                _ => st.len() == 0,
            })
        },
{
    match opt_get(entries_get(replies[0].fields, "components"@), "main"@) {
        Some(JsonV::Object(main)) => {
            crate::laws::law_status_lists_each_value(main, i, j, v, k);
        },
        _ => {},
    }
}

/// Whether the first component of a listed device names a capability with id `x`.
pub open spec fn lists_capability(item: JsonV, x: JsonV) -> bool {
    match item.get("components"@) {
        Some(JsonV::Array(comps)) => comps.len() > 0 && match comps[0].get("capabilities"@) {
            Some(JsonV::Array(caps)) => exists|n: int|
                0 <= n < caps.len() && #[trigger] caps[n].get("id"@) == Some(x),
            _ => false,
        },
        _ => false,
    }
}

proof fn lemma_capability_ids(caps: Seq<JsonV>, x: JsonV)
    ensures
        crate::common_tools::capability_ids_v(caps).contains(x) <==> exists|n: int|
            0 <= n < caps.len() && #[trigger] caps[n].get("id"@) == Some(x),
    decreases caps.len(),
{
    if caps.len() > 0 {
        let p = caps.drop_last();
        lemma_capability_ids(p, x);
        let ids = crate::common_tools::capability_ids_v(caps);
        let pids = crate::common_tools::capability_ids_v(p);
        let tail = match caps.last().get("id"@) {
            Some(id) => seq![id],
            None => Seq::<JsonV>::empty(),
        };
        assert(ids == pids + tail);
        if ids.contains(x) {
            let q = choose|q: int| 0 <= q < ids.len() && ids[q] == x;
            if q < pids.len() {
                assert(pids[q] == x);
                let n = choose|n: int| 0 <= n < p.len() && #[trigger] p[n].get("id"@) == Some(x);
                assert(caps[n] == p[n]);
            } else {
                assert(tail[q - pids.len()] == x);
                assert(caps[caps.len() - 1].get("id"@) == Some(x));
            }
        }
        if exists|n: int| 0 <= n < caps.len() && #[trigger] caps[n].get("id"@) == Some(x) {
            let n = choose|n: int| 0 <= n < caps.len() && #[trigger] caps[n].get("id"@) == Some(x);
            if n < caps.len() - 1 {
                assert(p[n] == caps[n]);
                assert(p[n].get("id"@) == Some(x));
                let q = choose|q: int| 0 <= q < pids.len() && pids[q] == x;
                assert(ids[q] == pids[q]);
            } else {
                assert(ids[pids.len() as int] == x);
            }
        }
    }
}

/// The devices listed are the reply's `items` (none where it has no array of them), in
/// order and as many: each with `device_id` its `deviceId`, `label` its `label`, `room_id`
/// its `roomId` (`null` where a member is missing), and `capabilities` the ids of the
/// capabilities of its first component; `count` is their number.
pub proof fn law_device_list(input: ListDevicesInput, replies: Seq<ResponseV>, i: int, x: JsonV)
    requires
        replies.len() == 1,
    ensures
        ListDevicesTool::finish_v(input, replies).success,
        ListDevicesTool::finish_v(input, replies).data matches Some(d) && {
            let items = match entries_get(replies[0].fields, "items"@) {
                Some(JsonV::Array(a)) => a,
                _ => Seq::empty(),
            };
            &&& d.get("count"@) == Some(int_v(items.len() as int))
            &&& d.get("devices"@) matches Some(JsonV::Array(ds)) && ds.len() == items.len() && (0 <= i
                < items.len() ==> {
                &&& ds[i].get("device_id"@) == Some(or_null(items[i].get("deviceId"@)))
                &&& ds[i].get("label"@) == Some(or_null(items[i].get("label"@)))
                &&& ds[i].get("room_id"@) == Some(or_null(items[i].get("roomId"@)))
                &&& ds[i].get("capabilities"@) matches Some(JsonV::Array(cs)) && (cs.contains(x)
                    <==> lists_capability(items[i], x))
            })
        },
{
    let items = match entries_get(replies[0].fields, "items"@) {
        Some(JsonV::Array(a)) => a,
        _ => Seq::empty(),
    };
    reveal_strlit("devices");
    reveal_strlit("count");
    reveal_strlit("device_id");
    reveal_strlit("label");
    reveal_strlit("room_id");
    reveal_strlit("capabilities");
    assert("devices"@ != "count"@ && "device_id"@ != "capabilities"@ && "label"@ != "capabilities"@
        && "room_id"@ != "capabilities"@ && "label"@ != "device_id"@ && "room_id"@ != "device_id"@
        && "room_id"@ != "label"@) by {
        assert("devices"@.len() == 7 && "count"@.len() == 5 && "capabilities"@.len() == 12);
        assert("device_id"@.len() == 9 && "label"@.len() == 5 && "room_id"@.len() == 7);
    }
    let ds = Seq::new(items.len(), |n: int| crate::common_tools::device_summary_v(items[n]));
    let d = crate::common_tools::device_list_v(replies[0]);
    assert(crate::common_tools::reply_items_v(replies[0]) == items);
    assert(d == JsonV::Object(seq![("devices"@, JsonV::Array(ds)), ("count"@, int_v(items.len() as int))]));
    assert(d.get("devices"@) == Some(JsonV::Array(ds))) by {
        reveal_with_fuel(entries_get, 2);
    }
    assert(d.get("count"@) == Some(int_v(items.len() as int))) by {
        reveal_with_fuel(entries_get, 3);
    }
    if 0 <= i < items.len() {
        let item = items[i];
        let e = ds[i]->Object_0;
        assert(ds[i] == crate::common_tools::device_summary_v(item));
        assert(entries_get(e, "device_id"@) == Some(or_null(item.get("deviceId"@)))) by {
            reveal_with_fuel(entries_get, 2);
        }
        assert(entries_get(e, "label"@) == Some(or_null(item.get("label"@)))) by {
            reveal_with_fuel(entries_get, 3);
        }
        assert(entries_get(e, "room_id"@) == Some(or_null(item.get("roomId"@)))) by {
            reveal_with_fuel(entries_get, 4);
        }
        assert(entries_get(e, "capabilities"@) == Some(JsonV::Array(crate::common_tools::device_capabilities_v(item)))) by {
            reveal_with_fuel(entries_get, 5);
        }
        match item.get("components"@) {
            Some(JsonV::Array(comps)) => {
                if comps.len() > 0 {
                    match comps[0].get("capabilities"@) {
                        Some(JsonV::Array(caps)) => {
                            lemma_capability_ids(caps, x);
                        },
                        _ => {},
                    }
                }
            },
            _ => {},
        }
    }
}


/// A device command is one POST to `/devices/<id>/commands` whose body lists one
/// command: `{"commands": [{"component", "capability", "command", "arguments"}]}`, the
/// component being `main`; a read is a GET with no body, and a post has no query.
pub proof fn law_request_shapes(
    d: Seq<char>,
    c: Seq<char>,
    m: Seq<char>,
    a: Seq<JsonV>,
    path: Seq<char>,
    q: Seq<(Seq<char>, Seq<char>)>,
    body: Option<JsonV>,
)
    ensures
        device_command_v(d, c, m, a) == (crate::client::ApiRequestV {
            method: crate::client::Method::Post,
            path: "/devices/"@ + d + "/commands"@,
            body: Some(
                JsonV::Object(
                    seq![
                        ("commands"@, JsonV::Array(
                            seq![
                                JsonV::Object(
                                    seq![
                                        ("component"@, JsonV::Str("main"@)),
                                        ("capability"@, JsonV::Str(c)),
                                        ("command"@, JsonV::Str(m)),
                                        ("arguments"@, JsonV::Array(a)),
                                    ],
                                ),
                            ],
                        )),
                    ],
                ),
            ),
            params: Seq::empty(),
        }),
        crate::client::get_v(path, q) == (crate::client::ApiRequestV {
            method: crate::client::Method::Get,
            path,
            body: None,
            params: q,
        }),
        crate::client::post_v(path, body) == (crate::client::ApiRequestV {
            method: crate::client::Method::Post,
            path,
            body,
            params: Seq::empty(),
        }),
{
}


/// A reply body is read as an object: nothing for a blank text, the members of a JSON
/// object, or else the one member `raw` holding the text. A service that cannot be
/// reached is answered `{"error": <why>, "status_code": 0}`.
pub proof fn law_reply_bodies(text: Seq<char>, members: Seq<(Seq<char>, JsonV)>, message: Seq<char>)
    ensures
        crate::text::blank(text) ==> crate::client::body_fields_v(text, Some(members)).len() == 0
            && crate::client::body_fields_v(text, None).len() == 0,
        !crate::text::blank(text) ==> crate::client::body_fields_v(text, Some(members)) == members,
        !crate::text::blank(text) ==> crate::client::body_fields_v(text, None) == seq![("raw"@, JsonV::Str(text))],
        entries_get(crate::client::unreachable_v(message).fields, "error"@) == Some(JsonV::Str(message)),
        entries_get(crate::client::unreachable_v(message).fields, "status_code"@) == Some(JsonV::Number("0"@)),
{
    reveal_strlit("error");
    reveal_strlit("status_code");
    assert("error"@.len() == 5 && "status_code"@.len() == 11);
    reveal_with_fuel(entries_get, 3);
}

} // verus!
