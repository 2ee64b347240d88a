//! What each endpoint test does: the request it makes from what the survey has stored,
//! what it stores from a successful reply, and the one endpoint that makes a second
//! request.
use vstd::prelude::*;

use crate::explorer::models::{
    opt_json_view, ApiCallResult, ApiCallResultV, Endpoint, TestContext,
    TestContextV,
};
use crate::json::{items_view, entries_view, member, opt_view, Json, JsonV, jstr};
use crate::text::{concat, concat3, join_v, owned, split_on, split_v, strings_view, trim, trim_v};

verus! {

/// The model of an endpoint's request.
pub struct CallV {
    pub method: Seq<char>,
    pub path: Seq<char>,
    pub body: Option<JsonV>,
    pub query: Option<Seq<(Seq<char>, Seq<char>)>>,
}

/// The request an endpoint test makes: method, path below the API's root, JSON body and
/// query parameters.
pub struct EndpointCall {
    pub method: String,
    pub path: String,
    pub body: Option<Json>,
    pub query: Option<Vec<(String, String)>>,
}

impl View for EndpointCall {
    type V = CallV;

    open spec fn view(&self) -> CallV {
        CallV {
            method: self.method@,
            path: self.path@,
            body: opt_json_view(self.body),
            query: match self.query {
                Some(q) => Some(crate::client::params_view(q@)),
                None => None,
            },
        }
    }
}

/// The model of a request, or of the message for a request that cannot be made.
pub open spec fn planned_view(r: Result<EndpointCall, String>) -> Result<CallV, Seq<char>> {
    match r {
        Ok(c) => Ok(c@),
        Err(m) => Err(m@),
    }
}

/// A GET request for `path`.
pub open spec fn get_call_v(path: Seq<char>) -> CallV {
    CallV { method: "GET"@, path, body: None, query: None }
}

/// A GET request for `prefix + id + suffix`, where `id` is what is stored under `key`;
/// the message `missing` where nothing is.
pub open spec fn with_id_v(
    s: Map<Seq<char>, Seq<char>>,
    key: Seq<char>,
    missing: Seq<char>,
    prefix: Seq<char>,
    suffix: Seq<char>,
) -> Result<CallV, Seq<char>> {
    if s.contains_key(key) {
        Ok(get_call_v(prefix + s[key] + suffix))
    } else {
        Err(missing)
    }
}

/// A one-parameter query.
pub open spec fn location_query_v(location_id: Seq<char>) -> Seq<(Seq<char>, Seq<char>)> {
    seq![("locationId"@, location_id)]
}

/// The body of the `refresh` command sent to a device.
pub open spec fn refresh_body_v() -> JsonV {
    JsonV::Object(
        seq![
            ("commands"@, JsonV::Array(
                seq![
                    JsonV::Object(
                        seq![
                            ("component"@, jstr("main"@)),
                            ("capability"@, jstr("refresh"@)),
                            ("command"@, jstr("refresh"@)),
                        ],
                    ),
                ],
            )),
        ],
    )
}

/// The first piece that is not blank once trimmed, trimmed.
pub open spec fn first_filled_v(pieces: Seq<Seq<char>>) -> Option<Seq<char>>
    decreases pieces.len(),
{
    if pieces.len() == 0 {
        None
    } else if trim_v(pieces[0]).len() > 0 {
        Some(trim_v(pieces[0]))
    } else {
        first_filled_v(pieces.drop_first())
    }
}

/// The capability looked up by the device-based test: the first capability stored from
/// the first device, or `temperatureMeasurement`.
pub open spec fn capability_choice_v(s: Map<Seq<char>, Seq<char>>) -> Seq<char> {
    if s.contains_key("deviceCapabilities"@) {
        match first_filled_v(split_v(s["deviceCapabilities"@], ',')) {
            Some(c) => c,
            None => "temperatureMeasurement"@,
        }
    } else {
        "temperatureMeasurement"@
    }
}

/// The first request of an endpoint test, given what is stored; or the message for what
/// it lacks.
pub open spec fn first_call_v(e: Endpoint, s: Map<Seq<char>, Seq<char>>) -> Result<CallV, Seq<char>> {
    match e {
        Endpoint::LocationsList => Ok(get_call_v("/locations"@)),
        Endpoint::LocationsGet => with_id_v(
            s,
            "locationId"@,
            "locationId 없음 — 위치 목록 조회 먼저 실행 필요"@,
            "/locations/"@,
            ""@,
        ),
        Endpoint::RoomsList => with_id_v(s, "locationId"@, "locationId 없음"@, "/locations/"@, "/rooms"@),
        Endpoint::RoomsGet => if s.contains_key("locationId"@) && s.contains_key("roomId"@) {
            Ok(get_call_v("/locations/"@ + s["locationId"@] + "/rooms/"@ + s["roomId"@]))
        } else {
            Err("locationId 또는 roomId 없음"@)
        },
        Endpoint::ModesList => with_id_v(s, "locationId"@, "locationId 없음"@, "/locations/"@, "/modes"@),
        Endpoint::ModesCurrent => with_id_v(
            s,
            "locationId"@,
            "locationId 없음"@,
            "/locations/"@,
            "/modes/current"@,
        ),
        Endpoint::DevicesList => Ok(get_call_v("/devices"@)),
        Endpoint::DevicesGet => with_id_v(s, "deviceId"@, "deviceId 없음"@, "/devices/"@, ""@),
        Endpoint::DevicesStatus => with_id_v(s, "deviceId"@, "deviceId 없음"@, "/devices/"@, "/status"@),
        Endpoint::DevicesHealth => with_id_v(s, "deviceId"@, "deviceId 없음"@, "/devices/"@, "/health"@),
        Endpoint::DevicesRefresh => if s.contains_key("deviceId"@) {
            Ok(
                CallV {
                    method: "POST"@,
                    path: "/devices/"@ + s["deviceId"@] + "/commands"@,
                    body: Some(refresh_body_v()),
                    query: None,
                },
            )
        } else {
            Err("deviceId 없음"@)
        },
        Endpoint::DeviceProfilesList => Ok(get_call_v("/deviceprofiles"@)),
        Endpoint::DeviceProfilesGet => with_id_v(
            s,
            "deviceProfileId"@,
            "등록된 프로필 없음 — 목록이 비어있습니다"@,
            "/deviceprofiles/"@,
            ""@,
        ),
        Endpoint::CapabilitiesNamespaces => Ok(get_call_v("/capabilities/namespaces"@)),
        Endpoint::CapabilitiesSwitch => Ok(get_call_v("/capabilities/switch/1"@)),
        Endpoint::CapabilitiesDeviceCap => Ok(
            get_call_v("/capabilities/"@ + capability_choice_v(s) + "/1"@),
        ),
        Endpoint::ScenesList => Ok(get_call_v("/scenes"@)),
        Endpoint::ScenesExecute => if s.contains_key("sceneId"@) {
            Ok(
                CallV {
                    method: "POST"@,
                    path: "/scenes/"@ + s["sceneId"@] + "/execute"@,
                    body: None,
                    query: None,
                },
            )
        } else {
            Err("sceneId 없음 — 씬이 등록되어 있지 않음"@)
        },
        Endpoint::RulesList => if s.contains_key("locationId"@) {
            Ok(
                CallV {
                    method: "GET"@,
                    path: "/rules"@,
                    body: None,
                    query: Some(location_query_v(s["locationId"@])),
                },
            )
        } else {
            Err("locationId 없음"@)
        },
        Endpoint::RulesGet => if s.contains_key("ruleId"@) {
            Ok(
                CallV {
                    method: "GET"@,
                    path: "/rules/"@ + s["ruleId"@],
                    body: None,
                    query: if s.contains_key("locationId"@) {
                        Some(location_query_v(s["locationId"@]))
                    } else {
                        None
                    },
                },
            )
        } else {
            Err("ruleId 없음 — 등록된 규칙 없음"@)
        },
        Endpoint::AppsList => Ok(get_call_v("/apps"@)),
        Endpoint::AppsGet => with_id_v(s, "appId"@, "appId 없음 — 등록된 앱 없음"@, "/apps/"@, ""@),
        Endpoint::InstalledAppsList => Ok(get_call_v("/installedapps"@)),
        Endpoint::InstalledAppsGet => with_id_v(
            s,
            "installedAppId"@,
            "installedAppId 없음"@,
            "/installedapps/"@,
            ""@,
        ),
        Endpoint::SubscriptionsList => with_id_v(
            s,
            "installedAppId"@,
            "installedAppId 없음 — 설치된 앱 필요"@,
            "/installedapps/"@,
            "/subscriptions"@,
        ),
        Endpoint::SchedulesList => with_id_v(
            s,
            "installedAppId"@,
            "installedAppId 없음 — 설치된 앱 필요"@,
            "/installedapps/"@,
            "/schedules"@,
        ),
        Endpoint::SchemaList => Ok(get_call_v("/schema/apps"@)),
        Endpoint::ServicesWeather => with_id_v(
            s,
            "locationId"@,
            "locationId 없음"@,
            "/services/coordinate/locations/"@,
            "/weather"@,
        ),
        Endpoint::HistoryDevices => if s.contains_key("deviceId"@) && s.contains_key("locationId"@) {
            Ok(
                CallV {
                    method: "GET"@,
                    path: "/history/devices"@,
                    body: None,
                    query: Some(
                        seq![("locationId"@, s["locationId"@]), ("deviceId"@, s["deviceId"@])],
                    ),
                },
            )
        } else {
            Err("deviceId 또는 locationId 없음"@)
        },
    }
}

/// The first element of the `items` array of a reply body, where there is one.
pub open spec fn first_item_v(body: Option<JsonV>) -> Option<JsonV> {
    match body {
        Some(b) => match b.get("items"@) {
            Some(JsonV::Array(a)) => if a.len() > 0 {
                Some(a[0])
            } else {
                None
            },
            _ => None,
        },
        None => None,
    }
}

/// The text of member `field` of `item`, where it is a string.
pub open spec fn string_field_v(item: JsonV, field: Seq<char>) -> Option<Seq<char>> {
    match item.get(field) {
        Some(JsonV::Str(t)) => Some(t),
        _ => None,
    }
}

/// The store after keeping member `field` of the first item of `body` under `key`,
/// where that member is a string.
pub open spec fn record_field_v(
    s: Map<Seq<char>, Seq<char>>,
    body: Option<JsonV>,
    field: Seq<char>,
    key: Seq<char>,
) -> Map<Seq<char>, Seq<char>> {
    match first_item_v(body) {
        Some(f) => match string_field_v(f, field) {
            Some(id) => s.insert(key, id),
            None => s,
        },
        None => s,
    }
}

/// The `id`s of a list of capabilities that have a string one, in order.
pub open spec fn capability_ids_v(caps: Seq<JsonV>) -> Seq<Seq<char>>
    decreases caps.len(),
{
    if caps.len() == 0 {
        Seq::empty()
    } else {
        let r = capability_ids_v(caps.drop_last());
        match string_field_v(caps.last(), "id"@) {
            Some(id) => r.push(id),
            None => r,
        }
    }
}

/// The capabilities of a device's first component, joined with commas; empty where the
/// device lists none.
pub open spec fn capability_list_v(device: JsonV) -> Seq<char> {
    match device.get("components"@) {
        Some(JsonV::Array(cs)) => if cs.len() > 0 {
            match cs[0].get("capabilities"@) {
                Some(JsonV::Array(caps)) => join_v(capability_ids_v(caps), ","@),
                _ => Seq::empty(),
            }
        } else {
            Seq::empty()
        },
        _ => Seq::empty(),
    }
}

/// The store after the device list: the first device's id, where it is a string, and
/// its capabilities.
pub open spec fn devices_record_v(s: Map<Seq<char>, Seq<char>>, body: Option<JsonV>) -> Map<
    Seq<char>,
    Seq<char>,
> {
    match first_item_v(body) {
        Some(f) => {
            let s1 = match string_field_v(f, "deviceId"@) {
                Some(id) => s.insert("deviceId"@, id),
                None => s,
            };
            s1.insert("deviceCapabilities"@, capability_list_v(f))
        },
        None => s,
    }
}

/// The store after an endpoint's first call: a list endpoint answered with status 200
/// keeps an identifier of its first item for the endpoints that need one.
pub open spec fn recorded_v(e: Endpoint, s: Map<Seq<char>, Seq<char>>, r: ApiCallResultV) -> Map<
    Seq<char>,
    Seq<char>,
> {
    let body = r.response.body;
    if r.response.status != 200 {
        s
    } else {
        match e {
            Endpoint::LocationsList => record_field_v(s, body, "locationId"@, "locationId"@),
            Endpoint::RoomsList => record_field_v(s, body, "roomId"@, "roomId"@),
            Endpoint::ModesList => record_field_v(s, body, "id"@, "modeId"@),
            Endpoint::DevicesList => devices_record_v(s, body),
            Endpoint::DeviceProfilesList => record_field_v(s, body, "id"@, "deviceProfileId"@),
            Endpoint::ScenesList => record_field_v(s, body, "sceneId"@, "sceneId"@),
            Endpoint::RulesList => record_field_v(s, body, "id"@, "ruleId"@),
            Endpoint::AppsList => record_field_v(s, body, "appId"@, "appId"@),
            Endpoint::InstalledAppsList => record_field_v(
                s,
                body,
                "installedAppId"@,
                "installedAppId"@,
            ),
            _ => s,
        }
    }
}

/// The second request of an endpoint test, given its first call: the weather test asks
/// the location's own weather path where the coordinate service answered 404.
pub open spec fn follow_up_v(e: Endpoint, s: Map<Seq<char>, Seq<char>>, first: ApiCallResultV) -> Option<
    CallV,
> {
    if e == Endpoint::ServicesWeather && first.response.status == 404 && s.contains_key(
        "locationId"@,
    ) {
        Some(get_call_v("/locations/"@ + s["locationId"@] + "/weather"@))
    } else {
        None
    }
}

/// A GET request for `path`.
pub fn get_call(path: String) -> (r: EndpointCall)
    ensures
        r@ == get_call_v(path@),
{
    EndpointCall { method: owned("GET"), path, body: None, query: None }
}

/// A GET request for `prefix + id + suffix`, `id` being what is stored under `key`.
pub fn with_id(ctx: &TestContext, key: &str, missing: &str, prefix: &str, suffix: &str) -> (r:
    Result<EndpointCall, String>)
    ensures
        planned_view(r) == with_id_v(ctx@.store, key@, missing@, prefix@, suffix@),
{
    match ctx.get_store(key) {
        Some(id) => Ok(get_call(concat3(prefix, id.as_str(), suffix))),
        None => Err(owned(missing)),
    }
}

/// The query `locationId=<id>`.
pub fn location_query(location_id: String) -> (r: Vec<(String, String)>)
    ensures
        crate::client::params_view(r@) == location_query_v(location_id@),
{
    let r = vec![(owned("locationId"), location_id)];
    assert(crate::client::params_view(r@) =~= location_query_v(r@[0].1@));
    r
}

/// The body of the `refresh` command.
pub fn refresh_body() -> (r: Json)
    ensures
        r@ == refresh_body_v(),
{
    let fields = vec![
        member("component", Json::Str(owned("main"))),
        member("capability", Json::Str(owned("refresh"))),
        member("command", Json::Str(owned("refresh"))),
    ];
    let ghost command_v = JsonV::Object(
        seq![
            ("component"@, jstr("main"@)),
            ("capability"@, jstr("refresh"@)),
            ("command"@, jstr("refresh"@)),
        ],
    );
    assert(entries_view(fields@) =~= command_v->Object_0);
    let commands = vec![Json::Object(fields)];
    assert(items_view(commands@) =~= seq![command_v]);
    let body = vec![member("commands", Json::Array(commands))];
    assert(entries_view(body@) =~= refresh_body_v()->Object_0);
    Json::Object(body)
}

/// The capability looked up by the device-based test.
pub fn capability_choice(ctx: &TestContext) -> (r: String)
    ensures
        r@ == capability_choice_v(ctx@.store),
{
    match ctx.get_store("deviceCapabilities") {
        Some(caps) => {
            let pieces = split_on(caps.as_str(), ',');
            let ghost ps = strings_view(pieces@);
            assert(ps.subrange(0, ps.len() as int) =~= ps);
            let mut i: usize = 0;
            while i < pieces.len()
                invariant
                    0 <= i <= pieces.len(),
                    ps == strings_view(pieces@),
                    ps == split_v(ctx@.store["deviceCapabilities"@], ','),
                    ctx@.store.contains_key("deviceCapabilities"@),
                    first_filled_v(ps) == first_filled_v(ps.subrange(i as int, ps.len() as int)),
                decreases pieces.len() - i,
            {
                let ghost rest = ps.subrange(i as int, ps.len() as int);
                assert(rest[0] == pieces@[i as int]@);
                assert(rest.drop_first() =~= ps.subrange(i + 1, ps.len() as int));
                let t = trim(pieces[i].as_str());
                if !t.as_str().is_empty() {
                    assert(rest.len() > 0);
                    assert(trim_v(rest[0]).len() > 0);
                    assert(first_filled_v(rest) == Some(t@));
                    return t;
                }
                i = i + 1;
            }
            owned("temperatureMeasurement")
        },
        None => owned("temperatureMeasurement"),
    }
}

/// The first request of an endpoint test, or the message for what it lacks.
pub fn first_call(e: Endpoint, ctx: &TestContext) -> (r: Result<EndpointCall, String>)
    ensures
        planned_view(r) == first_call_v(e, ctx@.store),
{
    match e {
        Endpoint::LocationsList => Ok(get_call(owned("/locations"))),
        Endpoint::LocationsGet => with_id(
            ctx,
            "locationId",
            "locationId 없음 — 위치 목록 조회 먼저 실행 필요",
            "/locations/",
            "",
        ),
        Endpoint::RoomsList => with_id(ctx, "locationId", "locationId 없음", "/locations/", "/rooms"),
        Endpoint::RoomsGet => match ctx.get_store("locationId") {
            None => Err(owned("locationId 또는 roomId 없음")),
            Some(location_id) => match ctx.get_store("roomId") {
                None => Err(owned("locationId 또는 roomId 없음")),
                Some(room_id) => {
                    let mut path = concat3("/locations/", location_id.as_str(), "/rooms/");
                    path.append(room_id.as_str());
                    Ok(get_call(path))
                },
            },
        },
        Endpoint::ModesList => with_id(ctx, "locationId", "locationId 없음", "/locations/", "/modes"),
        Endpoint::ModesCurrent => with_id(
            ctx,
            "locationId",
            "locationId 없음",
            "/locations/",
            "/modes/current",
        ),
        Endpoint::DevicesList => Ok(get_call(owned("/devices"))),
        Endpoint::DevicesGet => with_id(ctx, "deviceId", "deviceId 없음", "/devices/", ""),
        Endpoint::DevicesStatus => with_id(ctx, "deviceId", "deviceId 없음", "/devices/", "/status"),
        Endpoint::DevicesHealth => with_id(ctx, "deviceId", "deviceId 없음", "/devices/", "/health"),
        Endpoint::DevicesRefresh => match ctx.get_store("deviceId") {
            None => Err(owned("deviceId 없음")),
            Some(device_id) => Ok(
                EndpointCall {
                    method: owned("POST"),
                    path: concat3("/devices/", device_id.as_str(), "/commands"),
                    body: Some(refresh_body()),
                    query: None,
                },
            ),
        },
        Endpoint::DeviceProfilesList => Ok(get_call(owned("/deviceprofiles"))),
        Endpoint::DeviceProfilesGet => with_id(
            ctx,
            "deviceProfileId",
            "등록된 프로필 없음 — 목록이 비어있습니다",
            "/deviceprofiles/",
            "",
        ),
        Endpoint::CapabilitiesNamespaces => Ok(get_call(owned("/capabilities/namespaces"))),
        Endpoint::CapabilitiesSwitch => Ok(get_call(owned("/capabilities/switch/1"))),
        Endpoint::CapabilitiesDeviceCap => {
            let cap = capability_choice(ctx);
            Ok(get_call(concat3("/capabilities/", cap.as_str(), "/1")))
        },
        Endpoint::ScenesList => Ok(get_call(owned("/scenes"))),
        Endpoint::ScenesExecute => match ctx.get_store("sceneId") {
            None => Err(owned("sceneId 없음 — 씬이 등록되어 있지 않음")),
            Some(scene_id) => Ok(
                EndpointCall {
                    method: owned("POST"),
                    path: concat3("/scenes/", scene_id.as_str(), "/execute"),
                    body: None,
                    query: None,
                },
            ),
        },
        Endpoint::RulesList => match ctx.get_store("locationId") {
            None => Err(owned("locationId 없음")),
            Some(location_id) => Ok(
                EndpointCall {
                    method: owned("GET"),
                    path: owned("/rules"),
                    body: None,
                    query: Some(location_query(location_id)),
                },
            ),
        },
        Endpoint::RulesGet => match ctx.get_store("ruleId") {
            None => Err(owned("ruleId 없음 — 등록된 규칙 없음")),
            Some(rule_id) => {
                let query = match ctx.get_store("locationId") {
                    Some(location_id) => Some(location_query(location_id)),
                    None => None,
                };
                Ok(
                    EndpointCall {
                        method: owned("GET"),
                        path: concat("/rules/", rule_id.as_str()),
                        body: None,
                        query,
                    },
                )
            },
        },
        Endpoint::AppsList => Ok(get_call(owned("/apps"))),
        Endpoint::AppsGet => with_id(ctx, "appId", "appId 없음 — 등록된 앱 없음", "/apps/", ""),
        Endpoint::InstalledAppsList => Ok(get_call(owned("/installedapps"))),
        Endpoint::InstalledAppsGet => with_id(
            ctx,
            "installedAppId",
            "installedAppId 없음",
            "/installedapps/",
            "",
        ),
        Endpoint::SubscriptionsList => with_id(
            ctx,
            "installedAppId",
            "installedAppId 없음 — 설치된 앱 필요",
            "/installedapps/",
            "/subscriptions",
        ),
        Endpoint::SchedulesList => with_id(
            ctx,
            "installedAppId",
            "installedAppId 없음 — 설치된 앱 필요",
            "/installedapps/",
            "/schedules",
        ),
        Endpoint::SchemaList => Ok(get_call(owned("/schema/apps"))),
        Endpoint::ServicesWeather => with_id(
            ctx,
            "locationId",
            "locationId 없음",
            "/services/coordinate/locations/",
            "/weather",
        ),
        Endpoint::HistoryDevices => match ctx.get_store("deviceId") {
            None => Err(owned("deviceId 또는 locationId 없음")),
            Some(device_id) => match ctx.get_store("locationId") {
                None => Err(owned("deviceId 또는 locationId 없음")),
                Some(location_id) => {
                    let ghost q = seq![("locationId"@, location_id@), ("deviceId"@, device_id@)];
                    let query = vec![
                        (owned("locationId"), location_id),
                        (owned("deviceId"), device_id),
                    ];
                    assert(crate::client::params_view(query@) =~= q);
                    Ok(
                        EndpointCall {
                            method: owned("GET"),
                            path: owned("/history/devices"),
                            body: None,
                            query: Some(query),
                        },
                    )
                },
            },
        },
    }
}

/// The first element of the `items` array of a reply body.
pub fn first_item(body: &Option<Json>) -> (r: Option<&Json>)
    ensures
        opt_view(r) == first_item_v(opt_json_view(*body)),
{
    match body {
        Some(b) => match b.get("items") {
            Some(items) => match items.as_array() {
                Some(a) => if a.len() > 0 {
                    assert(items_view(a@)[0] == a@[0]@);
                    Some(&a[0])
                } else {
                    None
                },
                None => None,
            },
            None => None,
        },
        None => None,
    }
}

/// The text of member `field` of `item`, where it is a string.
pub fn string_field<'a>(item: &'a Json, field: &str) -> (r: Option<&'a String>)
    ensures
        match r {
            Some(t) => string_field_v(item@, field@) == Some(t@),
            None => string_field_v(item@, field@) is None,
        },
{
    match item.get(field) {
        Some(v) => v.as_str(),
        None => None,
    }
}

/// Keeps member `field` of the first item of `body` under `key`, where it is a string.
pub fn record_field(ctx: &mut TestContext, body: &Option<Json>, field: &str, key: &str)
    ensures
        final(ctx)@ == (TestContextV {
            store: record_field_v(old(ctx)@.store, opt_json_view(*body), field@, key@),
            ..old(ctx)@
        }),
{
    match first_item(body) {
        Some(f) => match string_field(f, field) {
            Some(id) => ctx.set_store(key, id.clone()),
            None => {},
        },
        None => {},
    }
}

/// The capabilities of a device's first component, joined with commas.
pub fn capability_list(device: &Json) -> (r: String)
    ensures
        r@ == capability_list_v(device@),
{
    let components = match device.get("components") {
        Some(c) => c,
        None => {
            return String::new();
        },
    };
    let cs = match components.as_array() {
        Some(a) => a,
        None => {
            return String::new();
        },
    };
    if cs.len() == 0 {
        return String::new();
    }
    assert(items_view(cs@)[0] == cs@[0]@);
    let caps = match cs[0].get("capabilities") {
        Some(c) => match c.as_array() {
            Some(a) => a,
            None => {
                return String::new();
            },
        },
        None => {
            return String::new();
        },
    };
    let ghost all = items_view(caps@);
    let mut out = String::new();
    let mut any = false;
    let mut i: usize = 0;
    while i < caps.len()
        invariant
            0 <= i <= caps.len(),
            all == items_view(caps@),
            out@ == join_v(capability_ids_v(all.take(i as int)), ","@),
            any == (capability_ids_v(all.take(i as int)).len() > 0),
        decreases caps.len() - i,
    {
        proof {
            assert(all.take(i + 1).drop_last() =~= all.take(i as int));
            assert(all.take(i + 1).last() == caps@[i as int]@);
        }
        let ghost before = capability_ids_v(all.take(i as int));
        match string_field(&caps[i], "id") {
            Some(id) => {
                if any {
                    out.append(",");
                }
                out.append(id.as_str());
                proof {
                    let after = before.push(id@);
                    assert(after.drop_last() =~= before);
                    if before.len() == 0 {
                        assert(after =~= seq![id@]);
                    }
                }
                any = true;
            },
            None => {},
        }
        i = i + 1;
    }
    assert(all.take(caps@.len() as int) =~= all);
    out
}

/// Keeps the first device's id and capabilities.
pub fn devices_record(ctx: &mut TestContext, body: &Option<Json>)
    ensures
        final(ctx)@ == (TestContextV {
            store: devices_record_v(old(ctx)@.store, opt_json_view(*body)),
            ..old(ctx)@
        }),
{
    match first_item(body) {
        Some(f) => {
            match string_field(f, "deviceId") {
                Some(id) => ctx.set_store("deviceId", id.clone()),
                None => {},
            }
            let caps = capability_list(f);
            ctx.set_store("deviceCapabilities", caps);
        },
        None => {},
    }
}

/// Keeps what an endpoint's first call found, for the endpoints that need it.
pub fn record(e: Endpoint, ctx: &mut TestContext, call: &ApiCallResult)
    ensures
        final(ctx)@ == (TestContextV { store: recorded_v(e, old(ctx)@.store, call@), ..old(ctx)@ }),
{
    if call.response.status != 200 {
        return ;
    }
    let body = &call.response.body;
    match e {
        Endpoint::LocationsList => record_field(ctx, body, "locationId", "locationId"),
        Endpoint::RoomsList => record_field(ctx, body, "roomId", "roomId"),
        Endpoint::ModesList => record_field(ctx, body, "id", "modeId"),
        Endpoint::DevicesList => devices_record(ctx, body),
        Endpoint::DeviceProfilesList => record_field(ctx, body, "id", "deviceProfileId"),
        Endpoint::ScenesList => record_field(ctx, body, "sceneId", "sceneId"),
        Endpoint::RulesList => record_field(ctx, body, "id", "ruleId"),
        Endpoint::AppsList => record_field(ctx, body, "appId", "appId"),
        Endpoint::InstalledAppsList => record_field(ctx, body, "installedAppId", "installedAppId"),
        _ => {},
    }
}

/// The second request of an endpoint test, where it makes one.
pub fn follow_up(e: Endpoint, ctx: &TestContext, first: &ApiCallResult) -> (r: Option<EndpointCall>)
    ensures
        match r {
            Some(c) => follow_up_v(e, ctx@.store, first@) == Some(c@),
            None => follow_up_v(e, ctx@.store, first@) is None,
        },
{
    if e == Endpoint::ServicesWeather && first.response.status == 404 {
        match ctx.get_store("locationId") {
            Some(location_id) => Some(get_call(concat3("/locations/", location_id.as_str(), "/weather"))),
            None => None,
        }
    } else {
        None
    }
}

} // verus!
