//! The five tools that work on any device: listing, status, raw commands, scenes, weather;
//! and the reading of error replies, shared by every tool.
use vstd::prelude::*;

use crate::client::{
    command_v, get_v, post_v, responses_view, status_v, ApiRequestV, Response, ResponseV,
    SmartThingsClient,
};
use crate::json::{
    count_json, entries_get, entries_lookup, entries_view, int_v, items_view, member, opt_get,
    or_null, or_null_of, Json, JsonV, jstr, clone_items,
};
use crate::plan::{
    error_message_v, error_msg_v, has_error_v, plan_view, reply_json, reply_json_v,
    single,
};
use crate::schemas::common::{
    ExecuteSceneInput, GetDeviceStatusInput, GetWeatherInput, ListDevicesInput, SendCommandInput,
};
use crate::text::{concat3, owned};
use crate::tool::{ok_v, ToolResult, ToolResultV};

verus! {

/// The message of a reply's `error` member, where it has one.
pub fn extract_error(response: &Response) -> (r: Option<String>)
    ensures
        match r {
            Some(m) => error_message_v(response@) == Some(m@),
            None => error_message_v(response@) is None,
        },
{
    match entries_lookup(&response.fields, "error") {
        None => None,
        Some(e) => match e {
            Json::Object(m) => match entries_lookup(m, "message") {
                Some(Json::Str(s)) => Some(s.clone()),
                _ => Some(e.to_text()),
            },
            _ => Some(e.to_text()),
        },
    }
}

/// The message of a reply's `error` member, or `Unknown error` where it has none.
pub fn extract_error_msg(response: &Response) -> (r: String)
    ensures
        r@ == error_msg_v(response@),
{
    match extract_error(response) {
        Some(m) => m,
        None => owned("Unknown error"),
    }
}

/// Whether a reply carries an `error` member.
pub fn has_error(response: &Response) -> (r: bool)
    ensures
        r == has_error_v(response@),
{
    match entries_lookup(&response.fields, "error") {
        Some(_) => true,
        None => false,
    }
}

/// The query parameters of `list_devices`: `locationId` and `capability`, where given.
pub open spec fn list_params_v(input: ListDevicesInput) -> Seq<(Seq<char>, Seq<char>)> {
    (match input.location_id {
        Some(l) => seq![("locationId"@, l@)],
        None => Seq::empty(),
    }) + (match input.capability {
        Some(c) => seq![("capability"@, c@)],
        None => Seq::empty(),
    })
}

/// The ids of the capabilities in a list, skipping entries without an `id`.
pub open spec fn capability_ids_v(caps: Seq<JsonV>) -> Seq<JsonV>
    decreases caps.len(),
{
    if caps.len() == 0 {
        Seq::empty()
    } else {
        capability_ids_v(caps.drop_last()) + match caps.last().get("id"@) {
            Some(id) => seq![id],
            None => Seq::empty(),
        }
    }
}

/// The capability ids of a device's first component.
pub open spec fn device_capabilities_v(item: JsonV) -> Seq<JsonV> {
    match item.get("components"@) {
        Some(JsonV::Array(cs)) => if cs.len() > 0 {
            match cs[0].get("capabilities"@) {
                Some(JsonV::Array(caps)) => capability_ids_v(caps),
                _ => Seq::empty(),
            }
        } else {
            Seq::empty()
        },
        _ => Seq::empty(),
    }
}

/// A device of the list: id, label, room and capability ids.
pub open spec fn device_summary_v(item: JsonV) -> JsonV {
    JsonV::Object(
        seq![
            ("device_id"@, or_null(item.get("deviceId"@))),
            ("label"@, or_null(item.get("label"@))),
            ("room_id"@, or_null(item.get("roomId"@))),
            ("capabilities"@, JsonV::Array(device_capabilities_v(item))),
        ],
    )
}

/// The `items` of a reply, where it is an array.
pub open spec fn reply_items_v(r: ResponseV) -> Seq<JsonV> {
    match entries_get(r.fields, "items"@) {
        Some(JsonV::Array(a)) => a,
        _ => Seq::empty(),
    }
}

/// The result of `list_devices`: `{"devices": [...], "count": n}`.
pub open spec fn device_list_v(r: ResponseV) -> JsonV {
    let items = reply_items_v(r);
    JsonV::Object(
        seq![
            ("devices"@, JsonV::Array(Seq::new(items.len(), |i: int| device_summary_v(items[i])))),
            ("count"@, int_v(items.len() as int)),
        ],
    )
}

/// The capability ids of a list of capabilities.
fn capability_ids(caps: &Vec<Json>) -> (r: Vec<Json>)
    ensures
        items_view(r@) == capability_ids_v(items_view(caps@)),
{
    let ghost cv = items_view(caps@);
    let mut out: Vec<Json> = Vec::new();
    let mut i: usize = 0;
    while i < caps.len()
        invariant
            0 <= i <= caps.len(),
            cv == items_view(caps@),
            items_view(out@) == capability_ids_v(cv.take(i as int)),
        decreases caps.len() - i,
    {
        assert(cv.take(i + 1).drop_last() =~= cv.take(i as int));
        assert(cv.take(i + 1).last() == caps@[i as int]@);
        match caps[i].get("id") {
            Some(id) => {
                let ghost before = out@;
                out.push(id.deep_clone());
                assert(items_view(out@) =~= items_view(before) + seq![id@]);
            },
            None => {},
        }
        i = i + 1;
    }
    assert(cv.take(caps.len() as int) =~= cv);
    out
}

/// The capability ids of a device's first component.
fn device_capabilities(item: &Json) -> (r: Vec<Json>)
    ensures
        items_view(r@) == device_capabilities_v(item@),
{
    let empty: Vec<Json> = Vec::new();
    assert(items_view(empty@) =~= Seq::empty());
    match item.get("components") {
        Some(Json::Array(cs)) => {
            if cs.len() > 0 {
                match cs[0].get("capabilities") {
                    Some(Json::Array(caps)) => capability_ids(caps),
                    _ => empty,
                }
            } else {
                empty
            }
        },
        _ => empty,
    }
}

/// A device of the list.
fn device_summary(item: &Json) -> (r: Json)
    ensures
        r@ == device_summary_v(item@),
{
    let caps = device_capabilities(item);
    let v = vec![
        member("device_id", or_null_of(item.get("deviceId"))),
        member("label", or_null_of(item.get("label"))),
        member("room_id", or_null_of(item.get("roomId"))),
        member("capabilities", Json::Array(caps)),
    ];
    assert(entries_view(v@) =~= device_summary_v(item@)->Object_0);
    Json::Object(v)
}

/// Lists the devices, optionally of one location or with one capability.
pub struct ListDevicesTool<'a> {
    pub client: &'a SmartThingsClient,
}

impl<'a> ListDevicesTool<'a> {
    /// The plan: one GET of `/devices` with the given filters.
    pub open spec fn plan_v(input: ListDevicesInput) -> Result<Seq<ApiRequestV>, Seq<char>> {
        Ok(seq![get_v("/devices"@, list_params_v(input))])
    }

    /// The plan.
    pub fn plan(&self, input: &ListDevicesInput) -> (r: Result<Vec<crate::client::ApiRequest>, String>)
        ensures
            plan_view(r) == Self::plan_v(*input),
    {
        let mut params: Vec<(String, String)> = Vec::new();
        if let Some(loc) = &input.location_id {
            params.push((owned("locationId"), loc.clone()));
        }
        if let Some(cap) = &input.capability {
            params.push((owned("capability"), cap.clone()));
        }
        assert(crate::client::params_view(params@) =~= list_params_v(*input));
        let p = if params.len() == 0 {
            assert(crate::client::params_view(params@) =~= Seq::empty());
            None
        } else {
            Some(params)
        };
        single(self.client.get("/devices", p))
    }

    /// The result: the devices of the reply, each with its id, label, room and
    /// capability ids, and their number.
    pub open spec fn finish_v(input: ListDevicesInput, replies: Seq<ResponseV>) -> ToolResultV {
        ok_v(device_list_v(replies[0]))
    }

    /// The result.
    pub fn finish(&self, input: &ListDevicesInput, replies: &Vec<Response>) -> (r: ToolResult)
        requires
            replies.len() == 1,
        ensures
            r@ == Self::finish_v(*input, responses_view(replies@)),
    {
        let response = &replies[0];
        let ghost rv = responses_view(replies@)[0];
        let ghost items = reply_items_v(rv);
        let empty: Vec<Json> = Vec::new();
        let items_ref: &Vec<Json> = match entries_lookup(&response.fields, "items") {
            Some(Json::Array(a)) => a,
            _ => &empty,
        };
        assert(items_view(items_ref@) =~= items);
        let mut devices: Vec<Json> = Vec::new();
        let mut i: usize = 0;
        while i < items_ref.len()
            invariant
                0 <= i <= items_ref.len(),
                items == items_view(items_ref@),
                devices@.len() == i,
                forall|j: int| 0 <= j < i ==> devices@[j]@ == device_summary_v(items[j]),
            decreases items_ref.len() - i,
        {
            devices.push(device_summary(&items_ref[i]));
            i = i + 1;
        }
        let count = devices.len();
        assert(items_view(devices@) =~= Seq::new(items.len(), |i: int| device_summary_v(items[i])));
        let v = vec![member("devices", Json::Array(devices)), member("count", count_json(count))];
        assert(entries_view(v@) =~= device_list_v(rv)->Object_0);
        ToolResult::ok(Json::Object(v))
    }
}

/// The members of a capability's attributes that carry a `value`, each named
/// `capability.attribute`.
pub open spec fn attribute_values_v(capability: Seq<char>, attrs: Seq<(Seq<char>, JsonV)>) -> Seq<
    (Seq<char>, JsonV),
>
    decreases attrs.len(),
{
    if attrs.len() == 0 {
        Seq::empty()
    } else {
        attribute_values_v(capability, attrs.drop_last()) + match attrs.last().1.get("value"@) {
            Some(v) => seq![(capability + "."@ + attrs.last().0, v)],
            None => Seq::empty(),
        }
    }
}

/// The status of a component flattened to `capability.attribute: value`.
pub open spec fn flatten_status_v(caps: Seq<(Seq<char>, JsonV)>) -> Seq<(Seq<char>, JsonV)>
    decreases caps.len(),
{
    if caps.len() == 0 {
        Seq::empty()
    } else {
        flatten_status_v(caps.drop_last()) + match caps.last().1 {
            JsonV::Object(attrs) => attribute_values_v(caps.last().0, attrs),
            _ => Seq::empty(),
        }
    }
}

/// The `main` component of a status reply, where it is an object.
pub open spec fn main_component_v(r: ResponseV) -> Option<JsonV> {
    opt_get(entries_get(r.fields, "components"@), "main"@)
}

/// The members of the `main` component of a status reply.
pub open spec fn main_members_v(r: ResponseV) -> Seq<(Seq<char>, JsonV)> {
    match main_component_v(r) {
        Some(JsonV::Object(m)) => m,
        _ => Seq::empty(),
    }
}

fn attribute_values(capability: &String, attrs: &Vec<(String, Json)>, out: &mut Vec<(String, Json)>)
    ensures
        entries_view(final(out)@) == entries_view(old(out)@) + attribute_values_v(
            capability@,
            entries_view(attrs@),
        ),
{
    let ghost av = entries_view(attrs@);
    let ghost start = entries_view(out@);
    let mut i: usize = 0;
    while i < attrs.len()
        invariant
            0 <= i <= attrs.len(),
            av == entries_view(attrs@),
            entries_view(out@) == start + attribute_values_v(capability@, av.take(i as int)),
        decreases attrs.len() - i,
    {
        assert(av.take(i + 1).drop_last() =~= av.take(i as int));
        assert(av.take(i + 1).last() == av[i as int]);
        if let Some(value) = attrs[i].1.get("value") {
            let name = concat3(capability.as_str(), ".", attrs[i].0.as_str());
            let ghost before = entries_view(out@);
            out.push((name, value.deep_clone()));
            assert(entries_view(out@) =~= before + seq![(capability@ + "."@ + av[i as int].0, value@)]);
        }
        i = i + 1;
    }
    assert(av.take(attrs.len() as int) =~= av);
}

/// The status of a component flattened to `capability.attribute: value`.
fn flatten_status(caps: &Vec<(String, Json)>) -> (r: Vec<(String, Json)>)
    ensures
        entries_view(r@) == flatten_status_v(entries_view(caps@)),
{
    let ghost cv = entries_view(caps@);
    let mut out: Vec<(String, Json)> = Vec::new();
    let mut i: usize = 0;
    while i < caps.len()
        invariant
            0 <= i <= caps.len(),
            cv == entries_view(caps@),
            entries_view(out@) == flatten_status_v(cv.take(i as int)),
        decreases caps.len() - i,
    {
        assert(cv.take(i + 1).drop_last() =~= cv.take(i as int));
        assert(cv.take(i + 1).last() == cv[i as int]);
        match &caps[i].1 {
            Json::Object(attrs) => {
                attribute_values(&caps[i].0, attrs, &mut out);
            },
            _ => {
                assert(entries_view(out@) =~= entries_view(out@) + Seq::empty());
            },
        }
        i = i + 1;
    }
    assert(cv.take(caps.len() as int) =~= cv);
    out
}

/// The `main` component of a status reply.
pub fn main_component(response: &Response) -> (r: Option<&Json>)
    ensures
        crate::json::opt_view(r) == main_component_v(response@),
{
    match entries_lookup(&response.fields, "components") {
        Some(c) => c.get("main"),
        None => None,
    }
}

/// Reads a device's status, flattened to `capability.attribute: value`.
pub struct GetDeviceStatusTool<'a> {
    pub client: &'a SmartThingsClient,
}

impl<'a> GetDeviceStatusTool<'a> {
    /// The plan: one GET of the device's status.
    pub open spec fn plan_v(input: GetDeviceStatusInput) -> Result<Seq<ApiRequestV>, Seq<char>> {
        Ok(seq![status_v(input.device_id@)])
    }

    /// The plan.
    pub fn plan(&self, input: &GetDeviceStatusInput) -> (r: Result<Vec<crate::client::ApiRequest>, String>)
        ensures
            plan_view(r) == Self::plan_v(*input),
    {
        let path = concat3("/devices/", input.device_id.as_str(), "/status");
        single(self.client.get(path.as_str(), None))
    }

    /// The result: `{"device_id", "status"}`, the status being the `main` component's
    /// attribute values.
    pub open spec fn finish_v(input: GetDeviceStatusInput, replies: Seq<ResponseV>) -> ToolResultV {
        ok_v(
            JsonV::Object(
                seq![
                    ("device_id"@, jstr(input.device_id@)),
                    ("status"@, JsonV::Object(flatten_status_v(main_members_v(replies[0])))),
                ],
            ),
        )
    }

    /// The result.
    pub fn finish(&self, input: &GetDeviceStatusInput, replies: &Vec<Response>) -> (r: ToolResult)
        requires
            replies.len() == 1,
        ensures
            r@ == Self::finish_v(*input, responses_view(replies@)),
    {
        let ghost rv = responses_view(replies@)[0];
        let empty: Vec<(String, Json)> = Vec::new();
        let members: &Vec<(String, Json)> = match main_component(&replies[0]) {
            Some(Json::Object(m)) => m,
            _ => &empty,
        };
        assert(entries_view(members@) =~= main_members_v(rv));
        let flat = flatten_status(members);
        let v = vec![member("device_id", Json::Str(input.device_id.clone())), member("status", Json::Object(flat))];
        assert(entries_view(v@) =~= Self::finish_v(*input, responses_view(replies@)).data.unwrap()->Object_0);
        ToolResult::ok(Json::Object(v))
    }
}

/// Sends any command of any capability.
pub struct SendCommandTool<'a> {
    pub client: &'a SmartThingsClient,
}

impl<'a> SendCommandTool<'a> {
    /// The plan: the command with the given arguments, to the given component.
    pub open spec fn plan_v(input: SendCommandInput) -> Result<Seq<ApiRequestV>, Seq<char>> {
        Ok(
            seq![
                command_v(
                    input.device_id@,
                    input.capability@,
                    input.command@,
                    items_view(input.arguments@),
                    input.component@,
                ),
            ],
        )
    }

    /// The plan.
    pub fn plan(&self, input: &SendCommandInput) -> (r: Result<Vec<crate::client::ApiRequest>, String>)
        ensures
            plan_view(r) == Self::plan_v(*input),
    {
        single(
            self.client.command(
                input.device_id.as_str(),
                input.capability.as_str(),
                input.command.as_str(),
                Some(clone_items(&input.arguments)),
                Some(input.component.as_str()),
            ),
        )
    }

    /// The result: `{"device_id", "result": reply}`.
    pub open spec fn finish_v(input: SendCommandInput, replies: Seq<ResponseV>) -> ToolResultV {
        ok_v(
            JsonV::Object(
                seq![("device_id"@, jstr(input.device_id@)), ("result"@, reply_json_v(replies[0]))],
            ),
        )
    }

    /// The result.
    pub fn finish(&self, input: &SendCommandInput, replies: &Vec<Response>) -> (r: ToolResult)
        requires
            replies.len() == 1,
        ensures
            r@ == Self::finish_v(*input, responses_view(replies@)),
    {
        let v = vec![member("device_id", Json::Str(input.device_id.clone())), member("result", reply_json(&replies[0]))];
        assert(entries_view(v@) =~= Self::finish_v(*input, responses_view(replies@)).data.unwrap()->Object_0);
        ToolResult::ok(Json::Object(v))
    }
}

/// Runs a scene.
pub struct ExecuteSceneTool<'a> {
    pub client: &'a SmartThingsClient,
}

impl<'a> ExecuteSceneTool<'a> {
    /// The plan: one POST of `{}` to the scene's `execute`.
    pub open spec fn plan_v(input: ExecuteSceneInput) -> Result<Seq<ApiRequestV>, Seq<char>> {
        Ok(
            seq![
                post_v(
                    "/scenes/"@ + input.scene_id@ + "/execute"@,
                    Some(JsonV::Object(Seq::empty())),
                ),
            ],
        )
    }

    /// The plan.
    pub fn plan(&self, input: &ExecuteSceneInput) -> (r: Result<Vec<crate::client::ApiRequest>, String>)
        ensures
            plan_view(r) == Self::plan_v(*input),
    {
        let path = concat3("/scenes/", input.scene_id.as_str(), "/execute");
        let body: Vec<(String, Json)> = Vec::new();
        assert(entries_view(body@) =~= Seq::empty());
        single(self.client.post(path.as_str(), Some(Json::Object(body))))
    }

    /// The result: `{"scene_id", "result": reply}`.
    pub open spec fn finish_v(input: ExecuteSceneInput, replies: Seq<ResponseV>) -> ToolResultV {
        ok_v(
            JsonV::Object(
                seq![("scene_id"@, jstr(input.scene_id@)), ("result"@, reply_json_v(replies[0]))],
            ),
        )
    }

    /// The result.
    pub fn finish(&self, input: &ExecuteSceneInput, replies: &Vec<Response>) -> (r: ToolResult)
        requires
            replies.len() == 1,
        ensures
            r@ == Self::finish_v(*input, responses_view(replies@)),
    {
        let v = vec![member("scene_id", Json::Str(input.scene_id.clone())), member("result", reply_json(&replies[0]))];
        assert(entries_view(v@) =~= Self::finish_v(*input, responses_view(replies@)).data.unwrap()->Object_0);
        ToolResult::ok(Json::Object(v))
    }
}

/// Reads the weather at a location.
pub struct GetWeatherTool<'a> {
    pub client: &'a SmartThingsClient,
}

impl<'a> GetWeatherTool<'a> {
    /// The plan: one GET of the location's weather.
    pub open spec fn plan_v(input: GetWeatherInput) -> Result<Seq<ApiRequestV>, Seq<char>> {
        Ok(
            seq![
                get_v(
                    "/services/coordinate/locations/"@ + input.location_id@ + "/weather"@,
                    Seq::empty(),
                ),
            ],
        )
    }

    /// The plan.
    pub fn plan(&self, input: &GetWeatherInput) -> (r: Result<Vec<crate::client::ApiRequest>, String>)
        ensures
            plan_view(r) == Self::plan_v(*input),
    {
        let path = concat3("/services/coordinate/locations/", input.location_id.as_str(), "/weather");
        single(self.client.get(path.as_str(), None))
    }

    /// The result: the reply itself.
    pub open spec fn finish_v(input: GetWeatherInput, replies: Seq<ResponseV>) -> ToolResultV {
        ok_v(reply_json_v(replies[0]))
    }

    /// The result.
    pub fn finish(&self, input: &GetWeatherInput, replies: &Vec<Response>) -> (r: ToolResult)
        requires
            replies.len() == 1,
        ensures
            r@ == Self::finish_v(*input, responses_view(replies@)),
    {
        ToolResult::ok(reply_json(&replies[0]))
    }
}

} // verus!
