use smartthings_tools_rs::catalog::{Tool, ToolInput};
use smartthings_tools_rs::client::{body_response, parse_response, response_of, HttpOutcome, Method, Response};
use smartthings_tools_rs::json::{parse_json, pretty_json, Json};
use smartthings_tools_rs::run::{Action, ToolRun};
use smartthings_tools_rs::schemas::common::{GetDeviceStatusInput, GetWeatherInput, ListDevicesInput};
use smartthings_tools_rs::schemas::my_devices::{GetEnergyDataInput, GetSensorDataInput};
use smartthings_tools_rs::schemas::my_devices::{AirPurifierInput, SwitchPowerInput};
use smartthings_tools_rs::tool::ToolResult;
use smartthings_tools_rs::SmartThingsToolkit;

fn s(x: &str) -> String {
    x.to_string()
}

fn obj(members: Vec<(&str, Json)>) -> Json {
    Json::Object(members.into_iter().map(|(k, v)| (s(k), v)).collect())
}

fn text(x: &str) -> Json {
    Json::Str(s(x))
}

fn member<'a>(j: &'a Json, key: &str) -> Option<&'a Json> {
    match j {
        Json::Object(m) => m.iter().find(|(k, _)| k == key).map(|(_, v)| v),
        _ => None,
    }
}

fn as_text(j: Option<&Json>) -> Option<&str> {
    match j {
        Some(Json::Str(t)) => Some(t.as_str()),
        _ => None,
    }
}

fn toolkit() -> SmartThingsToolkit {
    SmartThingsToolkit::new(s("test-token"), true)
}

fn object_schema() -> Json {
    obj(vec![("type", text("object"))])
}

fn reply(status: u16, body: Json) -> Response {
    response_of(HttpOutcome::Replied { status, text: body.to_text() })
}

fn drive(run: &mut ToolRun, toolkit: &SmartThingsToolkit, replies: Vec<Response>) -> ToolResult {
    let mut replies = replies.into_iter();
    loop {
        match run.next_action() {
            Action::Done(r) => return r,
            Action::Send(_) => run.on_response(toolkit.client(), replies.next().expect("a reply")),
        }
    }
}

#[test]
fn test_tool_registration() {
    let toolkit = toolkit();
    let names = toolkit.list_tool_names();
    assert_eq!(names.len(), 38, "38개 도구가 등록되어야 합니다 (got {})", names.len());
}

#[test]
fn test_schema_conversion() {
    let toolkit = toolkit();
    let n = toolkit.get_tools().len();

    let openai = toolkit.to_openai_tools((0..n).map(|_| object_schema()).collect());
    assert!(openai.iter().all(|t| as_text(member(t, "type")) == Some("function")));

    let anthropic = toolkit.to_anthropic_tools((0..n).map(|_| object_schema()).collect());
    assert!(anthropic.iter().all(|t| member(t, "input_schema").is_some()));
}

#[test]
fn offered_tools_without_extended_devices() {
    let toolkit = SmartThingsToolkit::new(s("t"), false);
    let names = toolkit.list_tool_names();
    assert_eq!(names.len(), 24);
    assert_eq!(names[0], "list_devices");
    assert_eq!(names[5], "switch_power");
    assert!(toolkit.find_tool("robot_vacuum").is_none());
    assert!(toolkit.find_tool("switch_power").is_some());
}

#[test]
fn every_tool_name_is_distinct() {
    let names = toolkit().list_tool_names();
    for i in 0..names.len() {
        for j in (i + 1)..names.len() {
            assert_ne!(names[i], names[j]);
        }
    }
}

#[test]
fn unknown_tool_is_refused() {
    let toolkit = toolkit();
    let mut run = toolkit.execute("nonexistent_tool", Err(s("unused")));
    let result = drive(&mut run, &toolkit, vec![]);
    assert!(!result.success);
    assert_eq!(result.error.as_deref(), Some("Unknown tool: nonexistent_tool"));
}

#[test]
fn unreadable_arguments_are_refused() {
    let toolkit = toolkit();
    let mut run = toolkit.execute("switch_power", Err(s("missing field `state`")));
    let result = drive(&mut run, &toolkit, vec![]);
    assert!(!result.success);
    assert_eq!(result.error.as_deref(), Some("ValidationError: missing field `state`"));
}

#[test]
fn invalid_state_is_refused_before_sending() {
    let toolkit = toolkit();
    let input = SwitchPowerInput { device_id: s(""), state: s("invalid") };
    let mut run = toolkit.execute("switch_power", Ok(ToolInput::SwitchPower(input)));
    assert!(matches!(run.next_action(), Action::Done(_)));
    let result = drive(&mut run, &toolkit, vec![]);
    assert!(!result.success);
    assert_eq!(
        result.error.as_deref(),
        Some("ValidationError: state must be one of on, off, got 'invalid'")
    );
}

#[test]
fn invalid_optional_power_is_refused() {
    let toolkit = toolkit();
    let input = AirPurifierInput { device_id: s("d"), power: Some(s("toggle")), mode: None };
    let mut run = toolkit.execute("air_purifier_control", Ok(ToolInput::AirPurifier(input)));
    let result = drive(&mut run, &toolkit, vec![]);
    assert_eq!(
        result.error.as_deref(),
        Some("ValidationError: power must be one of on, off, got 'toggle'")
    );
}

#[test]
fn error_that_is_not_an_object_is_reported_as_json_text() {
    let toolkit = toolkit();
    let input = SwitchPowerInput { device_id: s("d"), state: s("off") };
    let mut run = toolkit.execute("switch_power", Ok(ToolInput::SwitchPower(input)));
    let r = response_of(HttpOutcome::Replied {
        status: 400,
        text: s(r#"{"error": "bad \"state\""}"#),
    });
    let result = drive(&mut run, &toolkit, vec![r]);
    assert_eq!(result.error.as_deref(), Some(r#""bad \"state\"""#));
}

#[test]
fn list_devices_summarises_each_device() {
    let toolkit = toolkit();
    let input = ListDevicesInput { location_id: Some(s("loc-1")), capability: None };
    let mut run = toolkit.execute("list_devices", Ok(ToolInput::ListDevices(input)));
    match run.next_action() {
        Action::Send(req) => {
            assert!(req.method == Method::Get);
            assert_eq!(req.path, "/devices");
            assert_eq!(req.params, vec![(s("locationId"), s("loc-1"))]);
        }
        Action::Done(_) => panic!("a request is expected"),
    }
    let device = obj(vec![
        ("deviceId", text("d-1")),
        ("label", text("Lamp")),
        ("roomId", text("r-1")),
        (
            "components",
            Json::Array(vec![obj(vec![(
                "capabilities",
                Json::Array(vec![obj(vec![("id", text("switch"))]), obj(vec![("version", text("1"))])]),
            )])]),
        ),
    ]);
    let body = obj(vec![("items", Json::Array(vec![device]))]);
    let result = drive(&mut run, &toolkit, vec![reply(200, body)]);
    assert!(result.success);
    let data = result.data.expect("data");
    match member(&data, "count") {
        Some(Json::Number(n)) => assert_eq!(n, "1"),
        _ => panic!("count"),
    }
    let devices = match member(&data, "devices") {
        Some(Json::Array(d)) => d,
        _ => panic!("devices"),
    };
    assert_eq!(as_text(member(&devices[0], "device_id")), Some("d-1"));
    assert_eq!(as_text(member(&devices[0], "label")), Some("Lamp"));
    match member(&devices[0], "capabilities") {
        Some(Json::Array(c)) => {
            assert_eq!(c.len(), 1);
            assert_eq!(as_text(Some(&c[0])), Some("switch"));
        }
        _ => panic!("capabilities"),
    }
}

#[test]
fn switch_power_sends_the_switch_command() {
    let toolkit = toolkit();
    let input = SwitchPowerInput { device_id: s("d-9"), state: s("on") };
    let mut run = toolkit.execute("switch_power", Ok(ToolInput::SwitchPower(input)));
    match run.next_action() {
        Action::Send(req) => {
            assert!(req.method == Method::Post);
            assert_eq!(req.path, "/devices/d-9/commands");
            let body = req.body.expect("body");
            let commands = match member(&body, "commands") {
                Some(Json::Array(c)) => c,
                _ => panic!("commands"),
            };
            assert_eq!(as_text(member(&commands[0], "capability")), Some("switch"));
            assert_eq!(as_text(member(&commands[0], "command")), Some("on"));
            assert_eq!(as_text(member(&commands[0], "component")), Some("main"));
        }
        Action::Done(_) => panic!("a request is expected"),
    }
    let result = drive(&mut run, &toolkit, vec![reply(200, obj(vec![]))]);
    assert!(result.success);
    let data = result.data.expect("data");
    assert_eq!(as_text(member(&data, "device_id")), Some("d-9"));
    assert_eq!(as_text(member(&data, "state")), Some("on"));
}

#[test]
fn refused_request_fails_with_the_service_message() {
    let toolkit = toolkit();
    let input = SwitchPowerInput { device_id: s("d-9"), state: s("on") };
    let mut run = toolkit.execute("switch_power", Ok(ToolInput::SwitchPower(input)));
    let error = obj(vec![("error", obj(vec![("message", text("Device not found"))]))]);
    let result = drive(&mut run, &toolkit, vec![reply(404, error)]);
    assert!(!result.success);
    assert_eq!(result.error.as_deref(), Some("Device not found"));
}

#[test]
fn unreachable_service_is_reported() {
    let toolkit = toolkit();
    let input = GetWeatherInput { location_id: s("loc-1") };
    let mut run = toolkit.execute("get_weather", Ok(ToolInput::GetWeather(input)));
    let outcome = HttpOutcome::Unreachable { message: s(r#"connection "refused""#) };
    let r = response_of(outcome);
    let result = drive(&mut run, &toolkit, vec![r]);
    assert!(!result.success);
    assert_eq!(result.error.as_deref(), Some(r#""connection \"refused\"""#));
}

#[test]
fn error_status_is_added_to_the_reply() {
    let r = reply(500, obj(vec![("x", text("y"))]));
    let code = r.fields.iter().find(|(k, _)| k == "status_code").map(|(_, v)| v);
    match code {
        Some(Json::Number(n)) => assert_eq!(n, "500"),
        _ => panic!("status_code"),
    }
}

#[test]
fn blank_reply_is_an_empty_object() {
    let r = response_of(HttpOutcome::Replied { status: 204, text: s("  \n") });
    assert!(r.fields.is_empty());
}

#[test]
fn tool_names_match_the_catalog() {
    assert_eq!(Tool::ListDevices.name(), "list_devices");
    assert_eq!(Tool::SwitchPower.name(), "switch_power");
}

fn answer_all(run: &mut ToolRun, toolkit: &SmartThingsToolkit, body: &Json) -> ToolResult {
    loop {
        match run.next_action() {
            Action::Done(r) => return r,
            Action::Send(_) => run.on_response(toolkit.client(), reply(200, body.deep_clone())),
        }
    }
}

fn tally(ok: bool, passed: &mut u32, failed: &mut u32) {
    if ok {
        *passed += 1;
    } else {
        *failed += 1;
    }
}

fn capabilities(d: &Json) -> Vec<String> {
    match member(d, "capabilities") {
        Some(Json::Array(a)) => a.iter().filter_map(|c| as_text(Some(c)).map(s)).collect(),
        _ => vec![],
    }
}

#[test]
fn test_api_calls() {
    let toolkit = toolkit();
    let mut passed = 0u32;
    let mut failed = 0u32;
    let mut skipped = 0u32;

    let caps = |ids: &[&str]| {
        Json::Array(vec![obj(vec![(
            "capabilities",
            Json::Array(ids.iter().map(|i| obj(vec![("id", text(i))])).collect()),
        )])])
    };
    let listing = obj(vec![(
        "items",
        Json::Array(vec![
            obj(vec![("deviceId", text("switch-1")), ("label", text("Lamp")), ("components", caps(&["switch"]))]),
            obj(vec![
                ("deviceId", text("sensor-1")),
                ("label", text("Plug")),
                ("components", caps(&["temperatureMeasurement", "powerMeter"])),
            ]),
        ]),
    )]);
    let input = ListDevicesInput { location_id: None, capability: None };
    let mut run = toolkit.execute("list_devices", Ok(ToolInput::ListDevices(input)));
    let result = answer_all(&mut run, &toolkit, &listing);
    tally(result.success, &mut passed, &mut failed);

    let mut device_id: Option<String> = None;
    let mut sensor_id: Option<String> = None;
    let mut plug_id: Option<String> = None;
    if let Some(Json::Array(devices)) = result.data.as_ref().and_then(|d| member(d, "devices")) {
        for d in devices {
            let caps = capabilities(d);
            let id = as_text(member(d, "device_id")).map(s);
            if device_id.is_none() && caps.iter().any(|c| c == "switch") {
                device_id = id.clone();
            }
            if sensor_id.is_none()
                && caps.iter().any(|c| ["temperatureMeasurement", "presenceSensor", "motionSensor"].contains(&c.as_str()))
            {
                sensor_id = id.clone();
            }
            if plug_id.is_none() && caps.iter().any(|c| c == "powerMeter") {
                plug_id = id.clone();
            }
        }
    }

    let status = obj(vec![(
        "components",
        obj(vec![(
            "main",
            obj(vec![
                ("switch", obj(vec![("switch", obj(vec![("value", text("on"))]))])),
                ("temperatureMeasurement", obj(vec![("temperature", obj(vec![("value", Json::Number(s("21")))]))])),
                ("powerMeter", obj(vec![("power", obj(vec![("value", Json::Number(s("12")))]))])),
            ]),
        )]),
    )]);
    match device_id {
        Some(did) => {
            let input = GetDeviceStatusInput { device_id: did };
            let mut run = toolkit.execute("get_device_status", Ok(ToolInput::GetDeviceStatus(input)));
            tally(answer_all(&mut run, &toolkit, &status).success, &mut passed, &mut failed);
        }
        None => skipped += 1,
    }
    match sensor_id {
        Some(sid) => {
            let input = GetSensorDataInput { device_id: sid };
            let mut run = toolkit.execute("get_sensor_data", Ok(ToolInput::GetSensorData(input)));
            tally(answer_all(&mut run, &toolkit, &status).success, &mut passed, &mut failed);
        }
        None => skipped += 1,
    }
    match plug_id {
        Some(pid) => {
            let input = GetEnergyDataInput { device_id: pid };
            let mut run = toolkit.execute("get_energy_data", Ok(ToolInput::GetEnergyData(input)));
            tally(answer_all(&mut run, &toolkit, &status).success, &mut passed, &mut failed);
        }
        None => skipped += 1,
    }

    let weather = obj(vec![("temperature", Json::Number(s("20")))]);
    let input = GetWeatherInput { location_id: s("loc-1") };
    let mut run = toolkit.execute("get_weather", Ok(ToolInput::GetWeather(input)));
    if answer_all(&mut run, &toolkit, &weather).success {
        passed += 1;
    } else {
        skipped += 1;
    }

    let bad = SwitchPowerInput { device_id: s(""), state: s("invalid") };
    let mut run = toolkit.execute("switch_power", Ok(ToolInput::SwitchPower(bad)));
    tally(!answer_all(&mut run, &toolkit, &status).success, &mut passed, &mut failed);

    let mut run = toolkit.execute("nonexistent_tool", Err(String::new()));
    tally(!answer_all(&mut run, &toolkit, &status).success, &mut passed, &mut failed);

    assert_eq!(skipped, 0);
    assert_eq!(passed, 7);
    assert_eq!(failed, 0, "{failed} tests failed");
}

fn member_names(r: &Response) -> Vec<String> {
    r.fields.iter().map(|(k, _)| k.clone()).collect()
}

#[test]
fn reply_text_is_read_as_json() {
    let r = parse_response(s(r#"{"b": 1, "a": {"c": [true, null]}}"#));
    assert_eq!(member_names(&r), vec![s("a"), s("b")]);
    assert!(matches!(&r.fields[1].1, Json::Number(n) if n == "1"));
    assert!(matches!(&r.fields[0].1, Json::Object(m) if m.len() == 1));
    assert!(parse_response(s("   \n")).fields.is_empty());
    let raw = parse_response(s("[1,2]"));
    assert_eq!(member_names(&raw), vec![s("raw")]);
    assert!(matches!(&raw.fields[0].1, Json::Str(t) if t == "[1,2]"));
    let raw = parse_response(s("not json"));
    assert!(matches!(&raw.fields[0].1, Json::Str(t) if t == "not json"));
}

#[test]
fn a_parse_that_is_not_an_object_gives_the_raw_text() {
    let r = body_response(s("[1,2]"), Some(Json::Array(vec![])));
    assert_eq!(member_names(&r), vec![s("raw")]);
    let r = body_response(s("{}"), Some(obj(vec![("x", Json::Null)])));
    assert_eq!(member_names(&r), vec![s("x")]);
}

#[test]
fn json_values_are_read_and_written() {
    assert!(parse_json("nope").is_none());
    assert!(matches!(parse_json(" 12 "), Some(Json::Number(n)) if n == "12"));
    assert!(matches!(parse_json(r#""a\nb""#), Some(Json::Str(t)) if t == "a\nb"));
    let v = parse_json(r#"{"k":[1,"x",false]}"#).expect("json");
    assert_eq!(v.to_text(), r#"{"k":[1,"x",false]}"#);
    assert_eq!(text("say \"hi\"").to_text(), r#""say \"hi\"""#);
    assert_eq!(pretty_json(&v), "{\n  \"k\": [\n    1,\n    \"x\",\n    false\n  ]\n}");
}

#[test]
fn error_status_is_added_to_a_parsed_reply() {
    let r = response_of(HttpOutcome::Replied { status: 404, text: s(r#"{"message":"gone"}"#) });
    assert_eq!(member_names(&r), vec![s("message"), s("status_code")]);
    assert!(matches!(&r.fields[1].1, Json::Number(n) if n == "404"));
}
