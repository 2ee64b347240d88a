use smartthings_tools_rs::client::BASE_URL;
use smartthings_tools_rs::explorer::api::{all_tests, categories, get_tests_by_category};
use smartthings_tools_rs::explorer::calendar::civil_from_days;
use smartthings_tools_rs::explorer::client::{Answer, ApiClient, HttpReply};
use smartthings_tools_rs::explorer::logger::{
    file_timestamp, file_timestamp_text, iso8601_text, iso8601_utc, log_entry, log_file_name, log_stamps,
    path_to_string, split_epoch, split_utc,
};
use std::time::{Duration, UNIX_EPOCH};
use smartthings_tools_rs::explorer::models::{
    ApiCallResult, ApiEndpointTest, Endpoint, EndpointTestResult, RequestInfo, ResponseInfo,
    TestContext, TestSuiteResult,
};
use smartthings_tools_rs::explorer::reporter::{
    body_excerpt, category_rule, category_stats, detail_rows, extract_path, json_excerpt, outcome, padded_label,
    skip_reason, status_class, Outcome, StatusClass,
};
use smartthings_tools_rs::explorer::runner::{run_test, RunAction, TestRun};
use smartthings_tools_rs::json::Json;
use smartthings_tools_rs::text::{format_u128, split_on, trim};

fn s(x: &str) -> String {
    x.to_string()
}

fn obj(members: Vec<(&str, Json)>) -> Json {
    Json::Object(members.into_iter().map(|(k, v)| (s(k), v)).collect())
}

fn text(x: &str) -> Json {
    Json::Str(s(x))
}

fn member<'a>(j: &'a Json, key: &str) -> Option<&'a Json> {
    match j {
        Json::Object(m) => m.iter().find(|(k, _)| k == key).map(|(_, v)| v),
        _ => None,
    }
}

fn context(side_effects: bool) -> TestContext {
    TestContext::new(ApiClient::new(s("tok")), side_effects)
}

fn find(name: &str) -> ApiEndpointTest {
    all_tests().into_iter().find(|t| t.name == name).expect("endpoint")
}

fn answered(status: u16, body: Option<Json>) -> HttpReply {
    HttpReply::Answered {
        answer: Answer {
            status,
            status_text: s(if status == 200 { "OK" } else { "Not Found" }),
            final_url: String::new(),
            text: Some(match body {
                Some(j) => j.to_text(),
                None => s("{}"),
            }),
        },
        duration_ms: 12,
    }
}

fn drive(mut run: TestRun, replies: Vec<HttpReply>) -> (EndpointTestResult, TestContext, Vec<String>) {
    let mut sent = Vec::new();
    let mut replies = replies.into_iter();
    loop {
        match run.next_action() {
            RunAction::Done(r) => return (r, run.into_context(), sent),
            RunAction::Send(call) => {
                sent.push(call.url.clone());
                run.on_reply(replies.next().expect("a reply"));
            }
        }
    }
}

fn call(status: i32, url: &str, ms: u128) -> ApiCallResult {
    ApiCallResult {
        request: RequestInfo { method: s("GET"), url: s(url), body: None },
        response: ResponseInfo { status, status_text: s("OK"), body: None },
        duration_ms: ms,
    }
}

fn result(endpoint: ApiEndpointTest, calls: Vec<ApiCallResult>, success: bool, skipped: bool) -> EndpointTestResult {
    EndpointTestResult { endpoint, calls, success, skipped, error: None }
}

#[test]
fn survey_has_fifteen_categories_and_twenty_nine_endpoints() {
    let all = all_tests();
    assert_eq!(all.len(), 29);
    let cats = categories(&all);
    let expected = [
        ("locations", 2),
        ("rooms", 2),
        ("modes", 2),
        ("devices", 5),
        ("deviceProfiles", 2),
        ("capabilities", 3),
        ("scenes", 2),
        ("rules", 2),
        ("apps", 2),
        ("installedApps", 2),
        ("subscriptions", 1),
        ("schedules", 1),
        ("schema", 1),
        ("services", 1),
        ("history", 1),
    ];
    assert_eq!(cats.len(), 15);
    for (i, (c, n)) in expected.iter().enumerate() {
        assert_eq!(cats[i], *c);
        assert_eq!(get_tests_by_category(&all, c).len(), *n);
    }
}

#[test]
fn unknown_category_selects_nothing() {
    let all = all_tests();
    assert!(get_tests_by_category(&all, "nothing").is_empty());
    let devices = get_tests_by_category(&all, "devices");
    assert!(devices.iter().all(|t| t.category == "devices"));
    assert_eq!(devices[4].name, "디바이스 명령 실행 (refresh)");
    assert!(devices[4].has_side_effect);
}

#[test]
fn endpoint_test_builders() {
    let t = ApiEndpointTest::new("c", "L", "n", "d", Endpoint::SchemaList);
    assert!(!t.has_side_effect);
    assert!(t.needs_setup.is_none());
    let t = t.with_side_effect().with_needs_setup("needs x");
    assert!(t.has_side_effect);
    assert_eq!(t.needs_setup.as_deref(), Some("needs x"));
}

#[test]
fn store_reads_back_what_was_written() {
    let mut ctx = context(false);
    assert!(!ctx.has_store("locationId"));
    assert_eq!(ctx.get_store("locationId"), None);
    ctx.set_store("locationId", s("L1"));
    ctx.set_store("deviceId", s("D1"));
    ctx.set_store("locationId", s("L2"));
    assert_eq!(ctx.get_store("locationId").as_deref(), Some("L2"));
    assert_eq!(ctx.get_store("deviceId").as_deref(), Some("D1"));
    assert!(ctx.has_store("deviceId"));
}

#[test]
fn side_effect_endpoint_is_skipped_unless_asked() {
    let (r, _, sent) = drive(run_test(&find("씬 실행"), context(false)), vec![]);
    assert!(r.skipped && r.success && r.calls.is_empty() && r.error.is_none());
    assert!(sent.is_empty());
    assert_eq!(skip_reason(&r), "부수효과 테스트 건너뜀");
    assert!(outcome(&r) == Outcome::Skipped);
}

#[test]
fn endpoint_without_its_prerequisite_is_skipped() {
    let (r, _, sent) = drive(run_test(&find("특정 규칙 상세 조회"), context(false)), vec![]);
    assert!(r.skipped && r.success);
    assert!(sent.is_empty());
    assert_eq!(skip_reason(&r), "등록된 규칙이 필요합니다");
}

#[test]
fn missing_identifier_fails_with_its_message() {
    let (r, _, sent) = drive(run_test(&find("특정 위치 상세 조회"), context(false)), vec![]);
    assert!(!r.success && !r.skipped);
    assert_eq!(r.error.as_deref(), Some("locationId 없음 — 위치 목록 조회 먼저 실행 필요"));
    assert!(sent.is_empty());
    assert!(outcome(&r) == Outcome::Failed);
}

#[test]
fn location_list_feeds_the_room_list() {
    let body = obj(vec![("items", Json::Array(vec![obj(vec![("locationId", text("loc-7"))])]))]);
    let (r, ctx, sent) = drive(run_test(&find("위치 목록 조회"), context(false)), vec![answered(200, Some(body))]);
    assert!(r.success && !r.skipped);
    assert_eq!(sent, vec![s("https://api.smartthings.com/v1/locations")]);
    assert_eq!(r.calls[0].request.url, "https://api.smartthings.com/v1/locations");
    assert_eq!(ctx.get_store("locationId").as_deref(), Some("loc-7"));
    let (r2, _, sent2) = drive(run_test(&find("방 목록 조회"), ctx), vec![answered(200, None)]);
    assert_eq!(sent2, vec![s("https://api.smartthings.com/v1/locations/loc-7/rooms")]);
    assert!(r2.success);
}

#[test]
fn error_status_fails_the_endpoint_and_keeps_nothing() {
    let body = obj(vec![("items", Json::Array(vec![obj(vec![("locationId", text("x"))])]))]);
    let (r, ctx, _) = drive(run_test(&find("위치 목록 조회"), context(false)), vec![answered(404, Some(body))]);
    assert!(!r.success && !r.skipped && r.error.is_none());
    assert_eq!(r.calls[0].response.status, 404);
    assert!(!ctx.has_store("locationId"));
}

#[test]
fn device_list_keeps_id_and_capabilities() {
    let caps = Json::Array(vec![
        obj(vec![("id", text("switch"))]),
        obj(vec![("id", Json::Number(s("3")))]),
        obj(vec![("id", text("refresh"))]),
    ]);
    let device = obj(vec![
        ("deviceId", text("dev-1")),
        ("components", Json::Array(vec![obj(vec![("capabilities", caps)])])),
    ]);
    let body = obj(vec![("items", Json::Array(vec![device]))]);
    let (_, ctx, _) = drive(run_test(&find("디바이스 목록 조회"), context(false)), vec![answered(200, Some(body))]);
    assert_eq!(ctx.get_store("deviceId").as_deref(), Some("dev-1"));
    assert_eq!(ctx.get_store("deviceCapabilities").as_deref(), Some("switch,refresh"));
    let (_, _, sent) = drive(run_test(&find("디바이스 기반 기능 조회"), ctx), vec![answered(200, None)]);
    assert_eq!(sent, vec![s("https://api.smartthings.com/v1/capabilities/switch/1")]);
}

#[test]
fn device_capability_falls_back_to_temperature() {
    let mut ctx = context(false);
    ctx.set_store("deviceCapabilities", s(" , ,"));
    let (_, _, sent) = drive(run_test(&find("디바이스 기반 기능 조회"), ctx), vec![answered(200, None)]);
    assert_eq!(sent, vec![s("https://api.smartthings.com/v1/capabilities/temperatureMeasurement/1")]);
    let mut ctx = context(false);
    ctx.set_store("deviceCapabilities", s(" , battery ,x"));
    let (_, _, sent) = drive(run_test(&find("디바이스 기반 기능 조회"), ctx), vec![answered(200, None)]);
    assert_eq!(sent, vec![s("https://api.smartthings.com/v1/capabilities/battery/1")]);
}

#[test]
fn weather_asks_the_location_path_after_a_404() {
    let mut ctx = context(false);
    ctx.set_store("locationId", s("L"));
    let run = run_test(&find("날씨 정보 조회"), ctx);
    let (r, _, sent) = drive(run, vec![answered(404, None), answered(200, None)]);
    assert_eq!(
        sent,
        vec![
            s("https://api.smartthings.com/v1/services/coordinate/locations/L/weather"),
            s("https://api.smartthings.com/v1/locations/L/weather"),
        ]
    );
    assert_eq!(r.calls.len(), 2);
    assert!(!r.success);
}

#[test]
fn unreachable_service_fails_with_network_error() {
    let run = run_test(&find("디바이스 목록 조회"), context(false));
    let (r, _, _) = drive(run, vec![HttpReply::Failed { rendered: s("timed out") }]);
    assert!(!r.success && r.calls.is_empty());
    assert_eq!(r.error.as_deref(), Some("네트워크 오류: timed out"));
}

#[test]
fn refresh_is_sent_when_side_effects_are_asked() {
    let mut ctx = context(true);
    ctx.set_store("deviceId", s("D"));
    let mut run = run_test(&find("디바이스 명령 실행 (refresh)"), ctx);
    match run.next_action() {
        RunAction::Send(call) => {
            assert_eq!(call.method, "POST");
            assert_eq!(call.url, "https://api.smartthings.com/v1/devices/D/commands");
            assert_eq!(call.headers[0], (s("Authorization"), s("Bearer tok")));
            assert_eq!(call.headers[1], (s("Accept"), s("application/json")));
            let body = call.body.expect("body");
            match member(&body, "commands") {
                Some(Json::Array(c)) => assert!(matches!(member(&c[0], "command"), Some(Json::Str(x)) if x == "refresh")),
                _ => panic!("commands"),
            }
        }
        RunAction::Done(_) => panic!("a request is expected"),
    }
    run.on_reply(answered(200, None));
    assert!(matches!(run.next_action(), RunAction::Done(r) if r.success));
}

#[test]
fn history_query_names_location_and_device() {
    let mut ctx = context(false);
    ctx.set_store("locationId", s("L"));
    ctx.set_store("deviceId", s("D"));
    let run = run_test(&find("디바이스 이벤트 기록 조회"), ctx);
    match run.next_action() {
        RunAction::Send(call) => {
            assert_eq!(call.url, "https://api.smartthings.com/v1/history/devices");
            assert_eq!(call.query, vec![(s("locationId"), s("L")), (s("deviceId"), s("D"))]);
        }
        RunAction::Done(_) => panic!("a request is expected"),
    }
}

#[test]
fn call_record_body_rules() {
    let mk = |text: Option<&str>, final_url: &str| Answer {
        status: 201,
        status_text: s("Created"),
        final_url: s(final_url),
        text: text.map(s),
    };
    let c = ApiClient::to_call_result(mk(Some("  "), ""), "GET", "https://x/v1/a", None, 5);
    assert!(c.response.body.is_none());
    assert_eq!(c.request.url, "https://x/v1/a");
    assert_eq!(c.response.status, 201);
    let c = ApiClient::to_call_result(mk(Some("oops"), "https://y/v1/b?q=1"), "GET", "u", None, 5);
    assert!(matches!(c.response.body, Some(Json::Str(ref t)) if t == "oops"));
    assert_eq!(c.request.url, "https://y/v1/b?q=1");
    let c = ApiClient::to_call_result(mk(Some("[1]"), ""), "POST", "u", None, 5);
    assert!(matches!(c.response.body, Some(Json::Array(ref a)) if a.len() == 1));
    let c = ApiClient::to_call_result(mk(None, ""), "GET", "u", None, 5);
    assert!(c.response.body.is_none());
}

#[test]
fn extract_path_strips_host_and_root() {
    assert_eq!(extract_path("https://api.smartthings.com/v1/devices/abc/status"), "/devices/abc/status");
    assert_eq!(extract_path("https://api.smartthings.com/v1/rules?locationId=L"), "/rules?locationId=L");
    assert_eq!(extract_path("https://example.com"), "/");
    assert_eq!(extract_path("https://example.com/other"), "/other");
    assert_eq!(extract_path("/v1/x"), "/x");
    assert_eq!(extract_path("plain"), "plain");
}

#[test]
fn status_classes() {
    assert!(status_class(200) == StatusClass::Success);
    assert!(status_class(299) == StatusClass::Success);
    assert!(status_class(302) == StatusClass::Redirect);
    assert!(status_class(400) == StatusClass::Error);
}

#[test]
fn json_excerpt_keeps_the_first_lines() {
    let e = json_excerpt("{\n  \"a\": 1,\r\n  \"b\": 2\n}", 2);
    assert_eq!(e.lines, vec![s("{"), s("  \"a\": 1,")]);
    assert_eq!(e.omitted, 2);
    let e = json_excerpt("null", 8);
    assert_eq!(e.lines, vec![s("null")]);
    assert_eq!(e.omitted, 0);
    let e = json_excerpt("a\nb\n", 8);
    assert_eq!(e.lines, vec![s("a"), s("b")]);
}

#[test]
fn labels_are_padded() {
    assert_eq!(padded_label("📍 위치"), format!("📍 위치{}", " ".repeat(18)));
    assert_eq!(category_rule("abc"), "─".repeat(47));
    assert_eq!(category_rule(&"x".repeat(60)), "");
}

#[test]
fn suite_counts_and_category_summary() {
    let all = all_tests();
    let results = vec![
        result(all[0].copy(), vec![call(200, "https://api.smartthings.com/v1/locations", 7)], true, false),
        result(all[1].copy(), vec![call(500, "https://api.smartthings.com/v1/locations/L", 9)], false, false),
        result(all[2].copy(), vec![], true, true),
    ];
    let stats = category_stats(&results);
    assert_eq!(stats.len(), 2);
    assert_eq!(stats[0].label, "📍 위치");
    assert_eq!((stats[0].total, stats[0].passed, stats[0].failed, stats[0].skipped), (2, 1, 1, 0));
    assert_eq!((stats[1].total, stats[1].skipped), (1, 1));
    let suite = TestSuiteResult::from_results(results, 1234);
    assert_eq!((suite.total, suite.passed, suite.failed, suite.skipped), (3, 1, 1, 1));
    let rows = detail_rows(&suite);
    assert_eq!(rows[0].number, 1);
    assert_eq!(rows[0].method, "GET");
    assert_eq!(rows[0].code, "200");
    assert_eq!(rows[0].duration, "7ms");
    assert_eq!(rows[0].path, "/locations");
    assert!(rows[0].outcome.label() == "성공");
    assert!(rows[1].status_class == Some(StatusClass::Error));
    assert_eq!(rows[2].method, "—");
    assert!(rows[2].status_class.is_none());
    assert_eq!(rows[2].outcome.label(), "건너뜀");
}

#[test]
fn log_entry_records_every_result() {
    let all = all_tests();
    let results = vec![
        result(all[0].copy(), vec![call(200, "https://api.smartthings.com/v1/locations", 7)], true, false),
        result(all[2].copy(), vec![], true, true),
    ];
    let suite = TestSuiteResult::from_results(results, 50);
    let entry = log_entry(&suite, s("2024-01-01T00:00:00.000Z"));
    assert_eq!(entry.runner, "rust");
    assert_eq!(entry.summary.total, 2);
    assert_eq!(entry.summary.duration_ms, 50);
    assert!(matches!(member(&entry.results[0], "status"), Some(Json::Str(x)) if x == "passed"));
    assert!(matches!(member(&entry.results[1], "status"), Some(Json::Str(x)) if x == "skipped"));
    assert!(matches!(member(&entry.results[1], "error"), Some(Json::Null)));
    match member(&entry.results[0], "calls") {
        Some(Json::Array(c)) => {
            assert!(matches!(member(&c[0], "durationMs"), Some(Json::Number(n)) if n == "7"));
            let resp = member(&c[0], "response").expect("response");
            assert!(matches!(member(resp, "status"), Some(Json::Number(n)) if n == "200"));
            assert!(matches!(member(resp, "body"), Some(Json::Null)));
        }
        _ => panic!("calls"),
    }
    assert_eq!(log_file_name("2024-01-01_00-00-00"), "2024-01-01_00-00-00.json");
}

#[test]
fn civil_dates() {
    assert_eq!(civil_from_days(0), (1970, 1, 1));
    assert_eq!(civil_from_days(19723), (2024, 1, 1));
    assert_eq!(civil_from_days(-1), (1969, 12, 31));
    assert_eq!(civil_from_days(11016), (2000, 2, 29));
}

#[test]
fn time_stamps() {
    let p = split_epoch(1_704_067_200 + 3_723, 45);
    assert_eq!(p, (2024, 1, 1, 1, 2, 3, 45));
    assert_eq!(iso8601_text(p), "2024-01-01T01:02:03.045Z");
    assert_eq!(file_timestamp_text(p), "2024-01-01_01-02-03");
    assert_eq!(path_to_string(b"logs/a.json"), "logs/a.json");
    assert_eq!(path_to_string(b"a\xffb"), "a\u{fffd}b");
}

#[test]
fn text_helpers() {
    assert_eq!(trim("  a b \t"), "a b");
    assert_eq!(trim("   "), "");
    assert_eq!(split_on("a,,b", ','), vec![s("a"), s(""), s("b")]);
    assert_eq!(split_on("", ','), vec![s("")]);
    assert_eq!(format_u128(0), "0");
    assert_eq!(format_u128(340282366920938463463374607431768211455), "340282366920938463463374607431768211455");
}

#[test]
fn shown_path_is_the_requested_path() {
    for p in ["/rules?locationId=L", "/a://b/c", "", "x"] {
        assert_eq!(extract_path(&format!("{BASE_URL}{p}")), p);
    }
}

#[test]
fn list_endpoint_touches_only_its_key() {
    let mut ctx = context(false);
    ctx.set_store("deviceId", s("D0"));
    let body = obj(vec![("items", Json::Array(vec![obj(vec![("locationId", text("L9"))])]))]);
    let (_, ctx, _) = drive(run_test(&find("위치 목록 조회"), ctx), vec![answered(200, Some(body))]);
    assert_eq!(ctx.get_store("deviceId").as_deref(), Some("D0"));
    assert_eq!(ctx.get_store("locationId").as_deref(), Some("L9"));
    assert!(!ctx.has_store("roomId"));
}

#[test]
fn run_keeps_token_and_choice() {
    let (_, ctx, _) = drive(run_test(&find("디바이스 목록 조회"), context(true)), vec![answered(500, None)]);
    assert!(ctx.run_side_effects());
    assert_eq!(ctx.client().authorization(), "Bearer tok");
}

#[test]
fn clock_times_are_written_in_utc() {
    let t = UNIX_EPOCH + Duration::from_millis(1_704_067_200_000 + 86_399_999);
    assert_eq!(split_utc(t), (2024, 1, 1, 23, 59, 59, 999));
    assert_eq!(iso8601_utc(t), "2024-01-01T23:59:59.999Z");
    assert_eq!(file_timestamp(t), "2024-01-01_23-59-59");
    let before = UNIX_EPOCH - Duration::from_secs(10);
    assert_eq!(iso8601_utc(before), "1970-01-01T00:00:00.000Z");
}

#[test]
fn log_stamps_name_one_instant() {
    let t = UNIX_EPOCH + Duration::from_millis(1_704_067_200_000 + 3_723_045);
    let (iso, file) = log_stamps(t);
    assert_eq!(iso, "2024-01-01T01:02:03.045Z");
    assert_eq!(file, "2024-01-01_01-02-03");
}

#[test]
fn stamps_sort_in_time_order() {
    let instants: [(u64, u32); 6] = [
        (0, 0),
        (0, 999),
        (59, 0),
        (1_735_689_599, 999),
        (1_735_689_600, 0),
        (253_402_300_799, 999),
    ];
    let stamps: Vec<String> = instants
        .iter()
        .map(|&(secs, millis)| iso8601_text(split_epoch(secs, millis)))
        .collect();
    assert_eq!(stamps[3], "2024-12-31T23:59:59.999Z");
    assert_eq!(stamps[4], "2025-01-01T00:00:00.000Z");
    assert_eq!(stamps[5], "9999-12-31T23:59:59.999Z");
    for pair in stamps.windows(2) {
        assert!(pair[0] < pair[1], "{} should sort before {}", pair[0], pair[1]);
        assert_eq!(pair[0].len(), pair[1].len());
    }
}

#[test]
fn one_second_gives_one_file_stamp() {
    let a = file_timestamp_text(split_epoch(1_735_689_600, 1));
    let b = file_timestamp_text(split_epoch(1_735_689_600, 998));
    assert_eq!(a, "2025-01-01_00-00-00");
    assert_eq!(a, b);
    assert_ne!(a, file_timestamp_text(split_epoch(1_735_689_601, 0)));
}

#[test]
fn body_excerpt_shows_the_indented_body() {
    let body = Json::Object(vec![(s("b"), Json::Number(s("2"))), (s("a"), Json::Array(vec![Json::Null]))]);
    let e = body_excerpt(&body, 3);
    assert_eq!(e.lines, vec![s("{"), s("  \"a\": ["), s("    null")]);
    assert_eq!(e.omitted, 3);
}

#[test]
fn reply_text_is_recorded_as_json() {
    let answer = Answer {
        status: 200,
        status_text: s("OK"),
        final_url: String::new(),
        text: Some(s(r#"{"items": []}"#)),
    };
    let c = ApiClient::to_call_result(answer, "GET", "u", None, 1);
    assert!(matches!(c.response.body, Some(Json::Object(ref m)) if m.len() == 1 && m[0].0 == "items"));
}

#[test]
fn file_stamp_is_the_iso_stamp_renamed() {
    let p = split_epoch(1_774_180_800, 250);
    let iso = iso8601_text(p);
    let expected: String = iso.chars().take(19).map(|c| match c {
        'T' => '_',
        ':' => '-',
        c => c,
    }).collect();
    assert_eq!(file_timestamp_text(p), expected);
    assert_eq!(expected, "2026-03-22_12-00-00");
}

#[test]
fn shown_path_of_a_text_without_scheme() {
    assert_eq!(extract_path("/v1/devices?x=1"), "/devices?x=1");
    assert_eq!(extract_path("/v10"), "0");
    assert_eq!(extract_path("devices"), "devices");
    assert_eq!(extract_path("ftp://h"), "/");
}
