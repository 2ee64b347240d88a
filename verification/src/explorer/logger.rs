//! The log of a survey: its entry as JSON, and the times written in it and in its file
//! name (the UTC time of an instant, as ISO 8601 and as a file name).
use vstd::prelude::*;

use crate::explorer::calendar::{civil_from_days, days_from_epoch, lemma_date_of_day_unique, valid_date};
use crate::explorer::models::{
    ApiCallResult, ApiCallResultV, EndpointTestResult, EndpointTestResultV, RequestInfo,
    RequestInfoV, ResponseInfo, ResponseInfoV, TestSuiteResult, opt_json_view, results_view,
};
use crate::explorer::reporter::{outcome, outcome_v};
use crate::explorer::stamp_order::{lemma_padded_width, pow10};
use crate::json::{entries_view, items_view, jstr, member, or_null, Json, JsonV};
use crate::text::{
    concat, decimal, format_i64, format_padded_i64, format_u128, owned, padded_v, signed_decimal,
};
use std::time::{Duration, SystemTime};

verus! {

/// A point in time, as the system clock gives it.
#[verifier::external_type_specification]
#[verifier::external_body]
pub struct ExSystemTime(SystemTime);

/// The time from the Unix epoch to `st`, where `st` is not before it.
pub uninterp spec fn epoch_offset_v(st: SystemTime) -> Option<Duration>;

/// The whole seconds of a duration.
pub uninterp spec fn duration_secs_v(d: Duration) -> u64;

/// The milliseconds of a duration beyond its whole seconds.
pub uninterp spec fn duration_millis_v(d: Duration) -> u32;

/// The time elapsed from the Unix epoch to `st`, where `st` is not before it.
///
/// Trusted: `SystemTime::duration_since(UNIX_EPOCH)`, read as an `Option`; its result
/// depends on the value of `st` alone and is named `epoch_offset_v`.
#[verifier::external_body]
fn since_epoch(st: &SystemTime) -> (r: Option<Duration>)
    ensures
        r == epoch_offset_v(*st),
{
    st.duration_since(std::time::UNIX_EPOCH).ok()
}

/// The whole seconds of a duration.
///
/// Trusted: `Duration::as_secs`; its result is named `duration_secs_v`.
#[verifier::external_body]
fn whole_seconds(d: &Duration) -> (r: u64)
    ensures
        r == duration_secs_v(*d),
{
    d.as_secs()
}

/// The milliseconds of a duration beyond its whole seconds.
///
/// Trusted: `Duration::subsec_millis`, which std documents as less than one thousand;
/// its result is named `duration_millis_v`.
#[verifier::external_body]
fn subsecond_millis(d: &Duration) -> (r: u32)
    ensures
        r == duration_millis_v(*d),
        r < 1000,
{
    d.subsec_millis()
}

/// The seconds counted, as an `i64`: those given, or 0 where they do not fit.
pub open spec fn counted_seconds(secs: u64) -> int {
    if secs <= i64::MAX as u64 {
        secs as int
    } else {
        0
    }
}

/// The UTC date and time `secs` seconds and `millis` milliseconds after the epoch:
/// (year, month, day, hour, minute, second, millisecond).
pub open spec fn split_v(
    secs: int,
    millis: int,
    r: (i64, i64, i64, i64, i64, i64, i64),
) -> bool {
    let sod = secs % 86400;
    &&& valid_date(r.0 as int, r.1 as int, r.2 as int)
    &&& days_from_epoch(r.0 as int, r.1 as int, r.2 as int) == secs / 86400
    &&& r.3 == sod / 3600
    &&& r.4 == (sod % 3600) / 60
    &&& r.5 == sod % 60
    &&& r.6 == millis
}

/// The UTC date and time `secs` seconds and `millis` milliseconds after the epoch
/// (seconds that do not fit an `i64` count as none).
pub fn split_epoch(secs: u64, millis: u32) -> (r: (i64, i64, i64, i64, i64, i64, i64))
    ensures
        split_v(counted_seconds(secs), millis as int, r),
{
    let total_seconds: i64 = if secs <= i64::MAX as u64 {
        secs as i64
    } else {
        0
    };
    let days = total_seconds / 86400;
    let sec_of_day = total_seconds % 86400;
    let (year, month, day) = civil_from_days(days);
    let hour = sec_of_day / 3600;
    let minute = (sec_of_day % 3600) / 60;
    let second = sec_of_day % 60;
    (year, month, day, hour, minute, second, millis as i64)
}

/// The seconds from the epoch to `st` that are counted: none for an instant before the
/// epoch, or for more seconds than an `i64` holds.
pub open spec fn offset_secs_v(st: SystemTime) -> int {
    match epoch_offset_v(st) {
        Some(d) => counted_seconds(duration_secs_v(d)),
        None => 0,
    }
}

/// The milliseconds of `st` beyond its whole seconds from the epoch: none for an instant
/// before the epoch.
pub open spec fn offset_millis_v(st: SystemTime) -> int {
    match epoch_offset_v(st) {
        Some(d) => duration_millis_v(d) as int,
        None => 0,
    }
}

/// A split names one date and time: a day count and a second of the day give one each.
pub proof fn lemma_split_unique(
    secs: int,
    millis: int,
    p: (i64, i64, i64, i64, i64, i64, i64),
    q: (i64, i64, i64, i64, i64, i64, i64),
)
    requires
        split_v(secs, millis, p),
        split_v(secs, millis, q),
    ensures
        p == q,
{
    lemma_date_of_day_unique(p.0 as int, p.1 as int, p.2 as int, q.0 as int, q.1 as int, q.2 as int);
}

/// The UTC date and time of `st` (an instant before the epoch counting as the epoch).
pub open spec fn utc_fields_v(st: SystemTime) -> (i64, i64, i64, i64, i64, i64, i64) {
    choose|p: (i64, i64, i64, i64, i64, i64, i64)| split_v(offset_secs_v(st), offset_millis_v(st), p)
}

/// The UTC date and time of `st`: (year, month, day, hour, minute, second, millisecond).
/// An instant before the epoch counts as the epoch.
pub fn split_utc(st: SystemTime) -> (r: (i64, i64, i64, i64, i64, i64, i64))
    ensures
        split_v(offset_secs_v(st), offset_millis_v(st), r),
        r == utc_fields_v(st),
        0 <= r.6 < 1000,
{
    let (secs, millis) = match since_epoch(&st) {
        Some(d) => (whole_seconds(&d), subsecond_millis(&d)),
        None => (0, 0),
    };
    let r = split_epoch(secs, millis);
    proof {
        let q = utc_fields_v(st);
        lemma_split_unique(offset_secs_v(st), offset_millis_v(st), r, q);
    }
    r
}

/// An instant before the epoch is written as the epoch: 1970-01-01 00:00:00.000.
pub proof fn law_before_epoch_is_epoch(st: SystemTime)
    requires
        epoch_offset_v(st) is None,
    ensures
        utc_fields_v(st) == (1970i64, 1i64, 1i64, 0i64, 0i64, 0i64, 0i64),
{
    let e = (1970i64, 1i64, 1i64, 0i64, 0i64, 0i64, 0i64);
    assert(split_v(0, 0, e));
    lemma_split_unique(0, 0, e, utc_fields_v(st));
}

/// `YYYY-MM-DDTHH:MM:SS.mmmZ`.
pub open spec fn iso8601_v(p: (i64, i64, i64, i64, i64, i64, i64)) -> Seq<char> {
    padded_v(p.0 as int, 4) + "-"@ + padded_v(p.1 as int, 2) + "-"@ + padded_v(p.2 as int, 2) + "T"@
        + padded_v(p.3 as int, 2) + ":"@ + padded_v(p.4 as int, 2) + ":"@ + padded_v(p.5 as int, 2)
        + "."@ + padded_v(p.6 as int, 3) + "Z"@
}

/// `YYYY-MM-DD_HH-MM-SS`.
pub open spec fn file_timestamp_v(p: (i64, i64, i64, i64, i64, i64, i64)) -> Seq<char> {
    padded_v(p.0 as int, 4) + "-"@ + padded_v(p.1 as int, 2) + "-"@ + padded_v(p.2 as int, 2) + "_"@
        + padded_v(p.3 as int, 2) + "-"@ + padded_v(p.4 as int, 2) + "-"@ + padded_v(p.5 as int, 2)
}

/// `YYYY-MM-DDTHH:MM:SS.mmmZ` for a date and time.
pub fn iso8601_text(p: (i64, i64, i64, i64, i64, i64, i64)) -> (r: String)
    ensures
        r@ == iso8601_v(p),
{
    let mut r = format_padded_i64(p.0, 4);
    r.append("-");
    r.append(format_padded_i64(p.1, 2).as_str());
    r.append("-");
    r.append(format_padded_i64(p.2, 2).as_str());
    r.append("T");
    r.append(format_padded_i64(p.3, 2).as_str());
    r.append(":");
    r.append(format_padded_i64(p.4, 2).as_str());
    r.append(":");
    r.append(format_padded_i64(p.5, 2).as_str());
    r.append(".");
    r.append(format_padded_i64(p.6, 3).as_str());
    r.append("Z");
    r
}

/// `YYYY-MM-DD_HH-MM-SS` for a date and time.
pub fn file_timestamp_text(p: (i64, i64, i64, i64, i64, i64, i64)) -> (r: String)
    ensures
        r@ == file_timestamp_v(p),
{
    let mut r = format_padded_i64(p.0, 4);
    r.append("-");
    r.append(format_padded_i64(p.1, 2).as_str());
    r.append("-");
    r.append(format_padded_i64(p.2, 2).as_str());
    r.append("_");
    r.append(format_padded_i64(p.3, 2).as_str());
    r.append("-");
    r.append(format_padded_i64(p.4, 2).as_str());
    r.append("-");
    r.append(format_padded_i64(p.5, 2).as_str());
    r
}

/// The UTC time of `st` as `YYYY-MM-DDTHH:MM:SS.mmmZ`.
pub fn iso8601_utc(st: SystemTime) -> (r: String)
    ensures
        r@ == iso8601_v(utc_fields_v(st)),
{
    let p = split_utc(st);
    iso8601_text(p)
}

/// The UTC time of `st` as `YYYY-MM-DD_HH-MM-SS`, for a file name.
pub fn file_timestamp(st: SystemTime) -> (r: String)
    ensures
        r@ == file_timestamp_v(utc_fields_v(st)),
{
    let p = split_utc(st);
    file_timestamp_text(p)
}

/// The time stamp written in a log and the one in its file name, both from one reading
/// of `st`: they name the same date and time.
pub fn log_stamps(st: SystemTime) -> (r: (String, String))
    ensures
        r.0@ == iso8601_v(utc_fields_v(st)),
        r.1@ == file_timestamp_v(utc_fields_v(st)),
{
    let p = split_utc(st);
    (iso8601_text(p), file_timestamp_text(p))
}

/// `YYYY-MM-DD` of a date and time.
pub open spec fn date_text_v(p: (i64, i64, i64, i64, i64, i64, i64)) -> Seq<char> {
    padded_v(p.0 as int, 4) + "-"@ + padded_v(p.1 as int, 2) + "-"@ + padded_v(p.2 as int, 2)
}

/// The log's time stamp and the file name's stamp of one instant name the same date and
/// time, so that two instants in the same UTC second give the same file name.
pub proof fn law_stamps_of_one_instant(st: SystemTime)
    ensures
        file_timestamp_v(utc_fields_v(st)) == date_text_v(utc_fields_v(st)) + "_"@ + padded_v(
            utc_fields_v(st).3 as int,
            2,
        ) + "-"@ + padded_v(utc_fields_v(st).4 as int, 2) + "-"@ + padded_v(utc_fields_v(st).5 as int, 2),
        iso8601_v(utc_fields_v(st)) == date_text_v(utc_fields_v(st)) + "T"@ + padded_v(
            utc_fields_v(st).3 as int,
            2,
        ) + ":"@ + padded_v(utc_fields_v(st).4 as int, 2) + ":"@ + padded_v(utc_fields_v(st).5 as int, 2)
            + "."@ + padded_v(utc_fields_v(st).6 as int, 3) + "Z"@,
{
}

/// Two instants in the same counted second of UTC have the same file name stamp,
/// whatever their milliseconds.
pub proof fn law_same_second_same_file_stamp(
    secs: int,
    m1: int,
    p: (i64, i64, i64, i64, i64, i64, i64),
    m2: int,
    q: (i64, i64, i64, i64, i64, i64, i64),
)
    requires
        split_v(secs, m1, p),
        split_v(secs, m2, q),
    ensures
        file_timestamp_v(p) == file_timestamp_v(q),
{
    lemma_date_of_day_unique(p.0 as int, p.1 as int, p.2 as int, q.0 as int, q.1 as int, q.2 as int);
}

/// The log's time stamp and the file name's stamp of one date and time share its date,
/// hour, minute and second: `<date>T<h>:<m>:<s>.<ms>Z` and `<date>_<h>-<m>-<s>`.
pub proof fn law_stamps_share_date_and_time(p: (i64, i64, i64, i64, i64, i64, i64))
    ensures
        iso8601_v(p) == date_text_v(p) + "T"@ + padded_v(p.3 as int, 2) + ":"@ + padded_v(p.4 as int, 2)
            + ":"@ + padded_v(p.5 as int, 2) + "."@ + padded_v(p.6 as int, 3) + "Z"@,
        file_timestamp_v(p) == date_text_v(p) + "_"@ + padded_v(p.3 as int, 2) + "-"@ + padded_v(
            p.4 as int,
            2,
        ) + "-"@ + padded_v(p.5 as int, 2),
{
}

/// For a date and time of the years 0 to 9999, the log's time stamp is 24 characters
/// long and the file name's 19.
pub proof fn law_stamp_lengths(p: (i64, i64, i64, i64, i64, i64, i64))
    requires
        0 <= p.0 <= 9999,
        0 <= p.1 < 100,
        0 <= p.2 < 100,
        0 <= p.3 < 100,
        0 <= p.4 < 100,
        0 <= p.5 < 100,
        0 <= p.6 < 1000,
    ensures
        iso8601_v(p).len() == 24,
        file_timestamp_v(p).len() == 19,
{
    reveal_strlit("-");
    reveal_strlit("T");
    reveal_strlit(":");
    reveal_strlit(".");
    reveal_strlit("Z");
    reveal_strlit("_");
    assert(pow10(2) == 100 && pow10(3) == 1000 && pow10(4) == 10000) by {
        reveal_with_fuel(pow10, 5);
    }
    lemma_padded_width(p.0 as int, 4);
    lemma_padded_width(p.1 as int, 2);
    lemma_padded_width(p.2 as int, 2);
    lemma_padded_width(p.3 as int, 2);
    lemma_padded_width(p.4 as int, 2);
    lemma_padded_width(p.5 as int, 2);
    lemma_padded_width(p.6 as int, 3);
}

/// The text of a file system path, decoded as UTF-8 with each invalid sequence replaced
/// by U+FFFD.
pub uninterp spec fn lossy_utf8(bytes: Seq<u8>) -> Seq<char>;

/// A file system path as text.
///
/// Trusted: `String::from_utf8_lossy`, whose result is named `lossy_utf8`; std documents
/// that valid UTF-8 is decoded as it is.
#[verifier::external_body]
pub fn path_to_string(path: &[u8]) -> (r: String)
    ensures
        r@ == lossy_utf8(path@),
        vstd::utf8::valid_utf8(path@) ==> r@ == vstd::utf8::decode_utf8(path@),
{
    String::from_utf8_lossy(path).into_owned()
}

/// A request as the log writes it: `{"method", "url", "body"}`.
pub open spec fn request_json_v(q: RequestInfoV) -> JsonV {
    JsonV::Object(seq![("method"@, jstr(q.method)), ("url"@, jstr(q.url)), ("body"@, or_null(q.body))])
}

/// A response as the log writes it: `{"status", "status_text", "body"}`.
pub open spec fn response_json_v(p: ResponseInfoV) -> JsonV {
    JsonV::Object(
        seq![
            ("status"@, JsonV::Number(signed_decimal(p.status as int))),
            ("status_text"@, jstr(p.status_text)),
            ("body"@, or_null(p.body)),
        ],
    )
}

/// A call as the log writes it: `{"request", "response", "durationMs"}`.
pub open spec fn call_json_v(c: ApiCallResultV) -> JsonV {
    JsonV::Object(
        seq![
            ("request"@, request_json_v(c.request)),
            ("response"@, response_json_v(c.response)),
            ("durationMs"@, JsonV::Number(decimal(c.duration_ms as nat))),
        ],
    )
}

/// An endpoint's result as the log writes it: its category, label, name and
/// description, its status (`skipped`, `passed` or `failed`), its error (or `null`) and
/// its calls.
pub open spec fn result_json_v(r: EndpointTestResultV) -> JsonV {
    JsonV::Object(
        seq![
            ("category"@, jstr(r.endpoint.category)),
            ("categoryLabel"@, jstr(r.endpoint.category_label)),
            ("name"@, jstr(r.endpoint.name)),
            ("description"@, jstr(r.endpoint.description)),
            ("status"@, jstr(outcome_v(r).log_name_v())),
            ("error"@, match r.error {
                Some(e) => jstr(e),
                None => JsonV::Null,
            }),
            ("calls"@, JsonV::Array(Seq::new(r.calls.len(), |i: int| call_json_v(r.calls[i])))),
        ],
    )
}

/// An optional body, `null` where there is none.
fn body_json(b: &Option<Json>) -> (r: Json)
    ensures
        r@ == or_null(opt_json_view(*b)),
{
    match b {
        Some(j) => j.deep_clone(),
        None => Json::Null,
    }
}

/// A request as the log writes it.
pub fn request_json(q: &RequestInfo) -> (r: Json)
    ensures
        r@ == request_json_v(q@),
{
    let fields = vec![
        member("method", Json::Str(q.method.clone())),
        member("url", Json::Str(q.url.clone())),
        member("body", body_json(&q.body)),
    ];
    assert(entries_view(fields@) =~= request_json_v(q@)->Object_0);
    Json::Object(fields)
}

/// A response as the log writes it.
pub fn response_json(p: &ResponseInfo) -> (r: Json)
    ensures
        r@ == response_json_v(p@),
{
    let fields = vec![
        member("status", Json::Number(format_i64(p.status as i64))),
        member("status_text", Json::Str(p.status_text.clone())),
        member("body", body_json(&p.body)),
    ];
    assert(entries_view(fields@) =~= response_json_v(p@)->Object_0);
    Json::Object(fields)
}

/// A call as the log writes it.
pub fn call_json(c: &ApiCallResult) -> (r: Json)
    ensures
        r@ == call_json_v(c@),
{
    let fields = vec![
        member("request", request_json(&c.request)),
        member("response", response_json(&c.response)),
        member("durationMs", Json::Number(format_u128(c.duration_ms))),
    ];
    assert(entries_view(fields@) =~= call_json_v(c@)->Object_0);
    Json::Object(fields)
}

/// An endpoint's result as the log writes it.
pub fn result_json(r: &EndpointTestResult) -> (j: Json)
    ensures
        j@ == result_json_v(r@),
{
    let mut calls: Vec<Json> = Vec::new();
    let mut i: usize = 0;
    while i < r.calls.len()
        invariant
            0 <= i <= r.calls.len(),
            calls@.len() == i,
            forall|k: int| 0 <= k < i ==> (#[trigger] calls@[k])@ == call_json_v(r.calls@[k]@),
        decreases r.calls.len() - i,
    {
        calls.push(call_json(&r.calls[i]));
        i = i + 1;
    }
    let ghost rv = r@;
    assert(items_view(calls@) =~= Seq::new(rv.calls.len(), |k: int| call_json_v(rv.calls[k])));
    let error = match &r.error {
        Some(e) => Json::Str(e.clone()),
        None => Json::Null,
    };
    let fields = vec![
        member("category", Json::Str(r.endpoint.category.clone())),
        member("categoryLabel", Json::Str(r.endpoint.category_label.clone())),
        member("name", Json::Str(r.endpoint.name.clone())),
        member("description", Json::Str(r.endpoint.description.clone())),
        member("status", Json::Str(owned(outcome(r).log_name()))),
        member("error", error),
        member("calls", Json::Array(calls)),
    ];
    assert(entries_view(fields@) =~= result_json_v(rv)->Object_0);
    Json::Object(fields)
}

/// The counts of a survey as the log writes them.
pub struct LogSummary {
    pub total: usize,
    pub passed: usize,
    pub failed: usize,
    pub skipped: usize,
    pub duration_ms: u128,
}

/// The log of a survey: who ran it (`rust`), when, its counts, and each endpoint's result.
pub struct LogEntry {
    pub runner: String,
    pub timestamp: String,
    pub summary: LogSummary,
    pub results: Vec<Json>,
}

/// The log of a survey, stamped with `timestamp`.
pub fn log_entry(suite: &TestSuiteResult, timestamp: String) -> (r: LogEntry)
    ensures
        r.runner@ == "rust"@,
        r.timestamp@ == timestamp@,
        r.summary.total == suite.total,
        r.summary.passed == suite.passed,
        r.summary.failed == suite.failed,
        r.summary.skipped == suite.skipped,
        r.summary.duration_ms == suite.duration_ms,
        items_view(r.results@) == Seq::new(
            suite.results@.len(),
            |i: int| result_json_v(results_view(suite.results@)[i]),
        ),
{
    let mut results: Vec<Json> = Vec::new();
    let mut i: usize = 0;
    while i < suite.results.len()
        invariant
            0 <= i <= suite.results.len(),
            results@.len() == i,
            forall|k: int|
                0 <= k < i ==> (#[trigger] results@[k])@ == result_json_v(suite.results@[k]@),
        decreases suite.results.len() - i,
    {
        results.push(result_json(&suite.results[i]));
        i = i + 1;
    }
    assert(items_view(results@) =~= Seq::new(
        suite.results@.len(),
        |k: int| result_json_v(results_view(suite.results@)[k]),
    ));
    LogEntry {
        runner: owned("rust"),
        timestamp,
        summary: LogSummary {
            total: suite.total,
            passed: suite.passed,
            failed: suite.failed,
            skipped: suite.skipped,
            duration_ms: suite.duration_ms,
        },
        results,
    }
}

/// The name of a log file: its time stamp and `.json`.
pub fn log_file_name(stamp: &str) -> (r: String)
    ensures
        r@ == stamp@ + ".json"@,
{
    concat(stamp, ".json")
}

} // verus!
