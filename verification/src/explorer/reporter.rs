//! What the survey's report shows: for each endpoint its outcome and calls, an excerpt
//! of each JSON body, a table of all endpoints, and the results per category. The
//! program prints these with its colours and column widths.
use vstd::prelude::*;

use crate::explorer::models::{
    opt_text_view, ApiCallResult, ApiCallResultV, EndpointTestResult, EndpointTestResultV,
    TestSuiteResult, results_view,
};
use crate::json::{pretty_json, pretty_json_v, Json};
use crate::text::{
    chars_of, concat, decimal, find_first, find_in, format_i64, format_u128, matches_at, occurs_at,
    owned, signed_decimal, split_on, split_v, string_of, strings_view,
};

verus! {

/// The colour class of a status: below 300, below 400, or an error.
#[derive(Clone, Copy, PartialEq, Eq, Structural)]
pub enum StatusClass {
    Success,
    Redirect,
    Error,
}

/// The colour class of a status.
pub open spec fn status_class_v(status: i32) -> StatusClass {
    if status < 300 {
        StatusClass::Success
    } else if status < 400 {
        StatusClass::Redirect
    } else {
        StatusClass::Error
    }
}

/// The colour class of a status.
pub fn status_class(status: i32) -> (r: StatusClass)
    ensures
        r == status_class_v(status),
{
    if status < 300 {
        StatusClass::Success
    } else if status < 400 {
        StatusClass::Redirect
    } else {
        StatusClass::Error
    }
}

/// How an endpoint came out.
#[derive(Clone, Copy, PartialEq, Eq, Structural)]
pub enum Outcome {
    Skipped,
    Passed,
    Failed,
}

/// How an endpoint came out: skipped, else passed where it succeeded, else failed.
pub open spec fn outcome_v(r: EndpointTestResultV) -> Outcome {
    if r.skipped {
        Outcome::Skipped
    } else if r.success {
        Outcome::Passed
    } else {
        Outcome::Failed
    }
}

impl Outcome {
    /// The word shown for the outcome.
    pub open spec fn label_v(self) -> Seq<char> {
        match self {
            Outcome::Skipped => "건너뜀"@,
            Outcome::Passed => "성공"@,
            Outcome::Failed => "실패"@,
        }
    }

    /// The word shown for the outcome.
    pub fn label(&self) -> (r: &'static str)
        ensures
            r@ == self.label_v(),
    {
        match self {
            Outcome::Skipped => "건너뜀",
            Outcome::Passed => "성공",
            Outcome::Failed => "실패",
        }
    }

    /// The status written for the outcome in a log.
    pub open spec fn log_name_v(self) -> Seq<char> {
        match self {
            Outcome::Skipped => "skipped"@,
            Outcome::Passed => "passed"@,
            Outcome::Failed => "failed"@,
        }
    }

    /// The status written for the outcome in a log.
    pub fn log_name(&self) -> (r: &'static str)
        ensures
            r@ == self.log_name_v(),
    {
        match self {
            Outcome::Skipped => "skipped",
            Outcome::Passed => "passed",
            Outcome::Failed => "failed",
        }
    }
}

/// How an endpoint came out.
pub fn outcome(r: &EndpointTestResult) -> (o: Outcome)
    ensures
        o == outcome_v(r@),
{
    if r.skipped {
        Outcome::Skipped
    } else if r.success {
        Outcome::Passed
    } else {
        Outcome::Failed
    }
}

/// Why a skipped endpoint was skipped: its note on what it needs, or, for one that
/// changes the home, `부수효과 테스트 건너뜀`.
pub open spec fn skip_reason_v(r: EndpointTestResultV) -> Seq<char> {
    match r.endpoint.needs_setup {
        Some(n) => n,
        None => "부수효과 테스트 건너뜀"@,
    }
}

/// Why a skipped endpoint was skipped.
pub fn skip_reason(r: &EndpointTestResult) -> (s: String)
    ensures
        s@ == skip_reason_v(r@),
{
    match &r.endpoint.needs_setup {
        Some(n) => n.clone(),
        None => owned("부수효과 테스트 건너뜀"),
    }
}

/// The path and query of a URL: what follows the host, without the API's `/v1` root;
/// a text without a scheme is taken as the path itself.
pub open spec fn path_with_query_v(url: Seq<char>) -> Seq<char> {
    match find_first(url, "://"@) {
        Some(p) => {
            let rest = url.skip(p + "://"@.len());
            match find_first(rest, "/"@) {
                Some(i) => rest.skip(i),
                None => "/"@,
            }
        },
        None => url,
    }
}

/// The path shown for a URL: its path and query, with a leading `/v1` taken off.
pub open spec fn extract_path_v(url: Seq<char>) -> Seq<char> {
    let p = path_with_query_v(url);
    if occurs_at(p, "/v1"@, 0) {
        p.skip("/v1"@.len() as int)
    } else {
        p
    }
}

/// The path shown for a URL.
pub fn extract_path(url: &str) -> (r: String)
    ensures
        r@ == extract_path_v(url@),
{
    let u = chars_of(url);
    let scheme = chars_of("://");
    let path_with_query: Vec<char> = match find_in(&u, &scheme) {
        Some(p) => {
            proof {
                crate::text::lemma_find_first_bounds(u@, scheme@);
            }
            let start = p + scheme.len();
            let rest_s = string_of(&u, start, u.len());
            let rest = chars_of(rest_s.as_str());
            assert(rest@ =~= u@.skip(start as int));
            let slash = chars_of("/");
            match find_in(&rest, &slash) {
                Some(i) => {
                    proof {
                        crate::text::lemma_find_first_bounds(rest@, slash@);
                    }
                    let tail = string_of(&rest, i, rest.len());
                    assert(tail@ =~= rest@.skip(i as int));
                    chars_of(tail.as_str())
                },
                None => slash,
            }
        },
        None => u,
    };
    let prefix = chars_of("/v1");
    if matches_at(&path_with_query, &prefix, 0) {
        let r = string_of(&path_with_query, prefix.len(), path_with_query.len());
        assert(r@ =~= path_with_query@.skip(prefix@.len() as int));
        r
    } else {
        string_of(&path_with_query, 0, path_with_query.len())
    }
}

/// The lines of a text, as `str::lines` gives them: split at each `\n`, a `\r` before
/// the `\n` taken off, and no empty line after a final `\n` (none at all for an empty
/// text).
pub open spec fn lines_v(s: Seq<char>) -> Seq<Seq<char>> {
    let p = split_v(s, '\n');
    let n = p.len();
    let count: nat = if p.last().len() == 0 {
        (n - 1) as nat
    } else {
        n
    };
    Seq::new(
        count,
        |i: int|
            if i < n - 1 && p[i].len() > 0 && p[i].last() == '\r' {
                p[i].drop_last()
            } else {
                p[i]
            },
    )
}

/// The model of an excerpt of a JSON body.
pub struct JsonExcerptV {
    pub lines: Seq<Seq<char>>,
    pub omitted: nat,
}

/// The first lines of a rendered JSON body, and how many more it has.
pub struct JsonExcerpt {
    pub lines: Vec<String>,
    pub omitted: usize,
}

/// The excerpt of `rendered` shown in a report: its first `max_lines` lines, and the
/// number of the rest.
pub open spec fn json_excerpt_v(rendered: Seq<char>, max_lines: nat) -> JsonExcerptV {
    let all = lines_v(rendered);
    if all.len() > max_lines {
        JsonExcerptV { lines: all.take(max_lines as int), omitted: (all.len() - max_lines) as nat }
    } else {
        JsonExcerptV { lines: all, omitted: 0 }
    }
}

/// The excerpt of a rendered JSON body shown in a report.
pub fn json_excerpt(rendered: &str, max_lines: usize) -> (r: JsonExcerpt)
    ensures
        strings_view(r.lines@) == json_excerpt_v(rendered@, max_lines as nat).lines,
        r.omitted == json_excerpt_v(rendered@, max_lines as nat).omitted,
{
    let pieces = split_on(rendered, '\n');
    let ghost p = strings_view(pieces@);
    proof {
        crate::text::lemma_split_nonempty(rendered@, '\n');
    }
    let n = pieces.len();
    let count: usize = if pieces[n - 1].as_str().is_empty() {
        n - 1
    } else {
        n
    };
    let ghost all = lines_v(rendered@);
    assert(all.len() == count);
    let shown: usize = if count > max_lines {
        max_lines
    } else {
        count
    };
    let mut lines: Vec<String> = Vec::new();
    let mut i: usize = 0;
    while i < shown
        invariant
            0 <= i <= shown <= count <= n,
            n == pieces@.len(),
            p == strings_view(pieces@),
            p == split_v(rendered@, '\n'),
            all == lines_v(rendered@),
            all.len() == count,
            lines@.len() == i,
            forall|j: int| 0 <= j < i ==> (#[trigger] lines@[j])@ == all[j],
        decreases shown - i,
    {
        let piece = &pieces[i];
        let cs = chars_of(piece.as_str());
        assert(cs@ == p[i as int]);
        let line = if i < n - 1 && cs.len() > 0 && cs[cs.len() - 1] == '\r' {
            let l = string_of(&cs, 0, cs.len() - 1);
            assert(l@ =~= p[i as int].drop_last());
            l
        } else {
            piece.clone()
        };
        lines.push(line);
        i = i + 1;
    }
    let omitted: usize = if count > max_lines {
        count - max_lines
    } else {
        0
    };
    assert(strings_view(lines@) =~= json_excerpt_v(rendered@, max_lines as nat).lines);
    JsonExcerpt { lines, omitted }
}

/// The excerpt of a JSON body shown in a report: the first `max_lines` lines of its
/// indented text, and the number of the rest.
pub fn body_excerpt(body: &Json, max_lines: usize) -> (r: JsonExcerpt)
    ensures
        strings_view(r.lines@) == json_excerpt_v(pretty_json_v(body@), max_lines as nat).lines,
        r.omitted == json_excerpt_v(pretty_json_v(body@), max_lines as nat).omitted,
{
    let rendered = pretty_json(body);
    json_excerpt(rendered.as_str(), max_lines)
}

/// `s` repeated `n` times.
pub open spec fn repeat_v(s: Seq<char>, n: nat) -> Seq<char>
    decreases n,
{
    if n == 0 {
        Seq::empty()
    } else {
        repeat_v(s, (n - 1) as nat) + s
    }
}

/// `s` repeated `n` times.
pub fn repeat_text(s: &str, n: usize) -> (r: String)
    ensures
        r@ == repeat_v(s@, n as nat),
{
    let mut r = String::new();
    let mut i: usize = 0;
    while i < n
        invariant
            0 <= i <= n,
            r@ == repeat_v(s@, i as nat),
        decreases n - i,
    {
        r.append(s);
        i = i + 1;
    }
    r
}

/// `width - k`, or nothing where `k` is larger.
pub open spec fn room_v(width: nat, k: nat) -> nat {
    if k >= width {
        0
    } else {
        (width - k) as nat
    }
}

/// The rule drawn after a category's label in the report's heading for it: `─` up to 50
/// columns, counting the label's characters.
pub fn category_rule(label: &str) -> (r: String)
    ensures
        r@ == repeat_v("─"@, room_v(50, label@.len())),
{
    let k = label.unicode_len();
    let n: usize = if k >= 50 {
        0
    } else {
        50 - k
    };
    repeat_text("─", n)
}

/// A category's label followed by spaces up to 22 characters, as the summary table
/// shows it.
pub fn padded_label(label: &str) -> (r: String)
    ensures
        r@ == label@ + repeat_v(" "@, room_v(22, label@.len())),
{
    let k = label.unicode_len();
    let n: usize = if k >= 22 {
        0
    } else {
        22 - k
    };
    let pad = repeat_text(" ", n);
    let mut r = owned(label);
    r.append(pad.as_str());
    r
}

/// The model of one call as the table shows it.
pub struct CallLineV {
    pub method: Seq<char>,
    pub status: i32,
    pub status_class: StatusClass,
    pub duration: Seq<char>,
    pub path: Seq<char>,
}

/// One call as the table shows it: method, status and its class, time (`<n>ms`) and
/// the path of its URL.
pub struct CallLine {
    pub method: String,
    pub status: i32,
    pub status_class: StatusClass,
    pub duration: String,
    pub path: String,
}

impl View for CallLine {
    type V = CallLineV;

    open spec fn view(&self) -> CallLineV {
        CallLineV {
            method: self.method@,
            status: self.status,
            status_class: self.status_class,
            duration: self.duration@,
            path: self.path@,
        }
    }
}

/// The time of a call as shown: `<n>ms`.
pub open spec fn duration_text_v(ms: u128) -> Seq<char> {
    decimal(ms as nat) + "ms"@
}

/// One call as the table shows it.
pub open spec fn call_line_v(c: ApiCallResultV) -> CallLineV {
    CallLineV {
        method: c.request.method,
        status: c.response.status,
        status_class: status_class_v(c.response.status),
        duration: duration_text_v(c.duration_ms),
        path: extract_path_v(c.request.url),
    }
}

/// One call as the table shows it.
pub fn call_line(c: &ApiCallResult) -> (r: CallLine)
    ensures
        r@ == call_line_v(c@),
{
    CallLine {
        method: c.request.method.clone(),
        status: c.response.status,
        status_class: status_class(c.response.status),
        duration: concat(format_u128(c.duration_ms).as_str(), "ms"),
        path: extract_path(c.request.url.as_str()),
    }
}

/// The model of a row of the table.
pub struct DetailRowV {
    pub number: nat,
    pub outcome: Outcome,
    pub category: Seq<char>,
    pub name: Seq<char>,
    pub method: Seq<char>,
    pub code: Seq<char>,
    pub duration: Seq<char>,
    pub status_class: Option<StatusClass>,
    pub path: Seq<char>,
    pub extra: Seq<CallLineV>,
    pub error: Option<Seq<char>>,
}

/// A row of the table of all endpoints: its number, outcome, category and name; the
/// method, status, time, status class and path of its first call (`—` where it made
/// none); its further calls; and its error.
pub struct DetailRow {
    pub number: usize,
    pub outcome: Outcome,
    pub category: String,
    pub name: String,
    pub method: String,
    pub code: String,
    pub duration: String,
    pub status_class: Option<StatusClass>,
    pub path: String,
    pub extra: Vec<CallLine>,
    pub error: Option<String>,
}

/// The models of a list of call lines.
pub open spec fn call_lines_view(s: Seq<CallLine>) -> Seq<CallLineV> {
    Seq::new(s.len(), |i: int| s[i]@)
}

impl View for DetailRow {
    type V = DetailRowV;

    open spec fn view(&self) -> DetailRowV {
        DetailRowV {
            number: self.number as nat,
            outcome: self.outcome,
            category: self.category@,
            name: self.name@,
            method: self.method@,
            code: self.code@,
            duration: self.duration@,
            status_class: self.status_class,
            path: self.path@,
            extra: call_lines_view(self.extra@),
            error: opt_text_view(self.error),
        }
    }
}

/// The row of the table for the result at position `i`.
pub open spec fn detail_row_v(i: int, r: EndpointTestResultV) -> DetailRowV {
    let has_call = r.calls.len() > 0;
    let first = r.calls[0];
    DetailRowV {
        number: (i + 1) as nat,
        outcome: outcome_v(r),
        category: r.endpoint.category,
        name: r.endpoint.name,
        method: if has_call {
            first.request.method
        } else {
            "—"@
        },
        code: if has_call {
            signed_decimal(first.response.status as int)
        } else {
            "—"@
        },
        duration: if has_call {
            duration_text_v(first.duration_ms)
        } else {
            "—"@
        },
        status_class: if has_call {
            Some(status_class_v(first.response.status))
        } else {
            None
        },
        path: if has_call {
            extract_path_v(first.request.url)
        } else {
            "—"@
        },
        extra: if has_call {
            Seq::new((r.calls.len() - 1) as nat, |j: int| call_line_v(r.calls[j + 1]))
        } else {
            Seq::empty()
        },
        error: r.error,
    }
}

/// The row of the table for the result at position `i`.
pub fn detail_row(i: usize, r: &EndpointTestResult) -> (row: DetailRow)
    requires
        i < usize::MAX,
    ensures
        row@ == detail_row_v(i as int, r@),
{
    let ghost rv = r@;
    let mut extra: Vec<CallLine> = Vec::new();
    if r.calls.len() == 0 {
        assert(call_lines_view(extra@) =~= Seq::<CallLineV>::empty());
        return DetailRow {
            number: i + 1,
            outcome: outcome(r),
            category: r.endpoint.category.clone(),
            name: r.endpoint.name.clone(),
            method: owned("—"),
            code: owned("—"),
            duration: owned("—"),
            status_class: None,
            path: owned("—"),
            extra,
            error: crate::explorer::models::copy_opt_text(&r.error),
        };
    }
    let mut k: usize = 1;
    while k < r.calls.len()
        invariant
            1 <= k <= r.calls.len(),
            extra@.len() == k - 1,
            forall|j: int| 0 <= j < k - 1 ==> (#[trigger] extra@[j])@ == call_line_v(r.calls@[j + 1]@),
        decreases r.calls.len() - k,
    {
        extra.push(call_line(&r.calls[k]));
        k = k + 1;
    }
    assert(call_lines_view(extra@) =~= Seq::new(
        (rv.calls.len() - 1) as nat,
        |j: int| call_line_v(rv.calls[j + 1]),
    ));
    let first = &r.calls[0];
    assert(rv.calls[0] == first@);
    DetailRow {
        number: i + 1,
        outcome: outcome(r),
        category: r.endpoint.category.clone(),
        name: r.endpoint.name.clone(),
        method: first.request.method.clone(),
        code: format_i64(first.response.status as i64),
        duration: concat(format_u128(first.duration_ms).as_str(), "ms"),
        status_class: Some(status_class(first.response.status)),
        path: extract_path(first.request.url.as_str()),
        extra,
        error: crate::explorer::models::copy_opt_text(&r.error),
    }
}

/// The models of a list of rows.
pub open spec fn rows_view(s: Seq<DetailRow>) -> Seq<DetailRowV> {
    Seq::new(s.len(), |i: int| s[i]@)
}

/// The rows of the table of all endpoints of a survey, in the order in which they ran.
pub fn detail_rows(suite: &TestSuiteResult) -> (rows: Vec<DetailRow>)
    ensures
        rows_view(rows@) == Seq::new(
            suite.results@.len(),
            |i: int| detail_row_v(i, results_view(suite.results@)[i]),
        ),
{
    let mut rows: Vec<DetailRow> = Vec::new();
    let mut i: usize = 0;
    while i < suite.results.len()
        invariant
            0 <= i <= suite.results.len(),
            rows@.len() == i,
            forall|k: int|
                0 <= k < i ==> (#[trigger] rows@[k])@ == detail_row_v(k, suite.results@[k]@),
        decreases suite.results.len() - i,
    {
        rows.push(detail_row(i, &suite.results[i]));
        i = i + 1;
    }
    assert(rows_view(rows@) =~= Seq::new(
        suite.results@.len(),
        |k: int| detail_row_v(k, results_view(suite.results@)[k]),
    ));
    rows
}

/// The model of the results of one category.
pub struct CategoryStatsV {
    pub label: Seq<char>,
    pub total: nat,
    pub passed: nat,
    pub failed: nat,
    pub skipped: nat,
}

/// The results of one category, under its label: how many endpoints it has, and how many
/// passed, failed and were skipped.
pub struct CategoryStats {
    pub label: String,
    pub total: usize,
    pub passed: usize,
    pub failed: usize,
    pub skipped: usize,
}

impl View for CategoryStats {
    type V = CategoryStatsV;

    open spec fn view(&self) -> CategoryStatsV {
        CategoryStatsV {
            label: self.label@,
            total: self.total as nat,
            passed: self.passed as nat,
            failed: self.failed as nat,
            skipped: self.skipped as nat,
        }
    }
}

/// The models of a list of category results.
pub open spec fn stats_view(s: Seq<CategoryStats>) -> Seq<CategoryStatsV> {
    Seq::new(s.len(), |i: int| s[i]@)
}

/// The counts of a category with one more result.
pub open spec fn tally_v(c: CategoryStatsV, r: EndpointTestResultV) -> CategoryStatsV {
    CategoryStatsV {
        label: c.label,
        total: c.total + 1,
        passed: c.passed + if outcome_v(r) == Outcome::Passed {
            1nat
        } else {
            0nat
        },
        failed: c.failed + if outcome_v(r) == Outcome::Failed {
            1nat
        } else {
            0nat
        },
        skipped: c.skipped + if outcome_v(r) == Outcome::Skipped {
            1nat
        } else {
            0nat
        },
    }
}

/// The position, from `i` on, of the first category with `label`.
pub open spec fn label_index_from(s: Seq<CategoryStatsV>, label: Seq<char>, i: int) -> Option<int>
    decreases s.len() - i,
{
    if i < 0 || i >= s.len() {
        None
    } else if s[i].label == label {
        Some(i)
    } else {
        label_index_from(s, label, i + 1)
    }
}

/// The results per category label of a list of results, the labels in the order in
/// which they first occur.
pub open spec fn category_stats_v(s: Seq<EndpointTestResultV>) -> Seq<CategoryStatsV>
    decreases s.len(),
{
    if s.len() == 0 {
        Seq::empty()
    } else {
        let p = category_stats_v(s.drop_last());
        let r = s.last();
        let label = r.endpoint.category_label;
        match label_index_from(p, label, 0) {
            Some(k) => p.update(k, tally_v(p[k], r)),
            None => p.push(
                tally_v(CategoryStatsV { label, total: 0, passed: 0, failed: 0, skipped: 0 }, r),
            ),
        }
    }
}

/// A position found is within the list and holds the label.
pub proof fn lemma_label_index_from(s: Seq<CategoryStatsV>, label: Seq<char>, i: int)
    ensures
        match label_index_from(s, label, i) {
            Some(k) => 0 <= i <= k < s.len() && s[k].label == label,
            None => forall|k: int| 0 <= i <= k < s.len() ==> s[k].label != label,
        },
    decreases s.len() - i,
{
    if 0 <= i < s.len() && s[i].label != label {
        lemma_label_index_from(s, label, i + 1);
    }
}

/// The position of the first category with `label`.
pub fn find_label(stats: &Vec<CategoryStats>, label: &str) -> (r: Option<usize>)
    ensures
        match r {
            Some(k) => label_index_from(stats_view(stats@), label@, 0) == Some(k as int),
            None => label_index_from(stats_view(stats@), label@, 0) is None,
        },
{
    let ghost sv = stats_view(stats@);
    let mut i: usize = 0;
    while i < stats.len()
        invariant
            0 <= i <= stats.len(),
            sv == stats_view(stats@),
            label_index_from(sv, label@, 0) == label_index_from(sv, label@, i as int),
        decreases stats.len() - i,
    {
        assert(sv[i as int] == stats@[i as int]@);
        if crate::text::str_eq(stats[i].label.as_str(), label) {
            return Some(i);
        }
        i = i + 1;
    }
    None
}

/// Each count of a category is at most the number of results counted.
pub open spec fn stats_bounded(s: Seq<CategoryStatsV>, n: nat) -> bool {
    forall|k: int|
        0 <= k < s.len() ==> {
            &&& (#[trigger] s[k]).total <= n
            &&& s[k].passed <= s[k].total
            &&& s[k].failed <= s[k].total
            &&& s[k].skipped <= s[k].total
        }
}

/// The results per category label of a survey, the labels in the order in which they
/// first occur.
pub fn category_stats(results: &Vec<EndpointTestResult>) -> (r: Vec<CategoryStats>)
    ensures
        stats_view(r@) == category_stats_v(results_view(results@)),
{
    let ghost all = results_view(results@);
    let mut stats: Vec<CategoryStats> = Vec::new();
    let mut i: usize = 0;
    assert(stats_view(stats@) =~= category_stats_v(all.take(0)));
    while i < results.len()
        invariant
            0 <= i <= results.len(),
            all == results_view(results@),
            stats_view(stats@) == category_stats_v(all.take(i as int)),
            stats_bounded(stats_view(stats@), i as nat),
        decreases results.len() - i,
    {
        let ghost before = stats_view(stats@);
        let ghost rv = results@[i as int]@;
        proof {
            assert(all.take(i + 1).drop_last() =~= all.take(i as int));
            assert(all.take(i + 1).last() == rv);
        }
        let r = &results[i];
        let o = outcome(r);
        match find_label(&stats, r.endpoint.category_label.as_str()) {
            Some(k) => {
                proof {
                    lemma_label_index_from(before, rv.endpoint.category_label, 0);
                    assert(before[k as int] == stats@[k as int]@);
                }
                let c = &stats[k];
                let updated = CategoryStats {
                    label: c.label.clone(),
                    total: c.total + 1,
                    passed: if o == Outcome::Passed {
                        c.passed + 1
                    } else {
                        c.passed
                    },
                    failed: if o == Outcome::Failed {
                        c.failed + 1
                    } else {
                        c.failed
                    },
                    skipped: if o == Outcome::Skipped {
                        c.skipped + 1
                    } else {
                        c.skipped
                    },
                };
                assert(updated@ == tally_v(before[k as int], rv));
                stats.set(k, updated);
                assert(stats_view(stats@) =~= before.update(k as int, tally_v(before[k as int], rv)));
            },
            None => {
                let fresh = CategoryStats {
                    label: r.endpoint.category_label.clone(),
                    total: 1,
                    passed: if o == Outcome::Passed {
                        1
                    } else {
                        0
                    },
                    failed: if o == Outcome::Failed {
                        1
                    } else {
                        0
                    },
                    skipped: if o == Outcome::Skipped {
                        1
                    } else {
                        0
                    },
                };
                stats.push(fresh);
                assert(stats_view(stats@) =~= before.push(
                    tally_v(
                        CategoryStatsV {
                            label: rv.endpoint.category_label,
                            total: 0,
                            passed: 0,
                            failed: 0,
                            skipped: 0,
                        },
                        rv,
                    ),
                ));
            },
        }
        i = i + 1;
    }
    assert(all.take(results@.len() as int) =~= all);
    stats
}

} // verus!
