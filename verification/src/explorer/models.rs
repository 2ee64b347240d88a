//! The records of a survey: the calls made, the endpoints tried, what a run keeps
//! between endpoints, and the results.
use vstd::prelude::*;

use crate::client::{copy_params, params_view};
use crate::explorer::client::ApiClient;
use crate::json::{Json, JsonV};
use crate::text::str_eq;

verus! {

/// The model of an optional JSON value.
pub open spec fn opt_json_view(o: Option<Json>) -> Option<JsonV> {
    match o {
        Some(j) => Some(j@),
        None => None,
    }
}

/// The model of an optional text.
pub open spec fn opt_text_view(o: Option<String>) -> Option<Seq<char>> {
    match o {
        Some(s) => Some(s@),
        None => None,
    }
}

/// A copy of an optional JSON value.
pub fn copy_opt_json(o: &Option<Json>) -> (r: Option<Json>)
    ensures
        opt_json_view(r) == opt_json_view(*o),
{
    match o {
        Some(j) => Some(j.deep_clone()),
        None => None,
    }
}

/// A copy of an optional text.
pub fn copy_opt_text(o: &Option<String>) -> (r: Option<String>)
    ensures
        opt_text_view(r) == opt_text_view(*o),
{
    match o {
        Some(s) => Some(s.clone()),
        None => None,
    }
}

/// The model of the request half of a call.
pub struct RequestInfoV {
    pub method: Seq<char>,
    pub url: Seq<char>,
    pub body: Option<JsonV>,
}

/// The request of a call: method, URL and JSON body.
pub struct RequestInfo {
    pub method: String,
    pub url: String,
    pub body: Option<Json>,
}

impl View for RequestInfo {
    type V = RequestInfoV;

    open spec fn view(&self) -> RequestInfoV {
        RequestInfoV { method: self.method@, url: self.url@, body: opt_json_view(self.body) }
    }
}

/// The model of the response half of a call.
pub struct ResponseInfoV {
    pub status: i32,
    pub status_text: Seq<char>,
    pub body: Option<JsonV>,
}

/// The response of a call: status code, reason phrase and body.
pub struct ResponseInfo {
    pub status: i32,
    pub status_text: String,
    pub body: Option<Json>,
}

impl View for ResponseInfo {
    type V = ResponseInfoV;

    open spec fn view(&self) -> ResponseInfoV {
        ResponseInfoV {
            status: self.status,
            status_text: self.status_text@,
            body: opt_json_view(self.body),
        }
    }
}

/// The model of a call.
pub struct ApiCallResultV {
    pub request: RequestInfoV,
    pub response: ResponseInfoV,
    pub duration_ms: u128,
}

/// One call of the API: what was sent, what came back, and how long it took.
pub struct ApiCallResult {
    pub request: RequestInfo,
    pub response: ResponseInfo,
    pub duration_ms: u128,
}

impl View for ApiCallResult {
    type V = ApiCallResultV;

    open spec fn view(&self) -> ApiCallResultV {
        ApiCallResultV {
            request: self.request@,
            response: self.response@,
            duration_ms: self.duration_ms,
        }
    }
}

/// The models of a list of calls.
pub open spec fn calls_view(s: Seq<ApiCallResult>) -> Seq<ApiCallResultV> {
    Seq::new(s.len(), |i: int| s[i]@)
}

impl ApiCallResult {
    /// A copy of this call.
    pub fn copy(&self) -> (r: ApiCallResult)
        ensures
            r@ == self@,
    {
        ApiCallResult {
            request: RequestInfo {
                method: self.request.method.clone(),
                url: self.request.url.clone(),
                body: copy_opt_json(&self.request.body),
            },
            response: ResponseInfo {
                status: self.response.status,
                status_text: self.response.status_text.clone(),
                body: copy_opt_json(&self.response.body),
            },
            duration_ms: self.duration_ms,
        }
    }
}

/// Copies of a list of calls.
pub fn copy_calls(v: &Vec<ApiCallResult>) -> (r: Vec<ApiCallResult>)
    ensures
        calls_view(r@) == calls_view(v@),
{
    let mut out: Vec<ApiCallResult> = Vec::new();
    let mut i: usize = 0;
    while i < v.len()
        invariant
            0 <= i <= v.len(),
            out@.len() == i,
            forall|j: int| 0 <= j < i ==> out@[j]@ == v@[j]@,
        decreases v.len() - i,
    {
        out.push(v[i].copy());
        i = i + 1;
    }
    assert(calls_view(out@) =~= calls_view(v@));
    out
}

/// The endpoints that a survey knows how to try.
#[derive(Clone, Copy, PartialEq, Eq, Structural)]
pub enum Endpoint {
    LocationsList,
    LocationsGet,
    RoomsList,
    RoomsGet,
    ModesList,
    ModesCurrent,
    DevicesList,
    DevicesGet,
    DevicesStatus,
    DevicesHealth,
    DevicesRefresh,
    DeviceProfilesList,
    DeviceProfilesGet,
    CapabilitiesNamespaces,
    CapabilitiesSwitch,
    CapabilitiesDeviceCap,
    ScenesList,
    ScenesExecute,
    RulesList,
    RulesGet,
    AppsList,
    AppsGet,
    InstalledAppsList,
    InstalledAppsGet,
    SubscriptionsList,
    SchedulesList,
    SchemaList,
    ServicesWeather,
    HistoryDevices,
}

/// The model of an endpoint test.
pub struct ApiEndpointTestV {
    pub category: Seq<char>,
    pub category_label: Seq<char>,
    pub name: Seq<char>,
    pub description: Seq<char>,
    pub test: Endpoint,
    pub has_side_effect: bool,
    pub needs_setup: Option<Seq<char>>,
}

/// An endpoint to try, with its category, the label under which it is reported, a name
/// and a description; whether trying it changes the home; and, where it needs something
/// that an earlier endpoint finds, a note saying what.
pub struct ApiEndpointTest {
    pub category: String,
    pub category_label: String,
    pub name: String,
    pub description: String,
    pub test: Endpoint,
    pub has_side_effect: bool,
    pub needs_setup: Option<String>,
}

impl View for ApiEndpointTest {
    type V = ApiEndpointTestV;

    open spec fn view(&self) -> ApiEndpointTestV {
        ApiEndpointTestV {
            category: self.category@,
            category_label: self.category_label@,
            name: self.name@,
            description: self.description@,
            test: self.test,
            has_side_effect: self.has_side_effect,
            needs_setup: opt_text_view(self.needs_setup),
        }
    }
}

/// The model of an endpoint test made by `ApiEndpointTest::new`.
pub open spec fn endpoint_test_v(
    category: Seq<char>,
    category_label: Seq<char>,
    name: Seq<char>,
    description: Seq<char>,
    test: Endpoint,
) -> ApiEndpointTestV {
    ApiEndpointTestV {
        category,
        category_label,
        name,
        description,
        test,
        has_side_effect: false,
        needs_setup: None,
    }
}

/// The models of a list of endpoint tests.
pub open spec fn tests_view(s: Seq<ApiEndpointTest>) -> Seq<ApiEndpointTestV> {
    Seq::new(s.len(), |i: int| s[i]@)
}

impl ApiEndpointTest {
    /// An endpoint test without side effects and without prerequisites.
    pub fn new(
        category: &str,
        category_label: &str,
        name: &str,
        description: &str,
        test: Endpoint,
    ) -> (r: ApiEndpointTest)
        ensures
            r@ == endpoint_test_v(category@, category_label@, name@, description@, test),
    {
        ApiEndpointTest {
            category: category.to_owned(),
            category_label: category_label.to_owned(),
            name: name.to_owned(),
            description: description.to_owned(),
            test,
            has_side_effect: false,
            needs_setup: None,
        }
    }

    /// The same test, marked as changing the home.
    pub fn with_side_effect(self) -> (r: ApiEndpointTest)
        ensures
            r@ == (ApiEndpointTestV { has_side_effect: true, ..self@ }),
    {
        let mut s = self;
        s.has_side_effect = true;
        s
    }

    /// The same test, with a note on what it needs.
    pub fn with_needs_setup(self, needs_setup: &str) -> (r: ApiEndpointTest)
        ensures
            r@ == (ApiEndpointTestV { needs_setup: Some(needs_setup@), ..self@ }),
    {
        let mut s = self;
        s.needs_setup = Some(needs_setup.to_owned());
        s
    }

    /// A copy of this test.
    pub fn copy(&self) -> (r: ApiEndpointTest)
        ensures
            r@ == self@,
    {
        ApiEndpointTest {
            category: self.category.clone(),
            category_label: self.category_label.clone(),
            name: self.name.clone(),
            description: self.description.clone(),
            test: self.test,
            has_side_effect: self.has_side_effect,
            needs_setup: copy_opt_text(&self.needs_setup),
        }
    }
}

/// The value stored under `key`: that of the first pair with the key.
pub open spec fn store_get(s: Seq<(Seq<char>, Seq<char>)>, key: Seq<char>) -> Option<Seq<char>>
    decreases s.len(),
{
    if s.len() == 0 {
        None
    } else if s[0].0 == key {
        Some(s[0].1)
    } else {
        store_get(s.drop_first(), key)
    }
}

/// The map that a list of (key, value) pairs stands for.
pub open spec fn store_map(s: Seq<(Seq<char>, Seq<char>)>) -> Map<Seq<char>, Seq<char>> {
    Map::new(|k: Seq<char>| store_get(s, k) is Some, |k: Seq<char>| store_get(s, k)->0)
}

/// Replacing the value of the first pair with a key changes the value of that key alone.
pub proof fn lemma_store_update(
    s: Seq<(Seq<char>, Seq<char>)>,
    i: int,
    key: Seq<char>,
    value: Seq<char>,
    other: Seq<char>,
)
    requires
        0 <= i < s.len(),
        s[i].0 == key,
        forall|j: int| 0 <= j < i ==> s[j].0 != key,
    ensures
        store_get(s.update(i, (key, value)), other) == if other == key {
            Some(value)
        } else {
            store_get(s, other)
        },
    decreases i,
{
    let t = s.update(i, (key, value));
    if i > 0 {
        assert(t[0] == s[0]);
        assert(t.drop_first() =~= s.drop_first().update(i - 1, (key, value)));
        lemma_store_update(s.drop_first(), i - 1, key, value, other);
    } else {
        assert(t[0] == (key, value));
        assert(t.drop_first() =~= s.drop_first());
    }
}

/// Appending a pair whose key no pair has sets that key alone.
pub proof fn lemma_store_push(
    s: Seq<(Seq<char>, Seq<char>)>,
    key: Seq<char>,
    value: Seq<char>,
    other: Seq<char>,
)
    requires
        forall|j: int| 0 <= j < s.len() ==> s[j].0 != key,
    ensures
        store_get(s.push((key, value)), other) == if other == key {
            Some(value)
        } else {
            store_get(s, other)
        },
    decreases s.len(),
{
    let t = s.push((key, value));
    if s.len() > 0 {
        assert(t[0] == s[0]);
        assert(s[0].0 != key);
        assert(t.drop_first() =~= s.drop_first().push((key, value)));
        lemma_store_push(s.drop_first(), key, value, other);
        if s[0].0 == other {
            assert(store_get(t, other) == Some(s[0].1));
        } else {
            assert(store_get(t, other) == store_get(t.drop_first(), other));
            assert(store_get(s, other) == store_get(s.drop_first(), other));
        }
    } else {
        assert(t[0] == (key, value));
        assert(t.drop_first().len() == 0);
        assert(store_get(t.drop_first(), other) is None);
    }
}

/// The model of a survey's context.
pub struct TestContextV {
    pub token: Seq<char>,
    pub store: Map<Seq<char>, Seq<char>>,
    pub run_side_effects: bool,
}

/// What a survey carries from one endpoint to the next: the client, the identifiers
/// found so far (a map from key to value, reached through `set_store`, `get_store` and
/// `has_store`), and whether endpoints that change the home are tried.
pub struct TestContext {
    client: ApiClient,
    store: Vec<(String, String)>,
    run_side_effects: bool,
}

impl View for TestContext {
    type V = TestContextV;

    closed spec fn view(&self) -> TestContextV {
        TestContextV {
            token: self.client@,
            store: store_map(params_view(self.store@)),
            run_side_effects: self.run_side_effects,
        }
    }
}

impl TestContext {
    /// A context with nothing stored yet.
    pub fn new(client: ApiClient, run_side_effects: bool) -> (r: TestContext)
        ensures
            r@.token == client@,
            r@.store == Map::<Seq<char>, Seq<char>>::empty(),
            r@.run_side_effects == run_side_effects,
    {
        let r = TestContext { client, store: Vec::new(), run_side_effects };
        assert(store_map(params_view(r.store@)) =~= Map::<Seq<char>, Seq<char>>::empty());
        r
    }

    /// The client of the survey.
    pub fn client(&self) -> (r: &ApiClient)
        ensures
            r@ == self@.token,
    {
        &self.client
    }

    /// Whether endpoints that change the home are tried.
    pub fn run_side_effects(&self) -> (r: bool)
        ensures
            r == self@.run_side_effects,
    {
        self.run_side_effects
    }

    /// Stores `value` under `key`, in place of any value stored there before.
    pub fn set_store(&mut self, key: &str, value: String)
        ensures
            final(self)@ == (TestContextV { store: old(self)@.store.insert(key@, value@), ..old(self)@ }),
    {
        let ghost s = params_view(self.store@);
        let ghost kv = key@;
        let ghost vv = value@;
        let mut i: usize = 0;
        while i < self.store.len()
            invariant
                0 <= i <= self.store.len(),
                s == params_view(self.store@),
                s == params_view(old(self).store@),
                self.client == old(self).client,
                self.run_side_effects == old(self).run_side_effects,
                kv == key@,
                vv == value@,
                forall|j: int| 0 <= j < i ==> s[j].0 != kv,
            decreases self.store.len() - i,
        {
            if str_eq(self.store[i].0.as_str(), key) {
                let ghost before = self.store@;
                self.store.set(i, (key.to_owned(), value));
                assert(params_view(self.store@) =~= s.update(i as int, (kv, vv)));
                assert forall|k: Seq<char>|
                    #![trigger store_get(s.update(i as int, (kv, vv)), k)]
                    true implies store_get(s.update(i as int, (kv, vv)), k) == if k == kv {
                        Some(vv)
                    } else {
                        store_get(s, k)
                    } by {
                    lemma_store_update(s, i as int, kv, vv, k);
                }
                assert(store_map(params_view(self.store@)) =~= store_map(s).insert(kv, vv));
                return ;
            }
            i = i + 1;
        }
        self.store.push((key.to_owned(), value));
        assert(params_view(self.store@) =~= s.push((kv, vv)));
        assert forall|k: Seq<char>| #![trigger store_get(s.push((kv, vv)), k)] true implies store_get(
            s.push((kv, vv)),
            k,
        ) == if k == kv {
            Some(vv)
        } else {
            store_get(s, k)
        } by {
            lemma_store_push(s, kv, vv, k);
        }
        assert(store_map(params_view(self.store@)) =~= store_map(s).insert(kv, vv));
    }

    /// The value stored under `key`, if any.
    pub fn get_store(&self, key: &str) -> (r: Option<String>)
        ensures
            opt_text_view(r) == (if self@.store.contains_key(key@) {
                Some(self@.store[key@])
            } else {
                None
            }),
    {
        let ghost s = params_view(self.store@);
        assert(s.subrange(0, s.len() as int) =~= s);
        let mut i: usize = 0;
        while i < self.store.len()
            invariant
                0 <= i <= self.store.len(),
                s == params_view(self.store@),
                store_get(s, key@) == store_get(s.subrange(i as int, s.len() as int), key@),
            decreases self.store.len() - i,
        {
            let ghost rest = s.subrange(i as int, s.len() as int);
            assert(rest[0] == s[i as int]);
            assert(rest.drop_first() =~= s.subrange(i + 1, s.len() as int));
            if str_eq(self.store[i].0.as_str(), key) {
                return Some(self.store[i].1.clone());
            }
            i = i + 1;
        }
        assert(s.subrange(i as int, s.len() as int).len() == 0);
        None
    }

    /// Whether a value is stored under `key`.
    pub fn has_store(&self, key: &str) -> (r: bool)
        ensures
            r == self@.store.contains_key(key@),
    {
        match self.get_store(key) {
            Some(_) => true,
            None => false,
        }
    }

    /// A copy of this context.
    pub fn copy(&self) -> (r: TestContext)
        ensures
            r@ == self@,
    {
        TestContext {
            client: self.client.copy(),
            store: copy_params(&self.store),
            run_side_effects: self.run_side_effects,
        }
    }
}

/// The model of the result of one endpoint.
pub struct EndpointTestResultV {
    pub endpoint: ApiEndpointTestV,
    pub calls: Seq<ApiCallResultV>,
    pub success: bool,
    pub skipped: bool,
    pub error: Option<Seq<char>>,
}

/// What came of trying one endpoint: its calls, whether it passed, whether it was
/// skipped, and the error that stopped it, if one did.
pub struct EndpointTestResult {
    pub endpoint: ApiEndpointTest,
    pub calls: Vec<ApiCallResult>,
    pub success: bool,
    pub skipped: bool,
    pub error: Option<String>,
}

impl View for EndpointTestResult {
    type V = EndpointTestResultV;

    open spec fn view(&self) -> EndpointTestResultV {
        EndpointTestResultV {
            endpoint: self.endpoint@,
            calls: calls_view(self.calls@),
            success: self.success,
            skipped: self.skipped,
            error: opt_text_view(self.error),
        }
    }
}

impl EndpointTestResult {
    /// A copy of this result.
    pub fn copy(&self) -> (r: EndpointTestResult)
        ensures
            r@ == self@,
    {
        EndpointTestResult {
            endpoint: self.endpoint.copy(),
            calls: copy_calls(&self.calls),
            success: self.success,
            skipped: self.skipped,
            error: copy_opt_text(&self.error),
        }
    }
}

/// The models of a list of results.
pub open spec fn results_view(s: Seq<EndpointTestResult>) -> Seq<EndpointTestResultV> {
    Seq::new(s.len(), |i: int| s[i]@)
}

/// The number of results that passed: not skipped, and successful.
pub open spec fn passed_count(s: Seq<EndpointTestResultV>) -> nat
    decreases s.len(),
{
    if s.len() == 0 {
        0
    } else {
        passed_count(s.drop_last()) + if s.last().success && !s.last().skipped {
            1nat
        } else {
            0nat
        }
    }
}

/// The number of results that failed.
pub open spec fn failed_count(s: Seq<EndpointTestResultV>) -> nat
    decreases s.len(),
{
    if s.len() == 0 {
        0
    } else {
        failed_count(s.drop_last()) + if !s.last().success {
            1nat
        } else {
            0nat
        }
    }
}

/// The number of results that were skipped.
pub open spec fn skipped_count(s: Seq<EndpointTestResultV>) -> nat
    decreases s.len(),
{
    if s.len() == 0 {
        0
    } else {
        skipped_count(s.drop_last()) + if s.last().skipped {
            1nat
        } else {
            0nat
        }
    }
}

/// No count exceeds the number of results.
pub proof fn lemma_counts_bounded(s: Seq<EndpointTestResultV>)
    ensures
        passed_count(s) <= s.len(),
        failed_count(s) <= s.len(),
        skipped_count(s) <= s.len(),
    decreases s.len(),
{
    if s.len() > 0 {
        lemma_counts_bounded(s.drop_last());
    }
}

/// The results of a survey, with how many endpoints passed, failed and were skipped,
/// and how long it took.
pub struct TestSuiteResult {
    pub total: usize,
    pub passed: usize,
    pub failed: usize,
    pub skipped: usize,
    pub duration_ms: u128,
    pub results: Vec<EndpointTestResult>,
}

impl TestSuiteResult {
    /// The summary of a list of results.
    pub fn from_results(results: Vec<EndpointTestResult>, duration_ms: u128) -> (r:
        TestSuiteResult)
        ensures
            results_view(r.results@) == results_view(results@),
            r.total == results@.len(),
            r.passed == passed_count(results_view(results@)),
            r.failed == failed_count(results_view(results@)),
            r.skipped == skipped_count(results_view(results@)),
            r.duration_ms == duration_ms,
    {
        let ghost all = results_view(results@);
        let mut passed: usize = 0;
        let mut failed: usize = 0;
        let mut skipped: usize = 0;
        let mut i: usize = 0;
        while i < results.len()
            invariant
                0 <= i <= results.len(),
                all == results_view(results@),
                passed == passed_count(all.take(i as int)),
                failed == failed_count(all.take(i as int)),
                skipped == skipped_count(all.take(i as int)),
            decreases results.len() - i,
        {
            proof {
                assert(all.take(i + 1).drop_last() =~= all.take(i as int));
                assert(all.take(i + 1).last() == results@[i as int]@);
                lemma_counts_bounded(all.take(i as int));
            }
            if results[i].success && !results[i].skipped {
                passed = passed + 1;
            }
            if !results[i].success {
                failed = failed + 1;
            }
            if results[i].skipped {
                skipped = skipped + 1;
            }
            i = i + 1;
        }
        assert(all.take(results@.len() as int) =~= all);
        TestSuiteResult { total: results.len(), passed, failed, skipped, duration_ms, results }
    }
}

} // verus!
