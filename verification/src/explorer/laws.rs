//! What holds of every survey: how endpoints are selected, when one is skipped, what a
//! result says, what one endpoint leaves for the next, and how the results add up.
use vstd::prelude::*;

use crate::explorer::api::{categories_of, tests_in_category};
use crate::explorer::client::{completed_v, response_body_v, text_parse_v, HttpReplyV, PendingCallV};
use crate::explorer::endpoint::{CallV, first_call_v, first_item_v, get_call_v, recorded_v, string_field_v, follow_up_v};
use crate::explorer::models::{
    failed_count, passed_count, skipped_count, ApiCallResultV, ApiEndpointTestV, Endpoint,
    EndpointTestResultV, TestContextV,
};
use crate::explorer::reporter::{category_stats_v, label_index_from, lemma_label_index_from, CategoryStatsV};
use crate::explorer::runner::{all_accepted_v, context_after_v, result_v, skipped_v};
use crate::client::BASE_URL;
use crate::explorer::reporter::extract_path_v;
use crate::json::JsonV;
use crate::text::{find_first, find_from, lemma_find_from_prefix, occurs_at};

verus! {

/// Each category listed is listed once, is the category of some test, and every test's
/// category is listed.
pub proof fn law_categories_listed_once(s: Seq<ApiEndpointTestV>)
    ensures
        forall|i: int, j: int|
            0 <= i < j < categories_of(s).len() ==> categories_of(s)[i] != categories_of(s)[j],
        forall|i: int| 0 <= i < s.len() ==> categories_of(s).contains(#[trigger] s[i].category),
        forall|c: Seq<char>|
            categories_of(s).contains(c) ==> exists|i: int| 0 <= i < s.len() && #[trigger] s[i].category == c,
    decreases s.len(),
{
    if s.len() > 0 {
        let p = s.drop_last();
        law_categories_listed_once(p);
        let c = categories_of(p);
        let x = s.last().category;
        assert forall|i: int| 0 <= i < s.len() implies categories_of(s).contains(
            #[trigger] s[i].category,
        ) by {
            if i < s.len() - 1 {
                assert(s[i] == p[i]);
                assert(c.contains(p[i].category));
                if !c.contains(x) {
                    let k = choose|k: int| 0 <= k < c.len() && c[k] == p[i].category;
                    assert(c.push(x)[k] == p[i].category);
                }
            } else {
                if !c.contains(x) {
                    assert(c.push(x)[c.len() as int] == x);
                }
            }
        }
        assert forall|y: Seq<char>| categories_of(s).contains(y) implies exists|i: int|
            0 <= i < s.len() && #[trigger] s[i].category == y by {
            if c.contains(y) {
                let i = choose|i: int| 0 <= i < p.len() && #[trigger] p[i].category == y;
                assert(s[i] == p[i]);
            } else {
                assert(y == x);
                assert(s[s.len() - 1].category == y);
            }
        }
    }
}

/// The tests selected for a category are those of the category, in order: each selected
/// test has the category, and each test with the category is selected.
pub proof fn law_selection_is_the_category(s: Seq<ApiEndpointTestV>, category: Seq<char>)
    ensures
        forall|i: int|
            0 <= i < tests_in_category(s, category).len() ==> (#[trigger] tests_in_category(
                s,
                category,
            )[i]).category == category,
        forall|i: int|
            0 <= i < s.len() && s[i].category == category ==> tests_in_category(s, category).contains(
                #[trigger] s[i],
            ),
    decreases s.len(),
{
    if s.len() > 0 {
        let p = s.drop_last();
        law_selection_is_the_category(p, category);
        let r = tests_in_category(p, category);
        assert forall|i: int| 0 <= i < s.len() && s[i].category == category implies tests_in_category(
            s,
            category,
        ).contains(#[trigger] s[i]) by {
            if i < s.len() - 1 {
                assert(s[i] == p[i]);
                let k = choose|k: int| 0 <= k < r.len() && r[k] == p[i];
                assert(r.push(s.last())[k] == p[i]);
            } else {
                assert(r.push(s.last())[r.len() as int] == s.last());
            }
        }
    }
}

/// A category selects no test exactly where it is not among the categories listed.
pub proof fn law_unknown_category_selects_nothing(s: Seq<ApiEndpointTestV>, category: Seq<char>)
    ensures
        (tests_in_category(s, category).len() == 0) <==> !categories_of(s).contains(category),
{
    law_categories_listed_once(s);
    law_selection_is_the_category(s, category);
    if categories_of(s).contains(category) {
        let i = choose|i: int| 0 <= i < s.len() && #[trigger] s[i].category == category;
        assert(tests_in_category(s, category).contains(s[i]));
    } else if tests_in_category(s, category).len() > 0 {
        let t = tests_in_category(s, category)[0];
        assert(t.category == category);
        lemma_selected_from(s, category, 0);
    }
}

/// A selected test is a test of the list.
proof fn lemma_selected_from(s: Seq<ApiEndpointTestV>, category: Seq<char>, k: int)
    requires
        0 <= k < tests_in_category(s, category).len(),
    ensures
        exists|i: int| 0 <= i < s.len() && #[trigger] s[i] == tests_in_category(s, category)[k],
    decreases s.len(),
{
    let p = s.drop_last();
    let r = tests_in_category(p, category);
    if k < r.len() {
        lemma_selected_from(p, category, k);
        let i = choose|i: int| 0 <= i < p.len() && #[trigger] p[i] == r[k];
        assert(s[i] == p[i]);
        if s.last().category == category {
            assert(r.push(s.last())[k] == r[k]);
        }
    } else {
        assert(s[s.len() - 1] == s.last());
    }
}

/// A skipped endpoint sends no request: its result is there from the start, successful
/// and skipped with no calls, and the survey's context is left as it was.
pub proof fn law_skipped_endpoint_sends_nothing(
    t: ApiEndpointTestV,
    c0: TestContextV,
    replies: Seq<HttpReplyV>,
)
    requires
        skipped_v(t, c0),
    ensures
        result_v(t, c0, replies) == Some(
            EndpointTestResultV {
                endpoint: t,
                calls: Seq::empty(),
                success: true,
                skipped: true,
                error: None,
            },
        ),
        context_after_v(t, c0, replies) == c0,
{
}

/// An endpoint that changes the home is tried only where the survey was asked to try
/// such endpoints.
pub proof fn law_side_effects_only_when_asked(t: ApiEndpointTestV, c0: TestContextV)
    requires
        t.has_side_effect,
        !c0.run_side_effects,
    ensures
        skipped_v(t, c0),
        result_v(t, c0, Seq::empty()) is Some,
        result_v(t, c0, Seq::empty())->0.skipped,
        result_v(t, c0, Seq::empty())->0.calls.len() == 0,
{
}

/// An endpoint that was tried succeeded exactly where nothing stopped it and every one
/// of its calls was answered with a status below 400; one that was stopped has no calls
/// and its error.
pub proof fn law_success_is_all_calls_accepted(
    t: ApiEndpointTestV,
    c0: TestContextV,
    replies: Seq<HttpReplyV>,
    r: EndpointTestResultV,
)
    requires
        result_v(t, c0, replies) == Some(r),
        !r.skipped,
    ensures
        r.success <==> (r.error is None && all_accepted_v(r.calls)),
        r.error is Some ==> r.calls.len() == 0 && !r.success,
        r.endpoint == t,
{
}

/// Where a list endpoint finds an identifier (`field` of its first item) and where it
/// keeps it (`key`).
pub struct KeptIdV {
    pub field: Seq<char>,
    pub key: Seq<char>,
}

/// The identifier that a list endpoint keeps from the first item of a successful reply.
pub open spec fn kept_id_v(e: Endpoint) -> Option<KeptIdV> {
    match e {
        Endpoint::LocationsList => Some(KeptIdV { field: "locationId"@, key: "locationId"@ }),
        Endpoint::RoomsList => Some(KeptIdV { field: "roomId"@, key: "roomId"@ }),
        Endpoint::ModesList => Some(KeptIdV { field: "id"@, key: "modeId"@ }),
        Endpoint::DevicesList => Some(KeptIdV { field: "deviceId"@, key: "deviceId"@ }),
        Endpoint::DeviceProfilesList => Some(KeptIdV { field: "id"@, key: "deviceProfileId"@ }),
        Endpoint::ScenesList => Some(KeptIdV { field: "sceneId"@, key: "sceneId"@ }),
        Endpoint::RulesList => Some(KeptIdV { field: "id"@, key: "ruleId"@ }),
        Endpoint::AppsList => Some(KeptIdV { field: "appId"@, key: "appId"@ }),
        Endpoint::InstalledAppsList => Some(
            KeptIdV { field: "installedAppId"@, key: "installedAppId"@ },
        ),
        _ => None,
    }
}

/// A list endpoint answered with 200 keeps, under its key, the identifier of the first
/// item that its reply lists.
pub proof fn law_list_keeps_first_id(
    e: Endpoint,
    s: Map<Seq<char>, Seq<char>>,
    r: ApiCallResultV,
    item: JsonV,
    id: Seq<char>,
)
    requires
        kept_id_v(e) is Some,
        r.response.status == 200,
        first_item_v(r.response.body) == Some(item),
        string_field_v(item, kept_id_v(e)->0.field) == Some(id),
    ensures
        recorded_v(e, s, r).contains_key(kept_id_v(e)->0.key),
        recorded_v(e, s, r)[kept_id_v(e)->0.key] == id,
{
    if e == Endpoint::DevicesList {
        reveal_strlit("deviceId");
        reveal_strlit("deviceCapabilities");
        assert("deviceId"@ != "deviceCapabilities"@) by {
            assert("deviceId"@.len() != "deviceCapabilities"@.len());
        }
    }
}

/// A reply other than 200 leaves the survey's store as it was.
pub proof fn law_unsuccessful_reply_keeps_nothing(
    e: Endpoint,
    s: Map<Seq<char>, Seq<char>>,
    r: ApiCallResultV,
)
    requires
        r.response.status != 200,
    ensures
        recorded_v(e, s, r) == s,
{
}

/// The location that the location list finds is the one whose rooms are asked for next.
pub proof fn law_location_flows_to_rooms(
    s: Map<Seq<char>, Seq<char>>,
    r: ApiCallResultV,
    item: JsonV,
    id: Seq<char>,
)
    requires
        r.response.status == 200,
        first_item_v(r.response.body) == Some(item),
        string_field_v(item, "locationId"@) == Some(id),
    ensures
        first_call_v(Endpoint::RoomsList, recorded_v(Endpoint::LocationsList, s, r)) == Ok::<
            _,
            Seq<char>,
        >(get_call_v("/locations/"@ + id + "/rooms"@)),
{
}

/// Only the weather endpoint makes a second request, and only after a 404.
pub proof fn law_second_request_only_for_missing_weather(
    e: Endpoint,
    s: Map<Seq<char>, Seq<char>>,
    r: ApiCallResultV,
)
    ensures
        follow_up_v(e, s, r) is Some ==> e == Endpoint::ServicesWeather && r.response.status == 404,
{
}

/// Where no skipped result failed, as the runs never give, the passed, failed and skipped
/// results add up to all of them.
pub proof fn law_counts_add_up(s: Seq<EndpointTestResultV>)
    requires
        forall|i: int| 0 <= i < s.len() ==> (#[trigger] s[i]).skipped ==> s[i].success,
    ensures
        passed_count(s) + failed_count(s) + skipped_count(s) == s.len(),
    decreases s.len(),
{
    if s.len() > 0 {
        let p = s.drop_last();
        assert forall|i: int| 0 <= i < p.len() && (#[trigger] p[i]).skipped implies p[i].success by {
            assert(p[i] == s[i]);
        }
        law_counts_add_up(p);
        assert(s[s.len() - 1] == s.last());
    }
}

/// The sum of the totals of the first `n` categories.
pub open spec fn totals_sum(c: Seq<CategoryStatsV>, n: int) -> int
    decreases n,
{
    if n <= 0 {
        0
    } else {
        totals_sum(c, n - 1) + c[n - 1].total
    }
}

/// Changing one category's total changes the sum by the same amount.
proof fn lemma_totals_sum_update(c: Seq<CategoryStatsV>, k: int, x: CategoryStatsV, n: int)
    requires
        0 <= k < c.len(),
        0 <= n <= c.len(),
    ensures
        totals_sum(c.update(k, x), n) == totals_sum(c, n) + if k < n {
            x.total - c[k].total
        } else {
            0
        },
    decreases n,
{
    if n > 0 {
        lemma_totals_sum_update(c, k, x, n - 1);
    }
}

/// Appending a category adds its total to the sum.
proof fn lemma_totals_sum_push(c: Seq<CategoryStatsV>, x: CategoryStatsV, n: int)
    requires
        0 <= n <= c.len(),
    ensures
        totals_sum(c.push(x), n) == totals_sum(c, n),
    decreases n,
{
    if n > 0 {
        lemma_totals_sum_push(c, x, n - 1);
        assert(c.push(x)[n - 1] == c[n - 1]);
    }
}

/// The per-category summary counts every result once: each label is listed once, and the
/// categories' totals add up to the number of results.
pub proof fn law_category_totals_add_up(s: Seq<EndpointTestResultV>)
    ensures
        totals_sum(category_stats_v(s), category_stats_v(s).len() as int) == s.len(),
        forall|i: int, j: int|
            0 <= i < j < category_stats_v(s).len() ==> category_stats_v(s)[i].label
                != category_stats_v(s)[j].label,
    decreases s.len(),
{
    if s.len() > 0 {
        let p = category_stats_v(s.drop_last());
        law_category_totals_add_up(s.drop_last());
        let r = s.last();
        let label = r.endpoint.category_label;
        lemma_label_index_from(p, label, 0);
        match label_index_from(p, label, 0) {
            Some(k) => {
                lemma_totals_sum_update(
                    p,
                    k,
                    crate::explorer::reporter::tally_v(p[k], r),
                    p.len() as int,
                );
            },
            None => {
                let x = crate::explorer::reporter::tally_v(
                    CategoryStatsV { label, total: 0, passed: 0, failed: 0, skipped: 0 },
                    r,
                );
                lemma_totals_sum_push(p, x, p.len() as int);
                assert(p.push(x)[p.len() as int] == x);
            },
        }
    }
}

/// The path shown for a call of the API is the path that was requested: the table shows
/// `p` for the URL `BASE_URL + p`.
pub proof fn law_shown_path_is_requested_path(p: Seq<char>)
    ensures
        extract_path_v(BASE_URL@ + p) == p,
{
    let u = BASE_URL@;
    let scheme = "://"@;
    let s = "/"@;
    let root = "/v1"@;
    reveal_strlit("https://api.smartthings.com/v1");
    reveal_strlit("://");
    reveal_strlit("/");
    reveal_strlit("/v1");
    assert(u.len() == 30);
    assert(scheme.len() == 3);
    assert(s.len() == 1);
    assert(root.len() == 3);
    assert(u.subrange(5, 8) =~= scheme);
    assert(u.subrange(0, 3)[0] != scheme[0]);
    assert(u.subrange(1, 4)[0] != scheme[0]);
    assert(u.subrange(2, 5)[0] != scheme[0]);
    assert(u.subrange(3, 6)[0] != scheme[0]);
    assert(u.subrange(4, 7)[0] != scheme[0]);
    reveal_with_fuel(find_from, 7);
    assert(find_first(u, scheme) == Some(5int));
    lemma_find_from_prefix(u, p, scheme, 0);
    let url = u + p;
    let rest = url.skip(8);
    let h = u.skip(8);
    assert(rest =~= h + p);
    assert(h.len() == 22);
    assert(h.subrange(0, 1)[0] != s[0]);
    assert(h.subrange(1, 2)[0] != s[0]);
    assert(h.subrange(2, 3)[0] != s[0]);
    assert(h.subrange(3, 4)[0] != s[0]);
    assert(h.subrange(4, 5)[0] != s[0]);
    assert(h.subrange(5, 6)[0] != s[0]);
    assert(h.subrange(6, 7)[0] != s[0]);
    assert(h.subrange(7, 8)[0] != s[0]);
    assert(h.subrange(8, 9)[0] != s[0]);
    assert(h.subrange(9, 10)[0] != s[0]);
    assert(h.subrange(10, 11)[0] != s[0]);
    assert(h.subrange(11, 12)[0] != s[0]);
    assert(h.subrange(12, 13)[0] != s[0]);
    assert(h.subrange(13, 14)[0] != s[0]);
    assert(h.subrange(14, 15)[0] != s[0]);
    assert(h.subrange(15, 16)[0] != s[0]);
    assert(h.subrange(16, 17)[0] != s[0]);
    assert(h.subrange(17, 18)[0] != s[0]);
    assert(h.subrange(18, 19)[0] != s[0]);
    assert(h.subrange(19, 20) =~= s);
    assert(find_first(h, s) == Some(19int)) by {
        reveal_with_fuel(find_from, 21);
    }
    lemma_find_from_prefix(h, p, s, 0);
    let tail = rest.skip(19);
    assert(tail =~= root + p);
    assert(tail.subrange(0, 3) =~= root);
    assert(tail.skip(3) =~= p);
}


/// A run never answers a failed skip: a skipped endpoint counts as successful, so the
/// results of runs always meet the condition under which the counts add up.
pub proof fn law_skipped_results_succeed(
    t: ApiEndpointTestV,
    c0: TestContextV,
    replies: Seq<HttpReplyV>,
    r: EndpointTestResultV,
)
    requires
        result_v(t, c0, replies) == Some(r),
    ensures
        r.skipped ==> r.success,
{
}

/// A run changes nothing of the survey's context but its store: the token and the choice
/// of endpoints that change the home stay.
pub proof fn law_run_keeps_token_and_choice(
    t: ApiEndpointTestV,
    c0: TestContextV,
    replies: Seq<HttpReplyV>,
)
    ensures
        context_after_v(t, c0, replies).token == c0.token,
        context_after_v(t, c0, replies).run_side_effects == c0.run_side_effects,
{
}

/// What is stored under a key reads back, and storing it leaves every other key as it was.
pub proof fn law_store_reads_back(
    store: Map<Seq<char>, Seq<char>>,
    key: Seq<char>,
    value: Seq<char>,
    other: Seq<char>,
)
    ensures
        store.insert(key, value).contains_key(key),
        store.insert(key, value)[key] == value,
        other != key ==> (store.insert(key, value).contains_key(other) == store.contains_key(other)),
        other != key && store.contains_key(other) ==> store.insert(key, value)[other] == store[other],
{
}

/// A list endpoint changes the store under its own key alone (the device list also under
/// `deviceCapabilities`); every other identifier stays as it was.
pub proof fn law_record_touches_only_its_keys(
    e: Endpoint,
    s: Map<Seq<char>, Seq<char>>,
    r: ApiCallResultV,
    other: Seq<char>,
)
    requires
        kept_id_v(e) is Some ==> other != kept_id_v(e)->0.key,
        other != "deviceCapabilities"@,
    ensures
        recorded_v(e, s, r).contains_key(other) == s.contains_key(other),
        s.contains_key(other) ==> recorded_v(e, s, r)[other] == s[other],
{
}


/// Whether a test is of `category`.
pub open spec fn of_category(category: Seq<char>) -> spec_fn(ApiEndpointTestV) -> bool {
    |t: ApiEndpointTestV| t.category == category
}

/// The tests selected for a category are exactly the tests of that category, filtered
/// from the list in their order.
pub proof fn law_selection_is_filter(s: Seq<ApiEndpointTestV>, category: Seq<char>)
    ensures
        tests_in_category(s, category) == s.filter(of_category(category)),
    decreases s.len(),
{
    if s.len() > 0 {
        law_selection_is_filter(s.drop_last(), category);
        reveal(Seq::filter);
        let sub = s.drop_last().filter(of_category(category));
        assert(s.filter(of_category(category)) == if of_category(category)(s.last()) {
            sub.push(s.last())
        } else {
            sub
        });
    }
}

/// The categories are listed in the order in which they first occur: where a test of the
/// `j`th category stands, a test of each earlier (`i`th) category stands before it.
pub proof fn law_categories_in_first_occurrence_order(s: Seq<ApiEndpointTestV>, i: int, j: int, kj: int)
    requires
        0 <= i < j < categories_of(s).len(),
        0 <= kj < s.len(),
        s[kj].category == categories_of(s)[j],
    ensures
        exists|ki: int| #![trigger s[ki]] 0 <= ki < kj && s[ki].category == categories_of(s)[i],
    decreases s.len(),
{
    let p = s.drop_last();
    let c = categories_of(p);
    let x = s.last().category;
    let cs = categories_of(s);
    law_categories_listed_once(p);
    assert(cs[i] == c[i]);
    if j < c.len() {
        assert(cs[j] == c[j]);
        if kj < s.len() - 1 {
            assert(p[kj] == s[kj]);
            law_categories_in_first_occurrence_order(p, i, j, kj);
            let ki = choose|ki: int| 0 <= ki < kj && p[ki].category == c[i];
            assert(s[ki] == p[ki]);
        } else {
            assert(c.contains(c[j]));
            let k = choose|k: int| 0 <= k < p.len() && #[trigger] p[k].category == c[j];
            law_categories_in_first_occurrence_order(p, i, j, k);
            let ki = choose|ki: int| 0 <= ki < k && p[ki].category == c[i];
            assert(s[ki] == p[ki]);
        }
    } else {
        assert(!c.contains(x));
        assert(cs[j] == x);
        if kj < s.len() - 1 {
            assert(p[kj] == s[kj]);
            assert(c.contains(p[kj].category));
        }
        assert(c.contains(c[i]));
        let ki = choose|ki: int| 0 <= ki < p.len() && #[trigger] p[ki].category == c[i];
        assert(s[ki] == p[ki]);
    }
}

/// Each row of the per-category summary splits its total into passed, failed and
/// skipped.
pub proof fn law_category_rows_partition(s: Seq<EndpointTestResultV>)
    ensures
        forall|k: int|
            0 <= k < category_stats_v(s).len() ==> (#[trigger] category_stats_v(s)[k]).total
                == category_stats_v(s)[k].passed + category_stats_v(s)[k].failed
                + category_stats_v(s)[k].skipped,
    decreases s.len(),
{
    if s.len() > 0 {
        law_category_rows_partition(s.drop_last());
        let p = category_stats_v(s.drop_last());
        lemma_label_index_from(p, s.last().endpoint.category_label, 0);
    }
}

/// The record of a reply keeps the request's method and body and the reply's status,
/// whatever the status; only a service that cannot be reached makes an error, with the
/// message `네트워크 오류: <error>`.
pub proof fn law_every_answer_is_recorded(call: PendingCallV, reply: HttpReplyV)
    ensures
        match reply {
            HttpReplyV::Answered { answer, duration_ms } => {
                &&& completed_v(call, reply) is Ok
                &&& completed_v(call, reply)->Ok_0.request.method == call.method
                &&& completed_v(call, reply)->Ok_0.request.body == call.body
                &&& completed_v(call, reply)->Ok_0.response.status == answer.status as i32
                &&& completed_v(call, reply)->Ok_0.response.body == response_body_v(
                    answer.text,
                    text_parse_v(answer.text),
                )
            },
            HttpReplyV::Failed { rendered } => completed_v(call, reply) == Err::<
                ApiCallResultV,
                Seq<char>,
            >("네트워크 오류: "@ + rendered),
        },
{
}


/// Where no character of `h` from `i` on is `c`, a search for `c` from `i` finds the
/// first character of `t` (where it is `c`), or nothing (where `t` is empty).
proof fn lemma_find_char(h: Seq<char>, t: Seq<char>, c: char, i: int)
    requires
        0 <= i <= h.len(),
        forall|k: int| i <= k < h.len() ==> h[k] != c,
        t.len() == 0 || t[0] == c,
    ensures
        find_from(h + t, seq![c], i) == if t.len() == 0 {
            None::<int>
        } else {
            Some(h.len() as int)
        },
    decreases h.len() + 1 - i,
{
    let u = h + t;
    if i < h.len() {
        assert(u.subrange(i, i + 1)[0] == h[i]);
        lemma_find_char(h, t, c, i + 1);
    } else if t.len() == 0 {
        assert(u =~= h);
        assert(find_from(u, seq![c], i + 1) is None);
    } else {
        assert(u.subrange(i, i + 1) =~= seq![c]);
    }
}

/// The path shown for a text with no `://` is the text itself, without a leading `/v1`.
pub proof fn law_shown_path_without_scheme(url: Seq<char>)
    requires
        find_first(url, "://"@) is None,
    ensures
        extract_path_v(url) == if occurs_at(url, "/v1"@, 0) {
            url.skip(3)
        } else {
            url
        },
{
    reveal_strlit("/v1");
}

/// The path shown for a URL `scheme://host` + `p`, whose first `://` ends the scheme,
/// whose host holds no `/`, and whose `p` is empty or starts with `/`: `/` for an empty
/// `p`, else `p` without a leading `/v1`.
pub proof fn law_shown_path_of_url(scheme: Seq<char>, host: Seq<char>, p: Seq<char>)
    requires
        find_first(scheme + "://"@, "://"@) == Some(scheme.len() as int),
        forall|k: int| 0 <= k < host.len() ==> host[k] != '/',
        p.len() == 0 || p[0] == '/',
    ensures
        extract_path_v(scheme + "://"@ + host + p) == if p.len() == 0 {
            "/"@
        } else if occurs_at(p, "/v1"@, 0) {
            p.skip(3)
        } else {
            p
        },
{
    reveal_strlit("://");
    reveal_strlit("/");
    reveal_strlit("/v1");
    let a = scheme + "://"@;
    let url = scheme + "://"@ + host + p;
    assert(url =~= a + (host + p));
    lemma_find_from_prefix(a, host + p, "://"@, 0);
    let rest = url.skip(scheme.len() + 3int);
    assert(rest =~= host + p);
    assert("/"@ =~= seq!['/']);
    lemma_find_char(host, p, '/', 0);
    if p.len() == 0 {
        assert(!occurs_at("/"@, "/v1"@, 0));
    } else {
        assert(rest.skip(host.len() as int) =~= p);
    }
}


/// Every result's category label has a row in the per-category summary.
pub proof fn law_category_rows_cover(s: Seq<EndpointTestResultV>, i: int)
    requires
        0 <= i < s.len(),
    ensures
        exists|k: int|
            0 <= k < category_stats_v(s).len() && #[trigger] category_stats_v(s)[k].label
                == s[i].endpoint.category_label,
    decreases s.len(),
{
    let p = category_stats_v(s.drop_last());
    let r = s.last();
    let c = category_stats_v(s);
    lemma_label_index_from(p, r.endpoint.category_label, 0);
    if i < s.len() - 1 {
        assert(s.drop_last()[i] == s[i]);
        law_category_rows_cover(s.drop_last(), i);
        let k = choose|k: int| 0 <= k < p.len() && #[trigger] p[k].label == s[i].endpoint.category_label;
        assert(c[k].label == p[k].label);
    } else {
        assert(s[i] == r);
        match label_index_from(p, r.endpoint.category_label, 0) {
            Some(k) => {
                assert(c[k].label == p[k].label);
            },
            None => {
                assert(c[p.len() as int].label == r.endpoint.category_label);
            },
        }
    }
}


/// The request each endpoint test makes, given what the survey has stored: the path of
/// each list and of each lookup by a stored identifier, and the commands and queries it
/// sends; a test whose identifier is not stored makes no request.
pub proof fn law_endpoint_requests(s: Map<Seq<char>, Seq<char>>)
    ensures
        first_call_v(Endpoint::LocationsList, s) == Ok::<CallV, Seq<char>>(CallV { method: "GET"@, path: "/locations"@, body: None, query: None }),
        first_call_v(Endpoint::DevicesList, s) == Ok::<CallV, Seq<char>>(CallV { method: "GET"@, path: "/devices"@, body: None, query: None }),
        first_call_v(Endpoint::DeviceProfilesList, s) == Ok::<CallV, Seq<char>>(CallV { method: "GET"@, path: "/deviceprofiles"@, body: None, query: None }),
        first_call_v(Endpoint::CapabilitiesNamespaces, s) == Ok::<CallV, Seq<char>>(CallV { method: "GET"@, path: "/capabilities/namespaces"@, body: None, query: None }),
        first_call_v(Endpoint::CapabilitiesSwitch, s) == Ok::<CallV, Seq<char>>(CallV { method: "GET"@, path: "/capabilities/switch/1"@, body: None, query: None }),
        first_call_v(Endpoint::ScenesList, s) == Ok::<CallV, Seq<char>>(CallV { method: "GET"@, path: "/scenes"@, body: None, query: None }),
        first_call_v(Endpoint::AppsList, s) == Ok::<CallV, Seq<char>>(CallV { method: "GET"@, path: "/apps"@, body: None, query: None }),
        first_call_v(Endpoint::InstalledAppsList, s) == Ok::<CallV, Seq<char>>(CallV { method: "GET"@, path: "/installedapps"@, body: None, query: None }),
        first_call_v(Endpoint::SchemaList, s) == Ok::<CallV, Seq<char>>(CallV { method: "GET"@, path: "/schema/apps"@, body: None, query: None }),
        s.contains_key("locationId"@) ==> first_call_v(Endpoint::LocationsGet, s) == Ok::<CallV, Seq<char>>(CallV { method: "GET"@, path: "/locations/"@ + s["locationId"@], body: None, query: None }),
        !s.contains_key("locationId"@) ==> first_call_v(Endpoint::LocationsGet, s) is Err,
        s.contains_key("locationId"@) ==> first_call_v(Endpoint::RoomsList, s) == Ok::<CallV, Seq<char>>(CallV { method: "GET"@, path: "/locations/"@ + s["locationId"@] + "/rooms"@, body: None, query: None }),
        !s.contains_key("locationId"@) ==> first_call_v(Endpoint::RoomsList, s) is Err,
        s.contains_key("locationId"@) ==> first_call_v(Endpoint::ModesList, s) == Ok::<CallV, Seq<char>>(CallV { method: "GET"@, path: "/locations/"@ + s["locationId"@] + "/modes"@, body: None, query: None }),
        !s.contains_key("locationId"@) ==> first_call_v(Endpoint::ModesList, s) is Err,
        s.contains_key("locationId"@) ==> first_call_v(Endpoint::ModesCurrent, s) == Ok::<CallV, Seq<char>>(CallV { method: "GET"@, path: "/locations/"@ + s["locationId"@] + "/modes/current"@, body: None, query: None }),
        !s.contains_key("locationId"@) ==> first_call_v(Endpoint::ModesCurrent, s) is Err,
        s.contains_key("deviceId"@) ==> first_call_v(Endpoint::DevicesGet, s) == Ok::<CallV, Seq<char>>(CallV { method: "GET"@, path: "/devices/"@ + s["deviceId"@], body: None, query: None }),
        !s.contains_key("deviceId"@) ==> first_call_v(Endpoint::DevicesGet, s) is Err,
        s.contains_key("deviceId"@) ==> first_call_v(Endpoint::DevicesStatus, s) == Ok::<CallV, Seq<char>>(CallV { method: "GET"@, path: "/devices/"@ + s["deviceId"@] + "/status"@, body: None, query: None }),
        !s.contains_key("deviceId"@) ==> first_call_v(Endpoint::DevicesStatus, s) is Err,
        s.contains_key("deviceId"@) ==> first_call_v(Endpoint::DevicesHealth, s) == Ok::<CallV, Seq<char>>(CallV { method: "GET"@, path: "/devices/"@ + s["deviceId"@] + "/health"@, body: None, query: None }),
        !s.contains_key("deviceId"@) ==> first_call_v(Endpoint::DevicesHealth, s) is Err,
        s.contains_key("deviceProfileId"@) ==> first_call_v(Endpoint::DeviceProfilesGet, s) == Ok::<CallV, Seq<char>>(CallV { method: "GET"@, path: "/deviceprofiles/"@ + s["deviceProfileId"@], body: None, query: None }),
        !s.contains_key("deviceProfileId"@) ==> first_call_v(Endpoint::DeviceProfilesGet, s) is Err,
        s.contains_key("appId"@) ==> first_call_v(Endpoint::AppsGet, s) == Ok::<CallV, Seq<char>>(CallV { method: "GET"@, path: "/apps/"@ + s["appId"@], body: None, query: None }),
        !s.contains_key("appId"@) ==> first_call_v(Endpoint::AppsGet, s) is Err,
        s.contains_key("installedAppId"@) ==> first_call_v(Endpoint::InstalledAppsGet, s) == Ok::<CallV, Seq<char>>(CallV { method: "GET"@, path: "/installedapps/"@ + s["installedAppId"@], body: None, query: None }),
        !s.contains_key("installedAppId"@) ==> first_call_v(Endpoint::InstalledAppsGet, s) is Err,
        s.contains_key("installedAppId"@) ==> first_call_v(Endpoint::SubscriptionsList, s) == Ok::<CallV, Seq<char>>(CallV { method: "GET"@, path: "/installedapps/"@ + s["installedAppId"@] + "/subscriptions"@, body: None, query: None }),
        !s.contains_key("installedAppId"@) ==> first_call_v(Endpoint::SubscriptionsList, s) is Err,
        s.contains_key("installedAppId"@) ==> first_call_v(Endpoint::SchedulesList, s) == Ok::<CallV, Seq<char>>(CallV { method: "GET"@, path: "/installedapps/"@ + s["installedAppId"@] + "/schedules"@, body: None, query: None }),
        !s.contains_key("installedAppId"@) ==> first_call_v(Endpoint::SchedulesList, s) is Err,
        s.contains_key("locationId"@) ==> first_call_v(Endpoint::ServicesWeather, s) == Ok::<CallV, Seq<char>>(CallV { method: "GET"@, path: "/services/coordinate/locations/"@ + s["locationId"@] + "/weather"@, body: None, query: None }),
        !s.contains_key("locationId"@) ==> first_call_v(Endpoint::ServicesWeather, s) is Err,
        s.contains_key("locationId"@) && s.contains_key("roomId"@) ==> first_call_v(Endpoint::RoomsGet, s)
            == Ok::<CallV, Seq<char>>(CallV { method: "GET"@, path: "/locations/"@ + s["locationId"@] + "/rooms/"@ + s["roomId"@], body: None, query: None }),
        s.contains_key("deviceId"@) ==> first_call_v(Endpoint::DevicesRefresh, s) == Ok::<CallV, Seq<char>>(
            CallV {
                method: "POST"@,
                path: "/devices/"@ + s["deviceId"@] + "/commands"@,
                body: Some(
                    JsonV::Object(
                        seq![
                            ("commands"@, JsonV::Array(
                                seq![
                                    JsonV::Object(
                                        seq![
                                            ("component"@, JsonV::Str("main"@)),
                                            ("capability"@, JsonV::Str("refresh"@)),
                                            ("command"@, JsonV::Str("refresh"@)),
                                        ],
                                    ),
                                ],
                            )),
                        ],
                    ),
                ),
                query: None,
            },
        ),
        s.contains_key("sceneId"@) ==> first_call_v(Endpoint::ScenesExecute, s) == Ok::<CallV, Seq<char>>(
            CallV { method: "POST"@, path: "/scenes/"@ + s["sceneId"@] + "/execute"@, body: None, query: None },
        ),
        s.contains_key("locationId"@) ==> first_call_v(Endpoint::RulesList, s) == Ok::<CallV, Seq<char>>(
            CallV {
                method: "GET"@,
                path: "/rules"@,
                body: None,
                query: Some(seq![("locationId"@, s["locationId"@])]),
            },
        ),
        s.contains_key("ruleId"@) ==> first_call_v(Endpoint::RulesGet, s) == Ok::<CallV, Seq<char>>(
            CallV {
                method: "GET"@,
                path: "/rules/"@ + s["ruleId"@],
                body: None,
                query: if s.contains_key("locationId"@) {
                    Some(seq![("locationId"@, s["locationId"@])])
                } else {
                    None
                },
            },
        ),
        s.contains_key("deviceId"@) && s.contains_key("locationId"@) ==> first_call_v(
            Endpoint::HistoryDevices,
            s,
        ) == Ok::<CallV, Seq<char>>(
            CallV {
                method: "GET"@,
                path: "/history/devices"@,
                body: None,
                query: Some(seq![("locationId"@, s["locationId"@]), ("deviceId"@, s["deviceId"@])]),
            },
        ),
{
    reveal_strlit("");
    assert(""@.len() == 0);
    assert forall|x: Seq<char>| x + ""@ == x by {
        assert(x + ""@ =~= x);
    }
}


/// Where the coordinate weather service answers 404 and a location is stored, the
/// weather test asks `GET /locations/<location>/weather` next.
pub proof fn law_weather_fallback(s: Map<Seq<char>, Seq<char>>, first: ApiCallResultV)
    requires
        first.response.status == 404,
        s.contains_key("locationId"@),
    ensures
        follow_up_v(Endpoint::ServicesWeather, s, first) == Some(
            CallV { method: "GET"@, path: "/locations/"@ + s["locationId"@] + "/weather"@, body: None, query: None },
        ),
{
}


/// Each endpoint's result is logged with its category, label, name and description, the
/// status `skipped` for a skipped endpoint, else `passed` where it succeeded and `failed`
/// where not, its error (or `null`), and one entry per call, each with the call's time
/// as `durationMs`.
pub proof fn law_logged_result(r: EndpointTestResultV, i: int)
    ensures
        crate::explorer::logger::result_json_v(r).get("category"@) == Some(JsonV::Str(r.endpoint.category)),
        crate::explorer::logger::result_json_v(r).get("categoryLabel"@) == Some(JsonV::Str(r.endpoint.category_label)),
        crate::explorer::logger::result_json_v(r).get("name"@) == Some(JsonV::Str(r.endpoint.name)),
        crate::explorer::logger::result_json_v(r).get("description"@) == Some(JsonV::Str(r.endpoint.description)),
        crate::explorer::logger::result_json_v(r).get("status"@) == Some(
            JsonV::Str(
                if r.skipped {
                    "skipped"@
                } else if r.success {
                    "passed"@
                } else {
                    "failed"@
                },
            ),
        ),
        crate::explorer::logger::result_json_v(r).get("error"@) == Some(
            match r.error {
                Some(e) => JsonV::Str(e),
                None => JsonV::Null,
            },
        ),
        crate::explorer::logger::result_json_v(r).get("calls"@) matches Some(JsonV::Array(cs)) && cs.len()
            == r.calls.len() && (0 <= i < cs.len() ==> cs[i].get("durationMs"@) == Some(
            JsonV::Number(crate::text::decimal(r.calls[i].duration_ms as nat)),
        )),
{
    reveal_strlit("category");
    reveal_strlit("categoryLabel");
    reveal_strlit("name");
    reveal_strlit("description");
    reveal_strlit("status");
    reveal_strlit("error");
    reveal_strlit("calls");
    assert("category"@.len() == 8 && "categoryLabel"@.len() == 13 && "name"@.len() == 4 && "description"@.len() == 11 && "status"@.len() == 6 && "error"@.len() == 5 && "calls"@.len() == 5);
    assert("category"@[0] != "calls"@[0] || "category"@.len() != "calls"@.len());
    assert("status"@[0] != "error"@[0] && "name"@[0] != "calls"@[0]);
    assert("category"@[0] != "name"@[0]);
    reveal_with_fuel(crate::json::entries_get, 8);
    reveal_strlit("request");
    reveal_strlit("response");
    reveal_strlit("durationMs");
    assert("request"@.len() == 7 && "response"@.len() == 8 && "durationMs"@.len() == 10);
}

} // verus!
