//! The endpoint tests of the survey, grouped as the API documents them, and the ways to
//! select them.
pub mod apps;
pub mod automations;
pub mod devices;
pub mod locations;
pub mod misc;

use vstd::prelude::*;

use crate::explorer::models::{tests_view, ApiEndpointTest, ApiEndpointTestV};
use crate::text::str_eq;

verus! {

/// Every endpoint test, in the order in which a full survey runs them: locations,
/// devices, automations, apps, and the rest.
pub open spec fn all_tests_v() -> Seq<ApiEndpointTestV> {
    locations::locations_tests_v() + devices::devices_tests_v() + automations::automations_tests_v()
        + apps::apps_tests_v() + misc::misc_tests_v()
}

/// Every endpoint test, in the order in which a full survey runs them.
pub fn all_tests() -> (r: Vec<ApiEndpointTest>)
    ensures
        tests_view(r@) == all_tests_v(),
{
    let mut tests: Vec<ApiEndpointTest> = Vec::new();
    let mut group = locations::tests();
    tests.append(&mut group);
    let mut group = devices::tests();
    tests.append(&mut group);
    let mut group = automations::tests();
    tests.append(&mut group);
    let mut group = apps::tests();
    tests.append(&mut group);
    let mut group = misc::tests();
    tests.append(&mut group);
    assert(tests_view(tests@) =~= all_tests_v());
    tests
}

/// The categories of `s`, each once, in the order in which they first occur.
pub open spec fn categories_of(s: Seq<ApiEndpointTestV>) -> Seq<Seq<char>>
    decreases s.len(),
{
    if s.len() == 0 {
        Seq::empty()
    } else {
        let c = categories_of(s.drop_last());
        if c.contains(s.last().category) {
            c
        } else {
            c.push(s.last().category)
        }
    }
}

/// The tests of `s` in `category`, in order.
pub open spec fn tests_in_category(s: Seq<ApiEndpointTestV>, category: Seq<char>) -> Seq<
    ApiEndpointTestV,
>
    decreases s.len(),
{
    if s.len() == 0 {
        Seq::empty()
    } else {
        let r = tests_in_category(s.drop_last(), category);
        if s.last().category == category {
            r.push(s.last())
        } else {
            r
        }
    }
}

/// Whether `v` holds a string equal to `x`.
pub fn contains_text(v: &Vec<String>, x: &str) -> (r: bool)
    ensures
        r == crate::text::strings_view(v@).contains(x@),
{
    let ghost sv = crate::text::strings_view(v@);
    let mut i: usize = 0;
    while i < v.len()
        invariant
            0 <= i <= v.len(),
            sv == crate::text::strings_view(v@),
            forall|j: int| 0 <= j < i ==> sv[j] != x@,
        decreases v.len() - i,
    {
        if str_eq(v[i].as_str(), x) {
            assert(sv[i as int] == x@);
            return true;
        }
        i = i + 1;
    }
    false
}

/// The categories of `tests`, each once, in the order in which they first occur.
pub fn categories(tests: &[ApiEndpointTest]) -> (r: Vec<String>)
    ensures
        crate::text::strings_view(r@) == categories_of(tests_view(tests@)),
{
    let ghost all = tests_view(tests@);
    let mut out: Vec<String> = Vec::new();
    let mut i: usize = 0;
    assert(crate::text::strings_view(out@) =~= categories_of(all.take(0)));
    while i < tests.len()
        invariant
            0 <= i <= tests.len(),
            all == tests_view(tests@),
            crate::text::strings_view(out@) == categories_of(all.take(i as int)),
        decreases tests.len() - i,
    {
        proof {
            assert(all.take(i + 1).drop_last() =~= all.take(i as int));
            assert(all.take(i + 1).last() == tests@[i as int]@);
        }
        let ghost before = crate::text::strings_view(out@);
        if !contains_text(&out, tests[i].category.as_str()) {
            out.push(tests[i].category.clone());
            assert(crate::text::strings_view(out@) =~= before.push(tests@[i as int].category@));
        }
        i = i + 1;
    }
    assert(all.take(tests@.len() as int) =~= all);
    out
}

/// The tests of `tests` in `category`, in order.
pub fn get_tests_by_category(tests: &[ApiEndpointTest], category: &str) -> (r: Vec<ApiEndpointTest>)
    ensures
        tests_view(r@) == tests_in_category(tests_view(tests@), category@),
{
    let ghost all = tests_view(tests@);
    let mut out: Vec<ApiEndpointTest> = Vec::new();
    let mut i: usize = 0;
    assert(tests_view(out@) =~= tests_in_category(all.take(0), category@));
    while i < tests.len()
        invariant
            0 <= i <= tests.len(),
            all == tests_view(tests@),
            tests_view(out@) == tests_in_category(all.take(i as int), category@),
        decreases tests.len() - i,
    {
        proof {
            assert(all.take(i + 1).drop_last() =~= all.take(i as int));
            assert(all.take(i + 1).last() == tests@[i as int]@);
        }
        let ghost before = tests_view(out@);
        if str_eq(tests[i].category.as_str(), category) {
            out.push(tests[i].copy());
            assert(tests_view(out@) =~= before.push(tests@[i as int]@));
        }
        i = i + 1;
    }
    assert(all.take(tests@.len() as int) =~= all);
    out
}

} // verus!
