//! The endpoint tests of the survey for smartApps, installed apps, and their subscriptions and schedules.
use vstd::prelude::*;

use crate::explorer::models::{endpoint_test_v, tests_view, ApiEndpointTest, ApiEndpointTestV, Endpoint};

verus! {

/// A category of endpoints.
pub const CAT_APPS: &'static str = "apps";

/// A category of endpoints.
pub const CAT_INSTALLED_APPS: &'static str = "installedApps";

/// A category of endpoints.
pub const CAT_SUBSCRIPTIONS: &'static str = "subscriptions";

/// A category of endpoints.
pub const CAT_SCHEDULES: &'static str = "schedules";

/// The label under which a category is reported.
pub const LABEL_APPS: &'static str = "📦 앱";

/// The label under which a category is reported.
pub const LABEL_INSTALLED_APPS: &'static str = "📲 설치된 앱";

/// The label under which a category is reported.
pub const LABEL_SUBSCRIPTIONS: &'static str = "🔔 구독";

/// The label under which a category is reported.
pub const LABEL_SCHEDULES: &'static str = "⏰ 스케줄";

/// The models of this group's endpoint tests, in the order in which they run.
pub open spec fn apps_tests_v() -> Seq<ApiEndpointTestV> {
    seq![
        endpoint_test_v(CAT_APPS@, LABEL_APPS@, "앱 목록 조회"@, "GET /apps — 등록된 SmartApp 목록"@, Endpoint::AppsList),
        ApiEndpointTestV { needs_setup: Some("등록된 앱이 필요합니다"@), ..endpoint_test_v(CAT_APPS@, LABEL_APPS@, "특정 앱 상세 조회"@, "GET /apps/{id} — 앱 상세 정보"@, Endpoint::AppsGet) },
        endpoint_test_v(CAT_INSTALLED_APPS@, LABEL_INSTALLED_APPS@, "설치된 앱 목록 조회"@, "GET /installedapps — 설치된 앱 목록"@, Endpoint::InstalledAppsList),
        endpoint_test_v(CAT_INSTALLED_APPS@, LABEL_INSTALLED_APPS@, "특정 설치된 앱 상세 조회"@, "GET /installedapps/{id} — 설치된 앱 상세 정보"@, Endpoint::InstalledAppsGet),
        ApiEndpointTestV { needs_setup: Some("설치된 앱(installedApp)이 필요합니다"@), ..endpoint_test_v(CAT_SUBSCRIPTIONS@, LABEL_SUBSCRIPTIONS@, "구독 목록 조회"@, "GET /installedapps/{id}/subscriptions — 이벤트 구독 목록"@, Endpoint::SubscriptionsList) },
        ApiEndpointTestV { needs_setup: Some("설치된 앱(installedApp)이 필요합니다"@), ..endpoint_test_v(CAT_SCHEDULES@, LABEL_SCHEDULES@, "스케줄 목록 조회"@, "GET /installedapps/{id}/schedules — 예약 실행 목록"@, Endpoint::SchedulesList) },
    ]
}

/// This group's endpoint tests, in the order in which they run.
pub fn tests() -> (r: Vec<ApiEndpointTest>)
    ensures
        tests_view(r@) == apps_tests_v(),
{
    let r = vec![
        ApiEndpointTest::new(CAT_APPS, LABEL_APPS, "앱 목록 조회", "GET /apps — 등록된 SmartApp 목록", Endpoint::AppsList),
        ApiEndpointTest::new(CAT_APPS, LABEL_APPS, "특정 앱 상세 조회", "GET /apps/{id} — 앱 상세 정보", Endpoint::AppsGet).with_needs_setup("등록된 앱이 필요합니다"),
        ApiEndpointTest::new(CAT_INSTALLED_APPS, LABEL_INSTALLED_APPS, "설치된 앱 목록 조회", "GET /installedapps — 설치된 앱 목록", Endpoint::InstalledAppsList),
        ApiEndpointTest::new(CAT_INSTALLED_APPS, LABEL_INSTALLED_APPS, "특정 설치된 앱 상세 조회", "GET /installedapps/{id} — 설치된 앱 상세 정보", Endpoint::InstalledAppsGet),
        ApiEndpointTest::new(CAT_SUBSCRIPTIONS, LABEL_SUBSCRIPTIONS, "구독 목록 조회", "GET /installedapps/{id}/subscriptions — 이벤트 구독 목록", Endpoint::SubscriptionsList).with_needs_setup("설치된 앱(installedApp)이 필요합니다"),
        ApiEndpointTest::new(CAT_SCHEDULES, LABEL_SCHEDULES, "스케줄 목록 조회", "GET /installedapps/{id}/schedules — 예약 실행 목록", Endpoint::SchedulesList).with_needs_setup("설치된 앱(installedApp)이 필요합니다"),
    ];
    assert(tests_view(r@) =~= apps_tests_v());
    r
}

} // verus!
