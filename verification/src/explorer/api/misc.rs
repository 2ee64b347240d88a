//! The endpoint tests of the survey for schema connectors, the weather service and the event history.
use vstd::prelude::*;

use crate::explorer::models::{endpoint_test_v, tests_view, ApiEndpointTest, ApiEndpointTestV, Endpoint};

verus! {

/// A category of endpoints.
pub const CAT_SCHEMA: &'static str = "schema";

/// A category of endpoints.
pub const CAT_SERVICES: &'static str = "services";

/// A category of endpoints.
pub const CAT_HISTORY: &'static str = "history";

/// The label under which a category is reported.
pub const LABEL_SCHEMA: &'static str = "🔌 스키마 커넥터";

/// The label under which a category is reported.
pub const LABEL_SERVICES: &'static str = "🌤️ 서비스";

/// The label under which a category is reported.
pub const LABEL_HISTORY: &'static str = "📜 이벤트 기록";

/// The models of this group's endpoint tests, in the order in which they run.
pub open spec fn misc_tests_v() -> Seq<ApiEndpointTestV> {
    seq![
        endpoint_test_v(CAT_SCHEMA@, LABEL_SCHEMA@, "스키마 앱 목록 조회"@, "GET /schema/apps — ST Schema C2C 커넥터 목록"@, Endpoint::SchemaList),
        endpoint_test_v(CAT_SERVICES@, LABEL_SERVICES@, "날씨 정보 조회"@, "GET /services/coordinate/locations/{id}/weather — 현재 날씨"@, Endpoint::ServicesWeather),
        endpoint_test_v(CAT_HISTORY@, LABEL_HISTORY@, "디바이스 이벤트 기록 조회"@, "GET /history/devices — 최근 디바이스 이벤트"@, Endpoint::HistoryDevices),
    ]
}

/// This group's endpoint tests, in the order in which they run.
pub fn tests() -> (r: Vec<ApiEndpointTest>)
    ensures
        tests_view(r@) == misc_tests_v(),
{
    let r = vec![
        ApiEndpointTest::new(CAT_SCHEMA, LABEL_SCHEMA, "스키마 앱 목록 조회", "GET /schema/apps — ST Schema C2C 커넥터 목록", Endpoint::SchemaList),
        ApiEndpointTest::new(CAT_SERVICES, LABEL_SERVICES, "날씨 정보 조회", "GET /services/coordinate/locations/{id}/weather — 현재 날씨", Endpoint::ServicesWeather),
        ApiEndpointTest::new(CAT_HISTORY, LABEL_HISTORY, "디바이스 이벤트 기록 조회", "GET /history/devices — 최근 디바이스 이벤트", Endpoint::HistoryDevices),
    ];
    assert(tests_view(r@) =~= misc_tests_v());
    r
}

} // verus!
