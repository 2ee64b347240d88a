//! The endpoint tests of the survey for locations, their rooms and their modes.
use vstd::prelude::*;

use crate::explorer::models::{endpoint_test_v, tests_view, ApiEndpointTest, ApiEndpointTestV, Endpoint};

verus! {

/// A category of endpoints.
pub const CAT_LOCATIONS: &'static str = "locations";

/// A category of endpoints.
pub const CAT_ROOMS: &'static str = "rooms";

/// A category of endpoints.
pub const CAT_MODES: &'static str = "modes";

/// The label under which a category is reported.
pub const LABEL_LOCATIONS: &'static str = "📍 위치";

/// The label under which a category is reported.
pub const LABEL_ROOMS: &'static str = "🚪 방";

/// The label under which a category is reported.
pub const LABEL_MODES: &'static str = "🔄 모드";

/// The models of this group's endpoint tests, in the order in which they run.
pub open spec fn locations_tests_v() -> Seq<ApiEndpointTestV> {
    seq![
        endpoint_test_v(CAT_LOCATIONS@, LABEL_LOCATIONS@, "위치 목록 조회"@, "GET /locations — 모든 SmartThings 위치 목록"@, Endpoint::LocationsList),
        endpoint_test_v(CAT_LOCATIONS@, LABEL_LOCATIONS@, "특정 위치 상세 조회"@, "GET /locations/{id} — 위치 상세 정보"@, Endpoint::LocationsGet),
        endpoint_test_v(CAT_ROOMS@, LABEL_ROOMS@, "방 목록 조회"@, "GET /locations/{id}/rooms — 위치 내 방 목록"@, Endpoint::RoomsList),
        endpoint_test_v(CAT_ROOMS@, LABEL_ROOMS@, "특정 방 상세 조회"@, "GET /locations/{id}/rooms/{roomId} — 방 상세 정보"@, Endpoint::RoomsGet),
        endpoint_test_v(CAT_MODES@, LABEL_MODES@, "모드 목록 조회"@, "GET /locations/{id}/modes — 위치의 모드 목록"@, Endpoint::ModesList),
        endpoint_test_v(CAT_MODES@, LABEL_MODES@, "현재 모드 조회"@, "GET /locations/{id}/modes/current — 현재 활성 모드"@, Endpoint::ModesCurrent),
    ]
}

/// This group's endpoint tests, in the order in which they run.
pub fn tests() -> (r: Vec<ApiEndpointTest>)
    ensures
        tests_view(r@) == locations_tests_v(),
{
    let r = vec![
        ApiEndpointTest::new(CAT_LOCATIONS, LABEL_LOCATIONS, "위치 목록 조회", "GET /locations — 모든 SmartThings 위치 목록", Endpoint::LocationsList),
        ApiEndpointTest::new(CAT_LOCATIONS, LABEL_LOCATIONS, "특정 위치 상세 조회", "GET /locations/{id} — 위치 상세 정보", Endpoint::LocationsGet),
        ApiEndpointTest::new(CAT_ROOMS, LABEL_ROOMS, "방 목록 조회", "GET /locations/{id}/rooms — 위치 내 방 목록", Endpoint::RoomsList),
        ApiEndpointTest::new(CAT_ROOMS, LABEL_ROOMS, "특정 방 상세 조회", "GET /locations/{id}/rooms/{roomId} — 방 상세 정보", Endpoint::RoomsGet),
        ApiEndpointTest::new(CAT_MODES, LABEL_MODES, "모드 목록 조회", "GET /locations/{id}/modes — 위치의 모드 목록", Endpoint::ModesList),
        ApiEndpointTest::new(CAT_MODES, LABEL_MODES, "현재 모드 조회", "GET /locations/{id}/modes/current — 현재 활성 모드", Endpoint::ModesCurrent),
    ];
    assert(tests_view(r@) =~= locations_tests_v());
    r
}

} // verus!
