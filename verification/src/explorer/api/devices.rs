//! The endpoint tests of the survey for devices, device profiles and capabilities.
use vstd::prelude::*;

use crate::explorer::models::{endpoint_test_v, tests_view, ApiEndpointTest, ApiEndpointTestV, Endpoint};

verus! {

/// A category of endpoints.
pub const CAT_DEVICES: &'static str = "devices";

/// A category of endpoints.
pub const CAT_DEVICE_PROFILES: &'static str = "deviceProfiles";

/// A category of endpoints.
pub const CAT_CAPABILITIES: &'static str = "capabilities";

/// The label under which a category is reported.
pub const LABEL_DEVICES: &'static str = "📱 디바이스";

/// The label under which a category is reported.
pub const LABEL_DEVICE_PROFILES: &'static str = "🔧 디바이스 프로필";

/// The label under which a category is reported.
pub const LABEL_CAPABILITIES: &'static str = "⚡ 기능";

/// The models of this group's endpoint tests, in the order in which they run.
pub open spec fn devices_tests_v() -> Seq<ApiEndpointTestV> {
    seq![
        endpoint_test_v(CAT_DEVICES@, LABEL_DEVICES@, "디바이스 목록 조회"@, "GET /devices — 모든 디바이스 목록"@, Endpoint::DevicesList),
        endpoint_test_v(CAT_DEVICES@, LABEL_DEVICES@, "특정 디바이스 상세 조회"@, "GET /devices/{id} — 디바이스 상세 정보"@, Endpoint::DevicesGet),
        endpoint_test_v(CAT_DEVICES@, LABEL_DEVICES@, "디바이스 전체 상태 조회"@, "GET /devices/{id}/status — 모든 컴포넌트/기능 상태"@, Endpoint::DevicesStatus),
        endpoint_test_v(CAT_DEVICES@, LABEL_DEVICES@, "디바이스 연결 상태 조회"@, "GET /devices/{id}/health — ONLINE/OFFLINE 상태"@, Endpoint::DevicesHealth),
        ApiEndpointTestV { has_side_effect: true, ..endpoint_test_v(CAT_DEVICES@, LABEL_DEVICES@, "디바이스 명령 실행 (refresh)"@, "POST /devices/{id}/commands — refresh 명령 (안전)"@, Endpoint::DevicesRefresh) },
        endpoint_test_v(CAT_DEVICE_PROFILES@, LABEL_DEVICE_PROFILES@, "디바이스 프로필 목록 조회"@, "GET /deviceprofiles — 등록된 프로필 목록"@, Endpoint::DeviceProfilesList),
        ApiEndpointTestV { needs_setup: Some("등록된 디바이스 프로필이 필요합니다"@), ..endpoint_test_v(CAT_DEVICE_PROFILES@, LABEL_DEVICE_PROFILES@, "특정 디바이스 프로필 조회"@, "GET /deviceprofiles/{id} — 프로필 상세 정보"@, Endpoint::DeviceProfilesGet) },
        endpoint_test_v(CAT_CAPABILITIES@, LABEL_CAPABILITIES@, "기능 네임스페이스 목록 조회"@, "GET /capabilities/namespaces — 기능 네임스페이스 목록"@, Endpoint::CapabilitiesNamespaces),
        endpoint_test_v(CAT_CAPABILITIES@, LABEL_CAPABILITIES@, "switch 기능 상세 조회"@, "GET /capabilities/switch/1 — 표준 switch 기능 정의"@, Endpoint::CapabilitiesSwitch),
        endpoint_test_v(CAT_CAPABILITIES@, LABEL_CAPABILITIES@, "디바이스 기반 기능 조회"@, "첫 번째 디바이스의 첫 기능 상세 조회"@, Endpoint::CapabilitiesDeviceCap),
    ]
}

/// This group's endpoint tests, in the order in which they run.
pub fn tests() -> (r: Vec<ApiEndpointTest>)
    ensures
        tests_view(r@) == devices_tests_v(),
{
    let r = vec![
        ApiEndpointTest::new(CAT_DEVICES, LABEL_DEVICES, "디바이스 목록 조회", "GET /devices — 모든 디바이스 목록", Endpoint::DevicesList),
        ApiEndpointTest::new(CAT_DEVICES, LABEL_DEVICES, "특정 디바이스 상세 조회", "GET /devices/{id} — 디바이스 상세 정보", Endpoint::DevicesGet),
        ApiEndpointTest::new(CAT_DEVICES, LABEL_DEVICES, "디바이스 전체 상태 조회", "GET /devices/{id}/status — 모든 컴포넌트/기능 상태", Endpoint::DevicesStatus),
        ApiEndpointTest::new(CAT_DEVICES, LABEL_DEVICES, "디바이스 연결 상태 조회", "GET /devices/{id}/health — ONLINE/OFFLINE 상태", Endpoint::DevicesHealth),
        ApiEndpointTest::new(CAT_DEVICES, LABEL_DEVICES, "디바이스 명령 실행 (refresh)", "POST /devices/{id}/commands — refresh 명령 (안전)", Endpoint::DevicesRefresh).with_side_effect(),
        ApiEndpointTest::new(CAT_DEVICE_PROFILES, LABEL_DEVICE_PROFILES, "디바이스 프로필 목록 조회", "GET /deviceprofiles — 등록된 프로필 목록", Endpoint::DeviceProfilesList),
        ApiEndpointTest::new(CAT_DEVICE_PROFILES, LABEL_DEVICE_PROFILES, "특정 디바이스 프로필 조회", "GET /deviceprofiles/{id} — 프로필 상세 정보", Endpoint::DeviceProfilesGet).with_needs_setup("등록된 디바이스 프로필이 필요합니다"),
        ApiEndpointTest::new(CAT_CAPABILITIES, LABEL_CAPABILITIES, "기능 네임스페이스 목록 조회", "GET /capabilities/namespaces — 기능 네임스페이스 목록", Endpoint::CapabilitiesNamespaces),
        ApiEndpointTest::new(CAT_CAPABILITIES, LABEL_CAPABILITIES, "switch 기능 상세 조회", "GET /capabilities/switch/1 — 표준 switch 기능 정의", Endpoint::CapabilitiesSwitch),
        ApiEndpointTest::new(CAT_CAPABILITIES, LABEL_CAPABILITIES, "디바이스 기반 기능 조회", "첫 번째 디바이스의 첫 기능 상세 조회", Endpoint::CapabilitiesDeviceCap),
    ];
    assert(tests_view(r@) =~= devices_tests_v());
    r
}

} // verus!
