//! The endpoint tests of the survey for scenes and rules.
use vstd::prelude::*;

use crate::explorer::models::{endpoint_test_v, tests_view, ApiEndpointTest, ApiEndpointTestV, Endpoint};

verus! {

/// A category of endpoints.
pub const CAT_SCENES: &'static str = "scenes";

/// A category of endpoints.
pub const CAT_RULES: &'static str = "rules";

/// The label under which a category is reported.
pub const LABEL_SCENES: &'static str = "🎬 씬";

/// The label under which a category is reported.
pub const LABEL_RULES: &'static str = "📐 규칙";

/// The models of this group's endpoint tests, in the order in which they run.
pub open spec fn automations_tests_v() -> Seq<ApiEndpointTestV> {
    seq![
        endpoint_test_v(CAT_SCENES@, LABEL_SCENES@, "씬 목록 조회"@, "GET /scenes — 모든 씬 목록"@, Endpoint::ScenesList),
        ApiEndpointTestV { has_side_effect: true, ..endpoint_test_v(CAT_SCENES@, LABEL_SCENES@, "씬 실행"@, "POST /scenes/{id}/execute — 첫 번째 씬 실행"@, Endpoint::ScenesExecute) },
        endpoint_test_v(CAT_RULES@, LABEL_RULES@, "규칙 목록 조회"@, "GET /rules?locationId={id} — 위치의 자동화 규칙 목록"@, Endpoint::RulesList),
        ApiEndpointTestV { needs_setup: Some("등록된 규칙이 필요합니다"@), ..endpoint_test_v(CAT_RULES@, LABEL_RULES@, "특정 규칙 상세 조회"@, "GET /rules/{id} — 규칙 상세 정보"@, Endpoint::RulesGet) },
    ]
}

/// This group's endpoint tests, in the order in which they run.
pub fn tests() -> (r: Vec<ApiEndpointTest>)
    ensures
        tests_view(r@) == automations_tests_v(),
{
    let r = vec![
        ApiEndpointTest::new(CAT_SCENES, LABEL_SCENES, "씬 목록 조회", "GET /scenes — 모든 씬 목록", Endpoint::ScenesList),
        ApiEndpointTest::new(CAT_SCENES, LABEL_SCENES, "씬 실행", "POST /scenes/{id}/execute — 첫 번째 씬 실행", Endpoint::ScenesExecute).with_side_effect(),
        ApiEndpointTest::new(CAT_RULES, LABEL_RULES, "규칙 목록 조회", "GET /rules?locationId={id} — 위치의 자동화 규칙 목록", Endpoint::RulesList),
        ApiEndpointTest::new(CAT_RULES, LABEL_RULES, "특정 규칙 상세 조회", "GET /rules/{id} — 규칙 상세 정보", Endpoint::RulesGet).with_needs_setup("등록된 규칙이 필요합니다"),
    ];
    assert(tests_view(r@) =~= automations_tests_v());
    r
}

} // verus!
