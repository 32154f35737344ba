use sparrow::report::{
    is_improving, report_code, ReportPolicy, ReportThrottle, ReportType, ONE_CALL_MIN_INTERVAL_NANOS,
    STEP_MIN_INTERVAL_NANOS,
};

#[test]
fn report_codes_follow_the_kinds() {
    assert_eq!(report_code(ReportType::ExplFeas), 0);
    assert_eq!(report_code(ReportType::ExplInfeas), 1);
    assert_eq!(report_code(ReportType::ExplImproving), 2);
    assert_eq!(report_code(ReportType::CmprFeas), 3);
    assert_eq!(report_code(ReportType::Final), 4);
}

#[test]
fn improving_kinds() {
    assert!(!is_improving(ReportType::ExplFeas));
    assert!(!is_improving(ReportType::ExplInfeas));
    assert!(is_improving(ReportType::ExplImproving));
    assert!(is_improving(ReportType::CmprFeas));
    assert!(is_improving(ReportType::Final));
}

#[test]
fn intervals() {
    assert_eq!(ReportPolicy::for_one_call(true).min_interval_nanos, 150_000_000);
    assert_eq!(ReportPolicy::for_steps(false).min_interval_nanos, 500_000_000);
    assert_eq!(ONE_CALL_MIN_INTERVAL_NANOS, 150_000_000);
    assert_eq!(STEP_MIN_INTERVAL_NANOS, 500_000_000);
}

#[test]
fn policy_decisions() {
    let policy = ReportPolicy::for_one_call(true);
    assert!(policy.attaches_json(ReportType::CmprFeas, None));
    assert!(!policy.attaches_json(ReportType::ExplFeas, None));
    assert!(!policy.attaches_json(ReportType::ExplInfeas, None));
    assert!(!policy.attaches_json(ReportType::CmprFeas, Some(149_999_999)));
    assert!(policy.attaches_json(ReportType::CmprFeas, Some(150_000_000)));
    assert!(policy.attaches_json(ReportType::Final, Some(1)));
    let off = ReportPolicy::for_one_call(false);
    assert!(!off.attaches_json(ReportType::Final, None));
}

#[test]
fn throttle_remembers_the_last_emission() {
    let mut t = ReportThrottle::new(ReportPolicy::for_steps(true));
    assert!(t.attaches_json(ReportType::ExplImproving, 1_000));
    t.record_emission(1_000);
    assert_eq!(t.last_emit, Some(1_000));
    assert!(!t.attaches_json(ReportType::ExplImproving, 1_000 + 499_999_999));
    assert!(t.attaches_json(ReportType::ExplImproving, 1_000 + 500_000_000));
    assert!(t.attaches_json(ReportType::Final, 1_001));
    // A clock that went backwards counts as no time at all.
    assert!(!t.attaches_json(ReportType::CmprFeas, 10));
}
