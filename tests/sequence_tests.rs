use psf_guard::sequence::{
    build_summary, classify, image_timestamp, is_gradual, order_by_time, is_short_session, split_sessions, IssueCategory,
    IssueSignals, QualityBand,
};

#[test]
fn test_sequence_splitting_single_session() {
    let ts: Vec<i64> = (0..10).map(|i| 1000 + i as i64 * 300).collect();
    let starts = split_sessions(&ts, 60);
    assert_eq!(starts.len(), 1, "Should be a single session");
    assert_eq!(starts, vec![0]);
}

#[test]
fn test_sequence_splitting_two_sessions() {
    let mut ts: Vec<i64> = (0..5).map(|i| 1000 + i as i64 * 300).collect();
    for i in 5..10 {
        ts.push(1000 + 5 * 300 + 7200 + (i as i64 - 5) * 300);
    }
    let starts = split_sessions(&ts, 60);
    assert_eq!(starts.len(), 2, "Should split into two sessions");
    assert_eq!(starts, vec![0, 5]);
}

#[test]
fn session_split_scenario() {
    let mut ts: Vec<i64> = (0..5).map(|i| 1705352400 + i * 300).collect();
    let end = ts[4];
    for i in 0..5 {
        ts.push(end + 7200 + i * 300);
    }
    assert_eq!(split_sessions(&ts, 60), vec![0, 5]);
    assert_eq!(split_sessions(&ts, 200), vec![0]);
    assert_eq!(split_sessions(&ts, 4), vec![0, 1, 2, 3, 4, 5, 6, 7, 8, 9]);
}

#[test]
fn gap_equal_to_limit_stays_in_session() {
    assert_eq!(split_sessions(&vec![0, 3600, 7201], 60), vec![0, 2]);
    assert!(split_sessions(&vec![], 60).is_empty());
    assert_eq!(split_sessions(&vec![i64::MIN, i64::MAX], u64::MAX), vec![0]);
}

fn quiet() -> IssueSignals {
    IssueSignals {
        star_drop_above: false,
        star_drop_below: true,
        bg_rise_above: false,
        hfr_rise_above: false,
        ecc_rise_above: false,
        ecc_rise_below: true,
        hfr_gradual: false,
        bg_gradual: false,
        score_below_half: false,
    }
}

#[test]
fn rule_table_in_order() {
    let mut s = quiet();
    assert_eq!(classify(s), None);
    s.score_below_half = true;
    assert_eq!(classify(s), Some(IssueCategory::UnknownDegradation));

    let clouds = IssueSignals { star_drop_above: true, star_drop_below: false, bg_rise_above: true, ..quiet() };
    assert_eq!(classify(clouds), Some(IssueCategory::LikelyClouds));

    let obstruction = IssueSignals { star_drop_above: true, star_drop_below: false, ..quiet() };
    assert_eq!(classify(obstruction), Some(IssueCategory::PossibleObstruction));

    let focus = IssueSignals { hfr_rise_above: true, hfr_gradual: true, ..quiet() };
    assert_eq!(classify(focus), Some(IssueCategory::FocusDrift));

    let tracking = IssueSignals { ecc_rise_above: true, ecc_rise_below: false, ..quiet() };
    assert_eq!(classify(tracking), Some(IssueCategory::TrackingError));

    let sky = IssueSignals { bg_rise_above: true, bg_gradual: true, ..quiet() };
    assert_eq!(classify(sky), Some(IssueCategory::SkyBrightening));

    let sudden_bg = IssueSignals { bg_rise_above: true, ..quiet() };
    assert_eq!(classify(sudden_bg), None);
}

#[test]
fn category_names() {
    assert_eq!(IssueCategory::LikelyClouds.as_str(), "likely_clouds");
    assert_eq!(IssueCategory::UnknownDegradation.as_str(), "unknown_degradation");
    assert_eq!(IssueCategory::SkyBrightening.as_str(), "sky_brightening");
}

#[test]
fn gradual_needs_all_but_one_small_step() {
    assert!(is_gradual(&vec![true, true, false], 3));
    assert!(!is_gradual(&vec![true, false, false], 3));
    assert!(is_gradual(&vec![], 1));
    assert!(is_gradual(&vec![], 0));
}

#[test]
fn test_summary_counts() {
    let items = vec![
        (QualityBand::Excellent, None),
        (QualityBand::Good, None),
        (QualityBand::Bad, Some(IssueCategory::LikelyClouds)),
    ];
    let summary = build_summary(&items);
    assert_eq!(summary.excellent_count, 1);
    assert_eq!(summary.good_count, 1);
    assert_eq!(summary.bad_count, 1);
    assert_eq!(summary.cloud_events_detected, 1);
}

#[test]
fn summary_flags_and_short_sessions() {
    let items = vec![
        (QualityBand::Fair, Some(IssueCategory::FocusDrift)),
        (QualityBand::Poor, Some(IssueCategory::TrackingError)),
    ];
    let s = build_summary(&items);
    assert!(s.focus_drift_detected && s.tracking_issues_detected);
    assert_eq!(s.fair_count + s.poor_count, 2);
    assert_eq!(s.cloud_events_detected, 0);

    assert!(is_short_session(2, 3));
    assert!(!is_short_session(3, 3));
    let short = build_summary(&vec![(QualityBand::Excellent, None), (QualityBand::Excellent, None)]);
    assert_eq!(short.excellent_count, 2);
    assert_eq!(build_summary(&vec![]).excellent_count, 0);
}

#[test]
fn exposure_time_prefers_catalog_value() {
    let m = r#"{"ExposureStartTime": "2024-01-15T21:00:00Z"}"#;
    assert_eq!(image_timestamp(Some(1705400000), m), Some(1705400000));
    assert_eq!(image_timestamp(None, m), Some(1705352400));
    assert_eq!(image_timestamp(None, r#"{"FileName": "test.fits", "FilterName": "Ha"}"#), None);
    assert_eq!(image_timestamp(None, "not json"), None);
    assert_eq!(image_timestamp(None, r#"{"ExposureStartTime": "yesterday"}"#), None);
}

#[test]
fn time_order_is_stable() {
    let ts = vec![Some(300), None, Some(100), Some(300), Some(0), Some(-5)];
    assert_eq!(order_by_time(&ts), vec![5, 1, 4, 2, 0, 3]);
    assert!(order_by_time(&vec![]).is_empty());
}
