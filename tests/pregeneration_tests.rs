use psf_guard::api::AppError;
use psf_guard::pregeneration::{
    enabled_formats, requested_max_stars, requested_size, should_render, CycleTally, PregenFormat, PregenOutcome, PregenSettings, PreviewSize,
};

#[test]
fn preview_sizes() {
    assert_eq!(PreviewSize::parse("screen").ok(), Some(PreviewSize::Screen));
    assert_eq!(PreviewSize::parse("large").ok(), Some(PreviewSize::Large));
    assert_eq!(PreviewSize::parse("original").ok(), Some(PreviewSize::Original));
    match PreviewSize::parse("huge") {
        Err(AppError::BadRequest(m)) => assert_eq!(m, "Invalid size: huge"),
        _ => panic!("expected a bad request"),
    }
    assert_eq!(PreviewSize::Screen.max_dimension(), Some(1200));
    assert_eq!(PreviewSize::Large.max_dimension(), Some(2000));
    assert_eq!(PreviewSize::Original.max_dimension(), None);
    assert_eq!(PreviewSize::Large.name(), "large");
}

#[test]
fn formats_in_pass_order() {
    let s = PregenSettings {
        screen_enabled: true,
        large_enabled: false,
        original_enabled: true,
        annotated_enabled: true,
        cache_expiry_secs: 3600,
    };
    assert_eq!(
        enabled_formats(&s),
        vec![
            PregenFormat::Preview(PreviewSize::Screen),
            PregenFormat::Preview(PreviewSize::Original),
            PregenFormat::Annotated
        ]
    );
    let none = PregenSettings { screen_enabled: false, original_enabled: false, annotated_enabled: false, ..s };
    assert!(enabled_formats(&none).is_empty());
}

#[test]
fn render_when_missing_or_expired() {
    assert!(should_render(None, 3600));
    assert!(!should_render(Some(10), 3600));
    assert!(should_render(Some(3600), 3600));
}

#[test]
fn pass_counts() {
    let mut t = CycleTally::new();
    t.record(PregenOutcome::Generated);
    t.record(PregenOutcome::Skipped);
    t.record(PregenOutcome::Skipped);
    t.record(PregenOutcome::Failed);
    t.finish_image();
    assert_eq!(t, CycleTally { processed: 1, generated: 1, skipped: 2, errors: 1 });
}

#[test]
fn request_defaults() {
    assert_eq!(requested_size(&None).ok(), Some(PreviewSize::Screen));
    assert_eq!(requested_size(&Some("large".to_string())).ok(), Some(PreviewSize::Large));
    assert!(matches!(requested_size(&Some("tiny".to_string())), Err(AppError::BadRequest(_))));
    assert_eq!(requested_max_stars(None), 1000);
    assert_eq!(requested_max_stars(Some(50)), 50);
}
