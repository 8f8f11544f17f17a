use psf_guard::cache_keys::{
    annotated_key, cached_path, is_fresh, preview_key, psf_multi_key, sanitize_file_name,
    stars_key, stats_key, ArtifactCategory, ImageKey,
};

fn key() -> ImageKey {
    ImageKey {
        image_id: 42,
        project_id: 3,
        target_id: 7,
        acquired_date: Some(1705352400),
        file_name: "M42 L-001.fits".to_string(),
    }
}

#[test]
fn sanitizing_replaces_dots_spaces_and_dashes() {
    assert_eq!(sanitize_file_name("M42 L-001.fits"), "M42_L_001_fits");
    assert_eq!(sanitize_file_name(""), "");
    assert_eq!(sanitize_file_name("plain"), "plain");
}

#[test]
fn preview_key_spells_every_input() {
    assert_eq!(
        preview_key(&key(), "screen", true, 2000, -28000),
        "42_3_7_1705352400_M42_L_001_fits_screen_stretch_2000_-28000"
    );
    assert_eq!(
        preview_key(&key(), "large", false, 0, 0),
        "42_3_7_1705352400_M42_L_001_fits_large_linear_0_0"
    );
}

#[test]
fn keys_are_deterministic() {
    assert_eq!(
        preview_key(&key(), "screen", true, 2000, -28000),
        preview_key(&key(), "screen", true, 2000, -28000)
    );
    assert_eq!(stars_key(&key()), stars_key(&key()));
}

#[test]
fn other_keys() {
    assert_eq!(annotated_key(&key(), "screen", 1000), "annotated_42_3_7_1705352400_M42_L_001_fits_screen_1000");
    assert_eq!(stars_key(&key()), "stars_42_3_7_1705352400_M42_L_001_fits");
    assert_eq!(
        psf_multi_key(&key(), 9, "moffat", "r2", "top-n", 0),
        "psf_multi_42_3_7_1705352400_M42_L_001_fits_9_moffat_r2_top-n_0"
    );
    assert_eq!(stats_key(42, 3, 7, None), "stats_42_3_7_0");
    assert_eq!(stats_key(-1, 0, i32::MIN, Some(i64::MIN)), "stats_-1_0_-2147483648_-9223372036854775808");
}

#[test]
fn missing_acquisition_time_enters_as_zero() {
    let mut k = key();
    k.acquired_date = None;
    assert_eq!(stars_key(&k), "stars_42_3_7_0_M42_L_001_fits");
}

#[test]
fn cache_paths_by_category() {
    assert_eq!(cached_path("/cache", ArtifactCategory::Previews, "k", "png"), "/cache/previews/k.png");
    assert_eq!(cached_path("c", ArtifactCategory::PsfMulti, "k", "png"), "c/psf_multi/k.png");
    assert_eq!(ArtifactCategory::Stats.dir_name(), "stats");
    assert_eq!(ArtifactCategory::Stars.dir_name(), "stars");
    assert_eq!(ArtifactCategory::Annotated.dir_name(), "annotated");
    assert!(is_fresh(10, 11));
    assert!(!is_fresh(11, 11));
}
