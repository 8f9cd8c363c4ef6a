use av1studio::models::ColorPrimaries;
use av1studio::models::PixelFormat;
use av1studio::models::SourceLibrary;
use av1studio::settings::ConfigIssue;
use av1studio::settings::EncodingSettings;
use av1studio::text::decimal_string;

#[test]
fn default_settings_values() {
    let s = EncodingSettings::default();
    assert_eq!(s.av1an_verbosity_path, "");
    assert_eq!(s.input_file, "");
    assert_eq!(s.output_file, "");
    assert_eq!(s.width, "1920");
    assert_eq!(s.height, "1080");
    assert_eq!(s.source_library, SourceLibrary::BestSource);
    assert_eq!(s.output_pixel_format, PixelFormat::Yuv420p10le);
    assert_eq!(s.preset, 4);
    assert_eq!(s.crf_quarters, 108);
    assert_eq!(s.synthetic_grain, "0");
    assert_eq!(s.custom_encode_params, "");
}

#[test]
fn validate_reports_missing_mandatory_paths() {
    let s = EncodingSettings::default();
    let issues = s.validate();
    assert_eq!(issues, vec![ConfigIssue::MissingInput, ConfigIssue::MissingOutput]);
    assert!(!s.can_start());
}

#[test]
fn validate_reports_partial_resolution() {
    let mut s = EncodingSettings::default();
    s.input_file = String::from("a.mkv");
    s.output_file = String::from("b.mkv");
    s.height = String::new();
    let issues = s.validate();
    assert_eq!(issues, vec![ConfigIssue::PartialResolution]);
    assert!(s.can_start());
}

#[test]
fn validate_accepts_complete_settings() {
    let mut s = EncodingSettings::default();
    s.input_file = String::from("a.mkv");
    s.output_file = String::from("b.mkv");
    assert!(s.validate().is_empty());
    assert!(s.can_start());
}

#[test]
fn preset_round_trip_keeps_non_path_fields() {
    let mut s = EncodingSettings::default();
    s.input_file = String::from("a.mkv");
    s.source_library = SourceLibrary::FFMS2;
    s.color_primaries = ColorPrimaries::Bt709;
    s.crf_quarters = 93;
    s.preset = 6;
    s.synthetic_grain = String::from("12");
    s.custom_encode_params = String::from("--crf 20");
    let p = s.to_preset();

    let mut t = EncodingSettings::default();
    t.input_file = String::from("other.mkv");
    t.thread_affinity = String::from("2");
    t.apply_preset(&p);
    assert_eq!(t.source_library, SourceLibrary::FFMS2);
    assert_eq!(t.color_primaries, ColorPrimaries::Bt709);
    assert_eq!(t.crf_quarters, 93);
    assert_eq!(t.preset, 6);
    assert_eq!(t.synthetic_grain, "12");
    assert_eq!(t.custom_encode_params, "--crf 20");
    assert_eq!(t.input_file, "other.mkv");
    assert_eq!(t.thread_affinity, "2");
}

#[test]
fn decimal_rendering() {
    assert_eq!(decimal_string(0), "0");
    assert_eq!(decimal_string(7), "7");
    assert_eq!(decimal_string(1234), "1234");
    assert_eq!(decimal_string(18446744073709551615), "18446744073709551615");
}
