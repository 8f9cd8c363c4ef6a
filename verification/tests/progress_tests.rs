use av1studio::progress::parse_av1an_output;
use av1studio::progress::parse_line;
use av1studio::progress::ProgressState;

#[test]
fn bare_line_yields_counters_and_percentage() {
    let snap = parse_line("120 3600").unwrap();
    assert_eq!(snap.current, 120);
    assert_eq!(snap.total, 3600);
    assert_eq!(snap.percent_milli, 3333);
    assert_eq!(snap.fps_milli, 0);
    assert_eq!(snap.eta, "");
}

#[test]
fn rich_line_yields_all_fields() {
    let snap = parse_line("00:01:23 \u{2595}\u{2588}\u{2588}\u{2588}\u{2588}\u{258F} 45% 120/3600 (2.5 fps, eta 00:05:00)")
        .unwrap();
    assert_eq!(snap.current, 120);
    assert_eq!(snap.total, 3600);
    assert_eq!(snap.percent_milli, 45000);
    assert_eq!(snap.fps_milli, 2500);
    assert_eq!(snap.eta, "00:05:00");
}

#[test]
fn seconds_per_frame_rate_is_inverted() {
    let snap = parse_line("00:01:23 \u{2595}\u{2588}\u{2588}\u{2588}\u{2588}\u{258F} 45% 120/3600 (0.4 s/fr, eta 00:05:00)")
        .unwrap();
    assert_eq!(snap.fps_milli, 2500);
}

#[test]
fn zero_seconds_per_frame_gives_zero_fps() {
    let snap = parse_line("00:01:23 \u{2595}\u{2588}\u{258F} 45% 120/3600 (0 s/fr, eta 00:05:00)")
        .unwrap();
    assert_eq!(snap.fps_milli, 0);
}

#[test]
fn garbage_line_yields_nothing() {
    assert!(parse_line("garbage output line").is_none());
}

#[test]
fn empty_line_yields_nothing() {
    assert!(parse_line("").is_none());
}

#[test]
fn zero_total_gives_zero_percentage() {
    let snap = parse_line("120 0").unwrap();
    assert_eq!(snap.current, 120);
    assert_eq!(snap.total, 0);
    assert_eq!(snap.percent_milli, 0);
}

#[test]
fn largest_counters_still_parse() {
    let snap = parse_line("4294967295 4294967295").unwrap();
    assert_eq!(snap.current, u32::MAX);
    assert_eq!(snap.total, u32::MAX);
    assert_eq!(snap.percent_milli, 100000);
}

#[test]
fn rate_fraction_beyond_three_digits_is_truncated() {
    let snap = parse_line("00:01:23 \u{2595}\u{2588}\u{258F} 45% 120/3600 (2.50009 fps, eta x)")
        .unwrap();
    assert_eq!(snap.fps_milli, 2500);
}

#[test]
fn tab_separated_bare_line_parses() {
    let snap = parse_line("120\t3600").unwrap();
    assert_eq!(snap.current, 120);
    assert_eq!(snap.total, 3600);
}

#[test]
fn overlong_counter_is_treated_as_no_match() {
    assert!(parse_line("99999999999999999999999 3600").is_none());
    assert!(parse_line("5000000000 6000000000").is_none());
}

#[test]
fn bare_line_with_trailing_text_is_no_match() {
    assert!(parse_line("120 3600 extra").is_none());
    assert!(parse_line("120 3600x").is_none());
}

#[test]
fn fractional_percentage_is_read() {
    let snap = parse_line("00:01:23 \u{2595}\u{2588}\u{258F} 4.5% 120/3600 (2.5 fps, eta x)")
        .unwrap();
    assert_eq!(snap.percent_milli, 4500);
}

#[test]
fn eta_passes_through_verbatim() {
    let snap = parse_line("00:01:23 \u{2595}\u{2588}\u{258F} 45% 120/3600 (2.5 fps, eta 1h 02m)")
        .unwrap();
    assert_eq!(snap.eta, "1h 02m");
}

#[test]
fn rich_line_without_closing_paren_is_no_match() {
    assert!(parse_line("00:01:23 \u{2595}\u{2588}\u{258F} 45% 120/3600 (2.5 fps, eta 00:05:00").is_none());
}

#[test]
fn rich_line_without_colon_marker_is_no_match() {
    assert!(parse_line("000123 \u{2595}\u{2588}\u{258F} 45% 120/3600 (2.5 fps, eta 00:05:00)").is_none());
}

#[test]
fn output_chunk_applies_lines_in_order() {
    let mut st = ProgressState::default();
    parse_av1an_output("120 3600\ngarbage in between\n240 3600", &mut st);
    assert_eq!(st.encoded_frames, Some(240));
    assert_eq!(st.total_frames, Some(3600));
    assert_eq!(st.fps_milli, Some(0));
    assert_eq!(st.eta_time.as_deref(), Some(""));
}

#[test]
fn unrecognised_output_changes_nothing() {
    let mut st = ProgressState::default();
    parse_av1an_output("no progress here\nstill none", &mut st);
    assert_eq!(st.encoded_frames, None);
    assert_eq!(st.total_frames, None);
    assert_eq!(st.fps_milli, None);
    assert_eq!(st.eta_time, None);
}

#[test]
fn state_percentage_follows_last_counters() {
    let mut st = ProgressState::default();
    assert_eq!(st.percent_milli(), 0);
    parse_av1an_output("120 3600", &mut st);
    assert_eq!(st.percent_milli(), 3333);
    parse_av1an_output("1800 3600", &mut st);
    assert_eq!(st.percent_milli(), 50000);
    parse_av1an_output("7 0", &mut st);
    assert_eq!(st.percent_milli(), 0);
}

#[test]
fn rich_line_overwrites_every_field() {
    let mut st = ProgressState::default();
    parse_av1an_output("120 3600", &mut st);
    parse_av1an_output(
        "00:01:23 \u{2595}\u{2588}\u{258F} 45% 240/3600 (2.5 fps, eta 00:05:00)",
        &mut st,
    );
    assert_eq!(st.encoded_frames, Some(240));
    assert_eq!(st.total_frames, Some(3600));
    assert_eq!(st.fps_milli, Some(2500));
    assert_eq!(st.eta_time.as_deref(), Some("00:05:00"));
}
