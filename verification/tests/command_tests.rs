use av1studio::command::generate_command;
use av1studio::models::ColorPrimaries;
use av1studio::models::ColorRange;
use av1studio::models::MatrixCoefficients;
use av1studio::models::PixelFormat;
use av1studio::models::SourceLibrary;
use av1studio::models::TransferCharacteristics;
use av1studio::settings::EncodingSettings;

fn base_settings() -> EncodingSettings {
    let mut s = EncodingSettings::default();
    s.input_file = String::from("in.mkv");
    s.output_file = String::from("out.mkv");
    s
}

#[test]
fn default_command_full_shape() {
    let s = base_settings();
    let c = generate_command(&s);
    assert_eq!(c.program, "av1an-verbosity");
    let expected: Vec<&str> = vec![
        "-i",
        "in.mkv",
        "-o",
        "out.mkv",
        "--verbose-frame-info",
        "--split-method",
        "av-scenechange",
        "-c",
        "mkvmerge",
        "-m",
        "bestsource",
        "-f",
        "-vf scale=1920:1080:flags=bicubic:param0=0:param1=1/2",
        "--pix-format",
        "yuv420p10le",
        "-e",
        "svt-av1",
        "--force",
        "-v",
        "--tune 2 --keyint 1 --lp 2 --irefresh-type 2 --crf 27 --preset 4 --film-grain 0 \
         --color-primaries 2 --transfer-characteristics 2 --matrix-coefficients 2 \
         --color-range 0",
        "--set-thread-affinity",
        "",
        "-w",
        "",
    ];
    assert_eq!(c.args, expected);
}

#[test]
fn program_override_is_used() {
    let mut s = base_settings();
    s.av1an_verbosity_path = String::from("/opt/bin/av1an-verbosity");
    let c = generate_command(&s);
    assert_eq!(c.program, "/opt/bin/av1an-verbosity");
}

#[test]
fn synthesized_block_has_all_four_color_codes() {
    let mut s = base_settings();
    s.color_primaries = ColorPrimaries::Bt709;
    s.transfer_characteristics = TransferCharacteristics::Smpte2084;
    s.matrix_coefficients = MatrixCoefficients::Bt2020Ncl;
    s.color_range = ColorRange::Full;
    let c = generate_command(&s);
    let force_positions: Vec<usize> = c
        .args
        .iter()
        .enumerate()
        .filter(|(_, a)| a.as_str() == "--force")
        .map(|(i, _)| i)
        .collect();
    assert_eq!(force_positions.len(), 1);
    let block = &c.args[force_positions[0] + 2];
    assert!(block.contains(" --color-primaries 1"));
    assert!(block.contains(" --transfer-characteristics 16"));
    assert!(block.contains(" --matrix-coefficients 9"));
    assert!(block.contains(" --color-range 1"));
}

#[test]
fn custom_params_replace_block_verbatim() {
    let mut s = base_settings();
    s.custom_encode_params = String::from("--crf 18 --preset 6");
    let c = generate_command(&s);
    assert!(!c.args.iter().any(|a| a == "--force"));
    let v_pos = c.args.iter().position(|a| a == "-v").unwrap();
    assert_eq!(c.args[v_pos + 1], "--crf 18 --preset 6");
    assert!(!c.args.iter().any(|a| a.contains("--tune")));
    assert!(!c.args.iter().any(|a| a.contains("--color-primaries")));
}

#[test]
fn partial_resolution_emits_no_scale_flag() {
    let mut s = base_settings();
    s.width = String::from("1280");
    s.height = String::new();
    let c = generate_command(&s);
    assert!(!c.args.iter().any(|a| a == "-f"));
    assert!(!c.args.iter().any(|a| a.contains("scale=")));

    let mut s2 = base_settings();
    s2.width = String::new();
    s2.height = String::from("720");
    let c2 = generate_command(&s2);
    assert!(!c2.args.iter().any(|a| a == "-f"));
    assert!(!c2.args.iter().any(|a| a.contains("scale=")));
}

#[test]
fn no_resolution_emits_no_scale_flag() {
    let mut s = base_settings();
    s.width = String::new();
    s.height = String::new();
    let c = generate_command(&s);
    assert!(!c.args.iter().any(|a| a == "-f"));
}

#[test]
fn missing_paths_drop_their_flags() {
    let mut s = EncodingSettings::default();
    s.width = String::new();
    s.height = String::new();
    let c = generate_command(&s);
    assert!(!c.args.iter().any(|a| a == "-i"));
    assert!(!c.args.iter().any(|a| a == "-o"));
    assert!(!c.args.iter().any(|a| a == "--scenes"));
    assert!(!c.args.iter().any(|a| a == "--zones"));
}

#[test]
fn scenes_and_zones_flags_carry_their_paths() {
    let mut s = base_settings();
    s.scenes_file = String::from("scenes.json");
    s.zones_file = String::from("zones.txt");
    let c = generate_command(&s);
    let sp = c.args.iter().position(|a| a == "--scenes").unwrap();
    assert_eq!(c.args[sp + 1], "scenes.json");
    let zp = c.args.iter().position(|a| a == "--zones").unwrap();
    assert_eq!(c.args[zp + 1], "zones.txt");
}

#[test]
fn concat_method_passes_through() {
    let mut s = base_settings();
    s.file_concatenation = String::from("ffmpeg");
    let c = generate_command(&s);
    let cp = c.args.iter().position(|a| a == "-c").unwrap();
    assert_eq!(c.args[cp + 1], "ffmpeg");
}

#[test]
fn source_library_is_lowercased() {
    let mut s = base_settings();
    s.source_library = SourceLibrary::LSMASH;
    let c = generate_command(&s);
    let mp = c.args.iter().position(|a| a == "-m").unwrap();
    assert_eq!(c.args[mp + 1], "l-smash");
}

#[test]
fn quarter_step_crf_renders_as_decimal() {
    let mut s = base_settings();
    s.crf_quarters = 109;
    let c = generate_command(&s);
    let block = c.args.iter().find(|a| a.contains("--crf")).unwrap();
    assert!(block.contains("--crf 27.25 "));

    s.crf_quarters = 110;
    let c2 = generate_command(&s);
    let block2 = c2.args.iter().find(|a| a.contains("--crf")).unwrap();
    assert!(block2.contains("--crf 27.5 "));

    s.crf_quarters = 111;
    let c3 = generate_command(&s);
    let block3 = c3.args.iter().find(|a| a.contains("--crf")).unwrap();
    assert!(block3.contains("--crf 27.75 "));
}

#[test]
fn rate_control_bounds_render_whole() {
    let mut s = base_settings();
    s.crf_quarters = 280;
    s.preset = 13;
    let c = generate_command(&s);
    let block = c.args.iter().find(|a| a.contains("--crf")).unwrap();
    assert!(block.contains("--crf 70 "));
    assert!(block.contains("--preset 13 "));

    s.crf_quarters = 0;
    s.preset = 0;
    let c2 = generate_command(&s);
    let block2 = c2.args.iter().find(|a| a.contains("--crf")).unwrap();
    assert!(block2.contains("--crf 0 "));
    assert!(block2.contains("--preset 0 "));
}

#[test]
fn pixel_format_choice_is_rendered() {
    let mut s = base_settings();
    s.output_pixel_format = PixelFormat::Yuv420p;
    let c = generate_command(&s);
    let pp = c.args.iter().position(|a| a == "--pix-format").unwrap();
    assert_eq!(c.args[pp + 1], "yuv420p");
}

#[test]
fn performance_fields_pass_through() {
    let mut s = base_settings();
    s.thread_affinity = String::from("2");
    s.workers = String::from("8");
    let c = generate_command(&s);
    let tp = c.args.iter().position(|a| a == "--set-thread-affinity").unwrap();
    assert_eq!(c.args[tp + 1], "2");
    let wp = c.args.iter().position(|a| a == "-w").unwrap();
    assert_eq!(c.args[wp + 1], "8");
}
