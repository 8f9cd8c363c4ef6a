//! The command builder: a pure projection from a settings record to the
//! argument list of the external encoding orchestrator, together with the
//! facts a caller cares about — exactly which rate-control block is emitted,
//! and that a half-set resolution emits no resize flag.

use vstd::prelude::*;
use vstd::string::StringExecFns;
use crate::settings::EncodingSettings;
use crate::text::spec_crf_str;
use crate::text::spec_dec;
use crate::text::push_crf;
use crate::text::push_decimal;

verus! {

/// A command ready to hand to a process spawner: the program and its
/// arguments, in order.
pub struct CommandLine {
    pub program: String,
    pub args: Vec<String>,
}

/// The argument vector as a sequence of character sequences.
pub open spec fn args_view(v: Vec<String>) -> Seq<Seq<char>> {
    v@.map_values(|x: String| x@)
}

/// The program to run: the override path when one is set, else the fixed
/// binary name.
pub open spec fn spec_program(s: EncodingSettings) -> Seq<char> {
    if s.av1an_verbosity_path@.len() == 0 {
        "av1an-verbosity"@
    } else {
        s.av1an_verbosity_path@
    }
}

/// The file arguments: each of the four paths, flagged, when it is set.
pub open spec fn spec_io_args(s: EncodingSettings) -> Seq<Seq<char>> {
    (if s.input_file@.len() > 0 {
        seq!["-i"@, s.input_file@]
    } else {
        Seq::<Seq<char>>::empty()
    }) + (if s.output_file@.len() > 0 {
        seq!["-o"@, s.output_file@]
    } else {
        Seq::<Seq<char>>::empty()
    }) + (if s.scenes_file@.len() > 0 {
        seq!["--scenes"@, s.scenes_file@]
    } else {
        Seq::<Seq<char>>::empty()
    }) + (if s.zones_file@.len() > 0 {
        seq!["--zones"@, s.zones_file@]
    } else {
        Seq::<Seq<char>>::empty()
    })
}

/// The arguments every job gets.
pub open spec fn spec_fixed_args() -> Seq<Seq<char>> {
    seq!["--verbose-frame-info"@, "--split-method"@, "av-scenechange"@]
}

/// The concatenation method, defaulted when unset.
pub open spec fn spec_concat_args(s: EncodingSettings) -> Seq<Seq<char>> {
    seq![
        "-c"@,
        if s.file_concatenation@.len() > 0 {
            s.file_concatenation@
        } else {
            "mkvmerge"@
        },
    ]
}

/// The source library, by its lower-cased name.
pub open spec fn spec_source_args(s: EncodingSettings) -> Seq<Seq<char>> {
    seq!["-m"@, s.source_library.spec_cli_name()]
}

/// The ffmpeg filter value of the resize flag.
pub open spec fn spec_scale_value(s: EncodingSettings) -> Seq<char> {
    "-vf scale="@ + s.width@ + ":"@ + s.height@ + ":flags=bicubic:param0=0:param1=1/2"@
}

/// The resize flag, emitted only when both sides of the resolution are set.
pub open spec fn spec_scale_args(s: EncodingSettings) -> Seq<Seq<char>> {
    if s.width@.len() > 0 && s.height@.len() > 0 {
        seq!["-f"@, spec_scale_value(s)]
    } else {
        Seq::<Seq<char>>::empty()
    }
}

/// The pixel format and the fixed encoder choice.
pub open spec fn spec_format_args(s: EncodingSettings) -> Seq<Seq<char>> {
    seq!["--pix-format"@, s.output_pixel_format.spec_str(), "-e"@, "svt-av1"@]
}

/// The synthesised encoder parameter string: tuning, CRF, preset, grain, and
/// the four colour-description codes.
pub open spec fn spec_synth_params(s: EncodingSettings) -> Seq<char> {
    "--tune 2 --keyint 1 --lp 2 --irefresh-type 2 --crf "@ + spec_crf_str(s.crf_quarters as nat)
        + " --preset "@ + spec_dec(s.preset as nat) + " --film-grain "@ + s.synthetic_grain@
        + " --color-primaries "@ + s.color_primaries.spec_str() + " --transfer-characteristics "@
        + s.transfer_characteristics.spec_str() + " --matrix-coefficients "@
        + s.matrix_coefficients.spec_str() + " --color-range "@ + s.color_range.spec_str()
}

/// The rate-control block: the custom parameter string verbatim when one is
/// set — in which case nothing of the synthesised block, the colour codes
/// included, is emitted — else the forced synthesised block.
pub open spec fn spec_rc_args(s: EncodingSettings) -> Seq<Seq<char>> {
    if s.custom_encode_params@.len() > 0 {
        seq!["-v"@, s.custom_encode_params@]
    } else {
        seq!["--force"@, "-v"@, spec_synth_params(s)]
    }
}

/// The performance arguments, passed through as given.
pub open spec fn spec_perf_args(s: EncodingSettings) -> Seq<Seq<char>> {
    seq!["--set-thread-affinity"@, s.thread_affinity@, "-w"@, s.workers@]
}

/// Everything before the rate-control block.
pub open spec fn spec_head_args(s: EncodingSettings) -> Seq<Seq<char>> {
    spec_io_args(s) + spec_fixed_args() + spec_concat_args(s) + spec_source_args(s)
        + spec_scale_args(s) + spec_format_args(s)
}

/// The whole argument list, in the order the orchestrator's interface fixes.
pub open spec fn spec_args(s: EncodingSettings) -> Seq<Seq<char>> {
    spec_head_args(s) + spec_rc_args(s) + spec_perf_args(s)
}

/// Appends the file arguments.
fn push_io_args(args: &mut Vec<String>, s: &EncodingSettings)
    ensures
        args_view(*final(args)) == args_view(*old(args)) + spec_io_args(*s),
{
    if !s.input_file.as_str().is_empty() {
        args.push(String::from_str("-i"));
        args.push(s.input_file.clone());
    }
    if !s.output_file.as_str().is_empty() {
        args.push(String::from_str("-o"));
        args.push(s.output_file.clone());
    }
    if !s.scenes_file.as_str().is_empty() {
        args.push(String::from_str("--scenes"));
        args.push(s.scenes_file.clone());
    }
    if !s.zones_file.as_str().is_empty() {
        args.push(String::from_str("--zones"));
        args.push(s.zones_file.clone());
    }
    proof {
        assert(args_view(*args) =~= args_view(*old(args)) + spec_io_args(*s));
    }
}

/// Appends the fixed arguments, the concatenation method and the source
/// library.
fn push_core_args(args: &mut Vec<String>, s: &EncodingSettings)
    ensures
        args_view(*final(args)) == args_view(*old(args)) + spec_fixed_args()
            + spec_concat_args(*s) + spec_source_args(*s),
{
    args.push(String::from_str("--verbose-frame-info"));
    args.push(String::from_str("--split-method"));
    args.push(String::from_str("av-scenechange"));
    args.push(String::from_str("-c"));
    if !s.file_concatenation.as_str().is_empty() {
        args.push(s.file_concatenation.clone());
    } else {
        args.push(String::from_str("mkvmerge"));
    }
    args.push(String::from_str("-m"));
    args.push(String::from_str(s.source_library.cli_name()));
    proof {
        assert(args_view(*args) =~= args_view(*old(args)) + spec_fixed_args()
            + spec_concat_args(*s) + spec_source_args(*s));
    }
}

/// Appends the resize flag when both sides of the resolution are set.
fn push_scale_args(args: &mut Vec<String>, s: &EncodingSettings)
    ensures
        args_view(*final(args)) == args_view(*old(args)) + spec_scale_args(*s),
{
    if !s.width.as_str().is_empty() && !s.height.as_str().is_empty() {
        let mut scale = String::from_str("-vf scale=");
        scale.append(s.width.as_str());
        scale.append(":");
        scale.append(s.height.as_str());
        scale.append(":flags=bicubic:param0=0:param1=1/2");
        proof {
            assert(scale@ =~= spec_scale_value(*s));
        }
        args.push(String::from_str("-f"));
        args.push(scale);
    }
    proof {
        assert(args_view(*args) =~= args_view(*old(args)) + spec_scale_args(*s));
    }
}

/// Appends the pixel format and the encoder choice.
fn push_format_args(args: &mut Vec<String>, s: &EncodingSettings)
    ensures
        args_view(*final(args)) == args_view(*old(args)) + spec_format_args(*s),
{
    args.push(String::from_str("--pix-format"));
    args.push(String::from_str(s.output_pixel_format.as_str()));
    args.push(String::from_str("-e"));
    args.push(String::from_str("svt-av1"));
    proof {
        assert(args_view(*args) =~= args_view(*old(args)) + spec_format_args(*s));
    }
}

/// Builds the synthesised encoder parameter string.
fn build_synth_params(s: &EncodingSettings) -> (r: String)
    ensures
        r@ == spec_synth_params(*s),
{
    let mut params = String::from_str("--tune 2 --keyint 1 --lp 2 --irefresh-type 2 --crf ");
    push_crf(&mut params, s.crf_quarters);
    params.append(" --preset ");
    push_decimal(&mut params, s.preset as u64);
    params.append(" --film-grain ");
    params.append(s.synthetic_grain.as_str());
    params.append(" --color-primaries ");
    params.append(s.color_primaries.as_str());
    params.append(" --transfer-characteristics ");
    params.append(s.transfer_characteristics.as_str());
    params.append(" --matrix-coefficients ");
    params.append(s.matrix_coefficients.as_str());
    params.append(" --color-range ");
    params.append(s.color_range.as_str());
    proof {
        assert(params@ =~= spec_synth_params(*s));
    }
    params
}

/// Appends the rate-control block.
fn push_rc_args(args: &mut Vec<String>, s: &EncodingSettings)
    ensures
        args_view(*final(args)) == args_view(*old(args)) + spec_rc_args(*s),
{
    if !s.custom_encode_params.as_str().is_empty() {
        args.push(String::from_str("-v"));
        args.push(s.custom_encode_params.clone());
    } else {
        let params = build_synth_params(s);
        args.push(String::from_str("--force"));
        args.push(String::from_str("-v"));
        args.push(params);
    }
    proof {
        assert(args_view(*args) =~= args_view(*old(args)) + spec_rc_args(*s));
    }
}

/// Appends the performance arguments.
fn push_perf_args(args: &mut Vec<String>, s: &EncodingSettings)
    ensures
        args_view(*final(args)) == args_view(*old(args)) + spec_perf_args(*s),
{
    args.push(String::from_str("--set-thread-affinity"));
    args.push(s.thread_affinity.clone());
    args.push(String::from_str("-w"));
    args.push(s.workers.clone());
    proof {
        assert(args_view(*args) =~= args_view(*old(args)) + spec_perf_args(*s));
    }
}

/// Builds the orchestrator invocation for one settings record. Pure
/// construction: no field is validated here, and a missing input or output
/// simply yields a list without that flag.
pub fn generate_command(s: &EncodingSettings) -> (c: CommandLine)
    ensures
        c.program@ == spec_program(*s),
        args_view(c.args) == spec_args(*s),
{
    let program = if s.av1an_verbosity_path.as_str().is_empty() {
        String::from_str("av1an-verbosity")
    } else {
        s.av1an_verbosity_path.clone()
    };

    let mut args: Vec<String> = Vec::new();
    push_io_args(&mut args, s);
    push_core_args(&mut args, s);
    push_scale_args(&mut args, s);
    push_format_args(&mut args, s);
    push_rc_args(&mut args, s);
    push_perf_args(&mut args, s);
    proof {
        assert(args_view(args) =~= spec_args(*s));
    }

    CommandLine { program, args }
}

/// True when `sub` occurs contiguously somewhere in `s`.
pub open spec fn contains_sub(s: Seq<char>, sub: Seq<char>) -> bool {
    exists|i: int|
        0 <= i && i + sub.len() <= s.len() && #[trigger] s.subrange(i, i + sub.len()) == sub
}

/// The middle of a three-way concatenation occurs in it.
proof fn lemma_concat_contains(a: Seq<char>, b: Seq<char>, c: Seq<char>)
    ensures
        contains_sub(a + b + c, b),
{
    let s = a + b + c;
    assert(s.subrange(a.len() as int, a.len() as int + b.len() as int) =~= b);
}

/// The first part of the synthesised parameter string, up to the
/// colour-description flags.
pub open spec fn spec_synth_head(s: EncodingSettings) -> Seq<char> {
    "--tune 2 --keyint 1 --lp 2 --irefresh-type 2 --crf "@ + spec_crf_str(s.crf_quarters as nat)
        + " --preset "@ + spec_dec(s.preset as nat) + " --film-grain "@ + s.synthetic_grain@
}

/// The synthesised block names the colour primaries code.
proof fn lemma_synth_contains_cp(s: EncodingSettings)
    ensures
        contains_sub(spec_synth_params(s), " --color-primaries "@ + s.color_primaries.spec_str()),
{
    let mid = " --color-primaries "@ + s.color_primaries.spec_str();
    let tail = " --transfer-characteristics "@ + s.transfer_characteristics.spec_str()
        + " --matrix-coefficients "@ + s.matrix_coefficients.spec_str() + " --color-range "@
        + s.color_range.spec_str();
    assert(spec_synth_params(s) =~= spec_synth_head(s) + mid + tail);
    lemma_concat_contains(spec_synth_head(s), mid, tail);
}

/// The synthesised block names the transfer characteristics code.
proof fn lemma_synth_contains_tc(s: EncodingSettings)
    ensures
        contains_sub(
            spec_synth_params(s),
            " --transfer-characteristics "@ + s.transfer_characteristics.spec_str(),
        ),
{
    let pre = spec_synth_head(s) + " --color-primaries "@ + s.color_primaries.spec_str();
    let mid = " --transfer-characteristics "@ + s.transfer_characteristics.spec_str();
    let tail = " --matrix-coefficients "@ + s.matrix_coefficients.spec_str() + " --color-range "@
        + s.color_range.spec_str();
    assert(spec_synth_params(s) =~= pre + mid + tail);
    lemma_concat_contains(pre, mid, tail);
}

/// The synthesised block names the matrix coefficients code.
proof fn lemma_synth_contains_mc(s: EncodingSettings)
    ensures
        contains_sub(
            spec_synth_params(s),
            " --matrix-coefficients "@ + s.matrix_coefficients.spec_str(),
        ),
{
    let pre = spec_synth_head(s) + " --color-primaries "@ + s.color_primaries.spec_str()
        + " --transfer-characteristics "@ + s.transfer_characteristics.spec_str();
    let mid = " --matrix-coefficients "@ + s.matrix_coefficients.spec_str();
    let tail = " --color-range "@ + s.color_range.spec_str();
    assert(spec_synth_params(s) =~= pre + mid + tail);
    lemma_concat_contains(pre, mid, tail);
}

/// The synthesised block names the colour range code.
proof fn lemma_synth_contains_cr(s: EncodingSettings)
    ensures
        contains_sub(spec_synth_params(s), " --color-range "@ + s.color_range.spec_str()),
{
    let pre = spec_synth_head(s) + " --color-primaries "@ + s.color_primaries.spec_str()
        + " --transfer-characteristics "@ + s.transfer_characteristics.spec_str()
        + " --matrix-coefficients "@ + s.matrix_coefficients.spec_str();
    let mid = " --color-range "@ + s.color_range.spec_str();
    let tail = Seq::<char>::empty();
    assert(spec_synth_params(s) =~= pre + mid + tail);
    lemma_concat_contains(pre, mid, tail);
}

/// With a set input and output and no custom parameter string, the built
/// argument list carries exactly one rate-control block — the forced `-v`
/// argument holding the synthesised parameters — and that block names all
/// four colour-description codes.
pub proof fn lemma_synthesized_rate_control(s: EncodingSettings)
    requires
        s.input_file@.len() > 0,
        s.output_file@.len() > 0,
        s.custom_encode_params@.len() == 0,
    ensures
        spec_args(s) == spec_head_args(s) + seq!["--force"@, "-v"@, spec_synth_params(s)]
            + spec_perf_args(s),
        contains_sub(spec_synth_params(s), " --color-primaries "@ + s.color_primaries.spec_str()),
        contains_sub(
            spec_synth_params(s),
            " --transfer-characteristics "@ + s.transfer_characteristics.spec_str(),
        ),
        contains_sub(
            spec_synth_params(s),
            " --matrix-coefficients "@ + s.matrix_coefficients.spec_str(),
        ),
        contains_sub(spec_synth_params(s), " --color-range "@ + s.color_range.spec_str()),
{
    assert(spec_args(s) =~= spec_head_args(s) + seq!["--force"@, "-v"@, spec_synth_params(s)]
        + spec_perf_args(s));
    lemma_synth_contains_cp(s);
    lemma_synth_contains_tc(s);
    lemma_synth_contains_mc(s);
    lemma_synth_contains_cr(s);
}

/// With a non-empty custom parameter string the rate-control block is the
/// custom string verbatim: no forcing flag and no synthesised parameter
/// string are emitted, so the block can only hold them if the custom string
/// itself spells them out.
pub proof fn lemma_custom_rate_control(s: EncodingSettings)
    requires
        s.custom_encode_params@.len() > 0,
    ensures
        spec_args(s) == spec_head_args(s) + seq!["-v"@, s.custom_encode_params@]
            + spec_perf_args(s),
        spec_rc_args(s) == seq!["-v"@, s.custom_encode_params@],
        s.custom_encode_params@ != "--force"@ ==> !spec_rc_args(s).contains("--force"@),
        s.custom_encode_params@ != spec_synth_params(s) ==> !spec_rc_args(s).contains(
            spec_synth_params(s),
        ),
{
    assert(spec_args(s) =~= spec_head_args(s) + seq!["-v"@, s.custom_encode_params@]
        + spec_perf_args(s));
    let rc = spec_rc_args(s);
    reveal_strlit("-v");
    reveal_strlit("--force");
    reveal_strlit("--tune 2 --keyint 1 --lp 2 --irefresh-type 2 --crf ");
    assert("-v"@.len() == 2);
    assert("--force"@.len() == 7);
    assert(spec_synth_params(s).len() >= "--tune 2 --keyint 1 --lp 2 --irefresh-type 2 --crf "@.len());
    if s.custom_encode_params@ != "--force"@ {
        assert forall|i: int| 0 <= i < rc.len() implies rc[i] != "--force"@ by {
            assert(rc[0] == "-v"@);
            assert(rc[1] == s.custom_encode_params@);
        }
    }
    if s.custom_encode_params@ != spec_synth_params(s) {
        assert forall|i: int| 0 <= i < rc.len() implies rc[i] != spec_synth_params(s) by {
            assert(rc[0] == "-v"@);
            assert(rc[1] == s.custom_encode_params@);
        }
    }
}

/// When exactly one side of the resolution is set, the resize section is
/// empty: the builder emits no `-f` flag and no scale argument for such a
/// record.
pub proof fn lemma_partial_resolution_no_scale(s: EncodingSettings)
    requires
        (s.width@.len() == 0) != (s.height@.len() == 0),
    ensures
        spec_scale_args(s) == Seq::<Seq<char>>::empty(),
        spec_args(s) == spec_io_args(s) + spec_fixed_args() + spec_concat_args(s)
            + spec_source_args(s) + spec_format_args(s) + spec_rc_args(s) + spec_perf_args(s),
{
    assert(spec_args(s) =~= spec_io_args(s) + spec_fixed_args() + spec_concat_args(s)
        + spec_source_args(s) + spec_format_args(s) + spec_rc_args(s) + spec_perf_args(s));
}

} // verus!

