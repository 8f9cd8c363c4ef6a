//! The flat settings record describing one encode job, the serialisable
//! subset of it that a preset file carries, and the configuration checks a
//! caller runs before starting a job.

use vstd::prelude::*;
use vstd::string::StringExecFns;
use crate::models::ColorPrimaries;
use crate::models::ColorRange;
use crate::models::MatrixCoefficients;
use crate::models::PixelFormat;
use crate::models::SourceLibrary;
use crate::models::TransferCharacteristics;

verus! {

/// One encode job's form state, immutable at use time. Empty strings mean
/// "not set". The CRF value is held in quarter steps, so `108` stands for a
/// CRF of `27`; the preset is the encoder's integer speed preset.
pub struct EncodingSettings {
    /// Path override for the orchestrator binary; empty means "use the
    /// fixed binary name".
    pub av1an_verbosity_path: String,
    pub input_file: String,
    pub output_file: String,
    pub scenes_file: String,
    pub zones_file: String,
    pub source_library: SourceLibrary,
    /// Output width in pixels, as entered; empty means "no resize".
    pub width: String,
    /// Output height in pixels, as entered; empty means "no resize".
    pub height: String,
    pub output_pixel_format: PixelFormat,
    pub color_primaries: ColorPrimaries,
    pub matrix_coefficients: MatrixCoefficients,
    pub transfer_characteristics: TransferCharacteristics,
    pub color_range: ColorRange,
    /// Concatenation method; empty means "use the default".
    pub file_concatenation: String,
    /// Encoder speed preset, `0` to `13`.
    pub preset: u8,
    /// Constant rate factor in quarter steps, `0` to `280`.
    pub crf_quarters: u16,
    /// Synthetic film-grain strength, as entered.
    pub synthetic_grain: String,
    /// When non-empty, replaces the whole synthesised rate-control block.
    pub custom_encode_params: String,
    /// Thread pinning value, passed through as given; empty means "let the
    /// operating system schedule".
    pub thread_affinity: String,
    /// Worker count, passed through as given; empty means "let the
    /// orchestrator decide".
    pub workers: String,
}

impl EncodingSettings {
    /// The range limits the form keeps the numeric rate-control fields in.
    pub open spec fn wf(self) -> bool {
        self.preset <= 13 && self.crf_quarters <= 280
    }
}

impl Default for EncodingSettings {
    /// A fresh form: default enumeration choices, a 1920 by 1080 resize,
    /// preset 4, CRF 27, no grain, and everything else unset. Callers that
    /// can probe the machine may fill in a worker count afterwards.
    fn default() -> (r: Self)
        ensures
            r.av1an_verbosity_path@ == Seq::<char>::empty(),
            r.input_file@ == Seq::<char>::empty(),
            r.output_file@ == Seq::<char>::empty(),
            r.scenes_file@ == Seq::<char>::empty(),
            r.zones_file@ == Seq::<char>::empty(),
            r.source_library == SourceLibrary::BestSource,
            r.width@ == "1920"@,
            r.height@ == "1080"@,
            r.output_pixel_format == PixelFormat::Yuv420p10le,
            r.color_primaries == ColorPrimaries::Unspecified,
            r.matrix_coefficients == MatrixCoefficients::Unspecified,
            r.transfer_characteristics == TransferCharacteristics::Unspecified,
            r.color_range == ColorRange::Studio,
            r.file_concatenation@ == Seq::<char>::empty(),
            r.preset == 4,
            r.crf_quarters == 108,
            r.synthetic_grain@ == "0"@,
            r.custom_encode_params@ == Seq::<char>::empty(),
            r.thread_affinity@ == Seq::<char>::empty(),
            r.workers@ == Seq::<char>::empty(),
            r.wf(),
    {
        EncodingSettings {
            av1an_verbosity_path: String::new(),
            input_file: String::new(),
            output_file: String::new(),
            scenes_file: String::new(),
            zones_file: String::new(),
            source_library: SourceLibrary::BestSource,
            width: String::from_str("1920"),
            height: String::from_str("1080"),
            output_pixel_format: PixelFormat::Yuv420p10le,
            color_primaries: ColorPrimaries::Unspecified,
            matrix_coefficients: MatrixCoefficients::Unspecified,
            transfer_characteristics: TransferCharacteristics::Unspecified,
            color_range: ColorRange::Studio,
            file_concatenation: String::new(),
            preset: 4,
            crf_quarters: 108,
            synthetic_grain: String::from_str("0"),
            custom_encode_params: String::new(),
            thread_affinity: String::new(),
            workers: String::new(),
        }
    }
}

/// The serialisable subset of the settings: everything but the path fields
/// and the performance fields, which are session-only.
pub struct Preset {
    pub source_library: SourceLibrary,
    pub width: String,
    pub height: String,
    pub output_pixel_format: PixelFormat,
    pub color_primaries: ColorPrimaries,
    pub matrix_coefficients: MatrixCoefficients,
    pub transfer_characteristics: TransferCharacteristics,
    pub color_range: ColorRange,
    pub file_concatenation: String,
    pub preset: u8,
    pub crf_quarters: u16,
    pub synthetic_grain: String,
    pub custom_encode_params: String,
}

impl EncodingSettings {
    /// The preset record that saving this form writes out: the non-path
    /// fields, copied.
    pub fn to_preset(&self) -> (p: Preset)
        ensures
            p.source_library == self.source_library,
            p.width@ == self.width@,
            p.height@ == self.height@,
            p.output_pixel_format == self.output_pixel_format,
            p.color_primaries == self.color_primaries,
            p.matrix_coefficients == self.matrix_coefficients,
            p.transfer_characteristics == self.transfer_characteristics,
            p.color_range == self.color_range,
            p.file_concatenation@ == self.file_concatenation@,
            p.preset == self.preset,
            p.crf_quarters == self.crf_quarters,
            p.synthetic_grain@ == self.synthetic_grain@,
            p.custom_encode_params@ == self.custom_encode_params@,
    {
        Preset {
            source_library: self.source_library,
            width: self.width.clone(),
            height: self.height.clone(),
            output_pixel_format: self.output_pixel_format,
            color_primaries: self.color_primaries,
            matrix_coefficients: self.matrix_coefficients,
            transfer_characteristics: self.transfer_characteristics,
            color_range: self.color_range,
            file_concatenation: self.file_concatenation.clone(),
            preset: self.preset,
            crf_quarters: self.crf_quarters,
            synthetic_grain: self.synthetic_grain.clone(),
            custom_encode_params: self.custom_encode_params.clone(),
        }
    }

    /// Overwrites the non-path fields from a loaded preset; the path fields
    /// and the performance fields keep their session values.
    pub fn apply_preset(&mut self, p: &Preset)
        ensures
            final(self).source_library == p.source_library,
            final(self).width@ == p.width@,
            final(self).height@ == p.height@,
            final(self).output_pixel_format == p.output_pixel_format,
            final(self).color_primaries == p.color_primaries,
            final(self).matrix_coefficients == p.matrix_coefficients,
            final(self).transfer_characteristics == p.transfer_characteristics,
            final(self).color_range == p.color_range,
            final(self).file_concatenation@ == p.file_concatenation@,
            final(self).preset == p.preset,
            final(self).crf_quarters == p.crf_quarters,
            final(self).synthetic_grain@ == p.synthetic_grain@,
            final(self).custom_encode_params@ == p.custom_encode_params@,
            final(self).av1an_verbosity_path == old(self).av1an_verbosity_path,
            final(self).input_file == old(self).input_file,
            final(self).output_file == old(self).output_file,
            final(self).scenes_file == old(self).scenes_file,
            final(self).zones_file == old(self).zones_file,
            final(self).thread_affinity == old(self).thread_affinity,
            final(self).workers == old(self).workers,
    {
        self.source_library = p.source_library;
        self.width = p.width.clone();
        self.height = p.height.clone();
        self.output_pixel_format = p.output_pixel_format;
        self.color_primaries = p.color_primaries;
        self.matrix_coefficients = p.matrix_coefficients;
        self.transfer_characteristics = p.transfer_characteristics;
        self.color_range = p.color_range;
        self.file_concatenation = p.file_concatenation.clone();
        self.preset = p.preset;
        self.crf_quarters = p.crf_quarters;
        self.synthetic_grain = p.synthetic_grain.clone();
        self.custom_encode_params = p.custom_encode_params.clone();
    }
}

/// One configuration problem found before a job starts. A missing input or
/// output file keeps the job from starting; a half-set resolution only drops
/// the resize flag, so it is surfaced as a warning.
#[derive(Clone, Copy, PartialEq, Eq, Structural, Debug)]
pub enum ConfigIssue {
    MissingInput,
    MissingOutput,
    PartialResolution,
}

/// The issues a settings record has, in a fixed order.
pub open spec fn spec_issues(s: EncodingSettings) -> Seq<ConfigIssue> {
    (if s.input_file@.len() == 0 {
        seq![ConfigIssue::MissingInput]
    } else {
        Seq::<ConfigIssue>::empty()
    }) + (if s.output_file@.len() == 0 {
        seq![ConfigIssue::MissingOutput]
    } else {
        Seq::<ConfigIssue>::empty()
    }) + (if (s.width@.len() == 0) != (s.height@.len() == 0) {
        seq![ConfigIssue::PartialResolution]
    } else {
        Seq::<ConfigIssue>::empty()
    })
}

impl EncodingSettings {
    /// Every configuration problem of this record, in a fixed order: missing
    /// input, missing output, then a resolution of which only one side is
    /// set.
    pub fn validate(&self) -> (r: Vec<ConfigIssue>)
        ensures
            r@ == spec_issues(*self),
    {
        let mut v: Vec<ConfigIssue> = Vec::new();
        if self.input_file.as_str().is_empty() {
            v.push(ConfigIssue::MissingInput);
        }
        if self.output_file.as_str().is_empty() {
            v.push(ConfigIssue::MissingOutput);
        }
        let w_empty = self.width.as_str().is_empty();
        let h_empty = self.height.as_str().is_empty();
        if w_empty != h_empty {
            v.push(ConfigIssue::PartialResolution);
        }
        proof {
            assert(v@ =~= spec_issues(*self));
        }
        v
    }

    /// Whether the job may start at all: both mandatory paths are set.
    pub fn can_start(&self) -> (r: bool)
        ensures
            r == (self.input_file@.len() > 0 && self.output_file@.len() > 0),
    {
        !self.input_file.as_str().is_empty() && !self.output_file.as_str().is_empty()
    }
}

} // verus!
