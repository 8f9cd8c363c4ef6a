//! The fixed enumerations of the settings record, each with the exact text it
//! contributes to the orchestrator's command line: a display name for the
//! source library, a pixel-format name, and the numeric wire codes of the
//! four colour-description options.

use vstd::prelude::*;

verus! {

/// Method the orchestrator uses to extract exact frame ranges from the input.
#[derive(Clone, Copy, PartialEq, Eq, Structural, Debug)]
pub enum SourceLibrary {
    BestSource,
    FFMS2,
    LSMASH,
}

impl SourceLibrary {
    /// Display name of the variant.
    pub open spec fn spec_str(self) -> Seq<char> {
        match self {
            SourceLibrary::BestSource => "BestSource"@,
            SourceLibrary::FFMS2 => "FFMS2"@,
            SourceLibrary::LSMASH => "L-SMASH"@,
        }
    }

    /// Lower-cased form of the display name, as the `-m` flag wants it.
    pub open spec fn spec_cli_name(self) -> Seq<char> {
        match self {
            SourceLibrary::BestSource => "bestsource"@,
            SourceLibrary::FFMS2 => "ffms2"@,
            SourceLibrary::LSMASH => "l-smash"@,
        }
    }

    pub fn as_str(&self) -> (r: &'static str)
        ensures
            r@ == self.spec_str(),
    {
        match self {
            SourceLibrary::BestSource => "BestSource",
            SourceLibrary::FFMS2 => "FFMS2",
            SourceLibrary::LSMASH => "L-SMASH",
        }
    }

    /// The display name lower-cased, passed to the orchestrator's `-m` flag.
    pub fn cli_name(&self) -> (r: &'static str)
        ensures
            r@ == self.spec_cli_name(),
    {
        match self {
            SourceLibrary::BestSource => "bestsource",
            SourceLibrary::FFMS2 => "ffms2",
            SourceLibrary::LSMASH => "l-smash",
        }
    }
}

impl Default for SourceLibrary {
    fn default() -> (r: Self)
        ensures
            r == SourceLibrary::BestSource,
    {
        SourceLibrary::BestSource
    }
}

/// FFmpeg pixel format of the encode.
#[derive(Clone, Copy, PartialEq, Eq, Structural, Debug)]
pub enum PixelFormat {
    Yuv420p,
    Yuv420p10le,
}

impl PixelFormat {
    pub open spec fn spec_str(self) -> Seq<char> {
        match self {
            PixelFormat::Yuv420p => "yuv420p"@,
            PixelFormat::Yuv420p10le => "yuv420p10le"@,
        }
    }

    pub fn as_str(&self) -> (r: &'static str)
        ensures
            r@ == self.spec_str(),
    {
        match self {
            PixelFormat::Yuv420p => "yuv420p",
            PixelFormat::Yuv420p10le => "yuv420p10le",
        }
    }
}

impl Default for PixelFormat {
    fn default() -> (r: Self)
        ensures
            r == PixelFormat::Yuv420p10le,
    {
        PixelFormat::Yuv420p10le
    }
}

/// Colour primaries, rendered as the encoder's numeric code.
#[derive(Clone, Copy, PartialEq, Eq, Structural, Debug)]
pub enum ColorPrimaries {
    /// BT.709
    Bt709,
    /// Unspecified, the default
    Unspecified,
    /// BT.470 System M (historical)
    Bt470m,
    /// BT.470 System B, G (historical)
    Bt470bg,
    /// BT.601
    Bt601,
    /// SMPTE 240
    Smpte240,
    /// Generic film (colour filters using illuminant C)
    Film,
    /// BT.2020, BT.2100
    Bt2020,
    /// SMPTE 428 (CIE 1921 XYZ)
    Xyz,
    /// SMPTE RP 431-2
    Smpte431,
    /// SMPTE EG 432-1
    Smpte432,
    /// EBU Tech. 3213-E
    Ebu3213,
}

impl ColorPrimaries {
    pub open spec fn spec_str(self) -> Seq<char> {
        match self {
            ColorPrimaries::Bt709 => "1"@,
            ColorPrimaries::Unspecified => "2"@,
            ColorPrimaries::Bt470m => "4"@,
            ColorPrimaries::Bt470bg => "5"@,
            ColorPrimaries::Bt601 => "6"@,
            ColorPrimaries::Smpte240 => "7"@,
            ColorPrimaries::Film => "8"@,
            ColorPrimaries::Bt2020 => "9"@,
            ColorPrimaries::Xyz => "10"@,
            ColorPrimaries::Smpte431 => "11"@,
            ColorPrimaries::Smpte432 => "12"@,
            ColorPrimaries::Ebu3213 => "22"@,
        }
    }

    pub fn as_str(&self) -> (r: &'static str)
        ensures
            r@ == self.spec_str(),
    {
        match self {
            ColorPrimaries::Bt709 => "1",
            ColorPrimaries::Unspecified => "2",
            ColorPrimaries::Bt470m => "4",
            ColorPrimaries::Bt470bg => "5",
            ColorPrimaries::Bt601 => "6",
            ColorPrimaries::Smpte240 => "7",
            ColorPrimaries::Film => "8",
            ColorPrimaries::Bt2020 => "9",
            ColorPrimaries::Xyz => "10",
            ColorPrimaries::Smpte431 => "11",
            ColorPrimaries::Smpte432 => "12",
            ColorPrimaries::Ebu3213 => "22",
        }
    }
}

impl Default for ColorPrimaries {
    fn default() -> (r: Self)
        ensures
            r == ColorPrimaries::Unspecified,
    {
        ColorPrimaries::Unspecified
    }
}

/// Matrix coefficients, rendered as the encoder's numeric code.
#[derive(Clone, Copy, PartialEq, Eq, Structural, Debug)]
pub enum MatrixCoefficients {
    /// Identity matrix
    Identity,
    /// BT.709
    Bt709,
    /// Unspecified, the default
    Unspecified,
    /// US FCC 73.628
    Fcc,
    /// BT.470 System B, G (historical)
    Bt470bg,
    /// BT.601
    Bt601,
    /// SMPTE 240 M
    Smpte240,
    /// YCgCo
    Ycgco,
    /// BT.2020 non-constant luminance, BT.2100 YCbCr
    Bt2020Ncl,
    /// BT.2020 constant luminance
    Bt2020Cl,
    /// SMPTE ST 2085 YDzDx
    Smpte2085,
    /// Chromaticity-derived non-constant luminance
    ChromaNcl,
    /// Chromaticity-derived constant luminance
    ChromaCl,
    /// BT.2100 ICtCp
    Ictcp,
}

impl MatrixCoefficients {
    pub open spec fn spec_str(self) -> Seq<char> {
        match self {
            MatrixCoefficients::Identity => "0"@,
            MatrixCoefficients::Bt709 => "1"@,
            MatrixCoefficients::Unspecified => "2"@,
            MatrixCoefficients::Fcc => "4"@,
            MatrixCoefficients::Bt470bg => "5"@,
            MatrixCoefficients::Bt601 => "6"@,
            MatrixCoefficients::Smpte240 => "7"@,
            MatrixCoefficients::Ycgco => "8"@,
            MatrixCoefficients::Bt2020Ncl => "9"@,
            MatrixCoefficients::Bt2020Cl => "10"@,
            MatrixCoefficients::Smpte2085 => "11"@,
            MatrixCoefficients::ChromaNcl => "12"@,
            MatrixCoefficients::ChromaCl => "13"@,
            MatrixCoefficients::Ictcp => "14"@,
        }
    }

    pub fn as_str(&self) -> (r: &'static str)
        ensures
            r@ == self.spec_str(),
    {
        match self {
            MatrixCoefficients::Identity => "0",
            MatrixCoefficients::Bt709 => "1",
            MatrixCoefficients::Unspecified => "2",
            MatrixCoefficients::Fcc => "4",
            MatrixCoefficients::Bt470bg => "5",
            MatrixCoefficients::Bt601 => "6",
            MatrixCoefficients::Smpte240 => "7",
            MatrixCoefficients::Ycgco => "8",
            MatrixCoefficients::Bt2020Ncl => "9",
            MatrixCoefficients::Bt2020Cl => "10",
            MatrixCoefficients::Smpte2085 => "11",
            MatrixCoefficients::ChromaNcl => "12",
            MatrixCoefficients::ChromaCl => "13",
            MatrixCoefficients::Ictcp => "14",
        }
    }
}

impl Default for MatrixCoefficients {
    fn default() -> (r: Self)
        ensures
            r == MatrixCoefficients::Unspecified,
    {
        MatrixCoefficients::Unspecified
    }
}

/// Transfer characteristics, rendered as the encoder's numeric code.
#[derive(Clone, Copy, PartialEq, Eq, Structural, Debug)]
pub enum TransferCharacteristics {
    /// BT.709
    Bt709,
    /// Unspecified, the default
    Unspecified,
    /// BT.470 System M (historical)
    Bt470m,
    /// BT.470 System B, G (historical)
    Bt470bg,
    /// BT.601
    Bt601,
    /// SMPTE 240 M
    Smpte240,
    /// Linear
    Linear,
    /// Logarithmic (100 : 1 range)
    Log100,
    /// Logarithmic (100 * Sqrt(10) : 1 range)
    Log100Sqrt10,
    /// IEC 61966-2-4
    Iec61966,
    /// BT.1361
    Bt1361,
    /// sRGB or sYCC
    Srgb,
    /// BT.2020 10-bit systems
    Bt202010,
    /// BT.2020 12-bit systems
    Bt202012,
    /// SMPTE ST 2084, ITU BT.2100 PQ
    Smpte2084,
    /// SMPTE ST 428
    Smpte428,
    /// BT.2100 HLG, ARIB STD-B67
    Hlg,
}

impl TransferCharacteristics {
    pub open spec fn spec_str(self) -> Seq<char> {
        match self {
            TransferCharacteristics::Bt709 => "1"@,
            TransferCharacteristics::Unspecified => "2"@,
            TransferCharacteristics::Bt470m => "4"@,
            TransferCharacteristics::Bt470bg => "5"@,
            TransferCharacteristics::Bt601 => "6"@,
            TransferCharacteristics::Smpte240 => "7"@,
            TransferCharacteristics::Linear => "8"@,
            TransferCharacteristics::Log100 => "9"@,
            TransferCharacteristics::Log100Sqrt10 => "10"@,
            TransferCharacteristics::Iec61966 => "11"@,
            TransferCharacteristics::Bt1361 => "12"@,
            TransferCharacteristics::Srgb => "13"@,
            TransferCharacteristics::Bt202010 => "14"@,
            TransferCharacteristics::Bt202012 => "15"@,
            TransferCharacteristics::Smpte2084 => "16"@,
            TransferCharacteristics::Smpte428 => "17"@,
            TransferCharacteristics::Hlg => "18"@,
        }
    }

    pub fn as_str(&self) -> (r: &'static str)
        ensures
            r@ == self.spec_str(),
    {
        match self {
            TransferCharacteristics::Bt709 => "1",
            TransferCharacteristics::Unspecified => "2",
            TransferCharacteristics::Bt470m => "4",
            TransferCharacteristics::Bt470bg => "5",
            TransferCharacteristics::Bt601 => "6",
            TransferCharacteristics::Smpte240 => "7",
            TransferCharacteristics::Linear => "8",
            TransferCharacteristics::Log100 => "9",
            TransferCharacteristics::Log100Sqrt10 => "10",
            TransferCharacteristics::Iec61966 => "11",
            TransferCharacteristics::Bt1361 => "12",
            TransferCharacteristics::Srgb => "13",
            TransferCharacteristics::Bt202010 => "14",
            TransferCharacteristics::Bt202012 => "15",
            TransferCharacteristics::Smpte2084 => "16",
            TransferCharacteristics::Smpte428 => "17",
            TransferCharacteristics::Hlg => "18",
        }
    }
}

impl Default for TransferCharacteristics {
    fn default() -> (r: Self)
        ensures
            r == TransferCharacteristics::Unspecified,
    {
        TransferCharacteristics::Unspecified
    }
}

/// Colour range, rendered as the encoder's numeric code.
#[derive(Clone, Copy, PartialEq, Eq, Structural, Debug)]
pub enum ColorRange {
    /// Studio swing, the default
    Studio,
    /// Full swing
    Full,
}

impl ColorRange {
    pub open spec fn spec_str(self) -> Seq<char> {
        match self {
            ColorRange::Studio => "0"@,
            ColorRange::Full => "1"@,
        }
    }

    pub fn as_str(&self) -> (r: &'static str)
        ensures
            r@ == self.spec_str(),
    {
        match self {
            ColorRange::Studio => "0",
            ColorRange::Full => "1",
        }
    }
}

impl Default for ColorRange {
    fn default() -> (r: Self)
        ensures
            r == ColorRange::Studio,
    {
        ColorRange::Studio
    }
}

} // verus!
