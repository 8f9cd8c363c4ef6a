use av1studio::models::ColorPrimaries;
use av1studio::models::ColorRange;
use av1studio::models::MatrixCoefficients;
use av1studio::models::PixelFormat;
use av1studio::models::SourceLibrary;
use av1studio::models::TransferCharacteristics;

#[test]
fn source_library_names() {
    assert_eq!(SourceLibrary::BestSource.as_str(), "BestSource");
    assert_eq!(SourceLibrary::FFMS2.as_str(), "FFMS2");
    assert_eq!(SourceLibrary::LSMASH.as_str(), "L-SMASH");
    assert_eq!(SourceLibrary::BestSource.cli_name(), "bestsource");
    assert_eq!(SourceLibrary::FFMS2.cli_name(), "ffms2");
    assert_eq!(SourceLibrary::LSMASH.cli_name(), "l-smash");
    assert_eq!(SourceLibrary::default(), SourceLibrary::BestSource);
}

#[test]
fn pixel_format_names() {
    assert_eq!(PixelFormat::Yuv420p.as_str(), "yuv420p");
    assert_eq!(PixelFormat::Yuv420p10le.as_str(), "yuv420p10le");
    assert_eq!(PixelFormat::default(), PixelFormat::Yuv420p10le);
}

#[test]
fn color_primaries_codes() {
    assert_eq!(ColorPrimaries::Bt709.as_str(), "1");
    assert_eq!(ColorPrimaries::Unspecified.as_str(), "2");
    assert_eq!(ColorPrimaries::Bt470m.as_str(), "4");
    assert_eq!(ColorPrimaries::Bt470bg.as_str(), "5");
    assert_eq!(ColorPrimaries::Bt601.as_str(), "6");
    assert_eq!(ColorPrimaries::Smpte240.as_str(), "7");
    assert_eq!(ColorPrimaries::Film.as_str(), "8");
    assert_eq!(ColorPrimaries::Bt2020.as_str(), "9");
    assert_eq!(ColorPrimaries::Xyz.as_str(), "10");
    assert_eq!(ColorPrimaries::Smpte431.as_str(), "11");
    assert_eq!(ColorPrimaries::Smpte432.as_str(), "12");
    assert_eq!(ColorPrimaries::Ebu3213.as_str(), "22");
    assert_eq!(ColorPrimaries::default(), ColorPrimaries::Unspecified);
}

#[test]
fn matrix_coefficients_codes() {
    assert_eq!(MatrixCoefficients::Identity.as_str(), "0");
    assert_eq!(MatrixCoefficients::Bt709.as_str(), "1");
    assert_eq!(MatrixCoefficients::Unspecified.as_str(), "2");
    assert_eq!(MatrixCoefficients::Fcc.as_str(), "4");
    assert_eq!(MatrixCoefficients::Bt470bg.as_str(), "5");
    assert_eq!(MatrixCoefficients::Bt601.as_str(), "6");
    assert_eq!(MatrixCoefficients::Smpte240.as_str(), "7");
    assert_eq!(MatrixCoefficients::Ycgco.as_str(), "8");
    assert_eq!(MatrixCoefficients::Bt2020Ncl.as_str(), "9");
    assert_eq!(MatrixCoefficients::Bt2020Cl.as_str(), "10");
    assert_eq!(MatrixCoefficients::Smpte2085.as_str(), "11");
    assert_eq!(MatrixCoefficients::ChromaNcl.as_str(), "12");
    assert_eq!(MatrixCoefficients::ChromaCl.as_str(), "13");
    assert_eq!(MatrixCoefficients::Ictcp.as_str(), "14");
    assert_eq!(MatrixCoefficients::default(), MatrixCoefficients::Unspecified);
}

#[test]
fn transfer_characteristics_codes() {
    assert_eq!(TransferCharacteristics::Bt709.as_str(), "1");
    assert_eq!(TransferCharacteristics::Unspecified.as_str(), "2");
    assert_eq!(TransferCharacteristics::Bt470m.as_str(), "4");
    assert_eq!(TransferCharacteristics::Bt470bg.as_str(), "5");
    assert_eq!(TransferCharacteristics::Bt601.as_str(), "6");
    assert_eq!(TransferCharacteristics::Smpte240.as_str(), "7");
    assert_eq!(TransferCharacteristics::Linear.as_str(), "8");
    assert_eq!(TransferCharacteristics::Log100.as_str(), "9");
    assert_eq!(TransferCharacteristics::Log100Sqrt10.as_str(), "10");
    assert_eq!(TransferCharacteristics::Iec61966.as_str(), "11");
    assert_eq!(TransferCharacteristics::Bt1361.as_str(), "12");
    assert_eq!(TransferCharacteristics::Srgb.as_str(), "13");
    assert_eq!(TransferCharacteristics::Bt202010.as_str(), "14");
    assert_eq!(TransferCharacteristics::Bt202012.as_str(), "15");
    assert_eq!(TransferCharacteristics::Smpte2084.as_str(), "16");
    assert_eq!(TransferCharacteristics::Smpte428.as_str(), "17");
    assert_eq!(TransferCharacteristics::Hlg.as_str(), "18");
    assert_eq!(TransferCharacteristics::default(), TransferCharacteristics::Unspecified);
}

#[test]
fn color_range_codes() {
    assert_eq!(ColorRange::Studio.as_str(), "0");
    assert_eq!(ColorRange::Full.as_str(), "1");
    assert_eq!(ColorRange::default(), ColorRange::Studio);
}
