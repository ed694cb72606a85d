use lcms2_sys::flags::{FLAGS_GRIDPOINTS, FLAGS_NOCACHE, FLAGS_NODEFAULTRESOURCEDEF, SAMPLER_INSPECT};
use lcms2_sys::records::{DateTimeNumber, EncodedXYZNumber, ICCData, ProfileID};
use lcms2_sys::signature::{
    lcmsSignature, BlueMatrixColumnTag, MagicNumber, RedMatrixColumnTag,
};
use lcms2_sys::{
    ColorSpaceSignature, IlluminantType, InfoType, Intent, ProfileClassSignature, SpotShape,
    StageLoc, Surround, TagSignature, TagTypeSignature,
};

#[test]
fn gridpoints_take_the_low_byte_into_bits_16_to_24() {
    assert_eq!(0, FLAGS_GRIDPOINTS(0));
    assert_eq!(33 << 16, FLAGS_GRIDPOINTS(33));
    assert_eq!(0x00FF_0000, FLAGS_GRIDPOINTS(255));
    assert_eq!(0, FLAGS_GRIDPOINTS(256));
    assert_eq!(0x0012_0000, FLAGS_GRIDPOINTS(0x1234_5612));
    assert_eq!(0x00FF_0000, FLAGS_GRIDPOINTS(u32::MAX));
    assert_eq!(0, FLAGS_GRIDPOINTS(17) & FLAGS_NOCACHE);
    assert_eq!(FLAGS_NODEFAULTRESOURCEDEF, SAMPLER_INSPECT);
}

#[test]
fn signatures_spell_their_four_characters() {
    assert_eq!(u32::from_be_bytes(*b"acsp"), MagicNumber);
    assert_eq!(u32::from_be_bytes(*b"lcms"), lcmsSignature);
    assert_eq!(u32::from_be_bytes(*b"A2B0"), TagSignature::AToB0Tag.code());
    assert_eq!(u32::from_be_bytes(*b"desc"), TagSignature::ProfileDescriptionTag.code());
    assert_eq!(u32::from_be_bytes(*b"curv"), TagTypeSignature::CurveType.code());
    assert_eq!(u32::from_be_bytes(*b"RGB "), ColorSpaceSignature::RgbData.code());
    assert_eq!(u32::from_be_bytes(*b"Lab "), ColorSpaceSignature::LabData.code());
    assert_eq!(u32::from_be_bytes(*b"mntr"), ProfileClassSignature::DisplayClass.code());
    assert_eq!(1296581426, TagSignature::MHC2Tag.code());
    assert_eq!(TagSignature::BlueColorantTag, BlueMatrixColumnTag);
    assert_eq!(u32::from_be_bytes(*b"rXYZ"), RedMatrixColumnTag.code());
}

#[test]
fn numbered_enumerations_keep_their_codes() {
    assert_eq!(0, Intent::Perceptual.code());
    assert_eq!(3, Intent::AbsoluteColorimetric.code());
    assert_eq!(10, Intent::PreserveKOnlyPerceptual.code());
    assert_eq!(15, Intent::PreserveKPlaneSaturation.code());
    assert_eq!(1, IlluminantType::D50.code());
    assert_eq!(8, IlluminantType::F8.code());
    assert_eq!(4, Surround::Cutsheet.code());
    assert_eq!(1, StageLoc::AT_END.code());
    assert_eq!(7, SpotShape::CROSS.code());
    assert_eq!(3, InfoType::Copyright.code());
}

#[test]
fn default_records_are_zero() {
    let d = DateTimeNumber::default();
    assert_eq!(
        DateTimeNumber { year: 0, month: 0, day: 0, hours: 0, minutes: 0, seconds: 0 },
        d
    );
    assert_eq!(EncodedXYZNumber { X: 0, Y: 0, Z: 0 }, EncodedXYZNumber::default());
    assert_eq!([0u32; 4], ProfileID::default().ID32);
    let data = ICCData::default();
    assert_eq!((0, 0, [0u8]), (data.len, data.flag, data.data));
}
