//! ICC signatures: four-byte codes, written here as enumerations, each with
//! the code that the ICC specification assigns to it.
use vstd::prelude::*;

verus! {

/// A four-byte ICC signature code.
pub type Signature = u32;

/// A signed 15.16 fixed-point number.
pub type S15Fixed16Number = i32;

/// Magic number of every ICC profile header, `'acsp'`.
pub const MagicNumber: Signature = 0x61637370;
/// Creator signature of this engine, `'lcms'`.
pub const lcmsSignature: Signature = 0x6c636d73;

/// Perceptual reference medium gamut, `'prmg'`.
pub const PerceptualReferenceMediumGamut: u32 = 0x70726d67;

// Response-curve measurement units.
pub const StatusA: u32 = 0x53746141;
pub const StatusE: u32 = 0x53746145;
pub const StatusI: u32 = 0x53746149;
pub const StatusT: u32 = 0x53746154;
pub const StatusM: u32 = 0x5374614D;
pub const DN: u32 = 0x444E2020;
pub const DNP: u32 = 0x444E2050;
pub const DNN: u32 = 0x444E4E20;
pub const DNNP: u32 = 0x444E4E50;

// Device attributes, bits of the header's `attributes`.
pub const Reflective: u32 = 0;
pub const Transparency: u32 = 1;
pub const Glossy: u32 = 0;
pub const Matte: u32 = 2;

// Profile flags, bits of the header's `flags`.
pub const EmbeddedProfileFalse: u32 = 0x00000000;
pub const EmbeddedProfileTrue: u32 = 0x00000001;
pub const UseAnywhere: u32 = 0x00000000;
pub const UseWithEmbeddedDataOnly: u32 = 0x00000002;

/// The blue matrix column is the blue colorant tag.
pub const BlueMatrixColumnTag: TagSignature = TagSignature::BlueColorantTag;
/// The green matrix column is the green colorant tag.
pub const GreenMatrixColumnTag: TagSignature = TagSignature::GreenColorantTag;
/// The red matrix column is the red colorant tag.
pub const RedMatrixColumnTag: TagSignature = TagSignature::RedColorantTag;

/// Type signature of a tag's data.
#[derive(Debug, Copy, Clone, PartialEq, Eq, Structural, Hash)]
#[non_exhaustive]
pub enum TagTypeSignature {
    /// 'chrm'
    ChromaticityType,
    /// 'clro'
    ColorantOrderType,
    /// 'clrt'
    ColorantTableType,
    /// 'crdi'
    CrdInfoType,
    /// 'curv'
    CurveType,
    /// 'data'
    DataType,
    /// 'dict'
    DictType,
    /// 'dtim'
    DateTimeType,
    /// 'devs'
    DeviceSettingsType,
    /// 'mft2'
    Lut16Type,
    /// 'mft1'
    Lut8Type,
    /// 'mAB '
    LutAtoBType,
    /// 'mBA '
    LutBtoAType,
    /// 'meas'
    MeasurementType,
    /// 'mluc'
    MultiLocalizedUnicodeType,
    /// 'mpet'
    MultiProcessElementType,
    /// 'ncol' -- DEPRECATED!
    NamedColorType,
    /// 'ncl2'
    NamedColor2Type,
    /// 'para'
    ParametricCurveType,
    /// 'pseq'
    ProfileSequenceDescType,
    /// 'psid'
    ProfileSequenceIdType,
    /// 'rcs2'
    ResponseCurveSet16Type,
    /// 'sf32'
    S15Fixed16ArrayType,
    /// 'scrn'
    ScreeningType,
    /// 'sig '
    SignatureType,
    /// 'text'
    TextType,
    /// 'desc'
    TextDescriptionType,
    /// 'uf32'
    U16Fixed16ArrayType,
    /// 'bfd '
    UcrBgType,
    /// 'ui16'
    UInt16ArrayType,
    /// 'ui32'
    UInt32ArrayType,
    /// 'ui64'
    UInt64ArrayType,
    /// 'ui08'
    UInt8ArrayType,
    /// 'vcgt'
    VcgtType,
    /// 'view'
    ViewingConditionsType,
    /// 'XYZ '
    XYZType,
    /// `cicp`
    CicpType,
    MHC2Type,
}

impl TagTypeSignature {
    /// The ICC signature of each value.
    pub open spec fn spec_code(&self) -> u32 {
        match self {
            TagTypeSignature::ChromaticityType => 0x6368726D,
            TagTypeSignature::ColorantOrderType => 0x636C726F,
            TagTypeSignature::ColorantTableType => 0x636C7274,
            TagTypeSignature::CrdInfoType => 0x63726469,
            TagTypeSignature::CurveType => 0x63757276,
            TagTypeSignature::DataType => 0x64617461,
            TagTypeSignature::DictType => 0x64696374,
            TagTypeSignature::DateTimeType => 0x6474696D,
            TagTypeSignature::DeviceSettingsType => 0x64657673,
            TagTypeSignature::Lut16Type => 0x6d667432,
            TagTypeSignature::Lut8Type => 0x6d667431,
            TagTypeSignature::LutAtoBType => 0x6d414220,
            TagTypeSignature::LutBtoAType => 0x6d424120,
            TagTypeSignature::MeasurementType => 0x6D656173,
            TagTypeSignature::MultiLocalizedUnicodeType => 0x6D6C7563,
            TagTypeSignature::MultiProcessElementType => 0x6D706574,
            TagTypeSignature::NamedColorType => 0x6E636F6C,
            TagTypeSignature::NamedColor2Type => 0x6E636C32,
            TagTypeSignature::ParametricCurveType => 0x70617261,
            TagTypeSignature::ProfileSequenceDescType => 0x70736571,
            TagTypeSignature::ProfileSequenceIdType => 0x70736964,
            TagTypeSignature::ResponseCurveSet16Type => 0x72637332,
            TagTypeSignature::S15Fixed16ArrayType => 0x73663332,
            TagTypeSignature::ScreeningType => 0x7363726E,
            TagTypeSignature::SignatureType => 0x73696720,
            TagTypeSignature::TextType => 0x74657874,
            TagTypeSignature::TextDescriptionType => 0x64657363,
            TagTypeSignature::U16Fixed16ArrayType => 0x75663332,
            TagTypeSignature::UcrBgType => 0x62666420,
            TagTypeSignature::UInt16ArrayType => 0x75693136,
            TagTypeSignature::UInt32ArrayType => 0x75693332,
            TagTypeSignature::UInt64ArrayType => 0x75693634,
            TagTypeSignature::UInt8ArrayType => 0x75693038,
            TagTypeSignature::VcgtType => 0x76636774,
            TagTypeSignature::ViewingConditionsType => 0x76696577,
            TagTypeSignature::XYZType => 0x58595A20,
            TagTypeSignature::CicpType => 0x63696370,
            TagTypeSignature::MHC2Type => 1296581426,
        }
    }

    /// The ICC signature of this value.
    #[verifier::when_used_as_spec(spec_code)]
    pub fn code(&self) -> (r: u32)
        ensures
            r == self.spec_code(),
    {
        match self {
            TagTypeSignature::ChromaticityType => 0x6368726D,
            TagTypeSignature::ColorantOrderType => 0x636C726F,
            TagTypeSignature::ColorantTableType => 0x636C7274,
            TagTypeSignature::CrdInfoType => 0x63726469,
            TagTypeSignature::CurveType => 0x63757276,
            TagTypeSignature::DataType => 0x64617461,
            TagTypeSignature::DictType => 0x64696374,
            TagTypeSignature::DateTimeType => 0x6474696D,
            TagTypeSignature::DeviceSettingsType => 0x64657673,
            TagTypeSignature::Lut16Type => 0x6d667432,
            TagTypeSignature::Lut8Type => 0x6d667431,
            TagTypeSignature::LutAtoBType => 0x6d414220,
            TagTypeSignature::LutBtoAType => 0x6d424120,
            TagTypeSignature::MeasurementType => 0x6D656173,
            TagTypeSignature::MultiLocalizedUnicodeType => 0x6D6C7563,
            TagTypeSignature::MultiProcessElementType => 0x6D706574,
            TagTypeSignature::NamedColorType => 0x6E636F6C,
            TagTypeSignature::NamedColor2Type => 0x6E636C32,
            TagTypeSignature::ParametricCurveType => 0x70617261,
            TagTypeSignature::ProfileSequenceDescType => 0x70736571,
            TagTypeSignature::ProfileSequenceIdType => 0x70736964,
            TagTypeSignature::ResponseCurveSet16Type => 0x72637332,
            TagTypeSignature::S15Fixed16ArrayType => 0x73663332,
            TagTypeSignature::ScreeningType => 0x7363726E,
            TagTypeSignature::SignatureType => 0x73696720,
            TagTypeSignature::TextType => 0x74657874,
            TagTypeSignature::TextDescriptionType => 0x64657363,
            TagTypeSignature::U16Fixed16ArrayType => 0x75663332,
            TagTypeSignature::UcrBgType => 0x62666420,
            TagTypeSignature::UInt16ArrayType => 0x75693136,
            TagTypeSignature::UInt32ArrayType => 0x75693332,
            TagTypeSignature::UInt64ArrayType => 0x75693634,
            TagTypeSignature::UInt8ArrayType => 0x75693038,
            TagTypeSignature::VcgtType => 0x76636774,
            TagTypeSignature::ViewingConditionsType => 0x76696577,
            TagTypeSignature::XYZType => 0x58595A20,
            TagTypeSignature::CicpType => 0x63696370,
            TagTypeSignature::MHC2Type => 1296581426,
        }
    }
}

/// Signature of a tag in a profile's tag table.
#[derive(Debug, Copy, Clone, PartialEq, Eq, Structural, Hash)]
#[non_exhaustive]
pub enum TagSignature {
    /// 'A2B0'
    AToB0Tag,
    /// 'A2B1'
    AToB1Tag,
    /// 'A2B2'
    AToB2Tag,
    /// 'bXYZ'
    BlueColorantTag,
    /// 'bTRC'
    BlueTRCTag,
    /// 'B2A0'
    BToA0Tag,
    /// 'B2A1'
    BToA1Tag,
    /// 'B2A2'
    BToA2Tag,
    /// 'calt'
    CalibrationDateTimeTag,
    /// 'targ'
    CharTargetTag,
    /// 'chad'
    ChromaticAdaptationTag,
    /// 'chrm'
    ChromaticityTag,
    /// 'clro'
    ColorantOrderTag,
    /// 'clrt'
    ColorantTableTag,
    /// 'clot'
    ColorantTableOutTag,
    /// 'ciis'
    ColorimetricIntentImageStateTag,
    /// 'cprt'
    CopyrightTag,
    /// 'crdi'
    CrdInfoTag,
    /// 'data'
    DataTag,
    /// 'dtim'
    DateTimeTag,
    /// 'dmnd'
    DeviceMfgDescTag,
    /// 'dmdd'
    DeviceModelDescTag,
    /// 'devs'
    DeviceSettingsTag,
    /// 'D2B0'
    DToB0Tag,
    /// 'D2B1'
    DToB1Tag,
    /// 'D2B2'
    DToB2Tag,
    /// 'D2B3'
    DToB3Tag,
    /// 'B2D0'
    BToD0Tag,
    /// 'B2D1'
    BToD1Tag,
    /// 'B2D2'
    BToD2Tag,
    /// 'B2D3'
    BToD3Tag,
    /// 'gamt'
    GamutTag,
    /// 'kTRC'
    GrayTRCTag,
    /// 'gXYZ'
    GreenColorantTag,
    /// 'gTRC'
    GreenTRCTag,
    /// 'lumi'
    LuminanceTag,
    /// 'meas'
    MeasurementTag,
    /// 'bkpt'
    MediaBlackPointTag,
    /// 'wtpt'
    MediaWhitePointTag,
    /// 'ncol' // Deprecated by the ICC
    NamedColorTag,
    /// 'ncl2'
    NamedColor2Tag,
    /// 'resp'
    OutputResponseTag,
    /// 'rig0'
    PerceptualRenderingIntentGamutTag,
    /// 'pre0'
    Preview0Tag,
    /// 'pre1'
    Preview1Tag,
    /// 'pre2'
    Preview2Tag,
    /// 'desc'
    ProfileDescriptionTag,
    /// 'dscm'
    ProfileDescriptionMLTag,
    /// 'pseq'
    ProfileSequenceDescTag,
    /// 'psid'
    ProfileSequenceIdTag,
    /// 'psd0'
    Ps2CRD0Tag,
    /// 'psd1'
    Ps2CRD1Tag,
    /// 'psd2'
    Ps2CRD2Tag,
    /// 'psd3'
    Ps2CRD3Tag,
    /// 'ps2s'
    Ps2CSATag,
    /// 'ps2i'
    Ps2RenderingIntentTag,
    /// 'rXYZ'
    RedColorantTag,
    /// 'rTRC'
    RedTRCTag,
    /// 'rig2'
    SaturationRenderingIntentGamutTag,
    /// 'scrd'
    ScreeningDescTag,
    /// 'scrn'
    ScreeningTag,
    /// 'tech'
    TechnologyTag,
    /// 'bfd '
    UcrBgTag,
    /// 'vued'
    ViewingCondDescTag,
    /// 'view'
    ViewingConditionsTag,
    /// 'vcgt'
    VcgtTag,
    /// 'meta'
    MetaTag,
    /// 'arts'
    ArgyllArtsTag,
    /// `cicp`
    CicpTag,
    MHC2Tag,
}

impl TagSignature {
    /// The ICC signature of each value.
    pub open spec fn spec_code(&self) -> u32 {
        match self {
            TagSignature::AToB0Tag => 0x41324230,
            TagSignature::AToB1Tag => 0x41324231,
            TagSignature::AToB2Tag => 0x41324232,
            TagSignature::BlueColorantTag => 0x6258595A,
            TagSignature::BlueTRCTag => 0x62545243,
            TagSignature::BToA0Tag => 0x42324130,
            TagSignature::BToA1Tag => 0x42324131,
            TagSignature::BToA2Tag => 0x42324132,
            TagSignature::CalibrationDateTimeTag => 0x63616C74,
            TagSignature::CharTargetTag => 0x74617267,
            TagSignature::ChromaticAdaptationTag => 0x63686164,
            TagSignature::ChromaticityTag => 0x6368726D,
            TagSignature::ColorantOrderTag => 0x636C726F,
            TagSignature::ColorantTableTag => 0x636C7274,
            TagSignature::ColorantTableOutTag => 0x636C6F74,
            TagSignature::ColorimetricIntentImageStateTag => 0x63696973,
            TagSignature::CopyrightTag => 0x63707274,
            TagSignature::CrdInfoTag => 0x63726469,
            TagSignature::DataTag => 0x64617461,
            TagSignature::DateTimeTag => 0x6474696D,
            TagSignature::DeviceMfgDescTag => 0x646D6E64,
            TagSignature::DeviceModelDescTag => 0x646D6464,
            TagSignature::DeviceSettingsTag => 0x64657673,
            TagSignature::DToB0Tag => 0x44324230,
            TagSignature::DToB1Tag => 0x44324231,
            TagSignature::DToB2Tag => 0x44324232,
            TagSignature::DToB3Tag => 0x44324233,
            TagSignature::BToD0Tag => 0x42324430,
            TagSignature::BToD1Tag => 0x42324431,
            TagSignature::BToD2Tag => 0x42324432,
            TagSignature::BToD3Tag => 0x42324433,
            TagSignature::GamutTag => 0x67616D74,
            TagSignature::GrayTRCTag => 0x6b545243,
            TagSignature::GreenColorantTag => 0x6758595A,
            TagSignature::GreenTRCTag => 0x67545243,
            TagSignature::LuminanceTag => 0x6C756D69,
            TagSignature::MeasurementTag => 0x6D656173,
            TagSignature::MediaBlackPointTag => 0x626B7074,
            TagSignature::MediaWhitePointTag => 0x77747074,
            TagSignature::NamedColorTag => 0x6E636F6C,
            TagSignature::NamedColor2Tag => 0x6E636C32,
            TagSignature::OutputResponseTag => 0x72657370,
            TagSignature::PerceptualRenderingIntentGamutTag => 0x72696730,
            TagSignature::Preview0Tag => 0x70726530,
            TagSignature::Preview1Tag => 0x70726531,
            TagSignature::Preview2Tag => 0x70726532,
            TagSignature::ProfileDescriptionTag => 0x64657363,
            TagSignature::ProfileDescriptionMLTag => 0x6473636D,
            TagSignature::ProfileSequenceDescTag => 0x70736571,
            TagSignature::ProfileSequenceIdTag => 0x70736964,
            TagSignature::Ps2CRD0Tag => 0x70736430,
            TagSignature::Ps2CRD1Tag => 0x70736431,
            TagSignature::Ps2CRD2Tag => 0x70736432,
            TagSignature::Ps2CRD3Tag => 0x70736433,
            TagSignature::Ps2CSATag => 0x70733273,
            TagSignature::Ps2RenderingIntentTag => 0x70733269,
            TagSignature::RedColorantTag => 0x7258595A,
            TagSignature::RedTRCTag => 0x72545243,
            TagSignature::SaturationRenderingIntentGamutTag => 0x72696732,
            TagSignature::ScreeningDescTag => 0x73637264,
            TagSignature::ScreeningTag => 0x7363726E,
            TagSignature::TechnologyTag => 0x74656368,
            TagSignature::UcrBgTag => 0x62666420,
            TagSignature::ViewingCondDescTag => 0x76756564,
            TagSignature::ViewingConditionsTag => 0x76696577,
            TagSignature::VcgtTag => 0x76636774,
            TagSignature::MetaTag => 0x6D657461,
            TagSignature::ArgyllArtsTag => 0x61727473,
            TagSignature::CicpTag => 0x63696370,
            TagSignature::MHC2Tag => 1296581426,
        }
    }

    /// The ICC signature of this value.
    #[verifier::when_used_as_spec(spec_code)]
    pub fn code(&self) -> (r: u32)
        ensures
            r == self.spec_code(),
    {
        match self {
            TagSignature::AToB0Tag => 0x41324230,
            TagSignature::AToB1Tag => 0x41324231,
            TagSignature::AToB2Tag => 0x41324232,
            TagSignature::BlueColorantTag => 0x6258595A,
            TagSignature::BlueTRCTag => 0x62545243,
            TagSignature::BToA0Tag => 0x42324130,
            TagSignature::BToA1Tag => 0x42324131,
            TagSignature::BToA2Tag => 0x42324132,
            TagSignature::CalibrationDateTimeTag => 0x63616C74,
            TagSignature::CharTargetTag => 0x74617267,
            TagSignature::ChromaticAdaptationTag => 0x63686164,
            TagSignature::ChromaticityTag => 0x6368726D,
            TagSignature::ColorantOrderTag => 0x636C726F,
            TagSignature::ColorantTableTag => 0x636C7274,
            TagSignature::ColorantTableOutTag => 0x636C6F74,
            TagSignature::ColorimetricIntentImageStateTag => 0x63696973,
            TagSignature::CopyrightTag => 0x63707274,
            TagSignature::CrdInfoTag => 0x63726469,
            TagSignature::DataTag => 0x64617461,
            TagSignature::DateTimeTag => 0x6474696D,
            TagSignature::DeviceMfgDescTag => 0x646D6E64,
            TagSignature::DeviceModelDescTag => 0x646D6464,
            TagSignature::DeviceSettingsTag => 0x64657673,
            TagSignature::DToB0Tag => 0x44324230,
            TagSignature::DToB1Tag => 0x44324231,
            TagSignature::DToB2Tag => 0x44324232,
            TagSignature::DToB3Tag => 0x44324233,
            TagSignature::BToD0Tag => 0x42324430,
            TagSignature::BToD1Tag => 0x42324431,
            TagSignature::BToD2Tag => 0x42324432,
            TagSignature::BToD3Tag => 0x42324433,
            TagSignature::GamutTag => 0x67616D74,
            TagSignature::GrayTRCTag => 0x6b545243,
            TagSignature::GreenColorantTag => 0x6758595A,
            TagSignature::GreenTRCTag => 0x67545243,
            TagSignature::LuminanceTag => 0x6C756D69,
            TagSignature::MeasurementTag => 0x6D656173,
            TagSignature::MediaBlackPointTag => 0x626B7074,
            TagSignature::MediaWhitePointTag => 0x77747074,
            TagSignature::NamedColorTag => 0x6E636F6C,
            TagSignature::NamedColor2Tag => 0x6E636C32,
            TagSignature::OutputResponseTag => 0x72657370,
            TagSignature::PerceptualRenderingIntentGamutTag => 0x72696730,
            TagSignature::Preview0Tag => 0x70726530,
            TagSignature::Preview1Tag => 0x70726531,
            TagSignature::Preview2Tag => 0x70726532,
            TagSignature::ProfileDescriptionTag => 0x64657363,
            TagSignature::ProfileDescriptionMLTag => 0x6473636D,
            TagSignature::ProfileSequenceDescTag => 0x70736571,
            TagSignature::ProfileSequenceIdTag => 0x70736964,
            TagSignature::Ps2CRD0Tag => 0x70736430,
            TagSignature::Ps2CRD1Tag => 0x70736431,
            TagSignature::Ps2CRD2Tag => 0x70736432,
            TagSignature::Ps2CRD3Tag => 0x70736433,
            TagSignature::Ps2CSATag => 0x70733273,
            TagSignature::Ps2RenderingIntentTag => 0x70733269,
            TagSignature::RedColorantTag => 0x7258595A,
            TagSignature::RedTRCTag => 0x72545243,
            TagSignature::SaturationRenderingIntentGamutTag => 0x72696732,
            TagSignature::ScreeningDescTag => 0x73637264,
            TagSignature::ScreeningTag => 0x7363726E,
            TagSignature::TechnologyTag => 0x74656368,
            TagSignature::UcrBgTag => 0x62666420,
            TagSignature::ViewingCondDescTag => 0x76756564,
            TagSignature::ViewingConditionsTag => 0x76696577,
            TagSignature::VcgtTag => 0x76636774,
            TagSignature::MetaTag => 0x6D657461,
            TagSignature::ArgyllArtsTag => 0x61727473,
            TagSignature::CicpTag => 0x63696370,
            TagSignature::MHC2Tag => 1296581426,
        }
    }
}

/// Device technology of a profile.
#[derive(Debug, Copy, Clone, PartialEq, Eq, Structural, Hash)]
#[non_exhaustive]
pub enum TechnologySignature {
    /// 'dcam'
    DigitalCamera,
    /// 'fscn'
    FilmScanner,
    /// 'rscn'
    ReflectiveScanner,
    /// 'ijet'
    InkJetPrinter,
    /// 'twax'
    ThermalWaxPrinter,
    /// 'epho'
    ElectrophotographicPrinter,
    /// 'esta'
    ElectrostaticPrinter,
    /// 'dsub'
    DyeSublimationPrinter,
    /// 'rpho'
    PhotographicPaperPrinter,
    /// 'fprn'
    FilmWriter,
    /// 'vidm'
    VideoMonitor,
    /// 'vidc'
    VideoCamera,
    /// 'pjtv'
    ProjectionTelevision,
    /// 'CRT '
    CRTDisplay,
    /// 'PMD '
    PMDisplay,
    /// 'AMD '
    AMDisplay,
    /// 'KPCD'
    PhotoCD,
    /// 'imgs'
    PhotoImageSetter,
    /// 'grav'
    Gravure,
    /// 'offs'
    OffsetLithography,
    /// 'silk'
    Silkscreen,
    /// 'flex'
    Flexography,
    /// 'mpfs'
    MotionPictureFilmScanner,
    /// 'mpfr'
    MotionPictureFilmRecorder,
    /// 'dmpc'
    DigitalMotionPictureCamera,
    /// 'dcpj'
    DigitalCinemaProjector,
}

impl TechnologySignature {
    /// The ICC signature of each value.
    pub open spec fn spec_code(&self) -> u32 {
        match self {
            TechnologySignature::DigitalCamera => 0x6463616D,
            TechnologySignature::FilmScanner => 0x6673636E,
            TechnologySignature::ReflectiveScanner => 0x7273636E,
            TechnologySignature::InkJetPrinter => 0x696A6574,
            TechnologySignature::ThermalWaxPrinter => 0x74776178,
            TechnologySignature::ElectrophotographicPrinter => 0x6570686F,
            TechnologySignature::ElectrostaticPrinter => 0x65737461,
            TechnologySignature::DyeSublimationPrinter => 0x64737562,
            TechnologySignature::PhotographicPaperPrinter => 0x7270686F,
            TechnologySignature::FilmWriter => 0x6670726E,
            TechnologySignature::VideoMonitor => 0x7669646D,
            TechnologySignature::VideoCamera => 0x76696463,
            TechnologySignature::ProjectionTelevision => 0x706A7476,
            TechnologySignature::CRTDisplay => 0x43525420,
            TechnologySignature::PMDisplay => 0x504D4420,
            TechnologySignature::AMDisplay => 0x414D4420,
            TechnologySignature::PhotoCD => 0x4B504344,
            TechnologySignature::PhotoImageSetter => 0x696D6773,
            TechnologySignature::Gravure => 0x67726176,
            TechnologySignature::OffsetLithography => 0x6F666673,
            TechnologySignature::Silkscreen => 0x73696C6B,
            TechnologySignature::Flexography => 0x666C6578,
            TechnologySignature::MotionPictureFilmScanner => 0x6D706673,
            TechnologySignature::MotionPictureFilmRecorder => 0x6D706672,
            TechnologySignature::DigitalMotionPictureCamera => 0x646D7063,
            TechnologySignature::DigitalCinemaProjector => 0x64636A70,
        }
    }

    /// The ICC signature of this value.
    #[verifier::when_used_as_spec(spec_code)]
    pub fn code(&self) -> (r: u32)
        ensures
            r == self.spec_code(),
    {
        match self {
            TechnologySignature::DigitalCamera => 0x6463616D,
            TechnologySignature::FilmScanner => 0x6673636E,
            TechnologySignature::ReflectiveScanner => 0x7273636E,
            TechnologySignature::InkJetPrinter => 0x696A6574,
            TechnologySignature::ThermalWaxPrinter => 0x74776178,
            TechnologySignature::ElectrophotographicPrinter => 0x6570686F,
            TechnologySignature::ElectrostaticPrinter => 0x65737461,
            TechnologySignature::DyeSublimationPrinter => 0x64737562,
            TechnologySignature::PhotographicPaperPrinter => 0x7270686F,
            TechnologySignature::FilmWriter => 0x6670726E,
            TechnologySignature::VideoMonitor => 0x7669646D,
            TechnologySignature::VideoCamera => 0x76696463,
            TechnologySignature::ProjectionTelevision => 0x706A7476,
            TechnologySignature::CRTDisplay => 0x43525420,
            TechnologySignature::PMDisplay => 0x504D4420,
            TechnologySignature::AMDisplay => 0x414D4420,
            TechnologySignature::PhotoCD => 0x4B504344,
            TechnologySignature::PhotoImageSetter => 0x696D6773,
            TechnologySignature::Gravure => 0x67726176,
            TechnologySignature::OffsetLithography => 0x6F666673,
            TechnologySignature::Silkscreen => 0x73696C6B,
            TechnologySignature::Flexography => 0x666C6578,
            TechnologySignature::MotionPictureFilmScanner => 0x6D706673,
            TechnologySignature::MotionPictureFilmRecorder => 0x6D706672,
            TechnologySignature::DigitalMotionPictureCamera => 0x646D7063,
            TechnologySignature::DigitalCinemaProjector => 0x64636A70,
        }
    }
}

/// Colour space of a profile's data or connection space.
#[derive(Debug, Copy, Clone, PartialEq, Eq, Structural, Hash)]
#[non_exhaustive]
pub enum ColorSpaceSignature {
    /// 'XYZ '
    XYZData,
    /// 'Lab '
    LabData,
    /// 'Luv '
    LuvData,
    /// 'YCbr'
    YCbCrData,
    /// 'Yxy '
    YxyData,
    /// 'RGB '
    RgbData,
    /// 'GRAY'
    GrayData,
    /// 'HSV '
    HsvData,
    /// 'HLS '
    HlsData,
    /// 'CMYK'
    CmykData,
    /// 'CMY '
    CmyData,
    /// 'MCH1'
    MCH1Data,
    /// 'MCH2'
    MCH2Data,
    /// 'MCH3'
    MCH3Data,
    /// 'MCH4'
    MCH4Data,
    /// 'MCH5'
    MCH5Data,
    /// 'MCH6'
    MCH6Data,
    /// 'MCH7'
    MCH7Data,
    /// 'MCH8'
    MCH8Data,
    /// 'MCH9'
    MCH9Data,
    /// 'MCHA'
    MCHAData,
    /// 'MCHB'
    MCHBData,
    /// 'MCHC'
    MCHCData,
    /// 'MCHD'
    MCHDData,
    /// 'MCHE'
    MCHEData,
    /// 'MCHF'
    MCHFData,
    /// 'nmcl'
    NamedData,
    /// '1CLR'
    Sig1colorData,
    /// '2CLR'
    Sig2colorData,
    /// '3CLR'
    Sig3colorData,
    /// '4CLR'
    Sig4colorData,
    /// '5CLR'
    Sig5colorData,
    /// '6CLR'
    Sig6colorData,
    /// '7CLR'
    Sig7colorData,
    /// '8CLR'
    Sig8colorData,
    /// '9CLR'
    Sig9colorData,
    /// 'ACLR'
    Sig10colorData,
    /// 'BCLR'
    Sig11colorData,
    /// 'CCLR'
    Sig12colorData,
    /// 'DCLR'
    Sig13colorData,
    /// 'ECLR'
    Sig14colorData,
    /// 'FCLR'
    Sig15colorData,
    /// 'LuvK'
    LuvKData,
}

impl ColorSpaceSignature {
    /// The ICC signature of each value.
    pub open spec fn spec_code(&self) -> u32 {
        match self {
            ColorSpaceSignature::XYZData => 0x58595A20,
            ColorSpaceSignature::LabData => 0x4C616220,
            ColorSpaceSignature::LuvData => 0x4C757620,
            ColorSpaceSignature::YCbCrData => 0x59436272,
            ColorSpaceSignature::YxyData => 0x59787920,
            ColorSpaceSignature::RgbData => 0x52474220,
            ColorSpaceSignature::GrayData => 0x47524159,
            ColorSpaceSignature::HsvData => 0x48535620,
            ColorSpaceSignature::HlsData => 0x484C5320,
            ColorSpaceSignature::CmykData => 0x434D594B,
            ColorSpaceSignature::CmyData => 0x434D5920,
            ColorSpaceSignature::MCH1Data => 0x4D434831,
            ColorSpaceSignature::MCH2Data => 0x4D434832,
            ColorSpaceSignature::MCH3Data => 0x4D434833,
            ColorSpaceSignature::MCH4Data => 0x4D434834,
            ColorSpaceSignature::MCH5Data => 0x4D434835,
            ColorSpaceSignature::MCH6Data => 0x4D434836,
            ColorSpaceSignature::MCH7Data => 0x4D434837,
            ColorSpaceSignature::MCH8Data => 0x4D434838,
            ColorSpaceSignature::MCH9Data => 0x4D434839,
            ColorSpaceSignature::MCHAData => 0x4D434841,
            ColorSpaceSignature::MCHBData => 0x4D434842,
            ColorSpaceSignature::MCHCData => 0x4D434843,
            ColorSpaceSignature::MCHDData => 0x4D434844,
            ColorSpaceSignature::MCHEData => 0x4D434845,
            ColorSpaceSignature::MCHFData => 0x4D434846,
            ColorSpaceSignature::NamedData => 0x6e6d636c,
            ColorSpaceSignature::Sig1colorData => 0x31434C52,
            ColorSpaceSignature::Sig2colorData => 0x32434C52,
            ColorSpaceSignature::Sig3colorData => 0x33434C52,
            ColorSpaceSignature::Sig4colorData => 0x34434C52,
            ColorSpaceSignature::Sig5colorData => 0x35434C52,
            ColorSpaceSignature::Sig6colorData => 0x36434C52,
            ColorSpaceSignature::Sig7colorData => 0x37434C52,
            ColorSpaceSignature::Sig8colorData => 0x38434C52,
            ColorSpaceSignature::Sig9colorData => 0x39434C52,
            ColorSpaceSignature::Sig10colorData => 0x41434C52,
            ColorSpaceSignature::Sig11colorData => 0x42434C52,
            ColorSpaceSignature::Sig12colorData => 0x43434C52,
            ColorSpaceSignature::Sig13colorData => 0x44434C52,
            ColorSpaceSignature::Sig14colorData => 0x45434C52,
            ColorSpaceSignature::Sig15colorData => 0x46434C52,
            ColorSpaceSignature::LuvKData => 0x4C75764B,
        }
    }

    /// The ICC signature of this value.
    #[verifier::when_used_as_spec(spec_code)]
    pub fn code(&self) -> (r: u32)
        ensures
            r == self.spec_code(),
    {
        match self {
            ColorSpaceSignature::XYZData => 0x58595A20,
            ColorSpaceSignature::LabData => 0x4C616220,
            ColorSpaceSignature::LuvData => 0x4C757620,
            ColorSpaceSignature::YCbCrData => 0x59436272,
            ColorSpaceSignature::YxyData => 0x59787920,
            ColorSpaceSignature::RgbData => 0x52474220,
            ColorSpaceSignature::GrayData => 0x47524159,
            ColorSpaceSignature::HsvData => 0x48535620,
            ColorSpaceSignature::HlsData => 0x484C5320,
            ColorSpaceSignature::CmykData => 0x434D594B,
            ColorSpaceSignature::CmyData => 0x434D5920,
            ColorSpaceSignature::MCH1Data => 0x4D434831,
            ColorSpaceSignature::MCH2Data => 0x4D434832,
            ColorSpaceSignature::MCH3Data => 0x4D434833,
            ColorSpaceSignature::MCH4Data => 0x4D434834,
            ColorSpaceSignature::MCH5Data => 0x4D434835,
            ColorSpaceSignature::MCH6Data => 0x4D434836,
            ColorSpaceSignature::MCH7Data => 0x4D434837,
            ColorSpaceSignature::MCH8Data => 0x4D434838,
            ColorSpaceSignature::MCH9Data => 0x4D434839,
            ColorSpaceSignature::MCHAData => 0x4D434841,
            ColorSpaceSignature::MCHBData => 0x4D434842,
            ColorSpaceSignature::MCHCData => 0x4D434843,
            ColorSpaceSignature::MCHDData => 0x4D434844,
            ColorSpaceSignature::MCHEData => 0x4D434845,
            ColorSpaceSignature::MCHFData => 0x4D434846,
            ColorSpaceSignature::NamedData => 0x6e6d636c,
            ColorSpaceSignature::Sig1colorData => 0x31434C52,
            ColorSpaceSignature::Sig2colorData => 0x32434C52,
            ColorSpaceSignature::Sig3colorData => 0x33434C52,
            ColorSpaceSignature::Sig4colorData => 0x34434C52,
            ColorSpaceSignature::Sig5colorData => 0x35434C52,
            ColorSpaceSignature::Sig6colorData => 0x36434C52,
            ColorSpaceSignature::Sig7colorData => 0x37434C52,
            ColorSpaceSignature::Sig8colorData => 0x38434C52,
            ColorSpaceSignature::Sig9colorData => 0x39434C52,
            ColorSpaceSignature::Sig10colorData => 0x41434C52,
            ColorSpaceSignature::Sig11colorData => 0x42434C52,
            ColorSpaceSignature::Sig12colorData => 0x43434C52,
            ColorSpaceSignature::Sig13colorData => 0x44434C52,
            ColorSpaceSignature::Sig14colorData => 0x45434C52,
            ColorSpaceSignature::Sig15colorData => 0x46434C52,
            ColorSpaceSignature::LuvKData => 0x4C75764B,
        }
    }
}

/// Device class of a profile.
#[derive(Debug, Copy, Clone, PartialEq, Eq, Structural, Hash)]
#[non_exhaustive]
pub enum ProfileClassSignature {
    /// 'scnr'
    InputClass,
    /// 'mntr'
    DisplayClass,
    /// 'prtr'
    OutputClass,
    /// 'link'
    LinkClass,
    /// 'abst'
    AbstractClass,
    /// 'spac'
    ColorSpaceClass,
    /// 'nmcl'
    NamedColorClass,
}

impl ProfileClassSignature {
    /// The ICC signature of each value.
    pub open spec fn spec_code(&self) -> u32 {
        match self {
            ProfileClassSignature::InputClass => 0x73636E72,
            ProfileClassSignature::DisplayClass => 0x6D6E7472,
            ProfileClassSignature::OutputClass => 0x70727472,
            ProfileClassSignature::LinkClass => 0x6C696E6B,
            ProfileClassSignature::AbstractClass => 0x61627374,
            ProfileClassSignature::ColorSpaceClass => 0x73706163,
            ProfileClassSignature::NamedColorClass => 0x6e6d636c,
        }
    }

    /// The ICC signature of this value.
    #[verifier::when_used_as_spec(spec_code)]
    pub fn code(&self) -> (r: u32)
        ensures
            r == self.spec_code(),
    {
        match self {
            ProfileClassSignature::InputClass => 0x73636E72,
            ProfileClassSignature::DisplayClass => 0x6D6E7472,
            ProfileClassSignature::OutputClass => 0x70727472,
            ProfileClassSignature::LinkClass => 0x6C696E6B,
            ProfileClassSignature::AbstractClass => 0x61627374,
            ProfileClassSignature::ColorSpaceClass => 0x73706163,
            ProfileClassSignature::NamedColorClass => 0x6e6d636c,
        }
    }
}

/// Primary platform of a profile.
#[derive(Debug, Copy, Clone, PartialEq, Eq, Structural, Hash)]
#[non_exhaustive]
pub enum PlatformSignature {
    /// 'APPL'
    Macintosh,
    /// 'MSFT'
    Microsoft,
    /// 'SUNW'
    Solaris,
    /// 'SGI '
    SGI,
    /// 'TGNT'
    Taligent,
    /// '*nix'   // From argyll -- Not official
    Unices,
}

impl PlatformSignature {
    /// The ICC signature of each value.
    pub open spec fn spec_code(&self) -> u32 {
        match self {
            PlatformSignature::Macintosh => 0x4150504C,
            PlatformSignature::Microsoft => 0x4D534654,
            PlatformSignature::Solaris => 0x53554E57,
            PlatformSignature::SGI => 0x53474920,
            PlatformSignature::Taligent => 0x54474E54,
            PlatformSignature::Unices => 0x2A6E6978,
        }
    }

    /// The ICC signature of this value.
    #[verifier::when_used_as_spec(spec_code)]
    pub fn code(&self) -> (r: u32)
        ensures
            r == self.spec_code(),
    {
        match self {
            PlatformSignature::Macintosh => 0x4150504C,
            PlatformSignature::Microsoft => 0x4D534654,
            PlatformSignature::Solaris => 0x53554E57,
            PlatformSignature::SGI => 0x53474920,
            PlatformSignature::Taligent => 0x54474E54,
            PlatformSignature::Unices => 0x2A6E6978,
        }
    }
}

/// Colorimetric intent image state.
#[derive(Debug, Copy, Clone, PartialEq, Eq, Structural, Hash)]
#[non_exhaustive]
pub enum ColorimetricIntentImageState {
    ///'scoe'
    SceneColorimetryEstimates,
    ///'sape'
    SceneAppearanceEstimates,
    ///'fpce'
    FocalPlaneColorimetryEstimates,
    ///'rhoc'
    ReflectionHardcopyOriginalColorimetry,
    ///'rpoc'
    ReflectionPrintOutputColorimetry,
}

impl ColorimetricIntentImageState {
    /// The ICC signature of each value.
    pub open spec fn spec_code(&self) -> u32 {
        match self {
            ColorimetricIntentImageState::SceneColorimetryEstimates => 0x73636F65,
            ColorimetricIntentImageState::SceneAppearanceEstimates => 0x73617065,
            ColorimetricIntentImageState::FocalPlaneColorimetryEstimates => 0x66706365,
            ColorimetricIntentImageState::ReflectionHardcopyOriginalColorimetry => 0x72686F63,
            ColorimetricIntentImageState::ReflectionPrintOutputColorimetry => 0x72706F63,
        }
    }

    /// The ICC signature of this value.
    #[verifier::when_used_as_spec(spec_code)]
    pub fn code(&self) -> (r: u32)
        ensures
            r == self.spec_code(),
    {
        match self {
            ColorimetricIntentImageState::SceneColorimetryEstimates => 0x73636F65,
            ColorimetricIntentImageState::SceneAppearanceEstimates => 0x73617065,
            ColorimetricIntentImageState::FocalPlaneColorimetryEstimates => 0x66706365,
            ColorimetricIntentImageState::ReflectionHardcopyOriginalColorimetry => 0x72686F63,
            ColorimetricIntentImageState::ReflectionPrintOutputColorimetry => 0x72706F63,
        }
    }
}

/// Type of a processing stage in a pipeline.
#[derive(Debug, Copy, Clone, PartialEq, Eq, Structural, Hash)]
#[non_exhaustive]
pub enum StageSignature {
    ///'cvst'
    CurveSetElemType,
    ///'matf'
    MatrixElemType,
    ///'clut'
    CLutElemType,
    /// 'bACS'
    BAcsElemType,
    /// 'eACS'
    EAcsElemType,
    /// Custom from here, not in the ICC Spec
    /// 'l2x '
    XYZ2LabElemType,
    /// 'x2l '
    Lab2XYZElemType,
    /// 'ncl '
    NamedColorElemType,
    /// '2 4 '
    LabV2toV4,
    /// '4 2 '
    LabV4toV2,
    /// Identities
    /// 'idn '
    IdentityElemType,
    /// Float to floatPCS
    /// 'd2l '
    Lab2FloatPCS,
    /// 'l2d '
    FloatPCS2Lab,
    /// 'd2x '
    XYZ2FloatPCS,
    /// 'x2d '
    FloatPCS2XYZ,
    /// 'clp '
    ClipNegativesElemType,
}

impl StageSignature {
    /// The ICC signature of each value.
    pub open spec fn spec_code(&self) -> u32 {
        match self {
            StageSignature::CurveSetElemType => 0x63767374,
            StageSignature::MatrixElemType => 0x6D617466,
            StageSignature::CLutElemType => 0x636C7574,
            StageSignature::BAcsElemType => 0x62414353,
            StageSignature::EAcsElemType => 0x65414353,
            StageSignature::XYZ2LabElemType => 0x6C327820,
            StageSignature::Lab2XYZElemType => 0x78326C20,
            StageSignature::NamedColorElemType => 0x6E636C20,
            StageSignature::LabV2toV4 => 0x32203420,
            StageSignature::LabV4toV2 => 0x34203220,
            StageSignature::IdentityElemType => 0x69646E20,
            StageSignature::Lab2FloatPCS => 0x64326C20,
            StageSignature::FloatPCS2Lab => 0x6C326420,
            StageSignature::XYZ2FloatPCS => 0x64327820,
            StageSignature::FloatPCS2XYZ => 0x78326420,
            StageSignature::ClipNegativesElemType => 0x636c7020,
        }
    }

    /// The ICC signature of this value.
    #[verifier::when_used_as_spec(spec_code)]
    pub fn code(&self) -> (r: u32)
        ensures
            r == self.spec_code(),
    {
        match self {
            StageSignature::CurveSetElemType => 0x63767374,
            StageSignature::MatrixElemType => 0x6D617466,
            StageSignature::CLutElemType => 0x636C7574,
            StageSignature::BAcsElemType => 0x62414353,
            StageSignature::EAcsElemType => 0x65414353,
            StageSignature::XYZ2LabElemType => 0x6C327820,
            StageSignature::Lab2XYZElemType => 0x78326C20,
            StageSignature::NamedColorElemType => 0x6E636C20,
            StageSignature::LabV2toV4 => 0x32203420,
            StageSignature::LabV4toV2 => 0x34203220,
            StageSignature::IdentityElemType => 0x69646E20,
            StageSignature::Lab2FloatPCS => 0x64326C20,
            StageSignature::FloatPCS2Lab => 0x6C326420,
            StageSignature::XYZ2FloatPCS => 0x64327820,
            StageSignature::FloatPCS2XYZ => 0x78326420,
            StageSignature::ClipNegativesElemType => 0x636c7020,
        }
    }
}

/// Type of a curve segment.
#[derive(Debug, Copy, Clone, PartialEq, Eq, Structural, Hash)]
#[non_exhaustive]
pub enum CurveSegSignature {
    /// 'parf'
    FormulaCurveSeg,
    /// 'samf'
    SampledCurveSeg,
    /// 'curf'
    SegmentedCurve,
}

impl CurveSegSignature {
    /// The ICC signature of each value.
    pub open spec fn spec_code(&self) -> u32 {
        match self {
            CurveSegSignature::FormulaCurveSeg => 0x70617266,
            CurveSegSignature::SampledCurveSeg => 0x73616D66,
            CurveSegSignature::SegmentedCurve => 0x63757266,
        }
    }

    /// The ICC signature of this value.
    #[verifier::when_used_as_spec(spec_code)]
    pub fn code(&self) -> (r: u32)
        ensures
            r == self.spec_code(),
    {
        match self {
            CurveSegSignature::FormulaCurveSeg => 0x70617266,
            CurveSegSignature::SampledCurveSeg => 0x73616D66,
            CurveSegSignature::SegmentedCurve => 0x63757266,
        }
    }
}

} // verus!
