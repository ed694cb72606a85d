//! Numbered enumerations of the engine's interface, each with its code.
use vstd::prelude::*;

verus! {

/// Illuminant of measurement and viewing conditions.
#[derive(Debug, Copy, Clone, PartialEq, Eq, Structural, Hash)]
#[non_exhaustive]
pub enum IlluminantType {
    UNKNOWN,
    D50,
    D65,
    D93,
    F2,
    D55,
    A,
    E,
    F8,
}

impl IlluminantType {
    /// The numeric code of each value.
    pub open spec fn spec_code(&self) -> u32 {
        match self {
            IlluminantType::UNKNOWN => 0x0000000,
            IlluminantType::D50 => 0x0000001,
            IlluminantType::D65 => 0x0000002,
            IlluminantType::D93 => 0x0000003,
            IlluminantType::F2 => 0x0000004,
            IlluminantType::D55 => 0x0000005,
            IlluminantType::A => 0x0000006,
            IlluminantType::E => 0x0000007,
            IlluminantType::F8 => 0x0000008,
        }
    }

    /// The numeric code of this value.
    #[verifier::when_used_as_spec(spec_code)]
    pub fn code(&self) -> (r: u32)
        ensures
            r == self.spec_code(),
    {
        match self {
            IlluminantType::UNKNOWN => 0x0000000,
            IlluminantType::D50 => 0x0000001,
            IlluminantType::D65 => 0x0000002,
            IlluminantType::D93 => 0x0000003,
            IlluminantType::F2 => 0x0000004,
            IlluminantType::D55 => 0x0000005,
            IlluminantType::A => 0x0000006,
            IlluminantType::E => 0x0000007,
            IlluminantType::F8 => 0x0000008,
        }
    }
}

/// Surround of viewing conditions.
#[derive(Debug, Copy, Clone, PartialEq, Eq, Structural, Hash)]
pub enum Surround {
    Avg,
    Dim,
    Dark,
    Cutsheet,
}

impl Surround {
    /// The numeric code of each value.
    pub open spec fn spec_code(&self) -> u32 {
        match self {
            Surround::Avg => 1,
            Surround::Dim => 2,
            Surround::Dark => 3,
            Surround::Cutsheet => 4,
        }
    }

    /// The numeric code of this value.
    #[verifier::when_used_as_spec(spec_code)]
    pub fn code(&self) -> (r: u32)
        ensures
            r == self.spec_code(),
    {
        match self {
            Surround::Avg => 1,
            Surround::Dim => 2,
            Surround::Dark => 3,
            Surround::Cutsheet => 4,
        }
    }
}

/// Where to place or locate a stage in a pipeline.
#[derive(Debug, Copy, Clone, PartialEq, Eq, Structural, Hash)]
pub enum StageLoc {
    AT_BEGIN,
    AT_END,
}

impl StageLoc {
    /// The numeric code of each value.
    pub open spec fn spec_code(&self) -> u32 {
        match self {
            StageLoc::AT_BEGIN => 0,
            StageLoc::AT_END => 1,
        }
    }

    /// The numeric code of this value.
    #[verifier::when_used_as_spec(spec_code)]
    pub fn code(&self) -> (r: u32)
        ensures
            r == self.spec_code(),
    {
        match self {
            StageLoc::AT_BEGIN => 0,
            StageLoc::AT_END => 1,
        }
    }
}

/// Halftone spot shape.
#[derive(Debug, Copy, Clone, PartialEq, Eq, Structural, Hash)]
pub enum SpotShape {
    UNKNOWN,
    PRINTER_DEFAULT,
    ROUND,
    DIAMOND,
    ELLIPSE,
    LINE,
    SQUARE,
    CROSS,
}

impl SpotShape {
    /// The numeric code of each value.
    pub open spec fn spec_code(&self) -> u32 {
        match self {
            SpotShape::UNKNOWN => 0,
            SpotShape::PRINTER_DEFAULT => 1,
            SpotShape::ROUND => 2,
            SpotShape::DIAMOND => 3,
            SpotShape::ELLIPSE => 4,
            SpotShape::LINE => 5,
            SpotShape::SQUARE => 6,
            SpotShape::CROSS => 7,
        }
    }

    /// The numeric code of this value.
    #[verifier::when_used_as_spec(spec_code)]
    pub fn code(&self) -> (r: u32)
        ensures
            r == self.spec_code(),
    {
        match self {
            SpotShape::UNKNOWN => 0,
            SpotShape::PRINTER_DEFAULT => 1,
            SpotShape::ROUND => 2,
            SpotShape::DIAMOND => 3,
            SpotShape::ELLIPSE => 4,
            SpotShape::LINE => 5,
            SpotShape::SQUARE => 6,
            SpotShape::CROSS => 7,
        }
    }
}

/// Which descriptive text of a profile to read.
#[derive(Debug, Copy, Clone, PartialEq, Eq, Structural, Hash)]
pub enum InfoType {
    Description,
    Manufacturer,
    Model,
    Copyright,
}

impl InfoType {
    /// The numeric code of each value.
    pub open spec fn spec_code(&self) -> u32 {
        match self {
            InfoType::Description => 0,
            InfoType::Manufacturer => 1,
            InfoType::Model => 2,
            InfoType::Copyright => 3,
        }
    }

    /// The numeric code of this value.
    #[verifier::when_used_as_spec(spec_code)]
    pub fn code(&self) -> (r: u32)
        ensures
            r == self.spec_code(),
    {
        match self {
            InfoType::Description => 0,
            InfoType::Manufacturer => 1,
            InfoType::Model => 2,
            InfoType::Copyright => 3,
        }
    }
}

/// Rendering intent: the four ICC intents, then the black-preserving ones.
#[derive(Debug, Copy, Clone, PartialEq, Eq, Structural, Hash)]
#[non_exhaustive]
pub enum Intent {
    Perceptual,
    RelativeColorimetric,
    Saturation,
    AbsoluteColorimetric,
    PreserveKOnlyPerceptual,
    PreserveKOnlyRelativeColorimetric,
    PreserveKOnlySaturation,
    PreserveKPlanePerceptual,
    PreserveKPlaneRelativeColorimetric,
    PreserveKPlaneSaturation,
}

impl Intent {
    /// The numeric code of each value.
    pub open spec fn spec_code(&self) -> u32 {
        match self {
            Intent::Perceptual => 0,
            Intent::RelativeColorimetric => 1,
            Intent::Saturation => 2,
            Intent::AbsoluteColorimetric => 3,
            Intent::PreserveKOnlyPerceptual => 10,
            Intent::PreserveKOnlyRelativeColorimetric => 11,
            Intent::PreserveKOnlySaturation => 12,
            Intent::PreserveKPlanePerceptual => 13,
            Intent::PreserveKPlaneRelativeColorimetric => 14,
            Intent::PreserveKPlaneSaturation => 15,
        }
    }

    /// The numeric code of this value.
    #[verifier::when_used_as_spec(spec_code)]
    pub fn code(&self) -> (r: u32)
        ensures
            r == self.spec_code(),
    {
        match self {
            Intent::Perceptual => 0,
            Intent::RelativeColorimetric => 1,
            Intent::Saturation => 2,
            Intent::AbsoluteColorimetric => 3,
            Intent::PreserveKOnlyPerceptual => 10,
            Intent::PreserveKOnlyRelativeColorimetric => 11,
            Intent::PreserveKOnlySaturation => 12,
            Intent::PreserveKPlanePerceptual => 13,
            Intent::PreserveKPlaneRelativeColorimetric => 14,
            Intent::PreserveKPlaneSaturation => 15,
        }
    }
}

/// Kind of PostScript resource to generate.
#[derive(Debug, Copy, Clone, PartialEq, Eq, Structural, Hash)]
pub enum PSResourceType {
    PS_RESOURCE_CSA,
    PS_RESOURCE_CRD,
}

impl PSResourceType {
    /// The numeric code of each value.
    pub open spec fn spec_code(&self) -> u32 {
        match self {
            PSResourceType::PS_RESOURCE_CSA => 0,
            PSResourceType::PS_RESOURCE_CRD => 1,
        }
    }

    /// The numeric code of this value.
    #[verifier::when_used_as_spec(spec_code)]
    pub fn code(&self) -> (r: u32)
        ensures
            r == self.spec_code(),
    {
        match self {
            PSResourceType::PS_RESOURCE_CSA => 0,
            PSResourceType::PS_RESOURCE_CRD => 1,
        }
    }
}

// Screening flags.
pub const PRINTER_DEFAULT_SCREENS: u32 = 0x0001;
pub const FREQUENCE_UNITS_LINES_CM: u32 = 0x0000;
pub const FREQUENCE_UNITS_LINES_INCH: u32 = 0x0002;

} // verus!
