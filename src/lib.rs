//! Data model of the Little CMS colour-management interface: ICC signature
//! codes, fixed-layout profile records, the bit-packed pixel-format code and
//! its decoder, transform flags, and the choice of how the native library is
//! linked.
#![allow(non_upper_case_globals)]
#![allow(non_snake_case)]
#![allow(non_camel_case_types)]

pub mod codes;
pub mod flags;
pub mod linkage;
pub mod pixel;
pub mod records;
pub mod signature;

pub use crate::pixel::{PixelFormat, PixelType};
pub use crate::codes::{
    IlluminantType, InfoType, Intent, PSResourceType, SpotShape, StageLoc, Surround,
};
pub use crate::flags::FLAGS_GRIDPOINTS;
pub use crate::linkage::{BuildSettings, LinkStrategy};
pub use crate::records::{
    DateTimeNumber, EncodedXYZNumber, ICCData, ICCHeader, ProfileID, TagBase, TagEntry,
    VideoSignalType,
};
pub use crate::signature::{
    ColorSpaceSignature, ColorimetricIntentImageState, CurveSegSignature, PlatformSignature,
    ProfileClassSignature, Signature, StageSignature, TagSignature, TagTypeSignature,
    TechnologySignature,
};
