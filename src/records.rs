//! Fixed-layout records of ICC profiles.
use crate::codes::Intent;
use crate::signature::{
    ColorSpaceSignature, PlatformSignature, ProfileClassSignature, S15Fixed16Number, Signature,
    TagSignature, TagTypeSignature,
};
use vstd::prelude::*;

verus! {

/// Data of a raw-data tag: its length, a flag that says whether it is text
/// (0) or binary (1), and the first byte of the data.
#[derive(Debug, Copy, Clone)]
pub struct ICCData {
    pub len: u32,
    pub flag: u32,
    pub data: [u8; 1],
}

impl Default for ICCData {
    fn default() -> (r: ICCData)
        ensures
            r.len == 0,
            r.flag == 0,
            r.data@ == seq![0u8],
    {
        let r = ICCData { len: 0, flag: 0, data: [0u8] };
        assert(r.data@ =~= seq![0u8]);
        r
    }
}

/// A date and time as a profile stores it.
#[derive(Debug, Copy, Clone, PartialEq, Eq, Structural)]
pub struct DateTimeNumber {
    pub year: u16,
    pub month: u16,
    pub day: u16,
    pub hours: u16,
    pub minutes: u16,
    pub seconds: u16,
}

impl Default for DateTimeNumber {
    fn default() -> (r: DateTimeNumber)
        ensures
            r == (DateTimeNumber { year: 0, month: 0, day: 0, hours: 0, minutes: 0, seconds: 0 }),
    {
        DateTimeNumber { year: 0, month: 0, day: 0, hours: 0, minutes: 0, seconds: 0 }
    }
}

/// An XYZ colour in 15.16 fixed point, as a profile stores it.
#[derive(Debug, Copy, Clone, PartialEq, Eq, Structural)]
pub struct EncodedXYZNumber {
    pub X: S15Fixed16Number,
    pub Y: S15Fixed16Number,
    pub Z: S15Fixed16Number,
}

impl Default for EncodedXYZNumber {
    fn default() -> (r: EncodedXYZNumber)
        ensures
            r == (EncodedXYZNumber { X: 0, Y: 0, Z: 0 }),
    {
        EncodedXYZNumber { X: 0, Y: 0, Z: 0 }
    }
}

/// The profile ID: an MD5 digest of the profile, as four words.
#[derive(Debug, Copy, Clone, PartialEq, Eq, Hash)]
pub struct ProfileID {
    pub ID32: [u32; 4],
}

impl Default for ProfileID {
    fn default() -> (r: ProfileID)
        ensures
            r.ID32@ == seq![0u32, 0u32, 0u32, 0u32],
    {
        let r = ProfileID { ID32: [0u32, 0u32, 0u32, 0u32] };
        assert(r.ID32@ =~= seq![0u32, 0u32, 0u32, 0u32]);
        r
    }
}

/// The header of an ICC profile.
#[derive(Debug, Copy, Clone)]
pub struct ICCHeader {
    /// Profile size in bytes.
    pub size: u32,
    /// Preferred colour-management module.
    pub cmmId: Signature,
    /// Format version number.
    pub version: u32,
    /// Device class.
    pub deviceClass: ProfileClassSignature,
    /// Colour space of the data.
    pub colorSpace: ColorSpaceSignature,
    /// Profile connection space.
    pub pcs: ColorSpaceSignature,
    /// Creation date and time.
    pub date: DateTimeNumber,
    /// The magic number, `'acsp'`.
    pub magic: Signature,
    /// Primary platform.
    pub platform: PlatformSignature,
    /// Profile flags.
    pub flags: u32,
    /// Device manufacturer.
    pub manufacturer: Signature,
    /// Device model.
    pub model: u32,
    /// Device attributes.
    pub attributes: u64,
    /// Rendering intent.
    pub renderingIntent: Intent,
    /// Illuminant of the connection space.
    pub illuminant: EncodedXYZNumber,
    /// Profile creator.
    pub creator: Signature,
    /// Profile ID.
    pub profileID: ProfileID,
    pub reserved: [i8; 28],
}

/// The common start of every tag's data: its type signature and four
/// reserved bytes.
#[derive(Debug, Copy, Clone)]
pub struct TagBase {
    pub sig: TagTypeSignature,
    pub reserved: [i8; 4],
}

/// An entry of a profile's tag table: which tag, and where its data lies.
#[derive(Debug, Copy, Clone, PartialEq, Eq, Structural)]
pub struct TagEntry {
    pub sig: TagSignature,
    /// Start of the data, from the start of the profile.
    pub offset: u32,
    /// Size of the data in bytes.
    pub size: u32,
}

/// Coding-independent code points of a video signal.
#[derive(Debug, Copy, Clone, PartialEq, Eq, Structural)]
pub struct VideoSignalType {
    pub ColourPrimaries: u8,
    pub TransferCharacteristics: u8,
    pub MatrixCoefficients: u8,
    pub VideoFullRangeFlag: u8,
}

} // verus!
