//! Flags for transform creation.
use vstd::prelude::*;

verus! {

/// Inhibit 1-pixel cache
pub const FLAGS_NOCACHE: u32 = 0x0040;
/// Inhibit optimizations
pub const FLAGS_NOOPTIMIZE: u32 = 0x0100;
/// Don't transform anyway
pub const FLAGS_NULLTRANSFORM: u32 = 0x0200;

/// Out of gamut alarm
pub const FLAGS_GAMUTCHECK: u32 = 0x1000;
/// Do softproofing
pub const FLAGS_SOFTPROOFING: u32 = 0x4000;

/// Black-point compensation
pub const FLAGS_BLACKPOINTCOMPENSATION: u32 = 0x2000;
/// Don't fix scum dot
pub const FLAGS_NOWHITEONWHITEFIXUP: u32 = 0x0004;
/// Use more memory to give better accuracy
pub const FLAGS_HIGHRESPRECALC: u32 = 0x0400;
/// Use less memory to minimize resources
pub const FLAGS_LOWRESPRECALC: u32 = 0x0800;

/// Create 8 bits devicelinks
pub const FLAGS_8BITS_DEVICELINK: u32 = 0x0008;
/// Guess device class (for transform2devicelink)
pub const FLAGS_GUESSDEVICECLASS: u32 = 0x0020;
/// Keep profile sequence for devicelink creation
pub const FLAGS_KEEP_SEQUENCE: u32 = 0x0080;

/// Force CLUT optimization
pub const FLAGS_FORCE_CLUT: u32 = 0x0002;
/// create postlinearization tables if possible
pub const FLAGS_CLUT_POST_LINEARIZATION: u32 = 0x0001;
/// create prelinearization tables if possible
pub const FLAGS_CLUT_PRE_LINEARIZATION: u32 = 0x0010;

/// Prevent negative numbers in floating point transforms
pub const FLAGS_NONEGATIVES: u32 = 0x8000;

/// Alpha channels are copied on `cmsDoTransform()`
pub const FLAGS_COPY_ALPHA: u32 = 0x04000000;

/// CRD special
pub const FLAGS_NODEFAULTRESOURCEDEF: u32 = 0x01000000;

/// Keeps a sampler from writing changes to its destination.
pub const SAMPLER_INSPECT: u32 = 0x01000000;

/// The transform-flag bits that ask for `n` grid points per dimension:
/// the low byte of `n`, placed in bits 16..24.
pub fn FLAGS_GRIDPOINTS(n: u32) -> (r: u32)
    ensures
        r == (n % 256) * 65536,
{
    assert(((n & 0xFFu32) << 16u32) == (n % 256u32) * 65536u32) by (bit_vector);
    (n & 0xFFu32) << 16u32
}

} // verus!
