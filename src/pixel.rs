//! Bit-packed pixel-format codes and their decoder.
//!
//! A pixel-format code packs the memory layout of one pixel into 24 bits:
//!
//! ```text
//! bit  23  22  21  20..16  15  14  13  12  11  10  9..7  6..3  2..0
//!      M   A   O   T       -   S   F   P   X   D   E     C     B
//! ```
//!
//! M premultiplied alpha, A floating point, O optimized, T colour space,
//! S swap first, F flavor (minimum is white), P planar, X byte-swapped 16-bit
//! words, D reversed channel order, E extra samples, C colour channels,
//! B bytes per channel (0 standing for 8).
use vstd::arithmetic::power2::{pow2, lemma2_to64};
use vstd::prelude::*;

verus! {

/// Maximum number of channels in ICC profiles.
pub const MAXCHANNELS: usize = 16;

/// The value of the `width` bits of `code` that start at bit `low`.
pub open spec fn bit_field(code: u32, low: nat, width: nat) -> nat {
    (code as nat / pow2(low)) % pow2(width)
}

/// Whether bit `bit` of `code` is set.
pub open spec fn bit_set(code: u32, bit: nat) -> bool {
    bit_field(code, bit, 1) == 1
}

/// The layout of a pixel as a pixel-format code describes it.
pub struct PixelLayout {
    pub premultiplied: bool,
    pub float: bool,
    pub optimized: bool,
    pub pixel_type: nat,
    pub swap_first: bool,
    pub min_is_white: bool,
    pub planar: bool,
    pub endian16: bool,
    pub doswap: bool,
    pub extra: nat,
    pub channels: nat,
    pub bytes_per_channel: nat,
}

/// The colour space of a pixel format (the `PT_*` values).
#[derive(Debug, Copy, Clone, PartialEq, Eq, Structural)]
pub struct PixelType(pub u32);

/// A bit-packed pixel-format code.
#[derive(Debug, Copy, Clone, PartialEq, Eq, Structural)]
pub struct PixelFormat(pub u32);

impl View for PixelFormat {
    type V = PixelLayout;

    open spec fn view(&self) -> PixelLayout {
        let c = self.0;
        PixelLayout {
            premultiplied: bit_set(c, 23),
            float: bit_set(c, 22),
            optimized: bit_set(c, 21),
            pixel_type: bit_field(c, 16, 5),
            swap_first: bit_set(c, 14),
            min_is_white: bit_set(c, 13),
            planar: bit_set(c, 12),
            endian16: bit_set(c, 11),
            doswap: bit_set(c, 10),
            extra: bit_field(c, 7, 3),
            channels: bit_field(c, 3, 4),
            bytes_per_channel: if bit_field(c, 0, 3) == 0 { 8 } else { bit_field(c, 0, 3) },
        }
    }
}

impl PixelLayout {
    /// Bytes taken by one pixel in chunky (interleaved) layout.
    pub open spec fn bytes_per_pixel(self) -> nat {
        self.bytes_per_channel * (self.extra + self.channels)
    }
}

// Colour spaces of pixel formats.
pub fn PT_ANY() -> (r: PixelType)
    ensures
        r.0 == 0,
{
    PixelType(0)
}

pub fn PT_GRAY() -> (r: PixelType)
    ensures
        r.0 == 3,
{
    PixelType(3)
}

pub fn PT_RGB() -> (r: PixelType)
    ensures
        r.0 == 4,
{
    PixelType(4)
}

pub fn PT_CMY() -> (r: PixelType)
    ensures
        r.0 == 5,
{
    PixelType(5)
}

pub fn PT_CMYK() -> (r: PixelType)
    ensures
        r.0 == 6,
{
    PixelType(6)
}

pub fn PT_YCbCr() -> (r: PixelType)
    ensures
        r.0 == 7,
{
    PixelType(7)
}

pub fn PT_YUV() -> (r: PixelType)
    ensures
        r.0 == 8,
{
    PixelType(8)
}

pub fn PT_XYZ() -> (r: PixelType)
    ensures
        r.0 == 9,
{
    PixelType(9)
}

pub fn PT_Lab() -> (r: PixelType)
    ensures
        r.0 == 10,
{
    PixelType(10)
}

pub fn PT_YUVK() -> (r: PixelType)
    ensures
        r.0 == 11,
{
    PixelType(11)
}

pub fn PT_HSV() -> (r: PixelType)
    ensures
        r.0 == 12,
{
    PixelType(12)
}

pub fn PT_HLS() -> (r: PixelType)
    ensures
        r.0 == 13,
{
    PixelType(13)
}

pub fn PT_Yxy() -> (r: PixelType)
    ensures
        r.0 == 14,
{
    PixelType(14)
}

pub fn PT_MCH1() -> (r: PixelType)
    ensures
        r.0 == 15,
{
    PixelType(15)
}

pub fn PT_MCH2() -> (r: PixelType)
    ensures
        r.0 == 16,
{
    PixelType(16)
}

pub fn PT_MCH3() -> (r: PixelType)
    ensures
        r.0 == 17,
{
    PixelType(17)
}

pub fn PT_MCH4() -> (r: PixelType)
    ensures
        r.0 == 18,
{
    PixelType(18)
}

pub fn PT_MCH5() -> (r: PixelType)
    ensures
        r.0 == 19,
{
    PixelType(19)
}

pub fn PT_MCH6() -> (r: PixelType)
    ensures
        r.0 == 20,
{
    PixelType(20)
}

pub fn PT_MCH7() -> (r: PixelType)
    ensures
        r.0 == 21,
{
    PixelType(21)
}

pub fn PT_MCH8() -> (r: PixelType)
    ensures
        r.0 == 22,
{
    PixelType(22)
}

pub fn PT_MCH9() -> (r: PixelType)
    ensures
        r.0 == 23,
{
    PixelType(23)
}

pub fn PT_MCH10() -> (r: PixelType)
    ensures
        r.0 == 24,
{
    PixelType(24)
}

pub fn PT_MCH11() -> (r: PixelType)
    ensures
        r.0 == 25,
{
    PixelType(25)
}

pub fn PT_MCH12() -> (r: PixelType)
    ensures
        r.0 == 26,
{
    PixelType(26)
}

pub fn PT_MCH13() -> (r: PixelType)
    ensures
        r.0 == 27,
{
    PixelType(27)
}

pub fn PT_MCH14() -> (r: PixelType)
    ensures
        r.0 == 28,
{
    PixelType(28)
}

pub fn PT_MCH15() -> (r: PixelType)
    ensures
        r.0 == 29,
{
    PixelType(29)
}

pub fn PT_LabV2() -> (r: PixelType)
    ensures
        r.0 == 30,
{
    PixelType(30)
}

impl PixelFormat {
    // The predefined formats, named after the layout that they describe:
    // channel order, bits per sample, then `PLANAR`, `SE` (byte-swapped),
    // `REV` (minimum is white), `FLT`, `DBL` or `HALF_FLT` (floating point).
    pub fn GRAY_8() -> (r: PixelFormat)
        ensures
            r.0 == 196617,
    {
        PixelFormat(196617)
    }

    pub fn GRAY_8_REV() -> (r: PixelFormat)
        ensures
            r.0 == 204809,
    {
        PixelFormat(204809)
    }

    pub fn GRAY_16() -> (r: PixelFormat)
        ensures
            r.0 == 196618,
    {
        PixelFormat(196618)
    }

    pub fn GRAY_16_REV() -> (r: PixelFormat)
        ensures
            r.0 == 204810,
    {
        PixelFormat(204810)
    }

    pub fn GRAY_16_SE() -> (r: PixelFormat)
        ensures
            r.0 == 198666,
    {
        PixelFormat(198666)
    }

    pub fn GRAYA_8() -> (r: PixelFormat)
        ensures
            r.0 == 196745,
    {
        PixelFormat(196745)
    }

    pub fn GRAYA_16() -> (r: PixelFormat)
        ensures
            r.0 == 196746,
    {
        PixelFormat(196746)
    }

    pub fn GRAYA_16_SE() -> (r: PixelFormat)
        ensures
            r.0 == 198794,
    {
        PixelFormat(198794)
    }

    pub fn GRAYA_8_PLANAR() -> (r: PixelFormat)
        ensures
            r.0 == 200841,
    {
        PixelFormat(200841)
    }

    pub fn GRAYA_16_PLANAR() -> (r: PixelFormat)
        ensures
            r.0 == 200842,
    {
        PixelFormat(200842)
    }

    pub fn RGB_8() -> (r: PixelFormat)
        ensures
            r.0 == 262169,
    {
        PixelFormat(262169)
    }

    pub fn RGB_8_PLANAR() -> (r: PixelFormat)
        ensures
            r.0 == 266265,
    {
        PixelFormat(266265)
    }

    pub fn BGR_8() -> (r: PixelFormat)
        ensures
            r.0 == 263193,
    {
        PixelFormat(263193)
    }

    pub fn BGR_8_PLANAR() -> (r: PixelFormat)
        ensures
            r.0 == 267289,
    {
        PixelFormat(267289)
    }

    pub fn RGB_16() -> (r: PixelFormat)
        ensures
            r.0 == 262170,
    {
        PixelFormat(262170)
    }

    pub fn RGB_16_PLANAR() -> (r: PixelFormat)
        ensures
            r.0 == 266266,
    {
        PixelFormat(266266)
    }

    pub fn RGB_16_SE() -> (r: PixelFormat)
        ensures
            r.0 == 264218,
    {
        PixelFormat(264218)
    }

    pub fn BGR_16() -> (r: PixelFormat)
        ensures
            r.0 == 263194,
    {
        PixelFormat(263194)
    }

    pub fn BGR_16_PLANAR() -> (r: PixelFormat)
        ensures
            r.0 == 267290,
    {
        PixelFormat(267290)
    }

    pub fn BGR_16_SE() -> (r: PixelFormat)
        ensures
            r.0 == 265242,
    {
        PixelFormat(265242)
    }

    pub fn RGBA_8() -> (r: PixelFormat)
        ensures
            r.0 == 262297,
    {
        PixelFormat(262297)
    }

    pub fn RGBA_8_PLANAR() -> (r: PixelFormat)
        ensures
            r.0 == 266393,
    {
        PixelFormat(266393)
    }

    pub fn RGBA_16() -> (r: PixelFormat)
        ensures
            r.0 == 262298,
    {
        PixelFormat(262298)
    }

    pub fn RGBA_16_PLANAR() -> (r: PixelFormat)
        ensures
            r.0 == 266394,
    {
        PixelFormat(266394)
    }

    pub fn RGBA_16_SE() -> (r: PixelFormat)
        ensures
            r.0 == 264346,
    {
        PixelFormat(264346)
    }

    pub fn ARGB_8() -> (r: PixelFormat)
        ensures
            r.0 == 278681,
    {
        PixelFormat(278681)
    }

    pub fn ARGB_8_PLANAR() -> (r: PixelFormat)
        ensures
            r.0 == 282777,
    {
        PixelFormat(282777)
    }

    pub fn ARGB_16() -> (r: PixelFormat)
        ensures
            r.0 == 278682,
    {
        PixelFormat(278682)
    }

    pub fn ABGR_8() -> (r: PixelFormat)
        ensures
            r.0 == 263321,
    {
        PixelFormat(263321)
    }

    pub fn ABGR_8_PLANAR() -> (r: PixelFormat)
        ensures
            r.0 == 267417,
    {
        PixelFormat(267417)
    }

    pub fn ABGR_16() -> (r: PixelFormat)
        ensures
            r.0 == 263322,
    {
        PixelFormat(263322)
    }

    pub fn ABGR_16_PLANAR() -> (r: PixelFormat)
        ensures
            r.0 == 267418,
    {
        PixelFormat(267418)
    }

    pub fn ABGR_16_SE() -> (r: PixelFormat)
        ensures
            r.0 == 265370,
    {
        PixelFormat(265370)
    }

    pub fn BGRA_8() -> (r: PixelFormat)
        ensures
            r.0 == 279705,
    {
        PixelFormat(279705)
    }

    pub fn BGRA_8_PLANAR() -> (r: PixelFormat)
        ensures
            r.0 == 283801,
    {
        PixelFormat(283801)
    }

    pub fn BGRA_16() -> (r: PixelFormat)
        ensures
            r.0 == 279706,
    {
        PixelFormat(279706)
    }

    pub fn BGRA_16_SE() -> (r: PixelFormat)
        ensures
            r.0 == 281754,
    {
        PixelFormat(281754)
    }

    pub fn CMY_8() -> (r: PixelFormat)
        ensures
            r.0 == 327705,
    {
        PixelFormat(327705)
    }

    pub fn CMY_8_PLANAR() -> (r: PixelFormat)
        ensures
            r.0 == 331801,
    {
        PixelFormat(331801)
    }

    pub fn CMY_16() -> (r: PixelFormat)
        ensures
            r.0 == 327706,
    {
        PixelFormat(327706)
    }

    pub fn CMY_16_PLANAR() -> (r: PixelFormat)
        ensures
            r.0 == 331802,
    {
        PixelFormat(331802)
    }

    pub fn CMY_16_SE() -> (r: PixelFormat)
        ensures
            r.0 == 329754,
    {
        PixelFormat(329754)
    }

    pub fn CMYK_8() -> (r: PixelFormat)
        ensures
            r.0 == 393249,
    {
        PixelFormat(393249)
    }

    pub fn CMYKA_8() -> (r: PixelFormat)
        ensures
            r.0 == 393377,
    {
        PixelFormat(393377)
    }

    pub fn CMYK_8_REV() -> (r: PixelFormat)
        ensures
            r.0 == 401441,
    {
        PixelFormat(401441)
    }

    pub fn CMYK_8_PLANAR() -> (r: PixelFormat)
        ensures
            r.0 == 397345,
    {
        PixelFormat(397345)
    }

    pub fn CMYK_16() -> (r: PixelFormat)
        ensures
            r.0 == 393250,
    {
        PixelFormat(393250)
    }

    pub fn CMYK_16_REV() -> (r: PixelFormat)
        ensures
            r.0 == 401442,
    {
        PixelFormat(401442)
    }

    pub fn CMYK_16_PLANAR() -> (r: PixelFormat)
        ensures
            r.0 == 397346,
    {
        PixelFormat(397346)
    }

    pub fn CMYK_16_SE() -> (r: PixelFormat)
        ensures
            r.0 == 395298,
    {
        PixelFormat(395298)
    }

    pub fn KYMC_8() -> (r: PixelFormat)
        ensures
            r.0 == 394273,
    {
        PixelFormat(394273)
    }

    pub fn KYMC_16() -> (r: PixelFormat)
        ensures
            r.0 == 394274,
    {
        PixelFormat(394274)
    }

    pub fn KYMC_16_SE() -> (r: PixelFormat)
        ensures
            r.0 == 396322,
    {
        PixelFormat(396322)
    }

    pub fn KCMY_8() -> (r: PixelFormat)
        ensures
            r.0 == 409633,
    {
        PixelFormat(409633)
    }

    pub fn KCMY_8_REV() -> (r: PixelFormat)
        ensures
            r.0 == 417825,
    {
        PixelFormat(417825)
    }

    pub fn KCMY_16() -> (r: PixelFormat)
        ensures
            r.0 == 409634,
    {
        PixelFormat(409634)
    }

    pub fn KCMY_16_REV() -> (r: PixelFormat)
        ensures
            r.0 == 417826,
    {
        PixelFormat(417826)
    }

    pub fn KCMY_16_SE() -> (r: PixelFormat)
        ensures
            r.0 == 411682,
    {
        PixelFormat(411682)
    }

    pub fn CMYK5_8() -> (r: PixelFormat)
        ensures
            r.0 == 1245225,
    {
        PixelFormat(1245225)
    }

    pub fn CMYK5_16() -> (r: PixelFormat)
        ensures
            r.0 == 1245226,
    {
        PixelFormat(1245226)
    }

    pub fn CMYK5_16_SE() -> (r: PixelFormat)
        ensures
            r.0 == 1247274,
    {
        PixelFormat(1247274)
    }

    pub fn KYMC5_8() -> (r: PixelFormat)
        ensures
            r.0 == 1246249,
    {
        PixelFormat(1246249)
    }

    pub fn KYMC5_16() -> (r: PixelFormat)
        ensures
            r.0 == 1246250,
    {
        PixelFormat(1246250)
    }

    pub fn KYMC5_16_SE() -> (r: PixelFormat)
        ensures
            r.0 == 1248298,
    {
        PixelFormat(1248298)
    }

    pub fn CMYK6_8() -> (r: PixelFormat)
        ensures
            r.0 == 1310769,
    {
        PixelFormat(1310769)
    }

    pub fn CMYK6_8_PLANAR() -> (r: PixelFormat)
        ensures
            r.0 == 1314865,
    {
        PixelFormat(1314865)
    }

    pub fn CMYK6_16() -> (r: PixelFormat)
        ensures
            r.0 == 1310770,
    {
        PixelFormat(1310770)
    }

    pub fn CMYK6_16_PLANAR() -> (r: PixelFormat)
        ensures
            r.0 == 1314866,
    {
        PixelFormat(1314866)
    }

    pub fn CMYK6_16_SE() -> (r: PixelFormat)
        ensures
            r.0 == 1312818,
    {
        PixelFormat(1312818)
    }

    pub fn CMYK7_8() -> (r: PixelFormat)
        ensures
            r.0 == 1376313,
    {
        PixelFormat(1376313)
    }

    pub fn CMYK7_16() -> (r: PixelFormat)
        ensures
            r.0 == 1376314,
    {
        PixelFormat(1376314)
    }

    pub fn CMYK7_16_SE() -> (r: PixelFormat)
        ensures
            r.0 == 1378362,
    {
        PixelFormat(1378362)
    }

    pub fn KYMC7_8() -> (r: PixelFormat)
        ensures
            r.0 == 1377337,
    {
        PixelFormat(1377337)
    }

    pub fn KYMC7_16() -> (r: PixelFormat)
        ensures
            r.0 == 1377338,
    {
        PixelFormat(1377338)
    }

    pub fn KYMC7_16_SE() -> (r: PixelFormat)
        ensures
            r.0 == 1379386,
    {
        PixelFormat(1379386)
    }

    pub fn CMYK8_8() -> (r: PixelFormat)
        ensures
            r.0 == 1441857,
    {
        PixelFormat(1441857)
    }

    pub fn CMYK8_16() -> (r: PixelFormat)
        ensures
            r.0 == 1441858,
    {
        PixelFormat(1441858)
    }

    pub fn CMYK8_16_SE() -> (r: PixelFormat)
        ensures
            r.0 == 1443906,
    {
        PixelFormat(1443906)
    }

    pub fn KYMC8_8() -> (r: PixelFormat)
        ensures
            r.0 == 1442881,
    {
        PixelFormat(1442881)
    }

    pub fn KYMC8_16() -> (r: PixelFormat)
        ensures
            r.0 == 1442882,
    {
        PixelFormat(1442882)
    }

    pub fn KYMC8_16_SE() -> (r: PixelFormat)
        ensures
            r.0 == 1444930,
    {
        PixelFormat(1444930)
    }

    pub fn CMYK9_8() -> (r: PixelFormat)
        ensures
            r.0 == 1507401,
    {
        PixelFormat(1507401)
    }

    pub fn CMYK9_16() -> (r: PixelFormat)
        ensures
            r.0 == 1507402,
    {
        PixelFormat(1507402)
    }

    pub fn CMYK9_16_SE() -> (r: PixelFormat)
        ensures
            r.0 == 1509450,
    {
        PixelFormat(1509450)
    }

    pub fn KYMC9_8() -> (r: PixelFormat)
        ensures
            r.0 == 1508425,
    {
        PixelFormat(1508425)
    }

    pub fn KYMC9_16() -> (r: PixelFormat)
        ensures
            r.0 == 1508426,
    {
        PixelFormat(1508426)
    }

    pub fn KYMC9_16_SE() -> (r: PixelFormat)
        ensures
            r.0 == 1510474,
    {
        PixelFormat(1510474)
    }

    pub fn CMYK10_8() -> (r: PixelFormat)
        ensures
            r.0 == 1572945,
    {
        PixelFormat(1572945)
    }

    pub fn CMYK10_16() -> (r: PixelFormat)
        ensures
            r.0 == 1572946,
    {
        PixelFormat(1572946)
    }

    pub fn CMYK10_16_SE() -> (r: PixelFormat)
        ensures
            r.0 == 1574994,
    {
        PixelFormat(1574994)
    }

    pub fn KYMC10_8() -> (r: PixelFormat)
        ensures
            r.0 == 1573969,
    {
        PixelFormat(1573969)
    }

    pub fn KYMC10_16() -> (r: PixelFormat)
        ensures
            r.0 == 1573970,
    {
        PixelFormat(1573970)
    }

    pub fn KYMC10_16_SE() -> (r: PixelFormat)
        ensures
            r.0 == 1576018,
    {
        PixelFormat(1576018)
    }

    pub fn CMYK11_8() -> (r: PixelFormat)
        ensures
            r.0 == 1638489,
    {
        PixelFormat(1638489)
    }

    pub fn CMYK11_16() -> (r: PixelFormat)
        ensures
            r.0 == 1638490,
    {
        PixelFormat(1638490)
    }

    pub fn CMYK11_16_SE() -> (r: PixelFormat)
        ensures
            r.0 == 1640538,
    {
        PixelFormat(1640538)
    }

    pub fn KYMC11_8() -> (r: PixelFormat)
        ensures
            r.0 == 1639513,
    {
        PixelFormat(1639513)
    }

    pub fn KYMC11_16() -> (r: PixelFormat)
        ensures
            r.0 == 1639514,
    {
        PixelFormat(1639514)
    }

    pub fn KYMC11_16_SE() -> (r: PixelFormat)
        ensures
            r.0 == 1641562,
    {
        PixelFormat(1641562)
    }

    pub fn CMYK12_8() -> (r: PixelFormat)
        ensures
            r.0 == 1704033,
    {
        PixelFormat(1704033)
    }

    pub fn CMYK12_16() -> (r: PixelFormat)
        ensures
            r.0 == 1704034,
    {
        PixelFormat(1704034)
    }

    pub fn CMYK12_16_SE() -> (r: PixelFormat)
        ensures
            r.0 == 1706082,
    {
        PixelFormat(1706082)
    }

    pub fn KYMC12_8() -> (r: PixelFormat)
        ensures
            r.0 == 1705057,
    {
        PixelFormat(1705057)
    }

    pub fn KYMC12_16() -> (r: PixelFormat)
        ensures
            r.0 == 1705058,
    {
        PixelFormat(1705058)
    }

    pub fn KYMC12_16_SE() -> (r: PixelFormat)
        ensures
            r.0 == 1707106,
    {
        PixelFormat(1707106)
    }

    pub fn XYZ_16() -> (r: PixelFormat)
        ensures
            r.0 == 589850,
    {
        PixelFormat(589850)
    }

    pub fn Lab_8() -> (r: PixelFormat)
        ensures
            r.0 == 655385,
    {
        PixelFormat(655385)
    }

    pub fn LabV2_8() -> (r: PixelFormat)
        ensures
            r.0 == 1966105,
    {
        PixelFormat(1966105)
    }

    pub fn ALab_8() -> (r: PixelFormat)
        ensures
            r.0 == 671897,
    {
        PixelFormat(671897)
    }

    pub fn ALabV2_8() -> (r: PixelFormat)
        ensures
            r.0 == 1982617,
    {
        PixelFormat(1982617)
    }

    pub fn Lab_16() -> (r: PixelFormat)
        ensures
            r.0 == 655386,
    {
        PixelFormat(655386)
    }

    pub fn LabV2_16() -> (r: PixelFormat)
        ensures
            r.0 == 1966106,
    {
        PixelFormat(1966106)
    }

    pub fn Yxy_16() -> (r: PixelFormat)
        ensures
            r.0 == 917530,
    {
        PixelFormat(917530)
    }

    pub fn YCbCr_8() -> (r: PixelFormat)
        ensures
            r.0 == 458777,
    {
        PixelFormat(458777)
    }

    pub fn YCbCr_8_PLANAR() -> (r: PixelFormat)
        ensures
            r.0 == 462873,
    {
        PixelFormat(462873)
    }

    pub fn YCbCr_16() -> (r: PixelFormat)
        ensures
            r.0 == 458778,
    {
        PixelFormat(458778)
    }

    pub fn YCbCr_16_PLANAR() -> (r: PixelFormat)
        ensures
            r.0 == 462874,
    {
        PixelFormat(462874)
    }

    pub fn YCbCr_16_SE() -> (r: PixelFormat)
        ensures
            r.0 == 460826,
    {
        PixelFormat(460826)
    }

    pub fn YUV_8() -> (r: PixelFormat)
        ensures
            r.0 == 524313,
    {
        PixelFormat(524313)
    }

    pub fn YUV_8_PLANAR() -> (r: PixelFormat)
        ensures
            r.0 == 528409,
    {
        PixelFormat(528409)
    }

    pub fn YUV_16() -> (r: PixelFormat)
        ensures
            r.0 == 524314,
    {
        PixelFormat(524314)
    }

    pub fn YUV_16_PLANAR() -> (r: PixelFormat)
        ensures
            r.0 == 528410,
    {
        PixelFormat(528410)
    }

    pub fn YUV_16_SE() -> (r: PixelFormat)
        ensures
            r.0 == 526362,
    {
        PixelFormat(526362)
    }

    pub fn HLS_8() -> (r: PixelFormat)
        ensures
            r.0 == 851993,
    {
        PixelFormat(851993)
    }

    pub fn HLS_8_PLANAR() -> (r: PixelFormat)
        ensures
            r.0 == 856089,
    {
        PixelFormat(856089)
    }

    pub fn HLS_16() -> (r: PixelFormat)
        ensures
            r.0 == 851994,
    {
        PixelFormat(851994)
    }

    pub fn HLS_16_PLANAR() -> (r: PixelFormat)
        ensures
            r.0 == 856090,
    {
        PixelFormat(856090)
    }

    pub fn HLS_16_SE() -> (r: PixelFormat)
        ensures
            r.0 == 854042,
    {
        PixelFormat(854042)
    }

    pub fn HSV_8() -> (r: PixelFormat)
        ensures
            r.0 == 786457,
    {
        PixelFormat(786457)
    }

    pub fn HSV_8_PLANAR() -> (r: PixelFormat)
        ensures
            r.0 == 790553,
    {
        PixelFormat(790553)
    }

    pub fn HSV_16() -> (r: PixelFormat)
        ensures
            r.0 == 786458,
    {
        PixelFormat(786458)
    }

    pub fn HSV_16_PLANAR() -> (r: PixelFormat)
        ensures
            r.0 == 790554,
    {
        PixelFormat(790554)
    }

    pub fn HSV_16_SE() -> (r: PixelFormat)
        ensures
            r.0 == 788506,
    {
        PixelFormat(788506)
    }

    pub fn NAMED_COLOR_INDEX() -> (r: PixelFormat)
        ensures
            r.0 == 10,
    {
        PixelFormat(10)
    }

    pub fn XYZ_FLT() -> (r: PixelFormat)
        ensures
            r.0 == 4784156,
    {
        PixelFormat(4784156)
    }

    pub fn Lab_FLT() -> (r: PixelFormat)
        ensures
            r.0 == 4849692,
    {
        PixelFormat(4849692)
    }

    pub fn LabA_FLT() -> (r: PixelFormat)
        ensures
            r.0 == 4849820,
    {
        PixelFormat(4849820)
    }

    pub fn GRAY_FLT() -> (r: PixelFormat)
        ensures
            r.0 == 4390924,
    {
        PixelFormat(4390924)
    }

    pub fn RGB_FLT() -> (r: PixelFormat)
        ensures
            r.0 == 4456476,
    {
        PixelFormat(4456476)
    }

    pub fn RGBA_FLT() -> (r: PixelFormat)
        ensures
            r.0 == 4456604,
    {
        PixelFormat(4456604)
    }

    pub fn ARGB_FLT() -> (r: PixelFormat)
        ensures
            r.0 == 4472988,
    {
        PixelFormat(4472988)
    }

    pub fn BGR_FLT() -> (r: PixelFormat)
        ensures
            r.0 == 4457500,
    {
        PixelFormat(4457500)
    }

    pub fn BGRA_FLT() -> (r: PixelFormat)
        ensures
            r.0 == 4474012,
    {
        PixelFormat(4474012)
    }

    pub fn CMYK_FLT() -> (r: PixelFormat)
        ensures
            r.0 == 4587556,
    {
        PixelFormat(4587556)
    }

    pub fn XYZ_DBL() -> (r: PixelFormat)
        ensures
            r.0 == 4784152,
    {
        PixelFormat(4784152)
    }

    pub fn Lab_DBL() -> (r: PixelFormat)
        ensures
            r.0 == 4849688,
    {
        PixelFormat(4849688)
    }

    pub fn GRAY_DBL() -> (r: PixelFormat)
        ensures
            r.0 == 4390920,
    {
        PixelFormat(4390920)
    }

    pub fn RGB_DBL() -> (r: PixelFormat)
        ensures
            r.0 == 4456472,
    {
        PixelFormat(4456472)
    }

    pub fn BGR_DBL() -> (r: PixelFormat)
        ensures
            r.0 == 4457496,
    {
        PixelFormat(4457496)
    }

    pub fn CMYK_DBL() -> (r: PixelFormat)
        ensures
            r.0 == 4587552,
    {
        PixelFormat(4587552)
    }

    pub fn GRAY_HALF_FLT() -> (r: PixelFormat)
        ensures
            r.0 == 4390922,
    {
        PixelFormat(4390922)
    }

    pub fn RGB_HALF_FLT() -> (r: PixelFormat)
        ensures
            r.0 == 4456474,
    {
        PixelFormat(4456474)
    }

    pub fn RGBA_HALF_FLT() -> (r: PixelFormat)
        ensures
            r.0 == 4456602,
    {
        PixelFormat(4456602)
    }

    pub fn CMYK_HALF_FLT() -> (r: PixelFormat)
        ensures
            r.0 == 4587554,
    {
        PixelFormat(4587554)
    }

    pub fn ARGB_HALF_FLT() -> (r: PixelFormat)
        ensures
            r.0 == 4472986,
    {
        PixelFormat(4472986)
    }

    pub fn BGR_HALF_FLT() -> (r: PixelFormat)
        ensures
            r.0 == 4457498,
    {
        PixelFormat(4457498)
    }

    pub fn BGRA_HALF_FLT() -> (r: PixelFormat)
        ensures
            r.0 == 4474010,
    {
        PixelFormat(4474010)
    }

    /// M: premultiplied alpha (meaningful only with one extra sample).
    pub fn premultiplied(&self) -> (r: bool)
        ensures
            r == self@.premultiplied,
    {
        let c = self.0;
        proof {
            lemma2_to64();
            assert((c >> 23u32) & 1u32 == (c / 8388608u32) % 2u32) by (bit_vector);
        }
        ((c >> 23u32) & 1u32) != 0
    }

    /// A: floating-point samples; tells 16-bit floats from 16-bit integers.
    pub fn float(&self) -> (r: bool)
        ensures
            r == self@.float,
    {
        let c = self.0;
        proof {
            lemma2_to64();
            assert((c >> 22u32) & 1u32 == (c / 4194304u32) % 2u32) by (bit_vector);
        }
        ((c >> 22u32) & 1u32) != 0
    }

    /// O: an earlier optimization already yields the final 8-bit value.
    pub fn optimized(&self) -> (r: bool)
        ensures
            r == self@.optimized,
    {
        let c = self.0;
        proof {
            lemma2_to64();
            assert((c >> 21u32) & 1u32 == (c / 2097152u32) % 2u32) by (bit_vector);
        }
        ((c >> 21u32) & 1u32) != 0
    }

    /// T: the colour space.
    pub fn pixel_type(&self) -> (r: PixelType)
        ensures
            r.0 == self@.pixel_type,
    {
        let c = self.0;
        proof {
            lemma2_to64();
            assert((c >> 16u32) & 31u32 == (c / 65536u32) % 32u32) by (bit_vector);
        }
        PixelType((c >> 16u32) & 31u32)
    }

    /// S: the first channel is moved to the end (or back).
    pub fn swapfirst(&self) -> (r: bool)
        ensures
            r == self@.swap_first,
    {
        let c = self.0;
        proof {
            lemma2_to64();
            assert((c >> 14u32) & 1u32 == (c / 16384u32) % 2u32) by (bit_vector);
        }
        ((c >> 14u32) & 1u32) != 0
    }

    /// F: flavor; the minimum sample value is white.
    pub fn min_is_white(&self) -> (r: bool)
        ensures
            r == self@.min_is_white,
    {
        let c = self.0;
        proof {
            lemma2_to64();
            assert((c >> 13u32) & 1u32 == (c / 8192u32) % 2u32) by (bit_vector);
        }
        ((c >> 13u32) & 1u32) != 0
    }

    /// P: planar rather than chunky layout.
    pub fn planar(&self) -> (r: bool)
        ensures
            r == self@.planar,
    {
        let c = self.0;
        proof {
            lemma2_to64();
            assert((c >> 12u32) & 1u32 == (c / 4096u32) % 2u32) by (bit_vector);
        }
        ((c >> 12u32) & 1u32) != 0
    }

    /// X: 16-bit samples are byte-swapped.
    pub fn endian16(&self) -> (r: bool)
        ensures
            r == self@.endian16,
    {
        let c = self.0;
        proof {
            lemma2_to64();
            assert((c >> 11u32) & 1u32 == (c / 2048u32) % 2u32) by (bit_vector);
        }
        ((c >> 11u32) & 1u32) != 0
    }

    /// D: channels come in reverse order.
    pub fn doswap(&self) -> (r: bool)
        ensures
            r == self@.doswap,
    {
        let c = self.0;
        proof {
            lemma2_to64();
            assert((c >> 10u32) & 1u32 == (c / 1024u32) % 2u32) by (bit_vector);
        }
        ((c >> 10u32) & 1u32) != 0
    }

    /// E: number of extra (alpha) samples.
    pub fn extra(&self) -> (r: usize)
        ensures
            r == self@.extra,
    {
        let c = self.0;
        proof {
            lemma2_to64();
            assert((c >> 7u32) & 7u32 == (c / 128u32) % 8u32) by (bit_vector);
        }
        ((c >> 7u32) & 7u32) as usize
    }

    /// C: number of colour channels.
    pub fn channels(&self) -> (r: usize)
        ensures
            r == self@.channels,
    {
        let c = self.0;
        proof {
            lemma2_to64();
            assert((c >> 3u32) & 15u32 == (c / 8u32) % 16u32) by (bit_vector);
        }
        ((c >> 3u32) & 15u32) as usize
    }

    /// B: bytes per sample; the field reads 0 for 8 bytes, which it cannot hold.
    pub fn bytes_per_channel(&self) -> (r: usize)
        ensures
            r == self@.bytes_per_channel,
    {
        let c = self.0;
        proof {
            lemma2_to64();
            assert(c & 7u32 == c % 8u32) by (bit_vector);
        }
        let res = (c & 7u32) as usize;
        if res != 0 {
            res
        } else {
            8
        }
    }

    /// Bytes taken by one pixel: bytes per sample times the number of samples.
    pub fn bytes_per_pixel(&self) -> (r: usize)
        ensures
            r == self@.bytes_per_pixel(),
    {
        let b = self.bytes_per_channel();
        let e = self.extra();
        let n = self.channels();
        proof {
            lemma2_to64();
        }
        assert(b * (e + n) <= 8 * (7 + 15)) by (nonlinear_arith)
            requires
                b <= 8,
                e <= 7,
                n <= 15,
        ;
        b * (e + n)
    }
}

} // verus!
