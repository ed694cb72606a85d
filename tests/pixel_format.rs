use lcms2_sys::pixel::{PT_CMYK, PT_GRAY, PT_Lab, PT_RGB, PT_MCH5, PT_XYZ, PT_YCbCr, MAXCHANNELS};
use lcms2_sys::{PixelFormat, PixelType};

#[test]
fn test_bpc() {
    assert_eq!(8, PixelFormat::XYZ_DBL().bytes_per_channel());
    assert_eq!(8, PixelFormat::Lab_DBL().bytes_per_channel());
    assert_eq!(8, PixelFormat::GRAY_DBL().bytes_per_channel());
    assert_eq!(8, PixelFormat::RGB_DBL().bytes_per_channel());
    assert_eq!(8, PixelFormat::BGR_DBL().bytes_per_channel());
    assert_eq!(8, PixelFormat::CMYK_DBL().bytes_per_channel());
}

#[test]
fn test_pixelformat() {
    assert_eq!(4, PixelFormat::CMYKA_8().channels());
    assert_eq!(1, PixelFormat::CMYKA_8().extra());

    assert!(!PixelFormat::CMYKA_8().doswap());
    assert_eq!(1, PixelFormat::CMYKA_8().bytes_per_channel());
    assert_eq!(5, PixelFormat::CMYKA_8().bytes_per_pixel());

    assert_eq!(2, PixelFormat::CMYK_HALF_FLT().bytes_per_channel());
    assert_eq!(PT_CMYK(), PixelFormat::CMYK_HALF_FLT().pixel_type());
}

/// (format, channels, extra, bytes per channel, bytes per pixel, pixel type)
fn layouts() -> Vec<(PixelFormat, usize, usize, usize, usize, PixelType)> {
    vec![
        (PixelFormat::GRAY_8(), 1, 0, 1, 1, PT_GRAY()),
        (PixelFormat::GRAY_16(), 1, 0, 2, 2, PT_GRAY()),
        (PixelFormat::GRAYA_8(), 1, 1, 1, 2, PT_GRAY()),
        (PixelFormat::RGB_8(), 3, 0, 1, 3, PT_RGB()),
        (PixelFormat::RGB_16(), 3, 0, 2, 6, PT_RGB()),
        (PixelFormat::RGBA_8(), 3, 1, 1, 4, PT_RGB()),
        (PixelFormat::RGBA_16(), 3, 1, 2, 8, PT_RGB()),
        (PixelFormat::ARGB_8(), 3, 1, 1, 4, PT_RGB()),
        (PixelFormat::CMYK_8(), 4, 0, 1, 4, PT_CMYK()),
        (PixelFormat::CMYKA_8(), 4, 1, 1, 5, PT_CMYK()),
        (PixelFormat::CMYK_16(), 4, 0, 2, 8, PT_CMYK()),
        (PixelFormat::CMYK5_8(), 5, 0, 1, 5, PT_MCH5()),
        (PixelFormat::Lab_8(), 3, 0, 1, 3, PT_Lab()),
        (PixelFormat::ALab_8(), 3, 1, 1, 4, PT_Lab()),
        (PixelFormat::XYZ_16(), 3, 0, 2, 6, PT_XYZ()),
        (PixelFormat::YCbCr_8(), 3, 0, 1, 3, PT_YCbCr()),
        (PixelFormat::XYZ_FLT(), 3, 0, 4, 12, PT_XYZ()),
        (PixelFormat::RGBA_FLT(), 3, 1, 4, 16, PT_RGB()),
        (PixelFormat::RGB_DBL(), 3, 0, 8, 24, PT_RGB()),
        (PixelFormat::CMYK_DBL(), 4, 0, 8, 32, PT_CMYK()),
        (PixelFormat::RGBA_HALF_FLT(), 3, 1, 2, 8, PT_RGB()),
        (PixelFormat::NAMED_COLOR_INDEX(), 1, 0, 2, 2, PixelType(0)),
    ]
}

#[test]
fn predefined_formats_decode_to_their_layout() {
    for (f, channels, extra, bpc, bpp, pt) in layouts() {
        assert_eq!(channels, f.channels(), "{:?}", f);
        assert_eq!(extra, f.extra(), "{:?}", f);
        assert_eq!(bpc, f.bytes_per_channel(), "{:?}", f);
        assert_eq!(bpp, f.bytes_per_pixel(), "{:?}", f);
        assert_eq!(pt, f.pixel_type(), "{:?}", f);
        assert!(f.channels() <= MAXCHANNELS);
    }
}

#[test]
fn flag_bits_of_predefined_formats() {
    assert!(PixelFormat::RGB_8_PLANAR().planar());
    assert!(!PixelFormat::RGB_8().planar());
    assert!(PixelFormat::BGR_8().doswap());
    assert!(!PixelFormat::RGB_8().doswap());
    assert!(PixelFormat::ARGB_8().swapfirst());
    assert!(!PixelFormat::RGBA_8().swapfirst());
    assert!(PixelFormat::GRAY_8_REV().min_is_white());
    assert!(!PixelFormat::GRAY_8().min_is_white());
    assert!(PixelFormat::RGB_16_SE().endian16());
    assert!(!PixelFormat::RGB_16().endian16());
    assert!(PixelFormat::RGB_FLT().float());
    assert!(PixelFormat::RGB_HALF_FLT().float());
    assert!(!PixelFormat::RGB_16().float());
    assert!(!PixelFormat::RGBA_8().premultiplied());
    assert!(!PixelFormat::RGBA_8().optimized());
}

#[test]
fn single_bits_decode_alone() {
    assert!(PixelFormat(1 << 23).premultiplied());
    assert!(PixelFormat(1 << 22).float());
    assert!(PixelFormat(1 << 21).optimized());
    assert!(PixelFormat(1 << 14).swapfirst());
    assert!(PixelFormat(1 << 13).min_is_white());
    assert!(PixelFormat(1 << 12).planar());
    assert!(PixelFormat(1 << 11).endian16());
    assert!(PixelFormat(1 << 10).doswap());
    let lone = PixelFormat(1 << 23);
    assert!(!lone.float() && !lone.optimized() && !lone.planar() && !lone.doswap());
    assert_eq!(0, lone.channels());
    assert_eq!(0, lone.extra());
    assert_eq!(PixelType(0), lone.pixel_type());
}

#[test]
fn fields_at_their_largest() {
    let all = PixelFormat(0xFFFF_FFFF);
    assert_eq!(PixelType(31), all.pixel_type());
    assert_eq!(7, all.extra());
    assert_eq!(15, all.channels());
    assert_eq!(7, all.bytes_per_channel());
    assert_eq!(7 * 22, all.bytes_per_pixel());
    let widest = PixelFormat((7 << 7) | (15 << 3));
    assert_eq!(8, widest.bytes_per_channel());
    assert_eq!(176, widest.bytes_per_pixel());
}

#[test]
fn zero_code_means_eight_byte_samples() {
    let f = PixelFormat(0);
    assert_eq!(8, f.bytes_per_channel());
    assert_eq!(0, f.bytes_per_pixel());
}
