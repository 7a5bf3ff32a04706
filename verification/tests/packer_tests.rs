use stream_encoder::pack_frame;
use stream_encoder::Frame;
use stream_encoder::PixelFormat;
use stream_encoder::PlaneLayout;

fn rgba_2x2() -> Frame {
    Frame {
        width: 2,
        height: 2,
        format: PixelFormat::Rgba,
        data: vec![
            1, 2, 3, 4, // pixel 0: R G B A
            5, 6, 7, 8, // pixel 1
            9, 10, 11, 12, // pixel 2
            13, 14, 15, 16, // pixel 3
        ],
    }
}

#[test]
fn packing_reorders_rgba_to_bgra() {
    let frame = rgba_2x2();
    let layout = PlaneLayout { width: 2, height: 2, stride: 8 };
    let mut dst = vec![0u8; 16];
    pack_frame(&frame, PixelFormat::Bgra, 0, &layout, &mut dst);
    assert_eq!(
        dst,
        vec![
            3, 2, 1, 4, 7, 6, 5, 8, // row 0
            11, 10, 9, 12, 15, 14, 13, 16, // row 1
        ]
    );
}

#[test]
fn packing_leaves_stride_padding_untouched() {
    // A destination row stride of width * 4 + 8 bytes: the trailing 8
    // padding bytes of each row keep their prior content.
    let frame = rgba_2x2();
    let layout = PlaneLayout { width: 2, height: 2, stride: 16 };
    let mut dst = vec![0xEEu8; 32];
    pack_frame(&frame, PixelFormat::Bgra, 0, &layout, &mut dst);
    assert_eq!(&dst[0..8], &[3, 2, 1, 4, 7, 6, 5, 8]);
    assert_eq!(&dst[8..16], &[0xEE; 8]);
    assert_eq!(&dst[16..24], &[11, 10, 9, 12, 15, 14, 13, 16]);
    assert_eq!(&dst[24..32], &[0xEE; 8]);
}

#[test]
fn packing_fills_missing_alpha_with_the_fill_value() {
    let frame = Frame { width: 1, height: 1, format: PixelFormat::Rgb, data: vec![10, 20, 30] };
    let layout = PlaneLayout { width: 1, height: 1, stride: 4 };
    let mut dst = vec![0u8; 4];
    pack_frame(&frame, PixelFormat::Bgra, 0x7F, &layout, &mut dst);
    assert_eq!(dst, vec![30, 20, 10, 0x7F]);
}

#[test]
fn bgrx_destination_padding_byte_takes_the_fill_value() {
    // The destination's fourth byte is a filler, so it takes the fill
    // value even though the source has an alpha byte.
    let frame = Frame { width: 1, height: 1, format: PixelFormat::Rgba, data: vec![1, 2, 3, 4] };
    let layout = PlaneLayout { width: 1, height: 1, stride: 4 };
    let mut dst = vec![0xCCu8; 4];
    pack_frame(&frame, PixelFormat::Bgrx, 0, &layout, &mut dst);
    assert_eq!(dst, vec![3, 2, 1, 0]);
}

#[test]
fn short_frame_stops_writing_instead_of_reading_past_its_bytes() {
    // Five bytes hold only one complete RGBA pixel; the second destination
    // pixel keeps its prior content.
    let frame = Frame { width: 2, height: 1, format: PixelFormat::Rgba, data: vec![1, 2, 3, 4, 5] };
    let layout = PlaneLayout { width: 2, height: 1, stride: 8 };
    let mut dst = vec![0xAAu8; 8];
    pack_frame(&frame, PixelFormat::Bgra, 9, &layout, &mut dst);
    assert_eq!(dst, vec![3, 2, 1, 4, 0xAA, 0xAA, 0xAA, 0xAA]);
}

#[test]
fn empty_source_writes_nothing() {
    let frame = Frame { width: 2, height: 2, format: PixelFormat::Bgra, data: vec![] };
    let layout = PlaneLayout { width: 2, height: 2, stride: 8 };
    let mut dst = vec![0x11u8; 16];
    pack_frame(&frame, PixelFormat::Bgra, 0, &layout, &mut dst);
    assert_eq!(dst, vec![0x11u8; 16]);
}

#[test]
fn bytes_past_the_plane_keep_their_prior_content() {
    let frame = Frame { width: 1, height: 1, format: PixelFormat::Bgra, data: vec![1, 2, 3, 4] };
    let layout = PlaneLayout { width: 1, height: 1, stride: 4 };
    let mut dst = vec![0x55u8; 10];
    pack_frame(&frame, PixelFormat::Bgra, 0, &layout, &mut dst);
    assert_eq!(dst, vec![1, 2, 3, 4, 0x55, 0x55, 0x55, 0x55, 0x55, 0x55]);
}
