use video_pipeline::convert::{convert_frame, rgb_to_yuv, yuv_to_rgba};
use video_pipeline::error::PipelineError;
use video_pipeline::frame::{Frame, Plane};
use video_pipeline::pixel::PixelFormat;

const PLANAR_FORMATS: [PixelFormat; 11] = [
    PixelFormat::Yuv410p,
    PixelFormat::Yuv411p,
    PixelFormat::Yuvj411p,
    PixelFormat::Yuv420p,
    PixelFormat::Yuvj420p,
    PixelFormat::Yuv422p,
    PixelFormat::Yuvj422p,
    PixelFormat::Yuv440p,
    PixelFormat::Yuvj440p,
    PixelFormat::Yuv444p,
    PixelFormat::Yuvj444p,
];

fn assert_solid_conversion(format: PixelFormat, r: u8, g: u8, b: u8) {
    let (yv, uv, vv) = rgb_to_yuv(r, g, b);
    let src = Frame::solid_planar(format, 64, 64, yv, uv, vv);
    let out = convert_frame(src).expect("supported planar format must convert");
    assert_eq!(out.width, 64);
    assert_eq!(out.height, 64);
    for y in 0..64u32 {
        for x in 0..64u32 {
            let (pr, pg, pb, pa) = out.rgba_pixel(x, y);
            assert!(
                (i16::from(pr) - i16::from(r)).abs() <= 2,
                "{format:?}: red {pr} vs {r} at ({x},{y})"
            );
            assert!(
                (i16::from(pg) - i16::from(g)).abs() <= 2,
                "{format:?}: green {pg} vs {g} at ({x},{y})"
            );
            assert!(
                (i16::from(pb) - i16::from(b)).abs() <= 2,
                "{format:?}: blue {pb} vs {b} at ({x},{y})"
            );
            assert_eq!(pa, 255);
        }
    }
}

#[test]
fn solid_blue_every_planar_format() {
    for format in PLANAR_FORMATS {
        assert_solid_conversion(format, 0, 0, 255);
    }
}

#[test]
fn solid_primaries_and_grays_every_planar_format() {
    for format in PLANAR_FORMATS {
        assert_solid_conversion(format, 255, 0, 0);
        assert_solid_conversion(format, 0, 255, 0);
        assert_solid_conversion(format, 255, 255, 255);
        assert_solid_conversion(format, 0, 0, 0);
        assert_solid_conversion(format, 128, 128, 128);
        assert_solid_conversion(format, 11, 255, 0);
    }
}

#[test]
fn end_to_end_blue_square_frame() {
    // A 64x64 solid-blue 4:2:0 frame converts to uniformly blue packed
    // RGBA bytes, within rounding tolerance.
    let (yv, uv, vv) = rgb_to_yuv(0, 0, 255);
    let src = Frame::solid_planar(PixelFormat::Yuv420p, 64, 64, yv, uv, vv);
    let out = convert_frame(src).unwrap();
    assert_eq!(out.format, PixelFormat::Rgba);
    let plane = &out.planes[0];
    assert_eq!(plane.stride, 64 * 4);
    assert_eq!(plane.data.len(), 64 * 64 * 4);
    for px in plane.data.chunks(4) {
        assert!(px[0] <= 2);
        assert!(px[1] <= 2);
        assert!(px[2] >= 253);
        assert_eq!(px[3], 255);
    }
}

#[test]
fn rgba_frame_passes_through_unchanged() {
    let src = Frame::solid_rgba(8, 4, 10, 20, 30, 40);
    let before: Vec<u8> = src.planes[0].data.clone();
    let out = convert_frame(src).unwrap();
    assert_eq!(out.format, PixelFormat::Rgba);
    assert_eq!(out.width, 8);
    assert_eq!(out.height, 4);
    assert_eq!(out.planes[0].data, before);
}

#[test]
fn unsupported_format_is_fatal() {
    let frame = Frame::from_planes(PixelFormat::Other, 16, 16, Vec::new()).unwrap();
    assert!(matches!(
        convert_frame(frame),
        Err(PipelineError::UnsupportedPixelFormat)
    ));
}

#[test]
fn yuv_to_rgba_exact_values() {
    // Black, white and mid gray are exact fixed points of the math.
    assert_eq!(yuv_to_rgba(0, 128, 128), (0, 0, 0, 255));
    assert_eq!(yuv_to_rgba(255, 128, 128), (255, 255, 255, 255));
    assert_eq!(yuv_to_rgba(128, 128, 128), (128, 128, 128, 255));
}

#[test]
fn rgb_to_yuv_exact_values() {
    assert_eq!(rgb_to_yuv(0, 0, 0), (0, 128, 128));
    assert_eq!(rgb_to_yuv(255, 255, 255), (255, 128, 128));
    // Solid blue: low luma, saturated blue-difference chroma.
    let (y, u, v) = rgb_to_yuv(0, 0, 255);
    assert_eq!(y, 29);
    assert_eq!(u, 255);
    assert_eq!(v, 107);
}

#[test]
fn chroma_extremes_clamp() {
    // Saturated chroma drives channels past the byte range; the result
    // clamps instead of wrapping.
    let (r, _g, b, a) = yuv_to_rgba(255, 255, 255);
    assert_eq!(r, 255);
    assert_eq!(b, 255);
    assert_eq!(a, 255);
    // Chroma 0 is the extreme negative chroma: red and blue clamp at 0
    // while the negative chroma terms push green up.
    let (r2, g2, b2, _a2) = yuv_to_rgba(0, 0, 0);
    assert_eq!(r2, 0);
    assert_eq!(g2, 135);
    assert_eq!(b2, 0);
}

fn assert_round_trip_within_2(r: u8, g: u8, b: u8) {
    let (yv, uv, vv) = rgb_to_yuv(r, g, b);
    let (pr, pg, pb, pa) = yuv_to_rgba(yv, uv, vv);
    let (pr, pg, pb) = (i32::from(pr), i32::from(pg), i32::from(pb));
    let (r, g, b) = (i32::from(r), i32::from(g), i32::from(b));
    assert!((pr - r).abs() <= 2, "red {pr} vs {r}");
    assert!((pg - g).abs() <= 2, "green {pg} vs {g}");
    assert!((pb - b).abs() <= 2, "blue {pb} vs {b}");
    assert_eq!(pa, 255);
}

#[test]
fn round_trip_within_tolerance_across_color_grid() {
    // Encoding then reconstructing any color lands within the proven
    // rounding bound of two per channel.
    for r in (0..=255u16).step_by(5) {
        for g in (0..=255u16).step_by(5) {
            for b in (0..=255u16).step_by(5) {
                assert_round_trip_within_2(r as u8, g as u8, b as u8);
            }
        }
    }
}

#[test]
fn round_trip_within_tolerance_at_hard_colors() {
    // The chroma saturation corners, and colors whose remainders stack
    // against the rounding.
    assert_round_trip_within_2(0, 0, 255);
    assert_round_trip_within_2(255, 0, 0);
    assert_round_trip_within_2(0, 255, 0);
    assert_round_trip_within_2(11, 255, 0);
    assert_round_trip_within_2(1, 1, 254);
    assert_round_trip_within_2(254, 1, 1);
}

#[test]
fn converted_frame_is_well_formed_for_reassembly() {
    // The converted output round-trips through the runtime invariant
    // check that guards frames arriving from outside.
    let (yv, uv, vv) = rgb_to_yuv(200, 100, 50);
    let src = Frame::solid_planar(PixelFormat::Yuv444p, 12, 10, yv, uv, vv);
    let out = convert_frame(src).unwrap();
    let reassembled =
        Frame::from_planes(out.format, out.width, out.height, out.planes).expect("still well-formed");
    assert_eq!(reassembled.width, 12);
}

#[test]
fn from_planes_rejects_malformed_frames() {
    // Too few planes for a planar format.
    assert!(matches!(
        Frame::from_planes(PixelFormat::Yuv420p, 16, 16, Vec::new()),
        Err(PipelineError::Decode)
    ));
    // Zero dimensions.
    assert!(matches!(
        Frame::from_planes(PixelFormat::Rgba, 0, 16, Vec::new()),
        Err(PipelineError::Decode)
    ));
    // Chroma divisor does not divide the width (4:2:0 needs even dims).
    let f = Frame::solid_planar(PixelFormat::Yuv420p, 16, 16, 0, 0, 0);
    assert!(matches!(
        Frame::from_planes(PixelFormat::Yuv420p, 15, 16, f.planes),
        Err(PipelineError::Decode)
    ));
    // Buffer shorter than stride * rows.
    let short = vec![Plane { stride: 64, data: vec![0u8; 63] }];
    assert!(matches!(
        Frame::from_planes(PixelFormat::Rgba, 16, 1, short),
        Err(PipelineError::Decode)
    ));
}

#[test]
fn plane_geometry_follows_chroma_layout() {
    let f = Frame::solid_planar(PixelFormat::Yuv410p, 64, 32, 0, 0, 0);
    assert_eq!(f.plane_count(), 3);
    assert_eq!(f.plane_width(0), 64);
    assert_eq!(f.plane_height(0), 32);
    assert_eq!(f.plane_width(1), 16);
    assert_eq!(f.plane_height(1), 8);
    assert_eq!(f.plane_width(2), 16);
    assert_eq!(f.plane_height(2), 8);

    let g = Frame::solid_planar(PixelFormat::Yuv440p, 64, 32, 0, 0, 0);
    assert_eq!(g.plane_width(1), 64);
    assert_eq!(g.plane_height(1), 16);
}
