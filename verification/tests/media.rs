use screencapturekit::output::pixel_buffer::{creation_result, planar_plane_count, PARAM_ERR};
use screencapturekit::cm::status_result;
use screencapturekit::output::sc_stream_frame_info::{display_time_from, SCFrameStatus as AttachedStatus};
use screencapturekit::cm::frame_status::SCFrameStatus as OpenFrameStatus;
use screencapturekit::cm::{
    sample_frame_status, CMSampleTimingInfo, CMTime, FrameInfo, SCFrameStatus,
    FRAME_INFO_DISPLAY_TIME, FRAME_INFO_SCALE_FACTOR, FRAME_INFO_SCREEN_RECT, FRAME_INFO_STATUS,
};
use screencapturekit::output::iosurface::{plane_columns, plane_row_range, region_len, row_range};
use screencapturekit::output::{
    IOSurfaceLockOptions, PixelBufferCursorExt, PixelBufferLockFlags, PixelCursor,
    PlaneProperties,
};
use screencapturekit::screenshot_manager::{
    check_destination, check_rendered, required_byte_size, PixelLayout, RenderError,
    SCScreenshotDisplayIntent, SCScreenshotDynamicRange,
};

#[test]
fn cm_time_flags() {
    let t = CMTime::new(30, 600);
    assert!(t.is_valid() && !t.is_indefinite() && !t.is_positive_infinity());
    assert!(!CMTime::invalid().is_valid());
    assert!(CMTime::zero().is_zero());
    assert!(CMTime::positive_infinity().is_positive_infinity());
    assert!(CMTime::negative_infinity().is_negative_infinity());
    assert!(CMTime::indefinite().is_indefinite());
    assert!(t.equals(&CMTime::new(30, 600)));
    assert!(!t.equals(&CMTime::new(31, 600)));
    let info = CMSampleTimingInfo::with_times(t, CMTime::invalid(), t);
    assert!(info.has_valid_duration() && !info.has_valid_presentation_time());
    assert!(!CMSampleTimingInfo::new().is_valid());
}

#[test]
fn frame_status_codes() {
    assert_eq!(SCFrameStatus::from_raw(0), Some(SCFrameStatus::Complete));
    assert_eq!(SCFrameStatus::from_raw(5), Some(SCFrameStatus::Stopped));
    assert_eq!(SCFrameStatus::from_raw(6), None);
    assert!(SCFrameStatus::Complete.has_content() && SCFrameStatus::Started.has_content());
    assert!(!SCFrameStatus::Idle.has_content());
    assert_eq!(sample_frame_status(-1), None);
    assert_eq!(sample_frame_status(1), Some(SCFrameStatus::Idle));
    assert_eq!(OpenFrameStatus::from_raw(9), OpenFrameStatus::Unknown(9));
    assert_eq!(OpenFrameStatus::from_raw(9).raw(), 9);
    assert_eq!(OpenFrameStatus::from_raw(3).raw(), 3);
}

#[test]
fn frame_info_keeps_only_present_fields() {
    assert_eq!(FrameInfo::<f64, (f64, f64)>::decode(false, 255, 0, 1, 2.0, 1.0, (0.0, 0.0), (0.0, 0.0), (0.0, 0.0), (0.0, 0.0)), None);
    let fields = FRAME_INFO_STATUS | FRAME_INFO_DISPLAY_TIME | FRAME_INFO_SCALE_FACTOR | FRAME_INFO_SCREEN_RECT;
    let info = FrameInfo::decode(true, fields, 1, 77, 2.0f64, 1.5, (1.0, 1.0), (2.0, 2.0), (3.0, 3.0), (4.0, 4.0)).unwrap();
    assert_eq!(info.frame_status, Some(SCFrameStatus::Idle));
    assert_eq!(info.display_time, Some(77));
    assert_eq!(info.scale_factor, Some(2.0));
    assert_eq!(info.content_scale, None);
    assert_eq!(info.content_rect, None);
    assert_eq!(info.screen_rect, Some((3.0, 3.0)));
    assert_eq!(info.presenter_overlay_content_rect, None);
    let odd = FrameInfo::decode(true, FRAME_INFO_STATUS, 42, 0, 0u8, 0, 0u8, 0, 0, 0).unwrap();
    assert_eq!(odd.frame_status, None);
}

#[test]
fn lock_option_bits() {
    assert_eq!(IOSurfaceLockOptions::ReadOnly.as_u32(), 1);
    assert_eq!(IOSurfaceLockOptions::AvoidSync.as_u32(), 2);
    assert_eq!(PixelBufferLockFlags::ReadOnly.as_u32(), 1);
    assert_eq!(PixelBufferLockFlags::ReadOnly.as_u64(), 1);
}

#[test]
fn surface_rows_and_planes() {
    assert_eq!(region_len(4, 16), 64);
    assert_eq!(row_range(0, 4, 16), Some((0, 16)));
    assert_eq!(row_range(3, 4, 16), Some((48, 16)));
    assert_eq!(row_range(4, 4, 16), None);
    assert_eq!(plane_row_range(1, 2, 8, true), Some((8, 8)));
    assert_eq!(plane_row_range(1, 2, 8, false), None);
    assert_eq!(plane_row_range(2, 2, 8, true), None);
    let planes = [
        PlaneProperties { width: 4, height: 4, bytes_per_row: 4, bytes_per_element: 1, offset: 0, size: 16 },
        PlaneProperties { width: 2, height: 2, bytes_per_row: 4, bytes_per_element: 2, offset: 16, size: 8 },
    ];
    let c = plane_columns(Some(&planes));
    assert_eq!(c.count, 2);
    assert_eq!(c.widths, vec![4, 2]);
    assert_eq!(c.offsets, vec![0, 16]);
    assert_eq!(c.element_bytes, vec![1, 2]);
    assert_eq!(plane_columns(None).count, 0);
}

#[test]
fn pixel_cursor_reads_bgra_pixels() {
    let data: Vec<u8> = (0u8..32).collect();
    let mut cursor = PixelCursor::new(&data);
    assert_eq!(cursor.seek_to_pixel(1, 1, 16), 20);
    assert_eq!(cursor.read_pixel(), Some([20, 21, 22, 23]));
    assert_eq!(cursor.position(), 24);
    assert_eq!(cursor.seek_to_pixel(3, 1, 16), 28);
    assert_eq!(cursor.read_pixel(), Some([28, 29, 30, 31]));
    assert_eq!(cursor.read_pixel(), None);
    cursor.seek_to_pixel(0, 5, 16);
    assert_eq!(cursor.read_pixel(), None);
}

#[test]
fn render_sizes_and_checks() {
    assert_eq!(PixelLayout::Rgba.name(), "RGBA");
    assert_eq!(PixelLayout::Bgra.name(), "BGRA");
    assert_eq!(required_byte_size(1920, 1080), Ok(1920 * 1080 * 4));
    assert_eq!(required_byte_size(0, 1080), Ok(0));
    assert_eq!(required_byte_size(usize::MAX, 2), Err(RenderError::DimensionsOverflow));
    assert_eq!(required_byte_size(usize::MAX / 2, 1), Err(RenderError::DimensionsOverflow));
    assert_eq!(check_destination(2, 2, 15), Err(RenderError::DestinationTooSmall { need: 16, got: 15 }));
    assert_eq!(check_destination(2, 2, 16), Ok(16));
    assert_eq!(check_rendered(PixelLayout::Bgra, 15, 16), Err(RenderError::RenderFailed(PixelLayout::Bgra)));
    assert_eq!(check_rendered(PixelLayout::Rgba, 16, 16), Ok(16));
}

#[test]
fn screenshot_enum_values() {
    assert_eq!(SCScreenshotDisplayIntent::default(), SCScreenshotDisplayIntent::Canonical);
    assert_eq!(SCScreenshotDisplayIntent::Local.raw(), 1);
    assert_eq!(SCScreenshotDynamicRange::default(), SCScreenshotDynamicRange::SDR);
    assert_eq!(SCScreenshotDynamicRange::BothSDRAndHDR.raw(), 2);
}

#[test]
fn attachment_numbers_decode() {
    assert_eq!(AttachedStatus::from_code(0), Some(AttachedStatus::Complete));
    assert_eq!(AttachedStatus::from_code(5), Some(AttachedStatus::Stopped));
    assert_eq!(AttachedStatus::from_code(6), None);
    assert_eq!(AttachedStatus::from_code(-1), None);
    assert_eq!(display_time_from(123), Some(123));
    assert_eq!(display_time_from(-5), None);
}

#[test]
fn planar_creation_needs_one_description_per_plane() {
    assert_eq!(planar_plane_count(2, 2, 2, 2), Ok(2));
    assert_eq!(planar_plane_count(0, 0, 0, 0), Ok(0));
    assert_eq!(planar_plane_count(2, 1, 2, 2), Err(-50));
    assert_eq!(planar_plane_count(2, 2, 3, 2), Err(-50));
    assert_eq!(planar_plane_count(2, 2, 2, 1), Err(-50));
    assert_eq!(PARAM_ERR, -50);
}

#[test]
fn creation_succeeds_only_with_a_buffer_and_status_zero() {
    assert_eq!(creation_result(0, true), Ok(()));
    assert_eq!(creation_result(0, false), Err(0));
    assert_eq!(creation_result(-6661, false), Err(-6661));
    assert_eq!(creation_result(-6661, true), Err(-6661));
}

#[test]
fn filled_values_are_kept_only_with_status_zero() {
    assert_eq!(status_result(0, 7u8), Ok(7));
    assert_eq!(status_result(-12735, 7u8), Err(-12735));
}
