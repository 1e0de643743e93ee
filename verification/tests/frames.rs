use face_tracker::errors::CameraError;
use face_tracker::frame::{PixelFormat, RawFrame};

#[test]
fn frame_keeps_what_it_was_given() {
    let frame = RawFrame::new(2, 3, PixelFormat::Gray8, vec![1, 2, 3, 4, 5, 6], 1234, 7).unwrap();
    assert_eq!(frame.width(), 2);
    assert_eq!(frame.height(), 3);
    assert_eq!(frame.format(), PixelFormat::Gray8);
    assert_eq!(frame.pixels(), &vec![1, 2, 3, 4, 5, 6]);
    assert_eq!(frame.timestamp_ms(), 1234);
    assert_eq!(frame.generation(), 7);
}

#[test]
fn pixel_sizes() {
    assert_eq!(PixelFormat::Gray8.pixel_size(), 1);
    assert_eq!(PixelFormat::Rgb24.pixel_size(), 3);
}

#[test]
fn frame_without_pixels_is_a_failed_read() {
    assert_eq!(RawFrame::new(0, 3, PixelFormat::Gray8, vec![], 0, 1), Err(CameraError::ReadFailed));
    assert_eq!(RawFrame::new(3, 0, PixelFormat::Rgb24, vec![], 0, 1), Err(CameraError::ReadFailed));
}

#[test]
fn frame_with_a_wrong_buffer_is_a_failed_read() {
    assert_eq!(RawFrame::new(2, 2, PixelFormat::Gray8, vec![0; 3], 0, 1), Err(CameraError::ReadFailed));
    assert_eq!(RawFrame::new(2, 2, PixelFormat::Gray8, vec![0; 5], 0, 1), Err(CameraError::ReadFailed));
    assert_eq!(RawFrame::new(2, 2, PixelFormat::Rgb24, vec![0; 4], 0, 1), Err(CameraError::ReadFailed));
    assert!(RawFrame::new(2, 2, PixelFormat::Rgb24, vec![0; 12], 0, 1).is_ok());
    assert_eq!(
        RawFrame::new(u32::MAX, u32::MAX, PixelFormat::Rgb24, vec![0; 16], 0, 1),
        Err(CameraError::ReadFailed)
    );
}

#[test]
fn gray_frame_is_copied_as_it_is() {
    let frame = RawFrame::new(2, 1, PixelFormat::Gray8, vec![10, 200], 5, 3).unwrap();
    assert_eq!(frame.to_gray(), frame);
}

#[test]
fn color_frame_becomes_one_byte_per_pixel() {
    let pixels = vec![255, 255, 255, 0, 0, 0, 255, 0, 0, 0, 255, 0];
    let frame = RawFrame::new(2, 2, PixelFormat::Rgb24, pixels, 99, 4).unwrap();
    let gray = frame.to_gray();
    assert_eq!(gray.width(), 2);
    assert_eq!(gray.height(), 2);
    assert_eq!(gray.format(), PixelFormat::Gray8);
    assert_eq!(gray.timestamp_ms(), 99);
    assert_eq!(gray.generation(), 4);
    assert_eq!(gray.pixels().len(), 4);
    assert_eq!(gray.pixels()[0], 255);
    assert_eq!(gray.pixels()[1], 0);
    assert!(gray.pixels()[2] < gray.pixels()[3]);
    assert_eq!(frame.to_gray(), gray);
}
