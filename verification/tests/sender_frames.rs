use grafton_ndi::format::{LineStrideOrSize, PixelFormat};
use grafton_ndi::sender::BorrowedVideoFrame;
use grafton_ndi::video::ScanType;
use grafton_ndi::Error;

#[test]
fn test_try_from_uncompressed_exact_size() {
    let buffer = vec![0u8; 1920 * 1080 * 4];
    let result = BorrowedVideoFrame::try_from_uncompressed(&buffer, 1920, 1080, PixelFormat::BGRA, 30, 1);
    assert!(result.is_ok());
}

#[test]
fn test_try_from_uncompressed_oversized_buffer() {
    let buffer = vec![0u8; 1920 * 1080 * 4 + 1000];
    let result = BorrowedVideoFrame::try_from_uncompressed(&buffer, 1920, 1080, PixelFormat::BGRA, 30, 1);
    assert!(result.is_ok());
}

#[test]
fn test_try_from_uncompressed_undersized_buffer() {
    let buffer = vec![0u8; 1920 * 1080 * 4 - 1];
    let result = BorrowedVideoFrame::try_from_uncompressed(&buffer, 1920, 1080, PixelFormat::BGRA, 30, 1);
    assert!(result.is_err());
    if let Err(Error::InvalidFrame(msg)) = result {
        assert!(msg.contains("Buffer too small"));
        assert!(msg.contains("BGRA"));
    }
}

#[test]
fn test_try_from_uncompressed_uyvy() {
    let expected_size = 1920 * 1080 * 2;
    let buffer = vec![0u8; expected_size];
    let result = BorrowedVideoFrame::try_from_uncompressed(&buffer, 1920, 1080, PixelFormat::UYVY, 60, 1);
    assert!(result.is_ok());
}

#[test]
fn test_try_from_uncompressed_nv12() {
    let width = 1920;
    let height = 1080;
    let expected_size = PixelFormat::NV12.try_buffer_size(width, height).unwrap();
    let buffer = vec![0u8; expected_size];

    let result = BorrowedVideoFrame::try_from_uncompressed(&buffer, width, height, PixelFormat::NV12, 30, 1);
    assert!(result.is_ok());
}

#[test]
fn test_try_from_uncompressed_i420() {
    let width = 640;
    let height = 480;
    let expected_size = PixelFormat::I420.try_buffer_size(width, height).unwrap();
    let buffer = vec![0u8; expected_size];

    let result = BorrowedVideoFrame::try_from_uncompressed(&buffer, width, height, PixelFormat::I420, 30, 1);
    assert!(result.is_ok());
}

#[test]
fn test_try_from_compressed_exact_size() {
    let data_size = 100000;
    let buffer = vec![0u8; data_size];
    let result =
        BorrowedVideoFrame::try_from_compressed(&buffer, data_size as i32, 1920, 1080, PixelFormat::UYVY, 30, 1);
    assert!(result.is_ok());
}

#[test]
fn test_try_from_compressed_undersized() {
    let data_size = 100000;
    let buffer = vec![0u8; data_size - 1];
    let result =
        BorrowedVideoFrame::try_from_compressed(&buffer, data_size as i32, 1920, 1080, PixelFormat::UYVY, 30, 1);
    assert!(result.is_err());
    if let Err(Error::InvalidFrame(msg)) = result {
        assert!(msg.contains("Buffer too small"));
    }
}

#[test]
fn test_from_parts_unchecked() {
    let buffer = vec![0u8; 1920 * 1080 * 4];
    let stride = PixelFormat::BGRA.try_line_stride(1920).unwrap();

    let frame = BorrowedVideoFrame::from_parts_unchecked(
        &buffer,
        1920,
        1080,
        PixelFormat::BGRA,
        30,
        1,
        (16.0f32 / 9.0).to_bits(),
        ScanType::Progressive,
        0,
        LineStrideOrSize::LineStrideBytes(stride),
        None,
        0,
    );

    assert_eq!(frame.width(), 1920);
    assert_eq!(frame.height(), 1080);
    assert_eq!(frame.pixel_format(), PixelFormat::BGRA);
}

#[test]
fn test_getters() {
    let buffer = vec![0u8; 1920 * 1080 * 4];
    let frame = BorrowedVideoFrame::try_from_uncompressed(&buffer, 1920, 1080, PixelFormat::BGRA, 60, 1).unwrap();

    assert_eq!(frame.width(), 1920);
    assert_eq!(frame.height(), 1080);
    assert_eq!(frame.pixel_format(), PixelFormat::BGRA);
    assert_eq!(frame.frame_rate_n(), 60);
    assert_eq!(frame.frame_rate_d(), 1);
    assert_eq!(frame.picture_aspect_ratio(), (16.0f32 / 9.0).to_bits());
    assert_eq!(frame.scan_type(), ScanType::Progressive);
    assert_eq!(frame.timecode(), 0);
    assert_eq!(frame.data().len(), buffer.len());
    assert!(frame.metadata().is_none());
    assert_eq!(frame.timestamp(), 0);
}

#[test]
fn test_all_pixel_formats_validation() {
    let test_cases = vec![
        (PixelFormat::BGRA, 1920, 1080, 1920 * 1080 * 4),
        (PixelFormat::RGBA, 1920, 1080, 1920 * 1080 * 4),
        (PixelFormat::BGRX, 1920, 1080, 1920 * 1080 * 4),
        (PixelFormat::RGBX, 1920, 1080, 1920 * 1080 * 4),
        (PixelFormat::UYVY, 1920, 1080, 1920 * 1080 * 2),
        (PixelFormat::UYVA, 1920, 1080, 1920 * 1080 * 3),
        (PixelFormat::P216, 1920, 1080, 1920 * 1080 * 4),
        (PixelFormat::PA16, 1920, 1080, 1920 * 1080 * 4),
    ];

    for (format, width, height, expected_min_size) in test_cases {
        let buffer = vec![0u8; expected_min_size];
        let result = BorrowedVideoFrame::try_from_uncompressed(&buffer, width, height, format, 30, 1);
        assert!(result.is_ok(), "Failed for format {:?}", format);

        if expected_min_size > 0 {
            let buffer = vec![0u8; expected_min_size - 1];
            let result = BorrowedVideoFrame::try_from_uncompressed(&buffer, width, height, format, 30, 1);
            assert!(result.is_err(), "Should fail for undersized {:?}", format);
        }
    }
}

#[test]
fn test_planar_formats() {
    let width = 1920;
    let height = 1080;

    for format in [PixelFormat::NV12, PixelFormat::I420, PixelFormat::YV12] {
        let expected_size = format.try_buffer_size(width, height).unwrap();

        let buffer = vec![0u8; expected_size];
        let result = BorrowedVideoFrame::try_from_uncompressed(&buffer, width, height, format, 30, 1);
        assert!(result.is_ok(), "Failed for planar format {:?}", format);

        if expected_size > 0 {
            let buffer = vec![0u8; expected_size - 1];
            let result = BorrowedVideoFrame::try_from_uncompressed(&buffer, width, height, format, 30, 1);
            assert!(result.is_err(), "Should fail for undersized {:?}", format);
        }
    }
}
