use grafton_ndi::audio::{
    validate_audio_layout, validate_audio_layout_allow_empty, AudioFormat, RawAudioFrame,
    MAX_AUDIO_BYTES,
};
use grafton_ndi::audio_frame::AudioFrameRef;
use grafton_ndi::format::{
    calculate_buffer_len_checked, FormatCategory, LineStrideOrSize, PixelFormat, MAX_VIDEO_BYTES,
};
use grafton_ndi::metadata::{MetadataFrame, MAX_METADATA_BYTES};
use grafton_ndi::sdk::NDIlib_FourCC_audio_type_FLTP;
use grafton_ndi::video::{RawVideoFrame, ScanType, VideoFrameRef};

fn aspect_16_9() -> u32 {
    (16.0f32 / 9.0f32).to_bits()
}

#[test]
fn test_pixel_format_info_packed_rgb() {
    let formats = [
        PixelFormat::BGRA,
        PixelFormat::BGRX,
        PixelFormat::RGBA,
        PixelFormat::RGBX,
    ];

    for fmt in formats {
        let info = fmt.info();
        assert_eq!(info.bytes_per_pixel(), 4, "Format {:?} bytes per pixel", fmt);
        assert_eq!(info.category(), FormatCategory::Packed, "Format {:?} category", fmt);
        assert!(!info.is_planar_420(), "Format {:?} should not be planar", fmt);

        let len = info.try_buffer_len(7680, 1080).unwrap();
        assert_eq!(len, 7680 * 1080, "Format {:?} even dimensions", fmt);

        let len = info.try_buffer_len(7684, 1081).unwrap();
        assert_eq!(len, 7684 * 1081, "Format {:?} odd dimensions", fmt);
    }
}

#[test]
fn test_pixel_format_info_packed_yuv() {
    let info = PixelFormat::UYVY.info();
    assert_eq!(info.bytes_per_pixel(), 2);
    assert_eq!(info.category(), FormatCategory::Packed);
    let len = info.try_buffer_len(3840, 1080).unwrap();
    assert_eq!(len, 3840 * 1080);

    let info = PixelFormat::UYVA.info();
    assert_eq!(info.bytes_per_pixel(), 3);
    assert_eq!(info.category(), FormatCategory::Packed);
    let len = info.try_buffer_len(5760, 1080).unwrap();
    assert_eq!(len, 5760 * 1080);

    let info = PixelFormat::P216.info();
    assert_eq!(info.bytes_per_pixel(), 4);
    assert_eq!(info.category(), FormatCategory::Packed);
    let len = info.try_buffer_len(7680, 1080).unwrap();
    assert_eq!(len, 7680 * 1080);

    let info = PixelFormat::PA16.info();
    assert_eq!(info.bytes_per_pixel(), 4);
    let len = info.try_buffer_len(7680, 1080).unwrap();
    assert_eq!(len, 7680 * 1080);
}

#[test]
fn test_pixel_format_info_planar_420_even() {
    let y_stride = 1920;

    let info = PixelFormat::YV12.info();
    assert_eq!(info.bytes_per_pixel(), 1);
    assert_eq!(info.category(), FormatCategory::Planar420);
    assert!(info.is_planar_420());
    let len = info.try_buffer_len(y_stride, 1080).unwrap();
    assert_eq!(len, 3_110_400, "YV12 1920x1080");

    let info = PixelFormat::I420.info();
    assert_eq!(info.category(), FormatCategory::Planar420);
    let len = info.try_buffer_len(y_stride, 1080).unwrap();
    assert_eq!(len, 3_110_400, "I420 1920x1080");
}

#[test]
fn test_pixel_format_info_planar_420_odd() {
    let y_stride = 1921;

    assert!(PixelFormat::YV12.info().try_buffer_len(y_stride, 1081).is_err());
    assert!(PixelFormat::I420.info().try_buffer_len(y_stride, 1081).is_err());
}

#[test]
fn test_pixel_format_info_nv12_even() {
    let y_stride = 1920;

    let info = PixelFormat::NV12.info();
    assert_eq!(info.bytes_per_pixel(), 1);
    assert_eq!(info.category(), FormatCategory::SemiPlanar420);
    assert!(info.is_planar_420());
    let len = info.try_buffer_len(y_stride, 1080).unwrap();
    assert_eq!(len, 3_110_400, "NV12 1920x1080");
}

#[test]
fn test_pixel_format_info_nv12_odd() {
    let y_stride = 1921;
    assert!(PixelFormat::NV12.info().try_buffer_len(y_stride, 1081).is_err());
}

#[test]
fn test_pixel_format_line_stride() {
    assert_eq!(PixelFormat::BGRA.try_line_stride(1920).unwrap(), 7680);
    assert_eq!(PixelFormat::BGRX.try_line_stride(1920).unwrap(), 7680);
    assert_eq!(PixelFormat::RGBA.try_line_stride(1920).unwrap(), 7680);
    assert_eq!(PixelFormat::RGBX.try_line_stride(1920).unwrap(), 7680);

    assert_eq!(PixelFormat::UYVY.try_line_stride(1920).unwrap(), 3840);

    assert_eq!(PixelFormat::UYVA.try_line_stride(1920).unwrap(), 5760);

    assert_eq!(PixelFormat::P216.try_line_stride(1920).unwrap(), 7680);
    assert_eq!(PixelFormat::PA16.try_line_stride(1920).unwrap(), 7680);

    assert_eq!(PixelFormat::YV12.try_line_stride(1920).unwrap(), 1920);
    assert_eq!(PixelFormat::I420.try_line_stride(1920).unwrap(), 1920);
    assert_eq!(PixelFormat::NV12.try_line_stride(1920).unwrap(), 1920);
}

#[test]
fn test_pixel_format_buffer_size() {
    assert_eq!(PixelFormat::BGRA.try_buffer_size(1920, 1080).unwrap(), 8_294_400);
    assert_eq!(PixelFormat::RGBA.try_buffer_size(1920, 1080).unwrap(), 8_294_400);

    assert_eq!(PixelFormat::YV12.try_buffer_size(1920, 1080).unwrap(), 3_110_400);
    assert_eq!(PixelFormat::I420.try_buffer_size(1920, 1080).unwrap(), 3_110_400);

    assert_eq!(PixelFormat::NV12.try_buffer_size(1920, 1080).unwrap(), 3_110_400);
}

#[test]
fn test_pixel_format_info_is_planar_420() {
    assert!(PixelFormat::YV12.info().is_planar_420());
    assert!(PixelFormat::I420.info().is_planar_420());
    assert!(PixelFormat::NV12.info().is_planar_420());

    assert!(!PixelFormat::BGRA.info().is_planar_420());
    assert!(!PixelFormat::RGBA.info().is_planar_420());
    assert!(!PixelFormat::UYVY.info().is_planar_420());
    assert!(!PixelFormat::UYVA.info().is_planar_420());
}

fn bgra_raw(data: &[u8], width: i32, height: i32, stride: i32) -> RawVideoFrame<'_> {
    RawVideoFrame {
        xres: width,
        yres: height,
        fourcc: PixelFormat::BGRA.fourcc(),
        frame_rate_n: 60,
        frame_rate_d: 1,
        picture_aspect_ratio_bits: aspect_16_9(),
        frame_format_type: ScanType::Progressive.code(),
        timecode: 0,
        p_data: Some(data),
        line_stride_or_size: stride,
        p_metadata: None,
        timestamp: 0,
    }
}

#[test]
fn test_videoframeref_known_fourcc() {
    let width = 1920;
    let height = 1080;
    let stride = 1920 * 4;
    let expected_size = (stride * height) as usize;
    let data = vec![0u8; expected_size];

    let raw = bgra_raw(&data, width, height, stride);
    let frame_ref = VideoFrameRef::new(raw).expect("Should accept BGRA FourCC");
    assert_eq!(
        frame_ref.pixel_format(),
        PixelFormat::BGRA,
        "Should store validated pixel format"
    );
}

#[test]
fn test_audioframeref_known_fourcc() {
    let num_samples = 1024;
    let num_channels = 2;
    let sample_count = (num_samples * num_channels) as usize;
    let data = vec![0.0f32.to_bits(); sample_count];

    let raw = RawAudioFrame {
        sample_rate: 48000,
        no_channels: num_channels,
        no_samples: num_samples,
        timecode: 0,
        fourcc: NDIlib_FourCC_audio_type_FLTP,
        p_data: Some(&data),
        channel_stride_in_bytes: num_samples * 4,
        p_metadata: None,
        timestamp: 0,
    };

    let frame_ref = AudioFrameRef::new(raw).expect("Should accept FLTP FourCC");
    assert_eq!(
        frame_ref.format(),
        AudioFormat::FLTP,
        "Should store validated audio format"
    );
}

#[test]
fn test_videoframeref_data_uses_validated_format() {
    let width = 1920;
    let height = 1080;
    let stride = 1920 * 4;
    let expected_size = (stride * height) as usize;
    let data = vec![0xAB_u8; expected_size];

    let raw = bgra_raw(&data, width, height, stride);
    let frame_ref = VideoFrameRef::new(raw).expect("Should create frame ref");

    assert_eq!(
        frame_ref.data().len(),
        expected_size,
        "data() should use validated pixel format for size calculation"
    );

    assert_eq!(
        frame_ref.line_stride_or_size(),
        LineStrideOrSize::LineStrideBytes(stride),
        "line_stride_or_size() should use validated format"
    );
}

#[test]
fn test_max_video_bytes_constant() {
    assert_eq!(MAX_VIDEO_BYTES, 100 * 1024 * 1024);
}

#[test]
fn test_max_audio_bytes_constant() {
    assert_eq!(MAX_AUDIO_BYTES, 64 * 1024 * 1024);
}

#[test]
fn test_max_metadata_bytes_constant() {
    assert_eq!(MAX_METADATA_BYTES, 4 * 1024 * 1024);
}

#[test]
fn test_metadata_frame_constructor_and_accessors_preserve_text() {
    let frame = MetadataFrame::with_data("<ndi_product/>", 9876).unwrap();

    assert_eq!(frame.data(), "<ndi_product/>");
    assert_eq!(frame.timecode(), 9876);
    assert_eq!(frame.clone().into_data(), "<ndi_product/>");
}

#[test]
fn test_metadata_frame_setters_preserve_invariants() {
    let mut frame = MetadataFrame::new();

    frame.set_data("updated").unwrap();
    frame.set_timecode(42);

    assert_eq!(frame.data(), "updated");
    assert_eq!(frame.timecode(), 42);
    assert_eq!(MetadataFrame::new().with_timecode(7).timecode(), 7);
}

#[test]
fn test_metadata_frame_to_raw_includes_trailing_nul() {
    let frame = MetadataFrame::with_data("abc", 101).unwrap();
    let (c_data, raw) = frame.to_raw().unwrap();

    assert_eq!(raw.length, 4);
    assert_eq!(raw.timecode, 101);
    assert_eq!(c_data.as_slice(), b"abc\0");
}

#[test]
fn test_empty_metadata_frame_to_raw_sends_explicit_nul() {
    let frame = MetadataFrame::new();
    let (c_data, raw) = frame.to_raw().unwrap();

    assert_eq!(raw.length, 1);
    assert_eq!(c_data.as_slice(), b"\0");
}

#[test]
fn test_validate_audio_layout_valid() {
    let no_samples = 1024;
    let no_channels = 2;
    let sample_count = (no_samples * no_channels) as usize;
    let data = vec![0.0f32.to_bits(); sample_count];

    let raw = RawAudioFrame {
        sample_rate: 48000,
        no_channels,
        no_samples,
        timecode: 0,
        fourcc: NDIlib_FourCC_audio_type_FLTP,
        p_data: Some(&data),
        channel_stride_in_bytes: no_samples * 4,
        p_metadata: None,
        timestamp: 0,
    };

    let result = validate_audio_layout(&raw);
    assert!(result.is_ok(), "Should validate valid audio frame");

    let layout = result.unwrap();
    assert_eq!(layout.format, Some(AudioFormat::FLTP));
    assert_eq!(layout.sample_count, sample_count);
}

#[test]
fn test_validate_audio_layout_strided_planar() {
    let no_samples = 4;
    let no_channels = 2;
    let stride_samples = 6;
    let backing_samples = (stride_samples + no_samples) as usize;
    let data = vec![0.0f32.to_bits(); backing_samples];

    let raw = RawAudioFrame {
        sample_rate: 48000,
        no_channels,
        no_samples,
        timecode: 0,
        fourcc: NDIlib_FourCC_audio_type_FLTP,
        p_data: Some(&data),
        channel_stride_in_bytes: stride_samples * 4,
        p_metadata: None,
        timestamp: 0,
    };

    let layout = validate_audio_layout(&raw).expect("strided FLTP should validate");
    assert_eq!(layout.sample_count, backing_samples);
    assert_eq!(layout.channel_stride_samples, stride_samples as usize);
    assert_eq!(layout.channel_range(1), Some(6..10));
}

#[test]
fn test_validate_audio_layout_empty_query_no_source() {
    let raw = RawAudioFrame::default();

    let layout =
        validate_audio_layout_allow_empty(&raw).expect("all-zero query state should validate");
    assert!(layout.is_empty());
    assert_eq!(layout.format(), None);
    assert_eq!(layout.sample_count, 0);
}

#[test]
fn test_validate_audio_layout_empty_query_with_source_format() {
    let raw = RawAudioFrame {
        sample_rate: 48000,
        no_channels: 2,
        no_samples: 0,
        timecode: 0,
        fourcc: NDIlib_FourCC_audio_type_FLTP,
        p_data: None,
        channel_stride_in_bytes: 0,
        p_metadata: None,
        timestamp: 0,
    };

    let layout = validate_audio_layout_allow_empty(&raw)
        .expect("query source format should validate without samples");
    assert!(layout.is_empty());
    assert_eq!(layout.format(), Some(AudioFormat::FLTP));
    assert_eq!(layout.sample_rate, 48000);
    assert_eq!(layout.no_channels, 2);
}

#[test]
fn test_calculate_buffer_len_checked_matches_public_helper() {
    let test_cases = [
        (PixelFormat::BGRA, 7680usize, 1080usize),
        (PixelFormat::UYVY, 3840usize, 1080usize),
        (PixelFormat::NV12, 1920usize, 1080usize),
        (PixelFormat::YV12, 1920usize, 1080usize),
        (PixelFormat::I420, 1920usize, 1080usize),
    ];

    for (format, stride, height) in test_cases {
        let expected = format
            .info()
            .try_buffer_len(stride as i32, height as i32)
            .unwrap();
        let result = calculate_buffer_len_checked(format, stride, height);

        assert!(result.is_ok(), "Should succeed for valid inputs: {:?}", format);
        assert_eq!(
            result.unwrap(),
            expected,
            "Checked calculation should match unchecked for {:?}",
            format
        );
    }
}
