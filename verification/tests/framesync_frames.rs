use grafton_ndi::audio::{AudioFormat, RawAudioFrame};
use grafton_ndi::format::{LineStrideOrSize, PixelFormat};
use grafton_ndi::framesync::{is_framesync_video_empty, FrameSyncAudioRef, FrameSyncAudioRequest, FrameSyncVideoRef};
use grafton_ndi::metadata::MAX_METADATA_BYTES;
use grafton_ndi::sdk::NDIlib_FourCC_audio_type_FLTP;
use grafton_ndi::video::{RawVideoFrame, ScanType};
use grafton_ndi::Error;

fn samples(v: &[f32]) -> Vec<u32> {
    v.iter().map(|x| x.to_bits()).collect()
}

fn default_video() -> RawVideoFrame<'static> {
    RawVideoFrame {
        xres: 0,
        yres: 0,
        fourcc: 0,
        frame_rate_n: 0,
        frame_rate_d: 0,
        picture_aspect_ratio_bits: 0,
        frame_format_type: 0,
        timecode: 0,
        p_data: None,
        line_stride_or_size: 0,
        p_metadata: None,
        timestamp: 0,
    }
}

fn default_audio() -> RawAudioFrame<'static> {
    RawAudioFrame::default()
}

fn bgra_video<'a>(width: i32, height: i32, data: Option<&'a [u8]>, metadata: Option<&'a [u8]>) -> RawVideoFrame<'a> {
    RawVideoFrame {
        xres: width,
        yres: height,
        fourcc: PixelFormat::BGRA.fourcc(),
        frame_rate_n: 60,
        frame_rate_d: 1,
        picture_aspect_ratio_bits: (16.0f32 / 9.0).to_bits(),
        frame_format_type: ScanType::Progressive.code(),
        timecode: 0,
        p_data: data,
        line_stride_or_size: width * 4,
        p_metadata: metadata,
        timestamp: 0,
    }
}

#[test]
fn test_video_empty_classifier_accepts_only_all_zero() {
    let empty = default_video();
    assert!(is_framesync_video_empty(&empty));

    let mut partial = RawVideoFrame { xres: 1920, ..default_video() };
    assert!(!is_framesync_video_empty(&partial));

    let byte = [0u8];
    partial = RawVideoFrame { p_data: Some(&byte), ..default_video() };
    assert!(!is_framesync_video_empty(&partial));
}

#[test]
fn test_framesync_video_ref_uses_validated_layout() {
    let width = 16;
    let height = 8;
    let stride = width * 4;
    let expected_len = (stride * height) as usize;
    let data = vec![0u8; expected_len];
    let metadata = b"framesync video\0".to_vec();

    let raw = bgra_video(width, height, Some(&data), Some(&metadata));

    let frame = FrameSyncVideoRef::new(raw).expect("valid video frame");

    assert_eq!(frame.metadata(), Some("framesync video"));
    assert_eq!(frame.data().len(), expected_len);
    assert_eq!(frame.line_stride_or_size(), LineStrideOrSize::LineStrideBytes(stride));
    let owned = frame.to_owned().expect("owned conversion");
    assert_eq!(owned.metadata(), Some("framesync video"));
    assert!(format!("{frame:?}").contains("FrameSyncVideoRef"));
}

#[test]
fn test_framesync_video_ref_rejects_malformed_metadata() {
    let width = 16;
    let height = 8;
    let stride = width * 4;
    let expected_len = (stride * height) as usize;
    let data = vec![0u8; expected_len];
    let metadata = vec![b'x'; MAX_METADATA_BYTES];

    let raw = bgra_video(width, height, Some(&data), Some(&metadata));

    assert!(matches!(FrameSyncVideoRef::new(raw), Err(Error::InvalidFrame(_))));
}

#[test]
fn test_framesync_video_ref_rejects_partial_empty() {
    let raw = bgra_video(16, 8, None, None);

    let result = FrameSyncVideoRef::new(raw);
    assert!(matches!(result, Err(Error::InvalidFrame(_))));
}

#[test]
fn test_framesync_audio_request_rejects_negative_values() {
    let request = FrameSyncAudioRequest::Capture { sample_rate: Some(-48_000), channels: Some(2), samples: 1_024 };

    assert!(matches!(request.to_raw(), Err(Error::InvalidConfiguration(_))));
}

#[test]
fn test_framesync_audio_ref_query_no_source_empty() {
    let raw = default_audio();
    let frame = FrameSyncAudioRef::new(raw, true).expect("empty query frame");

    assert!(frame.is_empty());
    assert_eq!(frame.metadata(), None);
    assert!(frame.data().is_empty());
    assert_eq!(frame.format(), None);
    assert!(frame.to_owned().expect("owned conversion").is_none());
    assert!(format!("{frame:?}").contains("FrameSyncAudioRef"));
}

#[test]
fn test_framesync_audio_ref_capture_rejects_empty() {
    let raw = default_audio();
    let result = FrameSyncAudioRef::new(raw, false);

    assert!(matches!(result, Err(Error::InvalidFrame(_))));
}

#[test]
fn test_framesync_audio_ref_supports_strided_planar_data() {
    let no_samples = 4;
    let no_channels = 2;
    let stride_samples = 6;
    let mut data = vec![0.0f32; 10];
    let metadata = b"framesync audio\0".to_vec();
    data[0..4].copy_from_slice(&[1.0, 2.0, 3.0, 4.0]);
    data[6..10].copy_from_slice(&[10.0, 20.0, 30.0, 40.0]);
    let data = samples(&data);

    let raw = RawAudioFrame {
        sample_rate: 48000,
        no_channels,
        no_samples,
        timecode: 0,
        fourcc: NDIlib_FourCC_audio_type_FLTP,
        p_data: Some(&data),
        channel_stride_in_bytes: stride_samples * 4,
        p_metadata: Some(&metadata),
        timestamp: 0,
    };

    let frame = FrameSyncAudioRef::new(raw, false).expect("strided audio frame");

    assert_eq!(frame.metadata(), Some("framesync audio"));
    assert_eq!(frame.data().len(), 10);
    assert_eq!(frame.channel_data(0), Some(&samples(&[1.0, 2.0, 3.0, 4.0])[..]));
    assert_eq!(frame.channel_data(1), Some(&samples(&[10.0, 20.0, 30.0, 40.0])[..]));
    assert_eq!(frame.channel_stride_in_bytes(), stride_samples * 4);

    let owned = frame.to_owned().expect("owned conversion").expect("samples");
    assert_eq!(owned.metadata(), Some("framesync audio"));
    assert_eq!(owned.data().len(), 10);
    assert_eq!(owned.channel_data(1), Some(samples(&[10.0, 20.0, 30.0, 40.0])));
    assert_eq!(owned.format(), AudioFormat::FLTP);
}

#[test]
fn test_framesync_audio_ref_rejects_invalid_utf8_metadata() {
    let no_samples = 4;
    let no_channels = 2;
    let data = vec![0u32; (no_samples * no_channels) as usize];
    let metadata = vec![0xFF, 0];

    let raw = RawAudioFrame {
        sample_rate: 48000,
        no_channels,
        no_samples,
        timecode: 0,
        fourcc: NDIlib_FourCC_audio_type_FLTP,
        p_data: Some(&data),
        channel_stride_in_bytes: no_samples * 4,
        p_metadata: Some(&metadata),
        timestamp: 0,
    };

    assert!(matches!(FrameSyncAudioRef::new(raw, false), Err(Error::InvalidUtf8(_))));
}
