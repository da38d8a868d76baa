use grafton_ndi::audio::{AudioFormat, RawAudioFrame};
use grafton_ndi::capture::{classify_capture, AudioKind, CaptureOutcome, MetadataKind, VideoKind};
use grafton_ndi::framesync::{
    is_framesync_video_empty, FrameSyncAudioRawRequest, FrameSyncAudioRef, FrameSyncAudioRequest,
    FrameSyncVideoRef,
};
use grafton_ndi::runtime::{AcquireStep, Phase, RuntimeState};
use grafton_ndi::sdk::{
    NDIlib_FourCC_audio_type_FLTP, NDIlib_frame_type_audio, NDIlib_frame_type_error,
    NDIlib_frame_type_metadata, NDIlib_frame_type_none, NDIlib_frame_type_status_change,
    NDIlib_frame_type_video,
};
use grafton_ndi::video::RawVideoFrame;
use grafton_ndi::Error;

#[test]
fn test_frame_type_constants() {
    assert_eq!(VideoKind::FRAME_TYPE, NDIlib_frame_type_video);
    assert_eq!(AudioKind::FRAME_TYPE, NDIlib_frame_type_audio);
    assert_eq!(MetadataKind::FRAME_TYPE, NDIlib_frame_type_metadata);
}

#[test]
fn capture_classification() {
    let v = VideoKind::FRAME_TYPE;
    assert_eq!(classify_capture(NDIlib_frame_type_video, v), CaptureOutcome::Frame);
    assert_eq!(classify_capture(NDIlib_frame_type_none, v), CaptureOutcome::NoFrame);
    assert_eq!(classify_capture(NDIlib_frame_type_error, v), CaptureOutcome::Error);
    assert_eq!(classify_capture(NDIlib_frame_type_status_change, v), CaptureOutcome::NoFrame);
    assert_eq!(classify_capture(NDIlib_frame_type_audio, v), CaptureOutcome::NoFrame);
}

#[test]
fn test_video_ref_size() {
    let size = std::mem::size_of::<FrameSyncVideoRef>();
    assert!(size > 0, "FrameSyncVideoRef should have non-zero size");
}

#[test]
fn test_audio_ref_size() {
    let size = std::mem::size_of::<FrameSyncAudioRef>();
    assert!(size > 0, "FrameSyncAudioRef should have non-zero size");
}

#[test]
fn test_framesync_audio_ref_query_source_format_empty() {
    let raw = RawAudioFrame {
        sample_rate: 48000,
        no_channels: 2,
        no_samples: 0,
        timecode: 0,
        fourcc: NDIlib_FourCC_audio_type_FLTP,
        p_data: None,
        channel_stride_in_bytes: 0,
        p_metadata: None,
        timestamp: 0,
    };

    let frame = FrameSyncAudioRef::new(raw, true).expect("query source frame");

    assert!(frame.is_empty());
    assert_eq!(frame.sample_rate(), 48000);
    assert_eq!(frame.num_channels(), 2);
    assert_eq!(frame.format(), Some(AudioFormat::FLTP));
}

#[test]
fn framesync_audio_ref_no_source_state() {
    let frame = FrameSyncAudioRef::new(RawAudioFrame::default(), true).expect("empty query frame");
    assert!(frame.is_empty());
    assert_eq!(frame.metadata(), None);
    assert!(frame.data().is_empty());
    assert_eq!(frame.format(), None);
    assert!(frame.to_owned().expect("owned conversion").is_none());
}

#[test]
fn framesync_audio_ref_capture_rejects_empty() {
    let result = FrameSyncAudioRef::new(RawAudioFrame::default(), false);
    assert!(matches!(result, Err(Error::InvalidFrame(_))));
}

#[test]
fn framesync_audio_requests_map_to_sdk_values() {
    assert_eq!(
        FrameSyncAudioRequest::QueryInput.to_raw().unwrap(),
        FrameSyncAudioRawRequest { sample_rate: 0, channels: 0, samples: 0, query_input: true }
    );
    assert_eq!(
        FrameSyncAudioRequest::capture(1024).to_raw().unwrap(),
        FrameSyncAudioRawRequest { sample_rate: 0, channels: 0, samples: 1024, query_input: false }
    );
    assert_eq!(
        FrameSyncAudioRequest::capture_with(Some(48000), Some(2), 256).to_raw().unwrap(),
        FrameSyncAudioRawRequest { sample_rate: 48000, channels: 2, samples: 256, query_input: false }
    );
    assert!(matches!(
        FrameSyncAudioRequest::capture_with(Some(-1), None, 256).to_raw(),
        Err(Error::InvalidConfiguration(_))
    ));
}

fn zero_video() -> RawVideoFrame<'static> {
    RawVideoFrame {
        xres: 0,
        yres: 0,
        fourcc: 0,
        frame_rate_n: 0,
        frame_rate_d: 0,
        picture_aspect_ratio_bits: 0,
        frame_format_type: 0,
        timecode: 0,
        p_data: None,
        line_stride_or_size: 0,
        p_metadata: None,
        timestamp: 0,
    }
}

#[test]
fn video_empty_classifier_accepts_only_all_zero() {
    assert!(is_framesync_video_empty(&zero_video()));
    let negative_zero = RawVideoFrame { picture_aspect_ratio_bits: (-0.0f32).to_bits(), ..zero_video() };
    assert!(is_framesync_video_empty(&negative_zero));
    let partial = RawVideoFrame { xres: 1920, ..zero_video() };
    assert!(!is_framesync_video_empty(&partial));
    let byte = [0u8];
    let with_data = RawVideoFrame { p_data: Some(&byte), ..zero_video() };
    assert!(!is_framesync_video_empty(&with_data));
}

#[test]
fn runtime_lifecycle_reinitializes_after_teardown() {
    let mut state = RuntimeState::new();
    assert_eq!(state.begin_acquire(), AcquireStep::Initialize);
    assert_eq!(state.phase, Phase::Initializing);
    assert!(state.finish_initialize(true).is_ok());
    assert!(state.is_running());
    assert_eq!(state.begin_acquire(), AcquireStep::Acquired);
    assert_eq!(state.refcount, 2);
    assert!(!state.begin_release());
    assert!(state.begin_release());
    assert_eq!(state.phase, Phase::Destroying);
    assert_eq!(state.begin_acquire(), AcquireStep::Wait);
    state.finish_destroy();
    assert!(!state.is_running());
    assert_eq!(state.begin_acquire(), AcquireStep::Initialize);
}

#[test]
fn runtime_lifecycle_retries_after_failure() {
    let mut state = RuntimeState::new();
    assert_eq!(state.begin_acquire(), AcquireStep::Initialize);
    assert!(matches!(state.finish_initialize(false), Err(Error::InitializationFailed(_))));
    assert_eq!(state.phase, Phase::Failed);
    assert!(!state.is_running());
    assert_eq!(state.begin_acquire(), AcquireStep::Initialize);
}
