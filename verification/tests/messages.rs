use grafton_ndi::audio::validate_outbound_audio_layout;
use grafton_ndi::format::PixelFormat;
use grafton_ndi::metadata::{validate_frame_metadata, validate_metadata_layout, RawMetadataFrame, MAX_METADATA_BYTES};
use grafton_ndi::text::with_int;
use grafton_ndi::{AudioFormat, Error, VideoFrame, WaitableCompletion};

#[test]
fn timeout_message_names_the_timeout() {
    let w = WaitableCompletion::new();
    assert_eq!(
        w.wait_timeout(10_000_000).unwrap_err(),
        "Async operation did not complete within 10ms"
    );
    assert_eq!(
        w.wait_timeout(1_500_000_000).unwrap_err(),
        "Async operation did not complete within 1.5s"
    );
}

#[test]
fn decimal_text_of_integers() {
    assert_eq!(with_int("v=", 0), "v=0");
    assert_eq!(with_int("v=", 7), "v=7");
    assert_eq!(with_int("v=", -42), "v=-42");
    assert_eq!(with_int("", 4_194_304), "4194304");
    assert_eq!(with_int("", i64::MIN as i128), i64::MIN.to_string());
}

#[test]
fn audio_errors_carry_their_values() {
    match validate_outbound_audio_layout(-5, 2, 10, AudioFormat::FLTP) {
        Err(Error::InvalidFrame(m)) => assert_eq!(m, "Invalid sample rate: -5"),
        _ => panic!("expected an invalid frame"),
    }
    match validate_outbound_audio_layout(48000, 0, 10, AudioFormat::FLTP) {
        Err(Error::InvalidFrame(m)) => assert_eq!(m, "Invalid number of channels: 0"),
        _ => panic!("expected an invalid frame"),
    }
    match validate_outbound_audio_layout(48000, 2, 300_000_000, AudioFormat::FLTP) {
        Err(Error::InvalidFrame(m)) => assert!(m.starts_with("Audio frame exceeds maximum size: 2400000000 bytes > ")),
        _ => panic!("expected an invalid frame"),
    }
}

#[test]
fn video_builder_errors_carry_their_values() {
    match VideoFrame::builder().resolution(0, 1080).build() {
        Err(Error::InvalidFrame(m)) => assert_eq!(m, "Video frame has invalid width: 0"),
        _ => panic!("expected an invalid frame"),
    }
    match VideoFrame::builder().resolution(1919, 1080).pixel_format(PixelFormat::I420).build() {
        Err(Error::InvalidFrame(m)) => assert_eq!(m, "Planar 4:2:0 video frames require even width, got 1919"),
        _ => panic!("expected an invalid frame"),
    }
}

#[test]
fn metadata_above_the_cap_is_refused_without_reading() {
    let raw = RawMetadataFrame { length: (MAX_METADATA_BYTES + 1) as i32, timecode: 0, p_data: Some(&[]) };
    match validate_metadata_layout(&raw) {
        Err(Error::InvalidFrame(m)) => {
            assert_eq!(m, "Metadata exceeds maximum size: 4194305 bytes > 4194304 bytes")
        }
        _ => panic!("expected an invalid frame"),
    }
}

#[test]
fn metadata_utf8_errors_say_where() {
    let bytes = [b'a', 0xff, 0];
    let raw = RawMetadataFrame { length: 3, timecode: 0, p_data: Some(&bytes) };
    match validate_metadata_layout(&raw) {
        Err(Error::InvalidUtf8(m)) => assert_eq!(m, "invalid utf-8 sequence of 1 bytes from index 1"),
        _ => panic!("expected invalid UTF-8"),
    }
    match validate_frame_metadata(Some(&bytes)) {
        Err(Error::InvalidUtf8(m)) => assert_eq!(m, "invalid utf-8 sequence of 1 bytes from index 1"),
        _ => panic!("expected invalid UTF-8"),
    }
}
