//! What a receiver capture reports: the frame type the SDK returns, read
//! against the kind of frame that was asked for.

use vstd::prelude::*;
use vstd::string::StringExecFns;

use crate::error::Error;

use crate::sdk::{
    NDIlib_frame_type_audio, NDIlib_frame_type_error, NDIlib_frame_type_metadata,
    NDIlib_frame_type_none, NDIlib_frame_type_video,
};

verus! {

/// Captures of video frames.
#[derive(Debug, Clone, Copy, PartialEq, Eq, Structural)]
pub struct VideoKind;

/// Captures of audio frames.
#[derive(Debug, Clone, Copy, PartialEq, Eq, Structural)]
pub struct AudioKind;

/// Captures of metadata frames.
#[derive(Debug, Clone, Copy, PartialEq, Eq, Structural)]
pub struct MetadataKind;

impl VideoKind {
    /// The frame type the SDK reports for a captured video frame.
    pub const FRAME_TYPE: u32 = 1;
}

impl AudioKind {
    /// The frame type the SDK reports for a captured audio frame.
    pub const FRAME_TYPE: u32 = 2;
}

impl MetadataKind {
    /// The frame type the SDK reports for a captured metadata frame.
    pub const FRAME_TYPE: u32 = 3;
}

/// Outcome of one capture call.
#[derive(Debug, Clone, Copy, PartialEq, Eq, Structural)]
pub enum CaptureOutcome {
    /// A frame of the requested kind arrived.
    Frame,
    /// Nothing of the requested kind arrived (a timeout, or another frame type
    /// such as a status change).
    NoFrame,
    /// The SDK reported an error frame.
    Error,
}

/// Reads the frame type the SDK returned for a capture of frames whose type is
/// `expected`.
pub fn classify_capture(frame_type: u32, expected: u32) -> (r: CaptureOutcome)
    requires
        expected != NDIlib_frame_type_none,
        expected != NDIlib_frame_type_error,
    ensures
        frame_type == expected ==> r == CaptureOutcome::Frame,
        frame_type == NDIlib_frame_type_error ==> r == CaptureOutcome::Error,
        frame_type != expected && frame_type != NDIlib_frame_type_error ==> r
            == CaptureOutcome::NoFrame,
{
    if frame_type == expected {
        CaptureOutcome::Frame
    } else if frame_type == NDIlib_frame_type_none {
        CaptureOutcome::NoFrame
    } else if frame_type == NDIlib_frame_type_error {
        CaptureOutcome::Error
    } else {
        CaptureOutcome::NoFrame
    }
}

/// What one capture call yields before any frame is read: `Ok(true)` when a frame
/// of the requested kind arrived, `Ok(false)` when nothing of that kind did, and a
/// capture failure for an error frame.
pub fn capture_result(frame_type: u32, expected: u32) -> (r: Result<bool, Error>)
    requires
        expected != NDIlib_frame_type_none,
        expected != NDIlib_frame_type_error,
    ensures
        frame_type == expected ==> r == Ok::<bool, Error>(true),
        frame_type == NDIlib_frame_type_error ==> (r matches Err(Error::CaptureFailed(m)) && m@
            == "Received an error frame"@),
        frame_type != expected && frame_type != NDIlib_frame_type_error ==> r == Ok::<bool, Error>(
            false,
        ),
{
    match classify_capture(frame_type, expected) {
        CaptureOutcome::Frame => Ok(true),
        CaptureOutcome::NoFrame => Ok(false),
        CaptureOutcome::Error => Err(Error::CaptureFailed(String::from_str("Received an error frame"))),
    }
}

/// The frame kinds' types are the SDK's video, audio and metadata values.
pub proof fn lemma_frame_types()
    ensures
        VideoKind::FRAME_TYPE == NDIlib_frame_type_video,
        AudioKind::FRAME_TYPE == NDIlib_frame_type_audio,
        MetadataKind::FRAME_TYPE == NDIlib_frame_type_metadata,
{
}

} // verus!
