//! Verified core of an interface to the NDI 6 SDK: pixel formats and frame
//! layouts, audio and metadata validation, still-image export, source
//! addressing and caching, receiver, frame-sync and sender configuration, the
//! retry rule of reliable capture, and the lifecycle of the shared runtime.
//!
//! Everything that touches the SDK itself (pointers, handles, threads, clocks)
//! lives with the caller; this crate decides what is valid, what to send, and
//! what to do next.

#![allow(non_upper_case_globals)]
#![allow(non_camel_case_types)]

pub mod audio;
pub mod audio_frame;
pub mod capture;
pub mod error;
pub mod finder;
pub mod format;
pub mod framesync;
pub mod image;
pub mod metadata;
pub mod receiver;
pub mod runtime;
pub mod sdk;
pub mod sender;
pub mod text;
pub mod video;
pub mod waitable_completion;

pub use audio::{AudioFormat, AudioLayout, RawAudioFrame, ValidatedAudioLayout};
pub use audio_frame::{AudioFrame, AudioFrameBuilder, AudioFrameRef};
pub use error::Error;
pub use finder::{FinderOptions, FinderOptionsBuilder, Source, SourceAddress, SourceCache};
pub use format::{FormatCategory, LineStrideOrSize, PixelFormat, PixelFormatInfo};
pub use framesync::{FrameSyncAudioRef, FrameSyncAudioRequest};
pub use image::ImageFormat;
pub use metadata::{MetadataFrame, MetadataFrameRef};
pub use receiver::{
    ConnectionStats, ReceiverBandwidth, ReceiverColorFormat, ReceiverOptions,
    ReceiverOptionsBuilder, ReceiverStatus, Tally,
};
pub use sender::{BorrowedVideoFrame, SenderOptions, SenderOptionsBuilder};
pub use video::{RawVideoFrame, ScanType, VideoFrame, VideoFrameBuilder, VideoFrameRef};
pub use waitable_completion::WaitableCompletion;
