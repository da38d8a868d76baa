//! Frame-sync requests and results: audio requests, the "no video yet" state of
//! a frame-sync video capture, and frame-sync audio frames, which may be one of
//! the zero-sample query states.

use vstd::prelude::*;
use vstd::string::StringSliceAdditionalSpecFns;

use crate::audio::{
    channel_start, audio_layout_consistent, audio_layout_of, audio_layout_ok, empty_audio_layout_of,
    empty_audio_layout_ok, validate_audio_layout_inner, AudioFormat, RawAudioFrame,
    ValidatedAudioLayout,
};
use crate::audio_frame::{lemma_counts_fit, AudioFrame};
use crate::error::{invalid_configuration, Error};
use crate::metadata::{
    frame_metadata_matches, frame_metadata_ok, frame_metadata_readable, frame_metadata_shape_ok,
    frame_metadata_str, frame_metadata_text, lemma_frame_metadata_matches_text, validate_frame_metadata,
    ValidatedFrameMetadata,
};
use crate::video::{
    copied_from, raw_video_readable, video_layout_ok, RawVideoFrame, VideoFrame, VideoFrameRef,
};

verus! {

/// An audio operation of a frame synchronizer: query the input format, or
/// capture samples. A rate or channel count of `None` asks for the source's own.
#[derive(Debug, Clone, Copy, PartialEq, Eq, Structural)]
pub enum FrameSyncAudioRequest {
    /// Ask for the current input format without samples.
    QueryInput,
    /// Capture samples.
    Capture {
        /// Output sample rate, or the source's.
        sample_rate: Option<i32>,
        /// Output channel count, or the source's.
        channels: Option<i32>,
        /// Samples per channel.
        samples: i32,
    },
}

/// A borrowed frame-sync video frame; validated as any received video frame,
/// whose accessors it offers through `Deref`.
#[derive(Debug)]
pub struct FrameSyncVideoRef<'a> {
    frame: VideoFrameRef<'a>,
}

impl<'a> FrameSyncVideoRef<'a> {
    /// The validated frame.
    pub closed spec fn spec_frame(self) -> VideoFrameRef<'a> {
        self.frame
    }

    /// Validates a frame-sync video frame and its metadata, and wraps it.
    pub fn new(raw: RawVideoFrame<'a>) -> (r: Result<FrameSyncVideoRef<'a>, Error>)
        requires
            raw_video_readable(raw),
        ensures
            r is Ok <==> video_layout_ok(raw) && frame_metadata_ok(raw.p_metadata),
            r matches Ok(f) ==> f.spec_frame().spec_raw() == raw,
            r matches Err(e) ==> if video_layout_ok(raw) && frame_metadata_shape_ok(raw.p_metadata) {
                e is InvalidUtf8
            } else {
                e is InvalidFrame
            },
    {
        let frame = VideoFrameRef::new(raw)?;
        Ok(FrameSyncVideoRef { frame })
    }

    /// An owned copy of the frame.
    pub fn to_owned(&self) -> (r: Result<VideoFrame, Error>)
        ensures
            r matches Ok(f) && copied_from(f, self.spec_frame().spec_raw()),
    {
        self.frame.to_owned()
    }
}

impl<'a> core::ops::Deref for FrameSyncVideoRef<'a> {
    type Target = VideoFrameRef<'a>;

    fn deref(&self) -> (r: &VideoFrameRef<'a>)
        ensures
            *r == self.spec_frame(),
    {
        &self.frame
    }
}

/// The values the SDK receives for an audio request; zero asks for the
/// source's value.
#[derive(Debug, Clone, Copy, PartialEq, Eq, Structural)]
pub struct FrameSyncAudioRawRequest {
    pub sample_rate: i32,
    pub channels: i32,
    pub samples: i32,
    pub query_input: bool,
}

/// When a request can be sent: a query always; a capture when every value it
/// gives is positive.
pub open spec fn audio_request_ok(r: FrameSyncAudioRequest) -> bool {
    match r {
        FrameSyncAudioRequest::QueryInput => true,
        FrameSyncAudioRequest::Capture { sample_rate, channels, samples } => {
            &&& (sample_rate matches Some(v) ==> v > 0)
            &&& (channels matches Some(v) ==> v > 0)
            &&& samples > 0
        },
    }
}

/// An optional value for the SDK: zero for `None`.
pub open spec fn zero_if_none(v: Option<i32>) -> i32 {
    match v {
        Some(x) => x,
        None => 0,
    }
}

/// A positive value, or an error naming the field.
pub fn positive_i32(field: &str, value: i32) -> (r: Result<i32, Error>)
    ensures
        r is Ok <==> value > 0,
        r matches Ok(v) ==> v == value,
        r matches Err(e) ==> e is InvalidConfiguration,
{
    if value > 0 {
        Ok(value)
    } else {
        let _ = field;
        Err(invalid_configuration("FrameSync audio value must be positive"))
    }
}

/// An optional positive value for the SDK: zero for `None`.
pub fn positive_optional_i32(field: &str, value: Option<i32>) -> (r: Result<i32, Error>)
    ensures
        r is Ok <==> (value matches Some(v) ==> v > 0),
        r matches Ok(v) ==> v == zero_if_none(value),
        r matches Err(e) ==> e is InvalidConfiguration,
{
    match value {
        None => Ok(0),
        Some(v) => positive_i32(field, v),
    }
}

impl FrameSyncAudioRequest {
    /// Capture `samples` per channel at the source's rate and channel count.
    pub fn capture(samples: i32) -> (r: FrameSyncAudioRequest)
        ensures
            r == (FrameSyncAudioRequest::Capture { sample_rate: None, channels: None, samples }),
    {
        FrameSyncAudioRequest::Capture { sample_rate: None, channels: None, samples }
    }

    /// Capture with optional rate and channel requests.
    pub fn capture_with(sample_rate: Option<i32>, channels: Option<i32>, samples: i32) -> (r:
        FrameSyncAudioRequest)
        ensures
            r == (FrameSyncAudioRequest::Capture { sample_rate, channels, samples }),
    {
        FrameSyncAudioRequest::Capture { sample_rate, channels, samples }
    }

    /// The values the SDK receives.
    pub fn to_raw(self) -> (r: Result<FrameSyncAudioRawRequest, Error>)
        ensures
            r is Ok <==> audio_request_ok(self),
            r matches Ok(raw) ==> match self {
                FrameSyncAudioRequest::QueryInput => raw == (FrameSyncAudioRawRequest {
                    sample_rate: 0,
                    channels: 0,
                    samples: 0,
                    query_input: true,
                }),
                FrameSyncAudioRequest::Capture { sample_rate, channels, samples } => raw == (
                FrameSyncAudioRawRequest {
                    sample_rate: zero_if_none(sample_rate),
                    channels: zero_if_none(channels),
                    samples,
                    query_input: false,
                }),
            },
            r matches Err(e) ==> e is InvalidConfiguration,
    {
        match self {
            FrameSyncAudioRequest::QueryInput => Ok(
                FrameSyncAudioRawRequest { sample_rate: 0, channels: 0, samples: 0, query_input: true },
            ),
            FrameSyncAudioRequest::Capture { sample_rate, channels, samples } => {
                let sample_rate = positive_optional_i32("sample_rate", sample_rate)?;
                let channels = positive_optional_i32("channels", channels)?;
                let samples = positive_i32("samples", samples)?;
                Ok(FrameSyncAudioRawRequest { sample_rate, channels, samples, query_input: false })
            },
        }
    }
}

/// The all-zero video frame a frame synchronizer reports before any video has
/// arrived: every field zero, both pointers null, and an aspect ratio of zero
/// (positive or negative).
pub open spec fn video_frame_empty(f: RawVideoFrame) -> bool {
    &&& f.xres == 0
    &&& f.yres == 0
    &&& f.fourcc == 0
    &&& f.frame_rate_n == 0
    &&& f.frame_rate_d == 0
    &&& (f.picture_aspect_ratio_bits == 0 || f.picture_aspect_ratio_bits == 0x8000_0000)
    &&& f.frame_format_type == 0
    &&& f.timecode == 0
    &&& f.p_data is None
    &&& f.line_stride_or_size == 0
    &&& f.p_metadata is None
    &&& f.timestamp == 0
}

/// Whether a frame-sync video capture is the "no video yet" state.
pub fn is_framesync_video_empty(frame: &RawVideoFrame) -> (r: bool)
    ensures
        r == video_frame_empty(*frame),
{
    frame.xres == 0 && frame.yres == 0 && frame.fourcc == 0 && frame.frame_rate_n == 0
        && frame.frame_rate_d == 0 && (frame.picture_aspect_ratio_bits == 0
        || frame.picture_aspect_ratio_bits == 0x8000_0000) && frame.frame_format_type == 0
        && frame.timecode == 0 && frame.p_data.is_none() && frame.line_stride_or_size == 0
        && frame.p_metadata.is_none() && frame.timestamp == 0
}

/// The layout a frame-sync audio frame validates to.
pub open spec fn framesync_layout_of(raw: RawAudioFrame) -> ValidatedAudioLayout {
    if raw.no_samples == 0 {
        empty_audio_layout_of(raw)
    } else {
        audio_layout_of(raw)
    }
}

/// When a frame-sync audio frame is acceptable: a zero-sample query state when
/// the input format was queried, else a frame with samples.
pub open spec fn framesync_audio_ok(raw: RawAudioFrame, query_input: bool) -> bool {
    if raw.no_samples == 0 {
        query_input && empty_audio_layout_ok(raw)
    } else {
        audio_layout_ok(raw)
    }
}

/// The SDK's promise about a frame-sync audio frame: non-null sample data of an
/// acceptable frame is readable for the backing count, metadata up to its
/// terminator.
pub open spec fn framesync_audio_readable(raw: RawAudioFrame) -> bool {
    &&& (raw.p_data matches Some(d) ==> (raw.no_samples != 0 && audio_layout_ok(raw) ==> d@.len()
        >= audio_layout_of(raw).sample_count))
    &&& frame_metadata_readable(raw.p_metadata)
}

/// A borrowed frame-sync audio frame: samples, or one of the zero-sample query
/// states.
#[derive(Debug)]
pub struct FrameSyncAudioRef<'a> {
    raw: RawAudioFrame<'a>,
    layout: ValidatedAudioLayout,
    metadata: ValidatedFrameMetadata,
}

impl<'a> FrameSyncAudioRef<'a> {
    #[verifier::type_invariant]
    spec fn inv(self) -> bool {
        &&& (self.raw.no_samples == 0 ==> empty_audio_layout_ok(self.raw))
        &&& (self.raw.no_samples != 0 ==> audio_layout_ok(self.raw) && audio_layout_consistent(
            self.layout,
        ))
        &&& self.layout == framesync_layout_of(self.raw)
        &&& framesync_audio_readable(self.raw)
        &&& frame_metadata_matches(self.raw.p_metadata, self.metadata)
    }

    /// The SDK frame this view wraps.
    pub closed spec fn spec_raw(self) -> RawAudioFrame<'a> {
        self.raw
    }

    /// Validates a frame-sync audio frame; `query_input` admits the zero-sample
    /// query states.
    pub fn new(raw: RawAudioFrame<'a>, query_input: bool) -> (r: Result<FrameSyncAudioRef<'a>, Error>)
        requires
            framesync_audio_readable(raw),
        ensures
            r is Ok <==> framesync_audio_ok(raw, query_input) && frame_metadata_ok(raw.p_metadata),
            r matches Ok(f) ==> f.spec_raw() == raw,
            r matches Err(e) ==> if framesync_audio_ok(raw, query_input) && frame_metadata_shape_ok(raw.p_metadata) {
                e is InvalidUtf8
            } else {
                e is InvalidFrame
            },
    {
        let layout = validate_audio_layout_inner(&raw, query_input)?;
        let metadata = validate_frame_metadata(raw.p_metadata)?;
        Ok(FrameSyncAudioRef { raw, layout, metadata })
    }

    /// Whether this is a zero-sample query state.
    pub fn is_empty(&self) -> (r: bool)
        ensures
            r == (self.spec_raw().no_samples == 0),
    {
        proof {
            use_type_invariant(self);
            if self.raw.no_samples != 0 {
                crate::audio::lemma_channel_in_range(self.layout, 0);
            }
        }
        self.layout.is_empty()
    }

    /// Sample rate in Hz (zero in the no-source state).
    pub fn sample_rate(&self) -> (r: i32)
        ensures
            r == self.spec_raw().sample_rate,
    {
        proof {
            use_type_invariant(self);
        }
        self.layout.sample_rate
    }

    /// Number of channels (zero in the no-source state).
    pub fn num_channels(&self) -> (r: i32)
        ensures
            r == self.spec_raw().no_channels,
    {
        proof {
            use_type_invariant(self);
            if self.raw.no_samples != 0 {
                lemma_counts_fit(self.layout);
            }
        }
        self.layout.no_channels as i32
    }

    /// Samples per channel (zero for the query states).
    pub fn num_samples(&self) -> (r: i32)
        ensures
            r == self.spec_raw().no_samples,
    {
        proof {
            use_type_invariant(self);
            if self.raw.no_samples != 0 {
                lemma_counts_fit(self.layout);
            }
        }
        self.layout.no_samples as i32
    }

    /// The sample format; absent only in the no-source state.
    pub fn format(&self) -> (r: Option<AudioFormat>)
        ensures
            r == framesync_layout_of(self.spec_raw()).format,
    {
        proof {
            use_type_invariant(self);
        }
        self.layout.format()
    }

    /// Timecode.
    pub fn timecode(&self) -> (r: i64)
        ensures
            r == self.spec_raw().timecode,
    {
        self.raw.timecode
    }

    /// The metadata text, if the SDK attached some.
    pub fn metadata(&self) -> (r: Option<&'a str>)
        ensures
            r is Some <==> self.spec_raw().p_metadata is Some,
            r matches Some(s) ==> Some(s.spec_bytes()) == frame_metadata_text(self.spec_raw().p_metadata),
    {
        proof {
            use_type_invariant(self);
            lemma_frame_metadata_matches_text(self.raw.p_metadata, self.metadata);
        }
        frame_metadata_str(self.raw.p_metadata, self.metadata)
    }

    /// The backing samples; empty for the query states.
    pub fn data(&self) -> (r: &'a [u32])
        ensures
            self.spec_raw().no_samples == 0 ==> r@.len() == 0,
            self.spec_raw().no_samples != 0 ==> r@ == self.spec_raw().p_data.unwrap()@.subrange(
                0,
                audio_layout_of(self.spec_raw()).sample_count as int,
            ),
    {
        proof {
            use_type_invariant(self);
        }
        match self.raw.p_data {
            Some(d) => {
                if self.layout.sample_count == 0 {
                    let e: &[u32] = &[];
                    return e;
                }
                vstd::slice::slice_subrange(d, 0, self.layout.sample_count)
            },
            None => {
                let e: &[u32] = &[];
                e
            },
        }
    }

    /// Channel stride in bytes; zero for the query states.
    pub fn channel_stride_in_bytes(&self) -> (r: i32)
        ensures
            r == self.spec_raw().channel_stride_in_bytes,
    {
        proof {
            use_type_invariant(self);
        }
        self.layout.channel_stride_in_bytes
    }

    /// One channel's samples; `None` for the query states and for channels past
    /// the last.
    pub fn channel_data(&self, channel: usize) -> (r: Option<&'a [u32]>)
        ensures
            r is Some <==> self.spec_raw().no_samples != 0 && channel < self.spec_raw().no_channels,
            r matches Some(s) ==> s@ == self.spec_raw().p_data.unwrap()@.subrange(
                channel_start(audio_layout_of(self.spec_raw()), channel as int),
                channel_start(audio_layout_of(self.spec_raw()), channel as int)
                    + self.spec_raw().no_samples,
            ),
    {
        proof {
            use_type_invariant(self);
            if self.raw.no_samples != 0 && channel < self.layout.no_channels {
                crate::audio::lemma_channel_in_range(self.layout, channel as int);
            }
        }
        let range = self.layout.channel_range(channel)?;
        let data = match self.raw.p_data {
            Some(d) => d,
            None => {
                return None;
            },
        };
        Some(vstd::slice::slice_subrange(data, range.start, range.end))
    }

    /// An owned copy, or `None` for the query states.
    pub fn to_owned(&self) -> (r: Result<Option<AudioFrame>, Error>)
        ensures
            self.spec_raw().no_samples == 0 ==> r matches Ok(None),
            self.spec_raw().no_samples != 0 ==> (r matches Ok(Some(f)) && f.spec_layout()
                == audio_layout_of(self.spec_raw()) && f.spec_data()
                == self.spec_raw().p_data.unwrap()@.subrange(
                0,
                audio_layout_of(self.spec_raw()).sample_count as int,
            )),
    {
        proof {
            use_type_invariant(self);
        }
        if self.layout.is_empty() {
            proof {
                if self.raw.no_samples != 0 {
                    crate::audio::lemma_channel_in_range(self.layout, 0);
                }
            }
            return Ok(None);
        }
        match AudioFrame::from_raw_validated(&self.raw, self.layout, self.metadata) {
            Ok(f) => Ok(Some(f)),
            Err(e) => Err(e),
        }
    }
}

} // verus!
