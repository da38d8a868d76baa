//! Audio frame layouts: validation of SDK audio frames (tightly packed or strided
//! planar FLTP, and the empty states a frame-sync query may report) and of the
//! layouts the library sends.
//!
//! Samples are 32-bit floats; the library carries each one as its IEEE-754 bit
//! pattern in a `u32`, which is all the layout logic needs.

use vstd::prelude::*;

use crate::error::{frame_error, frame_error2, frame_error_in, invalid_frame, Error};
use crate::sdk::NDIlib_FourCC_audio_type_FLTP;

verus! {

/// Largest audio payload the library accepts (64 MiB).
pub const MAX_AUDIO_BYTES: usize = 64 * 1024 * 1024;

/// Audio sample formats.
#[derive(Debug, Clone, Copy, PartialEq, Eq, Structural)]
#[non_exhaustive]
pub enum AudioFormat {
    /// 32-bit floating point planar audio.
    FLTP,
}

impl AudioFormat {
    /// The SDK FourCC code of the format.
    pub fn fourcc(self) -> (r: u32)
        ensures
            r == NDIlib_FourCC_audio_type_FLTP,
    {
        match self {
            AudioFormat::FLTP => NDIlib_FourCC_audio_type_FLTP,
        }
    }

    /// The FourCC code as the SDK's signed integer.
    pub fn to_i32(self) -> (r: i32)
        ensures
            r == NDIlib_FourCC_audio_type_FLTP,
    {
        match self {
            AudioFormat::FLTP => 0x7054_4C46i32,
        }
    }
}

/// How multi-channel samples are arranged in a buffer handed to the builder.
#[derive(Debug, Clone, Copy, PartialEq, Eq, Structural)]
pub enum AudioLayout {
    /// All samples of channel 0, then all of channel 1, and so on.
    Planar,
    /// One sample of each channel in turn.
    Interleaved,
}

/// An audio frame as the SDK describes it. `p_data` is `None` for a null data
/// pointer; `p_metadata` holds the bytes behind the metadata pointer.
#[derive(Debug, Clone, Copy)]
pub struct RawAudioFrame<'a> {
    pub sample_rate: i32,
    pub no_channels: i32,
    pub no_samples: i32,
    pub timecode: i64,
    pub fourcc: u32,
    pub p_data: Option<&'a [u32]>,
    pub channel_stride_in_bytes: i32,
    pub p_metadata: Option<&'a [u8]>,
    pub timestamp: i64,
}

impl<'a> Default for RawAudioFrame<'a> {
    fn default() -> (r: RawAudioFrame<'a>)
        ensures
            r.sample_rate == 0 && r.no_channels == 0 && r.no_samples == 0 && r.timecode == 0
                && r.fourcc == 0 && r.p_data is None && r.channel_stride_in_bytes == 0
                && r.p_metadata is None && r.timestamp == 0,
    {
        RawAudioFrame {
            sample_rate: 0,
            no_channels: 0,
            no_samples: 0,
            timecode: 0,
            fourcc: 0,
            p_data: None,
            channel_stride_in_bytes: 0,
            p_metadata: None,
            timestamp: 0,
        }
    }
}

/// A checked audio layout: the format (`None` only for the empty no-source state),
/// the counts, the channel stride, and the number of backing samples, which for
/// strided planar audio includes the padding between channels.
#[derive(Debug, Clone, Copy, PartialEq, Eq, Structural)]
pub struct ValidatedAudioLayout {
    pub format: Option<AudioFormat>,
    pub sample_rate: i32,
    pub no_channels: usize,
    pub no_samples: usize,
    pub channel_stride_in_bytes: i32,
    pub channel_stride_samples: usize,
    pub sample_count: usize,
}

/// Backing samples of a strided planar buffer: the last channel's offset plus one
/// channel of samples.
pub open spec fn backing_count(channels: int, stride_samples: int, samples: int) -> int {
    (channels - 1) * stride_samples + samples
}

/// When an SDK audio frame with samples is acceptable.
pub open spec fn audio_layout_ok(raw: RawAudioFrame) -> bool {
    &&& raw.p_data is Some
    &&& raw.sample_rate > 0
    &&& raw.no_channels > 0
    &&& raw.no_samples > 0
    &&& raw.fourcc == NDIlib_FourCC_audio_type_FLTP
    &&& raw.channel_stride_in_bytes > 0
    &&& raw.channel_stride_in_bytes % 4 == 0
    &&& raw.channel_stride_in_bytes >= raw.no_samples * 4
    &&& backing_count(
        raw.no_channels as int,
        raw.channel_stride_in_bytes / 4,
        raw.no_samples as int,
    ) * 4 <= MAX_AUDIO_BYTES
}

/// The layout that describes an acceptable SDK audio frame with samples.
pub open spec fn audio_layout_of(raw: RawAudioFrame) -> ValidatedAudioLayout {
    ValidatedAudioLayout {
        format: Some(AudioFormat::FLTP),
        sample_rate: raw.sample_rate,
        no_channels: raw.no_channels as usize,
        no_samples: raw.no_samples as usize,
        channel_stride_in_bytes: raw.channel_stride_in_bytes,
        channel_stride_samples: (raw.channel_stride_in_bytes / 4) as usize,
        sample_count: backing_count(
            raw.no_channels as int,
            raw.channel_stride_in_bytes / 4,
            raw.no_samples as int,
        ) as usize,
    }
}

/// When a zero-sample frame is one of the two states a frame-sync query may
/// report: no source yet (rate and channels zero), or the source's format
/// (rate and channels positive). The data pointer is null and the stride zero.
pub open spec fn empty_audio_layout_ok(raw: RawAudioFrame) -> bool {
    let no_source = raw.sample_rate == 0 && raw.no_channels == 0;
    let query_format = raw.sample_rate > 0 && raw.no_channels > 0;
    &&& raw.p_data is None
    &&& raw.channel_stride_in_bytes == 0
    &&& (no_source || query_format)
    &&& (no_source && raw.fourcc == 0 || raw.fourcc == NDIlib_FourCC_audio_type_FLTP)
}

/// The layout that describes an acceptable zero-sample frame.
pub open spec fn empty_audio_layout_of(raw: RawAudioFrame) -> ValidatedAudioLayout {
    ValidatedAudioLayout {
        format: if raw.sample_rate == 0 && raw.no_channels == 0 && raw.fourcc == 0 {
            None
        } else {
            Some(AudioFormat::FLTP)
        },
        sample_rate: raw.sample_rate,
        no_channels: raw.no_channels as usize,
        no_samples: 0,
        channel_stride_in_bytes: 0,
        channel_stride_samples: 0,
        sample_count: 0,
    }
}

/// A layout with samples whose fields agree with each other: positive counts, a
/// stride of at least one channel, the backing count, and the size cap.
pub open spec fn audio_layout_consistent(l: ValidatedAudioLayout) -> bool {
    &&& l.format is Some
    &&& l.sample_rate > 0
    &&& l.no_channels > 0
    &&& l.no_samples > 0
    &&& l.channel_stride_samples >= l.no_samples
    &&& l.channel_stride_in_bytes == l.channel_stride_samples * 4
    &&& l.sample_count == backing_count(
        l.no_channels as int,
        l.channel_stride_samples as int,
        l.no_samples as int,
    )
    &&& l.sample_count * 4 <= MAX_AUDIO_BYTES
}

/// The layout of an acceptable SDK frame is consistent.
pub proof fn lemma_audio_layout_of_consistent(raw: RawAudioFrame)
    requires
        audio_layout_ok(raw),
    ensures
        audio_layout_consistent(audio_layout_of(raw)),
{
    let n = raw.no_channels as int;
    let s = raw.channel_stride_in_bytes / 4;
    assert((n - 1) * s >= 0) by (nonlinear_arith)
        requires
            n >= 1,
            s >= 0,
    ;
}

/// Start of a channel's samples in the backing buffer.
pub open spec fn channel_start(l: ValidatedAudioLayout, channel: int) -> int {
    channel * l.channel_stride_samples
}

/// Whether a channel's samples lie inside the backing buffer.
pub open spec fn channel_in_range(l: ValidatedAudioLayout, channel: int) -> bool {
    &&& l.sample_count != 0
    &&& 0 <= channel < l.no_channels
    &&& channel_start(l, channel) + l.no_samples <= l.sample_count
}

impl ValidatedAudioLayout {
    /// True for the zero-sample query states.
    pub fn is_empty(self) -> (r: bool)
        ensures
            r == (self.sample_count == 0),
    {
        self.sample_count == 0
    }

    /// The format, absent only in the no-source state.
    pub fn format(self) -> (r: Option<AudioFormat>)
        ensures
            r == self.format,
    {
        self.format
    }

    /// The range of backing samples holding one channel.
    pub fn channel_range(self, channel: usize) -> (r: Option<core::ops::Range<usize>>)
        ensures
            r is Some <==> channel_in_range(self, channel as int),
            r matches Some(range) ==> range.start == channel_start(self, channel as int)
                && range.end == range.start + self.no_samples,
    {
        if self.is_empty() || channel >= self.no_channels {
            return None;
        }
        let start = match channel.checked_mul(self.channel_stride_samples) {
            Some(s) => s,
            None => {
                return None;
            },
        };
        let end = match start.checked_add(self.no_samples) {
            Some(e) => e,
            None => {
                return None;
            },
        };
        if end <= self.sample_count {
            Some(start..end)
        } else {
            None
        }
    }
}

/// Every channel of a consistent layout lies inside the backing buffer, and the
/// ranges of two different channels do not overlap.
pub proof fn lemma_channel_ranges_disjoint(l: ValidatedAudioLayout, a: int, b: int)
    requires
        audio_layout_consistent(l),
        0 <= a < l.no_channels,
        0 <= b < l.no_channels,
        a < b,
    ensures
        channel_in_range(l, a),
        channel_in_range(l, b),
        channel_start(l, a) + l.no_samples <= channel_start(l, b),
{
    lemma_channel_in_range(l, a);
    lemma_channel_in_range(l, b);
    let s = l.channel_stride_samples as int;
    assert(a * s + s <= b * s) by (nonlinear_arith)
        requires
            a < b,
            s >= 0,
    ;
}

/// Every channel of a consistent layout lies inside the backing buffer.
pub proof fn lemma_channel_in_range(l: ValidatedAudioLayout, c: int)
    requires
        audio_layout_consistent(l),
        0 <= c < l.no_channels,
    ensures
        channel_in_range(l, c),
{
    let s = l.channel_stride_samples as int;
    let n = l.no_channels as int;
    assert(c * s <= (n - 1) * s) by (nonlinear_arith)
        requires
            c <= n - 1,
            s >= 0,
    ;
    assert(l.sample_count >= l.no_samples) by (nonlinear_arith)
        requires
            n >= 1,
            s >= 0,
            l.sample_count == (n - 1) * s + l.no_samples,
    ;
}

/// The SDK audio format named by a FourCC code.
pub fn validate_audio_format(fourcc: u32) -> (r: Result<AudioFormat, Error>)
    ensures
        r is Ok <==> fourcc == NDIlib_FourCC_audio_type_FLTP,
        r matches Ok(f) ==> f == AudioFormat::FLTP,
        r matches Err(e) ==> e is InvalidFrame,
{
    if fourcc == NDIlib_FourCC_audio_type_FLTP {
        Ok(AudioFormat::FLTP)
    } else {
        Err(Error::InvalidFrame(crate::text::with_hex_u32("Unknown audio format FourCC: ", fourcc)))
    }
}

/// When the library may send audio with these counts: all positive, and the
/// tightly packed planar payload within [`MAX_AUDIO_BYTES`].
pub open spec fn outbound_audio_ok(sample_rate: int, channels: int, samples: int) -> bool {
    &&& sample_rate > 0
    &&& channels > 0
    &&& samples > 0
    &&& channels * samples * 4 <= MAX_AUDIO_BYTES
}

/// The tightly packed planar layout of outgoing audio.
pub open spec fn outbound_layout_of(sample_rate: i32, channels: i32, samples: i32) -> ValidatedAudioLayout {
    ValidatedAudioLayout {
        format: Some(AudioFormat::FLTP),
        sample_rate,
        no_channels: channels as usize,
        no_samples: samples as usize,
        channel_stride_in_bytes: (samples * 4) as i32,
        channel_stride_samples: samples as usize,
        sample_count: (channels * samples) as usize,
    }
}

/// Checks the layout of audio the library is about to send.
pub fn validate_outbound_audio_layout(
    sample_rate: i32,
    no_channels: i32,
    no_samples: i32,
    format: AudioFormat,
) -> (r: Result<ValidatedAudioLayout, Error>)
    ensures
        r is Ok <==> outbound_audio_ok(sample_rate as int, no_channels as int, no_samples as int),
        r matches Ok(l) ==> l == outbound_layout_of(sample_rate, no_channels, no_samples)
            && audio_layout_consistent(l),
        r matches Err(e) ==> e is InvalidFrame,
{
    if sample_rate <= 0 {
        return Err(frame_error("Invalid sample rate: ", sample_rate as i128));
    }
    if no_channels <= 0 {
        return Err(frame_error("Invalid number of channels: ", no_channels as i128));
    }
    if no_samples <= 0 {
        return Err(frame_error("Invalid number of samples: ", no_samples as i128));
    }
    let fmt = validate_audio_format(format.fourcc())?;
    proof {
        assert(no_channels * no_samples >= no_samples) by (nonlinear_arith)
            requires
                no_channels >= 1,
                no_samples >= 1,
        ;
    }
    let nc = no_channels as usize;
    let ns = no_samples as usize;
    let stride_bytes = match ns.checked_mul(4) {
        Some(b) => b,
        None => {
            return Err(frame_error2("Audio channel stride overflow: ", ns as i128, " samples × ", 4, " bytes"));
        },
    };
    if stride_bytes > i32::MAX as usize {
        return Err(frame_error_in("Audio channel stride ", stride_bytes as i128, " exceeds i32 range"));
    }
    let channel_stride_in_bytes = stride_bytes as i32;
    let sample_count = match nc.checked_mul(ns) {
        Some(c) => c,
        None => {
            return Err(
                frame_error2("Audio sample count overflow: ", nc as i128, " channels × ", ns as i128, " samples"),
            );
        },
    };
    let byte_size = match sample_count.checked_mul(4) {
        Some(b) => b,
        None => {
            return Err(frame_error2("Audio byte size overflow: ", sample_count as i128, " samples × ", 4, " bytes"));
        },
    };
    if byte_size > MAX_AUDIO_BYTES {
        return Err(
            frame_error2(
                "Audio frame exceeds maximum size: ",
                byte_size as i128,
                " bytes > ",
                MAX_AUDIO_BYTES as i128,
                " bytes",
            ),
        );
    }
    proof {
        assert(backing_count(nc as int, ns as int, ns as int) == nc * ns) by (nonlinear_arith);
    }
    Ok(
        ValidatedAudioLayout {
            format: Some(fmt),
            sample_rate,
            no_channels: nc,
            no_samples: ns,
            channel_stride_in_bytes,
            channel_stride_samples: ns,
            sample_count,
        },
    )
}

/// Validates an SDK audio frame that must carry samples.
pub fn validate_audio_layout(raw: &RawAudioFrame) -> (r: Result<ValidatedAudioLayout, Error>)
    ensures
        r is Ok <==> audio_layout_ok(*raw),
        r matches Ok(l) ==> l == audio_layout_of(*raw) && audio_layout_consistent(l),
        r matches Err(e) ==> e is InvalidFrame,
{
    validate_audio_layout_inner(raw, false)
}

/// Validates a frame-sync audio frame, which may also be one of the zero-sample
/// query states.
pub fn validate_audio_layout_allow_empty(raw: &RawAudioFrame) -> (r: Result<
    ValidatedAudioLayout,
    Error,
>)
    ensures
        raw.no_samples == 0 ==> (r is Ok <==> empty_audio_layout_ok(*raw)),
        raw.no_samples != 0 ==> (r is Ok <==> audio_layout_ok(*raw)),
        r matches Ok(l) ==> if raw.no_samples == 0 {
            l == empty_audio_layout_of(*raw)
        } else {
            l == audio_layout_of(*raw) && audio_layout_consistent(l)
        },
        r matches Err(e) ==> e is InvalidFrame,
{
    validate_audio_layout_inner(raw, true)
}

/// Shared validation of SDK audio frames; `allow_empty` admits the zero-sample
/// query states.
pub fn validate_audio_layout_inner(raw: &RawAudioFrame, allow_empty: bool) -> (r: Result<
    ValidatedAudioLayout,
    Error,
>)
    ensures
        raw.no_samples == 0 ==> (r is Ok <==> allow_empty && empty_audio_layout_ok(*raw)),
        raw.no_samples != 0 ==> (r is Ok <==> audio_layout_ok(*raw)),
        r matches Ok(l) ==> if raw.no_samples == 0 {
            l == empty_audio_layout_of(*raw)
        } else {
            l == audio_layout_of(*raw) && audio_layout_consistent(l)
        },
        r matches Err(e) ==> e is InvalidFrame,
{
    if raw.no_samples == 0 {
        if allow_empty {
            return validate_empty_audio_layout(raw);
        }
        return Err(invalid_frame("Invalid number of samples: 0"));
    }
    if raw.p_data.is_none() {
        return Err(invalid_frame("Audio frame has null data pointer"));
    }
    if raw.sample_rate <= 0 {
        return Err(frame_error("Invalid sample rate: ", raw.sample_rate as i128));
    }
    if raw.no_channels <= 0 {
        return Err(frame_error("Invalid number of channels: ", raw.no_channels as i128));
    }
    if raw.no_samples <= 0 {
        return Err(frame_error("Invalid number of samples: ", raw.no_samples as i128));
    }
    let format = validate_audio_format(raw.fourcc)?;
    let channel_stride_in_bytes = raw.channel_stride_in_bytes;
    if channel_stride_in_bytes <= 0 {
        return Err(frame_error("Invalid channel_stride_in_bytes: ", channel_stride_in_bytes as i128));
    }
    let no_samples = raw.no_samples as usize;
    let no_channels = raw.no_channels as usize;
    let channel_stride_bytes = channel_stride_in_bytes as usize;
    if channel_stride_bytes % 4 != 0 {
        return Err(
            frame_error("channel_stride_in_bytes must be a multiple of 4, got ", channel_stride_in_bytes as i128),
        );
    }
    let minimum_channel_stride = match no_samples.checked_mul(4) {
        Some(m) => m,
        None => {
            return Err(
                frame_error2("Audio channel stride overflow: ", no_samples as i128, " samples × ", 4, " bytes"),
            );
        },
    };
    if channel_stride_bytes < minimum_channel_stride {
        return Err(
            frame_error2(
                "channel_stride_in_bytes ",
                channel_stride_in_bytes as i128,
                " is smaller than one channel of audio samples ",
                minimum_channel_stride as i128,
                "",
            ),
        );
    }
    let channel_stride_samples = channel_stride_bytes / 4;
    let last_channel_offset = match (no_channels - 1).checked_mul(channel_stride_samples) {
        Some(o) => o,
        None => {
            return Err(
                frame_error2(
                    "Audio channel offset overflow: ",
                    no_channels as i128,
                    " channels × ",
                    channel_stride_samples as i128,
                    " stride samples",
                ),
            );
        },
    };
    let sample_count = match last_channel_offset.checked_add(no_samples) {
        Some(c) => c,
        None => {
            return Err(
                frame_error2(
                    "Audio backing sample count overflow: channel offset ",
                    last_channel_offset as i128,
                    " + ",
                    no_samples as i128,
                    " samples",
                ),
            );
        },
    };
    let byte_size = match sample_count.checked_mul(4) {
        Some(b) => b,
        None => {
            return Err(frame_error2("Audio byte size overflow: ", sample_count as i128, " samples × ", 4, " bytes"));
        },
    };
    if byte_size > MAX_AUDIO_BYTES {
        return Err(
            frame_error2(
                "Audio frame exceeds maximum size: ",
                byte_size as i128,
                " bytes > ",
                MAX_AUDIO_BYTES as i128,
                " bytes",
            ),
        );
    }
    Ok(
        ValidatedAudioLayout {
            format: Some(format),
            sample_rate: raw.sample_rate,
            no_channels,
            no_samples,
            channel_stride_in_bytes,
            channel_stride_samples,
            sample_count,
        },
    )
}

/// Validates a zero-sample frame-sync audio frame.
pub fn validate_empty_audio_layout(raw: &RawAudioFrame) -> (r: Result<ValidatedAudioLayout, Error>)
    ensures
        r is Ok <==> empty_audio_layout_ok(*raw),
        r matches Ok(l) ==> l == empty_audio_layout_of(*raw),
        r matches Err(e) ==> e is InvalidFrame,
{
    if raw.p_data.is_some() {
        return Err(invalid_frame("Zero-length audio frame has non-null data pointer"));
    }
    if raw.sample_rate < 0 {
        return Err(frame_error("Invalid sample rate: ", raw.sample_rate as i128));
    }
    if raw.no_channels < 0 {
        return Err(frame_error("Invalid number of channels: ", raw.no_channels as i128));
    }
    if raw.channel_stride_in_bytes != 0 {
        return Err(
            frame_error(
                "Zero-length audio frame has non-zero channel_stride_in_bytes: ",
                raw.channel_stride_in_bytes as i128,
            ),
        );
    }
    let no_source = raw.sample_rate == 0 && raw.no_channels == 0;
    let query_format = raw.sample_rate > 0 && raw.no_channels > 0;
    if !no_source && !query_format {
        return Err(
            frame_error2(
                "Invalid zero-length audio query state: sample_rate=",
                raw.sample_rate as i128,
                ", no_channels=",
                raw.no_channels as i128,
                "",
            ),
        );
    }
    let format = if no_source && raw.fourcc == 0 {
        None
    } else {
        Some(validate_audio_format(raw.fourcc)?)
    };
    Ok(
        ValidatedAudioLayout {
            format,
            sample_rate: raw.sample_rate,
            no_channels: raw.no_channels as usize,
            no_samples: 0,
            channel_stride_in_bytes: 0,
            channel_stride_samples: 0,
            sample_count: 0,
        },
    )
}

} // verus!
