//! Owned and borrowed audio frames, and the builder of outgoing audio.
//!
//! Owned frames always hold planar samples: interleaved input is reordered when
//! the frame is built.

use vstd::prelude::*;
use vstd::utf8::{encode_utf8, valid_utf8};

use crate::audio::{
    audio_layout_consistent, audio_layout_of, audio_layout_ok, channel_in_range, channel_start,
    empty_audio_layout_of, empty_audio_layout_ok, outbound_audio_ok, outbound_layout_of,
    validate_audio_layout, validate_outbound_audio_layout, AudioFormat, AudioLayout,
    RawAudioFrame, ValidatedAudioLayout,
};
use crate::error::{frame_error2, invalid_frame, Error};
use crate::metadata::{
    copy_frame_metadata, frame_metadata_matches, frame_metadata_ok, frame_metadata_readable,
    frame_metadata_shape_ok, frame_metadata_str, frame_metadata_text,
    lemma_c_string_is_frame_metadata, lemma_frame_metadata_matches_text, metadata_text_ok,
    validate_frame_metadata, FrameMetadata, ValidatedFrameMetadata, MAX_METADATA_BYTES,
};
use crate::text::{append_int, first_nul, with_int};
use crate::sdk::NDIlib_FourCC_audio_type_FLTP;
use vstd::string::StringSliceAdditionalSpecFns;

verus! {

/// The text of optional owned metadata, as UTF-8 bytes.
pub open spec fn metadata_bytes(m: Option<FrameMetadata>) -> Option<Seq<u8>> {
    match m {
        Some(fm) => Some(encode_utf8(fm.spec_text())),
        None => None,
    }
}

/// Planar order of interleaved samples: output sample `i` is sample `i % samples`
/// of channel `i / samples`, which interleaved input holds at
/// `(i % samples) * channels + i / samples`.
pub open spec fn deinterleave(input: Seq<u32>, channels: int, samples: int) -> Seq<u32> {
    Seq::new((channels * samples) as nat, |i: int| input[(i % samples) * channels + i / samples])
}

/// Interleaved samples become planar ones, for every channel count: in the
/// result, sample `s` of channel `ch` (at `ch * samples + s`) is the input's
/// sample at `s * channels + ch`, and the result holds exactly
/// `channels * samples` samples.
pub proof fn lemma_deinterleave_places_samples(
    input: Seq<u32>,
    channels: int,
    samples: int,
    ch: int,
    s: int,
)
    requires
        channels > 0,
        samples > 0,
        input.len() == channels * samples,
        0 <= ch < channels,
        0 <= s < samples,
    ensures
        deinterleave(input, channels, samples).len() == channels * samples,
        0 <= ch * samples + s < channels * samples,
        deinterleave(input, channels, samples)[ch * samples + s] == input[s * channels + ch],
{
    let i = ch * samples + s;
    assert(0 <= i < channels * samples) by (nonlinear_arith)
        requires
            i == ch * samples + s,
            0 <= ch < channels,
            0 <= s < samples,
    ;
    vstd::arithmetic::div_mod::lemma_fundamental_div_mod_converse(i, samples, ch, s);
}

/// An owned audio frame: planar samples (IEEE-754 bit patterns of `f32`), their
/// checked layout, timecode, timestamp and optional metadata.
#[derive(Debug)]
pub struct AudioFrame {
    layout: ValidatedAudioLayout,
    timecode: i64,
    data: Vec<u32>,
    metadata: Option<FrameMetadata>,
    timestamp: i64,
}

impl AudioFrame {
    #[verifier::type_invariant]
    spec fn inv(self) -> bool {
        &&& audio_layout_consistent(self.layout)
        &&& self.data@.len() == self.layout.sample_count
    }

    /// The layout of the samples.
    pub closed spec fn spec_layout(self) -> ValidatedAudioLayout {
        self.layout
    }

    /// The samples.
    pub closed spec fn spec_data(self) -> Seq<u32> {
        self.data@
    }

    /// The timecode.
    pub closed spec fn spec_timecode(self) -> i64 {
        self.timecode
    }

    /// The timestamp.
    pub closed spec fn spec_timestamp(self) -> i64 {
        self.timestamp
    }

    /// The metadata text as UTF-8 bytes, if any.
    pub closed spec fn spec_metadata(self) -> Option<Seq<u8>> {
        metadata_bytes(self.metadata)
    }

    /// Every frame's layout is consistent and covers its samples exactly.
    pub fn layout(&self) -> (r: ValidatedAudioLayout)
        ensures
            r == self.spec_layout(),
            audio_layout_consistent(r),
            self.spec_data().len() == r.sample_count,
    {
        proof {
            use_type_invariant(self);
        }
        self.layout
    }

    /// Copies a validated SDK audio frame. Zero-sample query states cannot become
    /// owned frames.
    pub fn from_raw_validated(
        raw: &RawAudioFrame,
        layout: ValidatedAudioLayout,
        metadata_layout: ValidatedFrameMetadata,
    ) -> (r: Result<AudioFrame, Error>)
        requires
            raw.no_samples != 0 ==> audio_layout_ok(*raw) && layout == audio_layout_of(*raw),
            raw.no_samples == 0 ==> empty_audio_layout_ok(*raw) && layout == empty_audio_layout_of(
                *raw,
            ),
            raw.p_data matches Some(d) ==> d@.len() >= layout.sample_count,
            frame_metadata_matches(raw.p_metadata, metadata_layout),
        ensures
            r is Ok <==> raw.no_samples != 0,
            r matches Ok(f) ==> f.spec_layout() == layout && audio_copied_from(f, *raw),
            r matches Err(e) ==> e is InvalidFrame,
    {
        if layout.is_empty() {
            return Err(invalid_frame("Cannot create owned AudioFrame from an empty audio layout"));
        }
        proof {
            if raw.no_samples != 0 {
                crate::audio::lemma_audio_layout_of_consistent(*raw);
            }
            lemma_frame_metadata_matches_text(raw.p_metadata, metadata_layout);
        }
        let samples = match raw.p_data {
            Some(d) => d,
            None => {
                proof {
                    assert(false);
                }
                return Err(invalid_frame("Audio frame has null data pointer"));
            },
        };
        let data = copy_samples(vstd::slice::slice_subrange(samples, 0, layout.sample_count));
        let metadata = copy_frame_metadata(raw.p_metadata, metadata_layout);
        Ok(AudioFrame { layout, timecode: raw.timecode, data, metadata, timestamp: raw.timestamp })
    }

    /// Validates and copies an SDK audio frame with samples.
    pub fn from_raw(raw: &RawAudioFrame) -> (r: Result<AudioFrame, Error>)
        requires
            raw_audio_readable(*raw),
        ensures
            r is Ok <==> audio_layout_ok(*raw) && frame_metadata_ok(raw.p_metadata),
            r matches Ok(f) ==> f.spec_layout() == audio_layout_of(*raw) && audio_copied_from(f, *raw),
            r matches Err(e) ==> if audio_layout_ok(*raw) && frame_metadata_shape_ok(raw.p_metadata) {
                e is InvalidUtf8
            } else {
                e is InvalidFrame
            },
    {
        let layout = validate_audio_layout(raw)?;
        let metadata = validate_frame_metadata(raw.p_metadata)?;
        AudioFrame::from_raw_validated(raw, layout, metadata)
    }

    /// A builder with every field unset.
    pub fn builder() -> (r: AudioFrameBuilder)
        ensures
            r == AudioFrameBuilder::spec_new(),
    {
        AudioFrameBuilder::new()
    }

    /// Sample rate in Hz.
    pub fn sample_rate(&self) -> (r: i32)
        ensures
            r == self.spec_layout().sample_rate,
    {
        self.layout.sample_rate
    }

    /// Number of channels.
    pub fn num_channels(&self) -> (r: i32)
        ensures
            r == self.spec_layout().no_channels,
    {
        proof {
            use_type_invariant(self);
            lemma_counts_fit(self.layout);
        }
        self.layout.no_channels as i32
    }

    /// Samples per channel.
    pub fn num_samples(&self) -> (r: i32)
        ensures
            r == self.spec_layout().no_samples,
    {
        proof {
            use_type_invariant(self);
            lemma_counts_fit(self.layout);
        }
        self.layout.no_samples as i32
    }

    /// Timecode; zero asks the SDK for its default.
    pub fn timecode(&self) -> (r: i64)
        ensures
            r == self.spec_timecode(),
    {
        self.timecode
    }

    /// Timestamp; zero asks the SDK for its default.
    pub fn timestamp(&self) -> (r: i64)
        ensures
            r == self.spec_timestamp(),
    {
        self.timestamp
    }

    /// The sample format; owned frames always have one.
    pub fn format(&self) -> (r: AudioFormat)
        ensures
            self.spec_layout().format == Some(r),
    {
        proof {
            use_type_invariant(self);
        }
        match self.layout.format() {
            Some(f) => f,
            None => {
                proof {
                    assert(false);
                }
                AudioFormat::FLTP
            },
        }
    }

    /// Channel stride in bytes.
    pub fn channel_stride_in_bytes(&self) -> (r: i32)
        ensures
            r == self.spec_layout().channel_stride_in_bytes,
    {
        self.layout.channel_stride_in_bytes
    }

    /// The planar samples.
    pub fn data(&self) -> (r: &[u32])
        ensures
            r@ == self.spec_data(),
    {
        self.data.as_slice()
    }

    /// The samples (planar, as bit patterns), to change in place; their number
    /// cannot change.
    pub fn data_mut(&mut self) -> (r: &mut [u32])
        ensures
            r@ == old(self).spec_data(),
            final(self).spec_data() == final(r)@,
            final(self).spec_layout() == old(self).spec_layout(),
            final(self).spec_timecode() == old(self).spec_timecode(),
            final(self).spec_timestamp() == old(self).spec_timestamp(),
            final(self).spec_metadata() == old(self).spec_metadata(),
    {
        proof {
            use_type_invariant(&*self);
        }
        crate::text::vec_as_mut_slice(&mut self.data)
    }

    /// Replaces the samples, keeping the layout; the new buffer must hold exactly
    /// the layout's sample count, else the frame is left unchanged.
    pub fn replace_data(&mut self, data: Vec<u32>) -> (r: Result<(), Error>)
        ensures
            r is Ok <==> data@.len() == old(self).spec_layout().sample_count,
            r is Ok ==> final(self).spec_data() == data@,
            r is Err ==> final(self).spec_data() == old(self).spec_data(),
            r matches Err(e) ==> e is InvalidFrame,
            final(self).spec_layout() == old(self).spec_layout(),
            final(self).spec_timecode() == old(self).spec_timecode(),
            final(self).spec_timestamp() == old(self).spec_timestamp(),
            final(self).spec_metadata() == old(self).spec_metadata(),
    {
        proof {
            use_type_invariant(&*self);
        }
        if data.len() != self.layout.sample_count {
            return Err(
                frame_error2(
                    "Audio data length ",
                    data.len() as i128,
                    ", expected ",
                    self.layout.sample_count as i128,
                    " samples for validated layout",
                ),
            );
        }
        self.data = data;
        Ok(())
    }

    /// The metadata text, if any.
    pub fn metadata(&self) -> (r: Option<&str>)
        ensures
            r is Some <==> self.spec_metadata() is Some,
            r matches Some(s) ==> self.spec_metadata() == Some(encode_utf8(s@)),
    {
        match &self.metadata {
            Some(m) => Some(m.as_str()),
            None => None,
        }
    }

    /// The metadata as the C string the SDK reads (text plus terminator).
    pub fn metadata_c_bytes(&self) -> (r: Option<&[u8]>)
        ensures
            r is Some <==> self.spec_metadata() is Some,
            r matches Some(b) ==> b@ == self.spec_metadata().unwrap() + seq![0u8],
            r is Some ==> metadata_text_ok(self.spec_metadata().unwrap()),
    {
        match &self.metadata {
            Some(m) => Some(m.as_c_bytes()),
            None => None,
        }
    }

    /// Replaces the metadata; on error the frame is left unchanged.
    pub fn set_metadata(&mut self, metadata: Option<&str>) -> (r: Result<(), Error>)
        ensures
            r is Ok <==> (metadata matches Some(t) ==> metadata_text_ok(encode_utf8(t@))),
            r is Ok ==> final(self).spec_metadata() == (match metadata {
                Some(t) => Some(encode_utf8(t@)),
                None => None::<Seq<u8>>,
            }),
            r is Err ==> final(self).spec_metadata() == old(self).spec_metadata(),
            final(self).spec_data() == old(self).spec_data(),
            final(self).spec_layout() == old(self).spec_layout(),
            final(self).spec_timecode() == old(self).spec_timecode(),
            final(self).spec_timestamp() == old(self).spec_timestamp(),
    {
        proof {
            use_type_invariant(&*self);
        }
        let m = match metadata {
            Some(t) => Some(FrameMetadata::new(t)?),
            None => None,
        };
        self.metadata = m;
        Ok(())
    }

    /// A copy of one channel's samples.
    pub fn channel_data(&self, channel: usize) -> (r: Option<Vec<u32>>)
        ensures
            r is Some <==> channel < self.spec_layout().no_channels,
            r matches Some(v) ==> v@ == self.spec_data().subrange(
                channel_start(self.spec_layout(), channel as int),
                channel_start(self.spec_layout(), channel as int) + self.spec_layout().no_samples,
            ),
    {
        proof {
            use_type_invariant(self);
            if channel < self.layout.no_channels {
                crate::audio::lemma_channel_in_range(self.layout, channel as int);
            }
        }
        let range = self.layout.channel_range(channel)?;
        Some(copy_samples(vstd::slice::slice_subrange(self.data.as_slice(), range.start, range.end)))
    }

    /// The frame as the SDK reads it: counts, format, stride, timing and the
    /// samples and metadata C string borrowed from the frame. The SDK accepts it
    /// back as the same frame (see [`lemma_audio_round_trip`]).
    pub fn to_raw(&self) -> (r: RawAudioFrame<'_>)
        ensures
            raw_mirrors_audio(r, *self),
            audio_frame_valid(*self),
    {
        proof {
            use_type_invariant(self);
            if let Some(m) = &self.metadata {
                vstd::utf8::encode_utf8_valid_utf8(m.spec_text());
            }
        }
        RawAudioFrame {
            sample_rate: self.layout.sample_rate,
            no_channels: self.num_channels(),
            no_samples: self.num_samples(),
            timecode: self.timecode,
            fourcc: self.format().fourcc(),
            p_data: Some(self.data.as_slice()),
            channel_stride_in_bytes: self.layout.channel_stride_in_bytes,
            p_metadata: self.metadata_c_bytes(),
            timestamp: self.timestamp,
        }
    }
}

/// An owned frame that copies an SDK frame: the backing samples its layout
/// covers, its timecode and timestamp, and its metadata text.
pub open spec fn audio_copied_from(f: AudioFrame, raw: RawAudioFrame) -> bool {
    &&& f.spec_data() == raw.p_data.unwrap()@.subrange(0, f.spec_layout().sample_count as int)
    &&& f.spec_timecode() == raw.timecode
    &&& f.spec_timestamp() == raw.timestamp
    &&& f.spec_metadata() == frame_metadata_text(raw.p_metadata)
}

/// What every owned audio frame satisfies: a consistent layout, samples of the
/// layout's size, and metadata text that may travel to the SDK.
pub open spec fn audio_frame_valid(f: AudioFrame) -> bool {
    &&& audio_layout_consistent(f.spec_layout())
    &&& f.spec_data().len() == f.spec_layout().sample_count
    &&& (f.spec_metadata() matches Some(m) ==> metadata_text_ok(m) && valid_utf8(m))
}

/// An SDK frame that carries an owned frame: rate, counts, FourCC, stride,
/// timecode and timestamp, its samples, and its metadata as a C string.
pub open spec fn raw_mirrors_audio(raw: RawAudioFrame, f: AudioFrame) -> bool {
    &&& raw.sample_rate == f.spec_layout().sample_rate
    &&& raw.no_channels == f.spec_layout().no_channels
    &&& raw.no_samples == f.spec_layout().no_samples
    &&& raw.timecode == f.spec_timecode()
    &&& raw.fourcc == NDIlib_FourCC_audio_type_FLTP
    &&& raw.p_data matches Some(d) && d@ == f.spec_data()
    &&& raw.channel_stride_in_bytes == f.spec_layout().channel_stride_in_bytes
    &&& (raw.p_metadata is Some <==> f.spec_metadata() is Some)
    &&& (raw.p_metadata matches Some(m) ==> m@ == f.spec_metadata().unwrap() + seq![0u8])
    &&& raw.timestamp == f.spec_timestamp()
}

/// Reading back the SDK form of an owned audio frame gives the same frame: the
/// SDK form is acceptable and readable, its layout is the frame's, and a frame
/// copied from it under that layout has the sent frame's samples, timecode,
/// timestamp and metadata.
pub proof fn lemma_audio_round_trip(f: AudioFrame, raw: RawAudioFrame, g: AudioFrame)
    requires
        audio_frame_valid(f),
        raw_mirrors_audio(raw, f),
    ensures
        audio_layout_ok(raw),
        audio_layout_of(raw) == f.spec_layout(),
        raw_audio_readable(raw),
        frame_metadata_ok(raw.p_metadata),
        g.spec_layout() == audio_layout_of(raw) && audio_copied_from(g, raw) ==> {
            &&& g.spec_layout() == f.spec_layout()
            &&& g.spec_data() == f.spec_data()
            &&& g.spec_timecode() == f.spec_timecode()
            &&& g.spec_timestamp() == f.spec_timestamp()
            &&& g.spec_metadata() == f.spec_metadata()
        },
{
    let l = f.spec_layout();
    lemma_counts_fit(l);
    match f.spec_metadata() {
        Some(m) => lemma_c_string_is_frame_metadata(raw.p_metadata, m),
        None => {},
    }
    assert(raw.channel_stride_in_bytes / 4 == l.channel_stride_samples);
    let a = audio_layout_of(raw);
    assert(a.format == l.format);
    assert(audio_layout_of(raw) == l);
    let d = raw.p_data.unwrap()@;
    assert(d.subrange(0, l.sample_count as int) =~= d);
}

/// Channel and sample counts of a consistent layout fit in an `i32`.
pub proof fn lemma_counts_fit(l: ValidatedAudioLayout)
    requires
        audio_layout_consistent(l),
    ensures
        l.no_channels <= i32::MAX,
        l.no_samples <= i32::MAX,
        l.no_channels * l.no_samples <= l.sample_count,
{
    let n = l.no_channels as int;
    let s = l.channel_stride_samples as int;
    let k = l.no_samples as int;
    assert(n * k <= (n - 1) * s + k) by (nonlinear_arith)
        requires
            n >= 1,
            s >= k,
            k >= 0,
    ;
    assert(n <= n * k) by (nonlinear_arith)
        requires
            n >= 1,
            k >= 1,
    ;
    assert(k <= n * k) by (nonlinear_arith)
        requires
            n >= 1,
            k >= 1,
    ;
}

/// Copies samples into a fresh vector.
pub fn copy_samples(samples: &[u32]) -> (r: Vec<u32>)
    ensures
        r@ == samples@,
{
    let mut out: Vec<u32> = Vec::new();
    let mut i: usize = 0;
    while i < samples.len()
        invariant
            i <= samples@.len(),
            out@ == samples@.subrange(0, i as int),
        decreases samples@.len() - i,
    {
        out.push(samples[i]);
        i = i + 1;
        assert(out@ == samples@.subrange(0, i as int));
    }
    assert(samples@.subrange(0, samples@.len() as int) == samples@);
    out
}

/// Reorders interleaved samples into planar order.
pub fn deinterleave_samples(input: &[u32], channels: usize, samples: usize) -> (r: Vec<u32>)
    requires
        channels > 0,
        samples > 0,
        input@.len() == channels * samples,
    ensures
        r@ == deinterleave(input@, channels as int, samples as int),
{
    let total = input.len();
    let mut planar: Vec<u32> = Vec::new();
    let mut ch: usize = 0;
    while ch < channels
        invariant
            channels > 0,
            samples > 0,
            input@.len() == channels * samples,
            total == channels * samples,
            ch <= channels,
            planar@.len() == ch * samples,
            forall|i: int|
                0 <= i < planar@.len() ==> #[trigger] planar@[i] == input@[(i % samples as int)
                    * channels + i / samples as int],
        decreases channels - ch,
    {
        let mut s: usize = 0;
        while s < samples
            invariant
                channels > 0,
                samples > 0,
                input@.len() == channels * samples,
                total == channels * samples,
                ch < channels,
                s <= samples,
                planar@.len() == ch * samples + s,
                forall|i: int|
                    0 <= i < planar@.len() ==> #[trigger] planar@[i] == input@[(i % samples as int)
                        * channels + i / samples as int],
            decreases samples - s,
        {
            proof {
                assert(s * channels + ch < channels * samples) by (nonlinear_arith)
                    requires
                        s < samples,
                        ch < channels,
                ;
                assert(s * channels + ch <= usize::MAX) by (nonlinear_arith)
                    requires
                        s * channels + ch < channels * samples,
                        channels * samples <= usize::MAX,
                ;
                vstd::arithmetic::div_mod::lemma_fundamental_div_mod_converse(
                    (ch * samples + s) as int,
                    samples as int,
                    ch as int,
                    s as int,
                );
                assert((ch as int) * (samples as int) == (ch * samples)) by (nonlinear_arith);
            }
            let src = s * channels + ch;
            planar.push(input[src]);
            s = s + 1;
        }
        proof {
            assert((ch + 1) * samples == ch * samples + samples) by (nonlinear_arith);
        }
        ch = ch + 1;
    }
    proof {
        assert(planar@ =~= deinterleave(input@, channels as int, samples as int));
    }
    planar
}

/// A vector of `n` zero samples (the bit pattern of `0.0f32`).
pub fn zero_samples(n: usize) -> (r: Vec<u32>)
    ensures
        r@ == Seq::new(n as nat, |i: int| 0u32),
{
    let mut out: Vec<u32> = Vec::new();
    let mut i: usize = 0;
    while i < n
        invariant
            i <= n,
            out@ == Seq::new(i as nat, |k: int| 0u32),
        decreases n - i,
    {
        out.push(0u32);
        i = i + 1;
        assert(out@ =~= Seq::new(i as nat, |k: int| 0u32));
    }
    out
}

/// Builder of outgoing audio frames. Unset fields take their defaults when the
/// frame is built: 48 kHz, two channels, 1024 samples, FLTP, planar input,
/// timecode and timestamp zero, silent samples, no metadata.
#[derive(Debug, Clone)]
pub struct AudioFrameBuilder {
    pub sample_rate: Option<i32>,
    pub num_channels: Option<i32>,
    pub num_samples: Option<i32>,
    pub timecode: Option<i64>,
    pub format: Option<AudioFormat>,
    pub data: Option<Vec<u32>>,
    pub layout: Option<AudioLayout>,
    pub metadata: Option<String>,
    pub timestamp: Option<i64>,
}

/// The value of an optional field, or its default.
pub open spec fn or_default<T>(o: Option<T>, d: T) -> T {
    match o {
        Some(v) => v,
        None => d,
    }
}

impl AudioFrameBuilder {
    /// A builder with every field unset.
    pub open spec fn spec_new() -> AudioFrameBuilder {
        AudioFrameBuilder {
            sample_rate: None,
            num_channels: None,
            num_samples: None,
            timecode: None,
            format: None,
            data: None,
            layout: None,
            metadata: None,
            timestamp: None,
        }
    }

    /// A builder with every field unset.
    pub fn new() -> (r: AudioFrameBuilder)
        ensures
            r == AudioFrameBuilder::spec_new(),
    {
        AudioFrameBuilder {
            sample_rate: None,
            num_channels: None,
            num_samples: None,
            timecode: None,
            format: None,
            data: None,
            layout: None,
            metadata: None,
            timestamp: None,
        }
    }

    /// Sets the sample rate.
    pub fn sample_rate(self, rate: i32) -> (r: AudioFrameBuilder)
        ensures
            r == (AudioFrameBuilder { sample_rate: Some(rate), ..self }),
    {
        AudioFrameBuilder { sample_rate: Some(rate), ..self }
    }

    /// Sets the number of channels.
    pub fn channels(self, channels: i32) -> (r: AudioFrameBuilder)
        ensures
            r == (AudioFrameBuilder { num_channels: Some(channels), ..self }),
    {
        AudioFrameBuilder { num_channels: Some(channels), ..self }
    }

    /// Sets the number of samples per channel.
    pub fn samples(self, samples: i32) -> (r: AudioFrameBuilder)
        ensures
            r == (AudioFrameBuilder { num_samples: Some(samples), ..self }),
    {
        AudioFrameBuilder { num_samples: Some(samples), ..self }
    }

    /// Sets the timecode.
    pub fn timecode(self, tc: i64) -> (r: AudioFrameBuilder)
        ensures
            r == (AudioFrameBuilder { timecode: Some(tc), ..self }),
    {
        AudioFrameBuilder { timecode: Some(tc), ..self }
    }

    /// Sets the sample format.
    pub fn format(self, format: AudioFormat) -> (r: AudioFrameBuilder)
        ensures
            r == (AudioFrameBuilder { format: Some(format), ..self }),
    {
        AudioFrameBuilder { format: Some(format), ..self }
    }

    /// Sets how the samples given to [`AudioFrameBuilder::data`] are arranged.
    pub fn layout(self, layout: AudioLayout) -> (r: AudioFrameBuilder)
        ensures
            r == (AudioFrameBuilder { layout: Some(layout), ..self }),
    {
        AudioFrameBuilder { layout: Some(layout), ..self }
    }

    /// Sets the samples: `channels * samples` of them, in the configured layout.
    pub fn data(self, data: Vec<u32>) -> (r: AudioFrameBuilder)
        ensures
            r == (AudioFrameBuilder { data: Some(data), ..self }),
    {
        AudioFrameBuilder { data: Some(data), ..self }
    }

    /// Sets the metadata text.
    pub fn metadata(self, meta: &str) -> (r: AudioFrameBuilder)
        ensures
            r.metadata matches Some(m) && m@ == meta@,
            r.sample_rate == self.sample_rate && r.num_channels == self.num_channels
                && r.num_samples == self.num_samples && r.timecode == self.timecode && r.format
                == self.format && r.data == self.data && r.layout == self.layout && r.timestamp
                == self.timestamp,
    {
        AudioFrameBuilder { metadata: Some(meta.to_string()), ..self }
    }

    /// Sets the timestamp.
    pub fn timestamp(self, ts: i64) -> (r: AudioFrameBuilder)
        ensures
            r == (AudioFrameBuilder { timestamp: Some(ts), ..self }),
    {
        AudioFrameBuilder { timestamp: Some(ts), ..self }
    }

    /// The sample rate the frame will have.
    pub open spec fn spec_rate(self) -> i32 {
        or_default(self.sample_rate, 48000i32)
    }

    /// The channel count the frame will have.
    pub open spec fn spec_channels(self) -> i32 {
        or_default(self.num_channels, 2i32)
    }

    /// The samples per channel the frame will have.
    pub open spec fn spec_samples(self) -> i32 {
        or_default(self.num_samples, 1024i32)
    }

    /// When building succeeds: valid counts, a sample buffer of the right size if
    /// one was given, and metadata fit for the SDK if some was given.
    pub open spec fn spec_build_ok(self) -> bool {
        &&& outbound_audio_ok(
            self.spec_rate() as int,
            self.spec_channels() as int,
            self.spec_samples() as int,
        )
        &&& (self.data matches Some(d) ==> d@.len() == self.spec_channels() * self.spec_samples())
        &&& (self.metadata matches Some(m) ==> metadata_text_ok(encode_utf8(m@)))
    }

    /// The planar samples the frame will hold.
    pub open spec fn spec_built_data(self) -> Seq<u32> {
        let n = self.spec_channels() * self.spec_samples();
        match self.data {
            None => Seq::new(n as nat, |i: int| 0u32),
            Some(d) => match or_default(self.layout, AudioLayout::Planar) {
                AudioLayout::Planar => d@,
                AudioLayout::Interleaved => deinterleave(
                    d@,
                    self.spec_channels() as int,
                    self.spec_samples() as int,
                ),
            },
        }
    }

    /// A frame built from interleaved samples keeps every sample in its channel:
    /// for every channel count, channel `ch` of the built frame (the samples that
    /// `AudioFrame::channel_data(ch)` returns) holds at position `s` the input's
    /// sample at `s * channels + ch`.
    pub proof fn lemma_built_channel_samples(self, f: AudioFrame, ch: int, s: int)
        requires
            self.layout == Some(AudioLayout::Interleaved),
            self.data is Some,
            self.spec_build_ok(),
            f.spec_layout() == outbound_layout_of(
                self.spec_rate(),
                self.spec_channels(),
                self.spec_samples(),
            ),
            f.spec_data() == self.spec_built_data(),
            0 <= ch < self.spec_channels(),
            0 <= s < self.spec_samples(),
        ensures
            f.spec_data().subrange(
                channel_start(f.spec_layout(), ch),
                channel_start(f.spec_layout(), ch) + f.spec_layout().no_samples,
            )[s] == self.data.unwrap()@[s * self.spec_channels() + ch],
    {
        let nc = self.spec_channels() as int;
        let ns = self.spec_samples() as int;
        let d = self.data.unwrap()@;
        lemma_deinterleave_places_samples(d, nc, ns, ch, s);
        assert(self.spec_built_data() == deinterleave(d, nc, ns));
        assert(f.spec_layout().channel_stride_samples == ns);
        assert(f.spec_layout().no_samples == ns);
        assert(channel_start(f.spec_layout(), ch) == ch * ns);
        assert(ch * ns + ns <= nc * ns) by (nonlinear_arith)
            requires
                0 <= ch < nc,
                ns > 0,
        ;
        assert(ch * ns >= 0) by (nonlinear_arith)
            requires
                ch >= 0,
                ns > 0,
        ;
    }

    /// Builds the frame. Interleaved samples are reordered to planar; the frame
    /// always stores planar samples with a stride of one channel.
    pub fn build(self) -> (r: Result<AudioFrame, Error>)
        ensures
            r is Ok <==> self.spec_build_ok(),
            r matches Ok(f) ==> {
                &&& f.spec_layout() == outbound_layout_of(
                    self.spec_rate(),
                    self.spec_channels(),
                    self.spec_samples(),
                )
                &&& f.spec_data() == self.spec_built_data()
                &&& f.spec_timecode() == or_default(self.timecode, 0i64)
                &&& f.spec_timestamp() == or_default(self.timestamp, 0i64)
                &&& f.spec_metadata() == match self.metadata {
                    Some(m) => Some(encode_utf8(m@)),
                    None => None::<Seq<u8>>,
                }
            },
            r matches Err(e) ==> if outbound_audio_ok(
                self.spec_rate() as int,
                self.spec_channels() as int,
                self.spec_samples() as int,
            ) && (self.data matches Some(d) ==> d@.len() == self.spec_channels()
                * self.spec_samples()) && self.metadata is Some && encode_utf8(
                self.metadata.unwrap()@,
            ).len() + 1 <= MAX_METADATA_BYTES {
                e matches Error::InvalidCString(p) && first_nul(encode_utf8(self.metadata.unwrap()@))
                    == Some(p as int)
            } else {
                e is InvalidFrame
            },
    {
        let sample_rate = match self.sample_rate {
            Some(v) => v,
            None => 48000,
        };
        let num_channels = match self.num_channels {
            Some(v) => v,
            None => 2,
        };
        let num_samples = match self.num_samples {
            Some(v) => v,
            None => 1024,
        };
        let format = match self.format {
            Some(v) => v,
            None => AudioFormat::FLTP,
        };
        let layout = match self.layout {
            Some(v) => v,
            None => AudioLayout::Planar,
        };
        let timecode = match self.timecode {
            Some(v) => v,
            None => 0,
        };
        let timestamp = match self.timestamp {
            Some(v) => v,
            None => 0,
        };
        let audio_layout = validate_outbound_audio_layout(sample_rate, num_channels, num_samples, format)?;
        let sample_count = audio_layout.sample_count;
        let data = match self.data {
            Some(input) => {
                if input.len() != sample_count {
                    let mut m = with_int("Audio data length ", input.len() as i128);
                    m.append(", expected ");
                    append_int(&mut m, sample_count as i128);
                    m.append(" (");
                    append_int(&mut m, num_channels as i128);
                    m.append("ch x ");
                    append_int(&mut m, num_samples as i128);
                    m.append("samples)");
                    return Err(Error::InvalidFrame(m));
                }
                match layout {
                    AudioLayout::Planar => input,
                    AudioLayout::Interleaved => deinterleave_samples(
                        input.as_slice(),
                        audio_layout.no_channels,
                        audio_layout.no_samples,
                    ),
                }
            },
            None => zero_samples(sample_count),
        };
        let metadata = match self.metadata {
            Some(m) => Some(FrameMetadata::new(m.as_str())?),
            None => None,
        };
        Ok(AudioFrame { layout: audio_layout, timecode, data, metadata, timestamp })
    }
}

impl Default for AudioFrameBuilder {
    fn default() -> (r: AudioFrameBuilder)
        ensures
            r == AudioFrameBuilder::spec_new(),
    {
        AudioFrameBuilder::new()
    }
}

impl Default for AudioFrame {
    fn default() -> (r: AudioFrame)
        ensures
            r.spec_layout() == outbound_layout_of(48000, 2, 1024),
            r.spec_data() == Seq::new(2048, |i: int| 0u32),
            r.spec_timecode() == 0,
            r.spec_timestamp() == 0,
            r.spec_metadata() is None,
    {
        let layout = ValidatedAudioLayout {
            format: Some(AudioFormat::FLTP),
            sample_rate: 48000,
            no_channels: 2,
            no_samples: 1024,
            channel_stride_in_bytes: 4096,
            channel_stride_samples: 1024,
            sample_count: 2048,
        };
        AudioFrame {
            layout,
            timecode: 0,
            data: zero_samples(2048),
            metadata: None,
            timestamp: 0,
        }
    }
}

/// A borrowed SDK audio frame whose layout and metadata have been validated.
#[derive(Debug)]
pub struct AudioFrameRef<'a> {
    raw: RawAudioFrame<'a>,
    layout: ValidatedAudioLayout,
    metadata: ValidatedFrameMetadata,
}

/// The SDK's promise about an audio frame: a non-null data pointer of an
/// acceptable frame is readable for the backing sample count, and the metadata
/// pointer is readable up to its terminator.
pub open spec fn raw_audio_readable(raw: RawAudioFrame) -> bool {
    &&& (raw.p_data matches Some(d) ==> (audio_layout_ok(raw) ==> d@.len()
        >= audio_layout_of(raw).sample_count))
    &&& frame_metadata_readable(raw.p_metadata)
}

impl<'a> AudioFrameRef<'a> {
    #[verifier::type_invariant]
    spec fn inv(self) -> bool {
        &&& audio_layout_ok(self.raw)
        &&& self.layout == audio_layout_of(self.raw)
        &&& audio_layout_consistent(self.layout)
        &&& raw_audio_readable(self.raw)
        &&& frame_metadata_matches(self.raw.p_metadata, self.metadata)
    }

    /// The SDK frame this view wraps.
    pub closed spec fn spec_raw(self) -> RawAudioFrame<'a> {
        self.raw
    }

    /// Validates an SDK audio frame and its metadata, and wraps it.
    pub fn new(raw: RawAudioFrame<'a>) -> (r: Result<AudioFrameRef<'a>, Error>)
        requires
            raw_audio_readable(raw),
        ensures
            r is Ok <==> audio_layout_ok(raw) && frame_metadata_ok(raw.p_metadata),
            r matches Ok(f) ==> f.spec_raw() == raw,
            r matches Err(e) ==> if audio_layout_ok(raw) && frame_metadata_shape_ok(raw.p_metadata) {
                e is InvalidUtf8
            } else {
                e is InvalidFrame
            },
    {
        let layout = validate_audio_layout(&raw)?;
        let metadata = validate_frame_metadata(raw.p_metadata)?;
        Ok(AudioFrameRef { raw, layout, metadata })
    }

    /// Sample rate in Hz.
    pub fn sample_rate(&self) -> (r: i32)
        ensures
            r == self.spec_raw().sample_rate,
    {
        proof {
            use_type_invariant(self);
        }
        self.layout.sample_rate
    }

    /// Number of channels.
    pub fn num_channels(&self) -> (r: i32)
        ensures
            r == self.spec_raw().no_channels,
    {
        proof {
            use_type_invariant(self);
            lemma_counts_fit(self.layout);
        }
        self.layout.no_channels as i32
    }

    /// Samples per channel.
    pub fn num_samples(&self) -> (r: i32)
        ensures
            r == self.spec_raw().no_samples,
    {
        proof {
            use_type_invariant(self);
            lemma_counts_fit(self.layout);
        }
        self.layout.no_samples as i32
    }

    /// Timecode.
    pub fn timecode(&self) -> (r: i64)
        ensures
            r == self.spec_raw().timecode,
    {
        self.raw.timecode
    }

    /// Timestamp.
    pub fn timestamp(&self) -> (r: i64)
        ensures
            r == self.spec_raw().timestamp,
    {
        self.raw.timestamp
    }

    /// The sample format, which validation guarantees.
    pub fn format(&self) -> (r: AudioFormat)
        ensures
            r == AudioFormat::FLTP,
            self.spec_raw().fourcc == NDIlib_FourCC_audio_type_FLTP,
    {
        proof {
            use_type_invariant(self);
        }
        match self.layout.format() {
            Some(f) => f,
            None => {
                proof {
                    assert(false);
                }
                AudioFormat::FLTP
            },
        }
    }

    /// The layout found when the frame was validated.
    pub fn validated_layout(&self) -> (r: ValidatedAudioLayout)
        ensures
            r == audio_layout_of(self.spec_raw()),
            audio_layout_consistent(r),
    {
        proof {
            use_type_invariant(self);
        }
        self.layout
    }

    /// Channel stride in bytes.
    pub fn channel_stride_in_bytes(&self) -> (r: i32)
        ensures
            r == self.spec_raw().channel_stride_in_bytes,
    {
        proof {
            use_type_invariant(self);
        }
        self.layout.channel_stride_in_bytes
    }

    /// The metadata text, if the SDK attached some.
    pub fn metadata(&self) -> (r: Option<&'a str>)
        ensures
            r is Some <==> self.spec_raw().p_metadata is Some,
            r matches Some(s) ==> Some(s.spec_bytes()) == frame_metadata_text(self.spec_raw().p_metadata),
    {
        proof {
            use_type_invariant(self);
            lemma_frame_metadata_matches_text(self.raw.p_metadata, self.metadata);
        }
        frame_metadata_str(self.raw.p_metadata, self.metadata)
    }

    /// The backing samples, padding between channels included.
    pub fn data(&self) -> (r: &'a [u32])
        ensures
            r@ == self.spec_raw().p_data.unwrap()@.subrange(
                0,
                audio_layout_of(self.spec_raw()).sample_count as int,
            ),
    {
        proof {
            use_type_invariant(self);
        }
        match self.raw.p_data {
            Some(d) => vstd::slice::slice_subrange(d, 0, self.layout.sample_count),
            None => {
                proof {
                    assert(false);
                }
                let e: &[u32] = &[];
                e
            },
        }
    }

    /// One channel's samples, honouring the channel stride.
    pub fn channel_data(&self, channel: usize) -> (r: Option<&'a [u32]>)
        ensures
            r is Some <==> channel < self.spec_raw().no_channels,
            r matches Some(s) ==> s@ == self.spec_raw().p_data.unwrap()@.subrange(
                channel_start(audio_layout_of(self.spec_raw()), channel as int),
                channel_start(audio_layout_of(self.spec_raw()), channel as int)
                    + self.spec_raw().no_samples,
            ),
    {
        proof {
            use_type_invariant(self);
            if channel < self.layout.no_channels {
                crate::audio::lemma_channel_in_range(self.layout, channel as int);
            }
        }
        let range = self.layout.channel_range(channel)?;
        let data = self.data();
        Some(vstd::slice::slice_subrange(data, range.start, range.end))
    }

    /// Copies the frame into an owned [`AudioFrame`].
    pub fn to_owned(&self) -> (r: Result<AudioFrame, Error>)
        ensures
            r matches Ok(f) && f.spec_layout() == audio_layout_of(self.spec_raw()) && f.spec_data()
                == self.spec_raw().p_data.unwrap()@.subrange(
                0,
                audio_layout_of(self.spec_raw()).sample_count as int,
            ) && f.spec_timecode() == self.spec_raw().timecode && f.spec_timestamp()
                == self.spec_raw().timestamp && f.spec_metadata() == frame_metadata_text(
                self.spec_raw().p_metadata,
            ),
    {
        proof {
            use_type_invariant(self);
        }
        AudioFrame::from_raw_validated(&self.raw, self.layout, self.metadata)
    }
}

} // verus!
