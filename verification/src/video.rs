//! Video frames: validation of SDK video frames, owned frames and their builder,
//! and borrowed frames.
//!
//! The picture aspect ratio is an `f32`; the library carries it as its IEEE-754
//! bit pattern, which is enough to tell a finite positive ratio from the rest.

use vstd::prelude::*;
use vstd::string::StringSliceAdditionalSpecFns;
use vstd::utf8::{encode_utf8, valid_utf8};

use crate::audio_frame::{metadata_bytes, or_default};
use crate::error::{frame_error, frame_error2, invalid_frame, Error};
use crate::format::{
    buffer_len_formula, format_bytes_per_pixel, format_category, format_fourcc, uncompressed_layout_ok,
    uncompressed_stride, LineStrideOrSize, PixelFormat, ValidatedVideoLayout,
};
use crate::metadata::{
    copy_frame_metadata, frame_metadata_matches, frame_metadata_ok, frame_metadata_readable,
    frame_metadata_shape_ok, frame_metadata_str, frame_metadata_text,
    lemma_c_string_is_frame_metadata, lemma_frame_metadata_matches_text, metadata_text_ok,
    validate_frame_metadata, FrameMetadata, ValidatedFrameMetadata, MAX_METADATA_BYTES,
};
use crate::text::first_nul;
use crate::sdk::{
    NDIlib_frame_format_type_field_0, NDIlib_frame_format_type_field_1,
    NDIlib_frame_format_type_interleaved, NDIlib_frame_format_type_progressive,
};

verus! {

/// Bit pattern of `16.0f32 / 9.0f32`.
pub const ASPECT_16_9_BITS: u32 = 0x3FE3_8E39;

/// Scan types of video frames.
#[derive(Debug, Clone, Copy, PartialEq, Eq, Structural)]
#[non_exhaustive]
pub enum ScanType {
    /// Full frames.
    Progressive,
    /// Interleaved fields.
    Interlaced,
    /// First field only.
    Field0,
    /// Second field only.
    Field1,
}

/// The SDK frame-format value of a scan type.
pub open spec fn scan_type_code(s: ScanType) -> u32 {
    match s {
        ScanType::Progressive => NDIlib_frame_format_type_progressive,
        ScanType::Interlaced => NDIlib_frame_format_type_interleaved,
        ScanType::Field0 => NDIlib_frame_format_type_field_0,
        ScanType::Field1 => NDIlib_frame_format_type_field_1,
    }
}

/// The scan type named by an SDK frame-format value.
pub open spec fn scan_type_of(code: u32) -> Option<ScanType> {
    if code == NDIlib_frame_format_type_progressive {
        Some(ScanType::Progressive)
    } else if code == NDIlib_frame_format_type_interleaved {
        Some(ScanType::Interlaced)
    } else if code == NDIlib_frame_format_type_field_0 {
        Some(ScanType::Field0)
    } else if code == NDIlib_frame_format_type_field_1 {
        Some(ScanType::Field1)
    } else {
        None
    }
}

impl ScanType {
    /// The SDK frame-format value.
    pub fn code(self) -> (r: u32)
        ensures
            r == scan_type_code(self),
            scan_type_of(r) == Some(self),
    {
        match self {
            ScanType::Progressive => NDIlib_frame_format_type_progressive,
            ScanType::Interlaced => NDIlib_frame_format_type_interleaved,
            ScanType::Field0 => NDIlib_frame_format_type_field_0,
            ScanType::Field1 => NDIlib_frame_format_type_field_1,
        }
    }

    /// The SDK frame-format value as a signed integer.
    pub fn to_i32(self) -> (r: i32)
        ensures
            r == scan_type_code(self),
    {
        match self {
            ScanType::Progressive => 1,
            ScanType::Interlaced => 0,
            ScanType::Field0 => 2,
            ScanType::Field1 => 3,
        }
    }

    /// The scan type named by an SDK frame-format value.
    pub fn from_code(code: u32) -> (r: Option<ScanType>)
        ensures
            r == scan_type_of(code),
    {
        if code == NDIlib_frame_format_type_progressive {
            Some(ScanType::Progressive)
        } else if code == NDIlib_frame_format_type_interleaved {
            Some(ScanType::Interlaced)
        } else if code == NDIlib_frame_format_type_field_0 {
            Some(ScanType::Field0)
        } else if code == NDIlib_frame_format_type_field_1 {
            Some(ScanType::Field1)
        } else {
            None
        }
    }
}

/// The pixel format named by a FourCC code.
pub open spec fn pixel_format_of(code: u32) -> Option<PixelFormat> {
    if exists|f: PixelFormat| format_fourcc(f) == code {
        Some(choose|f: PixelFormat| format_fourcc(f) == code)
    } else {
        None
    }
}

/// Distinct formats have distinct FourCC codes.
pub proof fn lemma_fourcc_injective(a: PixelFormat, b: PixelFormat)
    requires
        format_fourcc(a) == format_fourcc(b),
    ensures
        a == b,
{
}

/// The format whose FourCC code is `code`, if there is one.
pub fn pixel_format_from_fourcc(code: u32) -> (r: Option<PixelFormat>)
    ensures
        r == pixel_format_of(code),
{
    let r = PixelFormat::from_fourcc(code);
    proof {
        if let Some(f) = r {
            let g = choose|g: PixelFormat| format_fourcc(g) == code;
            lemma_fourcc_injective(f, g);
        }
    }
    r
}

/// A picture aspect ratio, by its `f32` bit pattern, that is finite and positive.
pub open spec fn aspect_ratio_ok(bits: u32) -> bool {
    0 < bits < 0x7F80_0000
}

/// Frame-rate and aspect-ratio requirements of a video frame.
pub open spec fn video_timing_ok(frame_rate_n: i32, frame_rate_d: i32, aspect_bits: u32) -> bool {
    frame_rate_n > 0 && frame_rate_d > 0 && aspect_ratio_ok(aspect_bits)
}

/// Checks the frame rate and the aspect ratio of a video frame.
pub fn validate_video_frame_metadata(frame_rate_n: i32, frame_rate_d: i32, aspect_bits: u32) -> (r:
    Result<(), Error>)
    ensures
        r is Ok <==> video_timing_ok(frame_rate_n, frame_rate_d, aspect_bits),
        r matches Err(e) ==> e is InvalidFrame,
{
    if frame_rate_n <= 0 {
        return Err(frame_error("Video frame has invalid frame rate numerator: ", frame_rate_n as i128));
    }
    if frame_rate_d <= 0 {
        return Err(frame_error("Video frame has invalid frame rate denominator: ", frame_rate_d as i128));
    }
    if aspect_bits == 0 || aspect_bits >= 0x7F80_0000 {
        return Err(invalid_frame("Video frame has invalid picture aspect ratio"));
    }
    Ok(())
}

/// A video frame as the SDK describes it. `p_data` is `None` for a null pointer;
/// `line_stride_or_size` is the SDK's stride/size field.
#[derive(Debug, Clone, Copy)]
pub struct RawVideoFrame<'a> {
    pub xres: i32,
    pub yres: i32,
    pub fourcc: u32,
    pub frame_rate_n: i32,
    pub frame_rate_d: i32,
    pub picture_aspect_ratio_bits: u32,
    pub frame_format_type: u32,
    pub timecode: i64,
    pub p_data: Option<&'a [u8]>,
    pub line_stride_or_size: i32,
    pub p_metadata: Option<&'a [u8]>,
    pub timestamp: i64,
}

/// When an SDK video frame is acceptable: data present, valid timing, a known
/// scan type and pixel format, and an uncompressed layout within the cap.
pub open spec fn video_layout_ok(raw: RawVideoFrame) -> bool {
    &&& raw.p_data is Some
    &&& video_timing_ok(raw.frame_rate_n, raw.frame_rate_d, raw.picture_aspect_ratio_bits)
    &&& scan_type_of(raw.frame_format_type) is Some
    &&& pixel_format_of(raw.fourcc) is Some
    &&& uncompressed_layout_ok(
        pixel_format_of(raw.fourcc).unwrap(),
        raw.xres,
        raw.yres,
        Some(raw.line_stride_or_size),
    )
}

/// The layout of an acceptable SDK video frame.
pub open spec fn video_layout_of(raw: RawVideoFrame) -> ValidatedVideoLayout {
    let f = pixel_format_of(raw.fourcc).unwrap();
    ValidatedVideoLayout {
        width: raw.xres,
        height: raw.yres,
        pixel_format: f,
        data_len_bytes: buffer_len_formula(
            format_category(f),
            raw.line_stride_or_size as int,
            raw.yres as int,
        ) as usize,
        line_stride_or_size: LineStrideOrSize::LineStrideBytes(raw.line_stride_or_size),
    }
}

/// Validates an SDK video frame and computes its layout.
pub fn validate_video_layout(raw: &RawVideoFrame) -> (r: Result<ValidatedVideoLayout, Error>)
    ensures
        r is Ok <==> video_layout_ok(*raw),
        r matches Ok(l) ==> l == video_layout_of(*raw),
        r matches Err(e) ==> e is InvalidFrame,
{
    if raw.p_data.is_none() {
        return Err(invalid_frame("Video frame has null data pointer"));
    }
    validate_video_frame_metadata(raw.frame_rate_n, raw.frame_rate_d, raw.picture_aspect_ratio_bits)?;
    if ScanType::from_code(raw.frame_format_type).is_none() {
        return Err(
            Error::InvalidFrame(crate::text::with_hex_u32("Unknown scan type: ", raw.frame_format_type)),
        );
    }
    let pixel_format = match pixel_format_from_fourcc(raw.fourcc) {
        Some(f) => f,
        None => {
            return Err(
                Error::InvalidFrame(crate::text::with_hex_u32("Unknown pixel format FourCC: ", raw.fourcc)),
            );
        },
    };
    ValidatedVideoLayout::new_uncompressed(
        pixel_format,
        raw.xres,
        raw.yres,
        Some(raw.line_stride_or_size),
    )
}

/// A layout an owned frame can carry: an uncompressed layout with a line stride
/// that SDK frame validation accepts, and the size that stride implies.
pub open spec fn video_layout_valid(l: ValidatedVideoLayout) -> bool {
    &&& l.line_stride_or_size matches LineStrideOrSize::LineStrideBytes(s)
    &&& uncompressed_layout_ok(l.pixel_format, l.width, l.height, Some(s))
    &&& l.data_len_bytes == buffer_len_formula(
        format_category(l.pixel_format),
        s as int,
        l.height as int,
    )
}

/// The tight stride of an accepted description is an accepted stride too.
proof fn lemma_tight_stride_ok(f: PixelFormat, width: i32, height: i32)
    requires
        uncompressed_layout_ok(f, width, height, None),
    ensures
        uncompressed_layout_ok(
            f,
            width,
            height,
            Some(uncompressed_stride(f, width as int, None) as i32),
        ),
{
    let bpp = format_bytes_per_pixel(f) as int;
    assert(width * bpp > 0) by (nonlinear_arith)
        requires
            width > 0,
            bpp >= 1,
    ;
}

/// An owned video frame: pixel data with its checked layout, frame rate, aspect
/// ratio bits, scan type, timecode, timestamp and optional metadata.
#[derive(Debug)]
pub struct VideoFrame {
    layout: ValidatedVideoLayout,
    frame_rate_n: i32,
    frame_rate_d: i32,
    picture_aspect_ratio: u32,
    scan_type: ScanType,
    timecode: i64,
    data: Vec<u8>,
    metadata: Option<FrameMetadata>,
    timestamp: i64,
}

impl VideoFrame {
    #[verifier::type_invariant]
    spec fn inv(self) -> bool {
        &&& self.data@.len() == self.layout.data_len_bytes
        &&& video_timing_ok(self.frame_rate_n, self.frame_rate_d, self.picture_aspect_ratio)
        &&& video_layout_valid(self.layout)
    }

    /// The layout of the pixel data.
    pub closed spec fn spec_layout(self) -> ValidatedVideoLayout {
        self.layout
    }

    /// The pixel data.
    pub closed spec fn spec_data(self) -> Seq<u8> {
        self.data@
    }

    /// Frame rate numerator.
    pub closed spec fn spec_frame_rate_n(self) -> i32 {
        self.frame_rate_n
    }

    /// Frame rate denominator.
    pub closed spec fn spec_frame_rate_d(self) -> i32 {
        self.frame_rate_d
    }

    /// Aspect ratio bits.
    pub closed spec fn spec_aspect(self) -> u32 {
        self.picture_aspect_ratio
    }

    /// Scan type.
    pub closed spec fn spec_scan_type(self) -> ScanType {
        self.scan_type
    }

    /// Timecode.
    pub closed spec fn spec_timecode(self) -> i64 {
        self.timecode
    }

    /// Timestamp.
    pub closed spec fn spec_timestamp(self) -> i64 {
        self.timestamp
    }

    /// Metadata text as UTF-8 bytes, if any.
    pub closed spec fn spec_metadata(self) -> Option<Seq<u8>> {
        metadata_bytes(self.metadata)
    }

    /// A builder with every field unset.
    pub fn builder() -> (r: VideoFrameBuilder)
        ensures
            r == VideoFrameBuilder::spec_new(),
    {
        VideoFrameBuilder::new()
    }

    /// Width in pixels.
    pub fn width(&self) -> (r: i32)
        ensures
            r == self.spec_layout().width,
    {
        self.layout.width
    }

    /// Height in pixels.
    pub fn height(&self) -> (r: i32)
        ensures
            r == self.spec_layout().height,
    {
        self.layout.height
    }

    /// Pixel format.
    pub fn pixel_format(&self) -> (r: PixelFormat)
        ensures
            r == self.spec_layout().pixel_format,
    {
        self.layout.pixel_format
    }

    /// Frame rate numerator.
    pub fn frame_rate_n(&self) -> (r: i32)
        ensures
            r == self.spec_frame_rate_n(),
    {
        self.frame_rate_n
    }

    /// Frame rate denominator.
    pub fn frame_rate_d(&self) -> (r: i32)
        ensures
            r == self.spec_frame_rate_d(),
    {
        self.frame_rate_d
    }

    /// Picture aspect ratio as `f32` bits.
    pub fn picture_aspect_ratio(&self) -> (r: u32)
        ensures
            r == self.spec_aspect(),
    {
        self.picture_aspect_ratio
    }

    /// Scan type.
    pub fn scan_type(&self) -> (r: ScanType)
        ensures
            r == self.spec_scan_type(),
    {
        self.scan_type
    }

    /// Timecode; zero asks the SDK for its default.
    pub fn timecode(&self) -> (r: i64)
        ensures
            r == self.spec_timecode(),
    {
        self.timecode
    }

    /// Timestamp; zero asks the SDK for its default.
    pub fn timestamp(&self) -> (r: i64)
        ensures
            r == self.spec_timestamp(),
    {
        self.timestamp
    }

    /// The stride/size field of the layout.
    pub fn line_stride_or_size(&self) -> (r: LineStrideOrSize)
        ensures
            r == self.spec_layout().line_stride_or_size,
    {
        self.layout.line_stride_or_size
    }

    /// The layout of the pixel data.
    pub fn validated_layout(&self) -> (r: ValidatedVideoLayout)
        ensures
            r == self.spec_layout(),
            self.spec_data().len() == r.data_len_bytes,
            video_layout_valid(r),
    {
        proof {
            use_type_invariant(self);
        }
        self.layout
    }

    /// The pixel data.
    pub fn data(&self) -> (r: &[u8])
        ensures
            r@ == self.spec_data(),
    {
        self.data.as_slice()
    }

    /// The pixel data, to change in place; its length cannot change.
    pub fn data_mut(&mut self) -> (r: &mut [u8])
        ensures
            r@ == old(self).spec_data(),
            final(self).spec_data() == final(r)@,
            final(self).spec_layout() == old(self).spec_layout(),
            final(self).spec_metadata() == old(self).spec_metadata(),
            final(self).spec_timecode() == old(self).spec_timecode(),
    {
        proof {
            use_type_invariant(&*self);
        }
        crate::text::vec_as_mut_slice(&mut self.data)
    }

    /// Replaces the pixel data, keeping the layout; the new buffer must have exactly
    /// the layout's size, else the frame is left unchanged.
    pub fn replace_data(&mut self, data: Vec<u8>) -> (r: Result<(), Error>)
        ensures
            r is Ok <==> data@.len() == old(self).spec_layout().data_len_bytes,
            r is Ok ==> final(self).spec_data() == data@,
            r is Err ==> final(self).spec_data() == old(self).spec_data(),
            r matches Err(e) ==> e is InvalidFrame,
            final(self).spec_layout() == old(self).spec_layout(),
            final(self).spec_metadata() == old(self).spec_metadata(),
            final(self).spec_timecode() == old(self).spec_timecode(),
    {
        proof {
            use_type_invariant(&*self);
        }
        if data.len() != self.layout.data_len_bytes {
            return Err(
                frame_error2(
                    "Video data length ",
                    data.len() as i128,
                    ", expected ",
                    self.layout.data_len_bytes as i128,
                    " bytes for validated layout",
                ),
            );
        }
        self.data = data;
        Ok(())
    }

    /// The metadata text, if any.
    pub fn metadata(&self) -> (r: Option<&str>)
        ensures
            r is Some <==> self.spec_metadata() is Some,
            r matches Some(s) ==> self.spec_metadata() == Some(encode_utf8(s@)),
    {
        match &self.metadata {
            Some(m) => Some(m.as_str()),
            None => None,
        }
    }

    /// The metadata as the C string the SDK reads (text plus terminator).
    pub fn metadata_c_bytes(&self) -> (r: Option<&[u8]>)
        ensures
            r is Some <==> self.spec_metadata() is Some,
            r matches Some(b) ==> b@ == self.spec_metadata().unwrap() + seq![0u8],
            r is Some ==> metadata_text_ok(self.spec_metadata().unwrap()),
    {
        match &self.metadata {
            Some(m) => Some(m.as_c_bytes()),
            None => None,
        }
    }

    /// Replaces the metadata; on error the frame is left unchanged.
    pub fn set_metadata(&mut self, metadata: Option<&str>) -> (r: Result<(), Error>)
        ensures
            r is Ok <==> (metadata matches Some(t) ==> metadata_text_ok(encode_utf8(t@))),
            r is Ok ==> final(self).spec_metadata() == (match metadata {
                Some(t) => Some(encode_utf8(t@)),
                None => None::<Seq<u8>>,
            }),
            r is Err ==> final(self).spec_metadata() == old(self).spec_metadata(),
            final(self).spec_data() == old(self).spec_data(),
            final(self).spec_layout() == old(self).spec_layout(),
    {
        proof {
            use_type_invariant(&*self);
        }
        let m = match metadata {
            Some(t) => Some(FrameMetadata::new(t)?),
            None => None,
        };
        self.metadata = m;
        Ok(())
    }

    /// Sets the frame rate; both parts must be positive, else the frame is left
    /// unchanged.
    pub fn set_frame_rate(&mut self, numerator: i32, denominator: i32) -> (r: Result<(), Error>)
        ensures
            r is Ok <==> numerator > 0 && denominator > 0,
            r is Ok ==> final(self).spec_frame_rate_n() == numerator && final(self).spec_frame_rate_d()
                == denominator,
            r is Err ==> final(self).spec_frame_rate_n() == old(self).spec_frame_rate_n()
                && final(self).spec_frame_rate_d() == old(self).spec_frame_rate_d(),
            r matches Err(e) ==> e is InvalidFrame,
            final(self).spec_aspect() == old(self).spec_aspect(),
            final(self).spec_data() == old(self).spec_data(),
            final(self).spec_layout() == old(self).spec_layout(),
    {
        proof {
            use_type_invariant(&*self);
        }
        validate_video_frame_metadata(numerator, denominator, self.picture_aspect_ratio)?;
        self.frame_rate_n = numerator;
        self.frame_rate_d = denominator;
        Ok(())
    }

    /// Sets the aspect ratio (as `f32` bits); it must be finite and positive, else
    /// the frame is left unchanged.
    pub fn set_picture_aspect_ratio(&mut self, ratio_bits: u32) -> (r: Result<(), Error>)
        ensures
            r is Ok <==> aspect_ratio_ok(ratio_bits),
            r is Ok ==> final(self).spec_aspect() == ratio_bits,
            r is Err ==> final(self).spec_aspect() == old(self).spec_aspect(),
            r matches Err(e) ==> e is InvalidFrame,
            final(self).spec_frame_rate_n() == old(self).spec_frame_rate_n(),
            final(self).spec_frame_rate_d() == old(self).spec_frame_rate_d(),
            final(self).spec_data() == old(self).spec_data(),
            final(self).spec_layout() == old(self).spec_layout(),
    {
        proof {
            use_type_invariant(&*self);
        }
        validate_video_frame_metadata(self.frame_rate_n, self.frame_rate_d, ratio_bits)?;
        self.picture_aspect_ratio = ratio_bits;
        Ok(())
    }

    /// The frame as the SDK reads it: every field carried over, the pixel data and
    /// the metadata C string borrowed from the frame. The SDK accepts it back as the
    /// same frame (see [`lemma_video_round_trip`]).
    pub fn to_raw(&self) -> (r: RawVideoFrame<'_>)
        ensures
            raw_mirrors_video(r, *self),
            video_frame_valid(*self),
    {
        proof {
            use_type_invariant(self);
            if let Some(m) = &self.metadata {
                vstd::utf8::encode_utf8_valid_utf8(m.spec_text());
            }
        }
        RawVideoFrame {
            xres: self.layout.width,
            yres: self.layout.height,
            fourcc: self.layout.pixel_format.fourcc(),
            frame_rate_n: self.frame_rate_n,
            frame_rate_d: self.frame_rate_d,
            picture_aspect_ratio_bits: self.picture_aspect_ratio,
            frame_format_type: self.scan_type.code(),
            timecode: self.timecode,
            p_data: Some(self.data.as_slice()),
            line_stride_or_size: self.layout.line_stride_or_size.raw_value(),
            p_metadata: self.metadata_c_bytes(),
            timestamp: self.timestamp,
        }
    }

    /// Validates and copies an SDK video frame.
    pub fn from_raw(raw: &RawVideoFrame) -> (r: Result<VideoFrame, Error>)
        requires
            raw_video_readable(*raw),
        ensures
            r is Ok <==> video_layout_ok(*raw) && frame_metadata_ok(raw.p_metadata),
            r matches Ok(f) ==> copied_from(f, *raw),
            r matches Err(e) ==> if video_layout_ok(*raw) && frame_metadata_shape_ok(raw.p_metadata) {
                e is InvalidUtf8
            } else {
                e is InvalidFrame
            },
    {
        let layout = validate_video_layout(raw)?;
        let metadata_layout = validate_frame_metadata(raw.p_metadata)?;
        VideoFrame::from_raw_validated(raw, layout, metadata_layout)
    }

    /// Copies a validated SDK video frame.
    pub fn from_raw_validated(
        raw: &RawVideoFrame,
        layout: ValidatedVideoLayout,
        metadata_layout: ValidatedFrameMetadata,
    ) -> (r: Result<VideoFrame, Error>)
        requires
            video_layout_ok(*raw),
            layout == video_layout_of(*raw),
            raw_video_readable(*raw),
            frame_metadata_matches(raw.p_metadata, metadata_layout),
        ensures
            r matches Ok(f) && copied_from(f, *raw),
    {
        proof {
            lemma_frame_metadata_matches_text(raw.p_metadata, metadata_layout);
        }
        let bytes = match raw.p_data {
            Some(d) => d,
            None => {
                proof {
                    assert(false);
                }
                return Err(invalid_frame("Video frame has null data pointer"));
            },
        };
        let data = crate::text::copy_bytes(vstd::slice::slice_subrange(bytes, 0, layout.data_len_bytes));
        let metadata = copy_frame_metadata(raw.p_metadata, metadata_layout);
        let scan_type = match ScanType::from_code(raw.frame_format_type) {
            Some(s) => s,
            None => {
                proof {
                    assert(false);
                }
                return Err(
            Error::InvalidFrame(crate::text::with_hex_u32("Unknown scan type: ", raw.frame_format_type)),
        );
            },
        };
        Ok(
            VideoFrame {
                layout,
                frame_rate_n: raw.frame_rate_n,
                frame_rate_d: raw.frame_rate_d,
                picture_aspect_ratio: raw.picture_aspect_ratio_bits,
                scan_type,
                timecode: raw.timecode,
                data,
                metadata,
                timestamp: raw.timestamp,
            },
        )
    }
}

/// What every owned frame satisfies: a valid layout, pixel data of the layout's
/// size, valid timing, and metadata text that may travel to the SDK.
pub open spec fn video_frame_valid(f: VideoFrame) -> bool {
    &&& video_layout_valid(f.spec_layout())
    &&& f.spec_data().len() == f.spec_layout().data_len_bytes
    &&& video_timing_ok(f.spec_frame_rate_n(), f.spec_frame_rate_d(), f.spec_aspect())
    &&& (f.spec_metadata() matches Some(m) ==> metadata_text_ok(m) && valid_utf8(m))
}

/// An SDK frame that carries an owned frame: its dimensions, FourCC, timing, scan
/// type code, timecode, timestamp and stride, its pixel data, and its metadata as
/// a C string (text plus terminator).
pub open spec fn raw_mirrors_video(raw: RawVideoFrame, f: VideoFrame) -> bool {
    &&& raw.xres == f.spec_layout().width
    &&& raw.yres == f.spec_layout().height
    &&& raw.fourcc == format_fourcc(f.spec_layout().pixel_format)
    &&& raw.frame_rate_n == f.spec_frame_rate_n()
    &&& raw.frame_rate_d == f.spec_frame_rate_d()
    &&& raw.picture_aspect_ratio_bits == f.spec_aspect()
    &&& raw.frame_format_type == scan_type_code(f.spec_scan_type())
    &&& raw.timecode == f.spec_timecode()
    &&& raw.timestamp == f.spec_timestamp()
    &&& raw.p_data matches Some(d) && d@ == f.spec_data()
    &&& raw.line_stride_or_size == (match f.spec_layout().line_stride_or_size {
        LineStrideOrSize::LineStrideBytes(s) => s,
        LineStrideOrSize::DataSizeBytes(s) => s,
    })
    &&& (raw.p_metadata is Some <==> f.spec_metadata() is Some)
    &&& (raw.p_metadata matches Some(m) ==> m@ == f.spec_metadata().unwrap() + seq![0u8])
}

/// Reading back the SDK form of an owned frame gives the same frame: the SDK form
/// is acceptable and readable, and a frame copied from it has the sent frame's
/// layout, pixels, timing, scan type, timecode, timestamp and metadata.
pub proof fn lemma_video_round_trip(f: VideoFrame, raw: RawVideoFrame, g: VideoFrame)
    requires
        video_frame_valid(f),
        raw_mirrors_video(raw, f),
    ensures
        video_layout_ok(raw),
        video_layout_of(raw) == f.spec_layout(),
        raw_video_readable(raw),
        frame_metadata_ok(raw.p_metadata),
        copied_from(g, raw) ==> {
            &&& g.spec_layout() == f.spec_layout()
            &&& g.spec_data() == f.spec_data()
            &&& g.spec_frame_rate_n() == f.spec_frame_rate_n()
            &&& g.spec_frame_rate_d() == f.spec_frame_rate_d()
            &&& g.spec_aspect() == f.spec_aspect()
            &&& g.spec_scan_type() == f.spec_scan_type()
            &&& g.spec_timecode() == f.spec_timecode()
            &&& g.spec_timestamp() == f.spec_timestamp()
            &&& g.spec_metadata() == f.spec_metadata()
        },
{
    let l = f.spec_layout();
    lemma_fourcc_injective(l.pixel_format, choose|p: PixelFormat| format_fourcc(p) == raw.fourcc);
    assert(pixel_format_of(raw.fourcc) == Some(l.pixel_format));
    assert(scan_type_of(raw.frame_format_type) == Some(f.spec_scan_type()));
    match f.spec_metadata() {
        Some(m) => lemma_c_string_is_frame_metadata(raw.p_metadata, m),
        None => {},
    }
    assert(video_layout_of(raw) == l);
    let d = raw.p_data.unwrap()@;
    assert(d.subrange(0, l.data_len_bytes as int) =~= d);
}

/// The SDK's promise about a video frame: the data of an acceptable frame is
/// readable for its computed size, and the metadata up to its terminator.
pub open spec fn raw_video_readable(raw: RawVideoFrame) -> bool {
    &&& (raw.p_data matches Some(d) ==> (video_layout_ok(raw) ==> d@.len()
        >= video_layout_of(raw).data_len_bytes))
    &&& frame_metadata_readable(raw.p_metadata)
}

/// An owned frame that copies an SDK frame: its layout, its data up to the
/// computed size, its timing, scan type, timecode, timestamp and metadata text.
pub open spec fn copied_from(f: VideoFrame, raw: RawVideoFrame) -> bool {
    &&& f.spec_layout() == video_layout_of(raw)
    &&& f.spec_data() == raw.p_data.unwrap()@.subrange(
        0,
        video_layout_of(raw).data_len_bytes as int,
    )
    &&& f.spec_frame_rate_n() == raw.frame_rate_n
    &&& f.spec_frame_rate_d() == raw.frame_rate_d
    &&& f.spec_aspect() == raw.picture_aspect_ratio_bits
    &&& Some(f.spec_scan_type()) == scan_type_of(raw.frame_format_type)
    &&& f.spec_timecode() == raw.timecode
    &&& f.spec_timestamp() == raw.timestamp
    &&& f.spec_metadata() == frame_metadata_text(raw.p_metadata)
}

/// Builder of outgoing video frames. Unset fields take their defaults when the
/// frame is built: 1920x1080 BGRA at 60/1, aspect 16:9, progressive, timecode and
/// timestamp zero, zeroed pixels, no metadata.
#[derive(Debug, Clone)]
pub struct VideoFrameBuilder {
    pub width: Option<i32>,
    pub height: Option<i32>,
    pub pixel_format: Option<PixelFormat>,
    pub frame_rate_n: Option<i32>,
    pub frame_rate_d: Option<i32>,
    pub picture_aspect_ratio: Option<u32>,
    pub scan_type: Option<ScanType>,
    pub timecode: Option<i64>,
    pub metadata: Option<String>,
    pub timestamp: Option<i64>,
}

impl VideoFrameBuilder {
    /// A builder with every field unset.
    pub open spec fn spec_new() -> VideoFrameBuilder {
        VideoFrameBuilder {
            width: None,
            height: None,
            pixel_format: None,
            frame_rate_n: None,
            frame_rate_d: None,
            picture_aspect_ratio: None,
            scan_type: None,
            timecode: None,
            metadata: None,
            timestamp: None,
        }
    }

    /// A builder with every field unset.
    pub fn new() -> (r: VideoFrameBuilder)
        ensures
            r == VideoFrameBuilder::spec_new(),
    {
        VideoFrameBuilder {
            width: None,
            height: None,
            pixel_format: None,
            frame_rate_n: None,
            frame_rate_d: None,
            picture_aspect_ratio: None,
            scan_type: None,
            timecode: None,
            metadata: None,
            timestamp: None,
        }
    }

    /// Sets width and height.
    pub fn resolution(self, width: i32, height: i32) -> (r: VideoFrameBuilder)
        ensures
            r == (VideoFrameBuilder { width: Some(width), height: Some(height), ..self }),
    {
        VideoFrameBuilder { width: Some(width), height: Some(height), ..self }
    }

    /// Sets the pixel format.
    pub fn pixel_format(self, pixel_format: PixelFormat) -> (r: VideoFrameBuilder)
        ensures
            r == (VideoFrameBuilder { pixel_format: Some(pixel_format), ..self }),
    {
        VideoFrameBuilder { pixel_format: Some(pixel_format), ..self }
    }

    /// Sets the frame rate as a fraction.
    pub fn frame_rate(self, numerator: i32, denominator: i32) -> (r: VideoFrameBuilder)
        ensures
            r == (VideoFrameBuilder {
                frame_rate_n: Some(numerator),
                frame_rate_d: Some(denominator),
                ..self
            }),
    {
        VideoFrameBuilder { frame_rate_n: Some(numerator), frame_rate_d: Some(denominator), ..self }
    }

    /// Sets the aspect ratio, as `f32` bits.
    pub fn aspect_ratio(self, ratio_bits: u32) -> (r: VideoFrameBuilder)
        ensures
            r == (VideoFrameBuilder { picture_aspect_ratio: Some(ratio_bits), ..self }),
    {
        VideoFrameBuilder { picture_aspect_ratio: Some(ratio_bits), ..self }
    }

    /// Sets the scan type.
    pub fn scan_type(self, scan_type: ScanType) -> (r: VideoFrameBuilder)
        ensures
            r == (VideoFrameBuilder { scan_type: Some(scan_type), ..self }),
    {
        VideoFrameBuilder { scan_type: Some(scan_type), ..self }
    }

    /// Sets the timecode.
    pub fn timecode(self, tc: i64) -> (r: VideoFrameBuilder)
        ensures
            r == (VideoFrameBuilder { timecode: Some(tc), ..self }),
    {
        VideoFrameBuilder { timecode: Some(tc), ..self }
    }

    /// Sets the metadata text.
    pub fn metadata(self, meta: &str) -> (r: VideoFrameBuilder)
        ensures
            r.metadata matches Some(m) && m@ == meta@,
            r.width == self.width && r.height == self.height && r.pixel_format == self.pixel_format
                && r.frame_rate_n == self.frame_rate_n && r.frame_rate_d == self.frame_rate_d
                && r.picture_aspect_ratio == self.picture_aspect_ratio && r.scan_type
                == self.scan_type && r.timecode == self.timecode && r.timestamp == self.timestamp,
    {
        VideoFrameBuilder { metadata: Some(meta.to_string()), ..self }
    }

    /// Sets the timestamp.
    pub fn timestamp(self, ts: i64) -> (r: VideoFrameBuilder)
        ensures
            r == (VideoFrameBuilder { timestamp: Some(ts), ..self }),
    {
        VideoFrameBuilder { timestamp: Some(ts), ..self }
    }

    /// Width the frame will have.
    pub open spec fn spec_width(self) -> i32 {
        or_default(self.width, 1920i32)
    }

    /// Height the frame will have.
    pub open spec fn spec_height(self) -> i32 {
        or_default(self.height, 1080i32)
    }

    /// Pixel format the frame will have.
    pub open spec fn spec_format(self) -> PixelFormat {
        or_default(self.pixel_format, PixelFormat::BGRA)
    }

    /// Frame rate numerator the frame will have.
    pub open spec fn spec_rate_n(self) -> i32 {
        or_default(self.frame_rate_n, 60i32)
    }

    /// Frame rate denominator the frame will have.
    pub open spec fn spec_rate_d(self) -> i32 {
        or_default(self.frame_rate_d, 1i32)
    }

    /// Aspect ratio bits the frame will have.
    pub open spec fn spec_aspect(self) -> u32 {
        or_default(self.picture_aspect_ratio, ASPECT_16_9_BITS)
    }

    /// When building succeeds.
    pub open spec fn spec_build_ok(self) -> bool {
        &&& video_timing_ok(self.spec_rate_n(), self.spec_rate_d(), self.spec_aspect())
        &&& uncompressed_layout_ok(self.spec_format(), self.spec_width(), self.spec_height(), None)
        &&& (self.metadata matches Some(m) ==> metadata_text_ok(encode_utf8(m@)))
    }

    /// Builds a frame with zeroed, tightly packed pixel data.
    pub fn build(self) -> (r: Result<VideoFrame, Error>)
        ensures
            r is Ok <==> self.spec_build_ok(),
            r matches Ok(f) ==> {
                let stride = uncompressed_stride(self.spec_format(), self.spec_width() as int, None);
                &&& f.spec_layout().width == self.spec_width()
                &&& f.spec_layout().height == self.spec_height()
                &&& f.spec_layout().pixel_format == self.spec_format()
                &&& f.spec_layout().data_len_bytes == buffer_len_formula(
                    format_category(self.spec_format()),
                    stride,
                    self.spec_height() as int,
                )
                &&& f.spec_layout().line_stride_or_size == LineStrideOrSize::LineStrideBytes(
                    stride as i32,
                )
                &&& f.spec_data() == Seq::new(f.spec_layout().data_len_bytes as nat, |i: int| 0u8)
                &&& f.spec_frame_rate_n() == self.spec_rate_n()
                &&& f.spec_frame_rate_d() == self.spec_rate_d()
                &&& f.spec_aspect() == self.spec_aspect()
                &&& f.spec_scan_type() == or_default(self.scan_type, ScanType::Progressive)
                &&& f.spec_timecode() == or_default(self.timecode, 0i64)
                &&& f.spec_timestamp() == or_default(self.timestamp, 0i64)
                &&& f.spec_metadata() == match self.metadata {
                    Some(m) => Some(encode_utf8(m@)),
                    None => None::<Seq<u8>>,
                }
            },
            r matches Err(e) ==> if video_timing_ok(
                self.spec_rate_n(),
                self.spec_rate_d(),
                self.spec_aspect(),
            ) && uncompressed_layout_ok(
                self.spec_format(),
                self.spec_width(),
                self.spec_height(),
                None,
            ) && self.metadata is Some && encode_utf8(self.metadata.unwrap()@).len() + 1
                <= MAX_METADATA_BYTES {
                e matches Error::InvalidCString(p) && first_nul(encode_utf8(self.metadata.unwrap()@))
                    == Some(p as int)
            } else {
                e is InvalidFrame
            },
    {
        let width = match self.width {
            Some(v) => v,
            None => 1920,
        };
        let height = match self.height {
            Some(v) => v,
            None => 1080,
        };
        let pixel_format = match self.pixel_format {
            Some(v) => v,
            None => PixelFormat::BGRA,
        };
        let frame_rate_n = match self.frame_rate_n {
            Some(v) => v,
            None => 60,
        };
        let frame_rate_d = match self.frame_rate_d {
            Some(v) => v,
            None => 1,
        };
        let picture_aspect_ratio = match self.picture_aspect_ratio {
            Some(v) => v,
            None => ASPECT_16_9_BITS,
        };
        let scan_type = match self.scan_type {
            Some(v) => v,
            None => ScanType::Progressive,
        };
        let timecode = match self.timecode {
            Some(v) => v,
            None => 0,
        };
        let timestamp = match self.timestamp {
            Some(v) => v,
            None => 0,
        };
        validate_video_frame_metadata(frame_rate_n, frame_rate_d, picture_aspect_ratio)?;
        let layout = ValidatedVideoLayout::new_uncompressed(pixel_format, width, height, None)?;
        proof {
            lemma_tight_stride_ok(pixel_format, width, height);
        }
        let data = zero_bytes(layout.data_len_bytes);
        let metadata = match self.metadata {
            Some(m) => Some(FrameMetadata::new(m.as_str())?),
            None => None,
        };
        Ok(
            VideoFrame {
                layout,
                frame_rate_n,
                frame_rate_d,
                picture_aspect_ratio,
                scan_type,
                timecode,
                data,
                metadata,
                timestamp,
            },
        )
    }
}

impl Default for VideoFrameBuilder {
    fn default() -> (r: VideoFrameBuilder)
        ensures
            r == VideoFrameBuilder::spec_new(),
    {
        VideoFrameBuilder::new()
    }
}

impl Default for VideoFrame {
    /// A zeroed 1920x1080 BGRA frame at 60/1, aspect 16:9, interlaced.
    fn default() -> (r: VideoFrame)
        ensures
            r.spec_layout().width == 1920 && r.spec_layout().height == 1080,
            r.spec_layout().pixel_format == PixelFormat::BGRA,
            r.spec_layout().data_len_bytes == 1920 * 4 * 1080,
            r.spec_frame_rate_n() == 60 && r.spec_frame_rate_d() == 1,
            r.spec_aspect() == ASPECT_16_9_BITS,
            r.spec_scan_type() == ScanType::Interlaced,
            r.spec_metadata() is None,
    {
        let b = VideoFrameBuilder::new().resolution(1920, 1080).pixel_format(PixelFormat::BGRA).frame_rate(
            60,
            1,
        ).aspect_ratio(ASPECT_16_9_BITS).scan_type(ScanType::Interlaced);
        match b.build() {
            Ok(f) => f,
            Err(_) => {
                proof {
                    assert(false);
                }
                VideoFrame {
                    layout: ValidatedVideoLayout {
                        width: 1920,
                        height: 1080,
                        pixel_format: PixelFormat::BGRA,
                        data_len_bytes: 8294400,
                        line_stride_or_size: LineStrideOrSize::LineStrideBytes(7680),
                    },
                    frame_rate_n: 60,
                    frame_rate_d: 1,
                    picture_aspect_ratio: ASPECT_16_9_BITS,
                    scan_type: ScanType::Interlaced,
                    timecode: 0,
                    data: zero_bytes(8294400),
                    metadata: None,
                    timestamp: 0,
                }
            },
        }
    }
}

/// A vector of `n` zero bytes.
pub fn zero_bytes(n: usize) -> (r: Vec<u8>)
    ensures
        r@ == Seq::new(n as nat, |i: int| 0u8),
{
    let mut out: Vec<u8> = Vec::new();
    let mut i: usize = 0;
    while i < n
        invariant
            i <= n,
            out@ == Seq::new(i as nat, |k: int| 0u8),
        decreases n - i,
    {
        out.push(0u8);
        i = i + 1;
        assert(out@ =~= Seq::new(i as nat, |k: int| 0u8));
    }
    out
}

/// A borrowed SDK video frame whose layout and metadata have been validated.
#[derive(Debug)]
pub struct VideoFrameRef<'a> {
    raw: RawVideoFrame<'a>,
    layout: ValidatedVideoLayout,
    metadata: ValidatedFrameMetadata,
}

impl<'a> VideoFrameRef<'a> {
    #[verifier::type_invariant]
    spec fn inv(self) -> bool {
        &&& video_layout_ok(self.raw)
        &&& self.layout == video_layout_of(self.raw)
        &&& raw_video_readable(self.raw)
        &&& frame_metadata_matches(self.raw.p_metadata, self.metadata)
    }

    /// The SDK frame this view wraps.
    pub closed spec fn spec_raw(self) -> RawVideoFrame<'a> {
        self.raw
    }

    /// Validates an SDK video frame and its metadata, and wraps it.
    pub fn new(raw: RawVideoFrame<'a>) -> (r: Result<VideoFrameRef<'a>, Error>)
        requires
            raw_video_readable(raw),
        ensures
            r is Ok <==> video_layout_ok(raw) && frame_metadata_ok(raw.p_metadata),
            r matches Ok(f) ==> f.spec_raw() == raw,
            r matches Err(e) ==> if video_layout_ok(raw) && frame_metadata_shape_ok(raw.p_metadata) {
                e is InvalidUtf8
            } else {
                e is InvalidFrame
            },
    {
        let layout = validate_video_layout(&raw)?;
        let metadata = validate_frame_metadata(raw.p_metadata)?;
        Ok(VideoFrameRef { raw, layout, metadata })
    }

    /// Width in pixels.
    pub fn width(&self) -> (r: i32)
        ensures
            r == self.spec_raw().xres,
    {
        proof {
            use_type_invariant(self);
        }
        self.layout.width
    }

    /// Height in pixels.
    pub fn height(&self) -> (r: i32)
        ensures
            r == self.spec_raw().yres,
    {
        proof {
            use_type_invariant(self);
        }
        self.layout.height
    }

    /// The validated pixel format.
    pub fn pixel_format(&self) -> (r: PixelFormat)
        ensures
            format_fourcc(r) == self.spec_raw().fourcc,
    {
        proof {
            use_type_invariant(self);
        }
        self.layout.pixel_format
    }

    /// Frame rate numerator.
    pub fn frame_rate_n(&self) -> (r: i32)
        ensures
            r == self.spec_raw().frame_rate_n,
    {
        self.raw.frame_rate_n
    }

    /// Frame rate denominator.
    pub fn frame_rate_d(&self) -> (r: i32)
        ensures
            r == self.spec_raw().frame_rate_d,
    {
        self.raw.frame_rate_d
    }

    /// Picture aspect ratio as `f32` bits.
    pub fn picture_aspect_ratio(&self) -> (r: u32)
        ensures
            r == self.spec_raw().picture_aspect_ratio_bits,
    {
        self.raw.picture_aspect_ratio_bits
    }

    /// The validated scan type.
    pub fn scan_type(&self) -> (r: ScanType)
        ensures
            Some(r) == scan_type_of(self.spec_raw().frame_format_type),
    {
        proof {
            use_type_invariant(self);
        }
        match ScanType::from_code(self.raw.frame_format_type) {
            Some(s) => s,
            None => {
                proof {
                    assert(false);
                }
                ScanType::Progressive
            },
        }
    }

    /// Timecode.
    pub fn timecode(&self) -> (r: i64)
        ensures
            r == self.spec_raw().timecode,
    {
        self.raw.timecode
    }

    /// Timestamp.
    pub fn timestamp(&self) -> (r: i64)
        ensures
            r == self.spec_raw().timestamp,
    {
        self.raw.timestamp
    }

    /// The validated stride field.
    pub fn line_stride_or_size(&self) -> (r: LineStrideOrSize)
        ensures
            r == LineStrideOrSize::LineStrideBytes(self.spec_raw().line_stride_or_size),
    {
        proof {
            use_type_invariant(self);
        }
        self.layout.line_stride_or_size
    }

    /// The metadata text, if the SDK attached some.
    pub fn metadata(&self) -> (r: Option<&'a str>)
        ensures
            r is Some <==> self.spec_raw().p_metadata is Some,
            r matches Some(s) ==> Some(s.spec_bytes()) == frame_metadata_text(self.spec_raw().p_metadata),
    {
        proof {
            use_type_invariant(self);
            lemma_frame_metadata_matches_text(self.raw.p_metadata, self.metadata);
        }
        frame_metadata_str(self.raw.p_metadata, self.metadata)
    }

    /// The pixel data, exactly the validated size.
    pub fn data(&self) -> (r: &'a [u8])
        ensures
            r@ == self.spec_raw().p_data.unwrap()@.subrange(
                0,
                video_layout_of(self.spec_raw()).data_len_bytes as int,
            ),
    {
        proof {
            use_type_invariant(self);
        }
        match self.raw.p_data {
            Some(d) => vstd::slice::slice_subrange(d, 0, self.layout.data_len_bytes),
            None => {
                proof {
                    assert(false);
                }
                let e: &[u8] = &[];
                e
            },
        }
    }

    /// The validated layout.
    pub fn validated_layout(&self) -> (r: ValidatedVideoLayout)
        ensures
            r == video_layout_of(self.spec_raw()),
    {
        proof {
            use_type_invariant(self);
        }
        self.layout
    }

    /// Copies the frame into an owned [`VideoFrame`].
    pub fn to_owned(&self) -> (r: Result<VideoFrame, Error>)
        ensures
            r matches Ok(f) && copied_from(f, self.spec_raw()),
    {
        proof {
            use_type_invariant(self);
        }
        VideoFrame::from_raw_validated(&self.raw, self.layout, self.metadata)
    }
}

} // verus!
