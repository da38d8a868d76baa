//! Sender configuration and its validation, connection-count replies, and
//! borrowed video frames for zero-copy sending.

use vstd::prelude::*;
use vstd::string::StringExecFns;

use crate::error::{invalid_configuration, invalid_frame, Error};
use crate::finder::c_string_of;
use crate::format::{
    buffer_len_formula, format_bytes_per_pixel, format_category, format_fourcc, width_ok,
    LineStrideOrSize, PixelFormat,
};
use crate::text::{c_string_bytes, c_string_ok, chars_of};
use crate::video::{scan_type_code, RawVideoFrame, ScanType, VideoFrame, ASPECT_16_9_BITS};

verus! {

/// Options of a sender: its name, its groups, and whether video and audio are
/// clocked.
#[derive(Debug)]
pub struct SenderOptions {
    pub name: String,
    pub groups: Option<String>,
    pub clock_video: bool,
    pub clock_audio: bool,
}

impl SenderOptions {
    /// A builder for a sender called `name`.
    pub fn builder(name: &str) -> (r: SenderOptionsBuilder)
        ensures
            r.name@ == name@,
            r.groups is None && r.clock_video is None && r.clock_audio is None,
    {
        SenderOptionsBuilder::new(name)
    }
}

/// Builder of [`SenderOptions`]; both clocks are on unless set otherwise.
#[derive(Debug)]
pub struct SenderOptionsBuilder {
    pub name: String,
    pub groups: Option<String>,
    pub clock_video: Option<bool>,
    pub clock_audio: Option<bool>,
}

impl SenderOptionsBuilder {
    /// A builder for a sender called `name`.
    pub fn new(name: &str) -> (r: SenderOptionsBuilder)
        ensures
            r.name@ == name@,
            r.groups is None && r.clock_video is None && r.clock_audio is None,
    {
        SenderOptionsBuilder { name: name.to_string(), groups: None, clock_video: None, clock_audio: None }
    }

    /// Sets the groups.
    pub fn groups(self, groups: &str) -> (r: SenderOptionsBuilder)
        ensures
            r.groups matches Some(g) && g@ == groups@,
            r.name == self.name && r.clock_video == self.clock_video && r.clock_audio
                == self.clock_audio,
    {
        SenderOptionsBuilder { groups: Some(groups.to_string()), ..self }
    }

    /// Sets whether video is clocked.
    pub fn clock_video(self, clock: bool) -> (r: SenderOptionsBuilder)
        ensures
            r == (SenderOptionsBuilder { clock_video: Some(clock), ..self }),
    {
        SenderOptionsBuilder { clock_video: Some(clock), ..self }
    }

    /// Sets whether audio is clocked.
    pub fn clock_audio(self, clock: bool) -> (r: SenderOptionsBuilder)
        ensures
            r == (SenderOptionsBuilder { clock_audio: Some(clock), ..self }),
    {
        SenderOptionsBuilder { clock_audio: Some(clock), ..self }
    }

    /// The options; clocks default to on. Nothing is validated here.
    pub fn build(self) -> (r: SenderOptions)
        ensures
            r.name == self.name,
            r.groups == self.groups,
            r.clock_video == match self.clock_video {
                Some(c) => c,
                None => true,
            },
            r.clock_audio == match self.clock_audio {
                Some(c) => c,
                None => true,
            },
    {
        let clock_video = match self.clock_video {
            Some(c) => c,
            None => true,
        };
        let clock_audio = match self.clock_audio {
            Some(c) => c,
            None => true,
        };
        SenderOptions { name: self.name, groups: self.groups, clock_video, clock_audio }
    }
}

/// Unicode `White_Space` characters, the ones `char::is_whitespace` accepts.
pub open spec fn is_unicode_whitespace(c: char) -> bool {
    ||| '\u{9}' <= c <= '\u{d}'
    ||| c == ' '
    ||| c == '\u{85}'
    ||| c == '\u{a0}'
    ||| c == '\u{1680}'
    ||| '\u{2000}' <= c <= '\u{200a}'
    ||| c == '\u{2028}'
    ||| c == '\u{2029}'
    ||| c == '\u{202f}'
    ||| c == '\u{205f}'
    ||| c == '\u{3000}'
}

/// Text that is empty once whitespace is trimmed.
pub open spec fn blank(s: Seq<char>) -> bool {
    forall|i: int| 0 <= i < s.len() ==> is_unicode_whitespace(s[i])
}

/// Whether a character is Unicode whitespace.
pub fn char_is_whitespace(c: char) -> (r: bool)
    ensures
        r == is_unicode_whitespace(c),
{
    ('\u{9}' <= c && c <= '\u{d}') || c == ' ' || c == '\u{85}' || c == '\u{a0}' || c == '\u{1680}'
        || ('\u{2000}' <= c && c <= '\u{200a}') || c == '\u{2028}' || c == '\u{2029}' || c
        == '\u{202f}' || c == '\u{205f}' || c == '\u{3000}'
}

/// Whether text is empty once whitespace is trimmed.
pub fn is_blank(s: &str) -> (r: bool)
    ensures
        r == blank(s@),
{
    let chars = chars_of(s);
    let n = chars.len();
    let mut i: usize = 0;
    while i < n
        invariant
            chars@ == s@,
            n == chars@.len(),
            i <= n,
            forall|j: int| 0 <= j < i ==> is_unicode_whitespace(chars@[j]),
        decreases n - i,
    {
        if !char_is_whitespace(chars[i]) {
            return false;
        }
        i = i + 1;
    }
    true
}

/// What the SDK reads to create a sender: the name and groups as C strings and
/// the clock flags.
#[derive(Debug)]
pub struct RawSendCreate {
    pub name: Vec<u8>,
    pub groups: Option<Vec<u8>>,
    pub clock_video: bool,
    pub clock_audio: bool,
}

/// When sender options are acceptable: a name that is not blank, at least one
/// clock, and name and groups without NUL bytes.
pub open spec fn sender_options_ok(o: SenderOptions) -> bool {
    &&& !blank(o.name@)
    &&& (o.clock_video || o.clock_audio)
    &&& c_string_ok(o.name@)
    &&& (o.groups matches Some(g) ==> c_string_ok(g@))
}

/// Checks sender options, in order: a name that is not blank, at least one
/// clock, then a name and groups that can become C strings; yields what the SDK
/// reads to create the sender.
pub fn validate_sender_options(o: &SenderOptions) -> (r: Result<RawSendCreate, Error>)
    ensures
        r is Ok <==> sender_options_ok(*o),
        r matches Ok(raw) ==> raw.name@ == c_string_of(o.name@) && raw.clock_video
            == o.clock_video && raw.clock_audio == o.clock_audio && match o.groups {
            Some(g) => raw.groups matches Some(b) && b@ == c_string_of(g@),
            None => raw.groups is None,
        },
        r matches Err(e) ==> if blank(o.name@) || !(o.clock_video || o.clock_audio) {
            e is InvalidConfiguration
        } else {
            e is InvalidCString
        },
{
    if is_blank(o.name.as_str()) {
        return Err(invalid_configuration("Sender name cannot be empty or contain only whitespace"));
    }
    if !o.clock_video && !o.clock_audio {
        return Err(invalid_configuration("At least one of clock_video or clock_audio must be true"));
    }
    let name = c_string_bytes(o.name.as_str())?;
    let groups = match &o.groups {
        Some(g) => Some(c_string_bytes(g.as_str())?),
        None => None,
    };
    Ok(RawSendCreate { name, groups, clock_video: o.clock_video, clock_audio: o.clock_audio })
}

/// The connection count the SDK reports; a negative value means it timed out.
pub fn connection_count_from_sdk(count: i32) -> (r: Result<u32, Error>)
    ensures
        r is Ok <==> count >= 0,
        r matches Ok(n) ==> n == count,
        r matches Err(e) ==> e is Timeout,
{
    if count < 0 {
        Err(Error::Timeout("Failed to obtain connection count".to_string()))
    } else {
        Ok(count as u32)
    }
}

/// A video frame over borrowed data, for zero-copy sending. Metadata, when
/// present, is a C string (text and terminator).
#[derive(Debug, Clone, Copy)]
pub struct BorrowedVideoFrame<'buf> {
    width: i32,
    height: i32,
    pixel_format: PixelFormat,
    frame_rate_n: i32,
    frame_rate_d: i32,
    picture_aspect_ratio: u32,
    scan_type: ScanType,
    timecode: i64,
    data: &'buf [u8],
    line_stride_or_size: LineStrideOrSize,
    metadata: Option<&'buf [u8]>,
    timestamp: i64,
}

/// Buffer bytes an uncompressed frame needs with a tight stride.
pub open spec fn tight_buffer_len(f: PixelFormat, width: int, height: int) -> int {
    buffer_len_formula(format_category(f), width * format_bytes_per_pixel(f), height)
}

/// When a borrowed frame's data covers what its stride or size field claims.
pub open spec fn borrowed_layout_ok(
    f: PixelFormat,
    height: int,
    line_stride_or_size: LineStrideOrSize,
    data_len: int,
) -> bool {
    match line_stride_or_size {
        LineStrideOrSize::LineStrideBytes(s) => s > 0 && height > 0 && buffer_len_formula(
            format_category(f),
            s as int,
            height,
        ) <= data_len,
        LineStrideOrSize::DataSizeBytes(n) => 0 <= n <= data_len,
    }
}

impl<'buf> BorrowedVideoFrame<'buf> {
    /// The frame's fields, as a tuple of plain values.
    pub closed spec fn spec_data(self) -> Seq<u8> {
        self.data@
    }

    /// Width in pixels.
    pub closed spec fn spec_width(self) -> i32 {
        self.width
    }

    /// Height in pixels.
    pub closed spec fn spec_height(self) -> i32 {
        self.height
    }

    /// Pixel format.
    pub closed spec fn spec_pixel_format(self) -> PixelFormat {
        self.pixel_format
    }

    /// Frame rate numerator.
    pub closed spec fn spec_frame_rate_n(self) -> i32 {
        self.frame_rate_n
    }

    /// Frame rate denominator.
    pub closed spec fn spec_frame_rate_d(self) -> i32 {
        self.frame_rate_d
    }

    /// Aspect ratio bits.
    pub closed spec fn spec_aspect(self) -> u32 {
        self.picture_aspect_ratio
    }

    /// Scan type.
    pub closed spec fn spec_scan_type(self) -> ScanType {
        self.scan_type
    }

    /// Timecode.
    pub closed spec fn spec_timecode(self) -> i64 {
        self.timecode
    }

    /// Stride or size field.
    pub closed spec fn spec_line_stride_or_size(self) -> LineStrideOrSize {
        self.line_stride_or_size
    }

    /// Metadata C string.
    pub closed spec fn spec_metadata(self) -> Option<Seq<u8>> {
        match self.metadata {
            Some(m) => Some(m@),
            None => None,
        }
    }

    /// Timestamp.
    pub closed spec fn spec_timestamp(self) -> i64 {
        self.timestamp
    }

    #[verifier::type_invariant]
    spec fn inv(self) -> bool {
        borrowed_layout_ok(
            self.pixel_format,
            self.height as int,
            self.line_stride_or_size,
            self.data@.len() as int,
        )
    }

    /// A frame over an uncompressed buffer with a tight stride; the buffer must
    /// hold at least the frame. Aspect 16:9, progressive, timecode and timestamp
    /// zero, no metadata.
    pub fn try_from_uncompressed(
        data: &'buf [u8],
        width: i32,
        height: i32,
        pixel_format: PixelFormat,
        frame_rate_n: i32,
        frame_rate_d: i32,
    ) -> (r: Result<BorrowedVideoFrame<'buf>, Error>)
        ensures
            r is Ok <==> {
                &&& width_ok(pixel_format, width as int)
                &&& width * format_bytes_per_pixel(pixel_format) <= i32::MAX
                &&& height > 0
                &&& crate::format::chroma_parity_ok(
                    format_category(pixel_format),
                    width * format_bytes_per_pixel(pixel_format),
                    height as int,
                )
                &&& tight_buffer_len(pixel_format, width as int, height as int)
                    <= crate::format::MAX_VIDEO_BYTES
                &&& tight_buffer_len(pixel_format, width as int, height as int) <= data@.len()
            },
            r matches Ok(f) ==> {
                &&& f.spec_data() == data@
                &&& f.spec_width() == width
                &&& f.spec_height() == height
                &&& f.spec_pixel_format() == pixel_format
                &&& f.spec_frame_rate_n() == frame_rate_n
                &&& f.spec_frame_rate_d() == frame_rate_d
                &&& f.spec_aspect() == ASPECT_16_9_BITS
                &&& f.spec_scan_type() == ScanType::Progressive
                &&& f.spec_timecode() == 0
                &&& f.spec_timestamp() == 0
                &&& f.spec_metadata() is None
                &&& f.spec_line_stride_or_size() == LineStrideOrSize::LineStrideBytes(
                    (width * format_bytes_per_pixel(pixel_format)) as i32,
                )
            },
            r matches Err(e) ==> e is InvalidFrame,
    {
        let stride = pixel_format.try_line_stride(width)?;
        proof {
            let bpp = format_bytes_per_pixel(pixel_format) as int;
            assert(stride > 0) by (nonlinear_arith)
                requires
                    stride == width * bpp,
                    width > 0,
                    bpp >= 1,
            ;
        }
        let expected_len = pixel_format.info().try_buffer_len(stride, height)?;
        if data.len() < expected_len {
            let mut message = String::from_str("Buffer too small for format ");
            message.append(pixel_format.name());
            return Err(Error::InvalidFrame(message));
        }
        Ok(
            BorrowedVideoFrame {
                width,
                height,
                pixel_format,
                frame_rate_n,
                frame_rate_d,
                picture_aspect_ratio: ASPECT_16_9_BITS,
                scan_type: ScanType::Progressive,
                timecode: 0,
                data,
                line_stride_or_size: LineStrideOrSize::LineStrideBytes(stride),
                metadata: None,
                timestamp: 0,
            },
        )
    }

    /// A frame over a compressed payload of `data_size_bytes` bytes, which the
    /// buffer must hold.
    pub fn try_from_compressed(
        data: &'buf [u8],
        data_size_bytes: i32,
        width: i32,
        height: i32,
        pixel_format: PixelFormat,
        frame_rate_n: i32,
        frame_rate_d: i32,
    ) -> (r: Result<BorrowedVideoFrame<'buf>, Error>)
        ensures
            r is Ok <==> 0 <= data_size_bytes <= data@.len(),
            r matches Ok(f) ==> {
                &&& f.spec_data() == data@
                &&& f.spec_width() == width
                &&& f.spec_height() == height
                &&& f.spec_pixel_format() == pixel_format
                &&& f.spec_frame_rate_n() == frame_rate_n
                &&& f.spec_frame_rate_d() == frame_rate_d
                &&& f.spec_aspect() == ASPECT_16_9_BITS
                &&& f.spec_scan_type() == ScanType::Progressive
                &&& f.spec_timecode() == 0
                &&& f.spec_timestamp() == 0
                &&& f.spec_metadata() is None
                &&& f.spec_line_stride_or_size() == LineStrideOrSize::DataSizeBytes(data_size_bytes)
            },
            r matches Err(e) ==> e is InvalidFrame,
    {
        if data_size_bytes < 0 || data.len() < data_size_bytes as usize {
            let mut message = String::from_str("Buffer too small for compressed format ");
            message.append(pixel_format.name());
            return Err(Error::InvalidFrame(message));
        }
        Ok(
            BorrowedVideoFrame {
                width,
                height,
                pixel_format,
                frame_rate_n,
                frame_rate_d,
                picture_aspect_ratio: ASPECT_16_9_BITS,
                scan_type: ScanType::Progressive,
                timecode: 0,
                data,
                line_stride_or_size: LineStrideOrSize::DataSizeBytes(data_size_bytes),
                metadata: None,
                timestamp: 0,
            },
        )
    }

    /// A frame from all of its parts. The data must cover what the stride or size
    /// field claims; nothing else is checked.
    pub fn from_parts_unchecked(
        data: &'buf [u8],
        width: i32,
        height: i32,
        pixel_format: PixelFormat,
        frame_rate_n: i32,
        frame_rate_d: i32,
        picture_aspect_ratio: u32,
        scan_type: ScanType,
        timecode: i64,
        line_stride_or_size: LineStrideOrSize,
        metadata: Option<&'buf [u8]>,
        timestamp: i64,
    ) -> (r: BorrowedVideoFrame<'buf>)
        requires
            borrowed_layout_ok(pixel_format, height as int, line_stride_or_size, data@.len() as int),
        ensures
            r.spec_data() == data@ && r.spec_width() == width && r.spec_height() == height
                && r.spec_pixel_format() == pixel_format && r.spec_frame_rate_n() == frame_rate_n
                && r.spec_frame_rate_d() == frame_rate_d && r.spec_aspect() == picture_aspect_ratio
                && r.spec_scan_type() == scan_type && r.spec_timecode() == timecode
                && r.spec_line_stride_or_size() == line_stride_or_size && r.spec_timestamp()
                == timestamp && r.spec_metadata() == match metadata {
                Some(m) => Some(m@),
                None => None::<Seq<u8>>,
            },
    {
        BorrowedVideoFrame {
            width,
            height,
            pixel_format,
            frame_rate_n,
            frame_rate_d,
            picture_aspect_ratio,
            scan_type,
            timecode,
            data,
            line_stride_or_size,
            metadata,
            timestamp,
        }
    }

    /// A borrowed view of an owned frame: the same fields, data and metadata.
    pub fn from_video_frame(frame: &'buf VideoFrame) -> (r: BorrowedVideoFrame<'buf>)
        ensures
            r.spec_data() == frame.spec_data(),
            r.spec_width() == frame.spec_layout().width,
            r.spec_height() == frame.spec_layout().height,
            r.spec_pixel_format() == frame.spec_layout().pixel_format,
            r.spec_frame_rate_n() == frame.spec_frame_rate_n(),
            r.spec_frame_rate_d() == frame.spec_frame_rate_d(),
            r.spec_aspect() == frame.spec_aspect(),
            r.spec_scan_type() == frame.spec_scan_type(),
            r.spec_timecode() == frame.spec_timecode(),
            r.spec_line_stride_or_size() == frame.spec_layout().line_stride_or_size,
            r.spec_timestamp() == frame.spec_timestamp(),
            r.spec_metadata() == match frame.spec_metadata() {
                Some(m) => Some(m + seq![0u8]),
                None => None::<Seq<u8>>,
            },
    {
        let layout = frame.validated_layout();
        BorrowedVideoFrame {
            width: layout.width,
            height: layout.height,
            pixel_format: layout.pixel_format,
            frame_rate_n: frame.frame_rate_n(),
            frame_rate_d: frame.frame_rate_d(),
            picture_aspect_ratio: frame.picture_aspect_ratio(),
            scan_type: frame.scan_type(),
            timecode: frame.timecode(),
            data: frame.data(),
            line_stride_or_size: layout.line_stride_or_size,
            metadata: frame.metadata_c_bytes(),
            timestamp: frame.timestamp(),
        }
    }

    /// Width in pixels.
    pub fn width(&self) -> (r: i32)
        ensures
            r == self.spec_width(),
    {
        self.width
    }

    /// Height in pixels.
    pub fn height(&self) -> (r: i32)
        ensures
            r == self.spec_height(),
    {
        self.height
    }

    /// Pixel format.
    pub fn pixel_format(&self) -> (r: PixelFormat)
        ensures
            r == self.spec_pixel_format(),
    {
        self.pixel_format
    }

    /// Frame rate numerator.
    pub fn frame_rate_n(&self) -> (r: i32)
        ensures
            r == self.spec_frame_rate_n(),
    {
        self.frame_rate_n
    }

    /// Frame rate denominator.
    pub fn frame_rate_d(&self) -> (r: i32)
        ensures
            r == self.spec_frame_rate_d(),
    {
        self.frame_rate_d
    }

    /// Aspect ratio as `f32` bits.
    pub fn picture_aspect_ratio(&self) -> (r: u32)
        ensures
            r == self.spec_aspect(),
    {
        self.picture_aspect_ratio
    }

    /// Scan type.
    pub fn scan_type(&self) -> (r: ScanType)
        ensures
            r == self.spec_scan_type(),
    {
        self.scan_type
    }

    /// Timecode.
    pub fn timecode(&self) -> (r: i64)
        ensures
            r == self.spec_timecode(),
    {
        self.timecode
    }

    /// The borrowed data.
    pub fn data(&self) -> (r: &'buf [u8])
        ensures
            r@ == self.spec_data(),
    {
        self.data
    }

    /// Stride or size field.
    pub fn line_stride_or_size(&self) -> (r: LineStrideOrSize)
        ensures
            r == self.spec_line_stride_or_size(),
    {
        self.line_stride_or_size
    }

    /// Metadata C string, if any.
    pub fn metadata(&self) -> (r: Option<&'buf [u8]>)
        ensures
            r is Some <==> self.spec_metadata() is Some,
            r matches Some(m) ==> self.spec_metadata() == Some(m@),
    {
        self.metadata
    }

    /// Timestamp.
    pub fn timestamp(&self) -> (r: i64)
        ensures
            r == self.spec_timestamp(),
    {
        self.timestamp
    }

    /// The frame as the SDK reads it: every field carried over, the borrowed pixel
    /// data and metadata C string passed through.
    pub fn to_raw(&self) -> (r: RawVideoFrame<'buf>)
        ensures
            r.xres == self.spec_width(),
            r.yres == self.spec_height(),
            r.fourcc == format_fourcc(self.spec_pixel_format()),
            r.frame_rate_n == self.spec_frame_rate_n(),
            r.frame_rate_d == self.spec_frame_rate_d(),
            r.picture_aspect_ratio_bits == self.spec_aspect(),
            r.frame_format_type == scan_type_code(self.spec_scan_type()),
            r.timecode == self.spec_timecode(),
            r.p_data matches Some(d) && d@ == self.spec_data(),
            r.line_stride_or_size == (match self.spec_line_stride_or_size() {
                LineStrideOrSize::LineStrideBytes(s) => s,
                LineStrideOrSize::DataSizeBytes(s) => s,
            }),
            r.p_metadata is Some <==> self.spec_metadata() is Some,
            r.p_metadata matches Some(m) ==> self.spec_metadata() == Some(m@),
            r.timestamp == self.spec_timestamp(),
    {
        RawVideoFrame {
            xres: self.width,
            yres: self.height,
            fourcc: self.pixel_format.fourcc(),
            frame_rate_n: self.frame_rate_n,
            frame_rate_d: self.frame_rate_d,
            picture_aspect_ratio_bits: self.picture_aspect_ratio,
            frame_format_type: self.scan_type.code(),
            timecode: self.timecode,
            p_data: Some(self.data),
            line_stride_or_size: self.line_stride_or_size.raw_value(),
            p_metadata: self.metadata,
            timestamp: self.timestamp,
        }
    }
}

} // verus!
