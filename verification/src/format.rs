//! Pixel formats and the arithmetic of uncompressed video buffers.

use vstd::prelude::*;
use vstd::string::StringExecFns;

use crate::error::{frame_error, frame_error2, frame_error_in, invalid_frame, Error};
use crate::text::{append_int, with_int};
use crate::sdk::{
    NDIlib_FourCC_video_type_BGRA,
    NDIlib_FourCC_video_type_BGRX,
    NDIlib_FourCC_video_type_I420,
    NDIlib_FourCC_video_type_NV12,
    NDIlib_FourCC_video_type_P216,
    NDIlib_FourCC_video_type_PA16,
    NDIlib_FourCC_video_type_RGBA,
    NDIlib_FourCC_video_type_RGBX,
    NDIlib_FourCC_video_type_UYVA,
    NDIlib_FourCC_video_type_UYVY,
    NDIlib_FourCC_video_type_YV12,
};

verus! {

/// Largest video buffer the library accepts (100 MiB).
pub const MAX_VIDEO_BYTES: usize = 100 * 1024 * 1024;

/// Video pixel formats (FourCC codes) supported by NDI.
#[derive(Debug, Clone, Copy, PartialEq, Eq, Structural)]
#[non_exhaustive]
pub enum PixelFormat {
    /// YCbCr 4:2:2, 16 bits per pixel.
    UYVY,
    /// YCbCr 4:2:2 with alpha.
    UYVA,
    /// 16-bit YCbCr 4:2:2.
    P216,
    /// 16-bit YCbCr 4:2:2 with alpha.
    PA16,
    /// Planar YCbCr 4:2:0.
    YV12,
    /// Planar YCbCr 4:2:0.
    I420,
    /// Semi-planar YCbCr 4:2:0.
    NV12,
    /// Blue-green-red-alpha, 32 bits per pixel.
    BGRA,
    /// Blue-green-red with padding, 32 bits per pixel.
    BGRX,
    /// Red-green-blue-alpha, 32 bits per pixel.
    RGBA,
    /// Red-green-blue with padding, 32 bits per pixel.
    RGBX,
}

/// Memory layout family of a pixel format.
#[derive(Debug, Clone, Copy, PartialEq, Eq, Structural)]
pub enum FormatCategory {
    /// All components interleaved: `stride * height` bytes.
    Packed,
    /// Y plane followed by separate half-size U and V planes (YV12, I420).
    Planar420,
    /// Y plane followed by one interleaved half-height UV plane (NV12).
    SemiPlanar420,
}

/// Bytes per pixel of a format (Y-plane bytes for the 4:2:0 formats).
pub open spec fn format_bytes_per_pixel(f: PixelFormat) -> u8 {
    match f {
        PixelFormat::BGRA | PixelFormat::BGRX | PixelFormat::RGBA | PixelFormat::RGBX => 4,
        PixelFormat::UYVY => 2,
        PixelFormat::UYVA => 3,
        PixelFormat::P216 | PixelFormat::PA16 => 4,
        PixelFormat::YV12 | PixelFormat::I420 | PixelFormat::NV12 => 1,
    }
}

/// Layout family of a format.
pub open spec fn format_category(f: PixelFormat) -> FormatCategory {
    match f {
        PixelFormat::YV12 | PixelFormat::I420 => FormatCategory::Planar420,
        PixelFormat::NV12 => FormatCategory::SemiPlanar420,
        _ => FormatCategory::Packed,
    }
}

/// True for the formats that subsample chroma 4:2:0.
pub open spec fn category_is_420(c: FormatCategory) -> bool {
    c !is Packed
}

/// The SDK FourCC code of a format.
pub open spec fn format_fourcc(f: PixelFormat) -> u32 {
    match f {
        PixelFormat::UYVY => NDIlib_FourCC_video_type_UYVY,
        PixelFormat::UYVA => NDIlib_FourCC_video_type_UYVA,
        PixelFormat::P216 => NDIlib_FourCC_video_type_P216,
        PixelFormat::PA16 => NDIlib_FourCC_video_type_PA16,
        PixelFormat::YV12 => NDIlib_FourCC_video_type_YV12,
        PixelFormat::I420 => NDIlib_FourCC_video_type_I420,
        PixelFormat::NV12 => NDIlib_FourCC_video_type_NV12,
        PixelFormat::BGRA => NDIlib_FourCC_video_type_BGRA,
        PixelFormat::BGRX => NDIlib_FourCC_video_type_BGRX,
        PixelFormat::RGBA => NDIlib_FourCC_video_type_RGBA,
        PixelFormat::RGBX => NDIlib_FourCC_video_type_RGBX,
    }
}

/// Stride and height requirements of the chroma planes.
pub open spec fn chroma_parity_ok(c: FormatCategory, y_stride: int, height: int) -> bool {
    match c {
        FormatCategory::Packed => true,
        FormatCategory::Planar420 => height % 2 == 0 && y_stride % 2 == 0,
        FormatCategory::SemiPlanar420 => height % 2 == 0,
    }
}

/// Total buffer size: the Y plane plus the chroma planes of the category.
pub open spec fn buffer_len_formula(c: FormatCategory, y_stride: int, height: int) -> int {
    match c {
        FormatCategory::Packed => y_stride * height,
        FormatCategory::Planar420 => y_stride * height + 2 * ((y_stride / 2) * (height / 2)),
        FormatCategory::SemiPlanar420 => y_stride * height + y_stride * (height / 2),
    }
}

/// Per-format properties: bytes per pixel and layout family.
#[derive(Debug, Clone, Copy, PartialEq, Eq, Structural)]
pub struct PixelFormatInfo {
    bytes_per_pixel: u8,
    category: FormatCategory,
}

impl PixelFormatInfo {
    /// The bytes per pixel held by this value.
    pub closed spec fn spec_bytes_per_pixel(self) -> u8 {
        self.bytes_per_pixel
    }

    /// The category held by this value.
    pub closed spec fn spec_category(self) -> FormatCategory {
        self.category
    }

    /// Bytes per pixel for packed formats, or Y-plane bytes per pixel for planar formats.
    pub fn bytes_per_pixel(&self) -> (r: u8)
        ensures
            r == self.spec_bytes_per_pixel(),
    {
        self.bytes_per_pixel
    }

    /// The format category.
    pub fn category(&self) -> (r: FormatCategory)
        ensures
            r == self.spec_category(),
    {
        self.category
    }

    /// True for YV12, I420 and NV12.
    pub fn is_planar_420(&self) -> (r: bool)
        ensures
            r == category_is_420(self.spec_category()),
    {
        match self.category {
            FormatCategory::Planar420 | FormatCategory::SemiPlanar420 => true,
            FormatCategory::Packed => false,
        }
    }

    /// Total buffer size for a Y-plane stride and a height, with every check of the
    /// library: both positive, the chroma parity of the category, and a size within
    /// [`MAX_VIDEO_BYTES`].
    pub fn try_buffer_len(&self, y_stride: i32, height: i32) -> (r: Result<usize, Error>)
        ensures
            r is Ok <==> (y_stride > 0 && height > 0 && chroma_parity_ok(
                self.spec_category(),
                y_stride as int,
                height as int,
            ) && buffer_len_formula(self.spec_category(), y_stride as int, height as int)
                <= MAX_VIDEO_BYTES),
            r matches Ok(n) ==> n == buffer_len_formula(
                self.spec_category(),
                y_stride as int,
                height as int,
            ),
            r matches Err(e) ==> e is InvalidFrame,
    {
        if y_stride <= 0 {
            return Err(frame_error("Video line stride must be positive, got ", y_stride as i128));
        }
        if height <= 0 {
            return Err(frame_error("Video frame height must be positive, got ", height as i128));
        }
        proof {
            lemma_formula_positive(self.spec_category(), y_stride as int, height as int);
        }
        let len = calculate_buffer_len_for_info_checked(*self, y_stride as usize, height as usize)?;
        validate_video_data_len(len)?;
        Ok(len)
    }
}

/// The buffer formula is at least the Y plane and positive for positive inputs.
pub proof fn lemma_formula_positive(c: FormatCategory, y_stride: int, height: int)
    requires
        y_stride > 0,
        height > 0,
    ensures
        buffer_len_formula(c, y_stride, height) >= y_stride * height > 0,
{
    assert(y_stride * height > 0) by (nonlinear_arith)
        requires
            y_stride > 0,
            height > 0,
    ;
    assert((y_stride / 2) * (height / 2) >= 0) by (nonlinear_arith)
        requires
            y_stride > 0,
            height > 0,
    ;
    assert(y_stride * (height / 2) >= 0) by (nonlinear_arith)
        requires
            y_stride > 0,
            height > 0,
    ;
}

/// The name of a pixel format, as its variant is spelled.
pub open spec fn format_name(f: PixelFormat) -> Seq<char> {
    match f {
        PixelFormat::UYVY => "UYVY"@,
        PixelFormat::UYVA => "UYVA"@,
        PixelFormat::P216 => "P216"@,
        PixelFormat::PA16 => "PA16"@,
        PixelFormat::YV12 => "YV12"@,
        PixelFormat::I420 => "I420"@,
        PixelFormat::NV12 => "NV12"@,
        PixelFormat::BGRA => "BGRA"@,
        PixelFormat::BGRX => "BGRX"@,
        PixelFormat::RGBA => "RGBA"@,
        PixelFormat::RGBX => "RGBX"@,
    }
}

impl PixelFormat {
    /// The name of the format, as its variant is spelled.
    pub fn name(self) -> (r: &'static str)
        ensures
            r@ == format_name(self),
    {
        match self {
            PixelFormat::UYVY => "UYVY",
            PixelFormat::UYVA => "UYVA",
            PixelFormat::P216 => "P216",
            PixelFormat::PA16 => "PA16",
            PixelFormat::YV12 => "YV12",
            PixelFormat::I420 => "I420",
            PixelFormat::NV12 => "NV12",
            PixelFormat::BGRA => "BGRA",
            PixelFormat::BGRX => "BGRX",
            PixelFormat::RGBA => "RGBA",
            PixelFormat::RGBX => "RGBX",
        }
    }

    /// The per-format properties.
    pub fn info(self) -> (r: PixelFormatInfo)
        ensures
            r.spec_bytes_per_pixel() == format_bytes_per_pixel(self),
            r.spec_category() == format_category(self),
    {
        match self {
            PixelFormat::BGRA | PixelFormat::BGRX | PixelFormat::RGBA | PixelFormat::RGBX => {
                PixelFormatInfo { bytes_per_pixel: 4, category: FormatCategory::Packed }
            },
            PixelFormat::UYVY => PixelFormatInfo {
                bytes_per_pixel: 2,
                category: FormatCategory::Packed,
            },
            PixelFormat::UYVA => PixelFormatInfo {
                bytes_per_pixel: 3,
                category: FormatCategory::Packed,
            },
            PixelFormat::P216 | PixelFormat::PA16 => PixelFormatInfo {
                bytes_per_pixel: 4,
                category: FormatCategory::Packed,
            },
            PixelFormat::YV12 | PixelFormat::I420 => PixelFormatInfo {
                bytes_per_pixel: 1,
                category: FormatCategory::Planar420,
            },
            PixelFormat::NV12 => PixelFormatInfo {
                bytes_per_pixel: 1,
                category: FormatCategory::SemiPlanar420,
            },
        }
    }

    /// The SDK FourCC code of this format.
    pub fn fourcc(self) -> (r: u32)
        ensures
            r == format_fourcc(self),
    {
        match self {
            PixelFormat::UYVY => NDIlib_FourCC_video_type_UYVY,
            PixelFormat::UYVA => NDIlib_FourCC_video_type_UYVA,
            PixelFormat::P216 => NDIlib_FourCC_video_type_P216,
            PixelFormat::PA16 => NDIlib_FourCC_video_type_PA16,
            PixelFormat::YV12 => NDIlib_FourCC_video_type_YV12,
            PixelFormat::I420 => NDIlib_FourCC_video_type_I420,
            PixelFormat::NV12 => NDIlib_FourCC_video_type_NV12,
            PixelFormat::BGRA => NDIlib_FourCC_video_type_BGRA,
            PixelFormat::BGRX => NDIlib_FourCC_video_type_BGRX,
            PixelFormat::RGBA => NDIlib_FourCC_video_type_RGBA,
            PixelFormat::RGBX => NDIlib_FourCC_video_type_RGBX,
        }
    }

    /// The format whose FourCC code is `code`, if there is one.
    pub fn from_fourcc(code: u32) -> (r: Option<PixelFormat>)
        ensures
            r matches Some(f) ==> format_fourcc(f) == code,
            r is None ==> forall|f: PixelFormat| format_fourcc(f) != code,
    {
        if code == NDIlib_FourCC_video_type_UYVY {
            Some(PixelFormat::UYVY)
        } else if code == NDIlib_FourCC_video_type_UYVA {
            Some(PixelFormat::UYVA)
        } else if code == NDIlib_FourCC_video_type_P216 {
            Some(PixelFormat::P216)
        } else if code == NDIlib_FourCC_video_type_PA16 {
            Some(PixelFormat::PA16)
        } else if code == NDIlib_FourCC_video_type_YV12 {
            Some(PixelFormat::YV12)
        } else if code == NDIlib_FourCC_video_type_I420 {
            Some(PixelFormat::I420)
        } else if code == NDIlib_FourCC_video_type_NV12 {
            Some(PixelFormat::NV12)
        } else if code == NDIlib_FourCC_video_type_BGRA {
            Some(PixelFormat::BGRA)
        } else if code == NDIlib_FourCC_video_type_BGRX {
            Some(PixelFormat::BGRX)
        } else if code == NDIlib_FourCC_video_type_RGBA {
            Some(PixelFormat::RGBA)
        } else if code == NDIlib_FourCC_video_type_RGBX {
            Some(PixelFormat::RGBX)
        } else {
            None
        }
    }

    /// Minimum line stride for `width` pixels (Y-plane stride for planar formats).
    pub fn try_line_stride(self, width: i32) -> (r: Result<i32, Error>)
        ensures
            r is Ok <==> (width_ok(self, width as int) && width * format_bytes_per_pixel(self)
                <= i32::MAX),
            r matches Ok(s) ==> s == width * format_bytes_per_pixel(self),
            r matches Err(e) ==> e is InvalidFrame,
    {
        validate_video_width_for_format(self, width)?;
        let stride = min_video_line_stride_checked(self, width as usize)?;
        if stride > i32::MAX as usize {
            return Err(frame_error_in("Video line stride ", stride as i128, " exceeds i32 range"));
        }
        Ok(stride as i32)
    }

    /// Total buffer size of a tightly packed frame of the given dimensions.
    pub fn try_buffer_size(self, width: i32, height: i32) -> (r: Result<usize, Error>)
        ensures
            r is Ok <==> uncompressed_layout_ok(self, width, height, None),
            r matches Ok(n) ==> n == buffer_len_formula(
                format_category(self),
                uncompressed_stride(self, width as int, None),
                height as int,
            ),
            r matches Err(e) ==> e is InvalidFrame,
    {
        let layout = ValidatedVideoLayout::new_uncompressed(self, width, height, None)?;
        Ok(layout.data_len_bytes)
    }
}

/// Width requirements of a format: positive, and even for 4:2:0 formats.
pub open spec fn width_ok(f: PixelFormat, width: int) -> bool {
    width > 0 && (category_is_420(format_category(f)) ==> width % 2 == 0)
}

/// Dimension requirements of a format: a valid width, a positive height, and even
/// dimensions for 4:2:0 formats.
pub open spec fn dimensions_ok(f: PixelFormat, width: int, height: int) -> bool {
    width_ok(f, width) && height > 0 && (category_is_420(format_category(f)) ==> height % 2 == 0)
}

/// Line stride of an uncompressed frame: the given one, or the tight one.
pub open spec fn uncompressed_stride(f: PixelFormat, width: int, line_stride: Option<i32>) -> int {
    match line_stride {
        Some(s) => s as int,
        None => width * format_bytes_per_pixel(f),
    }
}

/// When an uncompressed frame description is accepted.
pub open spec fn uncompressed_layout_ok(
    f: PixelFormat,
    width: i32,
    height: i32,
    line_stride: Option<i32>,
) -> bool {
    let min_stride = width * format_bytes_per_pixel(f);
    let stride = uncompressed_stride(f, width as int, line_stride);
    &&& dimensions_ok(f, width as int, height as int)
    &&& min_stride <= usize::MAX
    &&& (line_stride matches Some(s) ==> s > 0 && s >= min_stride)
    &&& (category_is_420(format_category(f)) ==> stride % 2 == 0)
    &&& buffer_len_formula(format_category(f), stride, height as int) <= MAX_VIDEO_BYTES
    &&& stride <= i32::MAX
}

/// Line stride of a frame, or the byte size of an opaque (compressed) frame.
#[derive(Debug, Clone, Copy, PartialEq, Eq, Structural)]
pub enum LineStrideOrSize {
    /// Bytes per row of an uncompressed frame.
    LineStrideBytes(i32),
    /// Total byte size of a compressed or opaque frame.
    DataSizeBytes(i32),
}

impl LineStrideOrSize {
    /// The value of the SDK's stride/size field: one 32-bit word either way.
    pub fn raw_value(self) -> (r: i32)
        ensures
            r == match self {
                LineStrideOrSize::LineStrideBytes(s) => s,
                LineStrideOrSize::DataSizeBytes(s) => s,
            },
    {
        match self {
            LineStrideOrSize::LineStrideBytes(s) => s,
            LineStrideOrSize::DataSizeBytes(s) => s,
        }
    }
}

/// A video layout that passed validation.
#[derive(Debug, Clone, Copy)]
pub struct ValidatedVideoLayout {
    /// Width in pixels.
    pub width: i32,
    /// Height in pixels.
    pub height: i32,
    /// Pixel format.
    pub pixel_format: PixelFormat,
    /// Buffer length in bytes.
    pub data_len_bytes: usize,
    /// The stride (uncompressed) or size field.
    pub line_stride_or_size: LineStrideOrSize,
}

impl ValidatedVideoLayout {
    /// Validates an uncompressed frame description and computes its buffer size.
    pub fn new_uncompressed(
        pixel_format: PixelFormat,
        width: i32,
        height: i32,
        line_stride: Option<i32>,
    ) -> (r: Result<ValidatedVideoLayout, Error>)
        ensures
            r is Ok <==> uncompressed_layout_ok(pixel_format, width, height, line_stride),
            r matches Ok(l) ==> {
                let stride = uncompressed_stride(pixel_format, width as int, line_stride);
                &&& l.width == width
                &&& l.height == height
                &&& l.pixel_format == pixel_format
                &&& l.data_len_bytes == buffer_len_formula(
                    format_category(pixel_format),
                    stride,
                    height as int,
                )
                &&& l.line_stride_or_size == LineStrideOrSize::LineStrideBytes(stride as i32)
            },
            r matches Err(e) ==> e is InvalidFrame,
    {
        validate_video_dimensions_for_format(pixel_format, width, height)?;
        let min_stride = min_video_line_stride_checked(pixel_format, width as usize)?;
        proof {
            let bpp = format_bytes_per_pixel(pixel_format) as int;
            assert(min_stride > 0) by (nonlinear_arith)
                requires
                    min_stride == width * bpp,
                    width > 0,
                    bpp >= 1,
            ;
        }
        let stride: usize = match line_stride {
            Some(s) => {
                if s <= 0 {
                    return Err(
                        frame_error("Uncompressed video frame has invalid line_stride_in_bytes: ", s as i128),
                    );
                }
                if (s as usize) < min_stride {
                    let mut m = with_int("Video line_stride_in_bytes ", s as i128);
                    m.append(" is smaller than minimum row size ");
                    append_int(&mut m, min_stride as i128);
                    m.append(" for ");
                    m.append(pixel_format.name());
                    m.append(" width ");
                    append_int(&mut m, width as i128);
                    return Err(Error::InvalidFrame(m));
                }
                s as usize
            },
            None => min_stride,
        };
        if pixel_format.info().is_planar_420() && stride % 2 != 0 {
            return Err(frame_error("Planar 4:2:0 video frame has odd line_stride_in_bytes: ", stride as i128));
        }
        proof {
            lemma_formula_positive(format_category(pixel_format), stride as int, height as int);
        }
        let data_len_bytes = calculate_buffer_len_checked(pixel_format, stride, height as usize)?;
        validate_video_data_len(data_len_bytes)?;
        if stride > i32::MAX as usize {
            proof {
                assert(stride * height >= stride) by (nonlinear_arith)
                    requires
                        stride > 0,
                        height >= 1,
                ;
            }
            return Err(frame_error_in("Video line stride ", stride as i128, " exceeds i32 range"));
        }
        Ok(
            ValidatedVideoLayout {
                width,
                height,
                pixel_format,
                data_len_bytes,
                line_stride_or_size: LineStrideOrSize::LineStrideBytes(stride as i32),
            },
        )
    }
}

/// Checks the dimensions of a frame against its format.
pub fn validate_video_dimensions_for_format(pixel_format: PixelFormat, width: i32, height: i32) -> (r:
    Result<(), Error>)
    ensures
        r is Ok <==> dimensions_ok(pixel_format, width as int, height as int),
        r matches Err(e) ==> e is InvalidFrame,
{
    validate_video_width_for_format(pixel_format, width)?;
    if height <= 0 {
        return Err(frame_error("Video frame has invalid height: ", height as i128));
    }
    if pixel_format.info().is_planar_420() && (width % 2 != 0 || height % 2 != 0) {
        return Err(
            frame_error2(
                "Planar 4:2:0 video frames require even dimensions, got ",
                width as i128,
                "x",
                height as i128,
                "",
            ),
        );
    }
    Ok(())
}

/// Checks the width of a frame against its format.
pub fn validate_video_width_for_format(pixel_format: PixelFormat, width: i32) -> (r: Result<
    (),
    Error,
>)
    ensures
        r is Ok <==> width_ok(pixel_format, width as int),
        r matches Err(e) ==> e is InvalidFrame,
{
    if width <= 0 {
        return Err(frame_error("Video frame has invalid width: ", width as i128));
    }
    if pixel_format.info().is_planar_420() && width % 2 != 0 {
        return Err(frame_error("Planar 4:2:0 video frames require even width, got ", width as i128));
    }
    Ok(())
}

/// Accepts a computed buffer size that is positive and within [`MAX_VIDEO_BYTES`].
pub fn validate_video_data_len(data_len_bytes: usize) -> (r: Result<(), Error>)
    ensures
        r is Ok <==> 0 < data_len_bytes <= MAX_VIDEO_BYTES,
        r matches Err(e) ==> e is InvalidFrame,
{
    if data_len_bytes == 0 {
        return Err(invalid_frame("Video frame has zero calculated size"));
    }
    if data_len_bytes > MAX_VIDEO_BYTES {
        return Err(
            frame_error2(
                "Video frame exceeds maximum size: ",
                data_len_bytes as i128,
                " bytes > ",
                MAX_VIDEO_BYTES as i128,
                " bytes",
            ),
        );
    }
    Ok(())
}

/// `width` times the bytes per pixel of the format, unless that overflows.
pub fn min_video_line_stride_checked(pixel_format: PixelFormat, width: usize) -> (r: Result<
    usize,
    Error,
>)
    ensures
        r is Ok <==> width * format_bytes_per_pixel(pixel_format) <= usize::MAX,
        r matches Ok(s) ==> s == width * format_bytes_per_pixel(pixel_format),
        r matches Err(e) ==> e is InvalidFrame,
{
    let bpp = pixel_format.info().bytes_per_pixel() as usize;
    match width.checked_mul(bpp) {
        Some(s) => Ok(s),
        None => {
            let mut m = String::from_str("Video line stride overflow for ");
            m.append(pixel_format.name());
            m.append(" width ");
            append_int(&mut m, width as i128);
            Err(Error::InvalidFrame(m))
        },
    }
}

/// Buffer length of a format for a Y-plane stride and a height.
pub fn calculate_buffer_len_checked(pixel_format: PixelFormat, y_stride: usize, height: usize) -> (r:
    Result<usize, Error>)
    ensures
        r is Ok <==> (chroma_parity_ok(format_category(pixel_format), y_stride as int, height as int)
            && buffer_len_formula(format_category(pixel_format), y_stride as int, height as int)
            <= usize::MAX),
        r matches Ok(n) ==> n == buffer_len_formula(
            format_category(pixel_format),
            y_stride as int,
            height as int,
        ),
        r matches Err(e) ==> e is InvalidFrame,
{
    calculate_buffer_len_for_info_checked(pixel_format.info(), y_stride, height)
}

/// Buffer length for the category of `info`, with checked arithmetic.
pub fn calculate_buffer_len_for_info_checked(info: PixelFormatInfo, y_stride: usize, height: usize) -> (r:
    Result<usize, Error>)
    ensures
        r is Ok <==> (chroma_parity_ok(info.spec_category(), y_stride as int, height as int)
            && buffer_len_formula(info.spec_category(), y_stride as int, height as int)
            <= usize::MAX),
        r matches Ok(n) ==> n == buffer_len_formula(
            info.spec_category(),
            y_stride as int,
            height as int,
        ),
        r matches Err(e) ==> e is InvalidFrame,
{
    let ghost s = y_stride as int;
    let ghost h = height as int;
    proof {
        assert(s * h >= 0) by (nonlinear_arith)
            requires
                s >= 0,
                h >= 0,
        ;
        assert((s / 2) * (h / 2) >= 0) by (nonlinear_arith)
            requires
                s >= 0,
                h >= 0,
        ;
        assert(s * (h / 2) >= 0) by (nonlinear_arith)
            requires
                s >= 0,
                h >= 0,
        ;
    }
    let y_size = match y_stride.checked_mul(height) {
        Some(v) => v,
        None => {
            return Err(
                frame_error2("Video buffer size overflow: ", y_stride as i128, " stride × ", height as i128, " height"),
            );
        },
    };
    match info.category() {
        FormatCategory::Packed => Ok(y_size),
        FormatCategory::Planar420 => {
            if height % 2 != 0 || y_stride % 2 != 0 {
                return Err(invalid_frame("Planar 4:2:0 video frames require even height and stride"));
            }
            let chroma_height = height / 2;
            let chroma_stride = y_stride / 2;
            let u_size = match chroma_stride.checked_mul(chroma_height) {
                Some(v) => v,
                None => {
                    return Err(invalid_frame("Video U-plane size overflow"));
                },
            };
            let v_size = u_size;
            match y_size.checked_add(u_size) {
                Some(t) => match t.checked_add(v_size) {
                    Some(total) => Ok(total),
                    None => Err(invalid_frame("Video total buffer size overflow")),
                },
                None => Err(invalid_frame("Video total buffer size overflow")),
            }
        },
        FormatCategory::SemiPlanar420 => {
            if height % 2 != 0 {
                return Err(invalid_frame("Semi-planar 4:2:0 video frames require even height"));
            }
            let chroma_height = height / 2;
            let uv_size = match y_stride.checked_mul(chroma_height) {
                Some(v) => v,
                None => {
                    return Err(invalid_frame("Video UV-plane size overflow"));
                },
            };
            match y_size.checked_add(uv_size) {
                Some(total) => Ok(total),
                None => Err(invalid_frame("Video total buffer size overflow")),
            }
        },
    }
}

} // verus!
