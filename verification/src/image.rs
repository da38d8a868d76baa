//! Still-image export of 8-bit RGB-family video frames: the active pixels of each
//! row are converted to RGBA (for PNG) or RGB (for JPEG) and handed to the
//! encoders; a data URL wraps the encoded image in base64.

use vstd::prelude::*;

use crate::error::{frame_error, frame_error2, frame_error_in, invalid_frame, Error};
use crate::format::{LineStrideOrSize, PixelFormat, ValidatedVideoLayout};
use crate::video::VideoFrame;
use base64::Engine;
use vstd::string::StringExecFns;

verus! {

/// Image formats a video frame can be exported to.
#[derive(Debug, Clone, Copy, PartialEq, Eq, Structural)]
pub enum ImageFormat {
    /// Lossless PNG.
    Png,
    /// JPEG with a quality from 1 to 100.
    Jpeg(u8),
}

/// Order of the colour components in a source pixel.
#[derive(Debug, Clone, Copy, PartialEq, Eq, Structural)]
pub enum ImageChannelOrder {
    /// Red, green, blue, fourth byte.
    Rgba,
    /// Blue, green, red, fourth byte.
    Bgra,
}

/// What becomes of the fourth byte of a source pixel.
#[derive(Debug, Clone, Copy, PartialEq, Eq, Structural)]
pub enum ImageAlphaPolicy {
    /// It is alpha and is kept.
    Preserve,
    /// It is padding; the output is opaque.
    Opaque,
}

/// How to read one 4-byte source pixel.
#[derive(Debug, Clone, Copy, PartialEq, Eq, Structural)]
pub struct ImagePixelFormat {
    pub channel_order: ImageChannelOrder,
    pub alpha_policy: ImageAlphaPolicy,
}

/// Bytes per source pixel of every supported format.
pub const IMAGE_BYTES_PER_PIXEL: usize = 4;

/// Offset of red within a source pixel.
pub open spec fn red_index(o: ImageChannelOrder) -> int {
    match o {
        ImageChannelOrder::Rgba => 0,
        ImageChannelOrder::Bgra => 2,
    }
}

/// Offset of blue within a source pixel.
pub open spec fn blue_index(o: ImageChannelOrder) -> int {
    match o {
        ImageChannelOrder::Rgba => 2,
        ImageChannelOrder::Bgra => 0,
    }
}

/// How each supported pixel format is read: RGBA and BGRA keep alpha, RGBX and
/// BGRX are opaque; other formats are not supported.
pub open spec fn image_pixel_format_of(f: PixelFormat) -> Option<ImagePixelFormat> {
    match f {
        PixelFormat::RGBA => Some(
            ImagePixelFormat {
                channel_order: ImageChannelOrder::Rgba,
                alpha_policy: ImageAlphaPolicy::Preserve,
            },
        ),
        PixelFormat::BGRA => Some(
            ImagePixelFormat {
                channel_order: ImageChannelOrder::Bgra,
                alpha_policy: ImageAlphaPolicy::Preserve,
            },
        ),
        PixelFormat::RGBX => Some(
            ImagePixelFormat {
                channel_order: ImageChannelOrder::Rgba,
                alpha_policy: ImageAlphaPolicy::Opaque,
            },
        ),
        PixelFormat::BGRX => Some(
            ImagePixelFormat {
                channel_order: ImageChannelOrder::Bgra,
                alpha_policy: ImageAlphaPolicy::Opaque,
            },
        ),
        _ => None,
    }
}

/// Output component `c` (red, green, blue, alpha) of the source pixel at `base`.
pub open spec fn pixel_channel(fmt: ImagePixelFormat, data: Seq<u8>, base: int, c: int) -> u8 {
    if c == 0 {
        data[base + red_index(fmt.channel_order)]
    } else if c == 1 {
        data[base + 1]
    } else if c == 2 {
        data[base + blue_index(fmt.channel_order)]
    } else {
        match fmt.alpha_policy {
            ImageAlphaPolicy::Preserve => data[base + 3],
            ImageAlphaPolicy::Opaque => 255u8,
        }
    }
}

/// The output image: for each row, each active pixel, `channels` components
/// (RGB or RGBA), reading rows `stride` bytes apart and skipping the padding.
pub open spec fn image_pixels(
    fmt: ImagePixelFormat,
    data: Seq<u8>,
    width: int,
    height: int,
    stride: int,
    channels: int,
) -> Seq<u8> {
    Seq::new(
        (width * height * channels) as nat,
        |k: int|
            {
                let p = k / channels;
                pixel_channel(fmt, data, (p / width) * stride + (p % width) * 4, k % channels)
            },
    )
}

impl ImageChannelOrder {
    /// Offset of red within a source pixel.
    pub fn red_index(self) -> (r: usize)
        ensures
            r == red_index(self),
    {
        match self {
            ImageChannelOrder::Rgba => 0,
            ImageChannelOrder::Bgra => 2,
        }
    }

    /// Offset of blue within a source pixel.
    pub fn blue_index(self) -> (r: usize)
        ensures
            r == blue_index(self),
    {
        match self {
            ImageChannelOrder::Rgba => 2,
            ImageChannelOrder::Bgra => 0,
        }
    }
}

impl ImagePixelFormat {
    /// How a pixel format is read, if it can be exported.
    pub fn from_pixel_format(pixel_format: PixelFormat) -> (r: Result<ImagePixelFormat, Error>)
        ensures
            r is Ok <==> image_pixel_format_of(pixel_format) is Some,
            r matches Ok(f) ==> image_pixel_format_of(pixel_format) == Some(f),
            r matches Err(e) ==> e is InvalidFrame,
    {
        match pixel_format {
            PixelFormat::RGBA => Ok(
                ImagePixelFormat {
                    channel_order: ImageChannelOrder::Rgba,
                    alpha_policy: ImageAlphaPolicy::Preserve,
                },
            ),
            PixelFormat::BGRA => Ok(
                ImagePixelFormat {
                    channel_order: ImageChannelOrder::Bgra,
                    alpha_policy: ImageAlphaPolicy::Preserve,
                },
            ),
            PixelFormat::RGBX => Ok(
                ImagePixelFormat {
                    channel_order: ImageChannelOrder::Rgba,
                    alpha_policy: ImageAlphaPolicy::Opaque,
                },
            ),
            PixelFormat::BGRX => Ok(
                ImagePixelFormat {
                    channel_order: ImageChannelOrder::Bgra,
                    alpha_policy: ImageAlphaPolicy::Opaque,
                },
            ),
            _ => {
                let mut m = String::from_str("Unsupported format for image encoding: ");
                m.append(pixel_format.name());
                m.append(". Only RGBA/RGBX/BGRA/BGRX are supported.");
                Err(Error::InvalidFrame(m))
            },
        }
    }

    /// True when source pixels are already RGBA, so tightly packed rows need no
    /// conversion.
    pub fn can_borrow_tightly_packed_png(self) -> (r: bool)
        ensures
            r == (self.channel_order == ImageChannelOrder::Rgba && self.alpha_policy
                == ImageAlphaPolicy::Preserve),
    {
        self.channel_order == ImageChannelOrder::Rgba && self.alpha_policy == ImageAlphaPolicy::Preserve
    }

    /// The RGBA output of the source pixel at `base`.
    pub fn rgba_pixel(self, data: &[u8], base: usize) -> (r: [u8; 4])
        requires
            base + 4 <= data@.len(),
        ensures
            forall|c: int| 0 <= c < 4 ==> r@[c] == pixel_channel(self, data@, base as int, c),
    {
        let _n = data.len();
        let alpha = match self.alpha_policy {
            ImageAlphaPolicy::Preserve => data[base + 3],
            ImageAlphaPolicy::Opaque => 255u8,
        };
        [
            data[base + self.channel_order.red_index()],
            data[base + 1],
            data[base + self.channel_order.blue_index()],
            alpha,
        ]
    }

    /// The RGB output of the source pixel at `base`.
    pub fn rgb_pixel(self, data: &[u8], base: usize) -> (r: [u8; 3])
        requires
            base + 4 <= data@.len(),
        ensures
            forall|c: int| 0 <= c < 3 ==> r@[c] == pixel_channel(self, data@, base as int, c),
    {
        let _n = data.len();
        [
            data[base + self.channel_order.red_index()],
            data[base + 1],
            data[base + self.channel_order.blue_index()],
        ]
    }
}

/// A frame's pixels checked for export: rows of `line_stride` bytes of which the
/// first `active_row_bytes` (four per pixel) are image.
#[derive(Debug)]
pub struct ImagePixelSource<'a> {
    pub data: &'a [u8],
    pub width: usize,
    pub height: usize,
    pub line_stride: usize,
    pub active_row_bytes: usize,
    pub pixel_format: ImagePixelFormat,
}

/// When a layout and its data can be exported: a supported format, data of the
/// layout's size, a positive line stride of at least one row of pixels, positive
/// dimensions, and stride times height equal to the layout's size.
pub open spec fn image_source_ok(layout: ValidatedVideoLayout, data_len: int) -> bool {
    &&& image_pixel_format_of(layout.pixel_format) is Some
    &&& data_len == layout.data_len_bytes
    &&& layout.line_stride_or_size matches LineStrideOrSize::LineStrideBytes(s) && {
        &&& s > 0
        &&& layout.width > 0
        &&& layout.height > 0
        &&& s >= layout.width * 4
        &&& s * layout.height == layout.data_len_bytes
    }
}

/// The line stride of a layout that can be exported.
pub open spec fn image_stride(layout: ValidatedVideoLayout) -> int {
    match layout.line_stride_or_size {
        LineStrideOrSize::LineStrideBytes(s) => s as int,
        LineStrideOrSize::DataSizeBytes(s) => s as int,
    }
}

/// The pixel source a layout and its data describe.
pub open spec fn image_source_matches(
    src: ImagePixelSource,
    layout: ValidatedVideoLayout,
    data: Seq<u8>,
) -> bool {
    &&& src.data@ == data
    &&& src.width == layout.width
    &&& src.height == layout.height
    &&& src.line_stride == image_stride(layout)
    &&& src.active_row_bytes == layout.width * 4
    &&& image_pixel_format_of(layout.pixel_format) == Some(src.pixel_format)
}

/// The consistency every checked pixel source has.
pub open spec fn image_source_wf(src: ImagePixelSource) -> bool {
    &&& src.width > 0
    &&& src.height > 0
    &&& src.active_row_bytes == src.width * 4
    &&& src.line_stride >= src.active_row_bytes
    &&& src.data@.len() == src.line_stride * src.height
}

/// The output image of a pixel source with `channels` components per pixel.
pub open spec fn source_pixels(src: ImagePixelSource, channels: int) -> Seq<u8> {
    image_pixels(
        src.pixel_format,
        src.data@,
        src.width as int,
        src.height as int,
        src.line_stride as int,
        channels,
    )
}

/// RGBA input for the PNG encoder: the frame's own bytes when they are already
/// tightly packed RGBA, else a converted copy.
#[derive(Debug)]
pub enum PngInput<'a> {
    /// The frame's data, used as is.
    Borrowed(&'a [u8]),
    /// Converted pixels.
    Owned(Vec<u8>),
}

impl<'a> PngInput<'a> {
    /// The RGBA bytes.
    pub open spec fn spec_bytes(self) -> Seq<u8> {
        match self {
            PngInput::Borrowed(b) => b@,
            PngInput::Owned(v) => v@,
        }
    }

    /// The RGBA bytes.
    pub fn as_slice(&self) -> (r: &[u8])
        ensures
            r@ == self.spec_bytes(),
    {
        match self {
            PngInput::Borrowed(b) => b,
            PngInput::Owned(v) => v.as_slice(),
        }
    }
}

/// Output index `(row * width + col) * channels + c` splits back into its parts.
proof fn lemma_output_index(row: int, col: int, c: int, width: int, channels: int)
    requires
        0 <= row,
        0 <= col < width,
        0 <= c < channels,
    ensures
        ((row * width + col) * channels + c) / channels == row * width + col,
        ((row * width + col) * channels + c) % channels == c,
        (row * width + col) / width == row,
        (row * width + col) % width == col,
{
    vstd::arithmetic::div_mod::lemma_fundamental_div_mod_converse(
        (row * width + col) * channels + c,
        channels,
        row * width + col,
        c,
    );
    vstd::arithmetic::div_mod::lemma_fundamental_div_mod_converse(
        row * width + col,
        width,
        row,
        col,
    );
}

/// The source pixel of an active position lies inside the data.
proof fn lemma_pixel_in_bounds(row: int, col: int, width: int, height: int, stride: int)
    requires
        0 <= row < height,
        0 <= col < width,
        stride >= width * 4,
    ensures
        row * stride + col * 4 + 4 <= height * stride,
        row * stride + col * 4 >= 0,
{
    assert(col * 4 + 4 <= width * 4) by (nonlinear_arith)
        requires
            col < width,
    ;
    assert(row * stride + stride <= height * stride) by (nonlinear_arith)
        requires
            row < height,
            stride >= 0,
    ;
    assert(row * stride >= 0) by (nonlinear_arith)
        requires
            row >= 0,
            stride >= 0,
    ;
}

/// Output position `channels * p + i` of pixel `p = row * width + col` reads
/// component `i` of the source pixel at `row * stride + col * 4`.
proof fn lemma_output_position(width: int, height: int, channels: int, row: int, col: int, i: int)
    requires
        0 <= row < height,
        0 <= col < width,
        channels > 0,
        0 <= i < channels,
    ensures
        ({
            let p = row * width + col;
            let k = channels * p + i;
            &&& 0 <= p < width * height
            &&& 0 <= k < width * height * channels
            &&& k / channels == p
            &&& k % channels == i
            &&& p / width == row
            &&& p % width == col
        }),
{
    let p = row * width + col;
    let k = channels * p + i;
    assert(0 <= p < width * height) by (nonlinear_arith)
        requires
            p == row * width + col,
            0 <= row < height,
            0 <= col < width,
    ;
    assert(0 <= k < width * height * channels) by (nonlinear_arith)
        requires
            k == channels * p + i,
            0 <= p < width * height,
            0 <= i < channels,
    ;
    assert(k == p * channels + i) by (nonlinear_arith)
        requires
            k == channels * p + i,
    ;
    vstd::arithmetic::div_mod::lemma_fundamental_div_mod_converse(k, channels, p, i);
    assert(p == row * width + col);
    vstd::arithmetic::div_mod::lemma_fundamental_div_mod_converse(p, width, row, col);
}

/// Exported pixels carry the frame's colours. For every supported format and
/// every active pixel (row `row`, column `col`, read from the 4 bytes at
/// `row * stride + col * 4`): the RGB output (JPEG input) holds, at `3 * p`,
/// `3 * p + 1` and `3 * p + 2` with `p = row * width + col`, the pixel's red,
/// green and blue bytes, where red is the third byte and blue the first in a
/// BGRA or BGRX frame and the other way round in an RGBA or RGBX frame; the RGBA
/// output (PNG input) holds the same three bytes at `4 * p` to `4 * p + 2`, and at
/// `4 * p + 3` the fourth byte for RGBA and BGRA, 255 for RGBX and BGRX. Both
/// outputs hold exactly the active pixels, three or four bytes each.
pub proof fn lemma_export_pixel_colours(
    pf: PixelFormat,
    data: Seq<u8>,
    width: int,
    height: int,
    stride: int,
    row: int,
    col: int,
)
    requires
        pf == PixelFormat::RGBA || pf == PixelFormat::BGRA || pf == PixelFormat::RGBX || pf
            == PixelFormat::BGRX,
        0 <= row < height,
        0 <= col < width,
    ensures
        ({
            let fmt = image_pixel_format_of(pf).unwrap();
            let rgb = image_pixels(fmt, data, width, height, stride, 3);
            let rgba = image_pixels(fmt, data, width, height, stride, 4);
            let p = row * width + col;
            let base = row * stride + col * 4;
            let bgr = pf == PixelFormat::BGRA || pf == PixelFormat::BGRX;
            &&& rgb.len() == width * height * 3
            &&& rgba.len() == width * height * 4
            &&& rgb[3 * p] == data[base + if bgr { 2int } else { 0int }]
            &&& rgb[3 * p + 1] == data[base + 1]
            &&& rgb[3 * p + 2] == data[base + if bgr { 0int } else { 2int }]
            &&& rgba[4 * p] == data[base + if bgr { 2int } else { 0int }]
            &&& rgba[4 * p + 1] == data[base + 1]
            &&& rgba[4 * p + 2] == data[base + if bgr { 0int } else { 2int }]
            &&& rgba[4 * p + 3] == if pf == PixelFormat::RGBA || pf == PixelFormat::BGRA {
                data[base + 3]
            } else {
                255u8
            }
        }),
{
    let p = row * width + col;
    assert(width * height * 3 >= 0 && width * height * 4 >= 0) by (nonlinear_arith)
        requires
            width > 0,
            height > 0,
    ;
    lemma_output_position(width, height, 3, row, col, 0);
    lemma_output_position(width, height, 3, row, col, 1);
    lemma_output_position(width, height, 3, row, col, 2);
    lemma_output_position(width, height, 4, row, col, 0);
    lemma_output_position(width, height, 4, row, col, 1);
    lemma_output_position(width, height, 4, row, col, 2);
    lemma_output_position(width, height, 4, row, col, 3);
}

impl<'a> ImagePixelSource<'a> {
    /// Checks a frame's layout and data for export.
    pub fn new(layout: ValidatedVideoLayout, data: &'a [u8]) -> (r: Result<ImagePixelSource<'a>, Error>)
        ensures
            r is Ok <==> image_source_ok(layout, data@.len() as int),
            r matches Ok(src) ==> image_source_matches(src, layout, data@) && image_source_wf(src),
            r matches Err(e) ==> e is InvalidFrame,
    {
        let pixel_format = ImagePixelFormat::from_pixel_format(layout.pixel_format)?;
        if data.len() != layout.data_len_bytes {
            return Err(
                frame_error2(
                    "Video data length ",
                    data.len() as i128,
                    ", expected ",
                    layout.data_len_bytes as i128,
                    " bytes for validated layout",
                ),
            );
        }
        let stride = match layout.line_stride_or_size {
            LineStrideOrSize::LineStrideBytes(s) => {
                if s <= 0 {
                    return Err(frame_error("Image line stride must be positive, got ", s as i128));
                }
                s as usize
            },
            LineStrideOrSize::DataSizeBytes(size) => {
                return Err(
                    frame_error_in(
                        "Cannot encode image from data-size frame (",
                        size as i128,
                        " bytes). Image encoding requires line_stride_in_bytes.",
                    ),
                );
            },
        };
        if layout.width < 0 {
            return Err(frame_error("Invalid image width: ", layout.width as i128));
        }
        if layout.height < 0 {
            return Err(frame_error("Invalid image height: ", layout.height as i128));
        }
        let width = layout.width as usize;
        let height = layout.height as usize;
        if width == 0 || height == 0 {
            return Err(
                frame_error2(
                    "Image dimensions must be positive, got ",
                    layout.width as i128,
                    "x",
                    layout.height as i128,
                    "",
                ),
            );
        }
        let active_row_bytes = match width.checked_mul(IMAGE_BYTES_PER_PIXEL) {
            Some(n) => n,
            None => {
                return Err(
                    frame_error2(
                        "Image row size overflow for width ",
                        width as i128,
                        " and ",
                        IMAGE_BYTES_PER_PIXEL as i128,
                        " bytes per pixel",
                    ),
                );
            },
        };
        if stride < active_row_bytes {
            return Err(
                frame_error2(
                    "Image line stride ",
                    stride as i128,
                    " is smaller than active row size ",
                    active_row_bytes as i128,
                    "",
                ),
            );
        }
        let expected_data_len = match stride.checked_mul(height) {
            Some(n) => n,
            None => {
                return Err(
                    frame_error2("Image data length overflow: ", stride as i128, " stride x ", height as i128, " height"),
                );
            },
        };
        if expected_data_len != layout.data_len_bytes {
            return Err(
                frame_error2(
                    "Image layout data length ",
                    layout.data_len_bytes as i128,
                    " does not match line stride x height (",
                    expected_data_len as i128,
                    ")",
                ),
            );
        }
        Ok(ImagePixelSource { data, width, height, line_stride: stride, active_row_bytes, pixel_format })
    }

    /// Converts the active pixels, row by row, to `channels` components each.
    fn convert(&self, channels: usize) -> (r: Vec<u8>)
        requires
            image_source_wf(*self),
            channels == 3 || channels == 4,
        ensures
            r@ == source_pixels(*self, channels as int),
    {
        let mut out: Vec<u8> = Vec::new();
        let mut row: usize = 0;
        let ghost w = self.width as int;
        let ghost total = source_pixels(*self, channels as int);
        proof {
            assert(w * (self.height as int) * (channels as int) >= 0) by (nonlinear_arith)
                requires
                    w >= 0,
                    self.height >= 0,
                    channels >= 0,
            ;
        }
        while row < self.height
            invariant
                image_source_wf(*self),
                channels == 3 || channels == 4,
                w == self.width,
                total == source_pixels(*self, channels as int),
                row <= self.height,
                out@.len() == row * w * channels,
                forall|k: int| 0 <= k < out@.len() ==> #[trigger] out@[k] == total[k],
            decreases self.height - row,
        {
            let mut col: usize = 0;
            while col < self.width
                invariant
                    image_source_wf(*self),
                    channels == 3 || channels == 4,
                    w == self.width,
                    total == source_pixels(*self, channels as int),
                    row < self.height,
                    col <= self.width,
                    out@.len() == (row * w + col) * channels,
                    forall|k: int| 0 <= k < out@.len() ==> #[trigger] out@[k] == total[k],
                decreases self.width - col,
            {
                proof {
                    lemma_pixel_in_bounds(
                        row as int,
                        col as int,
                        w,
                        self.height as int,
                        self.line_stride as int,
                    );
                    assert(w * (self.height as int) * (channels as int) == (self.height as int) * w
                        * (channels as int)) by (nonlinear_arith);
                }
                let dlen = self.data.len();
                proof {
                    assert(row * self.line_stride + col * 4 + 4 <= dlen);
                }
                let base = row * self.line_stride + col * 4;
                let ghost before = out@;
                if channels == 4 {
                    let px = self.pixel_format.rgba_pixel(self.data, base);
                    out.push(px[0]);
                    out.push(px[1]);
                    out.push(px[2]);
                    out.push(px[3]);
                } else {
                    let px = self.pixel_format.rgb_pixel(self.data, base);
                    out.push(px[0]);
                    out.push(px[1]);
                    out.push(px[2]);
                }
                proof {
                    let n = channels as int;
                    assert forall|k: int| 0 <= k < out@.len() implies #[trigger] out@[k] == total[k] by {
                        if k >= before.len() {
                            let c = k - before.len();
                            lemma_output_index(row as int, col as int, c, w, n);
                            assert((row * w + col) * n + c == k);
                            lemma_row_bound(row as int, col as int, w, self.height as int, n, c);
                        }
                    }
                    assert(out@.len() == (row * w + col + 1) * n) by (nonlinear_arith)
                        requires
                            out@.len() == before.len() + n,
                            before.len() == (row * w + col) * n,
                    ;
                }
                col = col + 1;
            }
            proof {
                assert((row * w + w) * (channels as int) == (row + 1) * w * (channels as int))
                    by (nonlinear_arith);
            }
            row = row + 1;
        }
        proof {
            assert(out@.len() == total.len()) by (nonlinear_arith)
                requires
                    out@.len() == row * w * channels,
                    row == self.height,
                    total.len() == w * self.height * channels,
            ;
            assert(out@ =~= total);
        }
        out
    }

    /// RGBA input for PNG, with the width and height as `u32`.
    pub fn png_rgba_input(&self) -> (r: Result<(PngInput<'a>, u32, u32), Error>)
        requires
            image_source_wf(*self),
        ensures
            r is Ok <==> self.width <= u32::MAX && self.height <= u32::MAX,
            r matches Ok((px, w, h)) ==> px.spec_bytes() == source_pixels(*self, 4) && w
                == self.width && h == self.height,
            r matches Ok((px, w, h)) ==> (px is Borrowed <==> (
            self.pixel_format.channel_order == ImageChannelOrder::Rgba
                && self.pixel_format.alpha_policy == ImageAlphaPolicy::Preserve && self.line_stride
                == self.active_row_bytes)),
            r matches Err(e) ==> e is InvalidFrame,
    {
        if self.width > u32::MAX as usize {
            return Err(frame_error_in("PNG width ", self.width as i128, " exceeds u32 range"));
        }
        if self.height > u32::MAX as usize {
            return Err(frame_error_in("PNG height ", self.height as i128, " exceeds u32 range"));
        }
        let width = self.width as u32;
        let height = self.height as u32;
        if self.pixel_format.can_borrow_tightly_packed_png() && self.line_stride == self.active_row_bytes {
            proof {
                self.lemma_tight_rgba_is_identity();
            }
            return Ok((PngInput::Borrowed(self.data), width, height));
        }
        let rgba = self.convert(4);
        Ok((PngInput::Owned(rgba), width, height))
    }

    /// Tightly packed RGBA pixels need no conversion.
    proof fn lemma_tight_rgba_is_identity(&self)
        requires
            image_source_wf(*self),
            self.pixel_format.channel_order == ImageChannelOrder::Rgba,
            self.pixel_format.alpha_policy == ImageAlphaPolicy::Preserve,
            self.line_stride == self.active_row_bytes,
        ensures
            source_pixels(*self, 4) == self.data@,
    {
        let w = self.width as int;
        let h = self.height as int;
        let total = source_pixels(*self, 4);
        assert(total.len() == self.data@.len()) by (nonlinear_arith)
            requires
                total.len() == w * h * 4,
                self.data@.len() == w * 4 * h,
        ;
        assert forall|k: int| 0 <= k < total.len() implies #[trigger] total[k] == self.data@[k] by {
            let p = k / 4;
            let c = k % 4;
            assert(k == p * 4 + c);
            assert(p == (p / w) * w + p % w) by {
                vstd::arithmetic::div_mod::lemma_fundamental_div_mod(p, w);
            }
            assert((p / w) * (w * 4) + (p % w) * 4 == p * 4) by (nonlinear_arith)
                requires
                    p == (p / w) * w + p % w,
            ;
        }
        assert(total =~= self.data@);
    }

    /// RGB input for JPEG, with the width and height as `u16`. The quality must be
    /// within 1..=100 and the dimensions within JPEG's `u16` range.
    pub fn jpeg_rgb_input(&self, quality: u8) -> (r: Result<(Vec<u8>, u16, u16), Error>)
        requires
            image_source_wf(*self),
        ensures
            r is Ok <==> 1 <= quality <= 100 && self.width <= u16::MAX && self.height <= u16::MAX,
            r matches Ok((px, w, h)) ==> px@ == source_pixels(*self, 3) && w == self.width && h
                == self.height,
            r matches Err(e) ==> e is InvalidFrame,
    {
        if quality < 1 || quality > 100 {
            return Err(frame_error("JPEG quality must be in 1..=100, got ", quality as i128));
        }
        if self.width > 65535 {
            return Err(
                frame_error_in("JPEG width ", self.width as i128, " exceeds maximum supported value 65535"),
            );
        }
        if self.height > 65535 {
            return Err(
                frame_error_in("JPEG height ", self.height as i128, " exceeds maximum supported value 65535"),
            );
        }
        let rgb = self.convert(3);
        Ok((rgb, self.width as u16, self.height as u16))
    }
}

/// Byte `(row * width + col) * channels + c` of the output image comes from the
/// source pixel at row `row`, column `col`.
proof fn lemma_row_bound(row: int, col: int, width: int, height: int, channels: int, c: int)
    requires
        0 <= row < height,
        0 <= col < width,
        0 <= c < channels,
        channels > 0,
    ensures
        (row * width + col) * channels + c < width * height * channels,
{
    assert(row * width + col < height * width) by (nonlinear_arith)
        requires
            row < height,
            col < width,
            0 <= col,
    ;
    let p = row * width + col;
    assert(p * channels + c < (p + 1) * channels) by (nonlinear_arith)
        requires
            c < channels,
    ;
    assert((p + 1) * channels <= (height * width) * channels) by (nonlinear_arith)
        requires
            p + 1 <= height * width,
            channels > 0,
    ;
    assert((height * width) * channels == width * height * channels) by (nonlinear_arith);
}

/// The bytes of an optional vector.
pub open spec fn opt_vec_bytes(r: Option<Vec<u8>>) -> Option<Seq<u8>> {
    match r {
        Some(v) => Some(v@),
        None => None,
    }
}

/// What `png` 0.18 produces for 8-bit RGBA pixels of the given size with its
/// default settings, or `None` when it reports an error.
pub uninterp spec fn png_encoding(rgba: Seq<u8>, width: u32, height: u32) -> Option<Seq<u8>>;

/// What `jpeg-encoder` 0.6 produces for 8-bit RGB pixels of the given size at the
/// given quality, or `None` when it reports an error.
pub uninterp spec fn jpeg_encoding(rgb: Seq<u8>, width: u16, height: u16, quality: u8) -> Option<
    Seq<u8>,
>;

/// Standard padded base64 (RFC 4648, the `STANDARD` engine of `base64` 0.22):
/// each group of three bytes becomes four characters of the standard alphabet, and
/// a last group of one or two bytes becomes two or three characters padded with
/// `=` to four.
pub open spec fn base64_standard(bytes: Seq<u8>) -> Seq<char>
    decreases bytes.len(),
{
    if bytes.len() == 0 {
        Seq::empty()
    } else if bytes.len() == 1 {
        seq![base64_char(bytes[0] as int / 4), base64_char((bytes[0] % 4) * 16), '=', '=']
    } else if bytes.len() == 2 {
        seq![
            base64_char(bytes[0] as int / 4),
            base64_char((bytes[0] % 4) * 16 + bytes[1] / 16),
            base64_char((bytes[1] % 16) * 4),
            '=',
        ]
    } else {
        seq![
            base64_char(bytes[0] as int / 4),
            base64_char((bytes[0] % 4) * 16 + bytes[1] / 16),
            base64_char((bytes[1] % 16) * 4 + bytes[2] / 64),
            base64_char(bytes[2] as int % 64),
        ] + base64_standard(bytes.skip(3))
    }
}

/// The standard base64 alphabet: `A`-`Z`, `a`-`z`, `0`-`9`, `+`, `/`.
pub open spec fn base64_char(v: int) -> char {
    if v < 26 {
        (65 + v) as char
    } else if v < 52 {
        (97 + v - 26) as char
    } else if v < 62 {
        (48 + v - 52) as char
    } else if v == 62 {
        '+'
    } else {
        '/'
    }
}

/// `png::Encoder` writing 8-bit RGBA into a vector: header, then the image data;
/// the writer finishes the file when dropped. Claimed: the outcome is the named
/// result of the pixels and dimensions. Nothing is claimed of the bytes. The
/// writer computes the image size, four bytes per pixel, as an unchecked
/// `usize` product, hence the bound: the pixels are exactly that many bytes.
#[verifier::external_body]
fn png_encode_rgba8(rgba: &[u8], width: u32, height: u32) -> (r: Option<Vec<u8>>)
    requires
        rgba@.len() == width as int * height as int * 4,
    ensures
        opt_vec_bytes(r) == png_encoding(rgba@, width, height),
{
    let mut out: Vec<u8> = Vec::new();
    let mut encoder = png::Encoder::new(&mut out, width, height);
    encoder.set_color(png::ColorType::Rgba);
    encoder.set_depth(png::BitDepth::Eight);
    let written = match encoder.write_header() {
        Ok(mut writer) => writer.write_image_data(rgba).is_ok(),
        Err(_) => false,
    };
    if written {
        Some(out)
    } else {
        None
    }
}

/// `jpeg_encoder::Encoder::encode` of RGB pixels into a vector at the given
/// quality. Claimed: the outcome is the named result of its arguments. The
/// encoder computes `width * height * 3` as a `usize`, hence the bound.
#[verifier::external_body]
fn jpeg_encode_rgb(rgb: &[u8], width: u16, height: u16, quality: u8) -> (r: Option<Vec<u8>>)
    requires
        width * height * 3 <= usize::MAX,
    ensures
        opt_vec_bytes(r) == jpeg_encoding(rgb@, width, height, quality),
{
    let mut out: Vec<u8> = Vec::new();
    let encoder = jpeg_encoder::Encoder::new(&mut out, quality);
    match encoder.encode(rgb, width, height, jpeg_encoder::ColorType::Rgb) {
        Ok(()) => Some(out),
        Err(_) => None,
    }
}

/// `base64::engine::general_purpose::STANDARD.encode`. Claimed: the result is the
/// standard padded encoding of the bytes as `base64_standard` states it. The
/// crate computes the padded length, four characters per started group of three
/// bytes, and panics if it does not fit in a `usize`, hence the bound.
#[verifier::external_body]
fn base64_encode_standard(bytes: &[u8]) -> (r: String)
    requires
        4 * ((bytes@.len() + 2) / 3) <= usize::MAX,
    ensures
        r@ == base64_standard(bytes@),
{
    base64::engine::general_purpose::STANDARD.encode(bytes)
}

/// The pixels a frame exports with `channels` components per pixel.
pub open spec fn frame_pixels(f: VideoFrame, channels: int) -> Seq<u8> {
    let l = f.spec_layout();
    image_pixels(
        image_pixel_format_of(l.pixel_format).unwrap(),
        f.spec_data(),
        l.width as int,
        l.height as int,
        image_stride(l),
        channels,
    )
}

/// The PNG file of a frame, if it can be exported.
pub open spec fn png_export(f: VideoFrame) -> Option<Seq<u8>> {
    let l = f.spec_layout();
    if image_source_ok(l, f.spec_data().len() as int) && l.width <= u32::MAX && l.height
        <= u32::MAX {
        png_encoding(frame_pixels(f, 4), l.width as u32, l.height as u32)
    } else {
        None
    }
}

/// The JPEG file of a frame at a quality, if it can be exported.
pub open spec fn jpeg_export(f: VideoFrame, quality: u8) -> Option<Seq<u8>> {
    let l = f.spec_layout();
    if image_source_ok(l, f.spec_data().len() as int) && 1 <= quality <= 100 && l.width
        <= u16::MAX && l.height <= u16::MAX {
        jpeg_encoding(frame_pixels(f, 3), l.width as u16, l.height as u16, quality)
    } else {
        None
    }
}

/// The image file of a frame in a format, if it can be exported.
pub open spec fn image_export(f: VideoFrame, format: ImageFormat) -> Option<Seq<u8>> {
    match format {
        ImageFormat::Png => png_export(f),
        ImageFormat::Jpeg(q) => jpeg_export(f, q),
    }
}

/// Inputs whose padded base64 length fits in a `usize`. Rust never allocates more
/// than `isize::MAX` bytes, so every encoded image qualifies.
pub open spec fn base64_input_fits(n: int) -> bool {
    n <= 3 * (usize::MAX / 4) - 2
}

/// The MIME type of an image format.
pub open spec fn mime_type(format: ImageFormat) -> Seq<char> {
    match format {
        ImageFormat::Png => "image/png"@,
        ImageFormat::Jpeg(_) => "image/jpeg"@,
    }
}

/// A data URL of base64 text for an image of `format`:
/// `data:<mime type>;base64,<encoded>`.
pub fn data_url(format: ImageFormat, encoded: &str) -> (r: String)
    ensures
        r@ == "data:"@ + mime_type(format) + ";base64,"@ + encoded@,
{
    let mime = match format {
        ImageFormat::Png => "image/png",
        ImageFormat::Jpeg(_) => "image/jpeg",
    };
    proof {
        reveal_strlit("image/png");
        reveal_strlit("image/jpeg");
    }
    let mut url = String::new();
    url.append("data:");
    url.append(mime);
    url.append(";base64,");
    url.append(encoded);
    url
}

impl VideoFrame {
    /// The frame as a PNG file; only RGBA, RGBX, BGRA and BGRX frames with a line
    /// stride can be exported, and row padding is skipped.
    pub fn encode_png(&self) -> (r: Result<Vec<u8>, Error>)
        ensures
            r is Ok <==> png_export(*self) is Some,
            r matches Ok(b) ==> Some(b@) == png_export(*self),
            r matches Err(e) ==> e is InvalidFrame,
    {
        let layout = self.validated_layout();
        let image = ImagePixelSource::new(layout, self.data())?;
        let (rgba, width, height) = image.png_rgba_input()?;
        match png_encode_rgba8(rgba.as_slice(), width, height) {
            Some(bytes) => Ok(bytes),
            None => Err(invalid_frame("PNG encoding failed")),
        }
    }

    /// The frame as a JPEG file at `quality` (1 to 100); only RGBA, RGBX, BGRA and
    /// BGRX frames with a line stride and dimensions up to 65535 can be exported.
    pub fn encode_jpeg(&self, quality: u8) -> (r: Result<Vec<u8>, Error>)
        ensures
            r is Ok <==> jpeg_export(*self, quality) is Some,
            r matches Ok(b) ==> Some(b@) == jpeg_export(*self, quality),
            r matches Err(e) ==> e is InvalidFrame,
    {
        let layout = self.validated_layout();
        let image = ImagePixelSource::new(layout, self.data())?;
        let (rgb, width, height) = image.jpeg_rgb_input(quality)?;
        let data_len = image.data.len();
        proof {
            let w = width as int;
            let h = height as int;
            let s = image.line_stride as int;
            assert(w * h * 3 <= usize::MAX) by (nonlinear_arith)
                requires
                    s >= w * 4,
                    data_len == s * h,
                    data_len <= usize::MAX,
                    w >= 0,
                    h >= 0,
            ;
        }
        match jpeg_encode_rgb(rgb.as_slice(), width, height, quality) {
            Some(bytes) => Ok(bytes),
            None => Err(invalid_frame("JPEG encoding failed")),
        }
    }

    /// The frame as a `data:` URL: `data:<mime>;base64,<encoded image>`.
    pub fn encode_data_url(&self, format: ImageFormat) -> (r: Result<String, Error>)
        ensures
            r is Ok <==> image_export(*self, format) is Some && base64_input_fits(
                image_export(*self, format).unwrap().len() as int,
            ),
            r matches Ok(s) ==> s@ == "data:"@ + mime_type(format) + ";base64,"@ + base64_standard(
                image_export(*self, format).unwrap(),
            ),
            r matches Err(e) ==> e is InvalidFrame,
    {
        let bytes = match format {
            ImageFormat::Png => self.encode_png()?,
            ImageFormat::Jpeg(q) => self.encode_jpeg(q)?,
        };
        if bytes.len() > usize::MAX / 4 * 3 - 2 {
            return Err(invalid_frame("Encoded image is too large for a data URL"));
        }
        let encoded = base64_encode_standard(bytes.as_slice());
        Ok(data_url(format, encoded.as_str()))
    }
}

} // verus!
