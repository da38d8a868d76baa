//! Numeric values that the NDI SDK headers assign to its enumerations.
//!
//! FourCC codes pack four ASCII characters little-endian into a `u32`.

use vstd::prelude::*;

verus! {

pub const NDIlib_FourCC_video_type_UYVY: u32 = 0x5956_5955;
pub const NDIlib_FourCC_video_type_UYVA: u32 = 0x4156_5955;
pub const NDIlib_FourCC_video_type_P216: u32 = 0x3631_3250;
pub const NDIlib_FourCC_video_type_PA16: u32 = 0x3631_4150;
pub const NDIlib_FourCC_video_type_YV12: u32 = 0x3231_5659;
pub const NDIlib_FourCC_video_type_I420: u32 = 0x3032_3449;
pub const NDIlib_FourCC_video_type_NV12: u32 = 0x3231_564E;
pub const NDIlib_FourCC_video_type_BGRA: u32 = 0x4152_4742;
pub const NDIlib_FourCC_video_type_BGRX: u32 = 0x5852_4742;
pub const NDIlib_FourCC_video_type_RGBA: u32 = 0x4142_4752;
pub const NDIlib_FourCC_video_type_RGBX: u32 = 0x5842_4752;

pub const NDIlib_FourCC_audio_type_FLTP: u32 = 0x7054_4C46;

pub const NDIlib_frame_format_type_interleaved: u32 = 0;
pub const NDIlib_frame_format_type_progressive: u32 = 1;
pub const NDIlib_frame_format_type_field_0: u32 = 2;
pub const NDIlib_frame_format_type_field_1: u32 = 3;

pub const NDIlib_frame_type_none: u32 = 0;
pub const NDIlib_frame_type_video: u32 = 1;
pub const NDIlib_frame_type_audio: u32 = 2;
pub const NDIlib_frame_type_metadata: u32 = 3;
pub const NDIlib_frame_type_error: u32 = 4;
pub const NDIlib_frame_type_status_change: u32 = 100;

pub const NDIlib_recv_color_format_BGRX_BGRA: i32 = 0;
pub const NDIlib_recv_color_format_UYVY_BGRA: i32 = 1;
pub const NDIlib_recv_color_format_RGBX_RGBA: i32 = 2;
pub const NDIlib_recv_color_format_UYVY_RGBA: i32 = 3;
pub const NDIlib_recv_color_format_fastest: i32 = 100;
pub const NDIlib_recv_color_format_best: i32 = 101;
pub const NDIlib_recv_color_format_max: i32 = 0x7fff_ffff;

pub const NDIlib_recv_bandwidth_metadata_only: i32 = -10;
pub const NDIlib_recv_bandwidth_audio_only: i32 = 10;
pub const NDIlib_recv_bandwidth_lowest: i32 = 0;
pub const NDIlib_recv_bandwidth_highest: i32 = 100;
pub const NDIlib_recv_bandwidth_max: i32 = 0x7fff_ffff;

} // verus!
