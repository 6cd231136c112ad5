//! Textures of the graphics device: what it is asked for, and what it returned.
use vstd::prelude::*;
use win_desktop_duplication::texture::ColorFormat as DxFormat;
use windows::Win32::Graphics::Dxgi::Common::DXGI_FORMAT;
use crate::errors::{fails_with, win_err_map, ErrorView, RhinoResult};
use crate::{ColorFormat, Resolution, Texture, TextureDesc};

verus! {

/// The number of a pixel layout in the graphics interface. A layout that the interface does not have
/// is the unknown one.
pub open spec fn format_code(f: ColorFormat) -> i32 {
    match f {
        ColorFormat::Unknown => 0,
        ColorFormat::ARGB8UNorm => 28,
        ColorFormat::ABGR8UNorm => 87,
        ColorFormat::YUV444 => 61,
        ColorFormat::AYUV => 100,
        ColorFormat::YUV420 => 0,
        ColorFormat::NV12 => 103,
        ColorFormat::ARGB16Float => 10,
        ColorFormat::ARGB10UNorm => 24,
        ColorFormat::Y410 => 101,
        ColorFormat::YUV444_10bit => 56,
        ColorFormat::YUV420_10bit => 104,
    }
}

/// Calls the conversion of the `ColorFormat` of `win_desktop_duplication` into a `DXGI_FORMAT`. It
/// gives each layout of its table the number of the graphics interface, and any other one zero.
#[verifier::external_body]
pub(crate) fn dxgi_format(f: ColorFormat) -> (r: i32)
    ensures
        r == format_code(f),
{
    let format = match f {
        ColorFormat::Unknown => DxFormat::Unknown,
        ColorFormat::ARGB8UNorm => DxFormat::ARGB8UNorm,
        ColorFormat::ABGR8UNorm => DxFormat::ABGR8UNorm,
        ColorFormat::YUV444 => DxFormat::YUV444,
        ColorFormat::AYUV => DxFormat::AYUV,
        ColorFormat::YUV420 => DxFormat::YUV420,
        ColorFormat::NV12 => DxFormat::NV12,
        ColorFormat::ARGB16Float => DxFormat::ARGB16Float,
        ColorFormat::ARGB10UNorm => DxFormat::ARGB10UNorm,
        ColorFormat::Y410 => DxFormat::Y410,
        ColorFormat::YUV444_10bit => DxFormat::YUV444_10bit,
        ColorFormat::YUV420_10bit => DxFormat::YUV420_10bit,
    };
    DXGI_FORMAT::from(format).0
}

/// What a texture is used for.
#[derive(Clone, Copy, Debug, PartialEq, Eq, Structural)]
pub enum Bind {
    /// A shader reads it.
    ShaderResource,
    /// A shader draws on it.
    RenderTarget,
}

/// What a texture is asked for with.
#[derive(Clone, Copy, Debug, PartialEq, Eq, Structural)]
pub struct TextureRequest {
    pub width: u32,
    pub height: u32,
    pub mip_levels: u32,
    pub array_size: u32,
    /// The number of the pixel layout in the graphics interface.
    pub format: i32,
    pub sample_count: u32,
    pub sample_quality: u32,
    pub bind: Bind,
}

/// The request for a plain texture of a size and a pixel layout.
pub open spec fn plain_texture(
    format: ColorFormat,
    resolution: Resolution,
    bind: Bind,
) -> TextureRequest {
    TextureRequest {
        width: resolution.width,
        height: resolution.height,
        mip_levels: 1,
        array_size: 1,
        format: format_code(format),
        sample_count: 1,
        sample_quality: 0,
        bind,
    }
}

/// A plain texture has the size, the pixel layout and the use that it is asked for with, one level, one
/// layer and one sample.
pub proof fn law_plain_texture(format: ColorFormat, resolution: Resolution, bind: Bind)
    ensures
        ({
            let request = plain_texture(format, resolution, bind);
            &&& request.width == resolution.width
            &&& request.height == resolution.height
            &&& request.format == format_code(format)
            &&& request.bind == bind
            &&& request.mip_levels == 1
            &&& request.array_size == 1
            &&& request.sample_count == 1
            &&& request.sample_quality == 0
        }),
{
}

/// Two pixel layouts share a number only where the graphics interface has neither.
pub proof fn law_format_codes_differ(a: ColorFormat, b: ColorFormat)
    requires
        a != b,
        format_code(a) == format_code(b),
    ensures
        format_code(a) == 0,
        a == ColorFormat::Unknown || a == ColorFormat::YUV420,
        b == ColorFormat::Unknown || b == ColorFormat::YUV420,
{
}

/// `desc` describes a texture that was made to a request.
pub open spec fn made_to(desc: TextureDesc, request: TextureRequest) -> bool {
    &&& desc.width == request.width
    &&& desc.height == request.height
    &&& format_code(desc.format) == request.format
}

/// The request for a plain texture of a size and a pixel layout.
pub fn create_texture(format: ColorFormat, c: Resolution, bind: Bind) -> (r: TextureRequest)
    ensures
        r == plain_texture(format, c, bind),
{
    TextureRequest {
        width: c.width,
        height: c.height,
        mip_levels: 1,
        array_size: 1,
        format: dxgi_format(format),
        sample_count: 1,
        sample_quality: 0,
        bind,
    }
}

/// The texture that the device made, or the error whose description it returned.
pub fn texture_created<H>(tex: Result<Texture<H>, String>) -> (r: RhinoResult<Texture<H>>)
    ensures
        match tex {
            Ok(t) => r is Ok && r->Ok_0 == t,
            Err(text) => fails_with(r, ErrorView::UnRecoverable(text@)),
        },
{
    match tex {
        Ok(t) => Ok(t),
        Err(text) => Err(win_err_map(text)),
    }
}

/// The number of a pixel layout tells which one it is, but for the two that share zero.
pub proof fn law_format_codes(f: ColorFormat)
    ensures
        format_code(f) == 0 <==> f == ColorFormat::Unknown || f == ColorFormat::YUV420,
        format_code(f) == 28 <==> f == ColorFormat::ARGB8UNorm,
        format_code(f) == 87 <==> f == ColorFormat::ABGR8UNorm,
        format_code(f) == 61 <==> f == ColorFormat::YUV444,
        format_code(f) == 100 <==> f == ColorFormat::AYUV,
        format_code(f) == 103 <==> f == ColorFormat::NV12,
        format_code(f) == 10 <==> f == ColorFormat::ARGB16Float,
        format_code(f) == 24 <==> f == ColorFormat::ARGB10UNorm,
        format_code(f) == 101 <==> f == ColorFormat::Y410,
        format_code(f) == 56 <==> f == ColorFormat::YUV444_10bit,
        format_code(f) == 104 <==> f == ColorFormat::YUV420_10bit,
{
}

} // verus!
