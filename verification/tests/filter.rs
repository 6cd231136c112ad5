use std::str::FromStr;

use rhinostream::errors::{DxFilterErr, RhinoError};
use rhinostream::filter::{
    new_argb_filter, new_ayuv_filter, new_filter, new_nv12_filter, DxColor, DxColorConfig,
    DxColorFilterType,
};
use rhinostream::texture::{create_texture, Bind, TextureRequest};
use rhinostream::{
    ColorFormat, Context, DxContext, Frame, FrameType, Resolution, Texture, TextureDesc,
};
use win_desktop_duplication::texture::ColorFormat as DxFormat;
use windows::Win32::Graphics::Dxgi::Common::DXGI_FORMAT;

fn device() -> Context<u8> {
    Context::DxContext(DxContext { device: 1 })
}

fn request(width: u32, height: u32, format: i32, bind: Bind) -> TextureRequest {
    TextureRequest {
        width,
        height,
        mip_levels: 1,
        array_size: 1,
        format,
        sample_count: 1,
        sample_quality: 0,
        bind,
    }
}

fn texture(raw: u32, width: u32, height: u32, format: ColorFormat) -> Texture<u32> {
    Texture { raw, desc: TextureDesc { height, width, format } }
}

fn made(s: &str) -> DxColor<u32> {
    let conf = DxColorConfig::from_str(s).unwrap();
    let wanted = new_filter(conf, &device()).unwrap();
    let Resolution { width, height } = conf.resolution;
    let wanted = wanted.created(Ok(texture(1, width, height, ColorFormat::ARGB8UNorm))).unwrap();
    let format = wanted.out_format;
    let wanted = wanted.created(Ok(texture(2, width, height, format))).unwrap();
    wanted.built(Ok(())).unwrap()
}

fn frame(raw: u32, width: u32, height: u32) -> Frame<u32> {
    Frame::new(FrameType::Dx11Frame(texture(raw, width, height, ColorFormat::ARGB8UNorm)))
}

#[test]
fn formats_are_those_of_the_graphics_interface() {
    let pairs = [
        (ColorFormat::Unknown, DxFormat::Unknown),
        (ColorFormat::ARGB8UNorm, DxFormat::ARGB8UNorm),
        (ColorFormat::ABGR8UNorm, DxFormat::ABGR8UNorm),
        (ColorFormat::YUV444, DxFormat::YUV444),
        (ColorFormat::AYUV, DxFormat::AYUV),
        (ColorFormat::YUV420, DxFormat::YUV420),
        (ColorFormat::NV12, DxFormat::NV12),
        (ColorFormat::ARGB16Float, DxFormat::ARGB16Float),
        (ColorFormat::ARGB10UNorm, DxFormat::ARGB10UNorm),
        (ColorFormat::Y410, DxFormat::Y410),
        (ColorFormat::YUV444_10bit, DxFormat::YUV444_10bit),
        (ColorFormat::YUV420_10bit, DxFormat::YUV420_10bit),
    ];
    let codes = [0, 28, 87, 61, 100, 0, 103, 10, 24, 101, 56, 104];
    for ((a, b), code) in pairs.into_iter().zip(codes) {
        let r = create_texture(a, Resolution { width: 1, height: 2 }, Bind::RenderTarget);
        assert_eq!(r, request(1, 2, code, Bind::RenderTarget));
        assert_eq!(r.format, DXGI_FORMAT::from(b).0);
    }
}

#[test]
fn filters_need_a_device() {
    let conf = DxColorConfig::from_str("").unwrap();
    let empty: Context<u8> = Context::Empty;
    assert!(matches!(new_nv12_filter(conf, &empty), Err(RhinoError::UnSupported)));
    assert!(matches!(new_argb_filter(conf, &empty), Err(RhinoError::UnSupported)));
    assert!(matches!(new_ayuv_filter(conf, &empty), Err(RhinoError::UnSupported)));
    assert!(matches!(new_filter(conf, &empty), Err(RhinoError::UnSupported)));
}

#[test]
fn colors_are_ordered() {
    assert!(DxColorFilterType::NV12Filter < DxColorFilterType::RGBFilter);
    assert!(DxColorFilterType::RGBFilter < DxColorFilterType::AYUVFilter);
}

#[test]
fn filters_by_their_colors() {
    let conf = DxColorConfig::from_str("-c rgb -r 64x32").unwrap();
    let input = request(64, 32, 28, Bind::ShaderResource);
    for (made, format, code) in [
        (new_nv12_filter(conf, &device()), ColorFormat::NV12, 103),
        (new_argb_filter(conf, &device()), ColorFormat::ARGB8UNorm, 28),
        (new_ayuv_filter(conf, &device()), ColorFormat::AYUV, 100),
    ] {
        let wanted = made.unwrap();
        assert_eq!(wanted.input, input);
        assert_eq!(wanted.out_format, format);
        let wanted = wanted.created(Ok(texture(1, 64, 32, ColorFormat::ARGB8UNorm))).unwrap();
        assert_eq!(wanted.output, request(64, 32, code, Bind::RenderTarget));
    }
    for (word, format) in
        [("nv12", ColorFormat::NV12), ("rgb", ColorFormat::ARGB8UNorm), ("ayuv", ColorFormat::AYUV)]
    {
        let conf = DxColorConfig::from_str(&format!("-c {}", word)).unwrap();
        assert_eq!(new_filter(conf, &device()).unwrap().out_format, format);
    }
}

#[test]
fn making_fails_step_by_step() {
    let conf = DxColorConfig::from_str("-c nv12").unwrap();
    let first = || new_filter(conf, &device()).unwrap();
    let tex = || texture(1, 1920, 1080, ColorFormat::ARGB8UNorm);
    let e = first().created::<u32>(Err("no input".to_string())).unwrap_err();
    assert!(matches!(e, RhinoError::UnRecoverable(s) if s == "no input"));
    let e = first().created(Ok(tex())).unwrap().created(Err("no output".to_string())).unwrap_err();
    assert!(matches!(e, RhinoError::UnRecoverable(s) if s == "no output"));
    let wanted = first().created(Ok(tex())).unwrap().created(Ok(tex())).unwrap();
    let e = wanted.built(Err(DxFilterErr::Unknown("x".to_string()))).unwrap_err();
    assert!(matches!(e, RhinoError::UnRecoverable(s) if s == "Unknown(\"x\")"));
}

#[test]
fn configuring_a_filter() {
    let mut filter = made("-c nv12 -r 64x32");
    let c = DxColorConfig::from_str("-c ayuv -r 8x4").unwrap();
    assert_eq!(filter.configure(&c), request(8, 4, 103, Bind::RenderTarget));
    let e = filter.output_created(Err("full".to_string())).unwrap_err();
    assert!(matches!(e, RhinoError::UnRecoverable(s) if s == "full"));
    assert_eq!(filter.output_tex.raw, 2);
    filter.output_created(Ok(texture(9, 8, 4, ColorFormat::NV12))).unwrap();
    assert_eq!(filter.output_tex.raw, 9);
    let e = filter.output_set(c, Err(DxFilterErr::BadParam("b".to_string()))).unwrap_err();
    assert!(matches!(e, RhinoError::Unexpected(s) if s == "BadParam(\"b\")"));
    assert_eq!(filter.config.color, DxColorFilterType::NV12Filter);
    filter.output_set(c, Ok(())).unwrap();
    assert_eq!(filter.config, c);
    assert_eq!(filter.out_format, ColorFormat::NV12);
}

#[test]
fn input_settles() {
    let mut filter = made("-r 64x32");
    assert_eq!(filter.apply_filter(&frame(5, 64, 32)), None);
    let needed = filter.apply_filter(&frame(5, 128, 96));
    assert_eq!(needed, Some(request(128, 96, 28, Bind::ShaderResource)));
    let e = filter.input_created(Err("full".to_string())).unwrap_err();
    assert!(matches!(e, RhinoError::UnRecoverable(s) if s == "full"));
    filter.input_created(Ok(texture(6, 128, 96, ColorFormat::ARGB8UNorm))).unwrap();
    assert_eq!(filter.apply_filter(&frame(7, 128, 96)), None);
    assert!(filter.apply_filter(&frame(5, 64, 32)).is_some());
    assert!(filter.input_set(Ok(())).is_ok());
    let e = filter.input_set(Err(DxFilterErr::NoError)).unwrap_err();
    assert!(matches!(e, RhinoError::Unexpected(s) if s == "Ok"));
}

#[test]
fn filtered_frames_start_with_their_source() {
    let filter = made("-c ayuv -r 64x32");
    let first = frame(5, 64, 32);
    let out = filter.filtered(&first, Ok(())).unwrap();
    assert_eq!(out.start_time, first.start_time);
    match out.data {
        FrameType::Dx11Frame(tex) => {
            assert_eq!(tex.raw, 2);
            assert_eq!(tex.desc.format, ColorFormat::AYUV);
        }
    }
    let e = filter.filtered(&first, Err(DxFilterErr::Unknown("gone".to_string()))).unwrap_err();
    assert!(matches!(e, RhinoError::UnRecoverable(s) if s == "Unknown(\"gone\")"));
}
