use std::str::FromStr;
use std::time::{Duration, Instant};

use rhinostream::errors::RhinoError;
use rhinostream::processor::nvenc::encoder::{
    CollectorAction, LockedOutput, NvEnc, COMPLETE_CAPACITY, EVENT_TIMEOUT_MS, WAIT_CAPACITY,
};
use rhinostream::processor::nvenc::executor::{ItemStep, NvExecutor, PicFlags};
use rhinostream::processor::nvenc::params::{
    get_init_params, get_nvenc_preset_conf, get_profile_guid, get_vbv_buffer_size, CodecConfig,
    GopLength, H264Config, HevcConfig, PresetReply, PresetRequest, RcParams, VideoSignal,
};
use rhinostream::processor::nvenc::pool::{
    NvAsyncEvent, NvBitstreamBuffer, NvMappedResource, NvQueueItem, NvRegisteredResource,
    NvResEventGroup, NvencPool,
};
use rhinostream::processor::nvenc::types::{BufferFormat, Guid, MultiPassMode, Tuning};
use rhinostream::processor::nvenc::{
    MultiPass, NvencCodec, NvencColor, NvencConfig, Preset, Profile, TuningInfo,
};
use rhinostream::processor::FRAME_CAPACITY;
use rhinostream::rate::FrameRate;
use rhinostream::texture::Bind;
use rhinostream::{ColorFormat, Context, DxContext, Packet, PacketKind, Texture, TextureDesc};

const SIXTY: FrameRate = FrameRate { whole: 60, centi: 6000, period_ms: 16 };

fn config(s: &str) -> NvencConfig {
    NvencConfig::from_str(s).unwrap()
}

fn bt709() -> VideoSignal {
    VideoSignal {
        video_signal_type_present_flag: 1,
        video_format: 5,
        video_full_range_flag: 0,
        colour_description_present_flag: 1,
        colour_primaries: 1,
        transfer_characteristics: 1,
        colour_matrix: 1,
    }
}

fn reply() -> PresetReply {
    PresetReply {
        rc_params: RcParams {
            zero_reorder_delay: 0,
            average_bit_rate: 7,
            vbv_buffer_size: 7,
            multi_pass: MultiPassMode::TwoPassFullResolution,
            enable_aq: 0,
            enable_temporal_aq: 0,
        },
        level: 50,
    }
}

fn desc(width: u32, height: u32) -> TextureDesc {
    TextureDesc { height, width, format: ColorFormat::NV12 }
}

fn group(n: u64, desc: TextureDesc) -> NvResEventGroup<u64> {
    let res = NvRegisteredResource::new(Texture { raw: n, desc }, 0, n + 1).unwrap();
    let event = NvAsyncEvent::new(n + 2, 0).unwrap();
    NvResEventGroup::new(res, event, NvBitstreamBuffer::new(0, n + 3).unwrap())
}

fn executor(s: &str) -> NvExecutor<u64> {
    let conf = config(s);
    let preset = get_nvenc_preset_conf(&conf, SIXTY, 0, reply()).unwrap();
    let params = get_init_params(&conf, SIXTY);
    NvExecutor::new(preset, conf, SIXTY, params)
}

#[test]
fn profiles() {
    let auto = Guid::ProfileAutoselect;
    for color in [NvencColor::ARGB, NvencColor::NV12, NvencColor::YUV444_10bit] {
        let h264 = |p| get_profile_guid(color, NvencCodec::H264, p);
        assert_eq!(h264(Profile::Auto), auto);
        assert_eq!(h264(Profile::Constrained), Guid::H264ProfileConstrainedHigh);
        assert_eq!(h264(Profile::Baseline), Guid::H264ProfileBaseline);
        assert_eq!(h264(Profile::Main), Guid::H264ProfileMain);
        assert_eq!(h264(Profile::High), Guid::H264ProfileHigh);
        assert_eq!(get_profile_guid(color, NvencCodec::HEVC, Profile::Auto), auto);
        for p in [Profile::Constrained, Profile::Baseline, Profile::Main, Profile::High] {
            assert_eq!(get_profile_guid(color, NvencCodec::HEVC, p), Guid::HevcProfileMain);
        }
    }
    for color in [NvencColor::YUV444, NvencColor::AYUV] {
        for p in [Profile::Auto, Profile::Baseline, Profile::High] {
            assert_eq!(get_profile_guid(color, NvencCodec::H264, p), Guid::H264ProfileHigh444);
            assert_eq!(get_profile_guid(color, NvencCodec::HEVC, p), Guid::HevcProfileFrext);
        }
    }
}

#[test]
fn buffer_sizes() {
    assert_eq!(get_vbv_buffer_size(120, 10_000_000, 6000), 200_000);
    assert_eq!(get_vbv_buffer_size(120, 10_000_000, 14400), 83_333);
    assert_eq!(get_vbv_buffer_size(100, 1, 6000), 0);
    let size = get_vbv_buffer_size(120, 7_654_321, 5994);
    assert!(size * 5994 <= 7_654_321 * 120 && 7_654_321 * 120 < (size + 1) * 5994);
    let conf = config("-b 4294967297");
    let preset = get_nvenc_preset_conf(&conf, SIXTY, 0, reply()).unwrap();
    assert_eq!(preset.rc_params.average_bit_rate, 1);
    assert_eq!(preset.rc_params.vbv_buffer_size, 85_899_345);
}

#[test]
fn preset_of_an_h264_stream() {
    let conf = config("-c h264 -b 6000000 --multi-pass quarter_res --aq spacial --level 52");
    let p = get_nvenc_preset_conf(&conf, SIXTY, 0, reply()).unwrap();
    assert_eq!(
        p.rc_params,
        RcParams {
            zero_reorder_delay: 1,
            average_bit_rate: 6_000_000,
            vbv_buffer_size: 120_000,
            multi_pass: MultiPassMode::TwoPassQuarterResolution,
            enable_aq: 1,
            enable_temporal_aq: 0,
        }
    );
    assert_eq!(p.gop_length, GopLength::Infinite);
    assert_eq!(
        p.codec,
        CodecConfig::H264(H264Config {
            level: 52,
            vui: bt709(),
            bitstream_restriction_flag: 1,
            vui_reserved: (1, 0, 0, 11, 11, 0, 1),
            enable_filler_data_insertion: 0,
            output_buffering_period_sei: 0,
            output_picture_timing_sei: 0,
            output_aud: 0,
            output_frame_packing_sei: 0,
            output_recovery_point_sei: 0,
            enable_scalability_info_sei: 0,
            disable_svc_prefix_nalu: 1,
            enable_intra_refresh: 1,
            intra_refresh_cnt: 10,
            intra_refresh_period: 500,
        })
    );
    assert_eq!(p.chroma_format_idc, 1);
}

#[test]
fn preset_of_an_hevc_stream() {
    let conf = config("-c hevc --color yuv444 --aq temporal");
    let p = get_nvenc_preset_conf(&conf, SIXTY, 0, reply()).unwrap();
    assert_eq!((p.rc_params.enable_aq, p.rc_params.enable_temporal_aq), (0, 1));
    assert_eq!(p.rc_params.multi_pass, MultiPassMode::Disabled);
    assert_eq!(
        p.codec,
        CodecConfig::Hevc(HevcConfig {
            level: 50,
            vui: bt709(),
            enable_alpha_layer_encoding: 0,
            enable_filler_data_insertion: 0,
            output_buffering_period_sei: 0,
            output_picture_timing_sei: 0,
            output_aud: 0,
            enable_intra_refresh: 1,
            intra_refresh_cnt: 10,
            intra_refresh_period: 500,
        })
    );
    assert_eq!(p.chroma_format_idc, 3);
    let ayuv = get_nvenc_preset_conf(&config("--color ayuv"), SIXTY, 0, reply()).unwrap();
    assert_eq!(ayuv.chroma_format_idc, 1);
    assert!(matches!(ayuv.codec, CodecConfig::H264(c) if c.level == 50));
    assert_eq!((ayuv.rc_params.enable_aq, ayuv.rc_params.enable_temporal_aq), (0, 0));
    let e = get_nvenc_preset_conf(&conf, SIXTY, 8, reply()).unwrap_err();
    assert!(matches!(e, RhinoError::Unexpected(s) if s == "Nvenc Status: 8"));
}

#[test]
fn requests_and_starting_parameters() {
    let conf = config("-p p2 -c hevc -t ultra_low_latency --color ayuv -r 640x480 -f 60");
    let r = PresetRequest::new(&conf);
    assert_eq!(r.profile_guid, Guid::HevcProfileFrext);
    assert_eq!(r.encode_guid, Guid::CodecHevc);
    assert_eq!(r.preset_guid, Guid::PresetP2);
    assert_eq!(r.tuning_info, Tuning::UltraLowLatency);
    let p = get_init_params(&conf, SIXTY);
    assert_eq!((p.encode_width, p.encode_height, p.dar_width, p.dar_height), (640, 480, 640, 480));
    assert_eq!((p.max_encode_width, p.max_encode_height), (3840, 3840));
    assert_eq!((p.frame_rate_num, p.frame_rate_den), (60, 1));
    assert_eq!(p.buffer_format, BufferFormat::Ayuv);
    assert_eq!((p.preset_guid, p.encode_guid), (Guid::PresetP2, Guid::CodecHevc));
    assert_eq!((p.enable_encode_async, p.enable_ptd, p.report_slice_offsets), (1, 1, 1));
    assert_eq!((p.enable_sub_frame_write, p.enable_output_in_vidmem), (0, 0));
}

#[test]
fn names_of_the_driver() {
    let presets = [Preset::P1, Preset::P3, Preset::P4, Preset::P5, Preset::P6, Preset::P7];
    let guids = [
        Guid::PresetP1, Guid::PresetP3, Guid::PresetP4, Guid::PresetP5, Guid::PresetP6, Guid::PresetP7,
    ];
    for (p, g) in presets.into_iter().zip(guids) {
        assert_eq!(p.into(), g);
    }
    let h264: Guid = NvencCodec::H264.into();
    assert_eq!(h264, Guid::CodecH264);
    for (c, f) in [
        (NvencColor::ARGB, BufferFormat::Argb),
        (NvencColor::ABGR, BufferFormat::Abgr),
        (NvencColor::YUV444, BufferFormat::Yuv444),
        (NvencColor::YUV420, BufferFormat::Iyuv),
        (NvencColor::NV12, BufferFormat::Nv12),
        (NvencColor::YUV444_10bit, BufferFormat::Yuv444TenBit),
        (NvencColor::ARGB_10bit, BufferFormat::Argb10),
        (NvencColor::ABGR_10bit, BufferFormat::Abgr10),
        (NvencColor::YUV420_10bit, BufferFormat::Yuv420TenBit),
    ] {
        assert_eq!(c.into(), f);
    }
    let full: MultiPassMode = MultiPass::FullRes.into();
    assert_eq!(full, MultiPassMode::TwoPassFullResolution);
    let low: Tuning = TuningInfo::LowLatency.into();
    assert_eq!(low, Tuning::LowLatency);
    for (f, c) in [
        (ColorFormat::Unknown, NvencColor::ARGB),
        (ColorFormat::ARGB8UNorm, NvencColor::ARGB),
        (ColorFormat::ABGR8UNorm, NvencColor::ABGR),
        (ColorFormat::YUV444, NvencColor::YUV444),
        (ColorFormat::AYUV, NvencColor::AYUV),
        (ColorFormat::YUV420, NvencColor::YUV420),
        (ColorFormat::NV12, NvencColor::NV12),
        (ColorFormat::ARGB16Float, NvencColor::ARGB_10bit),
        (ColorFormat::ARGB10UNorm, NvencColor::ARGB_10bit),
        (ColorFormat::YUV444_10bit, NvencColor::YUV444_10bit),
        (ColorFormat::YUV420_10bit, NvencColor::YUV420_10bit),
    ] {
        assert_eq!(NvencColor::from(f), c);
    }
}

#[test]
fn pool_keeps_items_of_its_kind() {
    let mut pool: NvencPool<u64> = NvencPool::new();
    assert_eq!(pool.get_desc(), TextureDesc { height: 0, width: 0, format: ColorFormat::Unknown });
    assert!(pool.get_item().is_none());
    assert!(pool.configure(&desc(8, 4)).is_empty());
    assert!(pool.put_back(NvQueueItem::new(group(10, desc(8, 4)))).is_none());
    assert!(pool.put_back(NvQueueItem::new(group(20, desc(8, 4)))).is_none());
    let out = pool.put_back(NvQueueItem::new(group(30, desc(4, 8)))).unwrap();
    assert_eq!(out.resource.res.raw, 30);
    let item = pool.get_item().unwrap();
    assert_eq!(item.get_resource().res.raw, 20);
    assert!(pool.put_back(item).is_none());
    assert!(pool.configure(&desc(8, 4)).is_empty());
    let released = pool.configure(&desc(2, 2));
    assert_eq!(released.len(), 2);
    assert_eq!(released[0].get_resource().reg_resource, 11);
    assert!(pool.get_item().is_none());
    assert_eq!(pool.get_desc(), desc(2, 2));
}

#[test]
fn new_items_of_the_pool() {
    let r = NvencPool::<u64>::new_item(&desc(8, 4));
    assert_eq!((r.width, r.height, r.format, r.bind), (8, 4, 103, Bind::RenderTarget));
    let tex = Texture { raw: 1u64, desc: desc(8, 4) };
    assert_eq!(NvencPool::item_texture(Ok(tex)).unwrap().raw, 1);
    let e = NvencPool::<u64>::item_texture(Err("E_FAIL".to_string())).unwrap_err();
    assert!(matches!(e, RhinoError::Unexpected(s) if s == "failed to create texture. E_FAIL"));
    let tex = Texture { raw: 1u64, desc: desc(8, 4) };
    let r = NvRegisteredResource::register_resource(&tex);
    assert_eq!((r.width, r.height, r.buffer_format), (8, 4, BufferFormat::Nv12));
    let (e, tex) = NvRegisteredResource::new(tex, 9, 0).unwrap_err();
    assert!(matches!(e, RhinoError::Unexpected(s) if s == "Nvenc Status: 9"));
    assert_eq!(tex.raw, 1);
    assert_eq!(NvAsyncEvent::created(Ok(5)).unwrap(), 5);
    let e = NvAsyncEvent::created(Err("no event".to_string())).unwrap_err();
    assert!(matches!(e, RhinoError::Unexpected(s) if s == "no event"));
    assert!(NvAsyncEvent::new(5, 2).is_err());
    assert_eq!(NvAsyncEvent::new(5, 0).unwrap().handle(), 5);
    assert!(NvBitstreamBuffer::new(2, 5).is_err());
    assert_eq!(NvBitstreamBuffer::new(0, 5).unwrap().buffer_ptr(), 5);
}

#[test]
fn items_are_let_go_once() {
    let mut item = NvQueueItem::new(group(10, desc(8, 4)));
    assert!(item.let_go(false).is_none());
    let start = item.start_time;
    let back = item.let_go(true).unwrap();
    assert_eq!(back.start_time, start);
    assert_eq!(back.get_event().event, 12);
    assert_eq!(back.get_bitstream_buffer().buffer_ptr, 13);
    assert_eq!(back.map_resource(), 11);
    assert!(item.item.is_none());
    assert!(item.let_go(true).is_none());
    let (e, item) = NvMappedResource::new(back, 4, 0).unwrap_err();
    assert!(matches!(e, RhinoError::Unexpected(s) if s == "Nvenc Status: 4"));
    let mut item = item;
    item.get_bitstream_buffer_mut().buffer_ptr = 14;
    assert_eq!(item.get_bitstream_buffer().buffer_ptr(), 14);
    item.get_bitstream_buffer_mut().buffer_ptr = 13;
    let mapped = NvMappedResource::new(item, 0, 99).unwrap();
    assert_eq!((mapped.mapped_res, mapped.get_event().event), (99, 12));
    assert_eq!(mapped.get_bitstream_buffer().buffer_ptr, 13);
}

#[test]
fn frames_of_another_kind_change_the_encoder() {
    let mut exec = executor("-r 640x480 -b 6000000 -f 60");
    let step = exec.push_frame(desc(1280, 720), SIXTY);
    let request = step.reconfigure.unwrap();
    assert_eq!(request.force_idr, 1);
    assert_eq!((request.init_params.encode_width, request.init_params.encode_height), (1280, 720));
    assert_eq!((request.init_params.dar_width, request.init_params.dar_height), (640, 480));
    assert_eq!(request.preset.rc_params.average_bit_rate, 6_000_000);
    assert_eq!((exec.config.resolution.width, exec.config.resolution.height), (1280, 720));
    let start = Instant::now();
    match exec.get_item(start) {
        ItemStep::Create(r) => assert_eq!((r.width, r.height, r.format), (1280, 720, 103)),
        ItemStep::Ready(_) => panic!("no item yet"),
    }
    let item = NvExecutor::item_made(group(10, desc(1280, 720)), start);
    assert_eq!(item.start_time, start);
    assert!(exec.pool.put_back(item).is_none());
    let step = exec.push_frame(desc(1280, 720), SIXTY);
    assert!(step.reconfigure.is_none() && step.released.is_empty());
    let later = start + Duration::from_millis(1);
    match exec.get_item(later) {
        ItemStep::Ready(item) => {
            assert_eq!(item.start_time, later);
            assert_eq!(item.get_resource().res.raw, 10);
            exec.pool.put_back(item);
        }
        ItemStep::Create(_) => panic!("there is an item"),
    }
    let step = exec.push_frame(desc(640, 480), SIXTY);
    assert_eq!(step.released.len(), 1);
    assert!(step.reconfigure.is_some());
}

#[test]
fn a_signal_makes_one_key_frame() {
    let mut exec = executor("-r 640x480");
    assert_eq!(exec.pic_params.input_duration, 16);
    assert_eq!((exec.pic_params.input_width, exec.pic_params.input_height), (640, 480));
    assert_eq!(exec.pic_params.buffer_fmt, BufferFormat::Argb);
    let mapped = NvMappedResource::new(NvQueueItem::new(group(10, desc(8, 4))), 0, 99).unwrap();
    let plain = PicFlags { output_spspps: false, force_idr: false };
    let key = PicFlags { output_spspps: true, force_idr: true };
    let p = exec.get_enc_picparams(&mapped, 5);
    assert_eq!(p.encode_pic_flags, plain);
    assert_eq!((p.input_buffer, p.input_time_stamp), (99, 5));
    assert_eq!((p.output_bitstream, p.completion_event), (13, 12));
    assert!(exec.signal(1).is_ok());
    assert_eq!(exec.get_enc_picparams(&mapped, 6).encode_pic_flags, key);
    assert_eq!(exec.get_enc_picparams(&mapped, 7).encode_pic_flags, plain);
    assert!(exec.signal(8).is_ok());
    assert!(exec.signal(0).is_ok());
    assert_eq!(exec.get_enc_picparams(&mapped, 8).encode_pic_flags, plain);
    let (e, mapped) = NvExecutor::encoded(mapped, 11).unwrap_err();
    assert!(matches!(e, RhinoError::Unexpected(s) if s == "Nvenc Status: 11"));
    assert_eq!(NvExecutor::encoded(mapped, 0).unwrap().mapped_res, 99);
}

#[test]
fn configuring_settles() {
    let mut exec = executor("-r 640x480 -b 6000000 -f 60");
    let rate = FrameRate { whole: 30, centi: 3000, period_ms: 33 };
    let first = exec.configure(config("-r 320x240 -b 3000000 -f 30"), rate);
    assert_eq!((first.init_params.encode_width, first.init_params.encode_height), (320, 240));
    assert_eq!((first.init_params.frame_rate_num, first.init_params.frame_rate_den), (30, 1));
    assert_eq!(first.preset.rc_params.vbv_buffer_size, 120_000);
    assert_eq!(exec.config.bitrate, 6_000_000);
    let second = exec.configure(config("-r 320x240 -b 3000000 -f 30"), rate);
    assert_eq!(first, second);
    let opened = executor("-r 320x240 -b 3000000 -f 30");
    let rc = get_nvenc_preset_conf(&opened.config, rate, 0, reply()).unwrap().rc_params;
    assert_eq!(rc.average_bit_rate, second.preset.rc_params.average_bit_rate);
    assert_eq!(rc.vbv_buffer_size, second.preset.rc_params.vbv_buffer_size);
}

#[test]
fn opening_an_encoder() {
    let ctx = Context::DxContext(DxContext { device: () });
    let empty: Context<()> = Context::Empty;
    let conf = config("-r 640x480");
    let new = |ctx: &Context<()>, status| NvEnc::<u8, u16>::new(ctx, &conf, status);
    assert!(matches!(new(&ctx, 15), Err(RhinoError::Unexpected(s)) if s == "Nvenc Status: 15"));
    assert!(matches!(new(&empty, 15), Err(RhinoError::Unexpected(_))));
    assert!(matches!(new(&empty, 0), Err(RhinoError::UnSupported)));
    assert!(new(&ctx, 0).unwrap().opened(1).is_err());
    let wanted = new(&ctx, 0).unwrap().opened(0).unwrap();
    assert_eq!(wanted.request, PresetRequest::new(&conf));
    assert!(wanted.replied(SIXTY, 3, reply()).is_err());
    let wanted = new(&ctx, 0).unwrap().opened(0).unwrap().replied(SIXTY, 0, reply()).unwrap();
    assert_eq!(wanted.init_params.encode_width, 640);
    assert_eq!(wanted.preset.gop_length, GopLength::Infinite);
    assert!(wanted.initialized::<u64, u8, u16>(2, 1, 2).is_err());
    let wanted = new(&ctx, 0).unwrap().opened(0).unwrap().replied(SIXTY, 0, reply()).unwrap();
    let (mut enc, exec) = wanted.initialized::<u64, u8, u16>(0, 1, 2).unwrap();
    let nothing = TextureDesc { height: 0, width: 0, format: ColorFormat::Unknown };
    assert_eq!(exec.pool.get_desc(), nothing);
    assert_eq!((exec.signal, exec.config.resolution.width), (0, 640));
    assert_eq!(enc.get_queue().unwrap(), 1);
    let e = enc.get_queue().unwrap_err();
    assert!(matches!(e, RhinoError::Recoverable(s) if s == "get_queue can only be run once"));
    assert_eq!(enc.get_packet(), Some(2));
    assert_eq!(enc.get_packet(), None);
    let capacities = (FRAME_CAPACITY, WAIT_CAPACITY, COMPLETE_CAPACITY, EVENT_TIMEOUT_MS);
    assert_eq!(capacities, (1, 4, 3, 5000));
}

#[test]
fn collectors() {
    let send = NvEnc::<u8, u8>::frame_collector(Ok(5));
    assert!(matches!(send, CollectorAction::Send(5)));
    let exit = NvEnc::<u8, u8>::frame_collector::<u8>(Err(RhinoError::Timedout));
    assert!(matches!(exit, CollectorAction::Exit));
    assert!(matches!(NvEnc::<u8, u8>::frame_handed_on::<u8>(true), CollectorAction::NextFrame));
    assert!(matches!(NvEnc::<u8, u8>::frame_handed_on::<u8>(false), CollectorAction::Exit));
    let start_time = Instant::now();
    let elapsed = Duration::from_millis(3);
    let slice: &[u8] = &[1, 2, 3];
    let locked = |status| Some(LockedOutput { status, slice, start_time, elapsed });
    let mut packet = Packet::new();
    packet.data = vec![9; 10];
    let p = NvEnc::<u8, u8>::collect_output(packet, locked(0)).unwrap();
    assert_eq!(p.data, vec![1, 2, 3]);
    assert_eq!(p.kind, PacketKind::Video);
    assert_eq!((p.start_time, p.encode_time), (start_time, elapsed));
    let e = NvEnc::<u8, u8>::collect_output(Packet::new(), locked(8)).unwrap_err();
    assert!(matches!(e, RhinoError::Unexpected(s) if s == "Nvenc Status: 8"));
    let e = NvEnc::<u8, u8>::collect_output(Packet::new(), None).unwrap_err();
    assert!(matches!(e, RhinoError::Exiting));
}
