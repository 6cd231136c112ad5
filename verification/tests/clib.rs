use rhinostream::clib::{
    build_stream, configure_filter, configure_processor, configure_source, frame_wanted, get_data,
    get_next_frame, new_stream_builder, options_handed_over, request_idr, with_filter_opt, with_nvenc_opt,
    with_screen_cap_opt, Error, StreamBuilder,
};
use rhinostream::errors::RhinoError;
use rhinostream::filter::{DxColorConfig, DxColorFilterType};
use rhinostream::processor::nvenc::{
    AdaptiveQuantization, MultiPass, NvencCodec, NvencColor, Preset, Profile, TuningInfo,
};
use rhinostream::stream::SignalType;
use rhinostream::{Packet, Resolution};

fn packet(n: u8) -> Packet {
    let mut p = Packet::new();
    p.data.push(n);
    p
}

#[test]
fn builder_takes_options() {
    let full_hd = Resolution { width: 1920, height: 1080 };
    let mut b = new_stream_builder();
    let opt: &[u8] = b"--screen 0 -r 1920x1080 -f 60.0";
    assert_eq!(with_screen_cap_opt(Some(&mut b), Some(opt)), Error::NoError);
    assert_eq!((b.screen_cap_config.adapter, b.screen_cap_config.screen), (0, 0));
    let rate = b.screen_cap_config.refresh_rate.as_str().parse::<f32>();
    assert_eq!(rate, Ok(60.0));
    assert_eq!(b.screen_cap_config.resolution, Some(full_hd));
    assert!(!b.screen_cap_config.skip_cursor);
    assert_eq!(with_filter_opt(Some(&mut b), b"-c nv12 -r 1920x1080"), Error::NoError);
    let color = DxColorFilterType::NV12Filter;
    assert_eq!(b.filter_config, DxColorConfig { resolution: full_hd, color });
    let opt = b"-p p4 --profile auto --multi-pass disabled --aq disabled -t \
        low_latency -r 1920x1080 --codec hevc --color nv12 -b 10000000 -f 60";
    assert_eq!(with_nvenc_opt(Some(&mut b), opt), Error::NoError);
    let c = &b.nvenc_config;
    assert_eq!(c.level, None);
    assert_eq!(c.preset, Preset::P4);
    assert_eq!(c.profile, Profile::Auto);
    assert_eq!(c.multi_pass, MultiPass::Disabled);
    assert_eq!(c.tuning_info, TuningInfo::LowLatency);
    assert_eq!(c.color, NvencColor::NV12);
    assert_eq!(c.codec, NvencCodec::HEVC);
    assert_eq!(c.aq, AdaptiveQuantization::Disabled);
    assert_eq!(c.resolution, full_hd);
    assert_eq!(c.bitrate, 10_000_000);
    assert_eq!(c.framerate.as_str().parse::<f32>(), Ok(60.0));
}

#[test]
fn builder_refuses_options() {
    let mut b = new_stream_builder();
    assert_eq!(with_screen_cap_opt(Some(&mut b), None), Error::InvalidInput);
    assert_eq!(with_screen_cap_opt(Some(&mut b), Some(b"--screen \xff")), Error::InvalidInput);
    assert_eq!(with_screen_cap_opt(Some(&mut b), Some(b"--screen x")), Error::InvalidConfig);
    assert_eq!(with_filter_opt(Some(&mut b), b"\xc3"), Error::InvalidInput);
    assert_eq!(with_filter_opt(Some(&mut b), b"-c red"), Error::InvalidConfig);
    assert_eq!(with_nvenc_opt(Some(&mut b), b"\xed\xa0\x80"), Error::InvalidInput);
    assert_eq!(with_nvenc_opt(Some(&mut b), "-c \u{00e9}".as_bytes()), Error::InvalidConfig);
    assert_eq!(with_screen_cap_opt(None, Some(b"")), Error::InvalidInput);
    assert_eq!(with_screen_cap_opt(None, None), Error::InvalidInput);
    assert_eq!(with_filter_opt(None, b""), Error::InvalidInput);
    assert_eq!(with_nvenc_opt(None, b"-c av1"), Error::InvalidInput);
    assert_eq!(b.screen_cap_config.screen, 0);
    assert_eq!(b.filter_config.color, DxColorFilterType::RGBFilter);
    assert_eq!(b.nvenc_config.bitrate, 5_000_000);
}

#[test]
fn streams_are_built_in_order() {
    let mut kept = Box::new(new_stream_builder());
    with_nvenc_opt(Some(&mut *kept), b"-b 8");
    let (e, back) = build_stream(Some(kept), false).unwrap_err();
    assert_eq!((e, back.unwrap().nvenc_config.bitrate), (Error::InvalidInput, 8));
    assert!(matches!(build_stream(None, true), Err((Error::InvalidInput, None))));
    assert!(matches!(build_stream(None, false), Err((Error::InvalidInput, None))));
    let mut b = StreamBuilder::default();
    with_filter_opt(Some(&mut b), b"-c ayuv");
    with_nvenc_opt(Some(&mut b), b"-b 9");
    let first = || build_stream(Some(Box::new(b.clone())), true).unwrap();
    let failed = || RhinoError::NotFound;
    assert_eq!(first().screen_cap_config.screen, 0);
    let e = first().source_made::<u8>(Err(failed())).unwrap_err();
    assert_eq!(e, Error::InvalidConfig);
    let (source, wanted) = first().source_made(Ok(1)).unwrap();
    assert_eq!((source, wanted.filter_config.color), (1, DxColorFilterType::AYUVFilter));
    assert_eq!(wanted.filter_made::<u8>(Err(failed())).unwrap_err(), Error::InvalidConfig);
    let (_, wanted) = first().source_made(Ok(1)).unwrap();
    let (filter, wanted) = wanted.filter_made(Ok(2)).unwrap();
    assert_eq!((filter, wanted.nvenc_config.bitrate), (2, 9));
    let (encoder, wanted) = wanted.encoder_made(Ok(3)).unwrap();
    assert_eq!((encoder, wanted.started(Ok(4)).unwrap()), (3, 4));
    let second = || first().source_made(Ok(1)).unwrap().1.filter_made(Ok(2)).unwrap().1;
    assert_eq!(second().encoder_made::<u8>(Err(failed())).unwrap_err(), Error::InvalidConfig);
    let last = second().encoder_made(Ok(3)).unwrap().1;
    assert_eq!(last.started::<u8>(Err(failed())).unwrap_err(), Error::InitFailed);
}

#[test]
fn callers_see_errors() {
    let text = || "x".to_string();
    for (e, seen) in [
        (RhinoError::UnSupported, Error::InvalidConfig),
        (RhinoError::NotFound, Error::NotFound),
        (RhinoError::Exiting, Error::Exiting),
        (RhinoError::Recoverable(text()), Error::Recoverable),
        (RhinoError::UnRecoverable(text()), Error::UnRecoverable),
        (RhinoError::ParseError(text()), Error::InvalidInput),
        (RhinoError::Unexpected(text()), Error::UnRecoverable),
        (RhinoError::Timedout, Error::Timeout),
    ] {
        let mut mine = packet(1);
        let (r, used) = get_next_frame(&mut mine, Some(Some(Err(e))));
        assert_eq!(r, seen);
        assert!(used.is_none());
        assert_eq!(mine.data, vec![1]);
    }
    let mut mine = packet(1);
    let (r, used) = get_next_frame(&mut mine, Some(Some(Ok(packet(2)))));
    assert_eq!((r, used.unwrap().data), (Error::NoError, vec![1]));
    assert_eq!(mine.data, vec![2]);
    assert_eq!(get_next_frame(&mut mine, Some(None)).0, Error::NoError);
    assert_eq!(get_next_frame(&mut mine, None).0, Error::Timeout);
}

#[test]
fn frames_need_a_stream_and_a_packet() {
    let mut mine = packet(1);
    let missing: Option<u8> = None;
    assert_eq!(frame_wanted(missing, Some(&mut mine)).unwrap_err(), Error::InvalidInput);
    assert_eq!(frame_wanted(Some(5), missing), Err(Error::InvalidInput));
    assert_eq!(frame_wanted(missing, missing), Err(Error::InvalidInput));
    let (stream, wanted) = frame_wanted(Some(5), Some(&mut mine)).unwrap();
    assert_eq!((stream, &wanted.data), (5, &vec![1]));
    assert_eq!(mine.data, vec![1]);
}

#[test]
fn data_of_a_packet() {
    let p = packet(7);
    let seven: &[u8] = &[7];
    assert_eq!(get_data(Some(&p), true), Ok(seven));
    assert_eq!(get_data(Some(&p), false), Err(Error::InvalidInput));
    assert_eq!(get_data(None, true), Err(Error::InvalidInput));
}

#[test]
fn options_of_running_stages() {
    assert_eq!(configure_source(b"-s 2").unwrap().screen, 2);
    assert_eq!(configure_source(b"-s x").unwrap_err(), Error::InvalidInput);
    assert_eq!(configure_source(b"\x80").unwrap_err(), Error::InvalidInput);
    assert_eq!(configure_filter(b"-c nv12").unwrap().color, DxColorFilterType::NV12Filter);
    assert_eq!(configure_filter(b"-c").unwrap_err(), Error::InvalidInput);
    assert_eq!(configure_processor(b"-b 3").unwrap().bitrate, 3);
    assert_eq!(configure_processor(b"-b -3").unwrap_err(), Error::InvalidInput);
    assert_eq!(options_handed_over(Ok(())), Error::NoError);
    assert_eq!(options_handed_over(Err(RhinoError::Exiting)), Error::InvalidInput);
    assert_eq!(request_idr(), SignalType::Processor(1));
}
