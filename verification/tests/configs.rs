use std::str::FromStr;

use clap::builder::{ValueParser, ValueParserFactory};
use clap::{Arg, ArgAction, Command};
use rhinostream::filter::{DxColorConfig, DxColorFilterType};
use rhinostream::processor::nvenc::{
    AdaptiveQuantization, MultiPass, NvencCodec, NvencColor, NvencConfig, Preset, Profile,
    TuningInfo,
};
use rhinostream::processor::DummyConfig;
use rhinostream::rate::Rate;
use rhinostream::source::ScreenCapConfig;
use rhinostream::{FromOptions, Resolution};

fn rate(r: &Rate) -> f32 {
    r.as_str().parse::<f32>().unwrap()
}

fn text(s: &str) -> Option<String> {
    Some(s.to_string())
}

#[test]
fn test_config() {
    let conf: ScreenCapConfig = "--screen 1 -r 1920x1080 -f 60.0".parse().unwrap();
    assert_eq!(conf.adapter, 0);
    assert_eq!(conf.screen, 1);
    assert_eq!(rate(&conf.refresh_rate), 60.0);
    assert_eq!(conf.resolution, Some(Resolution { width: 1920, height: 1080 }));
    assert_eq!(conf.skip_cursor, false);
    let filter_conf = DxColorConfig::from_str("-c nv12 -r 1920x1080").unwrap();
    assert_eq!(
        filter_conf,
        DxColorConfig {
            resolution: Resolution { width: 1920, height: 1080 },
            color: DxColorFilterType::NV12Filter,
        }
    );
}

#[test]
fn mod_test_config() {
    let config: NvencConfig = "-p p3 --profile auto --multi-pass quarter_res -t \
        ultra_low_latency -r 1920x1080 --codec hevc --aq spacial --color nv12 -b 10000000 -f 144"
        .parse()
        .unwrap();
    assert_eq!(config.preset, Preset::P3);
    assert_eq!(config.profile, Profile::Auto);
    assert_eq!(config.multi_pass, MultiPass::QuarterRes);
    assert_eq!(config.tuning_info, TuningInfo::UltraLowLatency);
    assert_eq!(config.level, None);
    assert_eq!(config.color, NvencColor::NV12);
    assert_eq!(config.codec, NvencCodec::HEVC);
    assert_eq!(config.aq, AdaptiveQuantization::Spacial);
    assert_eq!(config.resolution, Resolution { width: 1920, height: 1080 });
    assert_eq!(config.bitrate, 10_000_000);
    assert_eq!(rate(&config.framerate), 144.0);
}

#[test]
fn option_strings_of_the_bench() {
    let conf = ScreenCapConfig::from_str("--screen 0").unwrap();
    assert_eq!((conf.adapter, conf.screen, conf.resolution), (0, 0, None));
    let conf = DxColorConfig::from_str("-c rgb -r 2560x1440").unwrap();
    assert_eq!(conf.color, DxColorFilterType::RGBFilter);
    assert_eq!(conf.resolution, Resolution { width: 2560, height: 1440 });
    let conf = NvencConfig::from_str(
        "-p p4 --profile auto --multi-pass disabled --aq disabled -t \
        low_latency -r 1920x1080 --codec hevc --color argb -b 10000000 -f 60",
    )
    .unwrap();
    assert_eq!(conf.color, NvencColor::ARGB);
    assert_eq!(conf.multi_pass, MultiPass::Disabled);
    assert_eq!(conf.tuning_info, TuningInfo::LowLatency);
    assert_eq!(rate(&conf.framerate), 60.0);
}

#[test]
fn defaults_of_blank_strings() {
    for s in ["", " ", "   ", "\t \u{3000} "] {
        let conf = ScreenCapConfig::from_str(s).unwrap();
        assert_eq!((conf.adapter, conf.screen), (0, 0));
        assert_eq!(conf.refresh_rate.as_str(), "0");
        assert_eq!(conf.resolution, None);
        assert!(!conf.skip_cursor);
        let conf = DxColorConfig::from_str(s).unwrap();
        assert_eq!(conf.color, DxColorFilterType::RGBFilter);
        assert_eq!(conf.resolution, Resolution { width: 1920, height: 1080 });
        let conf = NvencConfig::from_str(s).unwrap();
        assert_eq!(conf.preset, Preset::P4);
        assert_eq!(conf.profile, Profile::Auto);
        assert_eq!(conf.level, None);
        assert_eq!(conf.multi_pass, MultiPass::Disabled);
        assert_eq!(conf.tuning_info, TuningInfo::LowLatency);
        assert_eq!(conf.color, NvencColor::ARGB);
        assert_eq!(conf.codec, NvencCodec::H264);
        assert_eq!(conf.aq, AdaptiveQuantization::Disabled);
        assert_eq!(conf.resolution, Resolution { width: 0, height: 0 });
        assert_eq!(conf.bitrate, 5_000_000);
        assert_eq!(conf.framerate.as_str(), "60");
    }
}

#[test]
fn cursor_switch() {
    assert!(ScreenCapConfig::from_str("--skip-cursor").unwrap().skip_cursor);
    assert!(ScreenCapConfig::from_str("--skip-cursor true").unwrap().skip_cursor);
    assert!(ScreenCapConfig::from_str("--skip-cursor=true -s 2").unwrap().skip_cursor);
    assert!(!ScreenCapConfig::from_str("--skip-cursor false").unwrap().skip_cursor);
    assert!(ScreenCapConfig::from_str("--skip-cursor -s 2").unwrap().skip_cursor);
    let e = ScreenCapConfig::from_str("--skip-cursor yes").unwrap_err();
    assert!(e.contains("InvalidValue"), "{}", e);
}

#[test]
fn short_and_long_options() {
    let a = ScreenCapConfig::from_str("-a 1 -s 2 -f 59.94 -r 800x600").unwrap();
    let b = ScreenCapConfig::from_str(
        "--adapter=1 --screen=2 --refresh-rate=59.94 --resolution=800x600",
    )
    .unwrap();
    assert_eq!((a.adapter, a.screen), (1, 2));
    assert_eq!((b.adapter, b.screen), (1, 2));
    assert_eq!(a.refresh_rate.as_str(), "59.94");
    assert_eq!(b.refresh_rate.as_str(), "59.94");
    assert_eq!(a.resolution, b.resolution);
    let c = NvencConfig::from_str("-p p7 -t ultra_low_latency -c hevc -r 640x480 -b 1 -f 1e3 --level 51")
        .unwrap();
    assert_eq!(c.preset, Preset::P7);
    assert_eq!(c.codec, NvencCodec::HEVC);
    assert_eq!(c.bitrate, 1);
    assert_eq!(c.level, Some(51));
    assert_eq!(rate(&c.framerate), 1000.0);
}

#[test]
fn blanks_do_not_matter() {
    let a = DxColorConfig::from_str("-c nv12 -r 1920x1080").unwrap();
    let b = DxColorConfig::from_str("  -c   nv12    -r 1920x1080  ").unwrap();
    assert_eq!(a, b);
}

#[test]
fn refused_strings() {
    for (s, kind) in [
        ("--screen", "InvalidValue"),
        ("--screen x", "ValueValidation"),
        ("--screen -1", "UnknownArgument"),
        ("--screen=-1", "ValueValidation"),
        ("--screen 4294967296", "ValueValidation"),
        ("--screen 1 --screen 2", "ArgumentConflict"),
        ("--unknown", "UnknownArgument"),
        ("stray", "UnknownArgument"),
        ("-f fast", "ValueValidation"),
        ("-r 1920", "ValueValidation"),
        ("-r 1920x", "ValueValidation"),
        ("-h", "DisplayHelp"),
    ] {
        let e = ScreenCapConfig::from_str(s).unwrap_err();
        assert!(e.contains(kind), "{}: {}", s, e);
    }
    assert!(ScreenCapConfig::from_str("-r 1920").unwrap_err().contains("expected WidthxHeight"));
    for s in ["fast", ""] {
        let e = ScreenCapConfig::from_str(&format!("-f={}", s)).unwrap_err();
        let reason = format!("source: Some({:?})", s.parse::<f32>().unwrap_err());
        assert!(e.contains(&reason), "{}", e);
    }
    assert!(ScreenCapConfig::from_str("--screen x").unwrap_err().contains("--screen <SCREEN>"));
    let e = DxColorConfig::from_str("-c yuv").unwrap_err();
    assert!(e.contains("InvalidValue") && e.contains("nv12") && e.contains("ayuv"), "{}", e);
    assert!(DxColorConfig::from_str("-c NV12").is_err());
    for s in [
        "-p p0", "-p P1", "--profile x", "--level -1", "--multi-pass half", "-t fast", "--color red",
        "-c av1", "--aq all", "-r 0", "-b -1", "-b 18446744073709551616", "-f x",
    ] {
        assert!(NvencConfig::from_str(s).is_err(), "{}", s);
    }
    assert_eq!(NvencConfig::from_str("-b 18446744073709551615").unwrap().bitrate, u64::MAX);
}

fn option(id: &'static str, long: &'static str, short: Option<char>, name: &'static str) -> Arg {
    Arg::new(id).long(long).short(short).value_name(name).action(ArgAction::Set)
}

fn debug_error(command: Command, s: &str) -> Option<String> {
    let words = s.split(" ").filter(|x| x.trim().len() != 0);
    let command = command.version("0.1.0").no_binary_name(true);
    command.try_get_matches_from(words).err().map(|e| format!("{:?}", e))
}

#[test]
fn errors_of_a_capture_are_those_of_the_command() {
    let command = || {
        Command::new("rhinostream")
            .arg(
                option("adapter", "adapter", Some('a'), "ADAPTER")
                    .help("index of the screen to capture")
                    .value_parser(u32::value_parser())
                    .default_value("0"),
            )
            .arg(
                option("screen", "screen", Some('s'), "SCREEN")
                    .help("index of the screen to capture")
                    .value_parser(u32::value_parser())
                    .default_value("0"),
            )
            .arg(
                option("refresh_rate", "refresh-rate", Some('f'), "REFRESH_RATE")
                    .help("frame rate to output")
                    .value_parser(f32::from_str)
                    .default_value("0"),
            )
            .arg(
                option("resolution", "resolution", Some('r'), "RESOLUTION")
                    .help("resolution to set for the display")
                    .value_parser(Resolution::from_str),
            )
            .arg(
                option("skip_cursor", "skip-cursor", None, "SKIP_CURSOR")
                    .help("The screen will be captured without cursor")
                    .value_parser(ValueParser::bool())
                    .num_args(0..=1)
                    .default_missing_value("true")
                    .default_value("false"),
            )
    };
    for s in [
        "", "-h", "--help", "-V", "--version", "-f x", "-f=", "--refresh-rate 1,5", "-f nano",
        "--screen", "--screen x", "--screen=-1", "-a 4294967296", "--skip-cursor yes", "-r 1x2x3",
        "-r x", "--scren 1", "stray", "-s 1 -s 2", "-f x -s y", "-s y -f x",
        "-f source:Some(\"invalid\")", "-s source:Some(\"invalid_float_literal\")",
    ] {
        let ours = ScreenCapConfig::from_str(s).err();
        assert_eq!(ours, debug_error(command(), s), "{}", s);
    }
}

#[test]
fn errors_of_a_filter_are_those_of_the_command() {
    let command = || {
        Command::new("rhinostream")
            .arg(
                option("color", "color", Some('c'), "COLOR")
                    .help("used to determine the target color of the image")
                    .value_parser(["nv12", "rgb", "ayuv"])
                    .default_value("rgb"),
            )
            .arg(
                option("resolution", "resolution", Some('r'), "RESOLUTION")
                    .value_parser(Resolution::from_str)
                    .default_value("1920x1080"),
            )
    };
    for s in ["", "-h", "-V", "-c", "-c red", "-c RGB", "-r", "-r 1", "-r 1xy", "-c nv12 -x"] {
        let ours = DxColorConfig::from_str(s).err();
        assert_eq!(ours, debug_error(command(), s), "{}", s);
    }
}

#[test]
fn errors_of_an_encoder_are_those_of_the_command() {
    let words = |a: Arg, list: &[&'static str], default: &'static str| {
        a.value_parser(list.to_vec()).default_value(default)
    };
    let command = || {
        let presets = ["p1", "p2", "p3", "p4", "p5", "p6", "p7"];
        let profiles = ["auto", "constrained", "baseline", "main", "high"];
        let colors = [
            "argb", "abgr", "ayuv", "yuv444", "yuv420", "nv12", "yuv444_10bit", "argb_10bit",
            "abgr_10bit", "yuv420_10bit",
        ];
        let passes = ["disabled", "quarter_res", "full_res"];
        let tunings = ["low_latency", "ultra_low_latency"];
        let aqs = ["disabled", "spacial", "temporal"];
        Command::new("rhinostream")
            .arg(words(option("preset", "preset", Some('p'), "PRESET"), &presets, "p4"))
            .arg(words(option("profile", "profile", None, "PROFILE"), &profiles, "auto"))
            .arg(option("level", "level", None, "LEVEL").value_parser(u32::value_parser()))
            .arg(words(option("multi_pass", "multi-pass", None, "MULTI_PASS"), &passes, "disabled"))
            .arg(words(
                option("tuning_info", "tuning-info", Some('t'), "TUNING_INFO"),
                &tunings,
                "low_latency",
            ))
            .arg(words(option("color", "color", None, "COLOR"), &colors, "argb"))
            .arg(words(option("codec", "codec", Some('c'), "CODEC"), &["h264", "hevc"], "h264"))
            .arg(words(option("aq", "aq", None, "AQ"), &aqs, "disabled"))
            .arg(
                option("resolution", "resolution", Some('r'), "RESOLUTION")
                    .value_parser(Resolution::from_str)
                    .default_value("0x0"),
            )
            .arg(
                option("bitrate", "bitrate", Some('b'), "BITRATE")
                    .value_parser(u64::value_parser())
                    .default_value("5000000"),
            )
            .arg(
                option("framerate", "framerate", Some('f'), "FRAMERATE")
                    .value_parser(f32::from_str)
                    .default_value("60"),
            )
    };
    for s in [
        "", "-h", "--version", "-p", "-p p8", "--profile extended", "--level=-1", "--multi-pass half",
        "-t fast", "--color red", "-c av1", "--aq all", "-r 5", "-b x", "-b 18446744073709551616",
        "-f", "-f sixty", "-f=", "-f 1e", "--frame 60", "-f x -b y",
    ] {
        let ours = NvencConfig::from_str(s).err();
        assert_eq!(ours, debug_error(command(), s), "{}", s);
    }
}

#[test]
fn every_word_of_the_encoder() {
    for (w, v) in [
        ("p1", Preset::P1),
        ("p2", Preset::P2),
        ("p3", Preset::P3),
        ("p4", Preset::P4),
        ("p5", Preset::P5),
        ("p6", Preset::P6),
        ("p7", Preset::P7),
    ] {
        assert_eq!(Preset::from_name(w), Some(v));
        assert_eq!(NvencConfig::from_str(&format!("--preset {}", w)).unwrap().preset, v);
    }
    for (w, v) in [
        ("auto", Profile::Auto),
        ("constrained", Profile::Constrained),
        ("baseline", Profile::Baseline),
        ("main", Profile::Main),
        ("high", Profile::High),
    ] {
        assert_eq!(Profile::from_name(w), Some(v));
        assert_eq!(NvencConfig::from_str(&format!("--profile {}", w)).unwrap().profile, v);
    }
    for (w, v) in [
        ("argb", NvencColor::ARGB),
        ("abgr", NvencColor::ABGR),
        ("ayuv", NvencColor::AYUV),
        ("yuv444", NvencColor::YUV444),
        ("yuv420", NvencColor::YUV420),
        ("nv12", NvencColor::NV12),
        ("yuv444_10bit", NvencColor::YUV444_10bit),
        ("argb_10bit", NvencColor::ARGB_10bit),
        ("abgr_10bit", NvencColor::ABGR_10bit),
        ("yuv420_10bit", NvencColor::YUV420_10bit),
    ] {
        assert_eq!(NvencColor::from_name(w), Some(v));
        assert_eq!(NvencConfig::from_str(&format!("--color {}", w)).unwrap().color, v);
    }
    for (w, v) in [
        ("disabled", MultiPass::Disabled),
        ("quarter_res", MultiPass::QuarterRes),
        ("full_res", MultiPass::FullRes),
    ] {
        assert_eq!(MultiPass::from_name(w), Some(v));
        assert_eq!(NvencConfig::from_str(&format!("--multi-pass {}", w)).unwrap().multi_pass, v);
    }
    for (w, v) in [
        ("disabled", AdaptiveQuantization::Disabled),
        ("spacial", AdaptiveQuantization::Spacial),
        ("temporal", AdaptiveQuantization::Temporal),
    ] {
        assert_eq!(AdaptiveQuantization::from_name(w), Some(v));
        assert_eq!(NvencConfig::from_str(&format!("--aq {}", w)).unwrap().aq, v);
    }
    assert_eq!(NvencCodec::from_name("h264"), Some(NvencCodec::H264));
    assert_eq!(NvencCodec::from_name("hevc"), Some(NvencCodec::HEVC));
    assert_eq!(NvencCodec::from_name("HEVC"), None);
    assert_eq!(TuningInfo::from_name("low_latency"), Some(TuningInfo::LowLatency));
    assert_eq!(TuningInfo::from_name("ultra_low_latency"), Some(TuningInfo::UltraLowLatency));
    assert_eq!(TuningInfo::from_name(""), None);
    assert_eq!(DxColorFilterType::from_name("ayuv"), Some(DxColorFilterType::AYUVFilter));
}

#[test]
fn configurations_from_values() {
    let c = ScreenCapConfig::from_values(&vec![
        text("+3"), text("-0"), text("1.5e2"), text(" 4x+5 "), text("true"),
    ]);
    assert_eq!((c.adapter, c.screen), (3, 0));
    assert_eq!(rate(&c.refresh_rate), 150.0);
    assert_eq!(c.resolution, Some(Resolution { width: 4, height: 5 }));
    assert!(c.skip_cursor);
    let c = ScreenCapConfig::from_values(&vec![text("0"), text("0"), text("0"), None, text("false")]);
    assert_eq!(c.resolution, None);
    assert!(!c.skip_cursor);
    let c = DxColorConfig::from_values(&vec![text("ayuv"), text("1x2")]);
    assert_eq!(c.color, DxColorFilterType::AYUVFilter);
    assert_eq!(c.resolution, Resolution { width: 1, height: 2 });
    let c = NvencConfig::from_values(&vec![
        text("p1"), text("high"), text("7"), text("full_res"), text("low_latency"), text("abgr"),
        text("h264"), text("temporal"), text("3x4"), text("9"), text("inf"),
    ]);
    assert_eq!(c.preset, Preset::P1);
    assert_eq!(c.profile, Profile::High);
    assert_eq!(c.level, Some(7));
    assert_eq!(c.multi_pass, MultiPass::FullRes);
    assert_eq!(c.color, NvencColor::ABGR);
    assert_eq!(c.aq, AdaptiveQuantization::Temporal);
    assert_eq!(c.bitrate, 9);
    assert_eq!(c.framerate.as_str(), "inf");
}

#[test]
fn copies_say_the_same() {
    let c = NvencConfig::from_str("-f 29.97 -b 12 --level 3").unwrap();
    let d = c.clone();
    assert_eq!(d.framerate.as_str(), "29.97");
    assert_eq!((d.bitrate, d.level), (12, Some(3)));
    let c = ScreenCapConfig::from_str("-f 50 -s 4").unwrap().clone();
    assert_eq!((c.refresh_rate.as_str(), c.screen), ("50", 4));
}

#[test]
fn dummy_config_takes_anything() {
    assert_eq!(DummyConfig::from_str("--what ever"), Ok(DummyConfig {}));
    assert!(DummyConfig::from_options("").is_ok());
    assert!(NvencConfig::from_options("-p p9").is_err());
    assert!(ScreenCapConfig::from_options("-s 9").is_ok());
    assert!(DxColorConfig::from_options("-c rgb").is_ok());
}
