//! The configuration of the encoder.
use std::str::FromStr;
use vstd::prelude::*;
use crate::options::{
    is_option, is_table, option_values, read_options, shapes, valid, value_at, valued, values, OptionShape,
    OptionSpec, ValueKind, ValueShape,
};
use crate::processor::nvenc::types::{
    AdaptiveQuantization, MultiPass, NvencCodec, NvencColor, Preset, Profile, TuningInfo,
};
use crate::rate::Rate;
use crate::text::{parse_signed_u32, parse_unsigned, signed_u32, unsigned, IntError};
use crate::{FromOptions, Resolution};

verus! {

/// How the encoder encodes.
#[derive(Debug)]
pub struct NvencConfig {
    pub preset: Preset,
    pub profile: Profile,
    pub level: Option<u32>,
    pub multi_pass: MultiPass,
    pub tuning_info: TuningInfo,
    pub color: NvencColor,
    pub codec: NvencCodec,
    pub aq: AdaptiveQuantization,
    pub resolution: Resolution,
    /// Bits per second.
    pub bitrate: u64,
    /// Frames per second.
    pub framerate: Rate,
}

impl Clone for NvencConfig {
    fn clone(&self) -> (r: Self)
        ensures
            r.same(*self),
    {
        NvencConfig {
            preset: self.preset,
            profile: self.profile,
            level: self.level,
            multi_pass: self.multi_pass,
            tuning_info: self.tuning_info,
            color: self.color,
            codec: self.codec,
            aq: self.aq,
            resolution: self.resolution,
            bitrate: self.bitrate,
            framerate: self.framerate.clone(),
        }
    }
}

impl NvencConfig {
    /// Both say the same.
    pub open spec fn same(self, other: NvencConfig) -> bool {
        &&& self.preset == other.preset
        &&& self.profile == other.profile
        &&& self.level == other.level
        &&& self.multi_pass == other.multi_pass
        &&& self.tuning_info == other.tuning_info
        &&& self.color == other.color
        &&& self.codec == other.codec
        &&& self.aq == other.aq
        &&& self.resolution == other.resolution
        &&& self.bitrate == other.bitrate
        &&& self.framerate@ == other.framerate@
    }

    /// The options of the encoder.
    pub open spec fn table() -> Seq<OptionShape> {
        seq![
            valued(
                "preset"@,
                Some('p'),
                "PRESET"@,
                None,
                ValueShape::Words(Preset::names()),
                Some("p4"@),
            ),
            valued(
                "profile"@,
                None,
                "PROFILE"@,
                None,
                ValueShape::Words(Profile::names()),
                Some("auto"@),
            ),
            valued(
                "level"@,
                None,
                "LEVEL"@,
                None,
                ValueShape::Number,
                None,
            ),
            valued(
                "multi-pass"@,
                None,
                "MULTI_PASS"@,
                None,
                ValueShape::Words(MultiPass::names()),
                Some("disabled"@),
            ),
            valued(
                "tuning-info"@,
                Some('t'),
                "TUNING_INFO"@,
                None,
                ValueShape::Words(TuningInfo::names()),
                Some("low_latency"@),
            ),
            valued(
                "color"@,
                None,
                "COLOR"@,
                None,
                ValueShape::Words(NvencColor::names()),
                Some("argb"@),
            ),
            valued(
                "codec"@,
                Some('c'),
                "CODEC"@,
                None,
                ValueShape::Words(NvencCodec::names()),
                Some("h264"@),
            ),
            valued(
                "aq"@,
                None,
                "AQ"@,
                None,
                ValueShape::Words(AdaptiveQuantization::names()),
                Some("disabled"@),
            ),
            valued(
                "resolution"@,
                Some('r'),
                "RESOLUTION"@,
                None,
                ValueShape::Resolution,
                Some("0x0"@),
            ),
            valued(
                "bitrate"@,
                Some('b'),
                "BITRATE"@,
                None,
                ValueShape::Long,
                Some("5000000"@),
            ),
            valued(
                "framerate"@,
                Some('f'),
                "FRAMERATE"@,
                None,
                ValueShape::Rate,
                Some("60"@),
            ),
        ]
    }

    fn options() -> (r: Vec<OptionSpec>)
        ensures
            shapes(r@) == NvencConfig::table(),
            is_table(shapes(r@)),
    {
        let mut r: Vec<OptionSpec> = Vec::new();
        r.push(
            OptionSpec::new(
                "preset",
                Some('p'),
                "PRESET",
                None,
                ValueKind::Words(Preset::words()),
                Some("p4"),
            ),
        );
        r.push(
            OptionSpec::new(
                "profile",
                None,
                "PROFILE",
                None,
                ValueKind::Words(Profile::words()),
                Some("auto"),
            ),
        );
        r.push(
            OptionSpec::new(
                "level",
                None,
                "LEVEL",
                None,
                ValueKind::Number,
                None,
            ),
        );
        r.push(
            OptionSpec::new(
                "multi-pass",
                None,
                "MULTI_PASS",
                None,
                ValueKind::Words(MultiPass::words()),
                Some("disabled"),
            ),
        );
        r.push(
            OptionSpec::new(
                "tuning-info",
                Some('t'),
                "TUNING_INFO",
                None,
                ValueKind::Words(TuningInfo::words()),
                Some("low_latency"),
            ),
        );
        r.push(
            OptionSpec::new(
                "color",
                None,
                "COLOR",
                None,
                ValueKind::Words(NvencColor::words()),
                Some("argb"),
            ),
        );
        r.push(
            OptionSpec::new(
                "codec",
                Some('c'),
                "CODEC",
                None,
                ValueKind::Words(NvencCodec::words()),
                Some("h264"),
            ),
        );
        r.push(
            OptionSpec::new(
                "aq",
                None,
                "AQ",
                None,
                ValueKind::Words(AdaptiveQuantization::words()),
                Some("disabled"),
            ),
        );
        r.push(
            OptionSpec::new(
                "resolution",
                Some('r'),
                "RESOLUTION",
                None,
                ValueKind::Resolution,
                Some("0x0"),
            ),
        );
        r.push(
            OptionSpec::new(
                "bitrate",
                Some('b'),
                "BITRATE",
                None,
                ValueKind::Long,
                Some("5000000"),
            ),
        );
        r.push(
            OptionSpec::new(
                "framerate",
                Some('f'),
                "FRAMERATE",
                None,
                ValueKind::Rate,
                Some("60"),
            ),
        );
        proof {
            reveal_strlit("preset");
            reveal_strlit("profile");
            reveal_strlit("level");
            reveal_strlit("multi-pass");
            reveal_strlit("tuning-info");
            reveal_strlit("color");
            reveal_strlit("codec");
            reveal_strlit("aq");
            reveal_strlit("resolution");
            reveal_strlit("bitrate");
            reveal_strlit("framerate");
            reveal_strlit("help");
            reveal_strlit("version");
            let t = NvencConfig::table();
            assert(shapes(r@) == t);
            assert("help"@.len() == 4);
            assert("version"@.len() == 7 && "version"@[0] == 'v');
            assert(t[0].long.len() == 6 && t[0].long[0] == 'p');
            assert(t[1].long.len() == 7 && t[1].long[0] == 'p');
            assert(t[2].long.len() == 5 && t[2].long[0] == 'l' && t[2].long[2] == 'v');
            assert(t[3].long.len() == 10 && t[3].long[0] == 'm');
            assert(t[4].long.len() == 11 && t[4].long[0] == 't');
            assert(t[5].long.len() == 5 && t[5].long[0] == 'c' && t[5].long[2] == 'l');
            assert(t[6].long.len() == 5 && t[6].long[0] == 'c' && t[6].long[2] == 'd');
            assert(t[7].long.len() == 2 && t[7].long[0] == 'a');
            assert(t[8].long.len() == 10 && t[8].long[0] == 'r');
            assert(t[9].long.len() == 7 && t[9].long[0] == 'b');
            assert(t[10].long.len() == 9 && t[10].long[0] == 'f');
            NvencConfig::lemma_defaults();
            let d = crate::options::defaults(t);
            assert forall|i: int| 0 <= i < t.len() implies is_option(#[trigger] t[i]) by {
                assert(d[i] == t[i].default_value);
            }
        }
        r
    }

    /// The configuration has the values `v`.
    pub open spec fn has_values(self, v: Seq<Option<Seq<char>>>) -> bool {
        &&& Some(self.preset) == Preset::named(v[0]->0)
        &&& Some(self.profile) == Profile::named(v[1]->0)
        &&& self.level == (match v[2] {
            Some(s) => signed_u32(s),
            None => None,
        })
        &&& Some(self.multi_pass) == MultiPass::named(v[3]->0)
        &&& Some(self.tuning_info) == TuningInfo::named(v[4]->0)
        &&& Some(self.color) == NvencColor::named(v[5]->0)
        &&& Some(self.codec) == NvencCodec::named(v[6]->0)
        &&& Some(self.aq) == AdaptiveQuantization::named(v[7]->0)
        &&& Resolution::of(v[8]->0) == Ok::<Resolution, Seq<char>>(self.resolution)
        &&& unsigned(v[9]->0, u64::MAX as nat) == Ok::<nat, IntError>(self.bitrate as nat)
        &&& self.framerate@ == v[10]->0
    }

    /// The configuration with the values `v` of its options.
    pub fn from_values(v: &Vec<Option<String>>) -> (r: NvencConfig)
        requires
            valid(values(v@), NvencConfig::table()),
        ensures
            r.has_values(values(v@)),
    {
        let ghost t = NvencConfig::table();
        let ghost all = values(v@);
        proof {
            assert(t[0].default_value is Some && all[0] is Some);
            Preset::law_listed(all[0]->0);
            assert(t[1].default_value is Some && all[1] is Some);
            Profile::law_listed(all[1]->0);
            assert(t[3].default_value is Some && all[3] is Some);
            MultiPass::law_listed(all[3]->0);
            assert(t[4].default_value is Some && all[4] is Some);
            TuningInfo::law_listed(all[4]->0);
            assert(t[5].default_value is Some && all[5] is Some);
            NvencColor::law_listed(all[5]->0);
            assert(t[6].default_value is Some && all[6] is Some);
            NvencCodec::law_listed(all[6]->0);
            assert(t[7].default_value is Some && all[7] is Some);
            AdaptiveQuantization::law_listed(all[7]->0);
            assert(t[8].default_value is Some && all[8] is Some);
            assert(t[9].default_value is Some && all[9] is Some);
            assert(t[10].default_value is Some && all[10] is Some);
            assert(t[2].kind is Number);
            assert(all[2] matches Some(s) ==> signed_u32(s) is Some);
        }
        let level = match &v[2] {
            Some(s) => Some(parse_signed_u32(s.as_str()).unwrap()),
            None => None,
        };
        NvencConfig {
            preset: Preset::from_name(value_at(v, 0)).unwrap(),
            profile: Profile::from_name(value_at(v, 1)).unwrap(),
            level,
            multi_pass: MultiPass::from_name(value_at(v, 3)).unwrap(),
            tuning_info: TuningInfo::from_name(value_at(v, 4)).unwrap(),
            color: NvencColor::from_name(value_at(v, 5)).unwrap(),
            codec: NvencCodec::from_name(value_at(v, 6)).unwrap(),
            aq: AdaptiveQuantization::from_name(value_at(v, 7)).unwrap(),
            resolution: Resolution::from_str(value_at(v, 8)).unwrap(),
            bitrate: parse_unsigned(value_at(v, 9), u64::MAX).unwrap(),
            framerate: Rate::from_text(value_at(v, 10)).unwrap(),
        }
    }

    /// The configuration where no option is given.
    pub open spec fn is_default(self) -> bool {
        &&& self.preset == Preset::P4
        &&& self.profile == Profile::Auto
        &&& self.level is None
        &&& self.multi_pass == MultiPass::Disabled
        &&& self.tuning_info == TuningInfo::LowLatency
        &&& self.color == NvencColor::ARGB
        &&& self.codec == NvencCodec::H264
        &&& self.aq == AdaptiveQuantization::Disabled
        &&& self.resolution == (Resolution { width: 0, height: 0 })
        &&& self.bitrate == 5_000_000
        &&& self.framerate@ == "60"@
    }

    proof fn lemma_defaults()
        ensures
            ({
                let v = crate::options::defaults(NvencConfig::table());
                &&& v.len() == 11
                &&& valid(v, NvencConfig::table())
                &&& forall|c: NvencConfig| #[trigger] c.has_values(v) ==> c.is_default()
            }),
    {
        let v = crate::options::defaults(NvencConfig::table());
        Preset::law_named(Preset::P4);
        Profile::law_named(Profile::Auto);
        MultiPass::law_named(MultiPass::Disabled);
        TuningInfo::law_named(TuningInfo::LowLatency);
        NvencColor::law_named(NvencColor::ARGB);
        NvencCodec::law_named(NvencCodec::H264);
        AdaptiveQuantization::law_named(AdaptiveQuantization::Disabled);
        Preset::law_listed("p4"@);
        Profile::law_listed("auto"@);
        MultiPass::law_listed("disabled"@);
        TuningInfo::law_listed("low_latency"@);
        NvencColor::law_listed("argb"@);
        NvencCodec::law_listed("h264"@);
        AdaptiveQuantization::law_listed("disabled"@);
        reveal_strlit("0x0");
        assert("0x0"@ == crate::text::decimal(0).push('x') + crate::text::decimal(0));
        crate::law_resolution_read(0, 0);
        reveal_strlit("5000000");
        reveal_strlit("60");
        reveal_with_fuel(crate::text::decimal, 8);
        assert("5000000"@ == crate::text::decimal(5_000_000));
        crate::text::law_decimal_read(5_000_000, u64::MAX as nat);
        assert("60"@ == crate::text::decimal(60));
        crate::rate::lemma_decimal_is_rate(60);
        assert(v[0] == Some("p4"@));
        assert(v[1] == Some("auto"@));
        assert(v[2] == None::<Seq<char>>);
        assert(v[3] == Some("disabled"@));
        assert(v[4] == Some("low_latency"@));
        assert(v[5] == Some("argb"@));
        assert(v[6] == Some("h264"@));
        assert(v[7] == Some("disabled"@));
        assert(v[8] == Some("0x0"@));
        assert(v[9] == Some("5000000"@));
        assert(v[10] == Some("60"@));
    }
}

impl FromStr for NvencConfig {
    type Err = String;

    /// Reads an option string.
    fn from_str(s: &str) -> (r: Result<NvencConfig, String>)
        ensures
            NvencConfig::parsed(s@, r),
            crate::text::is_blank(s@) ==> r is Ok && r->Ok_0.is_default(),
    {
        let table = NvencConfig::options();
        match read_options(&table, s) {
            Ok(v) => {
                let c = NvencConfig::from_values(&v);
                proof {
                    if crate::text::is_blank(s@) {
                        assert(values(v@) == crate::options::defaults(NvencConfig::table()));
                        NvencConfig::lemma_defaults();
                    }
                }
                Ok(c)
            },
            Err(e) => Err(e),
        }
    }
}

impl FromOptions for NvencConfig {
    open spec fn parsed(s: Seq<char>, r: Result<Self, String>) -> bool {
        match option_values(NvencConfig::table(), s) {
            Err(e) => r matches Err(x) && x@ == e,
            Ok(v) => r matches Ok(c) && c.has_values(v),
        }
    }

    fn from_options(s: &str) -> Result<Self, String> {
        NvencConfig::from_str(s)
    }
}

/// The options by their names, with the letters and the defaults that some have. Each takes one value.
pub proof fn law_encoder_options()
    ensures
        ({
            let t = NvencConfig::table();
            &&& t.len() == 11
            &&& t[0].long == "preset"@
            &&& t[0].short == Some('p')
            &&& t[0].kind == ValueShape::Words(Preset::names())
            &&& t[0].default_value == Some("p4"@)
            &&& t[0].min_values == 1
            &&& t[0].missing is None
            &&& t[1].long == "profile"@
            &&& t[1].short == None::<char>
            &&& t[1].kind == ValueShape::Words(Profile::names())
            &&& t[1].default_value == Some("auto"@)
            &&& t[1].min_values == 1
            &&& t[1].missing is None
            &&& t[2].long == "level"@
            &&& t[2].short == None::<char>
            &&& t[2].kind == ValueShape::Number
            &&& t[2].default_value == None::<Seq<char>>
            &&& t[2].min_values == 1
            &&& t[2].missing is None
            &&& t[3].long == "multi-pass"@
            &&& t[3].short == None::<char>
            &&& t[3].kind == ValueShape::Words(MultiPass::names())
            &&& t[3].default_value == Some("disabled"@)
            &&& t[3].min_values == 1
            &&& t[3].missing is None
            &&& t[4].long == "tuning-info"@
            &&& t[4].short == Some('t')
            &&& t[4].kind == ValueShape::Words(TuningInfo::names())
            &&& t[4].default_value == Some("low_latency"@)
            &&& t[4].min_values == 1
            &&& t[4].missing is None
            &&& t[5].long == "color"@
            &&& t[5].short == None::<char>
            &&& t[5].kind == ValueShape::Words(NvencColor::names())
            &&& t[5].default_value == Some("argb"@)
            &&& t[5].min_values == 1
            &&& t[5].missing is None
            &&& t[6].long == "codec"@
            &&& t[6].short == Some('c')
            &&& t[6].kind == ValueShape::Words(NvencCodec::names())
            &&& t[6].default_value == Some("h264"@)
            &&& t[6].min_values == 1
            &&& t[6].missing is None
            &&& t[7].long == "aq"@
            &&& t[7].short == None::<char>
            &&& t[7].kind == ValueShape::Words(AdaptiveQuantization::names())
            &&& t[7].default_value == Some("disabled"@)
            &&& t[7].min_values == 1
            &&& t[7].missing is None
            &&& t[8].long == "resolution"@
            &&& t[8].short == Some('r')
            &&& t[8].kind == ValueShape::Resolution
            &&& t[8].default_value == Some("0x0"@)
            &&& t[8].min_values == 1
            &&& t[8].missing is None
            &&& t[9].long == "bitrate"@
            &&& t[9].short == Some('b')
            &&& t[9].kind == ValueShape::Long
            &&& t[9].default_value == Some("5000000"@)
            &&& t[9].min_values == 1
            &&& t[9].missing is None
            &&& t[10].long == "framerate"@
            &&& t[10].short == Some('f')
            &&& t[10].kind == ValueShape::Rate
            &&& t[10].default_value == Some("60"@)
            &&& t[10].min_values == 1
            &&& t[10].missing is None
        }),
{
}

/// An option string is read if and only if `clap` takes it. The configuration then has the values that the
/// string gives its options, and otherwise the error is the one that is told.
pub proof fn law_encoder_configuration_is_read(s: Seq<char>, r: Result<NvencConfig, String>)
    requires
        NvencConfig::parsed(s, r),
    ensures
        r is Ok <==> option_values(NvencConfig::table(), s) is Ok,
        r matches Ok(c) ==> c.has_values(option_values(NvencConfig::table(), s)->Ok_0),
        r matches Err(e) ==> e@ == option_values(NvencConfig::table(), s)->Err_0,
{
}

/// The values of the options tell the configuration: each setting is the one whose word is given, and each
/// number is the one that is written.
pub proof fn law_encoder_values(c: NvencConfig, v: Seq<Option<Seq<char>>>)
    requires
        c.has_values(v),
    ensures
        c.preset.name() == v[0]->0,
        c.profile.name() == v[1]->0,
        v[2] is None ==> c.level is None,
        v[2] matches Some(s) ==> c.level == signed_u32(s),
        c.multi_pass.name() == v[3]->0,
        c.tuning_info.name() == v[4]->0,
        c.color.name() == v[5]->0,
        c.codec.name() == v[6]->0,
        c.aq.name() == v[7]->0,
        Resolution::of(v[8]->0) is Ok,
        c.resolution.width == Resolution::of(v[8]->0)->Ok_0.width,
        c.resolution.height == Resolution::of(v[8]->0)->Ok_0.height,
        unsigned(v[9]->0, 0xffff_ffff_ffff_ffff) is Ok,
        c.bitrate == unsigned(v[9]->0, 0xffff_ffff_ffff_ffff)->Ok_0,
        c.framerate@ == v[10]->0,
{
}

/// A copy of a configuration has every setting of it.
pub proof fn law_same_encoder(a: NvencConfig, b: NvencConfig)
    requires
        a.same(b),
    ensures
        a.preset == b.preset && a.profile == b.profile && a.level == b.level,
        a.multi_pass == b.multi_pass && a.tuning_info == b.tuning_info && a.aq == b.aq,
        a.color == b.color && a.codec == b.codec && a.bitrate == b.bitrate,
        a.resolution.width == b.resolution.width && a.resolution.height == b.resolution.height,
        a.framerate@ == b.framerate@,
{
}

/// The configuration without options has the default of each option.
pub proof fn law_encoder_default(c: NvencConfig)
    requires
        c.has_values(crate::options::defaults(NvencConfig::table())) || c.is_default(),
    ensures
        c.is_default(),
        c.preset == Preset::P4,
        c.profile == Profile::Auto,
        c.level is None,
        c.multi_pass == MultiPass::Disabled,
        c.tuning_info == TuningInfo::LowLatency,
        c.color == NvencColor::ARGB,
        c.codec == NvencCodec::H264,
        c.aq == AdaptiveQuantization::Disabled,
        c.resolution.width == 0 && c.resolution.height == 0,
        c.bitrate == 5_000_000,
        c.framerate@ == "60"@,
{
    NvencConfig::lemma_defaults();
}

} // verus!
