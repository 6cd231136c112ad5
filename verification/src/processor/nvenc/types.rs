//! The settings of the encoder, the words of an option string that stand for them, and what the
//! driver calls them.
use vstd::prelude::*;
use crate::options::names;
use crate::text::same_text;
use crate::ColorFormat;

verus! {

/// How the encoder spreads bits over a picture.
#[derive(Clone, Copy, Debug, PartialEq, Eq, Structural)]
pub enum AdaptiveQuantization {
    Disabled,
    Spacial,
    Temporal,
}

impl AdaptiveQuantization {
    /// The word for the setting.
    pub open spec fn name(self) -> Seq<char> {
        match self {
            AdaptiveQuantization::Disabled => "disabled"@,
            AdaptiveQuantization::Spacial => "spacial"@,
            AdaptiveQuantization::Temporal => "temporal"@,
        }
    }

    /// The words, in the order in which they are listed.
    pub open spec fn names() -> Seq<Seq<char>> {
        seq![
            "disabled"@,
            "spacial"@,
            "temporal"@,
        ]
    }

    pub(crate) fn words() -> (r: Vec<&'static str>)
        ensures
            names(r@) == AdaptiveQuantization::names(),
    {
        let r = vec![
            "disabled",
            "spacial",
            "temporal",
        ];
        assert(names(r@) == AdaptiveQuantization::names());
        r
    }

    /// The words in the list are those that stand for something.
    pub proof fn law_listed(s: Seq<char>)
        ensures
            AdaptiveQuantization::names().contains(s) <==> AdaptiveQuantization::named(s) is Some,
    {
        assert(AdaptiveQuantization::names()[0] == AdaptiveQuantization::Disabled.name());
        assert(AdaptiveQuantization::names()[1] == AdaptiveQuantization::Spacial.name());
        assert(AdaptiveQuantization::names()[2] == AdaptiveQuantization::Temporal.name());
    }

    /// The setting that the word `s` stands for, if it stands for any.
    pub open spec fn named(s: Seq<char>) -> Option<AdaptiveQuantization> {
        if exists|v: AdaptiveQuantization| #[trigger] v.name() == s {
            Some(choose|v: AdaptiveQuantization| #[trigger] v.name() == s)
        } else {
            None
        }
    }

    /// The setting that the word `s` stands for, if it stands for any.
    pub fn from_name(s: &str) -> (r: Option<AdaptiveQuantization>)
        ensures
            r == AdaptiveQuantization::named(s@),
    {
        let r = if same_text(s, "disabled") {
            Some(AdaptiveQuantization::Disabled)
        } else if same_text(s, "spacial") {
            Some(AdaptiveQuantization::Spacial)
        } else if same_text(s, "temporal") {
            Some(AdaptiveQuantization::Temporal)
        } else {
            None
        };
        proof {
            if let Some(v) = r {
                AdaptiveQuantization::law_named(v);
            }
        }
        r
    }

    /// The word for a setting stands for that setting.
    pub proof fn law_named(v: AdaptiveQuantization)
        ensures
            AdaptiveQuantization::named(v.name()) == Some(v),
    {
        let w = choose|w: AdaptiveQuantization| #[trigger] w.name() == v.name();
        if w != v {
            AdaptiveQuantization::law_names_differ(w, v);
        }
    }

    /// No two settings share a word.
    pub proof fn law_names_differ(a: AdaptiveQuantization, b: AdaptiveQuantization)
        requires
            a != b,
        ensures
            a.name() != b.name(),
    {
        reveal_strlit("disabled");
        reveal_strlit("spacial");
        reveal_strlit("temporal");
        if a.name() == b.name() {
            assert(a.name().len() == b.name().len());
            assert(a.name()[0] == b.name()[0]);
        }
    }

    /// A word stands for a setting if and only if it is the word for it, and these are the words.
    pub proof fn law_words(v: AdaptiveQuantization, s: Seq<char>)
        ensures
            AdaptiveQuantization::named(s) == Some(v) <==> s == (match v {
                AdaptiveQuantization::Disabled => "disabled"@,
                AdaptiveQuantization::Spacial => "spacial"@,
                AdaptiveQuantization::Temporal => "temporal"@,
            }),
            AdaptiveQuantization::named(s) is None <==> forall|w: AdaptiveQuantization| #[trigger]
                w.name() != s,
    {
        AdaptiveQuantization::law_named(v);
        if let Some(w) = AdaptiveQuantization::named(s) {
            if w != v {
                AdaptiveQuantization::law_names_differ(w, v);
            }
        }
    }
}

/// A preset of the encoder, from the fastest to the slowest.
#[derive(Clone, Copy, Debug, PartialEq, Eq, Structural)]
pub enum Preset {
    P1,
    P2,
    P3,
    P4,
    P5,
    P6,
    P7,
}

impl Preset {
    /// The word for the setting.
    pub open spec fn name(self) -> Seq<char> {
        match self {
            Preset::P1 => "p1"@,
            Preset::P2 => "p2"@,
            Preset::P3 => "p3"@,
            Preset::P4 => "p4"@,
            Preset::P5 => "p5"@,
            Preset::P6 => "p6"@,
            Preset::P7 => "p7"@,
        }
    }

    /// The words, in the order in which they are listed.
    pub open spec fn names() -> Seq<Seq<char>> {
        seq![
            "p1"@,
            "p2"@,
            "p3"@,
            "p4"@,
            "p5"@,
            "p6"@,
            "p7"@,
        ]
    }

    pub(crate) fn words() -> (r: Vec<&'static str>)
        ensures
            names(r@) == Preset::names(),
    {
        let r = vec![
            "p1",
            "p2",
            "p3",
            "p4",
            "p5",
            "p6",
            "p7",
        ];
        assert(names(r@) == Preset::names());
        r
    }

    /// The words in the list are those that stand for something.
    pub proof fn law_listed(s: Seq<char>)
        ensures
            Preset::names().contains(s) <==> Preset::named(s) is Some,
    {
        assert(Preset::names()[0] == Preset::P1.name());
        assert(Preset::names()[1] == Preset::P2.name());
        assert(Preset::names()[2] == Preset::P3.name());
        assert(Preset::names()[3] == Preset::P4.name());
        assert(Preset::names()[4] == Preset::P5.name());
        assert(Preset::names()[5] == Preset::P6.name());
        assert(Preset::names()[6] == Preset::P7.name());
    }

    /// The setting that the word `s` stands for, if it stands for any.
    pub open spec fn named(s: Seq<char>) -> Option<Preset> {
        if exists|v: Preset| #[trigger] v.name() == s {
            Some(choose|v: Preset| #[trigger] v.name() == s)
        } else {
            None
        }
    }

    /// The setting that the word `s` stands for, if it stands for any.
    pub fn from_name(s: &str) -> (r: Option<Preset>)
        ensures
            r == Preset::named(s@),
    {
        let r = if same_text(s, "p1") {
            Some(Preset::P1)
        } else if same_text(s, "p2") {
            Some(Preset::P2)
        } else if same_text(s, "p3") {
            Some(Preset::P3)
        } else if same_text(s, "p4") {
            Some(Preset::P4)
        } else if same_text(s, "p5") {
            Some(Preset::P5)
        } else if same_text(s, "p6") {
            Some(Preset::P6)
        } else if same_text(s, "p7") {
            Some(Preset::P7)
        } else {
            None
        };
        proof {
            if let Some(v) = r {
                Preset::law_named(v);
            }
        }
        r
    }

    /// The word for a setting stands for that setting.
    pub proof fn law_named(v: Preset)
        ensures
            Preset::named(v.name()) == Some(v),
    {
        let w = choose|w: Preset| #[trigger] w.name() == v.name();
        if w != v {
            Preset::law_names_differ(w, v);
        }
    }

    /// No two settings share a word.
    pub proof fn law_names_differ(a: Preset, b: Preset)
        requires
            a != b,
        ensures
            a.name() != b.name(),
    {
        reveal_strlit("p1");
        reveal_strlit("p2");
        reveal_strlit("p3");
        reveal_strlit("p4");
        reveal_strlit("p5");
        reveal_strlit("p6");
        reveal_strlit("p7");
        if a.name() == b.name() {
            assert(a.name().len() == b.name().len());
            assert(a.name()[1] == b.name()[1]);
        }
    }

    /// A word stands for a setting if and only if it is the word for it, and these are the words.
    pub proof fn law_words(v: Preset, s: Seq<char>)
        ensures
            Preset::named(s) == Some(v) <==> s == (match v {
                Preset::P1 => "p1"@,
                Preset::P2 => "p2"@,
                Preset::P3 => "p3"@,
                Preset::P4 => "p4"@,
                Preset::P5 => "p5"@,
                Preset::P6 => "p6"@,
                Preset::P7 => "p7"@,
            }),
            Preset::named(s) is None <==> forall|w: Preset| #[trigger] w.name() != s,
    {
        Preset::law_named(v);
        if let Some(w) = Preset::named(s) {
            if w != v {
                Preset::law_names_differ(w, v);
            }
        }
    }
}

/// A profile of the coded stream.
#[derive(Clone, Copy, Debug, PartialEq, Eq, Structural)]
pub enum Profile {
    Auto,
    Constrained,
    Baseline,
    Main,
    High,
}

impl Profile {
    /// The word for the setting.
    pub open spec fn name(self) -> Seq<char> {
        match self {
            Profile::Auto => "auto"@,
            Profile::Constrained => "constrained"@,
            Profile::Baseline => "baseline"@,
            Profile::Main => "main"@,
            Profile::High => "high"@,
        }
    }

    /// The words, in the order in which they are listed.
    pub open spec fn names() -> Seq<Seq<char>> {
        seq![
            "auto"@,
            "constrained"@,
            "baseline"@,
            "main"@,
            "high"@,
        ]
    }

    pub(crate) fn words() -> (r: Vec<&'static str>)
        ensures
            names(r@) == Profile::names(),
    {
        let r = vec![
            "auto",
            "constrained",
            "baseline",
            "main",
            "high",
        ];
        assert(names(r@) == Profile::names());
        r
    }

    /// The words in the list are those that stand for something.
    pub proof fn law_listed(s: Seq<char>)
        ensures
            Profile::names().contains(s) <==> Profile::named(s) is Some,
    {
        assert(Profile::names()[0] == Profile::Auto.name());
        assert(Profile::names()[1] == Profile::Constrained.name());
        assert(Profile::names()[2] == Profile::Baseline.name());
        assert(Profile::names()[3] == Profile::Main.name());
        assert(Profile::names()[4] == Profile::High.name());
    }

    /// The setting that the word `s` stands for, if it stands for any.
    pub open spec fn named(s: Seq<char>) -> Option<Profile> {
        if exists|v: Profile| #[trigger] v.name() == s {
            Some(choose|v: Profile| #[trigger] v.name() == s)
        } else {
            None
        }
    }

    /// The setting that the word `s` stands for, if it stands for any.
    pub fn from_name(s: &str) -> (r: Option<Profile>)
        ensures
            r == Profile::named(s@),
    {
        let r = if same_text(s, "auto") {
            Some(Profile::Auto)
        } else if same_text(s, "constrained") {
            Some(Profile::Constrained)
        } else if same_text(s, "baseline") {
            Some(Profile::Baseline)
        } else if same_text(s, "main") {
            Some(Profile::Main)
        } else if same_text(s, "high") {
            Some(Profile::High)
        } else {
            None
        };
        proof {
            if let Some(v) = r {
                Profile::law_named(v);
            }
        }
        r
    }

    /// The word for a setting stands for that setting.
    pub proof fn law_named(v: Profile)
        ensures
            Profile::named(v.name()) == Some(v),
    {
        let w = choose|w: Profile| #[trigger] w.name() == v.name();
        if w != v {
            Profile::law_names_differ(w, v);
        }
    }

    /// No two settings share a word.
    pub proof fn law_names_differ(a: Profile, b: Profile)
        requires
            a != b,
        ensures
            a.name() != b.name(),
    {
        reveal_strlit("auto");
        reveal_strlit("constrained");
        reveal_strlit("baseline");
        reveal_strlit("main");
        reveal_strlit("high");
        if a.name() == b.name() {
            assert(a.name().len() == b.name().len());
            assert(a.name()[0] == b.name()[0]);
        }
    }

    /// A word stands for a setting if and only if it is the word for it, and these are the words.
    pub proof fn law_words(v: Profile, s: Seq<char>)
        ensures
            Profile::named(s) == Some(v) <==> s == (match v {
                Profile::Auto => "auto"@,
                Profile::Constrained => "constrained"@,
                Profile::Baseline => "baseline"@,
                Profile::Main => "main"@,
                Profile::High => "high"@,
            }),
            Profile::named(s) is None <==> forall|w: Profile| #[trigger] w.name() != s,
    {
        Profile::law_named(v);
        if let Some(w) = Profile::named(s) {
            if w != v {
                Profile::law_names_differ(w, v);
            }
        }
    }
}

/// The pixel layout that the encoder takes.
#[derive(Clone, Copy, Debug, PartialEq, Eq, Structural)]
#[allow(non_camel_case_types)]
pub enum NvencColor {
    ARGB,
    ABGR,
    AYUV,
    YUV444,
    YUV420,
    NV12,
    YUV444_10bit,
    ARGB_10bit,
    ABGR_10bit,
    YUV420_10bit,
}

impl NvencColor {
    /// The word for the setting.
    pub open spec fn name(self) -> Seq<char> {
        match self {
            NvencColor::ARGB => "argb"@,
            NvencColor::ABGR => "abgr"@,
            NvencColor::AYUV => "ayuv"@,
            NvencColor::YUV444 => "yuv444"@,
            NvencColor::YUV420 => "yuv420"@,
            NvencColor::NV12 => "nv12"@,
            NvencColor::YUV444_10bit => "yuv444_10bit"@,
            NvencColor::ARGB_10bit => "argb_10bit"@,
            NvencColor::ABGR_10bit => "abgr_10bit"@,
            NvencColor::YUV420_10bit => "yuv420_10bit"@,
        }
    }

    /// The words, in the order in which they are listed.
    pub open spec fn names() -> Seq<Seq<char>> {
        seq![
            "argb"@,
            "abgr"@,
            "ayuv"@,
            "yuv444"@,
            "yuv420"@,
            "nv12"@,
            "yuv444_10bit"@,
            "argb_10bit"@,
            "abgr_10bit"@,
            "yuv420_10bit"@,
        ]
    }

    pub(crate) fn words() -> (r: Vec<&'static str>)
        ensures
            names(r@) == NvencColor::names(),
    {
        let r = vec![
            "argb",
            "abgr",
            "ayuv",
            "yuv444",
            "yuv420",
            "nv12",
            "yuv444_10bit",
            "argb_10bit",
            "abgr_10bit",
            "yuv420_10bit",
        ];
        assert(names(r@) == NvencColor::names());
        r
    }

    /// The words in the list are those that stand for something.
    pub proof fn law_listed(s: Seq<char>)
        ensures
            NvencColor::names().contains(s) <==> NvencColor::named(s) is Some,
    {
        assert(NvencColor::names()[0] == NvencColor::ARGB.name());
        assert(NvencColor::names()[1] == NvencColor::ABGR.name());
        assert(NvencColor::names()[2] == NvencColor::AYUV.name());
        assert(NvencColor::names()[3] == NvencColor::YUV444.name());
        assert(NvencColor::names()[4] == NvencColor::YUV420.name());
        assert(NvencColor::names()[5] == NvencColor::NV12.name());
        assert(NvencColor::names()[6] == NvencColor::YUV444_10bit.name());
        assert(NvencColor::names()[7] == NvencColor::ARGB_10bit.name());
        assert(NvencColor::names()[8] == NvencColor::ABGR_10bit.name());
        assert(NvencColor::names()[9] == NvencColor::YUV420_10bit.name());
    }

    /// The setting that the word `s` stands for, if it stands for any.
    pub open spec fn named(s: Seq<char>) -> Option<NvencColor> {
        if exists|v: NvencColor| #[trigger] v.name() == s {
            Some(choose|v: NvencColor| #[trigger] v.name() == s)
        } else {
            None
        }
    }

    /// The setting that the word `s` stands for, if it stands for any.
    pub fn from_name(s: &str) -> (r: Option<NvencColor>)
        ensures
            r == NvencColor::named(s@),
    {
        let r = if same_text(s, "argb") {
            Some(NvencColor::ARGB)
        } else if same_text(s, "abgr") {
            Some(NvencColor::ABGR)
        } else if same_text(s, "ayuv") {
            Some(NvencColor::AYUV)
        } else if same_text(s, "yuv444") {
            Some(NvencColor::YUV444)
        } else if same_text(s, "yuv420") {
            Some(NvencColor::YUV420)
        } else if same_text(s, "nv12") {
            Some(NvencColor::NV12)
        } else if same_text(s, "yuv444_10bit") {
            Some(NvencColor::YUV444_10bit)
        } else if same_text(s, "argb_10bit") {
            Some(NvencColor::ARGB_10bit)
        } else if same_text(s, "abgr_10bit") {
            Some(NvencColor::ABGR_10bit)
        } else if same_text(s, "yuv420_10bit") {
            Some(NvencColor::YUV420_10bit)
        } else {
            None
        };
        proof {
            if let Some(v) = r {
                NvencColor::law_named(v);
            }
        }
        r
    }

    /// The word for a setting stands for that setting.
    pub proof fn law_named(v: NvencColor)
        ensures
            NvencColor::named(v.name()) == Some(v),
    {
        let w = choose|w: NvencColor| #[trigger] w.name() == v.name();
        if w != v {
            NvencColor::law_names_differ(w, v);
        }
    }

    /// No two settings share a word.
    pub proof fn law_names_differ(a: NvencColor, b: NvencColor)
        requires
            a != b,
        ensures
            a.name() != b.name(),
    {
        reveal_strlit("argb");
        reveal_strlit("abgr");
        reveal_strlit("ayuv");
        reveal_strlit("yuv444");
        reveal_strlit("yuv420");
        reveal_strlit("nv12");
        reveal_strlit("yuv444_10bit");
        reveal_strlit("argb_10bit");
        reveal_strlit("abgr_10bit");
        reveal_strlit("yuv420_10bit");
        if a.name() == b.name() {
            assert(a.name().len() == b.name().len());
            assert(a.name()[0] == b.name()[0]);
            assert(a.name()[1] == b.name()[1]);
            assert(a.name()[4] == b.name()[4]);
        }
    }

    /// A word stands for a setting if and only if it is the word for it, and these are the words.
    pub proof fn law_words(v: NvencColor, s: Seq<char>)
        ensures
            NvencColor::named(s) == Some(v) <==> s == (match v {
                NvencColor::ARGB => "argb"@,
                NvencColor::ABGR => "abgr"@,
                NvencColor::AYUV => "ayuv"@,
                NvencColor::YUV444 => "yuv444"@,
                NvencColor::YUV420 => "yuv420"@,
                NvencColor::NV12 => "nv12"@,
                NvencColor::YUV444_10bit => "yuv444_10bit"@,
                NvencColor::ARGB_10bit => "argb_10bit"@,
                NvencColor::ABGR_10bit => "abgr_10bit"@,
                NvencColor::YUV420_10bit => "yuv420_10bit"@,
            }),
            NvencColor::named(s) is None <==> forall|w: NvencColor| #[trigger] w.name() != s,
    {
        NvencColor::law_named(v);
        if let Some(w) = NvencColor::named(s) {
            if w != v {
                NvencColor::law_names_differ(w, v);
            }
        }
    }
}

/// A video codec.
#[derive(Clone, Copy, Debug, PartialEq, Eq, Structural)]
pub enum NvencCodec {
    H264,
    HEVC,
}

impl NvencCodec {
    /// The word for the setting.
    pub open spec fn name(self) -> Seq<char> {
        match self {
            NvencCodec::H264 => "h264"@,
            NvencCodec::HEVC => "hevc"@,
        }
    }

    /// The words, in the order in which they are listed.
    pub open spec fn names() -> Seq<Seq<char>> {
        seq![
            "h264"@,
            "hevc"@,
        ]
    }

    pub(crate) fn words() -> (r: Vec<&'static str>)
        ensures
            names(r@) == NvencCodec::names(),
    {
        let r = vec![
            "h264",
            "hevc",
        ];
        assert(names(r@) == NvencCodec::names());
        r
    }

    /// The words in the list are those that stand for something.
    pub proof fn law_listed(s: Seq<char>)
        ensures
            NvencCodec::names().contains(s) <==> NvencCodec::named(s) is Some,
    {
        assert(NvencCodec::names()[0] == NvencCodec::H264.name());
        assert(NvencCodec::names()[1] == NvencCodec::HEVC.name());
    }

    /// The setting that the word `s` stands for, if it stands for any.
    pub open spec fn named(s: Seq<char>) -> Option<NvencCodec> {
        if exists|v: NvencCodec| #[trigger] v.name() == s {
            Some(choose|v: NvencCodec| #[trigger] v.name() == s)
        } else {
            None
        }
    }

    /// The setting that the word `s` stands for, if it stands for any.
    pub fn from_name(s: &str) -> (r: Option<NvencCodec>)
        ensures
            r == NvencCodec::named(s@),
    {
        let r = if same_text(s, "h264") {
            Some(NvencCodec::H264)
        } else if same_text(s, "hevc") {
            Some(NvencCodec::HEVC)
        } else {
            None
        };
        proof {
            if let Some(v) = r {
                NvencCodec::law_named(v);
            }
        }
        r
    }

    /// The word for a setting stands for that setting.
    pub proof fn law_named(v: NvencCodec)
        ensures
            NvencCodec::named(v.name()) == Some(v),
    {
        let w = choose|w: NvencCodec| #[trigger] w.name() == v.name();
        if w != v {
            NvencCodec::law_names_differ(w, v);
        }
    }

    /// No two settings share a word.
    pub proof fn law_names_differ(a: NvencCodec, b: NvencCodec)
        requires
            a != b,
        ensures
            a.name() != b.name(),
    {
        reveal_strlit("h264");
        reveal_strlit("hevc");
        if a.name() == b.name() {
            assert(a.name().len() == b.name().len());
            assert(a.name()[1] == b.name()[1]);
        }
    }

    /// A word stands for a setting if and only if it is the word for it, and these are the words.
    pub proof fn law_words(v: NvencCodec, s: Seq<char>)
        ensures
            NvencCodec::named(s) == Some(v) <==> s == (match v {
                NvencCodec::H264 => "h264"@,
                NvencCodec::HEVC => "hevc"@,
            }),
            NvencCodec::named(s) is None <==> forall|w: NvencCodec| #[trigger] w.name() != s,
    {
        NvencCodec::law_named(v);
        if let Some(w) = NvencCodec::named(s) {
            if w != v {
                NvencCodec::law_names_differ(w, v);
            }
        }
    }
}

/// How often the encoder goes over a picture.
#[derive(Clone, Copy, Debug, PartialEq, Eq, Structural)]
pub enum MultiPass {
    Disabled,
    QuarterRes,
    FullRes,
}

impl MultiPass {
    /// The word for the setting.
    pub open spec fn name(self) -> Seq<char> {
        match self {
            MultiPass::Disabled => "disabled"@,
            MultiPass::QuarterRes => "quarter_res"@,
            MultiPass::FullRes => "full_res"@,
        }
    }

    /// The words, in the order in which they are listed.
    pub open spec fn names() -> Seq<Seq<char>> {
        seq![
            "disabled"@,
            "quarter_res"@,
            "full_res"@,
        ]
    }

    pub(crate) fn words() -> (r: Vec<&'static str>)
        ensures
            names(r@) == MultiPass::names(),
    {
        let r = vec![
            "disabled",
            "quarter_res",
            "full_res",
        ];
        assert(names(r@) == MultiPass::names());
        r
    }

    /// The words in the list are those that stand for something.
    pub proof fn law_listed(s: Seq<char>)
        ensures
            MultiPass::names().contains(s) <==> MultiPass::named(s) is Some,
    {
        assert(MultiPass::names()[0] == MultiPass::Disabled.name());
        assert(MultiPass::names()[1] == MultiPass::QuarterRes.name());
        assert(MultiPass::names()[2] == MultiPass::FullRes.name());
    }

    /// The setting that the word `s` stands for, if it stands for any.
    pub open spec fn named(s: Seq<char>) -> Option<MultiPass> {
        if exists|v: MultiPass| #[trigger] v.name() == s {
            Some(choose|v: MultiPass| #[trigger] v.name() == s)
        } else {
            None
        }
    }

    /// The setting that the word `s` stands for, if it stands for any.
    pub fn from_name(s: &str) -> (r: Option<MultiPass>)
        ensures
            r == MultiPass::named(s@),
    {
        let r = if same_text(s, "disabled") {
            Some(MultiPass::Disabled)
        } else if same_text(s, "quarter_res") {
            Some(MultiPass::QuarterRes)
        } else if same_text(s, "full_res") {
            Some(MultiPass::FullRes)
        } else {
            None
        };
        proof {
            if let Some(v) = r {
                MultiPass::law_named(v);
            }
        }
        r
    }

    /// The word for a setting stands for that setting.
    pub proof fn law_named(v: MultiPass)
        ensures
            MultiPass::named(v.name()) == Some(v),
    {
        let w = choose|w: MultiPass| #[trigger] w.name() == v.name();
        if w != v {
            MultiPass::law_names_differ(w, v);
        }
    }

    /// No two settings share a word.
    pub proof fn law_names_differ(a: MultiPass, b: MultiPass)
        requires
            a != b,
        ensures
            a.name() != b.name(),
    {
        reveal_strlit("disabled");
        reveal_strlit("quarter_res");
        reveal_strlit("full_res");
        if a.name() == b.name() {
            assert(a.name().len() == b.name().len());
            assert(a.name()[0] == b.name()[0]);
        }
    }

    /// A word stands for a setting if and only if it is the word for it, and these are the words.
    pub proof fn law_words(v: MultiPass, s: Seq<char>)
        ensures
            MultiPass::named(s) == Some(v) <==> s == (match v {
                MultiPass::Disabled => "disabled"@,
                MultiPass::QuarterRes => "quarter_res"@,
                MultiPass::FullRes => "full_res"@,
            }),
            MultiPass::named(s) is None <==> forall|w: MultiPass| #[trigger] w.name() != s,
    {
        MultiPass::law_named(v);
        if let Some(w) = MultiPass::named(s) {
            if w != v {
                MultiPass::law_names_differ(w, v);
            }
        }
    }
}

/// What the encoder is tuned for.
#[derive(Clone, Copy, Debug, PartialEq, Eq, Structural)]
pub enum TuningInfo {
    LowLatency,
    UltraLowLatency,
}

impl TuningInfo {
    /// The word for the setting.
    pub open spec fn name(self) -> Seq<char> {
        match self {
            TuningInfo::LowLatency => "low_latency"@,
            TuningInfo::UltraLowLatency => "ultra_low_latency"@,
        }
    }

    /// The words, in the order in which they are listed.
    pub open spec fn names() -> Seq<Seq<char>> {
        seq![
            "low_latency"@,
            "ultra_low_latency"@,
        ]
    }

    pub(crate) fn words() -> (r: Vec<&'static str>)
        ensures
            names(r@) == TuningInfo::names(),
    {
        let r = vec![
            "low_latency",
            "ultra_low_latency",
        ];
        assert(names(r@) == TuningInfo::names());
        r
    }

    /// The words in the list are those that stand for something.
    pub proof fn law_listed(s: Seq<char>)
        ensures
            TuningInfo::names().contains(s) <==> TuningInfo::named(s) is Some,
    {
        assert(TuningInfo::names()[0] == TuningInfo::LowLatency.name());
        assert(TuningInfo::names()[1] == TuningInfo::UltraLowLatency.name());
    }

    /// The setting that the word `s` stands for, if it stands for any.
    pub open spec fn named(s: Seq<char>) -> Option<TuningInfo> {
        if exists|v: TuningInfo| #[trigger] v.name() == s {
            Some(choose|v: TuningInfo| #[trigger] v.name() == s)
        } else {
            None
        }
    }

    /// The setting that the word `s` stands for, if it stands for any.
    pub fn from_name(s: &str) -> (r: Option<TuningInfo>)
        ensures
            r == TuningInfo::named(s@),
    {
        let r = if same_text(s, "low_latency") {
            Some(TuningInfo::LowLatency)
        } else if same_text(s, "ultra_low_latency") {
            Some(TuningInfo::UltraLowLatency)
        } else {
            None
        };
        proof {
            if let Some(v) = r {
                TuningInfo::law_named(v);
            }
        }
        r
    }

    /// The word for a setting stands for that setting.
    pub proof fn law_named(v: TuningInfo)
        ensures
            TuningInfo::named(v.name()) == Some(v),
    {
        let w = choose|w: TuningInfo| #[trigger] w.name() == v.name();
        if w != v {
            TuningInfo::law_names_differ(w, v);
        }
    }

    /// No two settings share a word.
    pub proof fn law_names_differ(a: TuningInfo, b: TuningInfo)
        requires
            a != b,
        ensures
            a.name() != b.name(),
    {
        reveal_strlit("low_latency");
        reveal_strlit("ultra_low_latency");
        if a.name() == b.name() {
            assert(a.name().len() == b.name().len());
        }
    }

    /// A word stands for a setting if and only if it is the word for it, and these are the words.
    pub proof fn law_words(v: TuningInfo, s: Seq<char>)
        ensures
            TuningInfo::named(s) == Some(v) <==> s == (match v {
                TuningInfo::LowLatency => "low_latency"@,
                TuningInfo::UltraLowLatency => "ultra_low_latency"@,
            }),
            TuningInfo::named(s) is None <==> forall|w: TuningInfo| #[trigger] w.name() != s,
    {
        TuningInfo::law_named(v);
        if let Some(w) = TuningInfo::named(s) {
            if w != v {
                TuningInfo::law_names_differ(w, v);
            }
        }
    }
}

/// The identifiers of codecs, presets and profiles that the driver knows.
#[derive(Clone, Copy, Debug, PartialEq, Eq, Structural)]
pub enum Guid {
    CodecH264,
    CodecHevc,
    PresetP1,
    PresetP2,
    PresetP3,
    PresetP4,
    PresetP5,
    PresetP6,
    PresetP7,
    ProfileAutoselect,
    H264ProfileConstrainedHigh,
    H264ProfileBaseline,
    H264ProfileMain,
    H264ProfileHigh,
    H264ProfileHigh444,
    HevcProfileMain,
    HevcProfileFrext,
}

/// The pixel layouts that the driver knows.
#[derive(Clone, Copy, Debug, PartialEq, Eq, Structural)]
pub enum BufferFormat {
    Argb,
    Abgr,
    Ayuv,
    Yuv444,
    Iyuv,
    Nv12,
    Yuv444TenBit,
    Argb10,
    Abgr10,
    Yuv420TenBit,
}

/// The multi pass modes that the driver knows.
#[derive(Clone, Copy, Debug, PartialEq, Eq, Structural)]
pub enum MultiPassMode {
    Disabled,
    TwoPassQuarterResolution,
    TwoPassFullResolution,
}

/// The tunings that the driver knows.
#[derive(Clone, Copy, Debug, PartialEq, Eq, Structural)]
pub enum Tuning {
    LowLatency,
    UltraLowLatency,
}

impl Preset {
    /// The driver's identifier of the preset.
    pub open spec fn driver_name(self) -> Guid {
        match self {
            Preset::P1 => Guid::PresetP1,
            Preset::P2 => Guid::PresetP2,
            Preset::P3 => Guid::PresetP3,
            Preset::P4 => Guid::PresetP4,
            Preset::P5 => Guid::PresetP5,
            Preset::P6 => Guid::PresetP6,
            Preset::P7 => Guid::PresetP7,
        }
    }

    /// The driver's identifier of the preset.
    pub fn into(self) -> (r: Guid)
        ensures
            r == self.driver_name(),
    {
        match self {
            Preset::P1 => Guid::PresetP1,
            Preset::P2 => Guid::PresetP2,
            Preset::P3 => Guid::PresetP3,
            Preset::P4 => Guid::PresetP4,
            Preset::P5 => Guid::PresetP5,
            Preset::P6 => Guid::PresetP6,
            Preset::P7 => Guid::PresetP7,
        }
    }
}

impl NvencCodec {
    /// The driver's identifier of the codec.
    pub open spec fn driver_name(self) -> Guid {
        match self {
            NvencCodec::H264 => Guid::CodecH264,
            NvencCodec::HEVC => Guid::CodecHevc,
        }
    }

    /// The driver's identifier of the codec.
    pub fn into(self) -> (r: Guid)
        ensures
            r == self.driver_name(),
    {
        match self {
            NvencCodec::H264 => Guid::CodecH264,
            NvencCodec::HEVC => Guid::CodecHevc,
        }
    }
}

impl NvencColor {
    /// The driver's name of the pixel layout.
    pub open spec fn driver_name(self) -> BufferFormat {
        match self {
            NvencColor::ARGB => BufferFormat::Argb,
            NvencColor::ABGR => BufferFormat::Abgr,
            NvencColor::AYUV => BufferFormat::Ayuv,
            NvencColor::YUV444 => BufferFormat::Yuv444,
            NvencColor::YUV420 => BufferFormat::Iyuv,
            NvencColor::NV12 => BufferFormat::Nv12,
            NvencColor::YUV444_10bit => BufferFormat::Yuv444TenBit,
            NvencColor::ARGB_10bit => BufferFormat::Argb10,
            NvencColor::ABGR_10bit => BufferFormat::Abgr10,
            NvencColor::YUV420_10bit => BufferFormat::Yuv420TenBit,
        }
    }

    /// The driver's name of the pixel layout.
    pub fn into(self) -> (r: BufferFormat)
        ensures
            r == self.driver_name(),
    {
        match self {
            NvencColor::ARGB => BufferFormat::Argb,
            NvencColor::ABGR => BufferFormat::Abgr,
            NvencColor::AYUV => BufferFormat::Ayuv,
            NvencColor::YUV444 => BufferFormat::Yuv444,
            NvencColor::YUV420 => BufferFormat::Iyuv,
            NvencColor::NV12 => BufferFormat::Nv12,
            NvencColor::YUV444_10bit => BufferFormat::Yuv444TenBit,
            NvencColor::ARGB_10bit => BufferFormat::Argb10,
            NvencColor::ABGR_10bit => BufferFormat::Abgr10,
            NvencColor::YUV420_10bit => BufferFormat::Yuv420TenBit,
        }
    }
}

impl MultiPass {
    /// The driver's name of the mode.
    pub open spec fn driver_name(self) -> MultiPassMode {
        match self {
            MultiPass::Disabled => MultiPassMode::Disabled,
            MultiPass::QuarterRes => MultiPassMode::TwoPassQuarterResolution,
            MultiPass::FullRes => MultiPassMode::TwoPassFullResolution,
        }
    }

    /// The driver's name of the mode.
    pub fn into(self) -> (r: MultiPassMode)
        ensures
            r == self.driver_name(),
    {
        match self {
            MultiPass::Disabled => MultiPassMode::Disabled,
            MultiPass::QuarterRes => MultiPassMode::TwoPassQuarterResolution,
            MultiPass::FullRes => MultiPassMode::TwoPassFullResolution,
        }
    }
}

impl TuningInfo {
    /// The driver's name of the tuning.
    pub open spec fn driver_name(self) -> Tuning {
        match self {
            TuningInfo::LowLatency => Tuning::LowLatency,
            TuningInfo::UltraLowLatency => Tuning::UltraLowLatency,
        }
    }

    /// The driver's name of the tuning.
    pub fn into(self) -> (r: Tuning)
        ensures
            r == self.driver_name(),
    {
        match self {
            TuningInfo::LowLatency => Tuning::LowLatency,
            TuningInfo::UltraLowLatency => Tuning::UltraLowLatency,
        }
    }
}

impl NvencColor {
    /// The pixel layout in which the encoder takes a texture. There is none for `Y410`.
    pub open spec fn for_format(f: ColorFormat) -> Option<NvencColor> {
        match f {
            ColorFormat::Unknown => Some(NvencColor::ARGB),
            ColorFormat::ARGB8UNorm => Some(NvencColor::ARGB),
            ColorFormat::ABGR8UNorm => Some(NvencColor::ABGR),
            ColorFormat::YUV444 => Some(NvencColor::YUV444),
            ColorFormat::AYUV => Some(NvencColor::AYUV),
            ColorFormat::YUV420 => Some(NvencColor::YUV420),
            ColorFormat::NV12 => Some(NvencColor::NV12),
            ColorFormat::ARGB16Float => Some(NvencColor::ARGB_10bit),
            ColorFormat::ARGB10UNorm => Some(NvencColor::ARGB_10bit),
            ColorFormat::YUV444_10bit => Some(NvencColor::YUV444_10bit),
            ColorFormat::YUV420_10bit => Some(NvencColor::YUV420_10bit),
            ColorFormat::Y410 => None,
        }
    }

    /// The pixel layout in which the encoder takes a texture.
    pub fn from(f: ColorFormat) -> (r: NvencColor)
        requires
            f != ColorFormat::Y410,
        ensures
            Some(r) == NvencColor::for_format(f),
    {
        match f {
            ColorFormat::ARGB8UNorm => NvencColor::ARGB,
            ColorFormat::ABGR8UNorm => NvencColor::ABGR,
            ColorFormat::YUV444 => NvencColor::YUV444,
            ColorFormat::AYUV => NvencColor::AYUV,
            ColorFormat::YUV420 => NvencColor::YUV420,
            ColorFormat::NV12 => NvencColor::NV12,
            ColorFormat::ARGB16Float => NvencColor::ARGB_10bit,
            ColorFormat::ARGB10UNorm => NvencColor::ARGB_10bit,
            ColorFormat::YUV444_10bit => NvencColor::YUV444_10bit,
            ColorFormat::YUV420_10bit => NvencColor::YUV420_10bit,
            _ => NvencColor::ARGB,
        }
    }
}

/// The driver's name for a preset tells which one it is.
pub proof fn law_driver_preset(v: Preset)
    ensures
        v.driver_name() == Guid::PresetP1 <==> v == Preset::P1,
        v.driver_name() == Guid::PresetP2 <==> v == Preset::P2,
        v.driver_name() == Guid::PresetP3 <==> v == Preset::P3,
        v.driver_name() == Guid::PresetP4 <==> v == Preset::P4,
        v.driver_name() == Guid::PresetP5 <==> v == Preset::P5,
        v.driver_name() == Guid::PresetP6 <==> v == Preset::P6,
        v.driver_name() == Guid::PresetP7 <==> v == Preset::P7,
{
}

/// The driver's name for a codec tells which one it is.
pub proof fn law_driver_codec(v: NvencCodec)
    ensures
        v.driver_name() == Guid::CodecH264 <==> v == NvencCodec::H264,
        v.driver_name() == Guid::CodecHevc <==> v == NvencCodec::HEVC,
{
}

/// The driver's name for a pixel layout tells which one it is.
pub proof fn law_driver_color(v: NvencColor)
    ensures
        v.driver_name() == BufferFormat::Argb <==> v == NvencColor::ARGB,
        v.driver_name() == BufferFormat::Abgr <==> v == NvencColor::ABGR,
        v.driver_name() == BufferFormat::Ayuv <==> v == NvencColor::AYUV,
        v.driver_name() == BufferFormat::Yuv444 <==> v == NvencColor::YUV444,
        v.driver_name() == BufferFormat::Iyuv <==> v == NvencColor::YUV420,
        v.driver_name() == BufferFormat::Nv12 <==> v == NvencColor::NV12,
        v.driver_name() == BufferFormat::Yuv444TenBit <==> v == NvencColor::YUV444_10bit,
        v.driver_name() == BufferFormat::Argb10 <==> v == NvencColor::ARGB_10bit,
        v.driver_name() == BufferFormat::Abgr10 <==> v == NvencColor::ABGR_10bit,
        v.driver_name() == BufferFormat::Yuv420TenBit <==> v == NvencColor::YUV420_10bit,
{
}

/// The driver's name for a number of passes tells which one it is.
pub proof fn law_driver_multi_pass(v: MultiPass)
    ensures
        v.driver_name() == MultiPassMode::Disabled <==> v == MultiPass::Disabled,
        v.driver_name() == MultiPassMode::TwoPassQuarterResolution <==> v == MultiPass::QuarterRes,
        v.driver_name() == MultiPassMode::TwoPassFullResolution <==> v == MultiPass::FullRes,
{
}

/// The driver's name for a tuning tells which one it is.
pub proof fn law_driver_tuning(v: TuningInfo)
    ensures
        v.driver_name() == Tuning::LowLatency <==> v == TuningInfo::LowLatency,
        v.driver_name() == Tuning::UltraLowLatency <==> v == TuningInfo::UltraLowLatency,
{
}

/// The encoder takes every pixel layout but one. Layouts that it knows keep their colors and their depth; one
/// of floating point colors is taken in ten bits, and one that is not known as ARGB.
pub proof fn law_color_for_format(f: ColorFormat)
    ensures
        NvencColor::for_format(f) is None <==> f == ColorFormat::Y410,
        NvencColor::for_format(f) == Some(NvencColor::ARGB) <==> f == ColorFormat::Unknown || f
            == ColorFormat::ARGB8UNorm,
        NvencColor::for_format(f) == Some(NvencColor::ABGR) <==> f == ColorFormat::ABGR8UNorm,
        NvencColor::for_format(f) == Some(NvencColor::YUV444) <==> f == ColorFormat::YUV444,
        NvencColor::for_format(f) == Some(NvencColor::AYUV) <==> f == ColorFormat::AYUV,
        NvencColor::for_format(f) == Some(NvencColor::YUV420) <==> f == ColorFormat::YUV420,
        NvencColor::for_format(f) == Some(NvencColor::NV12) <==> f == ColorFormat::NV12,
        NvencColor::for_format(f) == Some(NvencColor::ARGB_10bit) <==> f == ColorFormat::ARGB16Float
            || f == ColorFormat::ARGB10UNorm,
        NvencColor::for_format(f) == Some(NvencColor::YUV444_10bit) <==> f
            == ColorFormat::YUV444_10bit,
        NvencColor::for_format(f) == Some(NvencColor::YUV420_10bit) <==> f
            == ColorFormat::YUV420_10bit,
{
}

} // verus!
