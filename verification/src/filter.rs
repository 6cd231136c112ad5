//! Filters: they scale a frame and change its colors.
use std::str::FromStr;
use vstd::prelude::*;
use crate::errors::{dxf_err_map, fails_with, DxFilterErr, ErrorView, RhinoError, RhinoResult};
use crate::options::{
    is_option, is_table, names, option_values, read_options, shapes, valid, value_at, valued, values,
    OptionShape, OptionSpec, ValueKind, ValueShape,
};
use crate::text::same_text;
use crate::texture::{
    create_texture, format_code, made_to, plain_texture, texture_created, Bind, TextureRequest,
};
use crate::{ColorFormat, Context, Frame, FrameType, FromOptions, Resolution, Texture, TextureDesc};

verus! {

/// The colors that a filter makes.
#[derive(Clone, Copy, Debug, PartialEq, Eq, PartialOrd, Ord, Structural)]
pub enum DxColorFilterType {
    NV12Filter,
    RGBFilter,
    AYUVFilter,
}

impl DxColorFilterType {
    /// The word for the colors.
    pub open spec fn name(self) -> Seq<char> {
        match self {
            DxColorFilterType::NV12Filter => "nv12"@,
            DxColorFilterType::RGBFilter => "rgb"@,
            DxColorFilterType::AYUVFilter => "ayuv"@,
        }
    }

    /// The words, in the order in which they are listed.
    pub open spec fn names() -> Seq<Seq<char>> {
        seq![
            "nv12"@,
            "rgb"@,
            "ayuv"@,
        ]
    }

    pub(crate) fn words() -> (r: Vec<&'static str>)
        ensures
            names(r@) == DxColorFilterType::names(),
    {
        let r = vec![
            "nv12",
            "rgb",
            "ayuv",
        ];
        assert(names(r@) == DxColorFilterType::names());
        r
    }

    /// The words in the list are those that stand for something.
    pub proof fn law_listed(s: Seq<char>)
        ensures
            DxColorFilterType::names().contains(s) <==> DxColorFilterType::named(s) is Some,
    {
        assert(DxColorFilterType::names()[0] == DxColorFilterType::NV12Filter.name());
        assert(DxColorFilterType::names()[1] == DxColorFilterType::RGBFilter.name());
        assert(DxColorFilterType::names()[2] == DxColorFilterType::AYUVFilter.name());
    }

    /// The colors that the word `s` stands for, if it stands for any.
    pub open spec fn named(s: Seq<char>) -> Option<DxColorFilterType> {
        if exists|v: DxColorFilterType| #[trigger] v.name() == s {
            Some(choose|v: DxColorFilterType| #[trigger] v.name() == s)
        } else {
            None
        }
    }

    /// The colors that the word `s` stands for, if it stands for any.
    pub fn from_name(s: &str) -> (r: Option<DxColorFilterType>)
        ensures
            r == DxColorFilterType::named(s@),
    {
        let r = if same_text(s, "nv12") {
            Some(DxColorFilterType::NV12Filter)
        } else if same_text(s, "rgb") {
            Some(DxColorFilterType::RGBFilter)
        } else if same_text(s, "ayuv") {
            Some(DxColorFilterType::AYUVFilter)
        } else {
            None
        };
        proof {
            if let Some(v) = r {
                DxColorFilterType::law_named(v);
            }
        }
        r
    }

    /// The word for the colors stands for them.
    pub proof fn law_named(v: DxColorFilterType)
        ensures
            DxColorFilterType::named(v.name()) == Some(v),
    {
        let w = choose|w: DxColorFilterType| #[trigger] w.name() == v.name();
        if w != v {
            DxColorFilterType::law_names_differ(w, v);
        }
    }

    /// No two kinds of colors share a word.
    pub proof fn law_names_differ(a: DxColorFilterType, b: DxColorFilterType)
        requires
            a != b,
        ensures
            a.name() != b.name(),
    {
        reveal_strlit("nv12");
        reveal_strlit("rgb");
        reveal_strlit("ayuv");
        if a.name() == b.name() {
            assert(a.name().len() == b.name().len());
            assert(a.name()[0] == b.name()[0]);
        }
    }

    /// A word stands for colors if and only if it is the word for them, and these are the words.
    pub proof fn law_words(v: DxColorFilterType, s: Seq<char>)
        ensures
            DxColorFilterType::named(s) == Some(v) <==> s == (match v {
                DxColorFilterType::NV12Filter => "nv12"@,
                DxColorFilterType::RGBFilter => "rgb"@,
                DxColorFilterType::AYUVFilter => "ayuv"@,
            }),
            DxColorFilterType::named(s) is None <==> forall|w: DxColorFilterType| #[trigger] w.name() != s,
    {
        DxColorFilterType::law_named(v);
        if let Some(w) = DxColorFilterType::named(s) {
            if w != v {
                DxColorFilterType::law_names_differ(w, v);
            }
        }
    }
}

/// What a filter makes of a frame: its colors and its size.
#[derive(Clone, Copy, Debug, PartialEq, Eq, Structural)]
pub struct DxColorConfig {
    pub color: DxColorFilterType,
    pub resolution: Resolution,
}

impl DxColorConfig {
    /// The options of a filter.
    pub open spec fn table() -> Seq<OptionShape> {
        seq![
            valued(
                "color"@,
                Some('c'),
                "COLOR"@,
                Some("used to determine the target color of the image"@),
                ValueShape::Words(DxColorFilterType::names()),
                Some("rgb"@),
            ),
            valued(
                "resolution"@,
                Some('r'),
                "RESOLUTION"@,
                None,
                ValueShape::Resolution,
                Some("1920x1080"@),
            ),
        ]
    }

    fn options() -> (r: Vec<OptionSpec>)
        ensures
            shapes(r@) == DxColorConfig::table(),
            is_table(shapes(r@)),
    {
        let mut r: Vec<OptionSpec> = Vec::new();
        let words = ValueKind::Words(DxColorFilterType::words());
        r.push(
            OptionSpec::new(
                "color",
                Some('c'),
                "COLOR",
                Some("used to determine the target color of the image"),
                words,
                Some("rgb"),
            ),
        );
        r.push(
            OptionSpec::new(
                "resolution",
                Some('r'),
                "RESOLUTION",
                None,
                ValueKind::Resolution,
                Some("1920x1080"),
            ),
        );
        proof {
            reveal_strlit("color");
            reveal_strlit("resolution");
            reveal_strlit("help");
            reveal_strlit("version");
            let t = DxColorConfig::table();
            assert(shapes(r@) == t);
            assert("help"@.len() == 4);
            assert("version"@.len() == 7 && "version"@[0] == 'v');
            assert(t[0].long.len() == 5 && t[0].long[0] == 'c');
            assert(t[1].long.len() == 10 && t[1].long[0] == 'r');
            DxColorConfig::lemma_defaults();
            let d = crate::options::defaults(t);
            assert forall|i: int| 0 <= i < t.len() implies is_option(#[trigger] t[i]) by {
                assert(d[i] == t[i].default_value);
            }
        }
        r
    }

    /// The configuration has the values `v`.
    pub open spec fn has_values(self, v: Seq<Option<Seq<char>>>) -> bool {
        &&& Some(self.color) == DxColorFilterType::named(v[0]->0)
        &&& Resolution::of(v[1]->0) == Ok::<Resolution, Seq<char>>(self.resolution)
    }

    /// The configuration with the values `v` of its options.
    pub fn from_values(v: &Vec<Option<String>>) -> (r: DxColorConfig)
        requires
            valid(values(v@), DxColorConfig::table()),
        ensures
            r.has_values(values(v@)),
    {
        let color = value_at(v, 0);
        let resolution = value_at(v, 1);
        proof {
            DxColorFilterType::law_listed(color@);
        }
        DxColorConfig {
            color: DxColorFilterType::from_name(color).unwrap(),
            resolution: Resolution::from_str(resolution).unwrap(),
        }
    }

    /// The configuration where no option is given.
    pub open spec fn standard() -> DxColorConfig {
        DxColorConfig {
            color: DxColorFilterType::RGBFilter,
            resolution: Resolution { width: 1920, height: 1080 },
        }
    }

    proof fn lemma_defaults()
        ensures
            ({
                let v = crate::options::defaults(DxColorConfig::table());
                &&& v.len() == 2
                &&& valid(v, DxColorConfig::table())
                &&& forall|c: DxColorConfig| #[trigger]
                    c.has_values(v) ==> c == DxColorConfig::standard()
            }),
    {
        let v = crate::options::defaults(DxColorConfig::table());
        DxColorFilterType::law_named(DxColorFilterType::RGBFilter);
        reveal_strlit("1920x1080");
        reveal_with_fuel(crate::text::decimal, 5);
        assert("1920x1080"@ == crate::text::decimal(1920).push('x') + crate::text::decimal(1080));
        crate::law_resolution_read(1920, 1080);
        DxColorFilterType::law_listed("rgb"@);
        assert(v[0] == Some("rgb"@));
        assert(v[1] == Some("1920x1080"@));
    }
}

impl FromStr for DxColorConfig {
    type Err = String;

    /// Reads an option string.
    fn from_str(s: &str) -> (r: Result<DxColorConfig, String>)
        ensures
            DxColorConfig::parsed(s@, r),
            crate::text::is_blank(s@) ==> r is Ok && r->Ok_0 == DxColorConfig::standard(),
    {
        let table = DxColorConfig::options();
        match read_options(&table, s) {
            Ok(v) => {
                let c = DxColorConfig::from_values(&v);
                proof {
                    if crate::text::is_blank(s@) {
                        assert(values(v@) == crate::options::defaults(DxColorConfig::table()));
                        DxColorConfig::lemma_defaults();
                    }
                }
                Ok(c)
            },
            Err(e) => Err(e),
        }
    }
}

impl FromOptions for DxColorConfig {
    open spec fn parsed(s: Seq<char>, r: Result<Self, String>) -> bool {
        match option_values(DxColorConfig::table(), s) {
            Err(e) => r matches Err(x) && x@ == e,
            Ok(v) => r matches Ok(c) && c.has_values(v),
        }
    }

    fn from_options(s: &str) -> Result<Self, String> {
        DxColorConfig::from_str(s)
    }
}

/// A filter that is run by the graphics device.
///
/// It is made in steps, each of which takes what the device returned for the step before: one of the
/// three constructors, `InputWanted::created`, `OutputWanted::created` and `FilterWanted::built`.
#[derive(Debug)]
pub struct DxColor<H> {
    pub config: DxColorConfig,
    pub input_tex: Texture<H>,
    pub output_tex: Texture<H>,
    pub out_format: ColorFormat,
}

/// A filter that needs a texture for the frames that come in.
#[derive(Clone, Copy, Debug, PartialEq, Eq, Structural)]
pub struct InputWanted {
    pub config: DxColorConfig,
    pub out_format: ColorFormat,
    pub input: TextureRequest,
}

/// A filter that needs a texture for the frames that go out.
#[derive(Debug)]
pub struct OutputWanted<H> {
    pub config: DxColorConfig,
    pub out_format: ColorFormat,
    pub input_tex: Texture<H>,
    pub output: TextureRequest,
}

/// A filter with its textures.
#[derive(Debug)]
pub struct FilterWanted<H> {
    pub config: DxColorConfig,
    pub out_format: ColorFormat,
    pub input_tex: Texture<H>,
    pub output_tex: Texture<H>,
}

/// `r` is a filter to `out_format` if there is a device, and the refusal of one if there is none.
pub open spec fn opened<D>(
    r: RhinoResult<InputWanted>,
    conf: DxColorConfig,
    ctx: Context<D>,
    out_format: ColorFormat,
) -> bool {
    match ctx {
        Context::Empty => fails_with(r, ErrorView::UnSupported),
        Context::DxContext(_) => r is Ok && r->Ok_0 == (InputWanted {
            config: conf,
            out_format,
            input: plain_texture(ColorFormat::ARGB8UNorm, conf.resolution, Bind::ShaderResource),
        }),
    }
}

fn open_filter<D>(conf: DxColorConfig, ctx: &Context<D>, out_format: ColorFormat) -> (r:
    RhinoResult<InputWanted>)
    ensures
        opened(r, conf, *ctx, out_format),
{
    match ctx {
        Context::Empty => Err(RhinoError::UnSupported),
        Context::DxContext(_) => Ok(
            InputWanted {
                config: conf,
                out_format,
                input: create_texture(
                    ColorFormat::ARGB8UNorm,
                    conf.resolution,
                    Bind::ShaderResource,
                ),
            },
        ),
    }
}

/// A filter to NV12 colors.
pub fn new_nv12_filter<D>(conf: DxColorConfig, ctx: &Context<D>) -> (r: RhinoResult<InputWanted>)
    ensures
        opened(r, conf, *ctx, ColorFormat::NV12),
{
    open_filter(conf, ctx, ColorFormat::NV12)
}

/// A filter that scales ARGB colors.
pub fn new_argb_filter<D>(conf: DxColorConfig, ctx: &Context<D>) -> (r: RhinoResult<InputWanted>)
    ensures
        opened(r, conf, *ctx, ColorFormat::ARGB8UNorm),
{
    open_filter(conf, ctx, ColorFormat::ARGB8UNorm)
}

/// A filter to AYUV colors.
pub fn new_ayuv_filter<D>(conf: DxColorConfig, ctx: &Context<D>) -> (r: RhinoResult<InputWanted>)
    ensures
        opened(r, conf, *ctx, ColorFormat::AYUV),
{
    open_filter(conf, ctx, ColorFormat::AYUV)
}

impl DxColorFilterType {
    /// The pixel layout of the frames of a filter.
    pub open spec fn out_format(self) -> ColorFormat {
        match self {
            DxColorFilterType::NV12Filter => ColorFormat::NV12,
            DxColorFilterType::RGBFilter => ColorFormat::ARGB8UNorm,
            DxColorFilterType::AYUVFilter => ColorFormat::AYUV,
        }
    }
}

/// The filter with the colors that its configuration names.
pub fn new_filter<D>(conf: DxColorConfig, ctx: &Context<D>) -> (r: RhinoResult<InputWanted>)
    ensures
        opened(r, conf, *ctx, conf.color.out_format()),
{
    match conf.color {
        DxColorFilterType::NV12Filter => new_nv12_filter(conf, ctx),
        DxColorFilterType::RGBFilter => new_argb_filter(conf, ctx),
        DxColorFilterType::AYUVFilter => new_ayuv_filter(conf, ctx),
    }
}

impl InputWanted {
    /// Takes the texture for the frames that come in.
    pub fn created<H>(self, tex: Result<Texture<H>, String>) -> (r: RhinoResult<OutputWanted<H>>)
        ensures
            match tex {
                Ok(t) => r is Ok && r->Ok_0 == (OutputWanted {
                    config: self.config,
                    out_format: self.out_format,
                    input_tex: t,
                    output: plain_texture(
                        self.out_format,
                        self.config.resolution,
                        Bind::RenderTarget,
                    ),
                }),
                Err(text) => fails_with(r, ErrorView::UnRecoverable(text@)),
            },
    {
        match texture_created(tex) {
            Ok(input_tex) => Ok(
                OutputWanted {
                    config: self.config,
                    out_format: self.out_format,
                    input_tex,
                    output: create_texture(
                        self.out_format,
                        self.config.resolution,
                        Bind::RenderTarget,
                    ),
                },
            ),
            Err(e) => Err(e),
        }
    }
}

impl<H> OutputWanted<H> {
    /// Takes the texture for the frames that go out.
    pub fn created(self, tex: Result<Texture<H>, String>) -> (r: RhinoResult<FilterWanted<H>>)
        ensures
            match tex {
                Ok(t) => r is Ok && r->Ok_0 == (FilterWanted {
                    config: self.config,
                    out_format: self.out_format,
                    input_tex: self.input_tex,
                    output_tex: t,
                }),
                Err(text) => fails_with(r, ErrorView::UnRecoverable(text@)),
            },
    {
        match texture_created(tex) {
            Ok(output_tex) => Ok(
                FilterWanted {
                    config: self.config,
                    out_format: self.out_format,
                    input_tex: self.input_tex,
                    output_tex,
                },
            ),
            Err(e) => Err(e),
        }
    }
}

impl<H> FilterWanted<H> {
    /// Takes whether the shaders of the filter could be set up for the two textures.
    pub fn built(self, built: Result<(), DxFilterErr>) -> (r: RhinoResult<DxColor<H>>)
        ensures
            match built {
                Ok(_) => r is Ok && r->Ok_0 == (DxColor {
                    config: self.config,
                    input_tex: self.input_tex,
                    output_tex: self.output_tex,
                    out_format: self.out_format,
                }),
                Err(e) => fails_with(r, ErrorView::UnRecoverable(e.text())),
            },
    {
        match built {
            Ok(_) => Ok(
                DxColor {
                    config: self.config,
                    input_tex: self.input_tex,
                    output_tex: self.output_tex,
                    out_format: self.out_format,
                },
            ),
            Err(e) => Err(dxf_err_map(e)),
        }
    }
}

/// The texture of a frame.
pub open spec fn frame_texture<H>(frame: Frame<H>) -> Texture<H> {
    match frame.data {
        FrameType::Dx11Frame(tex) => tex,
    }
}

impl<H> DxColor<H> {
    /// The texture that a new configuration needs for the frames that go out. It may have another
    /// size; the pixel layout stays.
    pub fn configure(&self, c: &DxColorConfig) -> (r: TextureRequest)
        ensures
            r == plain_texture(self.out_format, c.resolution, Bind::RenderTarget),
    {
        create_texture(self.out_format, c.resolution, Bind::RenderTarget)
    }

    /// Takes the texture for the frames that go out.
    pub fn output_created(&mut self, tex: Result<Texture<H>, String>) -> (r: RhinoResult<()>)
        ensures
            match tex {
                Ok(t) => r is Ok && *final(self) == (DxColor { output_tex: t, ..*old(self) }),
                Err(text) => fails_with(r, ErrorView::UnRecoverable(text@)) && *final(self)
                    == *old(self),
            },
    {
        match texture_created(tex) {
            Ok(t) => {
                self.output_tex = t;
                Ok(())
            },
            Err(e) => Err(e),
        }
    }

    /// Takes whether the shaders took the texture for the frames that go out. Only then is the
    /// configuration the new one.
    pub fn output_set(&mut self, c: DxColorConfig, set: Result<(), DxFilterErr>) -> (r: RhinoResult<
        (),
    >)
        ensures
            match set {
                Ok(_) => r is Ok && *final(self) == (DxColor { config: c, ..*old(self) }),
                Err(e) => fails_with(r, ErrorView::Unexpected(e.text())) && *final(self) == *old(
                    self,
                ),
            },
    {
        match set {
            Ok(_) => {
                self.config = c;
                Ok(())
            },
            Err(e) => Err(RhinoError::from(e)),
        }
    }

    /// The texture that is needed for the frames that come in, where `frame` is not described as
    /// they were so far.
    pub open spec fn input_needed(self, frame: Frame<H>) -> Option<TextureRequest> {
        let desc = frame_texture(frame).desc;
        if desc == self.input_tex.desc {
            None
        } else {
            Some(
                plain_texture(
                    desc.format,
                    Resolution { width: desc.width, height: desc.height },
                    Bind::ShaderResource,
                ),
            )
        }
    }

    /// The texture that is needed for the frames that come in, where `frame` is not described as
    /// they were so far.
    pub fn apply_filter(&self, frame: &Frame<H>) -> (r: Option<TextureRequest>)
        ensures
            r == self.input_needed(*frame),
            r is None <==> frame_texture(*frame).desc == self.input_tex.desc,
    {
        let desc = match &frame.data {
            FrameType::Dx11Frame(tex) => tex.desc,
        };
        if desc != self.input_tex.desc {
            Some(
                create_texture(
                    desc.format,
                    Resolution { width: desc.width, height: desc.height },
                    Bind::ShaderResource,
                ),
            )
        } else {
            None
        }
    }

    /// Takes the texture for the frames that come in.
    pub fn input_created(&mut self, tex: Result<Texture<H>, String>) -> (r: RhinoResult<()>)
        ensures
            match tex {
                Ok(t) => r is Ok && *final(self) == (DxColor { input_tex: t, ..*old(self) }),
                Err(text) => fails_with(r, ErrorView::UnRecoverable(text@)) && *final(self)
                    == *old(self),
            },
    {
        match texture_created(tex) {
            Ok(t) => {
                self.input_tex = t;
                Ok(())
            },
            Err(e) => Err(e),
        }
    }

    /// Takes whether the shaders took the texture for the frames that come in.
    pub fn input_set(&self, set: Result<(), DxFilterErr>) -> (r: RhinoResult<()>)
        ensures
            match set {
                Ok(_) => r is Ok,
                Err(e) => fails_with(r, ErrorView::Unexpected(e.text())),
            },
    {
        match set {
            Ok(_) => Ok(()),
            Err(e) => Err(RhinoError::from(e)),
        }
    }

    /// Takes whether the shaders ran. The frame that goes out started when `frame` did and holds a
    /// further handle of the texture that was drawn on.
    pub fn filtered(&self, frame: &Frame<H>, applied: Result<(), DxFilterErr>) -> (r: RhinoResult<
        Frame<H>,
    >) where H: Clone
        ensures
            match applied {
                Ok(_) => {
                    &&& r is Ok
                    &&& r->Ok_0.start_time == frame.start_time
                    &&& frame_texture(r->Ok_0).desc == self.output_tex.desc
                    &&& cloned(self.output_tex.raw, frame_texture(r->Ok_0).raw)
                },
                Err(e) => fails_with(r, ErrorView::UnRecoverable(e.text())),
            },
    {
        match applied {
            Ok(_) => {
                let tex = Texture { raw: self.output_tex.raw.clone(), desc: self.output_tex.desc };
                Ok(Frame::new_from(frame, FrameType::Dx11Frame(tex)))
            },
            Err(e) => Err(dxf_err_map(e)),
        }
    }
}

/// No texture is needed for the frames that come in only where the one that is there has the width, the
/// height and the pixel layout of the frame. Where any of the three differs, one with all three of the
/// frame is asked for.
pub proof fn law_input_fits_frame<H>(filter: DxColor<H>, frame: Frame<H>)
    ensures
        ({
            let FrameType::Dx11Frame(tex) = frame.data;
            let here = filter.input_tex.desc;
            &&& filter.input_needed(frame) is None <==> (here.width == tex.desc.width
                && here.height == tex.desc.height && here.format == tex.desc.format)
            &&& filter.input_needed(frame) matches Some(request) ==> {
                &&& request.width == tex.desc.width
                &&& request.height == tex.desc.height
                &&& request.format == format_code(tex.desc.format)
                &&& request.bind == Bind::ShaderResource
                &&& made_to(tex.desc, request)
            }
        }),
{
}

/// A filter on a device keeps its configuration, and takes frames of its size in ARGB; without a device
/// there is none.
pub proof fn law_filter_needs_a_device<D>(
    r: RhinoResult<InputWanted>,
    conf: DxColorConfig,
    ctx: Context<D>,
    out_format: ColorFormat,
)
    requires
        opened(r, conf, ctx, out_format),
    ensures
        r is Ok <==> ctx is DxContext,
        r matches Err(e) ==> e is UnSupported,
        r matches Ok(wanted) ==> {
            &&& wanted.config == conf
            &&& wanted.out_format == out_format
            &&& wanted.input.width == conf.resolution.width
            &&& wanted.input.height == conf.resolution.height
            &&& wanted.input.format == format_code(ColorFormat::ARGB8UNorm)
            &&& wanted.input.bind == Bind::ShaderResource
        },
{
}

/// Each kind of colors has its pixel layout, and no two share one.
pub proof fn law_out_formats(color: DxColorFilterType)
    ensures
        color.out_format() == ColorFormat::NV12 <==> color == DxColorFilterType::NV12Filter,
        color.out_format() == ColorFormat::ARGB8UNorm <==> color == DxColorFilterType::RGBFilter,
        color.out_format() == ColorFormat::AYUV <==> color == DxColorFilterType::AYUVFilter,
{
}

/// The texture of a frame is the one that it holds.
pub proof fn law_frame_texture<H>(tex: Texture<H>, frame: Frame<H>)
    requires
        frame.data == FrameType::Dx11Frame(tex),
    ensures
        frame_texture(frame) == tex,
{
}

/// Once the texture for a frame is there, no frame that is described alike needs another one.
pub proof fn law_input_settles<H>(
    filter: DxColor<H>,
    frame: Frame<H>,
    tex: Texture<H>,
    next: Frame<H>,
)
    requires
        tex.desc == frame_texture(frame).desc,
        frame_texture(next).desc == frame_texture(frame).desc,
    ensures
        (DxColor { input_tex: tex, ..filter }).input_needed(next) is None,
{
}

/// The options by their names, with the letters and the defaults that some have. Each takes one value.
pub proof fn law_filter_options()
    ensures
        ({
            let t = DxColorConfig::table();
            &&& t.len() == 2
            &&& t[0].long == "color"@
            &&& t[0].short == Some('c')
            &&& t[0].kind == ValueShape::Words(DxColorFilterType::names())
            &&& t[0].default_value == Some("rgb"@)
            &&& t[0].min_values == 1
            &&& t[0].missing is None
            &&& t[1].long == "resolution"@
            &&& t[1].short == Some('r')
            &&& t[1].kind == ValueShape::Resolution
            &&& t[1].default_value == Some("1920x1080"@)
            &&& t[1].min_values == 1
            &&& t[1].missing is None
        }),
{
}

/// An option string is read if and only if `clap` takes it. The configuration then has the values that the
/// string gives its options, and otherwise the error is the one that is told.
pub proof fn law_filter_configuration_is_read(s: Seq<char>, r: Result<DxColorConfig, String>)
    requires
        DxColorConfig::parsed(s, r),
    ensures
        r is Ok <==> option_values(DxColorConfig::table(), s) is Ok,
        r matches Ok(c) ==> c.has_values(option_values(DxColorConfig::table(), s)->Ok_0),
        r matches Err(e) ==> e@ == option_values(DxColorConfig::table(), s)->Err_0,
{
}

/// The values of the options tell the configuration: the word for the colors, and the resolution.
pub proof fn law_filter_values(c: DxColorConfig, v: Seq<Option<Seq<char>>>)
    requires
        c.has_values(v),
    ensures
        c.color.name() == v[0]->0,
        Resolution::of(v[1]->0) is Ok,
        c.resolution.width == Resolution::of(v[1]->0)->Ok_0.width,
        c.resolution.height == Resolution::of(v[1]->0)->Ok_0.height,
{
}

/// The configuration without options has the default of each option.
pub proof fn law_filter_default(c: DxColorConfig)
    requires
        c.has_values(crate::options::defaults(DxColorConfig::table())),
    ensures
        c == DxColorConfig::standard(),
        c.color == DxColorFilterType::RGBFilter,
        c.resolution.width == 1920,
        c.resolution.height == 1080,
{
    DxColorConfig::lemma_defaults();
}

} // verus!
