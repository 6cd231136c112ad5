//! Sources: they capture a screen.
use std::str::FromStr;
use vstd::prelude::*;
use crate::errors::{
    dda_err_map, dda_error, fails_with, DDApiError, ErrorView, RhinoError, RhinoResult,
};
use crate::options::{
    is_option, is_table, option_values, read_options, shapes, valid, value_at, valued, values,
    OptionShape, OptionSpec, ValueKind, ValueShape,
};
use crate::rate::Rate;
use crate::text::{joined_text, parse_signed_u32, same_text, signed_u32};
use crate::{Context, DxContext, Frame, FrameType, FromOptions, Resolution, Signal, Texture};

verus! {

/// What is captured, and how.
#[derive(Debug)]
pub struct ScreenCapConfig {
    /// Index of the graphics adapter.
    pub adapter: u32,
    /// Index of the screen to capture.
    pub screen: u32,
    /// Refresh rate to set for the display. Zero leaves it as it is.
    pub refresh_rate: Rate,
    /// Resolution to set for the display.
    pub resolution: Option<Resolution>,
    /// The screen is captured without the cursor.
    pub skip_cursor: bool,
}

impl Clone for ScreenCapConfig {
    fn clone(&self) -> (r: Self)
        ensures
            r.same(*self),
    {
        ScreenCapConfig {
            adapter: self.adapter,
            screen: self.screen,
            refresh_rate: self.refresh_rate.clone(),
            resolution: self.resolution,
            skip_cursor: self.skip_cursor,
        }
    }
}

impl ScreenCapConfig {
    /// Both say the same.
    pub open spec fn same(self, other: ScreenCapConfig) -> bool {
        &&& self.adapter == other.adapter
        &&& self.screen == other.screen
        &&& self.refresh_rate@ == other.refresh_rate@
        &&& self.resolution == other.resolution
        &&& self.skip_cursor == other.skip_cursor
    }

    /// The options of a screen capture.
    pub open spec fn table() -> Seq<OptionShape> {
        seq![
            valued(
                "adapter"@,
                Some('a'),
                "ADAPTER"@,
                Some("index of the screen to capture"@),
                ValueShape::Number,
                Some("0"@),
            ),
            valued(
                "screen"@,
                Some('s'),
                "SCREEN"@,
                Some("index of the screen to capture"@),
                ValueShape::Number,
                Some("0"@),
            ),
            valued(
                "refresh-rate"@,
                Some('f'),
                "REFRESH_RATE"@,
                Some("frame rate to output"@),
                ValueShape::Rate,
                Some("0"@),
            ),
            valued(
                "resolution"@,
                Some('r'),
                "RESOLUTION"@,
                Some("resolution to set for the display"@),
                ValueShape::Resolution,
                None,
            ),
            OptionShape {
                long: "skip-cursor"@,
                short: None,
                value_name: "SKIP_CURSOR"@,
                help: Some("The screen will be captured without cursor"@),
                kind: ValueShape::Flag,
                min_values: 0,
                missing: Some("true"@),
                default_value: Some("false"@),
            },
        ]
    }

    fn options() -> (r: Vec<OptionSpec>)
        ensures
            shapes(r@) == ScreenCapConfig::table(),
            is_table(shapes(r@)),
    {
        let mut r: Vec<OptionSpec> = Vec::new();
        r.push(
            OptionSpec::new(
                "adapter",
                Some('a'),
                "ADAPTER",
                Some("index of the screen to capture"),
                ValueKind::Number,
                Some("0"),
            ),
        );
        r.push(
            OptionSpec::new(
                "screen",
                Some('s'),
                "SCREEN",
                Some("index of the screen to capture"),
                ValueKind::Number,
                Some("0"),
            ),
        );
        r.push(
            OptionSpec::new(
                "refresh-rate",
                Some('f'),
                "REFRESH_RATE",
                Some("frame rate to output"),
                ValueKind::Rate,
                Some("0"),
            ),
        );
        r.push(
            OptionSpec::new(
                "resolution",
                Some('r'),
                "RESOLUTION",
                Some("resolution to set for the display"),
                ValueKind::Resolution,
                None,
            ),
        );
        r.push(
            OptionSpec {
                long: "skip-cursor",
                short: None,
                value_name: "SKIP_CURSOR",
                help: Some("The screen will be captured without cursor"),
                kind: ValueKind::Flag,
                min_values: 0,
                missing: Some("true"),
                default_value: Some("false"),
            },
        );
        proof {
            reveal_strlit("adapter");
            reveal_strlit("screen");
            reveal_strlit("refresh-rate");
            reveal_strlit("resolution");
            reveal_strlit("skip-cursor");
            reveal_strlit("help");
            reveal_strlit("version");
            let t = ScreenCapConfig::table();
            assert(shapes(r@) == t);
            assert("help"@.len() == 4);
            assert("version"@.len() == 7 && "version"@[0] == 'v');
            assert(t[0].long.len() == 7 && t[0].long[0] == 'a');
            assert(t[1].long.len() == 6 && t[1].long[0] == 's');
            assert(t[2].long.len() == 12 && t[2].long[0] == 'r');
            assert(t[3].long.len() == 10 && t[3].long[0] == 'r');
            assert(t[4].long.len() == 11 && t[4].long[0] == 's');
            ScreenCapConfig::lemma_defaults();
            let d = crate::options::defaults(t);
            assert forall|i: int| 0 <= i < t.len() implies is_option(#[trigger] t[i]) by {
                assert(d[i] == t[i].default_value);
            }
        }
        r
    }

    /// The configuration has the values `v`.
    pub open spec fn has_values(self, v: Seq<Option<Seq<char>>>) -> bool {
        &&& Some(self.adapter) == signed_u32(v[0]->0)
        &&& Some(self.screen) == signed_u32(v[1]->0)
        &&& self.refresh_rate@ == v[2]->0
        &&& match v[3] {
            Some(s) => Resolution::of(s) == Ok::<Resolution, Seq<char>>(self.resolution->0)
                && self.resolution is Some,
            None => self.resolution is None,
        }
        &&& self.skip_cursor == (v[4]->0 == "true"@)
    }

    /// The configuration with the values `v` of its options.
    pub fn from_values(v: &Vec<Option<String>>) -> (r: ScreenCapConfig)
        requires
            valid(values(v@), ScreenCapConfig::table()),
        ensures
            r.has_values(values(v@)),
    {
        let ghost t = ScreenCapConfig::table();
        assert(t[3].kind is Resolution);
        assert(values(v@)[3] matches Some(s) ==> Resolution::of(s) is Ok);
        let resolution = match &v[3] {
            Some(s) => Some(Resolution::from_str(s.as_str()).unwrap()),
            None => None,
        };
        ScreenCapConfig {
            adapter: parse_signed_u32(value_at(v, 0)).unwrap(),
            screen: parse_signed_u32(value_at(v, 1)).unwrap(),
            refresh_rate: Rate::from_text(value_at(v, 2)).unwrap(),
            resolution,
            skip_cursor: same_text(value_at(v, 4), "true"),
        }
    }

    /// The configuration where no option is given: the first screen of the first adapter as it is,
    /// with the cursor.
    pub open spec fn is_default(self) -> bool {
        &&& self.adapter == 0
        &&& self.screen == 0
        &&& self.refresh_rate@ == "0"@
        &&& self.resolution is None
        &&& !self.skip_cursor
    }

    proof fn lemma_defaults()
        ensures
            ({
                let v = crate::options::defaults(ScreenCapConfig::table());
                &&& v.len() == 5
                &&& valid(v, ScreenCapConfig::table())
                &&& forall|c: ScreenCapConfig| #[trigger] c.has_values(v) ==> c.is_default()
            }),
    {
        let v = crate::options::defaults(ScreenCapConfig::table());
        reveal_strlit("0");
        reveal_strlit("true");
        reveal_strlit("false");
        assert("true"@.len() != "false"@.len());
        assert("0"@ == crate::text::decimal(0));
        crate::text::law_decimal_read(0, u32::MAX as nat);
        assert(signed_u32("0"@) == Some(0u32));
        crate::rate::lemma_decimal_is_rate(0);
        assert(v[0] == Some("0"@));
        assert(v[1] == Some("0"@));
        assert(v[2] == Some("0"@));
        assert(v[3] == None::<Seq<char>>);
        assert(v[4] == Some("false"@));
    }
}

impl FromStr for ScreenCapConfig {
    type Err = String;

    /// Reads an option string.
    fn from_str(s: &str) -> (r: Result<ScreenCapConfig, String>)
        ensures
            ScreenCapConfig::parsed(s@, r),
            crate::text::is_blank(s@) ==> r is Ok && r->Ok_0.is_default(),
    {
        let table = ScreenCapConfig::options();
        match read_options(&table, s) {
            Ok(v) => {
                let c = ScreenCapConfig::from_values(&v);
                proof {
                    if crate::text::is_blank(s@) {
                        assert(values(v@) == crate::options::defaults(ScreenCapConfig::table()));
                        ScreenCapConfig::lemma_defaults();
                    }
                }
                Ok(c)
            },
            Err(e) => Err(e),
        }
    }
}

impl FromOptions for ScreenCapConfig {
    open spec fn parsed(s: Seq<char>, r: Result<Self, String>) -> bool {
        match option_values(ScreenCapConfig::table(), s) {
            Err(e) => r matches Err(x) && x@ == e,
            Ok(v) => r matches Ok(c) && c.has_values(v),
        }
    }

    fn from_options(s: &str) -> Result<Self, String> {
        ScreenCapConfig::from_str(s)
    }
}

/// How a display is turned.
#[derive(Clone, Copy, Debug, PartialEq, Eq, Structural)]
pub enum DisplayOrientation {
    NoRotation,
    Rotate90,
    Rotate180,
    Rotate270,
}

/// The resolution and the refresh rate of a display.
#[derive(Clone, Copy, Debug, PartialEq, Eq, Structural)]
pub struct DisplayMode {
    pub width: u32,
    pub height: u32,
    pub orientation: DisplayOrientation,
    /// Numerator of the refresh rate.
    pub refresh_num: u32,
    /// Denominator of the refresh rate.
    pub refresh_den: u32,
    pub hdr: bool,
}

impl DisplayMode {
    /// The mode with another resolution.
    pub open spec fn sized(self, resolution: Resolution) -> DisplayMode {
        DisplayMode { width: resolution.width, height: resolution.height, ..self }
    }

    /// The mode with another refresh rate, in frames per thousand seconds. Without one it stays.
    pub open spec fn refreshed(self, refresh_milli: Option<u32>) -> DisplayMode {
        match refresh_milli {
            Some(n) => DisplayMode { refresh_num: n, refresh_den: 1000, ..self },
            None => self,
        }
    }

    fn resize(&mut self, resolution: Resolution)
        ensures
            *final(self) == old(self).sized(resolution),
    {
        self.width = resolution.width;
        self.height = resolution.height;
    }

    fn refresh(&mut self, refresh_milli: Option<u32>)
        ensures
            *final(self) == old(self).refreshed(refresh_milli),
    {
        match refresh_milli {
            Some(n) => {
                self.refresh_num = n;
                self.refresh_den = 1000;
            },
            None => {},
        }
    }
}

/// A screen that is captured.
///
/// It is opened in steps, each of which takes what the display or the duplication interface returned
/// for the step before: `new`, `ModeWanted::mode_set`, `ModeSet::mode_read` and
/// `ModeRead::duplicated`. The refresh rate of a configuration goes in as frames per thousand seconds,
/// or as nothing where it is zero.
#[derive(Debug)]
pub struct DxDesktopDuplication {
    pub config: ScreenCapConfig,
    pub orig_mode: DisplayMode,
    pub curr_mode: DisplayMode,
    pub started: bool,
}

/// A screen with the mode that its display is to get.
#[derive(Debug)]
pub struct ModeWanted {
    pub config: ScreenCapConfig,
    pub orig_mode: DisplayMode,
    pub wanted: DisplayMode,
}

/// A screen with a display that got its mode.
#[derive(Debug)]
pub struct ModeSet {
    pub config: ScreenCapConfig,
    pub orig_mode: DisplayMode,
}

/// A screen with a display of a known mode.
#[derive(Debug)]
pub struct ModeRead {
    pub config: ScreenCapConfig,
    pub orig_mode: DisplayMode,
    pub curr_mode: DisplayMode,
}

/// What a configured screen does next.
#[derive(Clone, Copy, Debug, PartialEq, Eq, Structural)]
pub enum ConfigureStep {
    /// Set the mode of the display.
    SetMode(DisplayMode),
    /// Capture with or without the cursor.
    SetSkipCursor(bool),
}

/// The mode that a display is to get for a screen: the resolution and the refresh rate that the
/// configuration names, the others as they are.
pub open spec fn wanted_mode(
    current: DisplayMode,
    resolution: Option<Resolution>,
    refresh_milli: Option<u32>,
) -> DisplayMode {
    match resolution {
        Some(r) => current.sized(r).refreshed(refresh_milli),
        None => current.refreshed(refresh_milli),
    }
}

/// The error for a screen that could not be captured.
pub open spec fn capture_error(e: DDApiError) -> ErrorView {
    if e.passes() {
        ErrorView::Recoverable("Recoverable Error: `"@ + e.text() + "`"@)
    } else {
        ErrorView::UnRecoverable("Unreacoverable error `"@ + e.text() + "`"@)
    }
}

impl DxDesktopDuplication {
    /// The adapter and the display of a screen, as far as they were found.
    pub fn get_adapter_output<A, D>(adapter: Option<A>, display: Option<D>) -> (r: RhinoResult<(A, D)>)
        ensures
            adapter is Some && display is Some ==> r is Ok && r->Ok_0 == (adapter->0, display->0),
            adapter is None || display is None ==> fails_with(r, ErrorView::NotFound),
    {
        if let Some(adapter) = adapter {
            if let Some(screen) = display {
                Ok((adapter, screen))
            } else {
                Err(RhinoError::NotFound)
            }
        } else {
            Err(RhinoError::NotFound)
        }
    }

    /// Opens a screen with a display in the mode `current`.
    pub fn new(
        conf: ScreenCapConfig,
        refresh_milli: Option<u32>,
        current: Result<DisplayMode, DDApiError>,
    ) -> (r: RhinoResult<ModeWanted>)
        ensures
            match current {
                Ok(mode) => r is Ok && r->Ok_0.config == conf && r->Ok_0.orig_mode == mode
                    && r->Ok_0.wanted == wanted_mode(mode, conf.resolution, refresh_milli),
                Err(e) => fails_with(r, ErrorView::Unexpected(e.text())),
            },
    {
        match current {
            Ok(orig_mode) => {
                let mut wanted = orig_mode;
                if let Some(res) = conf.resolution {
                    wanted.resize(res);
                }
                wanted.refresh(refresh_milli);
                Ok(ModeWanted { config: conf, orig_mode, wanted })
            },
            Err(e) => Err(RhinoError::Unexpected(e.to_text())),
        }
    }

    /// Takes a new configuration. The display gets a new mode only where there is a resolution.
    pub fn configure(&mut self, c: &ScreenCapConfig, refresh_milli: Option<u32>) -> (r:
        ConfigureStep)
        ensures
            goes_on(*old(self), *final(self)),
            match c.resolution {
                Some(resolution) => {
                    &&& *final(self) == (DxDesktopDuplication {
                        curr_mode: old(self).curr_mode.sized(resolution).refreshed(refresh_milli),
                        ..*old(self)
                    })
                    &&& r == ConfigureStep::SetMode(final(self).curr_mode)
                },
                None => *final(self) == *old(self) && r == ConfigureStep::SetSkipCursor(
                    c.skip_cursor,
                ),
            },
    {
        match c.resolution {
            Some(res) => {
                let mut mode = self.curr_mode;
                mode.resize(res);
                mode.refresh(refresh_milli);
                self.curr_mode = mode;
                ConfigureStep::SetMode(mode)
            },
            None => ConfigureStep::SetSkipCursor(c.skip_cursor),
        }
    }

    /// Takes what the display returned for its new mode.
    pub fn mode_set(&self, set: Result<(), DDApiError>) -> (r: RhinoResult<()>)
        ensures
            match set {
                Ok(_) => r is Ok,
                Err(e) => fails_with(r, dda_error(e)),
            },
    {
        match set {
            Ok(_) => Ok(()),
            Err(e) => Err(dda_err_map(e)),
        }
    }

    /// Takes the mode that the display is in after it was set.
    pub fn mode_read(&mut self, c: &ScreenCapConfig, current: Result<DisplayMode, DDApiError>) -> (r:
        RhinoResult<ConfigureStep>)
        ensures
            goes_on(*old(self), *final(self)),
            match current {
                Ok(mode) => {
                    &&& *final(self) == (DxDesktopDuplication { curr_mode: mode, ..*old(self) })
                    &&& r is Ok
                    &&& r->Ok_0 == ConfigureStep::SetSkipCursor(c.skip_cursor)
                },
                Err(e) => *final(self) == *old(self) && fails_with(r, dda_error(e)),
            },
    {
        match current {
            Ok(mode) => {
                self.curr_mode = mode;
                Ok(ConfigureStep::SetSkipCursor(c.skip_cursor))
            },
            Err(e) => Err(dda_err_map(e)),
        }
    }

    /// The mode that the display gets back when the screen is no longer captured.
    pub fn restored_mode(&self) -> (r: DisplayMode)
        ensures
            r == self.orig_mode,
    {
        self.orig_mode
    }

    /// Starts the first capture. The priorities of the process are raised before it, and only then.
    pub fn start(&mut self) -> (r: bool)
        ensures
            r == !old(self).started,
            *final(self) == (DxDesktopDuplication { started: true, ..*old(self) }),
            goes_on(*old(self), *final(self)),
    {
        let first = !self.started;
        self.started = true;
        first
    }

    /// Takes what the capture of a frame returned, or nothing while it is still waiting for one.
    pub fn poll_next<H>(polled: Option<Result<Texture<H>, DDApiError>>) -> (r: Option<
        RhinoResult<Frame<H>>,
    >)
        ensures
            match polled {
                None => r is None,
                Some(Ok(tex)) => {
                    &&& r is Some && r->0 is Ok
                    &&& r->0->Ok_0.data == FrameType::Dx11Frame(tex)
                },
                Some(Err(e)) => r is Some && fails_with(r->0, capture_error(e)),
            },
    {
        match polled {
            None => None,
            Some(result) => match result {
                Ok(tex) => Some(Ok(Frame::new(FrameType::Dx11Frame(tex)))),
                Err(e) => {
                    let text = e.to_text();
                    if e.is_passing() {
                        let mut out = joined_text("Recoverable Error: `", text.as_str());
                        out.append("`");
                        Some(Err(RhinoError::Recoverable(out)))
                    } else {
                        let mut out = joined_text("Unreacoverable error `", text.as_str());
                        out.append("`");
                        Some(Err(RhinoError::UnRecoverable(out)))
                    }
                },
            },
        }
    }
}

impl ModeWanted {
    /// Takes what the display returned for its new mode.
    pub fn mode_set(self, set: Result<(), DDApiError>) -> (r: RhinoResult<ModeSet>)
        ensures
            match set {
                Ok(_) => r is Ok && r->Ok_0 == (ModeSet {
                    config: self.config,
                    orig_mode: self.orig_mode,
                }),
                Err(e) => fails_with(
                    r,
                    ErrorView::Unexpected("change display mode failed "@ + e.text()),
                ),
            },
    {
        match set {
            Ok(_) => Ok(ModeSet { config: self.config, orig_mode: self.orig_mode }),
            Err(e) => {
                let text = e.to_text();
                Err(
                    RhinoError::Unexpected(
                        joined_text("change display mode failed ", text.as_str()),
                    ),
                )
            },
        }
    }
}

impl ModeSet {
    /// Takes the mode that the display is in after it was set.
    pub fn mode_read(self, current: Result<DisplayMode, DDApiError>) -> (r: RhinoResult<ModeRead>)
        ensures
            match current {
                Ok(mode) => r is Ok && r->Ok_0 == (ModeRead {
                    config: self.config,
                    orig_mode: self.orig_mode,
                    curr_mode: mode,
                }),
                Err(e) => fails_with(r, ErrorView::Unexpected(e.text())),
            },
    {
        match current {
            Ok(mode) => Ok(
                ModeRead { config: self.config, orig_mode: self.orig_mode, curr_mode: mode },
            ),
            Err(e) => Err(RhinoError::Unexpected(e.to_text())),
        }
    }
}

impl ModeRead {
    /// Takes the device of the duplication interface, if it could be opened. The stages that follow
    /// share it through the context. The interface is then told whether to capture the cursor.
    pub fn duplicated<D>(self, opened: Result<D, DDApiError>, ctx: &mut Context<D>) -> (r:
        RhinoResult<(DxDesktopDuplication, ConfigureStep)>)
        ensures
            match opened {
                Ok(device) => {
                    &&& r is Ok
                    &&& r->Ok_0.0 == (DxDesktopDuplication {
                        config: self.config,
                        orig_mode: self.orig_mode,
                        curr_mode: self.curr_mode,
                        started: false,
                    })
                    &&& r->Ok_0.1 == ConfigureStep::SetSkipCursor(self.config.skip_cursor)
                    &&& *final(ctx) == Context::DxContext(DxContext { device })
                },
                Err(e) => fails_with(r, dda_error(e)) && *final(ctx) == *old(ctx),
            },
    {
        match opened {
            Ok(device) => {
                *ctx = Context::DxContext(DxContext { device });
                let step = ConfigureStep::SetSkipCursor(self.config.skip_cursor);
                let screen = DxDesktopDuplication {
                    config: self.config,
                    orig_mode: self.orig_mode,
                    curr_mode: self.curr_mode,
                    started: false,
                };
                Ok((screen, step))
            },
            Err(e) => Err(dda_err_map(e)),
        }
    }
}

impl Signal for DxDesktopDuplication {
    open spec fn signalled(pre: Self, flags: u32, post: Self, r: RhinoResult<()>) -> bool {
        post == pre && r is Ok
    }

    fn signal(&mut self, _flags: u32) -> RhinoResult<()> {
        Ok(())
    }
}

/// A configuration that names neither a resolution nor a refresh rate leaves the display as it is.
pub proof fn law_nothing_asked_nothing_changed(current: DisplayMode)
    ensures
        wanted_mode(current, None, None) == current,
{
}

/// A display gets the resolution that is asked for and keeps its own where none is; independently of that
/// it gets the refresh rate that is asked for, in thousandths, and keeps its own where none is. It is not
/// turned, and its depth stays.
pub proof fn law_wanted_mode(
    current: DisplayMode,
    resolution: Option<Resolution>,
    refresh_milli: Option<u32>,
)
    ensures
        ({
            let wanted = wanted_mode(current, resolution, refresh_milli);
            &&& resolution matches Some(res) ==> wanted.width == res.width && wanted.height
                == res.height
            &&& resolution is None ==> wanted.width == current.width && wanted.height
                == current.height
            &&& refresh_milli matches Some(n) ==> wanted.refresh_num == n && wanted.refresh_den
                == 1000
            &&& refresh_milli is None ==> wanted.refresh_num == current.refresh_num
                && wanted.refresh_den == current.refresh_den
            &&& wanted.orientation == current.orientation
            &&& wanted.hdr == current.hdr
        }),
{
}

/// A mode with another resolution or another refresh rate is the same mode in all else.
pub proof fn law_modes_change_apart(mode: DisplayMode, res: Resolution, refresh_milli: Option<u32>)
    ensures
        mode.sized(res).width == res.width,
        mode.sized(res).height == res.height,
        mode.sized(res).refresh_num == mode.refresh_num,
        mode.sized(res).refresh_den == mode.refresh_den,
        mode.sized(res).orientation == mode.orientation,
        mode.sized(res).hdr == mode.hdr,
        mode.refreshed(refresh_milli).width == mode.width,
        mode.refreshed(refresh_milli).height == mode.height,
        mode.refreshed(refresh_milli).orientation == mode.orientation,
        mode.refreshed(refresh_milli).hdr == mode.hdr,
        refresh_milli matches Some(n) ==> mode.refreshed(refresh_milli).refresh_num == n
            && mode.refreshed(refresh_milli).refresh_den == 1000,
        refresh_milli is None ==> mode.refreshed(refresh_milli) == mode,
{
}

/// An error of the capture is recoverable where access was lost or denied and final otherwise, and its
/// text holds the error.
pub proof fn law_capture_errors(e: DDApiError)
    ensures
        capture_error(e) is Recoverable <==> e is AccessLost || e is AccessDenied,
        capture_error(e) is UnRecoverable <==> !(e is AccessLost || e is AccessDenied),
        capture_error(e) matches ErrorView::Recoverable(s) ==> s == "Recoverable Error: `"@
            + e.text() + "`"@,
        capture_error(e) matches ErrorView::UnRecoverable(s) ==> s == "Unreacoverable error `"@
            + e.text() + "`"@,
{
}

/// The graphics scheduler is asked for the real time class before the high one.
pub proof fn law_gpu_priorities()
    ensures
        GPU_PRIORITY_REALTIME == 5,
        GPU_PRIORITY_HIGH == 4,
{
}

/// A screen that goes on being captured: the mode of its display may have changed, and it may have
/// been started.
pub open spec fn goes_on(pre: DxDesktopDuplication, post: DxDesktopDuplication) -> bool {
    post == DxDesktopDuplication { curr_mode: post.curr_mode, started: post.started, ..pre }
}

/// However often a screen is configured and started, the display gets back the mode that it had when
/// the screen was opened.
pub proof fn law_first_mode_comes_back(screens: Seq<DxDesktopDuplication>)
    requires
        screens.len() > 0,
        forall|i: int|
            #![trigger screens[i]]
            0 < i < screens.len() ==> goes_on(screens[i - 1], screens[i]),
    ensures
        screens.last().orig_mode == screens.first().orig_mode,
        screens.last().config == screens.first().config,
    decreases screens.len(),
{
    if screens.len() > 1 {
        let before = screens.drop_last();
        assert(goes_on(screens[screens.len() - 2], screens[screens.len() - 1]));
        assert forall|i: int| #![trigger before[i]] 0 < i < before.len() implies goes_on(
            before[i - 1],
            before[i],
        ) by {
            assert(goes_on(screens[i - 1], screens[i]));
        }
        law_first_mode_comes_back(before);
    }
}

/// A stream goes on after an error of the capture if and only if the desktop was only taken away for
/// a while.
pub proof fn law_capture_goes_on<H>(e: DDApiError, error: RhinoError)
    requires
        error@ == capture_error(e),
    ensures
        e.passes() <==> crate::stream::after_error::<H>(error) is PollSource,
        !e.passes() <==> crate::stream::after_error::<H>(error) is Exit,
{
}

/// The priority of the thread that captures.
#[derive(Clone, Copy, Debug, PartialEq, Eq, Structural)]
pub enum ThreadPriority {
    Highest,
    TimeCritical,
}

/// How the priorities of the process are raised.
#[derive(Clone, Copy, Debug, PartialEq, Eq, Structural)]
pub struct PriorityPlan {
    /// Set the high priority class.
    pub high_class: bool,
    pub thread: ThreadPriority,
}

/// The priorities of a process that got the real time class or was refused it.
pub fn set_thread_priority(realtime: bool) -> (r: PriorityPlan)
    ensures
        realtime ==> r == (PriorityPlan { high_class: false, thread: ThreadPriority::TimeCritical }),
        !realtime ==> r == (PriorityPlan { high_class: true, thread: ThreadPriority::Highest }),
{
    if realtime {
        PriorityPlan { high_class: false, thread: ThreadPriority::TimeCritical }
    } else {
        PriorityPlan { high_class: true, thread: ThreadPriority::Highest }
    }
}

/// The scheduling class that the process asks of the graphics scheduler first: real time.
pub const GPU_PRIORITY_REALTIME: u32 = 5;

/// The scheduling class that it asks for next: high.
pub const GPU_PRIORITY_HIGH: u32 = 4;

/// The scheduling class to ask for after `status` came back for the first one.
pub fn set_gpu_priority(status: u32) -> (r: Option<u32>)
    ensures
        r == (if status == 0 {
            None
        } else {
            Some(GPU_PRIORITY_HIGH)
        }),
{
    if status != 0 {
        Some(GPU_PRIORITY_HIGH)
    } else {
        None
    }
}

/// The options by their names, with the letters and the defaults that some have. Each takes one value, but
/// for the last, which may stand alone.
pub proof fn law_screen_options()
    ensures
        ({
            let t = ScreenCapConfig::table();
            &&& t.len() == 5
            &&& t[0].long == "adapter"@
            &&& t[0].short == Some('a')
            &&& t[0].kind == ValueShape::Number
            &&& t[0].default_value == Some("0"@)
            &&& t[0].min_values == 1
            &&& t[0].missing is None
            &&& t[1].long == "screen"@
            &&& t[1].short == Some('s')
            &&& t[1].kind == ValueShape::Number
            &&& t[1].default_value == Some("0"@)
            &&& t[1].min_values == 1
            &&& t[1].missing is None
            &&& t[2].long == "refresh-rate"@
            &&& t[2].short == Some('f')
            &&& t[2].kind == ValueShape::Rate
            &&& t[2].default_value == Some("0"@)
            &&& t[2].min_values == 1
            &&& t[2].missing is None
            &&& t[3].long == "resolution"@
            &&& t[3].short == Some('r')
            &&& t[3].kind == ValueShape::Resolution
            &&& t[3].default_value == None::<Seq<char>>
            &&& t[3].min_values == 1
            &&& t[3].missing is None
            &&& t[4].long == "skip-cursor"@
            &&& t[4].short == None::<char>
            &&& t[4].kind is Flag
            &&& t[4].default_value == Some("false"@)
            &&& t[4].min_values == 0
            &&& t[4].missing == Some("true"@)
        }),
{
}

/// An option string is read if and only if `clap` takes it. The configuration then has the values that the
/// string gives its options, and otherwise the error is the one that is told.
pub proof fn law_screen_configuration_is_read(s: Seq<char>, r: Result<ScreenCapConfig, String>)
    requires
        ScreenCapConfig::parsed(s, r),
    ensures
        r is Ok <==> option_values(ScreenCapConfig::table(), s) is Ok,
        r matches Ok(c) ==> c.has_values(option_values(ScreenCapConfig::table(), s)->Ok_0),
        r matches Err(e) ==> e@ == option_values(ScreenCapConfig::table(), s)->Err_0,
{
}

/// The values of the options tell the configuration. The cursor is left out for the word `true` alone.
pub proof fn law_screen_values(c: ScreenCapConfig, v: Seq<Option<Seq<char>>>)
    requires
        c.has_values(v),
    ensures
        signed_u32(v[0]->0) == Some(c.adapter),
        signed_u32(v[1]->0) == Some(c.screen),
        c.refresh_rate@ == v[2]->0,
        c.resolution is Some <==> v[3] is Some,
        v[3] matches Some(s) ==> Resolution::of(s) is Ok && c.resolution->0.width == Resolution::of(
            s,
        )->Ok_0.width && c.resolution->0.height == Resolution::of(s)->Ok_0.height,
        c.skip_cursor <==> v[4]->0 == "true"@,
{
}

/// A copy of a configuration has every setting of it.
pub proof fn law_same_screen(a: ScreenCapConfig, b: ScreenCapConfig)
    requires
        a.same(b),
    ensures
        a.adapter == b.adapter && a.screen == b.screen,
        a.refresh_rate@ == b.refresh_rate@,
        a.resolution == b.resolution,
        a.skip_cursor == b.skip_cursor,
{
}

/// The configuration without options has the default of each option.
pub proof fn law_screen_default(c: ScreenCapConfig)
    requires
        c.has_values(crate::options::defaults(ScreenCapConfig::table())) || c.is_default(),
    ensures
        c.is_default(),
        c.adapter == 0,
        c.screen == 0,
        c.refresh_rate@ == "0"@,
        c.resolution is None,
        !c.skip_cursor,
{
    ScreenCapConfig::lemma_defaults();
}

/// A screen that goes on being captured keeps its configuration and the first mode of its display.
pub proof fn law_what_goes_on(pre: DxDesktopDuplication, post: DxDesktopDuplication)
    ensures
        goes_on(pre, post) <==> post.config == pre.config && post.orig_mode == pre.orig_mode,
{
}

/// A signal leaves a source as it is, and is taken whatever it is.
pub proof fn law_source_takes_any_signal(
    pre: DxDesktopDuplication,
    flags: u32,
    post: DxDesktopDuplication,
    r: RhinoResult<()>,
)
    requires
        DxDesktopDuplication::signalled(pre, flags, post, r),
    ensures
        r is Ok,
        post == pre,
{
}

} // verus!
