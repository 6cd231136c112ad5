use std::str::FromStr;

use rhinostream::errors::{DDApiError, RhinoError};
use rhinostream::source::{
    set_gpu_priority, set_thread_priority, ConfigureStep, DisplayMode, DisplayOrientation,
    DxDesktopDuplication, ScreenCapConfig, ThreadPriority,
};
use rhinostream::{ColorFormat, Context, FrameType, Signal, Texture, TextureDesc};

fn mode(width: u32, height: u32, refresh_num: u32, refresh_den: u32) -> DisplayMode {
    let orientation = DisplayOrientation::NoRotation;
    DisplayMode { width, height, orientation, refresh_num, refresh_den, hdr: true }
}

fn config(s: &str) -> ScreenCapConfig {
    ScreenCapConfig::from_str(s).unwrap()
}

fn open(s: &str, refresh: Option<u32>) -> DxDesktopDuplication {
    let mut ctx: Context<u8> = Context::default();
    let wanted = DxDesktopDuplication::new(config(s), refresh, Ok(mode(1280, 720, 60, 1))).unwrap();
    let now = wanted.wanted;
    let screen = wanted.mode_set(Ok(())).unwrap().mode_read(Ok(now)).unwrap();
    screen.duplicated(Ok(7u8), &mut ctx).unwrap().0
}

#[test]
fn wanted_modes() {
    let first = mode(1280, 720, 60, 1);
    let new = |s: &str, refresh| DxDesktopDuplication::new(config(s), refresh, Ok(first)).unwrap();
    assert_eq!(new("", None).wanted, first);
    assert_eq!(new("-r 800x600", None).wanted, mode(800, 600, 60, 1));
    assert_eq!(new("-f 59.94", Some(59940)).wanted, mode(1280, 720, 59940, 1000));
    assert_eq!(new("-r 800x600 -f 30", Some(30000)).wanted, mode(800, 600, 30000, 1000));
    assert_eq!(new("-r 800x600", None).orig_mode, first);
}

#[test]
fn opening_fails_step_by_step() {
    let lost = || DDApiError::AccessLost;
    let e = DxDesktopDuplication::new(config(""), None, Err(lost())).unwrap_err();
    assert!(matches!(e, RhinoError::Unexpected(s) if s == "AccessLost"));
    let new = || DxDesktopDuplication::new(config(""), None, Ok(mode(1, 1, 1, 1))).unwrap();
    let e = new().mode_set(Err(lost())).unwrap_err();
    assert!(matches!(e, RhinoError::Unexpected(s) if s == "change display mode failed AccessLost"));
    let e = new().mode_set(Ok(())).unwrap().mode_read(Err(lost())).unwrap_err();
    assert!(matches!(e, RhinoError::Unexpected(s) if s == "AccessLost"));
    let mut ctx: Context<u8> = Context::Empty;
    let read = new().mode_set(Ok(())).unwrap().mode_read(Ok(mode(2, 2, 2, 2))).unwrap();
    let e = read.duplicated(Err(lost()), &mut ctx).unwrap_err();
    assert!(matches!(e, RhinoError::Recoverable(s) if s == "AccessLost"));
    assert!(matches!(ctx, Context::Empty));
    let read = new().mode_set(Ok(())).unwrap().mode_read(Ok(mode(2, 2, 2, 2))).unwrap();
    let (screen, step) = read.duplicated(Ok(9u8), &mut ctx).unwrap();
    assert_eq!(step, ConfigureStep::SetSkipCursor(false));
    assert!(matches!(ctx, Context::DxContext(c) if c.device == 9));
    assert_eq!(screen.curr_mode, mode(2, 2, 2, 2));
    assert_eq!(screen.orig_mode, mode(1, 1, 1, 1));
}

#[test]
fn opened_screens_are_told_of_the_cursor() {
    for (s, skip) in [("--skip-cursor", true), ("", false), ("--skip-cursor false", false)] {
        let mut ctx: Context<u8> = Context::Empty;
        let wanted = DxDesktopDuplication::new(config(s), None, Ok(mode(1, 1, 1, 1))).unwrap();
        let read = wanted.mode_set(Ok(())).unwrap().mode_read(Ok(mode(1, 1, 1, 1))).unwrap();
        let (_, step) = read.duplicated(Ok(1), &mut ctx).unwrap();
        assert_eq!(step, ConfigureStep::SetSkipCursor(skip));
    }
}

#[test]
fn adapters_and_displays() {
    let found = DxDesktopDuplication::get_adapter_output(Some(1), Some("d"));
    assert_eq!(found.unwrap(), (1, "d"));
    let none: [(Option<u8>, Option<u8>); 3] = [(None, Some(1)), (Some(1), None), (None, None)];
    for (a, d) in none {
        let e = DxDesktopDuplication::get_adapter_output(a, d).unwrap_err();
        assert!(matches!(e, RhinoError::NotFound));
    }
}

#[test]
fn configuring_keeps_the_first_mode() {
    let mut screen = open("-r 800x600", None);
    let c = config("-r 640x480 -f 30 --skip-cursor");
    let step = screen.configure(&c, Some(30000));
    assert_eq!(step, ConfigureStep::SetMode(mode(640, 480, 30000, 1000)));
    assert!(screen.mode_set(Ok(())).is_ok());
    let step = screen.mode_read(&c, Ok(mode(640, 480, 30, 1))).unwrap();
    assert_eq!(step, ConfigureStep::SetSkipCursor(true));
    assert_eq!(screen.curr_mode, mode(640, 480, 30, 1));
    assert_eq!(screen.restored_mode(), mode(1280, 720, 60, 1));
    let step = screen.configure(&config("-f 30"), Some(30000));
    assert_eq!(step, ConfigureStep::SetSkipCursor(false));
    assert_eq!(screen.curr_mode, mode(640, 480, 30, 1));
    let e = screen.mode_set(Err(DDApiError::Unsupported)).unwrap_err();
    assert!(matches!(e, RhinoError::UnRecoverable(s) if s == "Unsupported"));
    let e = screen.mode_read(&c, Err(DDApiError::AccessDenied)).unwrap_err();
    assert!(matches!(e, RhinoError::Recoverable(s) if s == "AccessDenied"));
    assert!(screen.signal(5).is_ok());
    assert_eq!(screen.restored_mode(), mode(1280, 720, 60, 1));
}

#[test]
fn priorities_are_raised_once() {
    let mut screen = open("", None);
    assert!(screen.start());
    assert!(!screen.start());
    assert!(!screen.start());
    let plan = set_thread_priority(true);
    assert_eq!((plan.high_class, plan.thread), (false, ThreadPriority::TimeCritical));
    let plan = set_thread_priority(false);
    assert_eq!((plan.high_class, plan.thread), (true, ThreadPriority::Highest));
    assert_eq!(set_gpu_priority(0), None);
    assert_eq!(set_gpu_priority(0xc0000022), Some(4));
}

#[test]
fn captured_frames() {
    let desc = TextureDesc { height: 2, width: 3, format: ColorFormat::ARGB8UNorm };
    let waiting: Option<Result<Texture<u8>, DDApiError>> = None;
    assert!(DxDesktopDuplication::poll_next(waiting).is_none());
    let polled = DxDesktopDuplication::poll_next(Some(Ok(Texture { raw: 5u8, desc })));
    match polled {
        Some(Ok(frame)) => match frame.data {
            FrameType::Dx11Frame(tex) => {
                assert_eq!(tex.raw, 5);
                assert_eq!(tex.desc, desc);
            }
        },
        _ => panic!("no frame"),
    }
    let fail = |e| match DxDesktopDuplication::poll_next::<u8>(Some(Err(e))) {
        Some(Err(e)) => e,
        _ => panic!("no error"),
    };
    let e = fail(DDApiError::AccessLost);
    assert!(matches!(e, RhinoError::Recoverable(s) if s == "Recoverable Error: `AccessLost`"));
    let e = fail(DDApiError::Unexpected("x".to_string()));
    assert!(
        matches!(e, RhinoError::UnRecoverable(s) if s == "Unreacoverable error `Unexpected(\"x\")`")
    );
}
