use rhinostream::errors::{
    dda_err_map, dxf_err_map, into_err, win_err_map, DDApiError, DxFilterErr, RhinoError,
};
use win_desktop_duplication::errors::DDApiError as DuplicationError;

fn debug(e: RhinoError) -> String {
    format!("{:?}", e)
}

#[test]
fn capture_errors_are_written_as_debug_writes_them() {
    for s in ["", "plain", "a \"quoted\" \\ text", "line\nbreak\t\u{0}", "\u{00e9}\u{200b}'"] {
        let a = DDApiError::BadParam(s.to_string()).to_text();
        assert_eq!(a, format!("{:?}", DuplicationError::BadParam(s.to_string())));
        let a = DDApiError::Unexpected(s.to_string()).to_text();
        assert_eq!(a, format!("{:?}", DuplicationError::Unexpected(s.to_string())));
    }
    let pairs = [
        (DDApiError::Disconnected, DuplicationError::Disconnected),
        (DDApiError::Unsupported, DuplicationError::Unsupported),
        (DDApiError::AccessDenied, DuplicationError::AccessDenied),
        (DDApiError::AccessLost, DuplicationError::AccessLost),
    ];
    for (a, b) in pairs {
        assert_eq!(a.to_text(), format!("{:?}", b));
    }
}

#[test]
fn lost_access_is_recoverable() {
    assert_eq!(debug(dda_err_map(DDApiError::AccessLost)), "Recoverable(\"AccessLost\")");
    assert_eq!(debug(dda_err_map(DDApiError::AccessDenied)), "Recoverable(\"AccessDenied\")");
    assert_eq!(debug(dda_err_map(DDApiError::Disconnected)), "UnRecoverable(\"Disconnected\")");
    assert_eq!(debug(dda_err_map(DDApiError::Unsupported)), "UnRecoverable(\"Unsupported\")");
    let e = dda_err_map(DDApiError::BadParam("no".to_string()));
    assert!(matches!(e, RhinoError::UnRecoverable(s) if s == "BadParam(\"no\")"));
    assert!(DDApiError::AccessLost.is_passing());
    assert!(!DDApiError::Unexpected(String::new()).is_passing());
}

#[test]
fn filter_and_graphics_errors() {
    let bad = || DxFilterErr::BadParam("tex".to_string());
    assert!(matches!(dxf_err_map(bad()), RhinoError::UnRecoverable(s) if s == "BadParam(\"tex\")"));
    assert!(matches!(RhinoError::from(bad()), RhinoError::Unexpected(s) if s == "BadParam(\"tex\")"));
    let unknown = DxFilterErr::Unknown("?".to_string());
    assert_eq!(unknown.to_text(), "Unknown(\"?\")");
    assert_eq!(DxFilterErr::NoError.to_text(), "Ok");
    let e = win_err_map("device removed".to_string());
    assert!(matches!(e, RhinoError::UnRecoverable(s) if s == "device removed"));
}

#[test]
fn encoder_status() {
    assert!(into_err(0).is_ok());
    for status in [1i32, 8, 20, -1, i32::MAX, i32::MIN] {
        match into_err(status) {
            Err(RhinoError::Unexpected(s)) => assert_eq!(s, format!("Nvenc Status: {}", status)),
            other => panic!("{:?}", other),
        }
    }
}

#[test]
fn errors_are_copied() {
    let all = [
        RhinoError::UnSupported,
        RhinoError::NotFound,
        RhinoError::Exiting,
        RhinoError::Recoverable("a".to_string()),
        RhinoError::UnRecoverable("b".to_string()),
        RhinoError::ParseError("c".to_string()),
        RhinoError::Unexpected("d".to_string()),
        RhinoError::Timedout,
    ];
    for e in all {
        assert_eq!(format!("{:?}", e.clone()), format!("{:?}", e));
    }
}
