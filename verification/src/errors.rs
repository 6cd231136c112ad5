//! The errors of the library, and how the errors of the capture and filter interfaces become them.
use vstd::prelude::*;
use crate::text::{joined_text, signed_decimal, write_signed};

verus! {

/// The result of an operation of the library.
pub type RhinoResult<T> = Result<T, RhinoError>;

/// What can go wrong in a stream.
#[derive(Debug)]
pub enum RhinoError {
    UnSupported,
    NotFound,
    Exiting,
    /// The stream goes on.
    Recoverable(String),
    /// The stream ends.
    UnRecoverable(String),
    ParseError(String),
    Unexpected(String),
    Timedout,
}

/// An error with the text that it carries.
pub enum ErrorView {
    UnSupported,
    NotFound,
    Exiting,
    Recoverable(Seq<char>),
    UnRecoverable(Seq<char>),
    ParseError(Seq<char>),
    Unexpected(Seq<char>),
    Timedout,
}

impl View for RhinoError {
    type V = ErrorView;

    open spec fn view(&self) -> ErrorView {
        match self {
            RhinoError::UnSupported => ErrorView::UnSupported,
            RhinoError::NotFound => ErrorView::NotFound,
            RhinoError::Exiting => ErrorView::Exiting,
            RhinoError::Recoverable(s) => ErrorView::Recoverable(s@),
            RhinoError::UnRecoverable(s) => ErrorView::UnRecoverable(s@),
            RhinoError::ParseError(s) => ErrorView::ParseError(s@),
            RhinoError::Unexpected(s) => ErrorView::Unexpected(s@),
            RhinoError::Timedout => ErrorView::Timedout,
        }
    }
}

impl Clone for RhinoError {
    fn clone(&self) -> (r: Self)
        ensures
            r@ == self@,
    {
        match self {
            RhinoError::UnSupported => RhinoError::UnSupported,
            RhinoError::NotFound => RhinoError::NotFound,
            RhinoError::Exiting => RhinoError::Exiting,
            RhinoError::Recoverable(s) => RhinoError::Recoverable(s.clone()),
            RhinoError::UnRecoverable(s) => RhinoError::UnRecoverable(s.clone()),
            RhinoError::ParseError(s) => RhinoError::ParseError(s.clone()),
            RhinoError::Unexpected(s) => RhinoError::Unexpected(s.clone()),
            RhinoError::Timedout => RhinoError::Timedout,
        }
    }
}

/// `r` is the error `e`.
pub open spec fn fails_with<T>(r: RhinoResult<T>, e: ErrorView) -> bool {
    r matches Err(x) && x@ == e
}

/// How `{:?}` writes a string: in quotes, with escapes.
pub uninterp spec fn quoted(s: Seq<char>) -> Seq<char>;

/// Calls the `Debug` of `str`. Its output is a function of the string alone.
#[verifier::external_body]
fn quote(s: &str) -> (r: String)
    ensures
        r@ == quoted(s@),
{
    format!("{:?}", s)
}

/// `name("s")`, with `s` quoted.
pub open spec fn call_text(name: Seq<char>, s: Seq<char>) -> Seq<char> {
    name + "("@ + quoted(s) + ")"@
}

fn write_call(name: &str, s: &str) -> (r: String)
    ensures
        r@ == call_text(name@, s@),
{
    let mut out = joined_text(name, "(");
    out.append(quote(s).as_str());
    out.append(")");
    out
}

/// An error of the desktop duplication interface.
#[derive(Debug)]
pub enum DDApiError {
    Disconnected,
    Unsupported,
    AccessDenied,
    AccessLost,
    BadParam(String),
    Unexpected(String),
}

impl DDApiError {
    /// The error as `{:?}` writes it.
    pub open spec fn text(self) -> Seq<char> {
        match self {
            DDApiError::Disconnected => "Disconnected"@,
            DDApiError::Unsupported => "Unsupported"@,
            DDApiError::AccessDenied => "AccessDenied"@,
            DDApiError::AccessLost => "AccessLost"@,
            DDApiError::BadParam(s) => call_text("BadParam"@, s@),
            DDApiError::Unexpected(s) => call_text("Unexpected"@, s@),
        }
    }

    /// The desktop was taken away for a while: capturing may go on later.
    pub open spec fn passes(self) -> bool {
        self is AccessLost || self is AccessDenied
    }

    /// The error as `{:?}` writes it.
    pub fn to_text(&self) -> (r: String)
        ensures
            r@ == self.text(),
    {
        match self {
            DDApiError::Disconnected => "Disconnected".to_owned(),
            DDApiError::Unsupported => "Unsupported".to_owned(),
            DDApiError::AccessDenied => "AccessDenied".to_owned(),
            DDApiError::AccessLost => "AccessLost".to_owned(),
            DDApiError::BadParam(s) => write_call("BadParam", s.as_str()),
            DDApiError::Unexpected(s) => write_call("Unexpected", s.as_str()),
        }
    }

    /// Whether capturing may go on later.
    pub fn is_passing(&self) -> (r: bool)
        ensures
            r == self.passes(),
    {
        match self {
            DDApiError::AccessLost | DDApiError::AccessDenied => true,
            _ => false,
        }
    }
}

/// The library's error for an error of the desktop duplication interface: it is recoverable where
/// the desktop was only taken away for a while.
pub open spec fn dda_error(e: DDApiError) -> ErrorView {
    if e.passes() {
        ErrorView::Recoverable(e.text())
    } else {
        ErrorView::UnRecoverable(e.text())
    }
}

/// Turns an error of the desktop duplication interface into one of the library.
pub fn dda_err_map(e: DDApiError) -> (r: RhinoError)
    ensures
        r@ == dda_error(e),
{
    if e.is_passing() {
        RhinoError::Recoverable(e.to_text())
    } else {
        RhinoError::UnRecoverable(e.to_text())
    }
}

/// An error of the filter interface.
#[derive(Debug)]
pub enum DxFilterErr {
    /// Written `Ok`: nothing went wrong.
    NoError,
    BadParam(String),
    Unknown(String),
}

impl DxFilterErr {
    /// The error as `{:?}` writes it.
    pub open spec fn text(self) -> Seq<char> {
        match self {
            DxFilterErr::NoError => "Ok"@,
            DxFilterErr::BadParam(s) => call_text("BadParam"@, s@),
            DxFilterErr::Unknown(s) => call_text("Unknown"@, s@),
        }
    }

    /// The error as `{:?}` writes it.
    pub fn to_text(&self) -> (r: String)
        ensures
            r@ == self.text(),
    {
        match self {
            DxFilterErr::NoError => "Ok".to_owned(),
            DxFilterErr::BadParam(s) => write_call("BadParam", s.as_str()),
            DxFilterErr::Unknown(s) => write_call("Unknown", s.as_str()),
        }
    }
}

impl From<DxFilterErr> for RhinoError {
    /// The error for a filter that refused a texture.
    fn from(value: DxFilterErr) -> (r: RhinoError)
        ensures
            r@ == ErrorView::Unexpected(value.text()),
    {
        RhinoError::Unexpected(value.to_text())
    }
}

/// The contract of `from` gives the text of the error. It names no value: two strings with one text need
/// not be the same value.
impl vstd::std_specs::convert::FromSpecImpl<DxFilterErr> for RhinoError {
    open spec fn obeys_from_spec() -> bool {
        false
    }

    open spec fn from_spec(value: DxFilterErr) -> RhinoError {
        arbitrary()
    }
}

/// The error for a filter that could not be made or did not run: the stream ends.
pub fn dxf_err_map(e: DxFilterErr) -> (r: RhinoError)
    ensures
        r@ == ErrorView::UnRecoverable(e.text()),
{
    RhinoError::UnRecoverable(e.to_text())
}

/// The error for a failed call of the graphics interface, of which `text` is the description: the
/// stream ends.
pub fn win_err_map(text: String) -> (r: RhinoError)
    ensures
        r@ == ErrorView::UnRecoverable(text@),
{
    RhinoError::UnRecoverable(text)
}

/// The error for a status of the encoder other than success.
pub open spec fn status_error(status: i32) -> ErrorView {
    ErrorView::Unexpected("Nvenc Status: "@ + signed_decimal(status as int))
}

/// The outcome of an encoder call by its status: zero is success.
pub open spec fn status_outcome(r: RhinoResult<()>, status: i32) -> bool {
    if status == 0 {
        r is Ok
    } else {
        fails_with(r, status_error(status))
    }
}

/// Turns a status of the encoder into a result.
pub fn into_err(status: i32) -> (r: RhinoResult<()>)
    ensures
        status_outcome(r, status),
{
    if status == 0 {
        Ok(())
    } else {
        Err(RhinoError::Unexpected(joined_text("Nvenc Status: ", write_signed(status).as_str())))
    }
}

/// What an error is seen as tells which error it is, and the text that it carries.
pub proof fn law_view_tells_the_error(e: RhinoError)
    ensures
        e@ is UnSupported <==> e is UnSupported,
        e@ is NotFound <==> e is NotFound,
        e@ is Exiting <==> e is Exiting,
        e@ is Recoverable <==> e is Recoverable,
        e@ is UnRecoverable <==> e is UnRecoverable,
        e@ is ParseError <==> e is ParseError,
        e@ is Unexpected <==> e is Unexpected,
        e@ is Timedout <==> e is Timedout,
        e matches RhinoError::Recoverable(s) ==> e@->Recoverable_0 == s@,
        e matches RhinoError::UnRecoverable(s) ==> e@->UnRecoverable_0 == s@,
        e matches RhinoError::ParseError(s) ==> e@->ParseError_0 == s@,
        e matches RhinoError::Unexpected(s) ==> e@->Unexpected_0 == s@,
{
}

/// A result fails with one error at most, and a success with none.
pub proof fn law_failure_is_one<T>(r: RhinoResult<T>, e: ErrorView, other: ErrorView)
    requires
        fails_with(r, e),
    ensures
        r is Err,
        r->Err_0@ == e,
        fails_with(r, other) ==> other == e,
{
}

/// Access that was lost or denied passes; no other error of the capture does.
pub proof fn law_lost_access_passes(e: DDApiError)
    ensures
        e.passes() <==> e is AccessLost || e is AccessDenied,
        dda_error(e) is Recoverable <==> e is AccessLost || e is AccessDenied,
        dda_error(e) is UnRecoverable <==> !(e is AccessLost || e is AccessDenied),
        dda_error(e) matches ErrorView::Recoverable(s) ==> s == e.text(),
        dda_error(e) matches ErrorView::UnRecoverable(s) ==> s == e.text(),
{
}

/// An error is written as its name. One that carries a text has it quoted in brackets behind the name.
pub proof fn law_error_texts(s: String)
    ensures
        DDApiError::Disconnected.text() == "Disconnected"@,
        DDApiError::Unsupported.text() == "Unsupported"@,
        DDApiError::AccessDenied.text() == "AccessDenied"@,
        DDApiError::AccessLost.text() == "AccessLost"@,
        DxFilterErr::NoError.text() == "Ok"@,
        DDApiError::BadParam(s).text() == "BadParam"@ + "("@ + quoted(s@) + ")"@,
        DDApiError::Unexpected(s).text() == "Unexpected"@ + "("@ + quoted(s@) + ")"@,
        DxFilterErr::BadParam(s).text() == "BadParam"@ + "("@ + quoted(s@) + ")"@,
        DxFilterErr::Unknown(s).text() == "Unknown"@ + "("@ + quoted(s@) + ")"@,
{
}

/// A call of the encoder succeeds if and only if its status is zero. Every other status is an error of its
/// own, which ends with the number.
pub proof fn law_status(status: i32, r: RhinoResult<()>)
    requires
        status_outcome(r, status),
    ensures
        r is Ok <==> status == 0,
        r matches Err(e) ==> e@ is Unexpected && e@->Unexpected_0 == "Nvenc Status: "@
            + signed_decimal(status as int),
        status_error(status) is Unexpected,
        status_error(status)->Unexpected_0 == "Nvenc Status: "@ + signed_decimal(status as int),
{
}

} // verus!
