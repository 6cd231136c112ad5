//! What the C interface decides: how option strings become a stream, and which error a caller sees.
use std::str::{from_utf8, FromStr};
use vstd::prelude::*;
use vstd::utf8::{decode_utf8, valid_utf8};
use crate::errors::{RhinoError, RhinoResult};
use crate::filter::DxColorConfig;
use crate::processor::nvenc::executor::{pic_flags, NvExecutor};
use crate::processor::nvenc::NvencConfig;
use crate::source::ScreenCapConfig;
use crate::stream::{RhinoStream, SignalType};
use crate::{FromOptions, Packet};

verus! {

/// What a caller gets to know of a call.
#[derive(Clone, Copy, Debug, PartialEq, Eq, Structural)]
pub enum Error {
    /// Nothing went wrong.
    NoError,
    InvalidInput,
    InvalidConfig,
    InitFailed,
    NotFound,
    Exiting,
    Recoverable,
    UnRecoverable,
    Unexpected,
    Timeout,
}

/// Calls `std::str::from_utf8`: bytes are a text where they are valid UTF-8, and then it is the text
/// that they encode.
#[verifier::external_body]
fn text_of(bytes: &[u8]) -> (r: Option<&str>)
    ensures
        r is Some <==> valid_utf8(bytes@),
        r matches Some(s) ==> s@ == decode_utf8(bytes@),
{
    from_utf8(bytes).ok()
}

/// What reading the bytes of an option string may give: the error `unread` where the text is none of
/// the options.
pub open spec fn bytes_read<C: FromOptions>(
    opt: Seq<u8>,
    unread: Error,
    r: Result<C, Error>,
) -> bool {
    if valid_utf8(opt) {
        exists|p: Result<C, String>| #[trigger]
            C::parsed(decode_utf8(opt), p) && r == (match p {
                Ok(c) => Ok::<C, Error>(c),
                Err(_) => Err::<C, Error>(unread),
            })
    } else {
        r == Err::<C, Error>(Error::InvalidInput)
    }
}

fn read_bytes<C: FromOptions>(opt: &[u8], unread: Error) -> (r: Result<C, Error>)
    ensures
        bytes_read(opt@, unread, r),
{
    match text_of(opt) {
        Some(s) => {
            let p = C::from_options(s);
            assert(C::parsed(decode_utf8(opt@), p));
            match p {
                Ok(c) => Ok(c),
                Err(_) => Err(unread),
            }
        },
        None => Err(Error::InvalidInput),
    }
}

/// The configurations of the stages of a stream that is to be built.
#[derive(Debug)]
pub struct StreamBuilder {
    pub screen_cap_config: ScreenCapConfig,
    pub filter_config: DxColorConfig,
    pub nvenc_config: NvencConfig,
}

impl Clone for StreamBuilder {
    fn clone(&self) -> (r: Self)
        ensures
            r.screen_cap_config.same(self.screen_cap_config),
            r.filter_config == self.filter_config,
            r.nvenc_config.same(self.nvenc_config),
    {
        StreamBuilder {
            screen_cap_config: self.screen_cap_config.clone(),
            filter_config: self.filter_config,
            nvenc_config: self.nvenc_config.clone(),
        }
    }
}

impl Default for StreamBuilder {
    fn default() -> (r: Self)
        ensures
            r.screen_cap_config.is_default(),
            r.filter_config == DxColorConfig::standard(),
            r.nvenc_config.is_default(),
    {
        proof {
            reveal_strlit("");
        }
        StreamBuilder {
            screen_cap_config: ScreenCapConfig::from_str("").unwrap(),
            filter_config: DxColorConfig::from_str("").unwrap(),
            nvenc_config: NvencConfig::from_str("").unwrap(),
        }
    }
}

/// A builder in which no option is given.
pub fn new_stream_builder() -> (r: StreamBuilder)
    ensures
        r.screen_cap_config.is_default(),
        r.filter_config == DxColorConfig::standard(),
        r.nvenc_config.is_default(),
{
    StreamBuilder::default()
}

/// Sets the options of the source. Where there is no string or it cannot be read the builder stays as
/// it is.
pub fn with_screen_cap_opt(builder: Option<&mut StreamBuilder>, opt: Option<&[u8]>) -> (r: Error)
    ensures
        builder is None || opt is None ==> r == Error::InvalidInput,
        builder matches Some(b) ==> match opt {
            None => *final(b) == *b,
            Some(bytes) => exists|p: Result<ScreenCapConfig, Error>| #[trigger]
                bytes_read(bytes@, Error::InvalidConfig, p) && match p {
                    Ok(c) => r == Error::NoError && *final(b) == (StreamBuilder {
                        screen_cap_config: c,
                        ..*b
                    }),
                    Err(e) => r == e && *final(b) == *b,
                },
        },
{
    match (builder, opt) {
        (Some(builder), Some(bytes)) => {
            let p = read_bytes(bytes, Error::InvalidConfig);
            assert(bytes_read(bytes@, Error::InvalidConfig, p));
            match p {
                Ok(c) => {
                    builder.screen_cap_config = c;
                    Error::NoError
                },
                Err(e) => e,
            }
        },
        _ => Error::InvalidInput,
    }
}

/// Sets the options of the filter. Where they cannot be read the builder stays as it is.
pub fn with_filter_opt(builder: Option<&mut StreamBuilder>, opt: &[u8]) -> (r: Error)
    ensures
        builder is None ==> r == Error::InvalidInput,
        builder matches Some(b) ==> exists|p: Result<DxColorConfig, Error>| #[trigger]
            bytes_read(opt@, Error::InvalidConfig, p) && match p {
                Ok(c) => r == Error::NoError && *final(b) == (StreamBuilder { filter_config: c, ..*b }),
                Err(e) => r == e && *final(b) == *b,
            },
{
    match builder {
        Some(builder) => {
            let p = read_bytes(opt, Error::InvalidConfig);
            assert(bytes_read(opt@, Error::InvalidConfig, p));
            match p {
                Ok(c) => {
                    builder.filter_config = c;
                    Error::NoError
                },
                Err(e) => e,
            }
        },
        None => Error::InvalidInput,
    }
}

/// Sets the options of the encoder. Where they cannot be read the builder stays as it is.
pub fn with_nvenc_opt(builder: Option<&mut StreamBuilder>, opt: &[u8]) -> (r: Error)
    ensures
        builder is None ==> r == Error::InvalidInput,
        builder matches Some(b) ==> exists|p: Result<NvencConfig, Error>| #[trigger]
            bytes_read(opt@, Error::InvalidConfig, p) && match p {
                Ok(c) => r == Error::NoError && *final(b) == (StreamBuilder { nvenc_config: c, ..*b }),
                Err(e) => r == e && *final(b) == *b,
            },
{
    match builder {
        Some(builder) => {
            let p = read_bytes(opt, Error::InvalidConfig);
            assert(bytes_read(opt@, Error::InvalidConfig, p));
            match p {
                Ok(c) => {
                    builder.nvenc_config = c;
                    Error::NoError
                },
                Err(e) => e,
            }
        },
        None => Error::InvalidInput,
    }
}

/// A stream that needs its source.
#[derive(Debug)]
pub struct SourceWanted {
    pub screen_cap_config: ScreenCapConfig,
    pub filter_config: DxColorConfig,
    pub nvenc_config: NvencConfig,
}

/// A stream that needs its filter.
#[derive(Debug)]
pub struct StreamFilterWanted {
    pub filter_config: DxColorConfig,
    pub nvenc_config: NvencConfig,
}

/// A stream that needs its encoder.
#[derive(Debug)]
pub struct EncoderWanted {
    pub nvenc_config: NvencConfig,
}

/// A stream that can be started.
#[derive(Debug)]
pub struct StartWanted {}

/// Builds a stream with the configurations of a builder, if there is one and a place for the stream. A
/// builder that is not used comes back.
///
/// It is built in steps, each of which takes the outcome of the step before: the source, the filter
/// of the colors that are asked for, the encoder, and the stream itself. The first failure ends it.
pub fn build_stream(builder: Option<Box<StreamBuilder>>, has_place: bool) -> (r: Result<
    SourceWanted,
    (Error, Option<Box<StreamBuilder>>),
>)
    ensures
        match builder {
            Some(b) if has_place => r is Ok && r->Ok_0 == (SourceWanted {
                screen_cap_config: b.screen_cap_config,
                filter_config: b.filter_config,
                nvenc_config: b.nvenc_config,
            }),
            _ => r is Err && r->Err_0 == (Error::InvalidInput, builder),
        },
{
    match builder {
        Some(b) => if has_place {
            let b = *b;
            Ok(
                SourceWanted {
                    screen_cap_config: b.screen_cap_config,
                    filter_config: b.filter_config,
                    nvenc_config: b.nvenc_config,
                },
            )
        } else {
            Err((Error::InvalidInput, Some(b)))
        },
        None => Err((Error::InvalidInput, None)),
    }
}

impl SourceWanted {
    /// Takes the outcome of making the source.
    pub fn source_made<S>(self, source: RhinoResult<S>) -> (r: Result<(S, StreamFilterWanted), Error>)
        ensures
            match source {
                Ok(s) => r == Ok::<(S, StreamFilterWanted), Error>(
                    (
                        s,
                        StreamFilterWanted {
                            filter_config: self.filter_config,
                            nvenc_config: self.nvenc_config,
                        },
                    ),
                ),
                Err(_) => r == Err::<(S, StreamFilterWanted), Error>(Error::InvalidConfig),
            },
    {
        match source {
            Ok(s) => Ok(
                (
                    s,
                    StreamFilterWanted {
                        filter_config: self.filter_config,
                        nvenc_config: self.nvenc_config,
                    },
                ),
            ),
            Err(_) => Err(Error::InvalidConfig),
        }
    }
}

impl StreamFilterWanted {
    /// Takes the outcome of making the filter.
    pub fn filter_made<F>(self, filter: RhinoResult<F>) -> (r: Result<(F, EncoderWanted), Error>)
        ensures
            match filter {
                Ok(f) => r == Ok::<(F, EncoderWanted), Error>(
                    (f, EncoderWanted { nvenc_config: self.nvenc_config }),
                ),
                Err(_) => r == Err::<(F, EncoderWanted), Error>(Error::InvalidConfig),
            },
    {
        match filter {
            Ok(f) => Ok((f, EncoderWanted { nvenc_config: self.nvenc_config })),
            Err(_) => Err(Error::InvalidConfig),
        }
    }
}

impl EncoderWanted {
    /// Takes the outcome of making the encoder.
    pub fn encoder_made<P>(self, encoder: RhinoResult<P>) -> (r: Result<(P, StartWanted), Error>)
        ensures
            match encoder {
                Ok(p) => r == Ok::<(P, StartWanted), Error>((p, StartWanted {  })),
                Err(_) => r == Err::<(P, StartWanted), Error>(Error::InvalidConfig),
            },
    {
        match encoder {
            Ok(p) => Ok((p, StartWanted {  })),
            Err(_) => Err(Error::InvalidConfig),
        }
    }
}

impl StartWanted {
    /// Takes the outcome of starting the stream.
    pub fn started<T>(self, stream: RhinoResult<T>) -> (r: Result<T, Error>)
        ensures
            match stream {
                Ok(s) => r == Ok::<T, Error>(s),
                Err(_) => r == Err::<T, Error>(Error::InitFailed),
            },
    {
        match stream {
            Ok(s) => Ok(s),
            Err(_) => Err(Error::InitFailed),
        }
    }
}

/// The error that a caller sees for an error of the stream.
pub open spec fn seen(e: RhinoError) -> Error {
    match e {
        RhinoError::UnSupported => Error::InvalidConfig,
        RhinoError::NotFound => Error::NotFound,
        RhinoError::Exiting => Error::Exiting,
        RhinoError::Recoverable(_) => Error::Recoverable,
        RhinoError::UnRecoverable(_) => Error::UnRecoverable,
        RhinoError::ParseError(_) => Error::InvalidInput,
        RhinoError::Unexpected(_) => Error::UnRecoverable,
        RhinoError::Timedout => Error::Timeout,
    }
}

fn seen_error(e: &RhinoError) -> (r: Error)
    ensures
        r == seen(*e),
{
    match e {
        RhinoError::UnSupported => Error::InvalidConfig,
        RhinoError::NotFound => Error::NotFound,
        RhinoError::Exiting => Error::Exiting,
        RhinoError::Recoverable(_) => Error::Recoverable,
        RhinoError::UnRecoverable(_) => Error::UnRecoverable,
        RhinoError::ParseError(_) => Error::InvalidInput,
        RhinoError::Unexpected(_) => Error::UnRecoverable,
        RhinoError::Timedout => Error::Timeout,
    }
}

/// The stream and the packet of a caller that asks for the next frame. Both have to be there before the
/// stream is asked.
pub fn frame_wanted<S, P>(stream: Option<S>, packet: Option<P>) -> (r: Result<(S, P), Error>)
    ensures
        match (stream, packet) {
            (Some(s), Some(p)) => r == Ok::<(S, P), Error>((s, p)),
            _ => r == Err::<(S, P), Error>(Error::InvalidInput),
        },
{
    match (stream, packet) {
        (Some(s), Some(p)) => Ok((s, p)),
        _ => Err(Error::InvalidInput),
    }
}

/// Takes what came in time from the stream of `frame_wanted`, if anything did. A packet changes places with the one of
/// the caller, which is returned to be used again.
pub fn get_next_frame(packet: &mut Packet, received: Option<Option<RhinoResult<Packet>>>) -> (r: (
    Error,
    Option<Packet>,
))
    ensures
        match received {
            Some(Some(Ok(new_packet))) => {
                &&& r.0 == Error::NoError
                &&& *final(packet) == new_packet
                &&& r.1 == Some(*old(packet))
            },
            Some(Some(Err(e))) => {
                &&& r.0 == seen(e)
                &&& *final(packet) == *old(packet)
                &&& r.1 is None
            },
            Some(None) => {
                &&& r.0 == Error::NoError
                &&& *final(packet) == *old(packet)
                &&& r.1 is None
            },
            None => {
                &&& r.0 == Error::Timeout
                &&& *final(packet) == *old(packet)
                &&& r.1 is None
            },
        },
{
    let (result, used) = RhinoStream::get_next_frame_with_timeout(packet, received);
    match result {
        Ok(_) => (Error::NoError, used),
        Err(e) => (seen_error(&e), used),
    }
}

/// The bytes of a packet, if there is one and a place for them.
pub fn get_data(packet: Option<&Packet>, has_place: bool) -> (r: Result<&[u8], Error>)
    ensures
        match packet {
            Some(p) if has_place => r is Ok && r->Ok_0@ == p.data@,
            _ => r is Err && r->Err_0 == Error::InvalidInput,
        },
{
    match packet {
        Some(p) => if has_place {
            Ok(p.data.as_slice())
        } else {
            Err(Error::InvalidInput)
        },
        None => Err(Error::InvalidInput),
    }
}

/// Reads the options that a running source is to take.
pub fn configure_source(opt: &[u8]) -> (r: Result<ScreenCapConfig, Error>)
    ensures
        bytes_read(opt@, Error::InvalidInput, r),
{
    read_bytes(opt, Error::InvalidInput)
}

/// Reads the options that a running filter is to take.
pub fn configure_filter(opt: &[u8]) -> (r: Result<DxColorConfig, Error>)
    ensures
        bytes_read(opt@, Error::InvalidInput, r),
{
    read_bytes(opt, Error::InvalidInput)
}

/// Reads the options that a running encoder is to take.
pub fn configure_processor(opt: &[u8]) -> (r: Result<NvencConfig, Error>)
    ensures
        bytes_read(opt@, Error::InvalidInput, r),
{
    read_bytes(opt, Error::InvalidInput)
}

/// What a caller sees of handing options to a running stage.
pub fn options_handed_over(sent: RhinoResult<()>) -> (r: Error)
    ensures
        sent is Ok ==> r == Error::NoError,
        sent is Err ==> r == Error::InvalidInput,
{
    match sent {
        Ok(_) => Error::NoError,
        Err(_) => Error::InvalidInput,
    }
}

/// The signal that asks for a key frame.
pub open spec fn idr_signal() -> SignalType {
    SignalType::Processor(1)
}

/// The signal that asks for a key frame.
pub fn request_idr() -> (r: SignalType)
    ensures
        r == idr_signal(),
{
    SignalType::Processor(1)
}

/// The request for a key frame is for the encoder, and makes a key frame with its parameter sets of
/// the next picture of an encoder that took it.
pub proof fn law_request_makes_key_frame<H>(exec: NvExecutor<H>)
    ensures
        idr_signal() matches SignalType::Processor(flags) && flags == 1 && {
            let asked = NvExecutor { signal: flags, ..exec };
            &&& pic_flags(asked.signal).force_idr
            &&& pic_flags(asked.signal).output_spspps
        },
{
}

/// A caller can tell a recoverable error, a timeout and an exit from every other error of the stream.
pub proof fn law_errors_told_apart(a: RhinoError, b: RhinoError)
    requires
        a is Recoverable || a is Timedout || a is Exiting,
        seen(a) == seen(b),
    ensures
        a is Recoverable <==> b is Recoverable,
        a is Timedout <==> b is Timedout,
        a is Exiting <==> b is Exiting,
{
}

/// Which error of the stream a caller sees as which error, whatever text it carries.
pub proof fn law_what_callers_see(e: RhinoError)
    ensures
        seen(e) == Error::InvalidConfig <==> e is UnSupported,
        seen(e) == Error::NotFound <==> e is NotFound,
        seen(e) == Error::Exiting <==> e is Exiting,
        seen(e) == Error::Recoverable <==> e is Recoverable,
        seen(e) == Error::UnRecoverable <==> e is UnRecoverable || e is Unexpected,
        seen(e) == Error::InvalidInput <==> e is ParseError,
        seen(e) == Error::Timeout <==> e is Timedout,
        seen(e) != Error::NoError,
{
}

/// Bytes that are no text are invalid input, whoever reads them. A text is read as the options say: a
/// configuration comes out only where it is one that the text stands for, and the error only where
/// the text stands for none.
pub proof fn law_bytes_are_read_as_text<C: FromOptions>(
    opt: Seq<u8>,
    unread: Error,
    r: Result<C, Error>,
)
    requires
        bytes_read(opt, unread, r),
    ensures
        !valid_utf8(opt) ==> r == Err::<C, Error>(Error::InvalidInput),
        r matches Ok(c) ==> valid_utf8(opt) && C::parsed(decode_utf8(opt), Ok::<C, String>(c)),
        valid_utf8(opt) && r is Err ==> r->Err_0 == unread && exists|e: String| #[trigger]
            C::parsed(decode_utf8(opt), Err::<C, String>(e)),
{
    if valid_utf8(opt) {
        let p = choose|p: Result<C, String>| #[trigger]
            C::parsed(decode_utf8(opt), p) && r == (match p {
                Ok(c) => Ok::<C, Error>(c),
                Err(_) => Err::<C, Error>(unread),
            });
        match p {
            Ok(c) => {},
            Err(e) => {
                assert(C::parsed(decode_utf8(opt), Err::<C, String>(e)));
            },
        }
    }
}

} // verus!
