//! Streaming of a captured screen: a source of frames, a filter over them and a processor that
//! makes packets of them.
//!
//! The library holds what the stages decide and compute. Devices, drivers and channels are driven
//! from outside: they hand in what they returned and take what to do next.
use std::str::FromStr;
use std::time::{Duration, Instant};
use vstd::prelude::*;

pub mod clib;
pub mod errors;
pub mod filter;
pub mod options;
pub mod processor;
pub mod rate;
pub mod source;
pub mod stream;
pub mod text;
pub mod texture;

pub use crate::errors::RhinoResult as Result;
use crate::errors::{fails_with, ErrorView, RhinoError, RhinoResult};
use crate::text::{
    decimal, is_digit, joined_text, law_decimal_read, law_split_append, lemma_decimal_digits,
    lemma_split_single, parse_unsigned, split, split_text, trim, trim_end, trim_start, trimmed,
    unsigned, IntError,
};

verus! {

/// A point in time.
#[verifier::external_type_specification]
#[verifier::external_body]
pub struct ExInstant(Instant);

/// `Instant::now` reads the clock. Nothing is claimed of the result.
pub assume_specification[ Instant::now ]() -> Instant;

/// The span of time that `Duration::from_millis` makes of a number of milliseconds.
pub uninterp spec fn duration_of_millis(millis: u64) -> Duration;

/// `Duration::from_millis` makes a span of time of a number of milliseconds alone.
pub assume_specification[ Duration::from_millis ](millis: u64) -> (r: Duration)
    ensures
        r == duration_of_millis(millis),
;

/// What a packet holds.
#[derive(Clone, Copy, Debug, PartialEq, Eq, Structural)]
pub enum PacketKind {
    Picture,
    Video,
    Audio,
}

impl Default for PacketKind {
    fn default() -> (r: Self)
        ensures
            r == PacketKind::Picture,
    {
        PacketKind::Picture
    }
}

/// Encoded data on its way to the receiver.
#[derive(Debug)]
pub struct Packet {
    pub data: Vec<u8>,
    pub kind: PacketKind,
    pub start_time: Instant,
    pub encode_time: Duration,
}

impl Clone for Packet {
    fn clone(&self) -> (r: Self)
        ensures
            r.data@ == self.data@,
            r.kind == self.kind,
            r.start_time == self.start_time,
            r.encode_time == self.encode_time,
    {
        Packet {
            data: self.data.clone(),
            kind: self.kind,
            start_time: self.start_time,
            encode_time: self.encode_time,
        }
    }
}

impl Packet {
    /// An empty packet that starts now.
    pub fn new() -> (r: Self)
        ensures
            r.data@ == Seq::<u8>::empty(),
            r.kind == PacketKind::Picture,
            r.encode_time == duration_of_millis(0),
    {
        Packet {
            data: Vec::new(),
            kind: PacketKind::Picture,
            start_time: Instant::now(),
            encode_time: Duration::from_millis(0),
        }
    }
}

/// The pixel layout of a texture.
#[derive(Clone, Copy, Debug, PartialEq, Eq, Structural)]
#[allow(non_camel_case_types)]
pub enum ColorFormat {
    Unknown,
    ARGB8UNorm,
    ABGR8UNorm,
    YUV444,
    AYUV,
    YUV420,
    NV12,
    ARGB16Float,
    ARGB10UNorm,
    Y410,
    YUV444_10bit,
    YUV420_10bit,
}

/// The size and the pixel layout of a texture.
#[derive(Clone, Copy, Debug, PartialEq, Eq, Structural)]
pub struct TextureDesc {
    pub height: u32,
    pub width: u32,
    pub format: ColorFormat,
}

/// A texture of the graphics device: the handle `H` of the device, and what it describes.
#[derive(Debug)]
pub struct Texture<H> {
    pub raw: H,
    pub desc: TextureDesc,
}

/// What a frame holds.
#[derive(Debug)]
pub enum FrameType<H> {
    Dx11Frame(Texture<H>),
}

/// One picture on its way through the stream.
#[derive(Debug)]
pub struct Frame<H> {
    pub data: FrameType<H>,
    pub start_time: Instant,
}

impl<H> Frame<H> {
    /// A frame that starts now.
    pub fn new(data: FrameType<H>) -> (r: Self)
        ensures
            r.data == data,
    {
        Frame { data, start_time: Instant::now() }
    }

    /// A frame with other data that started when `frame` did.
    pub fn new_from(frame: &Frame<H>, data: FrameType<H>) -> (r: Self)
        ensures
            r.data == data,
            r.start_time == frame.start_time,
    {
        Frame { data, start_time: frame.start_time }
    }
}

/// A width and a height in pixels.
#[derive(Clone, Copy, Debug, PartialEq, Eq, Structural)]
pub struct Resolution {
    pub width: u32,
    pub height: u32,
}

/// The numbers that all pieces are, or the error of the first piece that is none.
pub open spec fn numbers(pieces: Seq<Seq<char>>) -> std::result::Result<Seq<u32>, IntError>
    decreases pieces.len(),
{
    if pieces.len() == 0 {
        Ok(Seq::empty())
    } else {
        match numbers(pieces.drop_last()) {
            Err(e) => Err(e),
            Ok(before) => match unsigned(pieces.last(), u32::MAX as nat) {
                Err(e) => Err(e),
                Ok(n) => Ok(before.push(n as u32)),
            },
        }
    }
}

impl Resolution {
    /// The resolution that `s` stands for: a width and a height with an `x` between them.
    pub open spec fn of(s: Seq<char>) -> std::result::Result<Resolution, Seq<char>> {
        match numbers(split(trimmed(s), 'x')) {
            Err(e) => Err("parse failed "@ + e.text()),
            Ok(n) => if n.len() == 2 {
                Ok(Resolution { width: n[0], height: n[1] })
            } else {
                Err("expected WidthxHeight"@)
            },
        }
    }
}

impl FromStr for Resolution {
    type Err = String;

    /// Reads a resolution.
    fn from_str(s: &str) -> (r: std::result::Result<Resolution, String>)
        ensures
            match r {
                Ok(resolution) => Resolution::of(s@) == Ok::<Resolution, Seq<char>>(resolution),
                Err(e) => Resolution::of(s@) == Err::<Resolution, Seq<char>>(e@),
            },
    {
        let pieces = split_text(trim(s), 'x');
        let ghost all = split(trimmed(s@), 'x');
        let mut found: Vec<u32> = Vec::new();
        let mut i: usize = 0;
        assert(all.take(0) == Seq::<Seq<char>>::empty());
        while i < pieces.len()
            invariant
                i <= pieces@.len(),
                all == split(trimmed(s@), 'x'),
                all == crate::text::texts(pieces@),
                numbers(all.take(i as int)) == Ok::<Seq<u32>, IntError>(found@),
            decreases pieces@.len() - i,
        {
            proof {
                assert(all.take(i + 1).drop_last() == all.take(i as int));
                assert(all.take(i + 1).last() == pieces@[i as int]@);
            }
            match parse_unsigned(pieces[i].as_str(), u32::MAX as u64) {
                Ok(n) => {
                    found.push(n as u32);
                },
                Err(e) => {
                    proof {
                        lemma_numbers_error(all, i + 1, e);
                    }
                    return Err(joined_text("parse failed ", e.to_text()));
                },
            }
            i = i + 1;
        }
        assert(all.take(i as int) == all);
        if found.len() != 2 {
            Err("expected WidthxHeight".to_owned())
        } else {
            Ok(Resolution { width: found[0], height: found[1] })
        }
    }
}

/// Reading gives back what was written: every width and height, in decimal digits with an `x`
/// between them, are read as that resolution.
pub proof fn law_resolution_read(width: u32, height: u32)
    ensures
        Resolution::of(decimal(width as nat).push('x') + decimal(height as nat)) == Ok::<
            Resolution,
            Seq<char>,
        >(Resolution { width, height }),
{
    let w = decimal(width as nat);
    let h = decimal(height as nat);
    let s = w.push('x') + h;
    lemma_decimal_digits(width as nat);
    lemma_decimal_digits(height as nat);
    law_decimal_read(width as nat, u32::MAX as nat);
    law_decimal_read(height as nat, u32::MAX as nat);
    assert(is_digit(w[0]));
    assert(s.first() == w[0]);
    assert(trim_start(s) == s);
    assert(is_digit(h[h.len() - 1]));
    assert(s.last() == h[h.len() - 1]);
    assert(trim_end(s) == s);
    assert(!w.contains('x'));
    assert(!h.contains('x'));
    law_split_append(w, h, 'x');
    lemma_split_single(w, 'x');
    lemma_split_single(h, 'x');
    let pieces = split(s, 'x');
    assert(pieces == seq![w, h]);
    assert(pieces.drop_last() == seq![w]);
    assert(seq![w].drop_last() == Seq::<Seq<char>>::empty());
    assert(numbers(Seq::<Seq<char>>::empty()) == Ok::<Seq<u32>, IntError>(Seq::empty()));
    assert(numbers(seq![w]) == Ok::<Seq<u32>, IntError>(seq![width]));
    assert(pieces.last() == h);
    assert(seq![width].push(height) == seq![width, height]);
    assert(numbers(pieces) == Ok::<Seq<u32>, IntError>(seq![width, height]));
}

/// All pieces are numbers, or one is the first that is none.
pub proof fn law_numbers(pieces: Seq<Seq<char>>)
    ensures
        match numbers(pieces) {
            Ok(n) => n.len() == pieces.len() && forall|i: int|
                0 <= i < pieces.len() ==> unsigned(#[trigger] pieces[i], 0xffff_ffff) == Ok::<
                    nat,
                    IntError,
                >(n[i] as nat),
            Err(e) => exists|k: int|
                0 <= k < pieces.len() && unsigned(#[trigger] pieces[k], 0xffff_ffff) == Err::<
                    nat,
                    IntError,
                >(e) && forall|i: int|
                    0 <= i < k ==> unsigned(#[trigger] pieces[i], 0xffff_ffff) is Ok,
        },
    decreases pieces.len(),
{
    if pieces.len() > 0 {
        let before = pieces.drop_last();
        law_numbers(before);
        let last = pieces[pieces.len() - 1];
        assert(last == pieces.last());
        assert forall|i: int| 0 <= i < before.len() implies #[trigger] pieces[i] == before[i] by {}
        match numbers(before) {
            Ok(n) => {
                crate::text::law_digits_are_read(last, 0xffff_ffff);
                crate::text::law_digits_are_read(last.drop_first(), 0xffff_ffff);
                assert forall|i: int| 0 <= i < before.len() implies unsigned(
                    #[trigger] pieces[i],
                    0xffff_ffff,
                ) is Ok by {
                    assert(unsigned(before[i], 0xffff_ffff) is Ok);
                }
                if unsigned(last, 0xffff_ffff) is Ok {
                    assert forall|i: int| 0 <= i < pieces.len() implies unsigned(
                        #[trigger] pieces[i],
                        0xffff_ffff,
                    ) == Ok::<nat, IntError>(numbers(pieces)->Ok_0[i] as nat) by {
                        if i < before.len() {
                            assert(unsigned(before[i], 0xffff_ffff) == Ok::<nat, IntError>(
                                n[i] as nat,
                            ));
                        }
                    }
                } else {
                    assert(unsigned(pieces[pieces.len() - 1], 0xffff_ffff) == Err::<nat, IntError>(
                        numbers(pieces)->Err_0,
                    ));
                }
            },
            Err(e) => {
                let k = choose|k: int|
                    0 <= k < before.len() && unsigned(#[trigger] before[k], 0xffff_ffff) == Err::<
                        nat,
                        IntError,
                    >(e) && forall|i: int|
                        0 <= i < k ==> unsigned(#[trigger] before[i], 0xffff_ffff) is Ok;
                assert(pieces[k] == before[k]);
                assert forall|i: int| 0 <= i < k implies unsigned(
                    #[trigger] pieces[i],
                    0xffff_ffff,
                ) is Ok by {
                    assert(unsigned(before[i], 0xffff_ffff) is Ok);
                }
            },
        }
    }
}

/// A text is a resolution where it is, but for white space at its ends, a width and a height with one `x`
/// between them: the first number is the width and the second one the height. Numbers of which there
/// are not two are told as such. Otherwise the error is that of the first piece that is no number.
pub proof fn law_resolution(s: Seq<char>)
    ensures
        match Resolution::of(s) {
            Ok(res) => exists|a: Seq<char>, b: Seq<char>|
                #![trigger a.push('x') + b]
                trimmed(s) == a.push('x') + b && !a.contains('x') && !b.contains('x') && unsigned(
                    a,
                    0xffff_ffff,
                ) == Ok::<nat, IntError>(res.width as nat) && unsigned(b, 0xffff_ffff) == Ok::<
                    nat,
                    IntError,
                >(res.height as nat),
            Err(e) => {
                let pieces = split(trimmed(s), 'x');
                ||| e == "expected WidthxHeight"@ && pieces.len() != 2 && forall|i: int|
                    0 <= i < pieces.len() ==> unsigned(#[trigger] pieces[i], 0xffff_ffff) is Ok
                ||| exists|k: int|
                    0 <= k < pieces.len() && unsigned(#[trigger] pieces[k], 0xffff_ffff) is Err
                        && e == "parse failed "@ + unsigned(
                        pieces[k],
                        0xffff_ffff,
                    )->Err_0.text() && forall|i: int|
                        0 <= i < k ==> unsigned(#[trigger] pieces[i], 0xffff_ffff) is Ok
            },
        },
{
    let pieces = split(trimmed(s), 'x');
    law_numbers(pieces);
    crate::text::law_split_joined(trimmed(s), 'x');
    if Resolution::of(s) is Ok {
        let a = pieces[0];
        let b = pieces[1];
        assert(pieces == seq![a].push(b));
        crate::text::law_joined(seq![a], b, 'x');
        crate::text::law_joined(Seq::empty(), a, 'x');
        assert(a + seq!['x'] + b == a.push('x') + b);
        assert(trimmed(s) == a.push('x') + b);
    } else if numbers(pieces) is Err {
        let e = numbers(pieces)->Err_0;
        let k = choose|k: int|
            0 <= k < pieces.len() && unsigned(#[trigger] pieces[k], 0xffff_ffff) == Err::<
                nat,
                IntError,
            >(e) && forall|i: int|
                0 <= i < k ==> unsigned(#[trigger] pieces[i], 0xffff_ffff) is Ok;
        assert(unsigned(pieces[k], 0xffff_ffff) is Err);
    }
}

/// White space around a resolution makes no difference, and neither does a plus sign before a number.
pub proof fn law_resolution_is_read(s: Seq<char>, a: Seq<char>, b: Seq<char>)
    requires
        trimmed(s) == a.push('x') + b,
        !a.contains('x'),
        !b.contains('x'),
        unsigned(a, 0xffff_ffff) is Ok,
        unsigned(b, 0xffff_ffff) is Ok,
    ensures
        Resolution::of(s) is Ok,
        Resolution::of(s)->Ok_0.width == unsigned(a, 0xffff_ffff)->Ok_0,
        Resolution::of(s)->Ok_0.height == unsigned(b, 0xffff_ffff)->Ok_0,
{
    law_split_append(a, b, 'x');
    lemma_split_single(a, 'x');
    lemma_split_single(b, 'x');
    let pieces = split(trimmed(s), 'x');
    assert(pieces == seq![a, b]);
    assert(pieces[0] == a && pieces[1] == b);
    law_numbers(pieces);
}

proof fn lemma_numbers_error(pieces: Seq<Seq<char>>, n: int, e: IntError)
    requires
        0 <= n <= pieces.len(),
        numbers(pieces.take(n)) == Err::<Seq<u32>, IntError>(e),
    ensures
        numbers(pieces) == Err::<Seq<u32>, IntError>(e),
    decreases pieces.len(),
{
    if n < pieces.len() {
        assert(pieces.drop_last().take(n) == pieces.take(n));
        lemma_numbers_error(pieces.drop_last(), n, e);
    } else {
        assert(pieces.take(n) == pieces);
    }
}

/// A configuration that is read from an option string.
pub trait FromOptions: Sized {
    /// `r` is what reading `s` may give. An implementation that says nothing of it may give anything.
    open spec fn parsed(s: Seq<char>, r: std::result::Result<Self, String>) -> bool {
        true
    }

    /// Reads an option string.
    fn from_options(s: &str) -> (r: std::result::Result<Self, String>)
        ensures
            Self::parsed(s@, r),
    ;
}

/// A stage that takes a new configuration while it runs.
pub trait Config: Sized {
    type ConfigType: FromOptions;

    /// Configuring `pre` with `c` may leave `post` and return `r`. An implementation that says nothing
    /// of it may do anything.
    open spec fn configured(
        pre: Self,
        c: Self::ConfigType,
        post: Self,
        r: RhinoResult<()>,
    ) -> bool {
        true
    }

    /// Takes a new configuration.
    fn configure(&mut self, c: Self::ConfigType) -> (r: RhinoResult<()>)
        ensures
            Self::configured(*old(self), c, *final(self), r),
    ;

    /// Takes a new configuration from an option string. Where it cannot be read the stage stays as
    /// it is.
    fn configure_from_str(&mut self, c: &str) -> (r: RhinoResult<()>)
        ensures
            exists|p: std::result::Result<Self::ConfigType, String>| #[trigger]
                Self::ConfigType::parsed(c@, p) && match p {
                    Ok(conf) => Self::configured(*old(self), conf, *final(self), r),
                    Err(e) => *final(self) == *old(self) && fails_with(
                        r,
                        ErrorView::ParseError(e@),
                    ),
                },
    {
        let parsed = Self::ConfigType::from_options(c);
        assert(Self::ConfigType::parsed(c@, parsed));
        match parsed {
            Ok(conf) => self.configure(conf),
            Err(e) => Err(RhinoError::ParseError(e)),
        }
    }
}

/// A stage that takes signals while it runs.
pub trait Signal: Sized {
    /// Signalling `flags` to `pre` may leave `post` and return `r`. An implementation that says nothing
    /// of it may do anything.
    open spec fn signalled(pre: Self, flags: u32, post: Self, r: RhinoResult<()>) -> bool {
        true
    }

    /// Takes a signal.
    fn signal(&mut self, flags: u32) -> (r: RhinoResult<()>)
        ensures
            Self::signalled(*old(self), flags, *final(self), r),
    ;
}

/// Where the frames of a stream come from.
pub trait Source: Signal + Config {

}

/// What makes another frame of each frame of a stream.
pub trait Filter: Config {
    /// The device's handle of a texture.
    type Handle;

    /// Filtering `frame` with `pre` may leave `post` and return `r`. An implementation that says nothing
    /// of it may do anything.
    open spec fn filtered(
        pre: Self,
        frame: Frame<Self::Handle>,
        post: Self,
        r: RhinoResult<Frame<Self::Handle>>,
    ) -> bool {
        true
    }

    /// Filters a frame.
    fn apply_filter(&mut self, frame: &Frame<Self::Handle>) -> (r: RhinoResult<
        Frame<Self::Handle>,
    >)
        ensures
            Self::filtered(*old(self), *frame, *final(self), r),
    ;
}

/// What makes packets of the frames of a stream.
pub trait Processor: Signal + Config {
    /// Where the processor takes frames from.
    type Queue;

    /// Asking `pre` for its queue may leave `post` and return `r`. An implementation that says nothing
    /// of it may do anything.
    open spec fn queue_given(pre: Self, post: Self, r: RhinoResult<Self::Queue>) -> bool {
        true
    }

    /// The queue that the frames are to be sent to.
    fn get_queue(&mut self) -> (r: RhinoResult<Self::Queue>)
        ensures
            Self::queue_given(*old(self), *final(self), r),
    ;
}

/// What the stages of a stream share: nothing yet, or a graphics device.
#[derive(Debug)]
pub enum Context<D> {
    Empty,
    DxContext(DxContext<D>),
}

/// A graphics device with its context.
#[derive(Debug)]
pub struct DxContext<D> {
    pub device: D,
}

impl<D: Clone> Clone for DxContext<D> {
    fn clone(&self) -> (r: Self)
        ensures
            cloned(self.device, r.device),
    {
        DxContext { device: self.device.clone() }
    }
}

impl<D: Clone> Clone for Context<D> {
    fn clone(&self) -> (r: Self)
        ensures
            match *self {
                Context::Empty => r is Empty,
                Context::DxContext(c) => r is DxContext && cloned(
                    c.device,
                    r->DxContext_0.device,
                ),
            },
    {
        match self {
            Context::Empty => Context::Empty,
            Context::DxContext(c) => Context::DxContext(c.clone()),
        }
    }
}

impl<D> Default for Context<D> {
    fn default() -> (r: Self)
        ensures
            r == Context::<D>::Empty,
    {
        Context::Empty
    }
}

} // verus!
