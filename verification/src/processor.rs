//! Processors: they make packets of frames.
use std::str::FromStr;
use std::time::{Duration, Instant};
use vstd::prelude::*;
use crate::errors::{
    dda_err_map, dda_error, fails_with, DDApiError, ErrorView, RhinoError, RhinoResult,
};
use crate::{Context, FromOptions, Packet, PacketKind};

pub mod nvenc;

verus! {

/// How many frames may wait for a processor.
pub const FRAME_CAPACITY: usize = 1;

/// Asking for a queue that is `before` gives `r` and leaves `after`: it is given away once.
pub open spec fn queue_taken<Q>(before: Option<Q>, r: RhinoResult<Q>, after: Option<Q>) -> bool {
    &&& after is None
    &&& match before {
        Some(q) => r is Ok && r->Ok_0 == q,
        None => fails_with(r, ErrorView::Recoverable("get_queue can only be run once"@)),
    }
}

/// Gives a queue away, once.
pub fn take_queue<Q>(queue: &mut Option<Q>) -> (r: RhinoResult<Q>)
    ensures
        queue_taken(*old(queue), r, *final(queue)),
{
    match queue.take() {
        Some(q) => Ok(q),
        None => Err(RhinoError::Recoverable("get_queue can only be run once".to_owned())),
    }
}

/// Whoever asks first for a queue gets the queue that is there.
pub proof fn law_queue_goes_to_the_first<Q>(queue: Q, r: RhinoResult<Q>, after: Option<Q>)
    requires
        queue_taken(Some(queue), r, after),
    ensures
        r == Ok::<Q, RhinoError>(queue),
        after is None,
        FRAME_CAPACITY == 1,
{
}

/// A queue that was asked for is gone: asking again fails, whatever came of the first time.
pub proof fn law_queue_is_given_once<Q>(
    before: Option<Q>,
    first: RhinoResult<Q>,
    between: Option<Q>,
    second: RhinoResult<Q>,
    after: Option<Q>,
)
    requires
        queue_taken(before, first, between),
        queue_taken(between, second, after),
    ensures
        fails_with(second, ErrorView::Recoverable("get_queue can only be run once"@)),
{
}

/// A processor that reads the frames back to memory, with the sending end `Q` of its queue.
#[derive(Debug)]
pub struct CopyTexToCPU<Q> {
    tx: Option<Q>,
}

/// What was read of a frame.
#[derive(Debug)]
pub struct ReadFrame {
    /// Whether its texture could be read.
    pub read: Result<(), DDApiError>,
    /// When the frame started.
    pub start_time: Instant,
    /// How long that is ago.
    pub elapsed: Duration,
}

impl<Q> CopyTexToCPU<Q> {
    /// The sending end of the queue of frames, until it is taken.
    pub closed spec fn tx(self) -> Option<Q> {
        self.tx
    }

    /// A processor on the device of a stream.
    pub fn new<D>(ctx: &Context<D>, tx: Q) -> (r: RhinoResult<Self>)
        ensures
            match *ctx {
                Context::Empty => fails_with(r, ErrorView::UnSupported),
                Context::DxContext(_) => r is Ok && r->Ok_0.tx() == Some(tx),
            },
    {
        match ctx {
            Context::Empty => Err(RhinoError::UnSupported),
            Context::DxContext(_) => Ok(CopyTexToCPU { tx: Some(tx) }),
        }
    }

    /// The queue that the frames are to be sent to. It is given away once.
    pub fn get_queue(&mut self) -> (r: RhinoResult<Q>)
        ensures
            queue_taken(old(self).tx(), r, final(self).tx()),
    {
        take_queue(&mut self.tx)
    }

    /// Makes a packet of a frame whose texture was read into the data of `packet`, or of nothing where
    /// no more frames come.
    pub fn get_next(packet: Packet, received: Option<ReadFrame>) -> (r: RhinoResult<Packet>)
        ensures
            match received {
                None => fails_with(r, ErrorView::UnSupported),
                Some(frame) => match frame.read {
                    Err(e) => fails_with(r, dda_error(e)),
                    Ok(_) => r is Ok && r->Ok_0 == (Packet {
                        data: packet.data,
                        kind: PacketKind::Picture,
                        start_time: frame.start_time,
                        encode_time: frame.elapsed,
                    }),
                },
            },
    {
        match received {
            None => Err(RhinoError::UnSupported),
            Some(frame) => match frame.read {
                Err(e) => Err(dda_err_map(e)),
                Ok(_) => {
                    let mut packet = packet;
                    packet.start_time = frame.start_time;
                    packet.encode_time = frame.elapsed;
                    packet.kind = PacketKind::Picture;
                    Ok(packet)
                },
            },
        }
    }
}

/// The configuration of a processor that takes none.
#[derive(Clone, Copy, Debug, PartialEq, Eq, Structural)]
pub struct DummyConfig {}

impl FromStr for DummyConfig {
    type Err = String;

    /// Reads an option string: any one will do.
    fn from_str(_s: &str) -> (r: Result<DummyConfig, String>)
        ensures
            r is Ok,
    {
        Ok(DummyConfig {  })
    }
}

impl FromOptions for DummyConfig {
    open spec fn parsed(s: Seq<char>, r: Result<Self, String>) -> bool {
        r is Ok
    }

    fn from_options(s: &str) -> Result<Self, String> {
        DummyConfig::from_str(s)
    }
}

/// Every option string is read as the configuration of a processor that takes none.
pub proof fn law_any_options_will_do(s: Seq<char>, r: Result<DummyConfig, String>)
    requires
        DummyConfig::parsed(s, r),
    ensures
        r is Ok,
{
}

} // verus!
