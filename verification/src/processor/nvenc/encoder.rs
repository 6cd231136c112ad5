//! The encoder as a stage of a stream: how it is opened, and how its packets are collected.
use std::time::{Duration, Instant};
use vstd::prelude::*;
use crate::errors::{fails_with, into_err, status_error, ErrorView, RhinoError, RhinoResult};
use crate::processor::nvenc::config::NvencConfig;
use crate::processor::nvenc::executor::{first_pic_params, NvExecutor};
use crate::processor::nvenc::params::{
    get_init_params, get_nvenc_preset_conf, has_buffer_size, InitParams, PresetConfig,
    PresetReply, PresetRequest,
};
use crate::processor::{queue_taken, take_queue};
use crate::rate::FrameRate;
use crate::{ColorFormat, Context, Packet, PacketKind, TextureDesc};

verus! {

/// How many pictures may wait until they are done.
pub const WAIT_CAPACITY: usize = 4;

/// How many pictures that are done may wait to be collected.
pub const COMPLETE_CAPACITY: usize = 3;

/// How many milliseconds a picture is waited for.
pub const EVENT_TIMEOUT_MS: u32 = 5000;

/// The encoder, with the sending ends `Q` of the queue of frames and `C` of that of finished pictures.
///
/// It is opened in steps, each of which takes what the driver replied to the step before: `new`,
/// `SessionWanted::opened`, `PresetWanted::replied` and `InitWanted::initialized`.
#[derive(Debug)]
pub struct NvEnc<Q, C> {
    conf: NvencConfig,
    preset_config: PresetConfig,
    init_params: InitParams,
    frame_tx: Option<Q>,
    complete_tx: Option<C>,
    started_background: bool,
}

/// An encoder that needs a session.
#[derive(Debug)]
pub struct SessionWanted {
    pub conf: NvencConfig,
}

/// An encoder that needs a preset.
#[derive(Debug)]
pub struct PresetWanted {
    pub conf: NvencConfig,
    pub request: PresetRequest,
}

/// An encoder that needs to be started.
#[derive(Debug)]
pub struct InitWanted {
    pub conf: NvencConfig,
    pub rate: FrameRate,
    pub preset: PresetConfig,
    pub init_params: InitParams,
}

impl SessionWanted {
    /// Takes what the driver replied to the request for a session.
    pub fn opened(self, status: i32) -> (r: RhinoResult<PresetWanted>)
        ensures
            status == 0 ==> r is Ok && r->Ok_0 == (PresetWanted {
                conf: self.conf,
                request: PresetRequest::of(self.conf),
            }),
            status != 0 ==> fails_with(r, status_error(status)),
    {
        match into_err(status) {
            Ok(_) => {
                let request = PresetRequest::new(&self.conf);
                Ok(PresetWanted { conf: self.conf, request })
            },
            Err(e) => Err(e),
        }
    }
}

impl PresetWanted {
    /// Takes what the driver replied to the request for a preset, with `rate` the frame rate of the
    /// configuration.
    pub fn replied(self, rate: FrameRate, status: i32, reply: PresetReply) -> (r: RhinoResult<
        InitWanted,
    >)
        requires
            status == 0 ==> has_buffer_size(self.conf.bitrate, rate),
        ensures
            status == 0 ==> r is Ok && r->Ok_0 == (InitWanted {
                conf: self.conf,
                rate,
                preset: reply.tuned(self.conf, rate),
                init_params: InitParams::of(self.conf, rate),
            }),
            status != 0 ==> fails_with(r, status_error(status)),
    {
        match get_nvenc_preset_conf(&self.conf, rate, status, reply) {
            Ok(preset) => {
                let init_params = get_init_params(&self.conf, rate);
                Ok(InitWanted { conf: self.conf, rate, preset, init_params })
            },
            Err(e) => Err(e),
        }
    }
}

impl InitWanted {
    /// Takes what the driver replied to the start, and the sending ends of the two queues.
    pub fn initialized<H, Q, C>(self, status: i32, frame_tx: Q, complete_tx: C) -> (r: RhinoResult<
        (NvEnc<Q, C>, NvExecutor<H>),
    >)
        ensures
            status == 0 ==> {
                &&& r is Ok
                &&& r->Ok_0.0.well_formed()
                &&& r->Ok_0.0.conf() == self.conf
                &&& r->Ok_0.0.preset_config() == self.preset
                &&& r->Ok_0.0.init_params() == self.init_params
                &&& r->Ok_0.0.frame_tx() == Some(frame_tx)
                &&& r->Ok_0.0.complete_tx() == Some(complete_tx)
                &&& r->Ok_0.1.well_formed()
                &&& r->Ok_0.1.config.same(self.conf)
                &&& r->Ok_0.1.preset == self.preset
                &&& r->Ok_0.1.init_params == self.init_params
                &&& r->Ok_0.1.signal == 0
                &&& r->Ok_0.1.pic_params == first_pic_params(self.conf, self.rate)
                &&& r->Ok_0.1.pool.available().len() == 0
                &&& r->Ok_0.1.pool.desc() == (TextureDesc {
                    height: 0,
                    width: 0,
                    format: ColorFormat::Unknown,
                })
            },
            status != 0 ==> fails_with(r, status_error(status)),
    {
        match into_err(status) {
            Ok(_) => {
                let exec = NvExecutor::new(
                    self.preset,
                    self.conf.clone(),
                    self.rate,
                    self.init_params,
                );
                let enc = NvEnc {
                    conf: self.conf,
                    preset_config: self.preset,
                    init_params: self.init_params,
                    frame_tx: Some(frame_tx),
                    complete_tx: Some(complete_tx),
                    started_background: false,
                };
                Ok((enc, exec))
            },
            Err(e) => Err(e),
        }
    }
}

/// What the collector of frames does next.
#[derive(Debug)]
pub enum CollectorAction<M> {
    /// Wait for the next frame.
    NextFrame,
    /// Hand on the picture.
    Send(M),
    /// End.
    Exit,
}

/// What was read of a finished picture.
#[derive(Debug)]
pub struct LockedOutput<'a> {
    /// What the driver replied to the request for the output buffer.
    pub status: i32,
    /// The output buffer.
    pub slice: &'a [u8],
    /// When the frame of the picture started.
    pub start_time: Instant,
    /// How long that is ago.
    pub elapsed: Duration,
}

impl<Q, C> NvEnc<Q, C> {
    /// The configuration that it was opened with.
    pub closed spec fn conf(self) -> NvencConfig {
        self.conf
    }

    /// The preset that it was opened with.
    pub closed spec fn preset_config(self) -> PresetConfig {
        self.preset_config
    }

    /// The parameters that it was started with.
    pub closed spec fn init_params(self) -> InitParams {
        self.init_params
    }

    /// The sending end of the queue of frames, until it is taken.
    pub closed spec fn frame_tx(self) -> Option<Q> {
        self.frame_tx
    }

    /// The sending end of the queue of finished pictures, until it is taken.
    pub closed spec fn complete_tx(self) -> Option<C> {
        self.complete_tx
    }

    /// The sending end of the queue of finished pictures is there until the work in the background has
    /// started.
    pub closed spec fn well_formed(self) -> bool {
        self.started_background <==> self.complete_tx is None
    }

    /// Opens an encoder on the device of a stream. `api_status` is what came back for the functions of
    /// the driver.
    pub fn new<D>(ctx: &Context<D>, conf: &NvencConfig, api_status: i32) -> (r: RhinoResult<
        SessionWanted,
    >)
        ensures
            api_status != 0 ==> fails_with(r, status_error(api_status)),
            api_status == 0 ==> match *ctx {
                Context::Empty => fails_with(r, ErrorView::UnSupported),
                Context::DxContext(_) => r is Ok && r->Ok_0.conf.same(*conf),
            },
    {
        match into_err(api_status) {
            Ok(_) => match ctx {
                Context::Empty => Err(RhinoError::UnSupported),
                Context::DxContext(_) => Ok(SessionWanted { conf: conf.clone() }),
            },
            Err(e) => Err(e),
        }
    }

    /// The queue that the frames are to be sent to. It is given away once.
    pub fn get_queue(&mut self) -> (r: RhinoResult<Q>)
        ensures
            queue_taken(old(self).frame_tx(), r, final(self).frame_tx()),
            final(self).complete_tx() == old(self).complete_tx(),
            final(self).conf() == old(self).conf(),
            final(self).preset_config() == old(self).preset_config(),
            final(self).init_params() == old(self).init_params(),
            final(self).well_formed() == old(self).well_formed(),
    {
        take_queue(&mut self.frame_tx)
    }

    /// Starts the work in the background with the first packet that is asked for: the sending end that
    /// it needs comes out then, and never again.
    pub fn get_packet(&mut self) -> (r: Option<C>)
        requires
            old(self).well_formed(),
        ensures
            final(self).well_formed(),
            r == old(self).complete_tx(),
            final(self).complete_tx() is None,
            final(self).frame_tx() == old(self).frame_tx(),
            final(self).conf() == old(self).conf(),
            final(self).preset_config() == old(self).preset_config(),
            final(self).init_params() == old(self).init_params(),
    {
        if !self.started_background {
            self.started_background = true;
            self.complete_tx.take()
        } else {
            None
        }
    }

    /// What follows what the encoder returned for a frame: an error ends the work.
    pub fn frame_collector<M>(pushed: RhinoResult<M>) -> (r: CollectorAction<M>)
        ensures
            match pushed {
                Ok(m) => r == CollectorAction::Send(m),
                Err(_) => r is Exit,
            },
    {
        match pushed {
            Ok(m) => CollectorAction::Send(m),
            Err(_) => CollectorAction::Exit,
        }
    }

    /// What follows a picture that was handed on, or could not be because nobody takes it any more.
    pub fn frame_handed_on<M>(sent: bool) -> (r: CollectorAction<M>)
        ensures
            sent ==> r is NextFrame,
            !sent ==> r is Exit,
    {
        if sent {
            CollectorAction::NextFrame
        } else {
            CollectorAction::Exit
        }
    }

    /// Makes a packet of a finished picture, or of nothing where no more pictures come. The data and
    /// the times of `packet` are replaced.
    pub fn collect_output(packet: Packet, received: Option<LockedOutput>) -> (r: RhinoResult<Packet>)
        ensures
            match received {
                None => fails_with(r, ErrorView::Exiting),
                Some(out) => if out.status != 0 {
                    fails_with(r, status_error(out.status))
                } else {
                    &&& r is Ok
                    &&& r->Ok_0.data@ == out.slice@
                    &&& r->Ok_0.kind == PacketKind::Video
                    &&& r->Ok_0.start_time == out.start_time
                    &&& r->Ok_0.encode_time == out.elapsed
                },
            },
    {
        match received {
            None => Err(RhinoError::Exiting),
            Some(out) => match into_err(out.status) {
                Err(e) => Err(e),
                Ok(_) => {
                    let mut packet = packet;
                    packet.data.clear();
                    packet.data.extend_from_slice(out.slice);
                    proof {
                        assert(packet.data@ =~= out.slice@);
                    }
                    packet.start_time = out.start_time;
                    packet.encode_time = out.elapsed;
                    packet.kind = PacketKind::Video;
                    Ok(packet)
                },
            },
        }
    }
}

/// Four pictures may wait until they are done and three that are done to be collected, and a picture is
/// waited for five seconds at most.
pub proof fn law_encoder_capacities()
    ensures
        WAIT_CAPACITY == 4,
        COMPLETE_CAPACITY == 3,
        EVENT_TIMEOUT_MS == 5000,
{
}

} // verus!
