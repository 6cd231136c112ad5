//! The encoder at work: frames go in, and pictures with their parameters come out.
use std::time::Instant;
use vstd::prelude::*;
use crate::errors::{into_err, status_error, RhinoError};
use crate::processor::nvenc::config::NvencConfig;
use crate::processor::nvenc::params::{
    has_buffer_size, InitParams, PresetConfig, PresetReply, RcParams,
};
use crate::processor::nvenc::pool::{NvMappedResource, NvQueueItem, NvResEventGroup, NvencPool};
use crate::processor::nvenc::types::BufferFormat;
use crate::rate::FrameRate;
use crate::texture::{
    format_code, law_format_codes_differ, made_to, plain_texture, Bind, TextureRequest,
};
use crate::{ColorFormat, Resolution, TextureDesc};

verus! {

/// What is special about a picture.
#[derive(Clone, Copy, Debug, PartialEq, Eq, Structural)]
pub struct PicFlags {
    /// The parameter sets are written again.
    pub output_spspps: bool,
    /// The picture is a key frame from which decoding can start.
    pub force_idr: bool,
}

/// The parameters of a picture.
#[derive(Clone, Copy, Debug, PartialEq, Eq, Structural)]
pub struct PicParams {
    pub input_width: u32,
    pub input_height: u32,
    pub input_pitch: u32,
    pub buffer_fmt: BufferFormat,
    pub input_duration: u64,
    pub encode_pic_flags: PicFlags,
    pub input_buffer: u64,
    pub input_time_stamp: u64,
    pub output_bitstream: u64,
    pub completion_event: u64,
}

/// What a running encoder is changed with.
#[derive(Clone, Copy, Debug, PartialEq, Eq)]
pub struct ReconfigureRequest {
    pub init_params: InitParams,
    pub preset: PresetConfig,
    pub force_idr: u32,
}

/// The flags of a picture after a signal: any signal asks for a key frame.
pub open spec fn pic_flags(signal: u32) -> PicFlags {
    PicFlags { output_spspps: signal != 0, force_idr: signal != 0 }
}

/// The state of the encoder.
#[derive(Debug)]
pub struct NvExecutor<H> {
    pub preset: PresetConfig,
    pub init_params: InitParams,
    pub signal: u32,
    pub pic_params: PicParams,
    pub config: NvencConfig,
    pub pool: NvencPool<H>,
}

/// The parameters of the pictures of a configuration, before there is one.
pub open spec fn first_pic_params(config: NvencConfig, rate: FrameRate) -> PicParams {
    PicParams {
        input_width: config.resolution.width,
        input_height: config.resolution.height,
        input_pitch: 0,
        buffer_fmt: config.color.driver_name(),
        input_duration: rate.period_ms,
        encode_pic_flags: pic_flags(0),
        input_buffer: 0,
        input_time_stamp: 0,
        output_bitstream: 0,
        completion_event: 0,
    }
}

/// The picture `pic` is made of the group `item`, which started `elapsed_ms` milliseconds ago, by the encoder
/// `before`, and leaves the encoder `after`.
pub open spec fn picture_made<H>(
    before: NvExecutor<H>,
    item: NvMappedResource<H>,
    elapsed_ms: u64,
    pic: PicParams,
    after: NvExecutor<H>,
) -> bool {
    &&& pic == (PicParams {
        encode_pic_flags: pic_flags(before.signal),
        input_buffer: item.mapped_res,
        input_time_stamp: elapsed_ms,
        output_bitstream: item.item.item->0.buffer.buffer_ptr,
        completion_event: item.item.item->0.event.event,
        ..before.pic_params
    })
    &&& after == (NvExecutor { signal: 0, pic_params: pic, ..before })
}

/// The starting parameters with the size and the rate of another configuration. The aspect ratio and
/// all else stay.
pub open spec fn resized_params(
    params: InitParams,
    resolution: Resolution,
    rate: FrameRate,
) -> InitParams {
    InitParams {
        encode_width: resolution.width,
        encode_height: resolution.height,
        frame_rate_num: rate.whole,
        frame_rate_den: 1,
        ..params
    }
}

/// What a frame needs before it can be encoded.
#[derive(Debug)]
pub struct FrameStep<H> {
    /// The change of the encoder that the driver has to make.
    pub reconfigure: Option<ReconfigureRequest>,
    /// What is no longer of use.
    pub released: Vec<NvQueueItem<H>>,
}

/// The encoder `before` takes a frame that is described so, with `rate` the frame rate of its configuration,
/// needs `step` for it and is then `after`.
pub open spec fn frame_taken<H>(
    before: NvExecutor<H>,
    desc: TextureDesc,
    rate: FrameRate,
    step: FrameStep<H>,
    after: NvExecutor<H>,
) -> bool {
    if desc == before.pool.desc() {
        &&& after == before
        &&& step.reconfigure is None
        &&& step.released@.len() == 0
    } else {
        let resolution = Resolution { width: desc.width, height: desc.height };
        &&& after.pool.desc() == desc
        &&& after.pool.available().len() == 0
        &&& after.config == (NvencConfig { resolution, ..before.config })
        &&& after.init_params == resized_params(before.init_params, resolution, rate)
        &&& after.preset == (PresetConfig {
            rc_params: before.preset.rc_params.with_bitrate(before.config.bitrate, rate),
            ..before.preset
        })
        &&& after.signal == before.signal
        &&& after.pic_params == before.pic_params
        &&& step.reconfigure == Some(
            ReconfigureRequest { init_params: after.init_params, preset: after.preset, force_idr: 1 },
        )
        &&& step.released@ == before.pool.available()
    }
}

/// Where the item for a frame comes from.
#[derive(Debug)]
pub enum ItemStep<H> {
    /// It was used before.
    Ready(NvQueueItem<H>),
    /// It has to be made, with this texture.
    Create(TextureRequest),
}

/// The texture of a new item.
pub open spec fn texture_for(desc: TextureDesc) -> TextureRequest {
    plain_texture(
        desc.format,
        Resolution { width: desc.width, height: desc.height },
        Bind::RenderTarget,
    )
}

impl<H> NvExecutor<H> {
    /// The pool is well formed.
    pub open spec fn well_formed(self) -> bool {
        self.pool.well_formed()
    }

    /// An encoder with an empty pool and without a signal.
    pub fn new(
        preset: PresetConfig,
        config: NvencConfig,
        rate: FrameRate,
        init_params: InitParams,
    ) -> (r: Self)
        ensures
            r.well_formed(),
            r.preset == preset,
            r.init_params == init_params,
            r.signal == 0,
            r.pic_params == first_pic_params(config, rate),
            r.config == config,
            r.pool.available() == Seq::<NvQueueItem<H>>::empty(),
            r.pool.desc() == (TextureDesc { height: 0, width: 0, format: ColorFormat::Unknown }),
    {
        let pic_params = PicParams {
            input_width: config.resolution.width,
            input_height: config.resolution.height,
            input_pitch: 0,
            buffer_fmt: config.color.into(),
            input_duration: rate.period_ms,
            encode_pic_flags: PicFlags { output_spspps: false, force_idr: false },
            input_buffer: 0,
            input_time_stamp: 0,
            output_bitstream: 0,
            completion_event: 0,
        };
        NvExecutor { preset, init_params, signal: 0, pic_params, config, pool: NvencPool::new() }
    }

    /// Takes the size, the frame rate and the bit rate of another configuration. The driver starts
    /// again with a key frame. The configuration that the encoder keeps for frames of another size
    /// stays.
    pub fn configure(&mut self, conf: NvencConfig, rate: FrameRate) -> (r: ReconfigureRequest)
        requires
            has_buffer_size(conf.bitrate, rate),
        ensures
            *final(self) == (NvExecutor {
                init_params: resized_params(old(self).init_params, conf.resolution, rate),
                preset: PresetConfig {
                    rc_params: old(self).preset.rc_params.with_bitrate(conf.bitrate, rate),
                    ..old(self).preset
                },
                ..*old(self)
            }),
            r == (ReconfigureRequest {
                init_params: final(self).init_params,
                preset: final(self).preset,
                force_idr: 1,
            }),
            r.init_params.encode_width == conf.resolution.width,
            r.init_params.encode_height == conf.resolution.height,
            r.init_params.frame_rate_num == rate.whole,
            r.init_params.encode_guid == old(self).init_params.encode_guid,
            r.init_params.preset_guid == old(self).init_params.preset_guid,
            r.init_params.tuning_info == old(self).init_params.tuning_info,
            r.init_params.buffer_format == old(self).init_params.buffer_format,
            r.init_params.dar_width == old(self).init_params.dar_width,
            r.init_params.dar_height == old(self).init_params.dar_height,
            r.init_params.max_encode_width == old(self).init_params.max_encode_width,
            r.init_params.max_encode_height == old(self).init_params.max_encode_height,
            r.preset.codec == old(self).preset.codec,
            r.preset.chroma_format_idc == old(self).preset.chroma_format_idc,
            r.preset.gop_length == old(self).preset.gop_length,
    {
        self.init_params.encode_height = conf.resolution.height;
        self.init_params.encode_width = conf.resolution.width;
        self.init_params.frame_rate_num = rate.whole;
        self.init_params.frame_rate_den = 1;
        let mut rc: RcParams = self.preset.rc_params;
        rc.set_bitrate(conf.bitrate, rate);
        self.preset.rc_params = rc;
        ReconfigureRequest { init_params: self.init_params, preset: self.preset, force_idr: 1 }
    }

    /// Takes a frame that is described so, with `rate` the frame rate of the configuration. Where the
    /// frames before it were of another kind the pool is emptied and the encoder is changed.
    pub fn push_frame(&mut self, desc: TextureDesc, rate: FrameRate) -> (r: FrameStep<H>)
        requires
            old(self).well_formed(),
            desc != old(self).pool.desc() ==> has_buffer_size(old(self).config.bitrate, rate),
        ensures
            final(self).well_formed(),
            final(self).pool.desc() == desc,
            desc == old(self).pool.desc() ==> {
                &&& *final(self) == *old(self)
                &&& r.reconfigure is None
                &&& r.released@ == Seq::<NvQueueItem<H>>::empty()
            },
            desc != old(self).pool.desc() ==> {
                let resolution = Resolution { width: desc.width, height: desc.height };
                &&& final(self).pool.available() == Seq::<NvQueueItem<H>>::empty()
                &&& final(self).config == (NvencConfig { resolution, ..old(self).config })
                &&& final(self).init_params == resized_params(
                    old(self).init_params,
                    resolution,
                    rate,
                )
                &&& final(self).preset == (PresetConfig {
                    rc_params: old(self).preset.rc_params.with_bitrate(
                        old(self).config.bitrate,
                        rate,
                    ),
                    ..old(self).preset
                })
                &&& final(self).signal == old(self).signal
                &&& final(self).pic_params == old(self).pic_params
                &&& r.reconfigure == Some(
                    ReconfigureRequest {
                        init_params: final(self).init_params,
                        preset: final(self).preset,
                        force_idr: 1,
                    },
                )
                &&& r.released@ == old(self).pool.available()
            },
            frame_taken(*old(self), desc, rate, r, *final(self)),
    {
        if desc != self.pool.get_desc() {
            let released = self.pool.configure(&desc);
            let resolution = Resolution { width: desc.width, height: desc.height };
            self.config.resolution = resolution;
            let request = self.configure(self.config.clone(), rate);
            FrameStep { reconfigure: Some(request), released }
        } else {
            FrameStep { reconfigure: None, released: Vec::new() }
        }
    }

    /// The item for a frame that started at `start_time`: one that was used before, or a new one of
    /// which the texture has to be made first.
    pub fn get_item(&mut self, start_time: Instant) -> (r: ItemStep<H>)
        requires
            old(self).well_formed(),
        ensures
            final(self).well_formed(),
            final(self).pool.desc() == old(self).pool.desc(),
            *final(self) == (NvExecutor { pool: final(self).pool, ..*old(self) }),
            old(self).pool.available().len() > 0 ==> {
                &&& r == ItemStep::Ready(
                    NvQueueItem { start_time, ..old(self).pool.available().last() },
                )
                &&& r->Ready_0.holds(old(self).pool.desc())
                &&& final(self).pool.available() == old(self).pool.available().drop_last()
            },
            old(self).pool.available().len() == 0 ==> {
                &&& r == ItemStep::<H>::Create(texture_for(old(self).pool.desc()))
                &&& r->Create_0.width == old(self).pool.desc().width
                &&& r->Create_0.height == old(self).pool.desc().height
                &&& r->Create_0.format == format_code(old(self).pool.desc().format)
                &&& r->Create_0.bind == Bind::RenderTarget
                &&& final(self).pool.available() == old(self).pool.available()
            },
    {
        match self.pool.get_item() {
            Some(item) => ItemStep::Ready(NvQueueItem { item: item.item, start_time }),
            None => ItemStep::Create(NvencPool::<H>::new_item(&self.pool.get_desc())),
        }
    }

    /// The item of a frame that started at `start_time`, with a group that was made for it.
    pub fn item_made(group: NvResEventGroup<H>, start_time: Instant) -> (r: NvQueueItem<H>)
        ensures
            r == (NvQueueItem { item: Some(group), start_time }),
    {
        let mut item = NvQueueItem::new(group);
        item.start_time = start_time;
        item
    }

    /// Takes what the driver replied to a picture. A group that was not taken comes back.
    pub fn encoded(mapped: NvMappedResource<H>, status: i32) -> (r: Result<
        NvMappedResource<H>,
        (RhinoError, NvMappedResource<H>),
    >)
        ensures
            status == 0 ==> r is Ok && r->Ok_0 == mapped,
            status != 0 ==> r is Err && r->Err_0.0@ == status_error(status) && r->Err_0.1 == mapped,
    {
        match into_err(status) {
            Ok(_) => Ok(mapped),
            Err(e) => Err((e, mapped)),
        }
    }

    /// The parameters of the picture in a mapped group that started `elapsed_ms` milliseconds ago. A
    /// signal asks for a key frame once.
    pub fn get_enc_picparams(&mut self, item: &NvMappedResource<H>, elapsed_ms: u64) -> (r:
        PicParams)
        requires
            item.item.item is Some,
        ensures
            r == (PicParams {
                encode_pic_flags: pic_flags(old(self).signal),
                input_buffer: item.mapped_res,
                input_time_stamp: elapsed_ms,
                output_bitstream: item.item.item->0.buffer.buffer_ptr,
                completion_event: item.item.item->0.event.event,
                ..old(self).pic_params
            }),
            *final(self) == (NvExecutor { signal: 0, pic_params: r, ..*old(self) }),
            picture_made(*old(self), *item, elapsed_ms, r, *final(self)),
    {
        if self.signal != 0 {
            self.pic_params.encode_pic_flags = PicFlags { output_spspps: true, force_idr: true };
            self.signal = 0;
        } else {
            self.pic_params.encode_pic_flags = PicFlags { output_spspps: false, force_idr: false };
        }
        self.pic_params.input_buffer = item.mapped_res;
        self.pic_params.input_time_stamp = elapsed_ms;
        self.pic_params.output_bitstream = item.get_bitstream_buffer().buffer_ptr();
        self.pic_params.completion_event = item.get_event().handle();
        self.pic_params
    }

    /// Takes a signal. One that was not acted on yet is replaced.
    pub fn signal(&mut self, flags: u32) -> (r: Result<(), RhinoError>)
        ensures
            r is Ok,
            *final(self) == (NvExecutor { signal: flags, ..*old(self) }),
    {
        self.signal = flags;
        Ok(())
    }
}

/// The texture of a new item is of the kind that is described: it has the width, the height and the pixel
/// layout of the frames that are copied into it.
pub proof fn law_new_texture_is_of_the_kind(desc: TextureDesc)
    ensures
        texture_for(desc).width == desc.width,
        texture_for(desc).height == desc.height,
        texture_for(desc).format == format_code(desc.format),
        texture_for(desc).bind == Bind::RenderTarget,
        made_to(desc, texture_for(desc)),
{
}

/// A group with a texture that was made to the request of a pool is one that the pool keeps, for every
/// pixel layout that the graphics interface has.
pub proof fn law_new_item_is_kept<H>(pool: NvencPool<H>, item: NvQueueItem<H>)
    requires
        item.item is Some,
        made_to(item.item->0.resource.res.desc, texture_for(pool.desc())),
        format_code(pool.desc().format) != 0,
    ensures
        item.holds(pool.desc()),
{
    let made = item.item->0.resource.res.desc;
    if made.format != pool.desc().format {
        law_format_codes_differ(made.format, pool.desc().format);
    }
}

/// Taking another configuration changes the size and the frame rate alone: the codec, the preset, the
/// tuning, the pixel layout, the aspect ratio, the largest size and the switches stay those that the
/// encoder was opened with.
pub proof fn law_reconfiguring_keeps_the_rest(
    params: InitParams,
    resolution: Resolution,
    rate: FrameRate,
)
    ensures
        ({
            let new = resized_params(params, resolution, rate);
            &&& new.encode_width == resolution.width
            &&& new.encode_height == resolution.height
            &&& new.frame_rate_num == rate.whole
            &&& new.frame_rate_den == 1
            &&& new.encode_guid == params.encode_guid
            &&& new.preset_guid == params.preset_guid
            &&& new.tuning_info == params.tuning_info
            &&& new.buffer_format == params.buffer_format
            &&& new.dar_width == params.dar_width
            &&& new.dar_height == params.dar_height
            &&& new.max_encode_width == params.max_encode_width
            &&& new.max_encode_height == params.max_encode_height
            &&& new.enable_encode_async == params.enable_encode_async
            &&& new.enable_ptd == params.enable_ptd
            &&& new.report_slice_offsets == params.report_slice_offsets
            &&& new.enable_sub_frame_write == params.enable_sub_frame_write
            &&& new.enable_output_in_vidmem == params.enable_output_in_vidmem
        }),
{
}

/// An encoder that was opened for a configuration and takes any other one goes on with the codec, the
/// preset, the tuning and the pixel layout of the first.
pub proof fn law_codec_stays(
    first: NvencConfig,
    first_rate: FrameRate,
    conf: NvencConfig,
    rate: FrameRate,
)
    ensures
        ({
            let new = resized_params(InitParams::of(first, first_rate), conf.resolution, rate);
            &&& new.encode_guid == first.codec.driver_name()
            &&& new.preset_guid == first.preset.driver_name()
            &&& new.tuning_info == first.tuning_info.driver_name()
            &&& new.buffer_format == first.color.driver_name()
        }),
{
}

/// The pictures of a configuration have its size, its pixel layout and the time between two of its
/// frames, and no picture is a key frame by itself.
pub proof fn law_first_picture(config: NvencConfig, rate: FrameRate)
    ensures
        ({
            let pic = first_pic_params(config, rate);
            &&& pic.input_width == config.resolution.width
            &&& pic.input_height == config.resolution.height
            &&& pic.input_pitch == 0
            &&& pic.buffer_fmt == config.color.driver_name()
            &&& pic.input_duration == rate.period_ms
            &&& !pic.encode_pic_flags.force_idr
            &&& !pic.encode_pic_flags.output_spspps
            &&& pic.input_buffer == 0
            &&& pic.input_time_stamp == 0
            &&& pic.output_bitstream == 0
            &&& pic.completion_event == 0
        }),
{
}

/// A picture is a key frame with its parameter sets after any signal but zero, and a plain one after zero.
pub proof fn law_any_signal_asks_for_a_key_frame(signal: u32)
    ensures
        pic_flags(signal).force_idr <==> signal != 0,
        pic_flags(signal).output_spspps <==> signal != 0,
{
}

/// A running encoder that takes a configuration has the size, the frame rate and the bit rate of an
/// encoder that is opened with it, whatever it was opened with itself.
pub proof fn law_configured_as_opened(
    first: NvencConfig,
    first_rate: FrameRate,
    conf: NvencConfig,
    rate: FrameRate,
    reply: PresetReply,
)
    ensures
        ({
            let params = resized_params(InitParams::of(first, first_rate), conf.resolution, rate);
            let opened = InitParams::of(conf, rate);
            &&& params.encode_width == opened.encode_width
            &&& params.encode_height == opened.encode_height
            &&& params.frame_rate_num == opened.frame_rate_num
            &&& params.frame_rate_den == opened.frame_rate_den
        }),
        ({
            let rc = reply.tuned(first, first_rate).rc_params.with_bitrate(conf.bitrate, rate);
            let opened = reply.tuned(conf, rate).rc_params;
            &&& rc.average_bit_rate == opened.average_bit_rate
            &&& rc.vbv_buffer_size == opened.vbv_buffer_size
        }),
{
}

/// Taking a configuration a second time changes nothing.
pub proof fn law_configuring_settles(
    params: InitParams,
    rc: RcParams,
    conf: NvencConfig,
    rate: FrameRate,
)
    ensures
        ({
            let once = resized_params(params, conf.resolution, rate);
            resized_params(once, conf.resolution, rate) == once
        }),
        ({
            let once = rc.with_bitrate(conf.bitrate, rate);
            once.with_bitrate(conf.bitrate, rate) == once
        }),
{
}

/// A signal other than zero makes a key frame of the next picture, and of that one alone: the picture
/// leaves no signal behind, and without a signal there is no key frame.
pub proof fn law_key_frame_once<H>(before: NvExecutor<H>, after: NvExecutor<H>, pic: PicParams)
    requires
        pic.encode_pic_flags == pic_flags(before.signal),
        after == (NvExecutor { signal: 0, pic_params: pic, ..before }),
    ensures
        before.signal != 0 <==> pic.encode_pic_flags.force_idr,
        pic.encode_pic_flags.force_idr == pic.encode_pic_flags.output_spspps,
        !pic_flags(after.signal).force_idr && !pic_flags(after.signal).output_spspps,
{
}

/// Of two pictures that are made one after the other without a signal between them the second is no key
/// frame. The first is one if and only if there was a signal before it.
pub proof fn law_key_frames_do_not_repeat<H>(
    before: NvExecutor<H>,
    item: NvMappedResource<H>,
    elapsed_ms: u64,
    pic: PicParams,
    between: NvExecutor<H>,
    next_item: NvMappedResource<H>,
    next_elapsed_ms: u64,
    next_pic: PicParams,
    after: NvExecutor<H>,
)
    requires
        picture_made(before, item, elapsed_ms, pic, between),
        picture_made(between, next_item, next_elapsed_ms, next_pic, after),
    ensures
        before.signal != 0 <==> pic.encode_pic_flags.force_idr,
        pic.encode_pic_flags.force_idr == pic.encode_pic_flags.output_spspps,
        between.signal == 0,
        !next_pic.encode_pic_flags.force_idr && !next_pic.encode_pic_flags.output_spspps,
{
}

/// A picture is read from its group and written to the buffer of that group, whose event tells that it is
/// done. Its size, its pixel layout and its duration are those of the pictures before it. All else of
/// the encoder stays.
pub proof fn law_picture_is_of_its_group<H>(
    before: NvExecutor<H>,
    item: NvMappedResource<H>,
    elapsed_ms: u64,
    pic: PicParams,
    after: NvExecutor<H>,
)
    requires
        item.item.item is Some,
        picture_made(before, item, elapsed_ms, pic, after),
    ensures
        pic.input_buffer == item.mapped_res,
        pic.input_time_stamp == elapsed_ms,
        pic.output_bitstream == item.item.item->0.buffer.buffer_ptr,
        pic.completion_event == item.item.item->0.event.event,
        pic.input_width == before.pic_params.input_width,
        pic.input_height == before.pic_params.input_height,
        pic.input_pitch == before.pic_params.input_pitch,
        pic.buffer_fmt == before.pic_params.buffer_fmt,
        pic.input_duration == before.pic_params.input_duration,
        after.pic_params == pic,
        after.preset == before.preset,
        after.init_params == before.init_params,
        after.config == before.config,
        after.pool == before.pool,
{
}

/// The encoder is changed for a frame if and only if its width, its height or its pixel layout is not that
/// of the frames before it. The change is to the size of the frame, with a key frame, and to nothing that
/// the frame does not tell; the items of the old kind come out.
pub proof fn law_frame_of_another_kind<H>(
    before: NvExecutor<H>,
    desc: TextureDesc,
    rate: FrameRate,
    step: FrameStep<H>,
    after: NvExecutor<H>,
)
    requires
        frame_taken(before, desc, rate, step, after),
    ensures
        step.reconfigure is Some <==> desc.width != before.pool.desc().width || desc.height
            != before.pool.desc().height || desc.format != before.pool.desc().format,
        after.pool.desc() == desc,
        step.released@.len() + after.pool.available().len() == before.pool.available().len(),
        after.config.bitrate == before.config.bitrate,
        after.config.codec == before.config.codec,
        after.config.color == before.config.color,
        after.config.preset == before.config.preset,
        after.signal == before.signal,
        after.pic_params == before.pic_params,
        step.reconfigure matches Some(request) ==> {
            &&& request.force_idr == 1
            &&& request.init_params == after.init_params
            &&& request.preset == after.preset
            &&& request.init_params.encode_width == desc.width
            &&& request.init_params.encode_height == desc.height
            &&& request.init_params.frame_rate_num == rate.whole
            &&& request.init_params.encode_guid == before.init_params.encode_guid
            &&& request.init_params.buffer_format == before.init_params.buffer_format
            &&& request.preset.codec == before.preset.codec
            &&& request.preset.chroma_format_idc == before.preset.chroma_format_idc
            &&& after.config.resolution.width == desc.width
            &&& after.config.resolution.height == desc.height
            &&& after.pool.available().len() == 0
            &&& step.released@ == before.pool.available()
        },
        step.reconfigure is None ==> after == before,
{
}

/// A second frame of a kind needs nothing: the encoder stays as the first one left it.
pub proof fn law_frames_of_one_kind<H>(
    before: NvExecutor<H>,
    desc: TextureDesc,
    rate: FrameRate,
    first: FrameStep<H>,
    between: NvExecutor<H>,
    second: FrameStep<H>,
    after: NvExecutor<H>,
)
    requires
        frame_taken(before, desc, rate, first, between),
        frame_taken(between, desc, rate, second, after),
    ensures
        second.reconfigure is None,
        second.released@.len() == 0,
        after == between,
{
}

} // verus!
