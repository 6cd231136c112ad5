//! The parameters that the driver of the encoder takes.
use vstd::prelude::*;
use crate::errors::{fails_with, into_err, status_error, RhinoResult};
use crate::processor::nvenc::config::NvencConfig;
use crate::processor::nvenc::types::{
    AdaptiveQuantization, BufferFormat, Guid, MultiPassMode, NvencCodec, NvencColor, Profile,
    Tuning,
};
use crate::rate::FrameRate;

verus! {

/// How the encoder spends bits.
#[derive(Clone, Copy, Debug, PartialEq, Eq)]
pub struct RcParams {
    pub zero_reorder_delay: u32,
    pub average_bit_rate: u32,
    pub vbv_buffer_size: u32,
    pub multi_pass: MultiPassMode,
    pub enable_aq: u32,
    pub enable_temporal_aq: u32,
}

/// The distance of two key frames.
#[derive(Clone, Copy, Debug, PartialEq, Eq)]
pub enum GopLength {
    Infinite,
}

/// How colors are to be shown.
#[derive(Clone, Copy, Debug, PartialEq, Eq)]
pub struct VideoSignal {
    pub video_signal_type_present_flag: u32,
    pub video_format: u32,
    pub video_full_range_flag: u32,
    pub colour_description_present_flag: u32,
    pub colour_primaries: u32,
    pub transfer_characteristics: u32,
    pub colour_matrix: u32,
}

/// The settings of the H.264 encoder.
#[derive(Clone, Copy, Debug, PartialEq, Eq)]
pub struct H264Config {
    pub level: u32,
    pub vui: VideoSignal,
    pub bitstream_restriction_flag: u32,
    /// The first reserved words behind the video signal.
    pub vui_reserved: (u32, u32, u32, u32, u32, u32, u32),
    pub enable_filler_data_insertion: u32,
    pub output_buffering_period_sei: u32,
    pub output_picture_timing_sei: u32,
    pub output_aud: u32,
    pub output_frame_packing_sei: u32,
    pub output_recovery_point_sei: u32,
    pub enable_scalability_info_sei: u32,
    pub disable_svc_prefix_nalu: u32,
    pub enable_intra_refresh: u32,
    pub intra_refresh_cnt: u32,
    pub intra_refresh_period: u32,
}

/// The settings of the HEVC encoder.
#[derive(Clone, Copy, Debug, PartialEq, Eq)]
pub struct HevcConfig {
    pub level: u32,
    pub vui: VideoSignal,
    pub enable_alpha_layer_encoding: u32,
    pub enable_filler_data_insertion: u32,
    pub output_buffering_period_sei: u32,
    pub output_picture_timing_sei: u32,
    pub output_aud: u32,
    pub enable_intra_refresh: u32,
    pub intra_refresh_cnt: u32,
    pub intra_refresh_period: u32,
}

/// The settings of the codec that is used.
#[derive(Clone, Copy, Debug, PartialEq, Eq)]
pub enum CodecConfig {
    H264(H264Config),
    Hevc(HevcConfig),
}

/// What the driver filled into a preset, as far as the stream keeps any of it.
#[derive(Clone, Copy, Debug, PartialEq, Eq)]
pub struct PresetReply {
    pub rc_params: RcParams,
    /// The level in the settings of the codec that is used.
    pub level: u32,
}

/// What the stream writes into a preset. The driver keeps the settings of both codecs in one place:
/// those of the codec that is used are written first, and over them the chroma format, as a setting of
/// HEVC and then as one of H.264.
#[derive(Clone, Copy, Debug, PartialEq, Eq)]
pub struct PresetConfig {
    pub rc_params: RcParams,
    pub gop_length: GopLength,
    pub codec: CodecConfig,
    pub chroma_format_idc: u32,
}

/// What a preset is asked for with.
#[derive(Clone, Copy, Debug, PartialEq, Eq, Structural)]
pub struct PresetRequest {
    pub profile_guid: Guid,
    pub encode_guid: Guid,
    pub preset_guid: Guid,
    pub tuning_info: Tuning,
}

/// What an encoder is started with.
#[derive(Clone, Copy, Debug, PartialEq, Eq, Structural)]
pub struct InitParams {
    pub preset_guid: Guid,
    pub encode_guid: Guid,
    pub tuning_info: Tuning,
    pub encode_width: u32,
    pub encode_height: u32,
    pub max_encode_width: u32,
    pub max_encode_height: u32,
    pub frame_rate_num: u32,
    pub frame_rate_den: u32,
    pub buffer_format: BufferFormat,
    pub dar_width: u32,
    pub dar_height: u32,
    pub enable_encode_async: u32,
    pub enable_ptd: u32,
    pub report_slice_offsets: u32,
    pub enable_sub_frame_write: u32,
    pub enable_output_in_vidmem: u32,
}

/// The profile of a stream. Colors that are not subsampled need one that allows them, whatever profile
/// is asked for.
pub open spec fn profile_guid(color: NvencColor, codec: NvencCodec, profile: Profile) -> Guid {
    if color == NvencColor::YUV444 || color == NvencColor::AYUV {
        match codec {
            NvencCodec::H264 => Guid::H264ProfileHigh444,
            NvencCodec::HEVC => Guid::HevcProfileFrext,
        }
    } else if profile == Profile::Auto {
        Guid::ProfileAutoselect
    } else {
        match codec {
            NvencCodec::HEVC => Guid::HevcProfileMain,
            NvencCodec::H264 => match profile {
                Profile::Constrained => Guid::H264ProfileConstrainedHigh,
                Profile::Baseline => Guid::H264ProfileBaseline,
                Profile::Main => Guid::H264ProfileMain,
                _ => Guid::H264ProfileHigh,
            },
        }
    }
}

/// The profile of a stream.
pub fn get_profile_guid(color: NvencColor, codec: NvencCodec, profile: Profile) -> (r: Guid)
    ensures
        r == profile_guid(color, codec, profile),
{
    if color == NvencColor::YUV444 || color == NvencColor::AYUV {
        return match codec {
            NvencCodec::H264 => Guid::H264ProfileHigh444,
            NvencCodec::HEVC => Guid::HevcProfileFrext,
        };
    }
    match codec {
        NvencCodec::H264 => match profile {
            Profile::Auto => Guid::ProfileAutoselect,
            Profile::Constrained => Guid::H264ProfileConstrainedHigh,
            Profile::Baseline => Guid::H264ProfileBaseline,
            Profile::Main => Guid::H264ProfileMain,
            Profile::High => Guid::H264ProfileHigh,
        },
        NvencCodec::HEVC => match profile {
            Profile::Auto => Guid::ProfileAutoselect,
            _ => Guid::HevcProfileMain,
        },
    }
}

/// How large the buffer of the rate control is, in percent of the bits of a frame.
pub const VBV_BUFFER_PERCENT: u64 = 120;

/// The number of bits in `buffer_percent` percent of a frame, with `centi_framerate` frames in a
/// hundred seconds.
pub fn get_vbv_buffer_size(buffer_percent: u64, bitrate: u64, centi_framerate: u64) -> (r: u64)
    requires
        bitrate * buffer_percent <= u64::MAX,
        centi_framerate > 0,
    ensures
        r == (bitrate * buffer_percent) / (centi_framerate as int),
{
    bitrate * buffer_percent / centi_framerate
}

/// The size of the rate control buffer can be computed: a frame lasts some time, and the number of
/// bits is in range.
pub open spec fn has_buffer_size(bitrate: u64, rate: FrameRate) -> bool {
    rate.centi > 0 && bitrate * VBV_BUFFER_PERCENT <= u64::MAX
}

/// The size of the rate control buffer.
pub open spec fn buffer_size(bitrate: u64, rate: FrameRate) -> int {
    (bitrate * VBV_BUFFER_PERCENT) / (rate.centi as int)
}

/// The rate control buffer holds as many bits as fit into its share of a frame, and no more: at `centi`
/// frames in a hundred seconds, `bitrate * 100 / centi` bits are a frame.
pub proof fn law_buffer_holds_its_share(bitrate: u64, rate: FrameRate)
    requires
        rate.centi > 0,
    ensures
        buffer_size(bitrate, rate) * rate.centi <= bitrate * VBV_BUFFER_PERCENT,
        bitrate * VBV_BUFFER_PERCENT < (buffer_size(bitrate, rate) + 1) * rate.centi,
        VBV_BUFFER_PERCENT == 120,
        has_buffer_size(bitrate, rate) <==> bitrate * 120 <= u64::MAX,
{
    let bits = bitrate * VBV_BUFFER_PERCENT;
    let centi = rate.centi as int;
    let size = bits / centi;
    assert(size * centi <= bits < (size + 1) * centi) by (nonlinear_arith)
        requires
            centi > 0,
            size == bits / centi,
    ;
}

/// Colors that are not subsampled get their profile whatever profile is asked for, and it is one that no
/// other colors get.
pub proof fn law_full_chroma_profile(
    color: NvencColor,
    codec: NvencCodec,
    asked: Profile,
    other: NvencColor,
    profile: Profile,
)
    requires
        color == NvencColor::YUV444 || color == NvencColor::AYUV,
        profile_guid(other, codec, profile) == profile_guid(color, codec, asked),
    ensures
        other == NvencColor::YUV444 || other == NvencColor::AYUV,
{
}

/// Each codec has its own profiles: a stream of H.264 never gets one of HEVC, nor the other way round. The
/// profile that is asked for is the one that is told, as far as the codec has it.
pub proof fn law_profile_is_the_one_asked_for(color: NvencColor, codec: NvencCodec, asked: Profile)
    ensures
        ({
            let guid = profile_guid(color, codec, asked);
            let full = color == NvencColor::YUV444 || color == NvencColor::AYUV;
            let h264 = codec == NvencCodec::H264 && !full;
            &&& guid == Guid::H264ProfileHigh444 <==> full && codec == NvencCodec::H264
            &&& guid == Guid::HevcProfileFrext <==> full && codec == NvencCodec::HEVC
            &&& guid == Guid::ProfileAutoselect <==> !full && asked == Profile::Auto
            &&& guid == Guid::H264ProfileConstrainedHigh <==> h264 && asked == Profile::Constrained
            &&& guid == Guid::H264ProfileBaseline <==> h264 && asked == Profile::Baseline
            &&& guid == Guid::H264ProfileMain <==> h264 && asked == Profile::Main
            &&& guid == Guid::H264ProfileHigh <==> h264 && asked == Profile::High
            &&& guid == Guid::HevcProfileMain <==> !full && codec == NvencCodec::HEVC && asked
                != Profile::Auto
        }),
{
}

/// The driver is told that the chroma is not subsampled for `YUV444` and for no other colors: least of
/// all for those that are subsampled by their layout.
pub proof fn law_chroma_format(color: NvencColor)
    ensures
        chroma_format(color) == 3 <==> color == NvencColor::YUV444,
        chroma_format(color) == 1 <==> color != NvencColor::YUV444,
        color == NvencColor::NV12 || color == NvencColor::YUV420 || color
            == NvencColor::YUV420_10bit ==> chroma_format(color) == 1,
{
}

/// The driver takes a number that fits into 32 bits as it is, and of a larger one the rest of dividing
/// it by their range.
pub proof fn law_low_word(n: int)
    requires
        n >= 0,
    ensures
        n <= u32::MAX ==> low_word(n) == n,
        (n - low_word(n)) % 0x1_0000_0000 == 0,
{
}

/// Another bit rate changes the average and the buffer, each to its own value, and nothing else of the
/// rate control.
pub proof fn law_bitrate_changes_two_fields(rc: RcParams, bitrate: u64, rate: FrameRate)
    requires
        rate.centi > 0,
    ensures
        ({
            let new = rc.with_bitrate(bitrate, rate);
            &&& bitrate <= u32::MAX ==> new.average_bit_rate == bitrate
            &&& (bitrate - new.average_bit_rate) % 0x1_0000_0000 == 0
            &&& bitrate * 120 / (rate.centi as int) <= u32::MAX ==> new.vbv_buffer_size == bitrate
                * 120 / (rate.centi as int)
            &&& (bitrate * 120 / (rate.centi as int) - new.vbv_buffer_size) % 0x1_0000_0000 == 0
            &&& new.zero_reorder_delay == rc.zero_reorder_delay
            &&& new.multi_pass == rc.multi_pass
            &&& new.enable_aq == rc.enable_aq
            &&& new.enable_temporal_aq == rc.enable_temporal_aq
        }),
{
    let bits = bitrate * 120;
    let centi = rate.centi as int;
    assert(bits / centi >= 0) by (nonlinear_arith)
        requires
            bits >= 0,
            centi > 0,
    ;
    law_low_word(bitrate as int);
    law_low_word(bits / centi);
}

/// The rate control of a stream: no delay, the bit rate and the passes that are asked for, and the kind of
/// adaptive quantization that is asked for switched on. The other kind stays as the driver has it.
pub proof fn law_rate_control(rc: RcParams, conf: NvencConfig, rate: FrameRate)
    ensures
        ({
            let new = rc.tuned(conf, rate);
            &&& new.zero_reorder_delay == 1
            &&& new.average_bit_rate == rc.with_bitrate(conf.bitrate, rate).average_bit_rate
            &&& new.vbv_buffer_size == rc.with_bitrate(conf.bitrate, rate).vbv_buffer_size
            &&& new.multi_pass == conf.multi_pass.driver_name()
            &&& new.enable_aq == if conf.aq == AdaptiveQuantization::Spacial {
                1
            } else {
                rc.enable_aq
            }
            &&& new.enable_temporal_aq == if conf.aq == AdaptiveQuantization::Temporal {
                1
            } else {
                rc.enable_temporal_aq
            }
        }),
{
}

/// The settings of the codec do not depend on the level but for the level itself: the pictures are
/// refreshed bit by bit in ten steps every five hundred frames, no messages are written beside them, and
/// the colors are those of BT.709 in limited range.
pub proof fn law_codec_settings(codec: NvencCodec, level: u32)
    ensures
        match CodecConfig::of(codec, level) {
            CodecConfig::H264(c) => {
                &&& codec == NvencCodec::H264
                &&& c.level == level
                &&& c.vui == bt709()
                &&& c.enable_intra_refresh == 1
                &&& c.intra_refresh_cnt == 10
                &&& c.intra_refresh_period == 500
                &&& c.bitstream_restriction_flag == 1
                &&& c.disable_svc_prefix_nalu == 1
                &&& c.vui_reserved == (1u32, 0u32, 0u32, 11u32, 11u32, 0u32, 1u32)
                &&& c.output_aud == 0
                &&& c.output_buffering_period_sei == 0
                &&& c.output_picture_timing_sei == 0
                &&& c.output_frame_packing_sei == 0
                &&& c.output_recovery_point_sei == 0
                &&& c.enable_scalability_info_sei == 0
                &&& c.enable_filler_data_insertion == 0
            },
            CodecConfig::Hevc(c) => {
                &&& codec == NvencCodec::HEVC
                &&& c.level == level
                &&& c.vui == bt709()
                &&& c.enable_intra_refresh == 1
                &&& c.intra_refresh_cnt == 10
                &&& c.intra_refresh_period == 500
                &&& c.enable_alpha_layer_encoding == 0
                &&& c.output_aud == 0
                &&& c.output_buffering_period_sei == 0
                &&& c.output_picture_timing_sei == 0
                &&& c.enable_filler_data_insertion == 0
            },
        },
        bt709().video_format == 5,
        bt709().video_full_range_flag == 0,
        bt709().video_signal_type_present_flag == 1,
        bt709().colour_description_present_flag == 1,
        bt709().colour_primaries == 1,
        bt709().transfer_characteristics == 1,
        bt709().colour_matrix == 1,
{
}

/// The preset of a stream has the codec, the colors and the level that are asked for, and the driver's
/// level where none is. Key frames come on request alone.
pub proof fn law_preset_is_the_one_asked_for(reply: PresetReply, conf: NvencConfig, rate: FrameRate)
    ensures
        ({
            let preset = reply.tuned(conf, rate);
            let level = match preset.codec {
                CodecConfig::H264(c) => c.level,
                CodecConfig::Hevc(c) => c.level,
            };
            &&& preset.codec is H264 <==> conf.codec == NvencCodec::H264
            &&& preset.codec is Hevc <==> conf.codec == NvencCodec::HEVC
            &&& conf.level matches Some(n) ==> level == n
            &&& conf.level is None ==> level == reply.level
            &&& preset.codec == CodecConfig::of(conf.codec, level)
            &&& preset.chroma_format_idc == 3 <==> conf.color == NvencColor::YUV444
            &&& preset.chroma_format_idc == 1 <==> conf.color != NvencColor::YUV444
            &&& preset.gop_length == GopLength::Infinite
            &&& preset.rc_params == reply.rc_params.tuned(conf, rate)
        }),
{
}

/// The driver is asked for the preset, the codec, the tuning and the profile of the configuration.
pub proof fn law_preset_request(conf: NvencConfig)
    ensures
        PresetRequest::of(conf).preset_guid == conf.preset.driver_name(),
        PresetRequest::of(conf).encode_guid == conf.codec.driver_name(),
        PresetRequest::of(conf).tuning_info == conf.tuning_info.driver_name(),
        PresetRequest::of(conf).profile_guid == profile_guid(conf.color, conf.codec, conf.profile),
{
}

/// An encoder is started with the size of its configuration, which is its aspect ratio too, with its rate,
/// and with the names of its settings.
pub proof fn law_starting_parameters(conf: NvencConfig, rate: FrameRate)
    ensures
        ({
            let params = InitParams::of(conf, rate);
            &&& params.encode_width == conf.resolution.width
            &&& params.encode_height == conf.resolution.height
            &&& params.dar_width == params.encode_width
            &&& params.dar_height == params.encode_height
            &&& params.max_encode_width == 3840
            &&& params.max_encode_height == 3840
            &&& params.frame_rate_num == rate.whole
            &&& params.frame_rate_den == 1
            &&& params.preset_guid == conf.preset.driver_name()
            &&& params.encode_guid == conf.codec.driver_name()
            &&& params.tuning_info == conf.tuning_info.driver_name()
            &&& params.buffer_format == conf.color.driver_name()
            &&& params.enable_encode_async == 1
            &&& params.enable_ptd == 1
            &&& params.report_slice_offsets == 1
            &&& params.enable_sub_frame_write == 0
            &&& params.enable_output_in_vidmem == 0
        }),
{
}

/// The low 32 bits of a number.
pub open spec fn low_word(n: int) -> u32 {
    (n % 0x1_0000_0000) as u32
}

fn low_word_of(n: u64) -> (r: u32)
    ensures
        r == low_word(n as int),
{
    assert(n as u32 == n % 0x1_0000_0000u64) by (bit_vector);
    #[verifier::truncate]
    (n as u32)
}

impl RcParams {
    /// The rate control with another bit rate, of which the driver takes the low word.
    pub open spec fn with_bitrate(self, bitrate: u64, rate: FrameRate) -> RcParams {
        RcParams {
            average_bit_rate: low_word(bitrate as int),
            vbv_buffer_size: low_word(buffer_size(bitrate, rate)),
            ..self
        }
    }

    /// Sets the bit rate.
    pub fn set_bitrate(&mut self, bitrate: u64, rate: FrameRate)
        requires
            has_buffer_size(bitrate, rate),
        ensures
            *final(self) == old(self).with_bitrate(bitrate, rate),
    {
        self.average_bit_rate = low_word_of(bitrate);
        self.vbv_buffer_size = low_word_of(
            get_vbv_buffer_size(VBV_BUFFER_PERCENT, bitrate, rate.centi),
        );
    }

    /// The rate control for a configuration, made of that of a preset. The kind of adaptive
    /// quantization that is asked for is switched on; nothing is switched off.
    pub open spec fn tuned(self, conf: NvencConfig, rate: FrameRate) -> RcParams {
        let rc = RcParams {
            zero_reorder_delay: 1,
            multi_pass: conf.multi_pass.driver_name(),
            ..self.with_bitrate(conf.bitrate, rate)
        };
        match conf.aq {
            AdaptiveQuantization::Spacial => RcParams { enable_aq: 1, ..rc },
            AdaptiveQuantization::Temporal => RcParams { enable_temporal_aq: 1, ..rc },
            AdaptiveQuantization::Disabled => rc,
        }
    }

    fn tune(&mut self, conf: &NvencConfig, rate: FrameRate)
        requires
            has_buffer_size(conf.bitrate, rate),
        ensures
            *final(self) == old(self).tuned(*conf, rate),
    {
        self.zero_reorder_delay = 1;
        self.set_bitrate(conf.bitrate, rate);
        self.multi_pass = conf.multi_pass.into();
        match conf.aq {
            AdaptiveQuantization::Spacial => {
                self.enable_aq = 1;
            },
            AdaptiveQuantization::Temporal => {
                self.enable_temporal_aq = 1;
            },
            AdaptiveQuantization::Disabled => {},
        }
    }
}

/// Unspecified video format, limited range, and the colors of BT.709.
pub open spec fn bt709() -> VideoSignal {
    VideoSignal {
        video_signal_type_present_flag: 1,
        video_format: 5,
        video_full_range_flag: 0,
        colour_description_present_flag: 1,
        colour_primaries: 1,
        transfer_characteristics: 1,
        colour_matrix: 1,
    }
}

fn write_bt709() -> (r: VideoSignal)
    ensures
        r == bt709(),
{
    VideoSignal {
        video_signal_type_present_flag: 1,
        video_format: 5,
        video_full_range_flag: 0,
        colour_description_present_flag: 1,
        colour_primaries: 1,
        transfer_characteristics: 1,
        colour_matrix: 1,
    }
}

impl H264Config {
    /// The H.264 settings for a stream of a level: no messages beside the pictures, and pictures that are
    /// refreshed bit by bit.
    pub open spec fn of(level: u32) -> H264Config {
        H264Config {
            level,
            vui: bt709(),
            bitstream_restriction_flag: 1,
            vui_reserved: (1, 0, 0, 11, 11, 0, 1),
            enable_filler_data_insertion: 0,
            output_buffering_period_sei: 0,
            output_picture_timing_sei: 0,
            output_aud: 0,
            output_frame_packing_sei: 0,
            output_recovery_point_sei: 0,
            enable_scalability_info_sei: 0,
            disable_svc_prefix_nalu: 1,
            enable_intra_refresh: 1,
            intra_refresh_cnt: 10,
            intra_refresh_period: 500,
        }
    }

    fn new(level: u32) -> (r: H264Config)
        ensures
            r == H264Config::of(level),
    {
        H264Config {
            level,
            vui: write_bt709(),
            bitstream_restriction_flag: 1,
            vui_reserved: (1, 0, 0, 11, 11, 0, 1),
            enable_filler_data_insertion: 0,
            output_buffering_period_sei: 0,
            output_picture_timing_sei: 0,
            output_aud: 0,
            output_frame_packing_sei: 0,
            output_recovery_point_sei: 0,
            enable_scalability_info_sei: 0,
            disable_svc_prefix_nalu: 1,
            enable_intra_refresh: 1,
            intra_refresh_cnt: 10,
            intra_refresh_period: 500,
        }
    }
}

impl HevcConfig {
    /// The HEVC settings for a stream of a level: no messages beside the pictures, and pictures that are
    /// refreshed bit by bit.
    pub open spec fn of(level: u32) -> HevcConfig {
        HevcConfig {
            level,
            vui: bt709(),
            enable_alpha_layer_encoding: 0,
            enable_filler_data_insertion: 0,
            output_buffering_period_sei: 0,
            output_picture_timing_sei: 0,
            output_aud: 0,
            enable_intra_refresh: 1,
            intra_refresh_cnt: 10,
            intra_refresh_period: 500,
        }
    }

    fn new(level: u32) -> (r: HevcConfig)
        ensures
            r == HevcConfig::of(level),
    {
        HevcConfig {
            level,
            vui: write_bt709(),
            enable_alpha_layer_encoding: 0,
            enable_filler_data_insertion: 0,
            output_buffering_period_sei: 0,
            output_picture_timing_sei: 0,
            output_aud: 0,
            enable_intra_refresh: 1,
            intra_refresh_cnt: 10,
            intra_refresh_period: 500,
        }
    }
}

/// The chroma format that the encoder is told: not subsampled, or subsampled in both directions.
pub open spec fn chroma_format(color: NvencColor) -> u32 {
    if color == NvencColor::YUV444 {
        3
    } else {
        1
    }
}

impl CodecConfig {
    /// The settings of a codec for a stream of a level.
    pub open spec fn of(codec: NvencCodec, level: u32) -> CodecConfig {
        match codec {
            NvencCodec::H264 => CodecConfig::H264(H264Config::of(level)),
            NvencCodec::HEVC => CodecConfig::Hevc(HevcConfig::of(level)),
        }
    }
}

impl PresetReply {
    /// The preset for a configuration, made of what the driver filled in. The level is the one that is
    /// asked for, or the driver's where none is.
    pub open spec fn tuned(self, conf: NvencConfig, rate: FrameRate) -> PresetConfig {
        let level = match conf.level {
            Some(n) => n,
            None => self.level,
        };
        PresetConfig {
            rc_params: self.rc_params.tuned(conf, rate),
            gop_length: GopLength::Infinite,
            codec: CodecConfig::of(conf.codec, level),
            chroma_format_idc: chroma_format(conf.color),
        }
    }
}

impl PresetRequest {
    /// The request for the preset of a configuration.
    pub open spec fn of(conf: NvencConfig) -> PresetRequest {
        PresetRequest {
            profile_guid: profile_guid(conf.color, conf.codec, conf.profile),
            encode_guid: conf.codec.driver_name(),
            preset_guid: conf.preset.driver_name(),
            tuning_info: conf.tuning_info.driver_name(),
        }
    }

    /// The request for the preset of a configuration.
    pub fn new(nv_conf: &NvencConfig) -> (r: PresetRequest)
        ensures
            r == PresetRequest::of(*nv_conf),
    {
        PresetRequest {
            profile_guid: get_profile_guid(nv_conf.color, nv_conf.codec, nv_conf.profile),
            encode_guid: nv_conf.codec.into(),
            preset_guid: nv_conf.preset.into(),
            tuning_info: nv_conf.tuning_info.into(),
        }
    }
}

/// The preset for a configuration, made of what the driver replied to the request.
pub fn get_nvenc_preset_conf(
    nv_conf: &NvencConfig,
    rate: FrameRate,
    status: i32,
    reply: PresetReply,
) -> (r: RhinoResult<PresetConfig>)
    requires
        status == 0 ==> has_buffer_size(nv_conf.bitrate, rate),
    ensures
        status == 0 ==> r is Ok && r->Ok_0 == reply.tuned(*nv_conf, rate),
        status == 0 ==> (r->Ok_0.chroma_format_idc == 3 <==> nv_conf.color == NvencColor::YUV444),
        status == 0 ==> (r->Ok_0.codec is H264 <==> nv_conf.codec == NvencCodec::H264),
        status != 0 ==> fails_with(r, status_error(status)),
{
    match into_err(status) {
        Ok(_) => {},
        Err(e) => {
            return Err(e);
        },
    }
    let mut rc_params = reply.rc_params;
    rc_params.tune(nv_conf, rate);
    let level: u32 = match nv_conf.level {
        Some(n) => n,
        None => reply.level,
    };
    let codec = match nv_conf.codec {
        NvencCodec::H264 => CodecConfig::H264(H264Config::new(level)),
        NvencCodec::HEVC => CodecConfig::Hevc(HevcConfig::new(level)),
    };
    let chroma_format_idc: u32 = if nv_conf.color == NvencColor::YUV444 {
        3
    } else {
        1
    };
    Ok(PresetConfig { rc_params, gop_length: GopLength::Infinite, codec, chroma_format_idc })
}

impl InitParams {
    /// What an encoder for a configuration is started with.
    pub open spec fn of(conf: NvencConfig, rate: FrameRate) -> InitParams {
        InitParams {
            preset_guid: conf.preset.driver_name(),
            encode_guid: conf.codec.driver_name(),
            tuning_info: conf.tuning_info.driver_name(),
            encode_width: conf.resolution.width,
            encode_height: conf.resolution.height,
            max_encode_width: 3840,
            max_encode_height: 3840,
            frame_rate_num: rate.whole,
            frame_rate_den: 1,
            buffer_format: conf.color.driver_name(),
            dar_width: conf.resolution.width,
            dar_height: conf.resolution.height,
            enable_encode_async: 1,
            enable_ptd: 1,
            report_slice_offsets: 1,
            enable_sub_frame_write: 0,
            enable_output_in_vidmem: 0,
        }
    }
}

/// What an encoder for a configuration is started with.
pub fn get_init_params(nv_conf: &NvencConfig, rate: FrameRate) -> (r: InitParams)
    ensures
        r == InitParams::of(*nv_conf, rate),
{
    InitParams {
        preset_guid: nv_conf.preset.into(),
        encode_guid: nv_conf.codec.into(),
        tuning_info: nv_conf.tuning_info.into(),
        encode_width: nv_conf.resolution.width,
        encode_height: nv_conf.resolution.height,
        max_encode_width: 3840,
        max_encode_height: 3840,
        frame_rate_num: rate.whole,
        frame_rate_den: 1,
        buffer_format: nv_conf.color.into(),
        dar_width: nv_conf.resolution.width,
        dar_height: nv_conf.resolution.height,
        enable_encode_async: 1,
        enable_ptd: 1,
        report_slice_offsets: 1,
        enable_sub_frame_write: 0,
        enable_output_in_vidmem: 0,
    }
}

} // verus!
