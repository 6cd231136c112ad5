//! Encoding with the NVIDIA encoder.
pub mod config;
pub mod encoder;
pub mod executor;
pub mod params;
pub mod pool;
pub mod types;

pub use crate::processor::nvenc::config::NvencConfig;
pub use crate::processor::nvenc::encoder::NvEnc;
pub use crate::processor::nvenc::pool::{
    NvAsyncEvent, NvBitstreamBuffer, NvMappedResource, NvQueueItem, NvRegisteredResource,
    NvResEventGroup, NvencPool,
};
pub use crate::processor::nvenc::types::{
    AdaptiveQuantization, MultiPass, NvencCodec, NvencColor, Preset, Profile, TuningInfo,
};
