//! Geometry, validation, kernel-source assembly and readback logic for a
//! GPU undistortion pipeline. The GPU calls themselves live with the caller;
//! this crate decides what they are handed and what comes back.

pub mod audio;
pub mod geometry;
pub mod pipeline;
pub mod readback;
pub mod registry;
pub mod shader;

pub use audio::relative_timestamp;
pub use geometry::{
    geometry_is_valid, is_buffer_supported, overlay_enabled, BufferDescription, BufferSource,
    KernelParams,
};
pub use pipeline::{FrameCommands, FrameError, WgpuWrapper};
pub use readback::{destripe, padded_stride};
pub use registry::{AdapterInfo, AdapterRegistry, DeviceType};
pub use shader::assemble_kernel;
