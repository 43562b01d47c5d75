//! Control of a video capture device as a single-owner state machine.
//!
//! The library holds the decisions: which wire tag names which pixel format,
//! what a capability discovery yields, when a configuration is accepted, how
//! the lifecycle moves between idle, configured and streaming, and how frames
//! are numbered. The device driver itself is called by the surrounding
//! program, which hands each driver outcome to the state machine and publishes
//! the event it returns.
use vstd::prelude::*;

pub mod actor;
pub mod capability;
pub mod devices;
pub mod format;

pub use actor::{
    CameraActor, CameraCommand, CameraError, CameraEvent, CameraState, CaptureConfig,
    DriverConfig, RawFrame,
};
pub use capability::{CameraCapabilities, FormatCapability, RawFormat};
pub use devices::discover_cameras;
pub use format::{Frame, PixelFormat, Resolution};
