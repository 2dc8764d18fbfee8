//! Core of a small explicit-GPU renderer that draws one rotating cube.
//!
//! The verified modules cover what the renderer decides on its own: the cube
//! mesh, the byte layout used to stage it for the device, the order in which
//! GPU objects are released, the sequence of GPU commands from startup through
//! the frames to teardown, the per-frame camera and rotation state, and the
//! construction of error values from the platform's error text. The caller
//! performs the platform calls and reports back.

pub mod driver;
pub mod error;
pub mod frame;
pub mod lifecycle;
pub mod mesh;
pub mod upload;

pub use driver::{Driver, DriverPhase, GpuCommand, Outcome};
pub use error::{SdlError, SdlFunctionResult, SdlResult};
pub use frame::{advance_rotation, FrameState, InputEvent};
pub use lifecycle::{DeviceResource, Release, ResourceLedger};
pub use mesh::{add_and_get_index, append_quad, append_triangle, create_cube, Vertex};
pub use upload::{encode_indices, plan_upload, stage, UploadLayout, UploadRegion};
