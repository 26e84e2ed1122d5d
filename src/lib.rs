//! Lifetime management of graphics-driver objects and per-frame UI draw planning.
//!
//! Every driver object lives in a generational [`HandleRegistry`]; cross-object
//! references are handles, never pointers. The driver calls themselves are made by the
//! embedding application; this crate decides what to create, what to keep and what to draw.

pub mod device;
pub mod error;
pub mod instance;
pub mod registry;
pub mod scissor;
pub mod semaphore;
pub mod surface;
pub mod ui_draw;

pub use device::{
    Device, MemoryHeap, MemoryType, PhysicalDevice, PhysicalDeviceProperties, QueueFamily, Version,
    API_VERSION_1_0, API_VERSION_1_2,
};
pub use error::{require_parent, Error};
pub use instance::{contains_name, instance_request, keep_enabled, negotiate_version, Instance, InstanceRequest};
pub use registry::{Handle, HandleRegistry, Slot};
pub use scissor::{scissor_for, ClipRect, Scissor, Size, SUBPIXELS};
pub use semaphore::Semaphore;
pub use surface::{Surface, SurfaceFormat};
pub use ui_draw::{
    expand_atlas_pixels, DrawCommand, FramePlan, MeshInfo, TextureId, UiDrawSystem,
    UiDrawSystemCreationError,
};
