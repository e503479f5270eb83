//! Bridge between an immediate-mode GUI and a host engine's render loop.
//!
//! The crate models the per-frame synchronization between a GUI library's
//! layout/tessellation lifecycle and a single-threaded GPU command
//! submission loop: event translation, texture diffing, paint-job command
//! planning, and an embedded-render registry for drawing a 3D scene inside
//! a GUI panel. GPU handles are represented by plain identifiers; the host
//! executes the planned commands against the real device.

pub mod commands;
pub mod embedded;
pub mod error;
pub mod events;
pub mod lifecycle;
pub mod paint;
pub mod registry;
pub mod table;
pub mod textures;

pub use commands::{DrawCommand, Rect, ScreenDescriptor};
pub use embedded::{EmbeddedRender, ObjectBuffers, UiSurface};
pub use error::BridgeError;
pub use events::{GuiEvent, HostEvent, PlatformState, RawInput};
pub use lifecycle::{FrameOutput, FrameSubmission, PlatformOutput, EGUI};
pub use paint::{GuiRenderer, JobKind, PaintJob, Shape};
pub use registry::{Registry, TriangleRenderResources};
pub use textures::{Image, ImageDelta, TextureStore};
