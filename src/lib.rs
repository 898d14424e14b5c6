//! A small 2D rendering core: mesh topology for primitive shapes, an
//! immediate-mode draw recorder, decoded images, and the per-frame plan that
//! maps recorded draws onto an instanced uniform buffer and a texture cache.
//!
//! Everything here is generic over the numeric payloads (vertices, matrices,
//! transforms and colors), which the library stores and orders but never
//! computes with.

pub mod mesh;

pub use mesh::{Mesh, MeshBuilder2D};
pub mod images;

pub use images::{Image, ImageLoadError};
pub mod canvas;

pub use canvas::{Canvas, CameraMatrix, DrawCommand, DrawStyle, FixedCamera};
pub mod frame;

pub use frame::{DrawStep, FramePlanner, TextureBinding, TextureCache, MAX_INSTANCES};
pub mod pipeline;

pub use pipeline::{PipelineBuilder, PipelineError, PipelineStages, PrimitiveTopology};
