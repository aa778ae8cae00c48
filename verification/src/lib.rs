//! Resource and render-pass bookkeeping for a GPU rendering engine.
//!
//! The library owns the lifetime of buffers, textures and render targets and
//! decides which device commands a pass consists of. It never talks to a
//! device itself: every operation appends [`context::Command`]s to a
//! [`context::Context`], and the caller hands them to the graphics device.
//!
//! - [`context`]: the recorded commands, the names of device resources and
//!   the active render target.
//! - [`buffer`] and [`vertex_buffer`]: buffers of per-vertex data.
//! - [`mip`] and [`texture`]: array textures and their mip chains.
//! - [`render_target`]: passes into layers of an array texture, which leave
//!   the render target that was active before them active again.
//! - [`effect`] and [`fog`]: screen-space effects, which fail fast on a name
//!   of their shader that has no value.
//! - [`io`] and [`gltf`]: loaded files, and the meshes and materials of a
//!   glTF model.

pub mod buffer;
pub mod consts;
pub mod context;
pub mod effect;
pub mod error;
pub mod fog;
pub mod gltf;
pub mod io;
pub mod mip;
pub mod render_target;
pub mod state;
pub mod texture;
pub mod vertex_buffer;
