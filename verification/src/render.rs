//! What a renderer has to remember about the objects it made on the GPU.
//!
//! Nothing here talks to a graphics API. The types take the handles that the
//! API gave out, keep the bookkeeping that goes with them, and hand back what
//! the next API call has to be given.

pub mod buffer;
pub mod debug;
pub mod downsize;
pub mod frame;
pub mod gl;
pub mod model;
pub mod render_context;
pub mod shader;
pub mod transform;
