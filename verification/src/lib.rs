//! A minimal OpenGL ES binding layer: dynamic symbol resolution, a two-phase
//! display/surface bootstrap, and reference-counted GPU object handles with
//! rebind-avoidance caching.
//!
//! The library is the decision core of the binding.  Every native call it
//! decides to issue is recorded as a [`call::GlCall`] value in the context's
//! call log; a thin platform layer outside this crate drains the log, performs
//! the raw foreign calls, and reports the few results (handles, statuses,
//! locations) back in as plain values.  All bookkeeping — which object is
//! currently bound per category, how many handles share an object, when the
//! one deletion call for an object is issued, and in which order the bootstrap
//! steps may run — is verified here.

pub mod buffer;
pub mod builder;
pub mod call;
pub mod context;
pub mod counts;
pub mod error;
pub mod loader;
pub mod model;
pub mod program;
pub mod texture;
pub mod types;
pub mod uniform_data;
pub mod vertex_data;

pub use buffer::Buffer;
pub use builder::OpenGLBuilder;
pub use builder::Phase;
pub use context::DisplayState;
pub use context::OpenGL;
pub use error::ApiFault;
pub use error::Error;
pub use program::Program;
pub use program::Shader;
pub use texture::Texture;
pub use types::PixelFormatDescriptor;
pub use uniform_data::UniformData;
pub use vertex_data::VertexData;
