//! Resolution of a shader pair's declared resource bindings against named
//! resources, yielding a pipeline layout and a bind group description.

pub mod binding;
pub mod material;
pub mod resources;
pub mod sampler;
pub mod shader;
