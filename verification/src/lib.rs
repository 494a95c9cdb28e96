//! A GPU compute-graph and tensor library over two interchangeable backends,
//! wgpu (Vulkan) and CUDA.
//!
//! Everything that the library decides stands here as verified code: which
//! bindings a shader accepts, when a pipeline or a kernel is compiled, what a
//! recorded graph dispatches and in which order, how a kernel launch or a
//! matrix multiplication is laid out, when a submission waits for the device.
//! The device itself is reached by the code around the library, which carries
//! out the requests that these functions return and hands the replies back.

pub mod backend;
pub mod bytes;
pub mod cache;
pub mod context;
pub mod graph;
pub mod tensor;
pub mod text;
