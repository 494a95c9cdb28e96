//! The device handles that the library carries without looking inside them.
use vstd::prelude::*;

verus! {

/// The types of the device objects that a graph, a tensor or a cache holds.
///
/// The library stores these handles, shares them through `Arc` and hands them
/// back in its requests. It never reads one, so the trait has no methods.
pub trait Backend {
    /// An opened wgpu device with its queue and what is shared between the
    /// graphs that use it.
    type WgpuDevice;

    /// An opened CUDA device with its stream and its cuBLAS handle.
    type CudaContext;

    /// A wgpu storage buffer.
    type Buffer;

    /// A wgpu bind group layout.
    type BindGroupLayout;

    /// A compiled wgpu compute pipeline.
    type ComputePipeline;

    /// A wgpu bind group.
    type BindGroup;

    /// A CUDA device slice, behind whatever lock guards it.
    type CudaSlice;

    /// A compiled CUDA kernel function.
    type CudaFunction;
}

} // verus!
