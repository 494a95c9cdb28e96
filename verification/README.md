# wilupgu

A small GPU compute-graph and tensor library over two interchangeable backends:
Vulkan, through `wgpu`, and CUDA, through `cudarc`. Model code is written against
`Tensor`, `ShaderDef` and `ComputeGraph` and runs on either.

## Layout

- `src/` is the library: everything that it decides, verified with Verus.
  - `context`: which backend a context stands for, and when a submission waits
    for the device.
  - `tensor`: what creating, writing, reading and freeing a tensor asks of its
    backend.
  - `cache`: what has been compiled already, by name.
  - `graph`: shaders and their layouts, the steps of adding a node, what a graph
    dispatches and how the device is polled after it.
  - `graph::fuse`: several graphs as one.
  - `graph::kernels`: the CUDA operations, and for each kernel a table row of what
    it needs and is given.
  - `graph::cuda_exec`: the steps of running a CUDA graph.
  - `graph::gemm`, `graph::laws`: what holds of the cuBLAS calls and of graphs as
    a whole.
  - `bytes`, `text`: the words in raw bytes, comparing names, writing numbers.
- `app/` reaches the devices: it opens them, carries out what the library asks
  for, and hands the replies back. The CUDA C source of each kernel is given to
  it when a CUDA device is opened; WGSL sources come with each `ShaderDef`.
- `tests/` runs the library with plain values in place of device objects.

The library never looks inside a device object. It is generic over a `Backend`,
which names their types, and returns requests: a buffer to create, a pipeline to
compile, a slice to read back, a kernel to launch.

One function is trusted: `bytemuck::cast_slice`, which groups the bytes of a meta
tensor by four.
