//! Compute graphs: ordered shader dispatches over shared tensors.
use std::sync::Arc;
use vstd::prelude::*;

use crate::backend::Backend;
use crate::bytes::{cut_to_tensor, tensor_bytes};
use crate::cache::PipelineCache;
use crate::context::{maintain_after, next_count, Maintain, SubmitCounter, WgpuContext};
use crate::tensor::{Tensor, TensorStorage};
use crate::text::{decimal, joined, push_decimal};

pub mod building;
pub mod cuda_exec;
pub mod fuse;
pub mod gemm;
pub mod kernels;
pub mod launches;
pub mod laws;

pub use fuse::fuse_compute_graphs;

verus! {

/// How a shader uses a tensor that is bound to it.
#[derive(Debug, Clone, Copy, PartialEq, Eq, Structural)]
pub enum TensorMode {
    /// Read only.
    Input,
    /// Write only.
    Output,
    /// Read and written.
    InOut,
    /// Read only: shapes and other settings.
    Meta,
}

impl TensorMode {
    /// The mode's name.
    pub open spec fn name_spec(self) -> &'static str {
        match self {
            TensorMode::Input => "Input",
            TensorMode::Output => "Output",
            TensorMode::InOut => "InOut",
            TensorMode::Meta => "Meta",
        }
    }

    /// Whether a binding of this mode is read only.
    pub open spec fn read_only_spec(self) -> bool {
        self == TensorMode::Input || self == TensorMode::Meta
    }

    /// The mode's name.
    pub fn name(self) -> (r: &'static str)
        ensures
            r == self.name_spec(),
    {
        match self {
            TensorMode::Input => "Input",
            TensorMode::Output => "Output",
            TensorMode::InOut => "InOut",
            TensorMode::Meta => "Meta",
        }
    }

    /// Whether a binding of this mode is read only.
    pub fn read_only(self) -> (r: bool)
        ensures
            r == self.read_only_spec(),
    {
        match self {
            TensorMode::Input | TensorMode::Meta => true,
            TensorMode::Output | TensorMode::InOut => false,
        }
    }
}

/// A named operation with its source and the mode of each binding slot.
pub struct ShaderDef {
    pub name: String,
    pub source: String,
    pub expected_layout: Vec<TensorMode>,
}

impl ShaderDef {
    /// A shader of this name, source and layout.
    pub fn new(name: &str, source: &str, expected_layout: Vec<TensorMode>) -> (r: Self)
        ensures
            r.name@ == name@,
            r.source@ == source@,
            r.expected_layout == expected_layout,
    {
        ShaderDef { name: name.to_owned(), source: source.to_owned(), expected_layout }
    }
}

/// A tensor bound to a slot of a shader.
pub struct TensorBind<'a, B: Backend> {
    pub binding: u32,
    pub tensor: &'a Tensor<B>,
    pub mode: TensorMode,
}

/// A binding of a node that runs on CUDA.
pub struct CudaNodeBinding<B: Backend> {
    pub binding: u32,
    pub slice: Arc<B::CudaSlice>,
    pub mode: TensorMode,
    /// The size of the bound tensor in bytes.
    pub size: u64,
    /// The tensor's bytes as they were when the node was added. Held for the
    /// bindings of mode `Meta` only.
    pub cached_meta: Option<Vec<u8>>,
}

/// A dispatch of a graph.
pub enum ComputeNode<B: Backend> {
    Wgpu {
        name: String,
        pipeline: Arc<B::ComputePipeline>,
        bind_group: Arc<B::BindGroup>,
        workgroups: [u32; 3],
    },
    Cuda { name: String, bindings: Vec<CudaNodeBinding<B>>, workgroups: [u32; 3] },
}

/// What a CUDA binding holds.
pub struct BindingView<B: Backend> {
    pub binding: u32,
    pub slice: Arc<B::CudaSlice>,
    pub mode: TensorMode,
    pub size: u64,
    pub cached_meta: Option<Seq<u8>>,
}

/// What a node holds.
pub enum NodeView<B: Backend> {
    Wgpu {
        name: Seq<char>,
        pipeline: Arc<B::ComputePipeline>,
        bind_group: Arc<B::BindGroup>,
        workgroups: [u32; 3],
    },
    Cuda { name: Seq<char>, bindings: Seq<BindingView<B>>, workgroups: [u32; 3] },
}

impl<B: Backend> View for CudaNodeBinding<B> {
    type V = BindingView<B>;

    open spec fn view(&self) -> BindingView<B> {
        BindingView {
            binding: self.binding,
            slice: self.slice,
            mode: self.mode,
            size: self.size,
            cached_meta: match self.cached_meta {
                Some(bytes) => Some(bytes@),
                None => None,
            },
        }
    }
}

/// What a list of CUDA bindings holds.
pub open spec fn bindings_view<B: Backend>(bindings: Seq<CudaNodeBinding<B>>) -> Seq<
    BindingView<B>,
> {
    Seq::new(bindings.len(), |i: int| bindings[i]@)
}

impl<B: Backend> View for ComputeNode<B> {
    type V = NodeView<B>;

    open spec fn view(&self) -> NodeView<B> {
        match self {
            ComputeNode::Wgpu { name, pipeline, bind_group, workgroups } => NodeView::Wgpu {
                name: name@,
                pipeline: *pipeline,
                bind_group: *bind_group,
                workgroups: *workgroups,
            },
            ComputeNode::Cuda { name, bindings, workgroups } => NodeView::Cuda {
                name: name@,
                bindings: bindings_view(bindings@),
                workgroups: *workgroups,
            },
        }
    }
}

/// What a list of nodes holds.
pub open spec fn nodes_view<B: Backend>(nodes: Seq<ComputeNode<B>>) -> Seq<NodeView<B>> {
    Seq::new(nodes.len(), |i: int| nodes[i]@)
}

/// A `Meta` binding has its tensor's bytes at hand, no more than the tensor
/// holds, and no other binding has any.
pub open spec fn binding_wf<B: Backend>(b: BindingView<B>) -> bool {
    match b.cached_meta {
        Some(bytes) => b.mode == TensorMode::Meta && bytes.len() <= b.size,
        None => b.mode != TensorMode::Meta,
    }
}

/// All bindings of the node are well formed.
pub open spec fn node_wf<B: Backend>(node: NodeView<B>) -> bool {
    match node {
        NodeView::Wgpu { .. } => true,
        NodeView::Cuda { bindings, .. } => forall|i: int|
            0 <= i < bindings.len() ==> binding_wf(#[trigger] bindings[i]),
    }
}

/// Dispatches in the order in which they were added.
pub struct ComputeGraph<B: Backend> {
    ctx: Arc<WgpuContext<B>>,
    nodes: Vec<ComputeNode<B>>,
}

/// What a graph holds.
pub struct GraphView<B: Backend> {
    pub ctx: WgpuContext<B>,
    pub nodes: Seq<NodeView<B>>,
}

impl<B: Backend> View for ComputeGraph<B> {
    type V = GraphView<B>;

    closed spec fn view(&self) -> GraphView<B> {
        GraphView { ctx: *self.ctx, nodes: nodes_view(self.nodes@) }
    }
}

/// Why a node cannot be added.
#[derive(Debug, Clone, Copy, PartialEq, Eq, Structural)]
pub enum NodeError {
    /// The shader has another number of slots than tensors were bound.
    BindingCount { expected: usize, provided: usize },
    /// The shader has no slot of this index.
    BindingIndex { slots: usize, binding: u32 },
    /// The slot has another mode than the tensor was bound with.
    ModeMismatch { binding: u32, slot_mode: TensorMode, bound_mode: TensorMode },
    /// A tensor held by wgpu was bound in a CUDA graph.
    WgpuTensorInCudaGraph,
    /// A tensor held by CUDA was bound in a wgpu graph.
    CudaTensorInWgpuGraph,
}

impl NodeError {
    /// The text that reports the error for the shader of this name.
    pub open spec fn message_spec(self, shader: Seq<char>) -> Seq<char> {
        match self {
            NodeError::BindingCount { expected, provided } => {
                "[ERROR] Shader Binding Mismatch: Shader '"@ + shader + "' expects "@ + decimal(
                    expected as nat,
                ) + " tensors, but "@ + decimal(provided as nat) + " were provided."@
            },
            NodeError::BindingIndex { slots, binding } => {
                "index out of bounds: the len is "@ + decimal(slots as nat) + " but the index is "@
                    + decimal(binding as nat)
            },
            NodeError::ModeMismatch { binding, slot_mode, bound_mode } => {
                "[ERROR] Tensor Mode Mismatch: In shader '"@ + shader + "', binding "@ + decimal(
                    binding as nat,
                ) + " expects "@ + slot_mode.name_spec()@ + ", but "@ + bound_mode.name_spec()@
                    + " was provided."@
            },
            NodeError::WgpuTensorInCudaGraph => {
                "[wilupgu] CUDA graph received a wgpu-backed tensor"@
            },
            NodeError::CudaTensorInWgpuGraph => {
                "[wilupgu] wgpu graph received a CUDA-backed tensor"@
            },
        }
    }

    /// The text that reports the error for the shader of this name.
    pub fn message(self, shader: &str) -> (r: String)
        ensures
            r@ == self.message_spec(shader@),
    {
        match self {
            NodeError::BindingCount { expected, provided } => {
                let mut s: String = joined("[ERROR] Shader Binding Mismatch: Shader '", shader);
                s.append("' expects ");
                push_decimal(&mut s, expected as u64);
                s.append(" tensors, but ");
                push_decimal(&mut s, provided as u64);
                s.append(" were provided.");
                s
            },
            NodeError::BindingIndex { slots, binding } => {
                let mut s: String = "index out of bounds: the len is ".to_owned();
                push_decimal(&mut s, slots as u64);
                s.append(" but the index is ");
                push_decimal(&mut s, binding as u64);
                s
            },
            NodeError::ModeMismatch { binding, slot_mode, bound_mode } => {
                let mut s: String = joined("[ERROR] Tensor Mode Mismatch: In shader '", shader);
                s.append("', binding ");
                push_decimal(&mut s, binding as u64);
                s.append(" expects ");
                s.append(slot_mode.name());
                s.append(", but ");
                s.append(bound_mode.name());
                s.append(" was provided.");
                s
            },
            NodeError::WgpuTensorInCudaGraph => {
                "[wilupgu] CUDA graph received a wgpu-backed tensor".to_owned()
            },
            NodeError::CudaTensorInWgpuGraph => {
                "[wilupgu] wgpu graph received a CUDA-backed tensor".to_owned()
            },
        }
    }
}

/// What is wrong with binding a tensor in this mode to this slot.
pub open spec fn bind_fault(layout: Seq<TensorMode>, binding: u32, mode: TensorMode) -> Option<
    NodeError,
> {
    if binding >= layout.len() {
        Some(NodeError::BindingIndex { slots: layout.len() as usize, binding })
    } else if mode != layout[binding as int] {
        Some(
            NodeError::ModeMismatch { binding, slot_mode: layout[binding as int], bound_mode: mode },
        )
    } else {
        None
    }
}

/// What is wrong with the first of the bindings with which anything is wrong.
pub open spec fn first_bind_fault<'a, B: Backend>(
    layout: Seq<TensorMode>,
    bindings: Seq<TensorBind<'a, B>>,
) -> Option<NodeError>
    decreases bindings.len(),
{
    if bindings.len() == 0 {
        None
    } else {
        match first_bind_fault(layout, bindings.drop_last()) {
            Some(e) => Some(e),
            None => bind_fault(layout, bindings.last().binding, bindings.last().mode),
        }
    }
}

/// What is wrong with these bindings for a shader of this layout.
pub open spec fn layout_fault<'a, B: Backend>(
    layout: Seq<TensorMode>,
    bindings: Seq<TensorBind<'a, B>>,
) -> Option<NodeError> {
    if bindings.len() != layout.len() {
        Some(
            NodeError::BindingCount {
                expected: layout.len() as usize,
                provided: bindings.len() as usize,
            },
        )
    } else {
        first_bind_fault(layout, bindings)
    }
}

impl ShaderDef {
    /// Whether these bindings fit the shader: as many as it has slots, each at
    /// one of them and in its mode. The first that does not fit is reported.
    pub fn check<'a, B: Backend>(&self, bindings: &[TensorBind<'a, B>]) -> (r: Result<
        (),
        NodeError,
    >)
        ensures
            r == (match layout_fault(self.expected_layout@, bindings@) {
                Some(e) => Err::<(), NodeError>(e),
                None => Ok::<(), NodeError>(()),
            }),
    {
        let slots: usize = self.expected_layout.len();
        if bindings.len() != slots {
            return Err(NodeError::BindingCount { expected: slots, provided: bindings.len() });
        }
        let mut i: usize = 0;
        while i < bindings.len()
            invariant
                i <= bindings@.len(),
                slots == self.expected_layout@.len(),
                bindings@.len() == slots,
                first_bind_fault(self.expected_layout@, bindings@.take(i as int)) is None,
            decreases bindings@.len() - i,
        {
            let bind: &TensorBind<'a, B> = &bindings[i];
            proof {
                lemma_first_fault_stays(self.expected_layout@, bindings@, i as int + 1);
                assert(bindings@.take(i as int + 1).drop_last() =~= bindings@.take(i as int));
                assert(bindings@.take(i as int + 1).last() == bindings@[i as int]);
            }
            if bind.binding as usize >= slots {
                return Err(NodeError::BindingIndex { slots, binding: bind.binding });
            }
            let slot_mode: TensorMode = self.expected_layout[bind.binding as usize];
            if bind.mode != slot_mode {
                return Err(
                    NodeError::ModeMismatch {
                        binding: bind.binding,
                        slot_mode,
                        bound_mode: bind.mode,
                    },
                );
            }
            i += 1;
        }
        assert(bindings@.take(i as int) =~= bindings@);
        Ok(())
    }
}

/// A fault found among the first bindings is the first fault of all of them.
proof fn lemma_first_fault_stays<'a, B: Backend>(
    layout: Seq<TensorMode>,
    bindings: Seq<TensorBind<'a, B>>,
    n: int,
)
    requires
        0 <= n <= bindings.len(),
    ensures
        first_bind_fault(layout, bindings.take(n)) matches Some(e) ==> first_bind_fault(
            layout,
            bindings,
        ) == Some(e),
    decreases bindings.len(),
{
    if n == bindings.len() {
        assert(bindings.take(n) =~= bindings);
    } else {
        lemma_first_fault_stays(layout, bindings.drop_last(), n);
        assert(bindings.drop_last().take(n) =~= bindings.take(n));
    }
}

/// The tensors do not count: bindings at the same slots and in the same modes
/// are accepted or refused alike, whichever backend holds what they bind.
pub proof fn law_backends_accept_the_same<'a, 'b, B: Backend>(
    layout: Seq<TensorMode>,
    first: Seq<TensorBind<'a, B>>,
    second: Seq<TensorBind<'b, B>>,
)
    requires
        first.len() == second.len(),
        forall|i: int|
            0 <= i < first.len() ==> (#[trigger] first[i]).binding == second[i].binding
                && first[i].mode == second[i].mode,
    ensures
        layout_fault(layout, first) == layout_fault(layout, second),
{
    lemma_same_faults(layout, first, second);
}

proof fn lemma_same_faults<'a, 'b, B: Backend>(
    layout: Seq<TensorMode>,
    first: Seq<TensorBind<'a, B>>,
    second: Seq<TensorBind<'b, B>>,
)
    requires
        first.len() == second.len(),
        forall|i: int|
            0 <= i < first.len() ==> (#[trigger] first[i]).binding == second[i].binding
                && first[i].mode == second[i].mode,
    ensures
        first_bind_fault(layout, first) == first_bind_fault(layout, second),
    decreases first.len(),
{
    if first.len() > 0 {
        assert forall|i: int| 0 <= i < first.drop_last().len() implies (
        #[trigger] first.drop_last()[i]).binding == second.drop_last()[i].binding
            && first.drop_last()[i].mode == second.drop_last()[i].mode by {
            assert(first.drop_last()[i] == first[i]);
            assert(second.drop_last()[i] == second[i]);
        }
        lemma_same_faults(layout, first.drop_last(), second.drop_last());
        assert(first.last() == first[first.len() - 1]);
        assert(second.last() == second[second.len() - 1]);
    }
}

/// Bindings fit a shader exactly if there are as many as it has slots and each
/// is at one of them, in its mode.
pub proof fn law_fitting_bindings<'a, B: Backend>(
    layout: Seq<TensorMode>,
    bindings: Seq<TensorBind<'a, B>>,
)
    ensures
        layout_fault(layout, bindings) is None <==> {
            &&& bindings.len() == layout.len()
            &&& forall|i: int|
                0 <= i < bindings.len() ==> (#[trigger] bindings[i]).binding < layout.len()
                    && layout[bindings[i].binding as int] == bindings[i].mode
        },
{
    lemma_no_fault(layout, bindings);
}

proof fn lemma_no_fault<'a, B: Backend>(
    layout: Seq<TensorMode>,
    bindings: Seq<TensorBind<'a, B>>,
)
    ensures
        first_bind_fault(layout, bindings) is None <==> forall|i: int|
            0 <= i < bindings.len() ==> (#[trigger] bindings[i]).binding < layout.len()
                && layout[bindings[i].binding as int] == bindings[i].mode,
    decreases bindings.len(),
{
    if bindings.len() > 0 {
        let rest = bindings.drop_last();
        lemma_no_fault(layout, rest);
        assert(forall|i: int| 0 <= i < rest.len() ==> rest[i] == bindings[i]);
        assert(bindings.last() == bindings[bindings.len() - 1]);
        assert forall|i: int| 0 <= i < bindings.len() implies i < rest.len() || bindings[i]
            == bindings.last() by {}
    }
}

/// A slot of a bind group layout: a storage buffer seen by the compute stage.
#[derive(Debug, Clone, Copy, PartialEq, Eq, Structural)]
pub struct LayoutEntry {
    pub binding: u32,
    pub read_only: bool,
}

/// A shader to be compiled: the module, the layout of its bind group and the
/// pipeline over both.
pub struct PipelineRequest {
    pub shader_label: String,
    /// WGSL.
    pub source: String,
    pub layout_label: String,
    pub entries: Vec<LayoutEntry>,
    pub pipeline_layout_label: String,
    pub pipeline_label: String,
    pub entry_point: &'static str,
}

/// What a request for a pipeline holds.
pub struct PipelineRequestView {
    pub shader_label: Seq<char>,
    pub source: Seq<char>,
    pub layout_label: Seq<char>,
    pub entries: Seq<LayoutEntry>,
    pub pipeline_layout_label: Seq<char>,
    pub pipeline_label: Seq<char>,
    pub entry_point: &'static str,
}

impl View for PipelineRequest {
    type V = PipelineRequestView;

    open spec fn view(&self) -> PipelineRequestView {
        PipelineRequestView {
            shader_label: self.shader_label@,
            source: self.source@,
            layout_label: self.layout_label@,
            entries: self.entries@,
            pipeline_layout_label: self.pipeline_layout_label@,
            pipeline_label: self.pipeline_label@,
            entry_point: self.entry_point,
        }
    }
}

/// A buffer bound to a slot.
pub struct BindEntry<B: Backend> {
    pub binding: u32,
    pub buffer: Arc<B::Buffer>,
}

/// A bind group to be created. Each buffer is bound whole.
pub struct BindGroupRequest<B: Backend> {
    pub label: String,
    pub entries: Vec<BindEntry<B>>,
}

/// The slots of a shader's bind group: one per mode of its layout, in order.
pub open spec fn layout_entries(layout: Seq<TensorMode>) -> Seq<LayoutEntry> {
    Seq::new(
        layout.len(),
        |i: int| LayoutEntry { binding: i as u32, read_only: layout[i].read_only_spec() },
    )
}

impl ShaderDef {
    /// What compiling the shader takes.
    pub open spec fn pipeline_request_spec(self) -> PipelineRequestView {
        PipelineRequestView {
            shader_label: self.name@ + "_Shader"@,
            source: self.source@,
            layout_label: self.name@ + "_Layout"@,
            entries: layout_entries(self.expected_layout@),
            pipeline_layout_label: self.name@ + "_PipelineLayout"@,
            pipeline_label: self.name@ + "_Pipeline"@,
            entry_point: "main",
        }
    }

    /// What compiling the shader takes.
    pub fn pipeline_request(&self) -> (r: PipelineRequest)
        ensures
            r@ == self.pipeline_request_spec(),
    {
        let mut entries: Vec<LayoutEntry> = Vec::new();
        let mut i: usize = 0;
        while i < self.expected_layout.len()
            invariant
                i <= self.expected_layout@.len(),
                entries@ == layout_entries(self.expected_layout@.take(i as int)),
            decreases self.expected_layout@.len() - i,
        {
            let mode: TensorMode = self.expected_layout[i];
            entries.push(LayoutEntry { binding: i as u32, read_only: mode.read_only() });
            i += 1;
            assert(entries@ =~= layout_entries(self.expected_layout@.take(i as int)));
        }
        assert(self.expected_layout@.take(i as int) =~= self.expected_layout@);
        PipelineRequest {
            shader_label: joined(self.name.as_str(), "_Shader"),
            source: self.source.clone(),
            layout_label: joined(self.name.as_str(), "_Layout"),
            entries,
            pipeline_layout_label: joined(self.name.as_str(), "_PipelineLayout"),
            pipeline_label: joined(self.name.as_str(), "_Pipeline"),
            entry_point: "main",
        }
    }
}

/// Whether all the bound tensors are held by wgpu.
pub open spec fn all_wgpu<'a, B: Backend>(bindings: Seq<TensorBind<'a, B>>) -> bool {
    forall|i: int| 0 <= i < bindings.len() ==> (#[trigger] bindings[i]).tensor.storage is Wgpu
}

/// Whether all the bound tensors are held by CUDA.
pub open spec fn all_cuda<'a, B: Backend>(bindings: Seq<TensorBind<'a, B>>) -> bool {
    forall|i: int| 0 <= i < bindings.len() ==> (#[trigger] bindings[i]).tensor.storage is Cuda
}

/// The buffers of tensors held by wgpu, each at its slot.
pub open spec fn bind_entries<'a, B: Backend>(bindings: Seq<TensorBind<'a, B>>) -> Seq<
    BindEntry<B>,
> {
    Seq::new(
        bindings.len(),
        |i: int|
            BindEntry {
                binding: bindings[i].binding,
                buffer: bindings[i].tensor.storage->Wgpu_0,
            },
    )
}

/// For each binding of tensors held by CUDA, the slice to read back if its
/// mode is `Meta`.
pub open spec fn meta_slices<'a, B: Backend>(bindings: Seq<TensorBind<'a, B>>) -> Seq<
    Option<Arc<B::CudaSlice>>,
> {
    Seq::new(
        bindings.len(),
        |i: int|
            if bindings[i].mode == TensorMode::Meta {
                Some(bindings[i].tensor.storage->Cuda_0)
            } else {
                None
            },
    )
}

/// The bindings of a CUDA node, given the bytes that the bound slices held.
pub open spec fn cuda_bindings<'a, B: Backend>(
    bindings: Seq<TensorBind<'a, B>>,
    readbacks: Seq<Vec<u8>>,
) -> Seq<BindingView<B>> {
    Seq::new(
        bindings.len(),
        |i: int|
            BindingView {
                binding: bindings[i].binding,
                slice: bindings[i].tensor.storage->Cuda_0,
                mode: bindings[i].mode,
                size: bindings[i].tensor.size,
                cached_meta: if bindings[i].mode == TensorMode::Meta {
                    Some(tensor_bytes(readbacks[i]@, bindings[i].tensor.size))
                } else {
                    None
                },
            },
    )
}

/// The buffers of the bound tensors, or `None` where one is held by CUDA.
fn collect_buffers<'a, B: Backend>(bindings: &[TensorBind<'a, B>]) -> (r: Option<
    Vec<BindEntry<B>>,
>)
    ensures
        match r {
            Some(entries) => all_wgpu(bindings@) && entries@ == bind_entries(bindings@),
            None => !all_wgpu(bindings@),
        },
{
    let mut entries: Vec<BindEntry<B>> = Vec::new();
    let mut i: usize = 0;
    while i < bindings.len()
        invariant
            i <= bindings@.len(),
            all_wgpu(bindings@.take(i as int)),
            entries@ == bind_entries(bindings@.take(i as int)),
        decreases bindings@.len() - i,
    {
        let bind: &TensorBind<'a, B> = &bindings[i];
        match &bind.tensor.storage {
            TensorStorage::Wgpu(buffer) => {
                entries.push(BindEntry { binding: bind.binding, buffer: buffer.clone() });
            },
            TensorStorage::Cuda(_) => {
                assert(bindings@[i as int].tensor.storage is Cuda);
                return None;
            },
        }
        i += 1;
        assert(entries@ =~= bind_entries(bindings@.take(i as int)));
    }
    assert(bindings@.take(i as int) =~= bindings@);
    Some(entries)
}

/// The slices to read back for the bound tensors, or `None` where one is held
/// by wgpu.
fn collect_meta_slices<'a, B: Backend>(bindings: &[TensorBind<'a, B>]) -> (r: Option<
    Vec<Option<Arc<B::CudaSlice>>>,
>)
    ensures
        match r {
            Some(slices) => all_cuda(bindings@) && slices@ == meta_slices(bindings@),
            None => !all_cuda(bindings@),
        },
{
    let mut slices: Vec<Option<Arc<B::CudaSlice>>> = Vec::new();
    let mut i: usize = 0;
    while i < bindings.len()
        invariant
            i <= bindings@.len(),
            all_cuda(bindings@.take(i as int)),
            slices@ == meta_slices(bindings@.take(i as int)),
        decreases bindings@.len() - i,
    {
        let bind: &TensorBind<'a, B> = &bindings[i];
        match &bind.tensor.storage {
            TensorStorage::Cuda(slice) => {
                if bind.mode == TensorMode::Meta {
                    slices.push(Some(slice.clone()));
                } else {
                    slices.push(None);
                }
            },
            TensorStorage::Wgpu(_) => {
                assert(bindings@[i as int].tensor.storage is Wgpu);
                return None;
            },
        }
        i += 1;
        assert(slices@ =~= meta_slices(bindings@.take(i as int)));
    }
    assert(bindings@.take(i as int) =~= bindings@);
    Some(slices)
}

/// The bindings of a CUDA node, or `None` where a tensor is held by wgpu.
fn collect_bindings<'a, B: Backend>(
    bindings: &[TensorBind<'a, B>],
    readbacks: &Vec<Vec<u8>>,
) -> (r: Option<Vec<CudaNodeBinding<B>>>)
    requires
        readbacks@.len() == bindings@.len(),
    ensures
        match r {
            Some(held) => all_cuda(bindings@) && bindings_view(held@) == cuda_bindings(
                bindings@,
                readbacks@,
            ),
            None => !all_cuda(bindings@),
        },
{
    let mut held: Vec<CudaNodeBinding<B>> = Vec::new();
    let mut i: usize = 0;
    while i < bindings.len()
        invariant
            i <= bindings@.len(),
            readbacks@.len() == bindings@.len(),
            all_cuda(bindings@.take(i as int)),
            bindings_view(held@) == cuda_bindings(bindings@.take(i as int), readbacks@),
        decreases bindings@.len() - i,
    {
        let ghost before = held@;
        let bind: &TensorBind<'a, B> = &bindings[i];
        match &bind.tensor.storage {
            TensorStorage::Cuda(slice) => {
                let cached_meta: Option<Vec<u8>> = if bind.mode == TensorMode::Meta {
                    Some(cut_to_tensor(readbacks[i].as_slice(), bind.tensor.size))
                } else {
                    None
                };
                held.push(
                    CudaNodeBinding {
                        binding: bind.binding,
                        slice: slice.clone(),
                        mode: bind.mode,
                        size: bind.tensor.size,
                        cached_meta,
                    },
                );
            },
            TensorStorage::Wgpu(_) => {
                assert(bindings@[i as int].tensor.storage is Wgpu);
                return None;
            },
        }
        i += 1;
        proof {
            let after = cuda_bindings(bindings@.take(i as int), readbacks@);
            assert(bindings_view(before).len() == i - 1);
            assert forall|j: int| 0 <= j < i implies bindings_view(held@)[j] == after[j] by {
                if j < i - 1 {
                    assert(held@[j] == before[j]);
                    assert(bindings_view(before)[j] == cuda_bindings(
                        bindings@.take(i as int - 1),
                        readbacks@,
                    )[j]);
                }
            }
            assert(bindings_view(held@) =~= after);
        }
    }
    assert(bindings@.take(i as int) =~= bindings@);
    Some(held)
}

/// What has happened since a node was asked for.
pub enum NodeEvent<B: Backend> {
    /// Nothing yet.
    Begin,
    /// The slices were read back: the bytes that each bound slice held, by
    /// binding. The bytes of bindings that were not to be read are ignored.
    Readback(Vec<Vec<u8>>),
    /// The shader was compiled.
    Compiled { layout: Arc<B::BindGroupLayout>, pipeline: Arc<B::ComputePipeline> },
    /// The bind group was created.
    Bound { pipeline: Arc<B::ComputePipeline>, bind_group: Arc<B::BindGroup> },
}

/// What is to be done next for a node that was asked for.
pub enum NodeAction<B: Backend> {
    /// Read back the slices that are given, by binding.
    ReadMeta(Vec<Option<Arc<B::CudaSlice>>>),
    /// Compile the shader.
    Compile(PipelineRequest),
    /// Create the bind group over this layout, for this pipeline.
    Bind {
        layout: Arc<B::BindGroupLayout>,
        pipeline: Arc<B::ComputePipeline>,
        request: BindGroupRequest<B>,
    },
    /// Nothing: the node was added.
    Added,
}

/// What an action holds.
pub enum NodeActionView<B: Backend> {
    ReadMeta(Seq<Option<Arc<B::CudaSlice>>>),
    Compile(PipelineRequestView),
    Bind {
        layout: Arc<B::BindGroupLayout>,
        pipeline: Arc<B::ComputePipeline>,
        label: Seq<char>,
        entries: Seq<BindEntry<B>>,
    },
    Added,
}

impl<B: Backend> View for NodeAction<B> {
    type V = NodeActionView<B>;

    open spec fn view(&self) -> NodeActionView<B> {
        match self {
            NodeAction::ReadMeta(slices) => NodeActionView::ReadMeta(slices@),
            NodeAction::Compile(request) => NodeActionView::Compile(request@),
            NodeAction::Bind { layout, pipeline, request } => NodeActionView::Bind {
                layout: *layout,
                pipeline: *pipeline,
                label: request.label@,
                entries: request.entries@,
            },
            NodeAction::Added => NodeActionView::Added,
        }
    }
}

/// The state that adding a node works on, and what it answers.
pub struct NodeStep<B: Backend> {
    pub nodes: Seq<NodeView<B>>,
    pub cache: Map<Seq<char>, (Arc<B::BindGroupLayout>, Arc<B::ComputePipeline>)>,
    pub answer: Result<NodeActionView<B>, NodeError>,
}

/// Creating the bind group of these bindings, where wgpu holds them all.
pub open spec fn bind_action<'a, B: Backend>(
    shader: ShaderDef,
    bindings: Seq<TensorBind<'a, B>>,
    compiled: (Arc<B::BindGroupLayout>, Arc<B::ComputePipeline>),
) -> Result<NodeActionView<B>, NodeError> {
    if all_wgpu(bindings) {
        Ok(
            NodeActionView::Bind {
                layout: compiled.0,
                pipeline: compiled.1,
                label: shader.name@ + "_BindGroup"@,
                entries: bind_entries(bindings),
            },
        )
    } else {
        Err(NodeError::CudaTensorInWgpuGraph)
    }
}

/// Whether an event can have come of what was asked for: a read-back has the
/// bytes of every binding, a shader is compiled only where nothing is kept under
/// its name, and a bind group is created only of tensors that wgpu holds, for
/// the pipeline that is kept under the shader's name.
pub open spec fn event_fits<'a, B: Backend>(
    cuda: bool,
    cache: Map<Seq<char>, (Arc<B::BindGroupLayout>, Arc<B::ComputePipeline>)>,
    shader: ShaderDef,
    bindings: Seq<TensorBind<'a, B>>,
    event: NodeEvent<B>,
) -> bool {
    match event {
        NodeEvent::Begin => true,
        NodeEvent::Readback(readbacks) => cuda && readbacks@.len() == bindings.len(),
        NodeEvent::Compiled { .. } => !cuda && !cache.contains_key(shader.name@),
        NodeEvent::Bound { pipeline, .. } => {
            &&& !cuda
            &&& all_wgpu(bindings)
            &&& cache.contains_key(shader.name@)
            &&& pipeline == cache[shader.name@].1
        },
    }
}

/// What adding a node comes to on an event.
///
/// Bindings that do not fit the shader are refused, whatever the backend. On
/// CUDA the `Meta` bindings are read back and the node is added with what they
/// held. On wgpu the shader is compiled if none of its name has been, what was
/// compiled is kept under that name, the bind group is created and the node is
/// added with both. A tensor held by the other backend is refused before
/// anything is created of it.
pub open spec fn node_step<'a, B: Backend>(
    cuda: bool,
    nodes: Seq<NodeView<B>>,
    cache: Map<Seq<char>, (Arc<B::BindGroupLayout>, Arc<B::ComputePipeline>)>,
    shader: ShaderDef,
    bindings: Seq<TensorBind<'a, B>>,
    workgroups: [u32; 3],
    event: NodeEvent<B>,
) -> NodeStep<B> {
    match layout_fault(shader.expected_layout@, bindings) {
        Some(e) => NodeStep { nodes, cache, answer: Err(e) },
        None => match event {
            NodeEvent::Begin => if cuda {
                NodeStep {
                    nodes,
                    cache,
                    answer: if all_cuda(bindings) {
                        Ok(NodeActionView::ReadMeta(meta_slices(bindings)))
                    } else {
                        Err(NodeError::WgpuTensorInCudaGraph)
                    },
                }
            } else {
                NodeStep {
                    nodes,
                    cache,
                    answer: if cache.contains_key(shader.name@) {
                        bind_action(shader, bindings, cache[shader.name@])
                    } else {
                        Ok(NodeActionView::Compile(shader.pipeline_request_spec()))
                    },
                }
            },
            NodeEvent::Readback(readbacks) => if all_cuda(bindings) {
                NodeStep {
                    nodes: nodes.push(
                        NodeView::Cuda {
                            name: shader.name@,
                            bindings: cuda_bindings(bindings, readbacks@),
                            workgroups,
                        },
                    ),
                    cache,
                    answer: Ok(NodeActionView::Added),
                }
            } else {
                NodeStep { nodes, cache, answer: Err(NodeError::WgpuTensorInCudaGraph) }
            },
            NodeEvent::Compiled { layout, pipeline } => NodeStep {
                nodes,
                cache: cache.insert(shader.name@, (layout, pipeline)),
                answer: bind_action(shader, bindings, (layout, pipeline)),
            },
            NodeEvent::Bound { pipeline, bind_group } => NodeStep {
                nodes: nodes.push(
                    NodeView::Wgpu { name: shader.name@, pipeline, bind_group, workgroups },
                ),
                cache,
                answer: Ok(NodeActionView::Added),
            },
        },
    }
}

/// A dispatch to be recorded.
pub struct Dispatch<B: Backend> {
    pub pipeline: Arc<B::ComputePipeline>,
    pub bind_group: Arc<B::BindGroup>,
    pub workgroups: [u32; 3],
}

/// One command encoder with one compute pass, to be recorded and submitted.
pub struct ExecuteRequest<B: Backend> {
    pub encoder_label: &'static str,
    pub pass_label: &'static str,
    pub dispatches: Vec<Dispatch<B>>,
    /// How the device is polled once this is submitted.
    pub maintain: Maintain,
}

/// How a graph is executed.
pub enum Execution<B: Backend> {
    /// Record and submit the dispatches, then poll the device.
    Wgpu(ExecuteRequest<B>),
    /// Run the nodes one by one, with `execute_cuda_graph`.
    Cuda,
}

/// The dispatches of the nodes that run on wgpu, in order. Others are passed
/// over.
pub open spec fn wgpu_dispatches<B: Backend>(nodes: Seq<NodeView<B>>) -> Seq<Dispatch<B>>
    decreases nodes.len(),
{
    if nodes.len() == 0 {
        Seq::empty()
    } else {
        let before = wgpu_dispatches(nodes.drop_last());
        match nodes.last() {
            NodeView::Wgpu { name, pipeline, bind_group, workgroups } => before.push(
                Dispatch { pipeline, bind_group, workgroups },
            ),
            NodeView::Cuda { .. } => before,
        }
    }
}

impl<B: Backend> ComputeGraph<B> {
    /// All nodes are well formed.
    pub open spec fn wf(self) -> bool {
        forall|i: int| 0 <= i < self@.nodes.len() ==> node_wf(#[trigger] self@.nodes[i])
    }

    /// A graph without nodes.
    pub fn new(ctx: Arc<WgpuContext<B>>) -> (r: Self)
        ensures
            r@ == (GraphView { ctx: *ctx, nodes: Seq::<NodeView<B>>::empty() }),
            r.wf(),
    {
        let r = ComputeGraph { ctx, nodes: Vec::new() };
        assert(r@.nodes =~= Seq::<NodeView<B>>::empty());
        r
    }

    /// The graph's context.
    pub fn ctx(&self) -> (r: &Arc<WgpuContext<B>>)
        ensures
            **r == self@.ctx,
    {
        &self.ctx
    }

    /// The graph's nodes.
    pub fn nodes(&self) -> (r: &Vec<ComputeNode<B>>)
        ensures
            nodes_view(r@) == self@.nodes,
    {
        &self.nodes
    }

    /// Appends a node.
    pub(crate) fn push(&mut self, node: ComputeNode<B>)
        ensures
            final(self)@ == (GraphView {
                ctx: old(self)@.ctx,
                nodes: old(self)@.nodes.push(node@),
            }),
    {
        self.nodes.push(node);
        assert(self@.nodes =~= old(self)@.nodes.push(node@));
    }

    /// The action that creates the bind group of these bindings.
    fn bind<'a>(
        shader: &ShaderDef,
        bindings: &[TensorBind<'a, B>],
        layout: Arc<B::BindGroupLayout>,
        pipeline: Arc<B::ComputePipeline>,
    ) -> (r: Result<NodeAction<B>, NodeError>)
        ensures
            (match r {
                Ok(action) => Ok(action@),
                Err(e) => Err(e),
            }) == bind_action(*shader, bindings@, (layout, pipeline)),
    {
        match collect_buffers(bindings) {
            Some(entries) => Ok(
                NodeAction::Bind {
                    layout,
                    pipeline,
                    request: BindGroupRequest {
                        label: joined(shader.name.as_str(), "_BindGroup"),
                        entries,
                    },
                },
            ),
            None => Err(NodeError::CudaTensorInWgpuGraph),
        }
    }

    /// Adds a dispatch of the shader over these bindings.
    ///
    /// The first call is with `NodeEvent::Begin`. Each answer says what is to be
    /// done with the device, and the next call hands back what came of it, until
    /// the node is added or refused. `cache` holds the pipelines of the wgpu
    /// device, each kept for good; a CUDA graph leaves it alone.
    pub fn add_node<'a>(
        &mut self,
        cache: &mut PipelineCache<B>,
        shader: &ShaderDef,
        bindings: &[TensorBind<'a, B>],
        workgroups: [u32; 3],
        event: NodeEvent<B>,
    ) -> (r: Result<NodeAction<B>, NodeError>)
        requires
            old(self).wf(),
            event_fits(old(self)@.ctx is Cuda, old(cache)@, *shader, bindings@, event),
        ensures
            ({
                let step = node_step(
                    old(self)@.ctx is Cuda,
                    old(self)@.nodes,
                    old(cache)@,
                    *shader,
                    bindings@,
                    workgroups,
                    event,
                );
                &&& final(self)@ == (GraphView { ctx: old(self)@.ctx, nodes: step.nodes })
                &&& final(cache)@ == step.cache
                &&& (match r {
                    Ok(action) => Ok(action@),
                    Err(e) => Err(e),
                }) == step.answer
            }),
            final(self).wf(),
            forall|name: Seq<char>| #[trigger]
                old(cache)@.contains_key(name) ==> final(cache)@.contains_key(name)
                    && final(cache)@[name] == old(cache)@[name],
            r matches Ok(NodeAction::Added) && old(self)@.ctx is Wgpu ==> {
                &&& all_wgpu(bindings@)
                &&& final(cache)@.contains_key(shader.name@)
                &&& final(self)@.nodes.last() is Wgpu
                &&& final(self)@.nodes.last()->Wgpu_pipeline == final(cache)@[shader.name@].1
            },
            r matches Ok(NodeAction::Added) && old(self)@.ctx is Cuda ==> {
                &&& all_cuda(bindings@)
                &&& final(self)@.nodes.last() is Cuda
            },
    {
        match shader.check(bindings) {
            Err(e) => {
                return Err(e);
            },
            Ok(()) => {},
        }
        match event {
            NodeEvent::Begin => {
                if self.ctx.is_cuda() {
                    match collect_meta_slices(bindings) {
                        Some(slices) => Ok(NodeAction::ReadMeta(slices)),
                        None => Err(NodeError::WgpuTensorInCudaGraph),
                    }
                } else {
                    match cache.lookup(shader.name.as_str()) {
                        Some((layout, pipeline)) => Self::bind(shader, bindings, layout, pipeline),
                        None => Ok(NodeAction::Compile(shader.pipeline_request())),
                    }
                }
            },
            NodeEvent::Readback(readbacks) => {
                match collect_bindings(bindings, &readbacks) {
                    Some(held) => {
                        let ghost view = bindings_view(held@);
                        self.push(
                            ComputeNode::Cuda {
                                name: shader.name.clone(),
                                bindings: held,
                                workgroups,
                            },
                        );
                        proof {
                            assert forall|i: int| 0 <= i < view.len() implies binding_wf(
                                #[trigger] view[i],
                            ) by {
                                let size = bindings@[i].tensor.size;
                                assert(size as usize <= size) by (bit_vector);
                            }
                        }
                        Ok(NodeAction::Added)
                    },
                    None => Err(NodeError::WgpuTensorInCudaGraph),
                }
            },
            NodeEvent::Compiled { layout, pipeline } => {
                cache.store(shader.name.as_str(), layout.clone(), pipeline.clone());
                Self::bind(shader, bindings, layout, pipeline)
            },
            NodeEvent::Bound { pipeline, bind_group } => {
                self.push(
                    ComputeNode::Wgpu {
                        name: shader.name.clone(),
                        pipeline,
                        bind_group,
                        workgroups,
                    },
                );
                Ok(NodeAction::Added)
            },
        }
    }

    /// How the graph is executed: on wgpu with all its dispatches in one pass,
    /// in the order of the nodes. `counter` counts the submissions to the wgpu
    /// device, this one among them, and decides how the device is polled after
    /// it; a CUDA graph leaves it alone.
    pub fn execute(&self, counter: &mut SubmitCounter) -> (r: Execution<B>)
        ensures
            self@.ctx is Cuda ==> r is Cuda && *final(counter) == *old(counter),
            self@.ctx is Wgpu ==> (r matches Execution::Wgpu(request) && {
                &&& request.encoder_label == "Wilupgu_Execute_Encoder"
                &&& request.pass_label == "Wilupgu_Compute_Pass"
                &&& request.dispatches@ == wgpu_dispatches(self@.nodes)
                &&& final(counter).submitted() == next_count(old(counter).submitted())
                &&& request.maintain == maintain_after(final(counter).submitted())
            }),
    {
        if self.ctx.is_cuda() {
            return Execution::Cuda;
        }
        let ghost nodes = self@.nodes;
        let mut dispatches: Vec<Dispatch<B>> = Vec::new();
        let mut i: usize = 0;
        while i < self.nodes.len()
            invariant
                i <= self.nodes@.len(),
                nodes == nodes_view(self.nodes@),
                dispatches@ == wgpu_dispatches(nodes.take(i as int)),
            decreases self.nodes@.len() - i,
        {
            proof {
                assert(nodes.take(i as int + 1).drop_last() =~= nodes.take(i as int));
                assert(nodes.take(i as int + 1).last() == self.nodes@[i as int]@);
            }
            match &self.nodes[i] {
                ComputeNode::Wgpu { name: _, pipeline, bind_group, workgroups } => {
                    dispatches.push(
                        Dispatch {
                            pipeline: pipeline.clone(),
                            bind_group: bind_group.clone(),
                            workgroups: *workgroups,
                        },
                    );
                },
                ComputeNode::Cuda { .. } => {},
            }
            i += 1;
        }
        assert(nodes.take(i as int) =~= nodes);
        let maintain: Maintain = counter.record();
        Execution::Wgpu(
            ExecuteRequest {
                encoder_label: "Wilupgu_Execute_Encoder",
                pass_label: "Wilupgu_Compute_Pass",
                dispatches,
                maintain,
            },
        )
    }
}

} // verus!
