//! What building and executing graphs comes to, in terms of what is bound and of
//! the answers that are returned.
use std::sync::Arc;
use vstd::prelude::*;

use super::fuse::{fuse_compute_graphs, fused_nodes, graphs_view};
use super::{
    bind_fault, first_bind_fault, nodes_view, wgpu_dispatches, BindingView, ComputeGraph,
    ComputeNode, Execution, GraphView, NodeAction, NodeError, NodeEvent, NodeView,
    PipelineRequest, ShaderDef, TensorBind, TensorMode,
};
use crate::backend::Backend;
use crate::bytes::tensor_bytes;
use crate::cache::PipelineCache;
use crate::context::{Maintain, SubmitCounter, WgpuContext};
use crate::tensor::TensorStorage;
use crate::text::decimal;

verus! {

// --------------------------------------------------------------- shaders ---

/// Inputs and meta tensors are read only, outputs and what is read and written
/// are not. Each mode is named as it is written.
pub proof fn law_modes(mode: TensorMode, read_only: bool, name: &'static str)
    requires
        call_ensures(TensorMode::read_only, (mode,), read_only),
        call_ensures(TensorMode::name, (mode,), name),
    ensures
        match mode {
            TensorMode::Input => read_only && name@ == "Input"@,
            TensorMode::Output => !read_only && name@ == "Output"@,
            TensorMode::InOut => !read_only && name@ == "InOut"@,
            TensorMode::Meta => read_only && name@ == "Meta"@,
        },
{
}

/// A shader is of the name, the source and the layout that it was made with.
pub proof fn law_shaders_are_of_what_they_are_made_with(
    name: &str,
    source: &str,
    layout: Vec<TensorMode>,
    shader: ShaderDef,
)
    requires
        call_ensures(ShaderDef::new, (name, source, layout), shader),
    ensures
        shader.name@ == name@,
        shader.source@ == source@,
        shader.expected_layout@ == layout@,
{
}

/// Whether a request compiles this shader: its source from `main` on, over a
/// layout with one entry for each slot, which is read only exactly if the slot is
/// an input or meta. All parts are labelled with the shader's name.
pub open spec fn compiles(shader: ShaderDef, request: PipelineRequest) -> bool {
    let layout = shader.expected_layout@;
    &&& request.source@ == shader.source@
    &&& request.entry_point@ == "main"@
    &&& request.entries@.len() == layout.len()
    &&& forall|i: int|
        0 <= i < layout.len() && i <= u32::MAX ==> (#[trigger] request.entries@[i]).binding == i
    &&& forall|i: int|
        0 <= i < layout.len() ==> (#[trigger] request.entries@[i]).read_only == (layout[i]
            == TensorMode::Input || layout[i] == TensorMode::Meta)
    &&& request.shader_label@ == shader.name@ + "_Shader"@
    &&& request.layout_label@ == shader.name@ + "_Layout"@
    &&& request.pipeline_layout_label@ == shader.name@ + "_PipelineLayout"@
    &&& request.pipeline_label@ == shader.name@ + "_Pipeline"@
}

/// Compiling a shader lays out one buffer for each of its slots, in order. It is
/// read only exactly if the slot's mode is `Input` or `Meta`, so it can be written
/// exactly if the mode is `Output` or `InOut`.
pub proof fn law_pipelines_are_laid_out_by_mode(shader: ShaderDef, r: PipelineRequest, i: int)
    requires
        call_ensures(ShaderDef::pipeline_request, (&shader,), r),
    ensures
        compiles(shader, r),
        r.entries@.len() == shader.expected_layout@.len(),
        0 <= i < r.entries@.len() && i <= u32::MAX ==> {
            &&& r.entries@[i].binding == i
            &&& r.entries@[i].read_only <==> shader.expected_layout@[i] == TensorMode::Input
                || shader.expected_layout@[i] == TensorMode::Meta
            &&& !r.entries@[i].read_only <==> shader.expected_layout@[i] == TensorMode::Output
                || shader.expected_layout@[i] == TensorMode::InOut
        },
{
}

/// Whether a binding is at a slot of the layout, in its mode.
pub open spec fn fits<'a, B: Backend>(layout: Seq<TensorMode>, bind: TensorBind<'a, B>) -> bool {
    &&& bind.binding < layout.len()
    &&& layout[bind.binding as int] == bind.mode
}

/// Whether there are as many bindings as slots and each of them fits.
pub open spec fn all_fit<'a, B: Backend>(
    layout: Seq<TensorMode>,
    bindings: Seq<TensorBind<'a, B>>,
) -> bool {
    &&& bindings.len() == layout.len()
    &&& forall|i: int| 0 <= i < bindings.len() ==> fits(layout, #[trigger] bindings[i])
}

/// Whether binding `i` is the first that does not fit.
pub open spec fn first_misfit<'a, B: Backend>(
    layout: Seq<TensorMode>,
    bindings: Seq<TensorBind<'a, B>>,
    i: int,
) -> bool {
    &&& 0 <= i < bindings.len()
    &&& !fits(layout, bindings[i])
    &&& forall|j: int| 0 <= j < i ==> fits(layout, #[trigger] bindings[j])
}

/// Whether an error tells what is wrong with the bindings: how many the shader
/// takes and how many there are; else the slot of the first that does not fit,
/// and that it is none of the shader's slots or which two modes differ.
pub open spec fn misfit<'a, B: Backend>(
    layout: Seq<TensorMode>,
    bindings: Seq<TensorBind<'a, B>>,
    e: NodeError,
) -> bool {
    match e {
        NodeError::BindingCount { expected, provided } => {
            &&& bindings.len() != layout.len()
            &&& expected == layout.len() as usize
            &&& provided == bindings.len() as usize
        },
        NodeError::BindingIndex { slots, binding } => {
            &&& bindings.len() == layout.len()
            &&& slots == layout.len() as usize
            &&& binding >= layout.len()
            &&& exists|i: int| #[trigger]
                first_misfit(layout, bindings, i) && bindings[i].binding == binding
        },
        NodeError::ModeMismatch { binding, slot_mode, bound_mode } => {
            &&& bindings.len() == layout.len()
            &&& binding < layout.len()
            &&& slot_mode == layout[binding as int]
            &&& slot_mode != bound_mode
            &&& exists|i: int| #[trigger]
                first_misfit(layout, bindings, i) && bindings[i].binding == binding
                    && bindings[i].mode == bound_mode
        },
        NodeError::WgpuTensorInCudaGraph => false,
        NodeError::CudaTensorInWgpuGraph => false,
    }
}

proof fn lemma_first_fault<'a, B: Backend>(
    layout: Seq<TensorMode>,
    bindings: Seq<TensorBind<'a, B>>,
)
    ensures
        match first_bind_fault(layout, bindings) {
            None => forall|i: int| 0 <= i < bindings.len() ==> fits(layout, #[trigger] bindings[i]),
            Some(e) => exists|i: int| #[trigger]
                first_misfit(layout, bindings, i) && bind_fault(
                    layout,
                    bindings[i].binding,
                    bindings[i].mode,
                ) == Some(e),
        },
    decreases bindings.len(),
{
    if bindings.len() > 0 {
        let rest = bindings.drop_last();
        lemma_first_fault(layout, rest);
        assert forall|i: int| 0 <= i < rest.len() implies rest[i] == bindings[i] by {}
        match first_bind_fault(layout, rest) {
            Some(e) => {
                let i = choose|i: int| #[trigger]
                    first_misfit(layout, rest, i) && bind_fault(
                        layout,
                        rest[i].binding,
                        rest[i].mode,
                    ) == Some(e);
                assert forall|j: int| 0 <= j < i implies fits(layout, #[trigger] bindings[j]) by {
                    assert(fits(layout, rest[j]));
                }
                assert(first_misfit(layout, bindings, i));
            },
            None => {
                let last = bindings.len() - 1;
                assert forall|j: int| 0 <= j < last implies fits(
                    layout,
                    #[trigger] bindings[j],
                ) by {
                    assert(fits(layout, rest[j]));
                }
                if !fits(layout, bindings[last]) {
                    assert(first_misfit(layout, bindings, last));
                }
            },
        }
    }
}

/// Bindings are accepted exactly if they all fit, and otherwise the first misfit
/// is told.
pub proof fn law_check_tells_the_first_misfit<'a, B: Backend>(
    shader: ShaderDef,
    bindings: &[TensorBind<'a, B>],
    r: Result<(), NodeError>,
)
    requires
        call_ensures(ShaderDef::check::<B>, (&shader, bindings), r),
    ensures
        match r {
            Ok(_) => all_fit(shader.expected_layout@, bindings@),
            Err(e) => misfit(shader.expected_layout@, bindings@, e),
        },
{
    lemma_first_fault(shader.expected_layout@, bindings@);
}

// --------------------------------------------------------- adding a node ---

/// What a binding of a CUDA node holds of the tensor that was bound: its slice,
/// its size and mode, and of a meta tensor the bytes that were read back, cut to
/// its size.
pub open spec fn holds<'a, B: Backend>(
    held: BindingView<B>,
    bind: TensorBind<'a, B>,
    readback: Seq<u8>,
) -> bool {
    &&& held.binding == bind.binding
    &&& bind.tensor.storage == TensorStorage::<B>::Cuda(held.slice)
    &&& held.mode == bind.mode
    &&& held.size == bind.tensor.size
    &&& bind.mode == TensorMode::Meta ==> held.cached_meta == Some(
        tensor_bytes(readback, bind.tensor.size),
    )
    &&& bind.mode != TensorMode::Meta ==> held.cached_meta is None
}

/// One step of adding a node. It answers to the event as follows, and in no other
/// way changes the graph or what is kept.
///
/// Bindings that do not fit are refused at every step. Then on CUDA the slices of
/// the meta tensors are asked for, and once they are read back a node is added
/// that holds every tensor. On wgpu a shader whose name is not kept is to be
/// compiled, and what came of it is kept; with what is kept the buffers are bound,
/// each whole and at its own slot; and with the bind group the node is added. A
/// tensor of the other backend is refused.
pub proof fn law_adding_a_node<'a, B: Backend>(
    graph: &mut ComputeGraph<B>,
    cache: &mut PipelineCache<B>,
    shader: ShaderDef,
    bindings: &[TensorBind<'a, B>],
    workgroups: [u32; 3],
    event: NodeEvent<B>,
    r: Result<NodeAction<B>, NodeError>,
)
    requires
        call_ensures(
            ComputeGraph::<B>::add_node,
            (graph, cache, &shader, bindings, workgroups, event),
            r,
        ),
        event is Readback ==> old(graph)@.ctx is Cuda,
        event is Compiled || event is Bound ==> old(graph)@.ctx is Wgpu,
        event is Bound ==> forall|i: int|
            0 <= i < bindings@.len() ==> (#[trigger] bindings@[i]).tensor.storage is Wgpu,
    ensures
        final(graph)@.ctx == old(graph)@.ctx,
        ({
            let fit = all_fit(shader.expected_layout@, bindings@);
            let nodes = old(graph)@.nodes;
            let kept = old(cache)@;
            let name = shader.name@;
            let same = final(graph)@.nodes == nodes && final(cache)@ == kept;
            match r {
                Ok(NodeAction::ReadMeta(slices)) => {
                    &&& fit && same && event is Begin && old(graph)@.ctx is Cuda
                    &&& slices@.len() == bindings@.len()
                    &&& forall|i: int|
                        0 <= i < bindings@.len() ==> {
                            let bind = #[trigger] bindings@[i];
                            &&& bind.tensor.storage is Cuda
                            &&& slices@[i] is Some <==> bind.mode == TensorMode::Meta
                            &&& slices@[i] matches Some(slice) ==> bind.tensor.storage
                                == TensorStorage::<B>::Cuda(slice)
                        }
                },
                Ok(NodeAction::Compile(request)) => {
                    &&& fit && same && event is Begin && old(graph)@.ctx is Wgpu
                    &&& !kept.contains_key(name)
                    &&& compiles(shader, request)
                },
                Ok(NodeAction::Bind { layout, pipeline, request }) => {
                    &&& fit && old(graph)@.ctx is Wgpu && final(graph)@.nodes == nodes
                    &&& match event {
                        NodeEvent::Begin => kept.contains_key(name) && (layout, pipeline)
                            == kept[name] && same,
                        NodeEvent::Compiled { layout: l, pipeline: p } => l == layout && p
                            == pipeline && final(cache)@ == kept.insert(name, (layout, pipeline)),
                        _ => false,
                    }
                    &&& request.label@ == name + "_BindGroup"@
                    &&& request.entries@.len() == bindings@.len()
                    &&& forall|i: int|
                        0 <= i < bindings@.len() ==> {
                            let entry = #[trigger] request.entries@[i];
                            &&& entry.binding == bindings@[i].binding
                            &&& bindings@[i].tensor.storage == TensorStorage::<B>::Wgpu(
                                entry.buffer,
                            )
                        }
                },
                Ok(NodeAction::Added) => {
                    &&& fit && final(cache)@ == kept
                    &&& final(graph)@.nodes.len() == nodes.len() + 1
                    &&& final(graph)@.nodes.drop_last() == nodes
                    &&& match (event, final(graph)@.nodes.last()) {
                        (
                            NodeEvent::Bound { pipeline: p, bind_group: g },
                            NodeView::Wgpu { name: n, pipeline, bind_group, workgroups: w },
                        ) => n == name && pipeline == p && bind_group == g && w == workgroups,
                        (
                            NodeEvent::Readback(readbacks),
                            NodeView::Cuda { name: n, bindings: held, workgroups: w },
                        ) => {
                            &&& n == name
                            &&& w == workgroups
                            &&& held.len() == bindings@.len()
                            &&& forall|i: int|
                                0 <= i < bindings@.len() ==> holds(
                                    #[trigger] held[i],
                                    bindings@[i],
                                    readbacks@[i]@,
                                )
                        },
                        _ => false,
                    }
                },
                Err(NodeError::WgpuTensorInCudaGraph) => {
                    &&& fit && same && old(graph)@.ctx is Cuda
                    &&& exists|i: int|
                        0 <= i < bindings@.len() && (
                        #[trigger] bindings@[i]).tensor.storage is Wgpu
                },
                Err(NodeError::CudaTensorInWgpuGraph) => {
                    &&& fit && old(graph)@.ctx is Wgpu && final(graph)@.nodes == nodes
                    &&& exists|i: int|
                        0 <= i < bindings@.len() && (
                        #[trigger] bindings@[i]).tensor.storage is Cuda
                    &&& match event {
                        NodeEvent::Compiled { layout, pipeline } => final(cache)@ == kept.insert(
                            name,
                            (layout, pipeline),
                        ),
                        _ => final(cache)@ == kept && kept.contains_key(name),
                    }
                },
                Err(e) => same && misfit(shader.expected_layout@, bindings@, e),
            }
        }),
{
    lemma_first_fault(shader.expected_layout@, bindings@);
    match r {
        Ok(NodeAction::Added) => {
            assert(final(graph)@.nodes.drop_last() =~= old(graph)@.nodes);
        },
        _ => {},
    }
}

/// A new graph is of its context and has no nodes; what it hands out is its own
/// context and its own nodes.
pub proof fn law_new_graphs_are_empty<B: Backend>(
    ctx: Arc<WgpuContext<B>>,
    made: ComputeGraph<B>,
    graph: ComputeGraph<B>,
    given: Arc<WgpuContext<B>>,
    nodes: Vec<ComputeNode<B>>,
)
    requires
        call_ensures(ComputeGraph::<B>::new, (ctx,), made),
        call_ensures(ComputeGraph::<B>::ctx, (&graph,), &given),
        call_ensures(ComputeGraph::<B>::nodes, (&graph,), &nodes),
    ensures
        made@.ctx == *ctx,
        made@.nodes.len() == 0,
        *given == graph@.ctx,
        nodes@.len() == graph@.nodes.len(),
        forall|i: int| 0 <= i < nodes@.len() ==> (#[trigger] nodes@[i])@ == graph@.nodes[i],
{
    assert(nodes_view(nodes@).len() == nodes@.len());
    assert forall|i: int| 0 <= i < nodes@.len() implies (#[trigger] nodes@[i])@
        == graph@.nodes[i] by {
        assert(nodes_view(nodes@)[i] == nodes@[i]@);
    }
}

/// What is said of a node is said of all that it holds.
pub proof fn law_nodes_are_seen_whole<B: Backend>(node: ComputeNode<B>)
    ensures
        match (node, node@) {
            (
                ComputeNode::Wgpu { name, pipeline, bind_group, workgroups },
                NodeView::Wgpu { name: n, pipeline: p, bind_group: g, workgroups: w },
            ) => n == name@ && p == pipeline && g == bind_group && w == workgroups,
            (
                ComputeNode::Cuda { name, bindings, workgroups },
                NodeView::Cuda { name: n, bindings: held, workgroups: w },
            ) => {
                &&& n == name@
                &&& w == workgroups
                &&& held.len() == bindings@.len()
                &&& forall|i: int|
                    0 <= i < held.len() ==> {
                        let b = bindings@[i];
                        &&& (#[trigger] held[i]).binding == b.binding
                        &&& held[i].slice == b.slice
                        &&& held[i].mode == b.mode
                        &&& held[i].size == b.size
                        &&& held[i].cached_meta is Some <==> b.cached_meta is Some
                        &&& b.cached_meta matches Some(bytes) ==> held[i].cached_meta == Some(
                            bytes@,
                        )
                    }
            },
            _ => false,
        },
{
}

// ------------------------------------------------------------- executing ---

/// How many of the first `n` nodes run on wgpu.
pub open spec fn wgpu_nodes_before<B: Backend>(nodes: Seq<NodeView<B>>, n: int) -> int
    decreases n,
{
    if n <= 0 {
        0
    } else {
        wgpu_nodes_before(nodes, n - 1) + (if nodes[n - 1] is Wgpu {
            1int
        } else {
            0int
        })
    }
}

proof fn lemma_dispatches<B: Backend>(nodes: Seq<NodeView<B>>, n: int)
    requires
        0 <= n <= nodes.len(),
    ensures
        wgpu_dispatches(nodes.take(n)).len() == wgpu_nodes_before(nodes, n),
        forall|i: int|
            #![trigger nodes[i]]
            0 <= i < n && nodes[i] is Wgpu ==> {
                let at = wgpu_nodes_before(nodes, i);
                let dispatch = wgpu_dispatches(nodes.take(n))[at];
                &&& 0 <= at < wgpu_nodes_before(nodes, n)
                &&& dispatch.pipeline == nodes[i]->Wgpu_pipeline
                &&& dispatch.bind_group == nodes[i]->bind_group
                &&& dispatch.workgroups == nodes[i]->Wgpu_workgroups
            },
    decreases n,
{
    if n > 0 {
        lemma_dispatches(nodes, n - 1);
        assert(nodes.take(n).drop_last() =~= nodes.take(n - 1));
        assert(nodes.take(n).last() == nodes[n - 1]);
    }
}

/// Executing a graph on wgpu dispatches each of its wgpu nodes once, with the
/// node's own pipeline, bind group and workgroup counts: the node that has `k`
/// such nodes before it is dispatch `k`. Every second submission waits. A CUDA
/// graph submits nothing.
pub proof fn law_every_node_is_dispatched_in_order<B: Backend>(
    graph: ComputeGraph<B>,
    counter: &mut SubmitCounter,
    r: Execution<B>,
    i: int,
)
    requires
        call_ensures(ComputeGraph::<B>::execute, (&graph, counter), r),
    ensures
        match r {
            Execution::Cuda => graph@.ctx is Cuda && final(counter).submitted() == old(
                counter,
            ).submitted(),
            Execution::Wgpu(request) => {
                let nodes = graph@.nodes;
                &&& graph@.ctx is Wgpu
                &&& request.dispatches@.len() == wgpu_nodes_before(nodes, nodes.len() as int)
                &&& 0 <= i < nodes.len() && nodes[i] is Wgpu ==> {
                    let at = wgpu_nodes_before(nodes, i);
                    &&& 0 <= at < request.dispatches@.len()
                    &&& request.dispatches@[at].pipeline == nodes[i]->Wgpu_pipeline
                    &&& request.dispatches@[at].bind_group == nodes[i]->bind_group
                    &&& request.dispatches@[at].workgroups == nodes[i]->Wgpu_workgroups
                }
                &&& request.encoder_label@ == "Wilupgu_Execute_Encoder"@
                &&& request.pass_label@ == "Wilupgu_Compute_Pass"@
                &&& final(counter).submitted() == (old(counter).submitted() + 1)
                    % 0x1_0000_0000_0000_0000
                &&& request.maintain == Maintain::Wait <==> final(counter).submitted() % 2 == 0
            },
        },
{
    let nodes = graph@.nodes;
    lemma_dispatches(nodes, nodes.len() as int);
    assert(nodes.take(nodes.len() as int) =~= nodes);
}

// ---------------------------------------------------------------- fusing ---

/// How many nodes the first `n` graphs have.
pub open spec fn nodes_before<B: Backend>(graphs: Seq<GraphView<B>>, n: int) -> int
    decreases n,
{
    if n <= 0 {
        0
    } else {
        nodes_before(graphs, n - 1) + graphs[n - 1].nodes.len()
    }
}

proof fn lemma_fused<B: Backend>(graphs: Seq<GraphView<B>>, n: int, i: int, k: int)
    requires
        0 <= n <= graphs.len(),
    ensures
        fused_nodes(graphs.take(n)).len() == nodes_before(graphs, n),
        0 <= i < n && 0 <= k < graphs[i].nodes.len() ==> {
            &&& 0 <= nodes_before(graphs, i) + k < nodes_before(graphs, n)
            &&& fused_nodes(graphs.take(n))[nodes_before(graphs, i) + k] == graphs[i].nodes[k]
        },
        0 <= i <= n ==> 0 <= nodes_before(graphs, i) <= nodes_before(graphs, n),
    decreases n,
{
    if n > 0 {
        lemma_fused(graphs, n - 1, i, k);
        lemma_fused(graphs, n - 1, n - 1, k);
        assert(graphs.take(n).drop_last() =~= graphs.take(n - 1));
        assert(graphs.take(n).last() == graphs[n - 1]);
    }
}

/// A fused graph is of the context that it was fused for and has exactly the nodes
/// of the graphs: node `k` of graph `i` comes after all nodes of the graphs before
/// and after `k` of its own.
pub proof fn law_fused_graphs_keep_every_node<'a, B: Backend>(
    ctx: Arc<WgpuContext<B>>,
    graphs: &[&'a ComputeGraph<B>],
    r: ComputeGraph<B>,
    i: int,
    k: int,
)
    requires
        call_ensures(fuse_compute_graphs::<B>, (ctx, graphs), r),
    ensures
        r@.ctx == *ctx,
        r@.nodes.len() == nodes_before(graphs_view(graphs@), graphs@.len() as int),
        0 <= i < graphs@.len() && 0 <= k < graphs@[i]@.nodes.len() ==> {
            let at = nodes_before(graphs_view(graphs@), i) + k;
            &&& 0 <= at < r@.nodes.len()
            &&& r@.nodes[at] == graphs@[i]@.nodes[k]
        },
{
    let views = graphs_view(graphs@);
    lemma_fused(views, views.len() as int, i, k);
    assert(views.take(views.len() as int) =~= views);
}

// ---------------------------------------------------------------- errors ---

/// The texts of the errors.
pub proof fn law_node_messages(e: NodeError, shader: &str, r: String)
    requires
        call_ensures(NodeError::message, (e, shader), r),
    ensures
        e matches NodeError::BindingCount { expected, provided } ==> r@
            == "[ERROR] Shader Binding Mismatch: Shader '"@ + shader@ + "' expects "@ + decimal(
            expected as nat,
        ) + " tensors, but "@ + decimal(provided as nat) + " were provided."@,
        e matches NodeError::BindingIndex { slots, binding } ==> r@
            == "index out of bounds: the len is "@ + decimal(slots as nat)
            + " but the index is "@ + decimal(binding as nat),
        e matches NodeError::ModeMismatch { binding, slot_mode, bound_mode } ==> r@
            == "[ERROR] Tensor Mode Mismatch: In shader '"@ + shader@ + "', binding "@ + decimal(
            binding as nat,
        ) + " expects "@ + slot_mode.name_spec()@ + ", but "@ + bound_mode.name_spec()@
            + " was provided."@,
        e is WgpuTensorInCudaGraph ==> r@ == "[wilupgu] CUDA graph received a wgpu-backed tensor"@,
        e is CudaTensorInWgpuGraph ==> r@ == "[wilupgu] wgpu graph received a CUDA-backed tensor"@,
{
}

} // verus!
