//! Several graphs as one.
use std::sync::Arc;
use vstd::prelude::*;

use super::{
    bindings_view, nodes_view, wgpu_dispatches, ComputeGraph, ComputeNode, CudaNodeBinding,
    GraphView, NodeView,
};
use crate::backend::Backend;
use crate::context::WgpuContext;

verus! {

/// The nodes of the graphs, one graph after the other.
pub open spec fn fused_nodes<B: Backend>(graphs: Seq<GraphView<B>>) -> Seq<NodeView<B>>
    decreases graphs.len(),
{
    if graphs.len() == 0 {
        Seq::empty()
    } else {
        fused_nodes(graphs.drop_last()) + graphs.last().nodes
    }
}

/// What a list of graphs holds.
pub open spec fn graphs_view<'a, B: Backend>(graphs: Seq<&'a ComputeGraph<B>>) -> Seq<
    GraphView<B>,
> {
    Seq::new(graphs.len(), |i: int| graphs[i]@)
}

/// A copy of a list of bytes.
fn copy_bytes(bytes: &Vec<u8>) -> (r: Vec<u8>)
    ensures
        r@ == bytes@,
{
    let mut r: Vec<u8> = Vec::new();
    let mut i: usize = 0;
    while i < bytes.len()
        invariant
            i <= bytes@.len(),
            r@ == bytes@.take(i as int),
        decreases bytes@.len() - i,
    {
        r.push(bytes[i]);
        i += 1;
        assert(r@ =~= bytes@.take(i as int));
    }
    assert(bytes@.take(i as int) =~= bytes@);
    r
}

/// A binding of the same slice, with the same bytes at hand.
fn copy_binding<B: Backend>(b: &CudaNodeBinding<B>) -> (r: CudaNodeBinding<B>)
    ensures
        r@ == b@,
{
    CudaNodeBinding {
        binding: b.binding,
        slice: b.slice.clone(),
        mode: b.mode,
        size: b.size,
        cached_meta: match &b.cached_meta {
            Some(bytes) => Some(copy_bytes(bytes)),
            None => None,
        },
    }
}

/// A node that shares the handles of another.
fn copy_node<B: Backend>(node: &ComputeNode<B>) -> (r: ComputeNode<B>)
    ensures
        r@ == node@,
{
    match node {
        ComputeNode::Wgpu { name, pipeline, bind_group, workgroups } => ComputeNode::Wgpu {
            name: name.clone(),
            pipeline: pipeline.clone(),
            bind_group: bind_group.clone(),
            workgroups: *workgroups,
        },
        ComputeNode::Cuda { name, bindings, workgroups } => {
            let mut copied: Vec<CudaNodeBinding<B>> = Vec::new();
            let mut i: usize = 0;
            while i < bindings.len()
                invariant
                    i <= bindings@.len(),
                    copied@.len() == i,
                    forall|j: int| 0 <= j < i ==> (#[trigger] copied@[j])@ == bindings@[j]@,
                decreases bindings@.len() - i,
            {
                copied.push(copy_binding(&bindings[i]));
                i += 1;
            }
            assert(bindings_view(copied@) =~= bindings_view(bindings@));
            ComputeNode::Cuda { name: name.clone(), bindings: copied, workgroups: *workgroups }
        },
    }
}

/// One graph that dispatches what the given graphs dispatch, one after the
/// other. It shares their pipelines, bind groups and slices.
pub fn fuse_compute_graphs<'a, B: Backend>(
    ctx: Arc<WgpuContext<B>>,
    graphs: &[&'a ComputeGraph<B>],
) -> (r: ComputeGraph<B>)
    requires
        forall|i: int| 0 <= i < graphs@.len() ==> (#[trigger] graphs@[i]).wf(),
    ensures
        r@ == (GraphView { ctx: *ctx, nodes: fused_nodes(graphs_view(graphs@)) }),
        r.wf(),
{
    let mut fused: ComputeGraph<B> = ComputeGraph::new(ctx);
    let ghost views = graphs_view(graphs@);
    let mut i: usize = 0;
    while i < graphs.len()
        invariant
            i <= graphs@.len(),
            views == graphs_view(graphs@),
            forall|j: int| 0 <= j < graphs@.len() ==> (#[trigger] graphs@[j]).wf(),
            fused@ == (GraphView { ctx: *ctx, nodes: fused_nodes(views.take(i as int)) }),
            fused.wf(),
        decreases graphs@.len() - i,
    {
        let graph: &'a ComputeGraph<B> = graphs[i];
        let nodes: &Vec<ComputeNode<B>> = graph.nodes();
        let ghost before = fused@.nodes;
        let mut k: usize = 0;
        while k < nodes.len()
            invariant
                k <= nodes@.len(),
                graph.wf(),
                nodes_view(nodes@) == graph@.nodes,
                fused@ == (GraphView { ctx: *ctx, nodes: before + graph@.nodes.take(k as int) }),
                fused.wf(),
            decreases nodes@.len() - k,
        {
            assert(nodes@[k as int]@ == graph@.nodes[k as int]);
            fused.push(copy_node(&nodes[k]));
            k += 1;
            assert(before + graph@.nodes.take(k as int) =~= (before + graph@.nodes.take(
                k as int - 1,
            )).push(graph@.nodes[k as int - 1]));
        }
        proof {
            assert(graph@.nodes.take(k as int) =~= graph@.nodes);
            assert(views.take(i as int + 1).drop_last() =~= views.take(i as int));
            assert(views.take(i as int + 1).last() == graph@);
        }
        i += 1;
    }
    assert(views.take(i as int) =~= views);
    fused
}

proof fn lemma_dispatches_of_concatenation<B: Backend>(
    first: Seq<NodeView<B>>,
    second: Seq<NodeView<B>>,
)
    ensures
        wgpu_dispatches(first + second) == wgpu_dispatches(first) + wgpu_dispatches(second),
    decreases second.len(),
{
    if second.len() == 0 {
        assert(first + second =~= first);
        assert(wgpu_dispatches(first) + wgpu_dispatches(second) =~= wgpu_dispatches(first));
    } else {
        lemma_dispatches_of_concatenation(first, second.drop_last());
        assert((first + second).drop_last() =~= first + second.drop_last());
        assert((first + second).last() == second.last());
        assert(wgpu_dispatches(first + second) =~= wgpu_dispatches(first) + wgpu_dispatches(
            second,
        ));
    }
}

/// The dispatches of each of the graphs, one graph after the other.
pub open spec fn dispatches_in_turn<B: Backend>(graphs: Seq<GraphView<B>>) -> Seq<
    super::Dispatch<B>,
>
    decreases graphs.len(),
{
    if graphs.len() == 0 {
        Seq::empty()
    } else {
        dispatches_in_turn(graphs.drop_last()) + wgpu_dispatches(graphs.last().nodes)
    }
}

/// Executing a fused graph on wgpu dispatches exactly what executing the graphs
/// in turn would, in the same order.
pub proof fn law_fused_dispatches<B: Backend>(graphs: Seq<GraphView<B>>)
    ensures
        wgpu_dispatches(fused_nodes(graphs)) == dispatches_in_turn(graphs),
    decreases graphs.len(),
{
    if graphs.len() > 0 {
        law_fused_dispatches(graphs.drop_last());
        lemma_dispatches_of_concatenation(fused_nodes(graphs.drop_last()), graphs.last().nodes);
    }
}

/// Fusing all graphs at once gives the nodes of fusing the first ones, followed
/// by those of fusing the others.
pub proof fn law_fusing_in_parts<B: Backend>(
    first: Seq<GraphView<B>>,
    second: Seq<GraphView<B>>,
)
    ensures
        fused_nodes(first + second) == fused_nodes(first) + fused_nodes(second),
    decreases second.len(),
{
    if second.len() == 0 {
        assert(first + second =~= first);
        assert(fused_nodes(first) + fused_nodes(second) =~= fused_nodes(first));
    } else {
        law_fusing_in_parts(first, second.drop_last());
        assert((first + second).drop_last() =~= first + second.drop_last());
        assert((first + second).last() == second.last());
        assert(fused_nodes(first + second) =~= fused_nodes(first) + fused_nodes(second));
    }
}

/// Fusing one graph alone keeps its nodes.
pub proof fn law_fusing_one_graph<B: Backend>(graph: GraphView<B>)
    ensures
        fused_nodes(seq![graph]) == graph.nodes,
{
    assert(seq![graph].drop_last() =~= Seq::<GraphView<B>>::empty());
    assert(fused_nodes(Seq::<GraphView<B>>::empty()) =~= Seq::<NodeView<B>>::empty());
    assert(fused_nodes(seq![graph]) =~= graph.nodes);
}

} // verus!
