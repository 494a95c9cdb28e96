//! What holds of graphs as a whole: over several steps of adding a node, over
//! both backends, over every run.
use std::sync::Arc;
use vstd::prelude::*;

use super::cuda_exec::{
    args_spec, blocks_spec, cfg_1d_spec, config_spec, fields_spec, first_missing, held,
    kernel_action, next_cuda, node_action, ready_spec, slot, CudaActionView, DispatchError,
    KernelArg, LaunchEnv,
};
use super::fuse::fused_nodes;
use super::kernels::{op_named, CudaOp, GridForm, Kernel};
use super::{
    all_cuda, all_wgpu, bind_entries, cuda_bindings, event_fits, layout_fault, law_fitting_bindings,
    meta_slices, node_step, BindingView, GraphView, NodeActionView, NodeError,
    NodeEvent, NodeView, ShaderDef, TensorBind, TensorMode,
};
use crate::backend::Backend;
use crate::bytes::{tensor_bytes, word_at, ByteOrder};

verus! {

// --------------------------------------------------------- adding a node ---

/// Bindings that do not fit the shader are refused with the same error on
/// either backend, at every step, and nothing changes.
pub proof fn law_refusal_is_the_same_on_both_backends<'a, B: Backend>(
    cuda: bool,
    nodes: Seq<NodeView<B>>,
    cache: Map<Seq<char>, (Arc<B::BindGroupLayout>, Arc<B::ComputePipeline>)>,
    shader: ShaderDef,
    bindings: Seq<TensorBind<'a, B>>,
    workgroups: [u32; 3],
    event: NodeEvent<B>,
)
    requires
        layout_fault(shader.expected_layout@, bindings) is Some,
    ensures
        ({
            let step = node_step(cuda, nodes, cache, shader, bindings, workgroups, event);
            &&& step.answer == Err::<NodeActionView<B>, NodeError>(
                layout_fault(shader.expected_layout@, bindings)->0,
            )
            &&& step.nodes == nodes
            &&& step.cache == cache
        }),
{
}

/// A step keeps all nodes in their order and adds at most one, at the end; it
/// adds one exactly if it answers so.
pub proof fn law_nodes_are_appended<'a, B: Backend>(
    cuda: bool,
    nodes: Seq<NodeView<B>>,
    cache: Map<Seq<char>, (Arc<B::BindGroupLayout>, Arc<B::ComputePipeline>)>,
    shader: ShaderDef,
    bindings: Seq<TensorBind<'a, B>>,
    workgroups: [u32; 3],
    event: NodeEvent<B>,
)
    ensures
        ({
            let step = node_step(cuda, nodes, cache, shader, bindings, workgroups, event);
            if step.answer == Ok::<NodeActionView<B>, NodeError>(NodeActionView::Added) {
                &&& step.nodes.len() == nodes.len() + 1
                &&& step.nodes.drop_last() == nodes
            } else {
                step.nodes == nodes
            }
        }),
{
    let step = node_step(cuda, nodes, cache, shader, bindings, workgroups, event);
    if step.nodes.len() == nodes.len() + 1 {
        assert(step.nodes.drop_last() =~= nodes);
    }
}

/// Adding a node on wgpu with a shader whose name is new: the shader is compiled,
/// the bind group is created with what came of that, and the node is added with
/// both. What was compiled is kept under the shader's name.
pub proof fn law_adding_with_a_new_shader<'a, B: Backend>(
    nodes: Seq<NodeView<B>>,
    cache: Map<Seq<char>, (Arc<B::BindGroupLayout>, Arc<B::ComputePipeline>)>,
    shader: ShaderDef,
    bindings: Seq<TensorBind<'a, B>>,
    workgroups: [u32; 3],
    layout: Arc<B::BindGroupLayout>,
    pipeline: Arc<B::ComputePipeline>,
    bind_group: Arc<B::BindGroup>,
)
    requires
        layout_fault(shader.expected_layout@, bindings) is None,
        all_wgpu(bindings),
        !cache.contains_key(shader.name@),
    ensures
        ({
            let begun = node_step(
                false,
                nodes,
                cache,
                shader,
                bindings,
                workgroups,
                NodeEvent::Begin,
            );
            let compiled = node_step(
                false,
                begun.nodes,
                begun.cache,
                shader,
                bindings,
                workgroups,
                NodeEvent::Compiled { layout, pipeline },
            );
            let bound = node_step(
                false,
                compiled.nodes,
                compiled.cache,
                shader,
                bindings,
                workgroups,
                NodeEvent::Bound { pipeline, bind_group },
            );
            &&& event_fits(
                false,
                begun.cache,
                shader,
                bindings,
                NodeEvent::Compiled { layout, pipeline },
            )
            &&& event_fits(
                false,
                compiled.cache,
                shader,
                bindings,
                NodeEvent::Bound { pipeline, bind_group },
            )
            &&& begun.answer == Ok::<NodeActionView<B>, NodeError>(
                NodeActionView::Compile(shader.pipeline_request_spec()),
            )
            &&& compiled.answer == Ok::<NodeActionView<B>, NodeError>(
                NodeActionView::Bind {
                    layout,
                    pipeline,
                    label: shader.name@ + "_BindGroup"@,
                    entries: bind_entries(bindings),
                },
            )
            &&& bound.answer == Ok::<NodeActionView<B>, NodeError>(NodeActionView::Added)
            &&& bound.nodes == nodes.push(
                NodeView::Wgpu { name: shader.name@, pipeline, bind_group, workgroups },
            )
            &&& bound.cache == cache.insert(shader.name@, (layout, pipeline))
        }),
{
}

/// A shader is compiled once per name: where one of the same name has been, even
/// from another source, nothing is compiled and the bind group is created with
/// what is kept under that name.
pub proof fn law_compiled_once_per_name<'a, B: Backend>(
    nodes: Seq<NodeView<B>>,
    cache: Map<Seq<char>, (Arc<B::BindGroupLayout>, Arc<B::ComputePipeline>)>,
    shader: ShaderDef,
    bindings: Seq<TensorBind<'a, B>>,
    workgroups: [u32; 3],
)
    requires
        cache.contains_key(shader.name@),
    ensures
        ({
            let begun = node_step(
                false,
                nodes,
                cache,
                shader,
                bindings,
                workgroups,
                NodeEvent::Begin,
            );
            &&& !(begun.answer matches Ok(NodeActionView::Compile(_)))
            &&& layout_fault(shader.expected_layout@, bindings) is None && all_wgpu(bindings)
                ==> begun.answer == Ok::<NodeActionView<B>, NodeError>(
                NodeActionView::Bind {
                    layout: cache[shader.name@].0,
                    pipeline: cache[shader.name@].1,
                    label: shader.name@ + "_BindGroup"@,
                    entries: bind_entries(bindings),
                },
            )
        }),
{
}

/// Adding a node on wgpu with a shader whose name is known: the bind group is
/// created with what is kept under that name, the node is added with the kept
/// pipeline, and what is kept does not change.
pub proof fn law_adding_with_a_known_shader<'a, B: Backend>(
    nodes: Seq<NodeView<B>>,
    cache: Map<Seq<char>, (Arc<B::BindGroupLayout>, Arc<B::ComputePipeline>)>,
    shader: ShaderDef,
    bindings: Seq<TensorBind<'a, B>>,
    workgroups: [u32; 3],
    bind_group: Arc<B::BindGroup>,
)
    requires
        layout_fault(shader.expected_layout@, bindings) is None,
        all_wgpu(bindings),
        cache.contains_key(shader.name@),
    ensures
        ({
            let (layout, pipeline) = cache[shader.name@];
            let begun = node_step(
                false,
                nodes,
                cache,
                shader,
                bindings,
                workgroups,
                NodeEvent::Begin,
            );
            let bound = node_step(
                false,
                begun.nodes,
                begun.cache,
                shader,
                bindings,
                workgroups,
                NodeEvent::Bound { pipeline, bind_group },
            );
            &&& event_fits(
                false,
                begun.cache,
                shader,
                bindings,
                NodeEvent::Bound { pipeline, bind_group },
            )
            &&& begun.answer == Ok::<NodeActionView<B>, NodeError>(
                NodeActionView::Bind {
                    layout,
                    pipeline,
                    label: shader.name@ + "_BindGroup"@,
                    entries: bind_entries(bindings),
                },
            )
            &&& bound.answer == Ok::<NodeActionView<B>, NodeError>(NodeActionView::Added)
            &&& bound.nodes == nodes.push(
                NodeView::Wgpu { name: shader.name@, pipeline, bind_group, workgroups },
            )
            &&& bound.cache == cache
        }),
{
}

/// A node is added only with tensors that the graph's backend holds, and on wgpu
/// only with the pipeline that is kept under its shader's name.
pub proof fn law_added_nodes_are_of_the_graph<'a, B: Backend>(
    cuda: bool,
    nodes: Seq<NodeView<B>>,
    cache: Map<Seq<char>, (Arc<B::BindGroupLayout>, Arc<B::ComputePipeline>)>,
    shader: ShaderDef,
    bindings: Seq<TensorBind<'a, B>>,
    workgroups: [u32; 3],
    event: NodeEvent<B>,
)
    requires
        event_fits(cuda, cache, shader, bindings, event),
    ensures
        ({
            let step = node_step(cuda, nodes, cache, shader, bindings, workgroups, event);
            step.answer == Ok::<NodeActionView<B>, NodeError>(NodeActionView::Added) ==> {
                &&& if cuda {
                    all_cuda(bindings) && step.nodes.last() is Cuda
                } else {
                    &&& all_wgpu(bindings)
                    &&& step.nodes.last() is Wgpu
                    &&& step.cache.contains_key(shader.name@)
                    &&& step.nodes.last()->Wgpu_pipeline == step.cache[shader.name@].1
                }
            }
        }),
{
}

/// What is kept under a name stays: no step changes it, whatever came of what was
/// asked for.
pub proof fn law_compiled_pipelines_stay<'a, B: Backend>(
    cuda: bool,
    nodes: Seq<NodeView<B>>,
    cache: Map<Seq<char>, (Arc<B::BindGroupLayout>, Arc<B::ComputePipeline>)>,
    shader: ShaderDef,
    bindings: Seq<TensorBind<'a, B>>,
    workgroups: [u32; 3],
    event: NodeEvent<B>,
    name: Seq<char>,
)
    requires
        event_fits(cuda, cache, shader, bindings, event),
        cache.contains_key(name),
    ensures
        ({
            let step = node_step(cuda, nodes, cache, shader, bindings, workgroups, event);
            step.cache.contains_key(name) && step.cache[name] == cache[name]
        }),
{
}

/// Adding a node on CUDA: the meta tensors are read back and the node is added
/// with what they held, whatever they hold later.
pub proof fn law_adding_on_cuda<'a, B: Backend>(
    nodes: Seq<NodeView<B>>,
    cache: Map<Seq<char>, (Arc<B::BindGroupLayout>, Arc<B::ComputePipeline>)>,
    shader: ShaderDef,
    bindings: Seq<TensorBind<'a, B>>,
    workgroups: [u32; 3],
    readbacks: Vec<Vec<u8>>,
)
    requires
        layout_fault(shader.expected_layout@, bindings) is None,
        all_cuda(bindings),
        readbacks@.len() == bindings.len(),
    ensures
        ({
            let begun = node_step(
                true,
                nodes,
                cache,
                shader,
                bindings,
                workgroups,
                NodeEvent::Begin,
            );
            let read = node_step(
                true,
                begun.nodes,
                begun.cache,
                shader,
                bindings,
                workgroups,
                NodeEvent::Readback(readbacks),
            );
            &&& event_fits(true, begun.cache, shader, bindings, NodeEvent::Readback(readbacks))
            &&& begun.answer == Ok::<NodeActionView<B>, NodeError>(
                NodeActionView::ReadMeta(meta_slices(bindings)),
            )
            &&& read.answer == Ok::<NodeActionView<B>, NodeError>(NodeActionView::Added)
            &&& read.nodes == nodes.push(
                NodeView::Cuda {
                    name: shader.name@,
                    bindings: cuda_bindings(bindings, readbacks@),
                    workgroups,
                },
            )
            &&& read.cache == cache
        }),
{
}

// ------------------------------------------------------- bound tensors ---

proof fn lemma_slot_of_position<B: Backend>(bindings: Seq<BindingView<B>>, i: int)
    requires
        0 <= i < bindings.len(),
        forall|j: int, k: int|
            0 <= j < k < bindings.len() ==> (#[trigger] bindings[j]).binding != (
            #[trigger] bindings[k]).binding,
    ensures
        slot(bindings, bindings[i].binding) == Some(bindings[i]),
    decreases bindings.len(),
{
    if i > 0 {
        let rest = bindings.drop_first();
        assert forall|j: int, k: int| 0 <= j < k < rest.len() implies (
        #[trigger] rest[j]).binding != (#[trigger] rest[k]).binding by {
            assert(rest[j] == bindings[j + 1]);
            assert(rest[k] == bindings[k + 1]);
        }
        assert(rest[i - 1] == bindings[i]);
        assert(bindings[0].binding != bindings[i].binding);
        lemma_slot_of_position(rest, i - 1);
    }
}

/// As many different indexes below `n` as there are leave none out.
proof fn lemma_all_indexes_occur(indexes: Seq<int>, idx: int)
    requires
        indexes.no_duplicates(),
        forall|i: int| 0 <= i < indexes.len() ==> 0 <= #[trigger] indexes[i] < indexes.len(),
        0 <= idx < indexes.len(),
    ensures
        indexes.contains(idx),
{
    let n = indexes.len() as int;
    let all = vstd::set_lib::set_int_range(0, n);
    vstd::set_lib::lemma_int_range(0, n);
    indexes.unique_seq_to_set();
    if !indexes.contains(idx) {
        assert(indexes.to_set().subset_of(all.remove(idx)));
        vstd::set_lib::lemma_len_subset(indexes.to_set(), all.remove(idx));
        assert(false);
    }
}

proof fn lemma_none_missing<B: Backend>(bindings: Seq<BindingView<B>>, n: nat)
    requires
        forall|idx: u32| idx < n ==> (#[trigger] slot(bindings, idx)) is Some,
        n <= u32::MAX,
    ensures
        first_missing(bindings, n) is None,
    decreases n,
{
    if n > 0 {
        lemma_none_missing(bindings, (n - 1) as nat);
        assert(slot(bindings, (n - 1) as u32) is Some);
    }
}

/// A node that was accepted with no slot bound twice has every slot of its
/// shader bound, in the slot's mode, and the bytes of its meta tensors at hand:
/// running it lacks no binding.
pub proof fn law_accepted_nodes_lack_no_binding<'a, B: Backend>(
    layout: Seq<TensorMode>,
    bindings: Seq<TensorBind<'a, B>>,
    readbacks: Seq<Vec<u8>>,
    idx: u32,
)
    requires
        layout.len() <= u32::MAX,
        layout_fault(layout, bindings) is None,
        forall|j: int, k: int|
            0 <= j < k < bindings.len() ==> (#[trigger] bindings[j]).binding != (
            #[trigger] bindings[k]).binding,
        idx < layout.len(),
    ensures
        first_missing(cuda_bindings(bindings, readbacks), layout.len()) is None,
        slot(cuda_bindings(bindings, readbacks), idx) is Some,
        held(cuda_bindings(bindings, readbacks), idx).binding == idx,
        held(cuda_bindings(bindings, readbacks), idx).mode == layout[idx as int],
        held(cuda_bindings(bindings, readbacks), idx).cached_meta is Some <==> layout[idx as int]
            == TensorMode::Meta,
{
    law_fitting_bindings(layout, bindings);
    let held_bindings = cuda_bindings(bindings, readbacks);
    let indexes = Seq::new(bindings.len(), |i: int| bindings[i].binding as int);
    assert(indexes.no_duplicates()) by {
        assert forall|i: int, j: int|
            (0 <= i < indexes.len() && 0 <= j < indexes.len() && i != j) implies indexes[i]
            != indexes[j] by {
            if i < j {
                assert(bindings[i].binding != bindings[j].binding);
            } else {
                assert(bindings[j].binding != bindings[i].binding);
            }
        }
    }
    assert forall|j: int, k: int| 0 <= j < k < held_bindings.len() implies (
    #[trigger] held_bindings[j]).binding != (#[trigger] held_bindings[k]).binding by {
        assert(bindings[j].binding != bindings[k].binding);
    }
    assert forall|i: int| 0 <= i < indexes.len() implies 0 <= #[trigger] indexes[i]
        < indexes.len() by {
        assert(bindings[i].binding < layout.len());
    }
    assert forall|any: u32| any < layout.len() implies (#[trigger] slot(
        held_bindings,
        any,
    )) matches Some(b) && b.binding == any && b.mode == layout[any as int] && (b.cached_meta
        is Some <==> b.mode == TensorMode::Meta) by {
        lemma_all_indexes_occur(indexes, any as int);
        let i = choose|i: int| 0 <= i < indexes.len() && indexes[i] == any as int;
        lemma_slot_of_position(held_bindings, i);
        assert(held_bindings[i].binding == any);
        assert(bindings[i].binding == any);
    }
    lemma_none_missing(held_bindings, layout.len());
}

/// A node that was accepted for a shader with the slots of its kernel, no slot
/// bound twice, fails at a run only for what its meta tensors hold: their size,
/// or an extent that no grid covers.
pub proof fn law_accepted_nodes_are_ready<'a, B: Backend>(
    kernel: Kernel,
    order: ByteOrder,
    layout: Seq<TensorMode>,
    bindings: Seq<TensorBind<'a, B>>,
    readbacks: Seq<Vec<u8>>,
)
    requires
        layout.len() == kernel.form().slots,
        kernel.form().meta matches Some(meta) ==> layout[meta.slot as int] == TensorMode::Meta,
        layout_fault(layout, bindings) is None,
        forall|j: int, k: int|
            0 <= j < k < bindings.len() ==> (#[trigger] bindings[j]).binding != (
            #[trigger] bindings[k]).binding,
    ensures
        ready_spec(kernel, order, cuda_bindings(bindings, readbacks)) matches Err(e) ==> e
            is MetaNotWords || e is MetaTooShort,
{
    law_accepted_nodes_lack_no_binding(layout, bindings, readbacks, 0);
    match kernel.form().meta {
        Some(meta) => {
            law_accepted_nodes_lack_no_binding(layout, bindings, readbacks, meta.slot);
        },
        None => {},
    }
}

// -------------------------------------------------------- runs on CUDA ---

/// The nodes that run on CUDA, in order.
pub open spec fn cuda_nodes<B: Backend>(nodes: Seq<NodeView<B>>) -> Seq<NodeView<B>>
    decreases nodes.len(),
{
    if nodes.len() == 0 {
        Seq::empty()
    } else if nodes.last() is Cuda {
        cuda_nodes(nodes.drop_last()).push(nodes.last())
    } else {
        cuda_nodes(nodes.drop_last())
    }
}

/// Running a graph step by step meets every node that runs on CUDA, each once
/// and in order: a step at a position goes on to the first such node from there
/// on, and passes over none.
pub proof fn law_steps_meet_every_node<B: Backend>(nodes: Seq<NodeView<B>>, at: int)
    requires
        0 <= at <= nodes.len(),
    ensures
        ({
            let i = next_cuda(nodes, at);
            &&& at <= i <= nodes.len()
            &&& i < nodes.len() ==> nodes[i] is Cuda && cuda_nodes(nodes.take(i + 1))
                == cuda_nodes(nodes.take(at)).push(nodes[i])
            &&& i == nodes.len() ==> cuda_nodes(nodes.take(at)) == cuda_nodes(nodes)
        }),
    decreases nodes.len() - at,
{
    if at == nodes.len() {
        assert(nodes.take(at) =~= nodes);
    } else {
        assert(nodes.take(at + 1).drop_last() =~= nodes.take(at));
        assert(nodes.take(at + 1).last() == nodes[at]);
        if !(nodes[at] is Cuda) {
            law_steps_meet_every_node(nodes, at + 1);
        }
    }
}

proof fn lemma_cuda_nodes_of_concatenation<B: Backend>(
    first: Seq<NodeView<B>>,
    second: Seq<NodeView<B>>,
)
    ensures
        cuda_nodes(first + second) == cuda_nodes(first) + cuda_nodes(second),
    decreases second.len(),
{
    if second.len() == 0 {
        assert(first + second =~= first);
        assert(cuda_nodes(first) + cuda_nodes(second) =~= cuda_nodes(first));
    } else {
        lemma_cuda_nodes_of_concatenation(first, second.drop_last());
        assert((first + second).drop_last() =~= first + second.drop_last());
        assert((first + second).last() == second.last());
        assert(cuda_nodes(first + second) =~= cuda_nodes(first) + cuda_nodes(second));
    }
}

/// The nodes that run on CUDA of each of the graphs, one graph after the other.
pub open spec fn cuda_nodes_in_turn<B: Backend>(graphs: Seq<GraphView<B>>) -> Seq<NodeView<B>>
    decreases graphs.len(),
{
    if graphs.len() == 0 {
        Seq::empty()
    } else {
        cuda_nodes_in_turn(graphs.drop_last()) + cuda_nodes(graphs.last().nodes)
    }
}

/// Running a fused graph on CUDA runs exactly the nodes that running the graphs
/// in turn would, in the same order.
pub proof fn law_fused_cuda_nodes<B: Backend>(graphs: Seq<GraphView<B>>)
    ensures
        cuda_nodes(fused_nodes(graphs)) == cuda_nodes_in_turn(graphs),
    decreases graphs.len(),
{
    if graphs.len() > 0 {
        law_fused_cuda_nodes(graphs.drop_last());
        lemma_cuda_nodes_of_concatenation(fused_nodes(graphs.drop_last()), graphs.last().nodes);
    }
}

/// Only the optimizer's settings are read back at a run: what any other node
/// does is fixed when it is added, whatever its meta tensors hold later.
pub proof fn law_meta_is_fixed_when_added<B: Backend>(
    order: ByteOrder,
    node: NodeView<B>,
    live: Option<Seq<u8>>,
)
    requires
        node is Cuda,
        op_named(node->Cuda_name) != Some(CudaOp::Launch(Kernel::AdamW)),
    ensures
        node_action(order, node, live) == node_action(order, node, None),
        !(node_action(order, node, live) matches Ok(CudaActionView::ReadMeta(_))),
{
}

/// Once the bytes that a node asked for were read back, it is run or it fails;
/// it does not ask again.
pub proof fn law_one_readback_is_enough<B: Backend>(
    order: ByteOrder,
    node: NodeView<B>,
    bytes: Seq<u8>,
)
    ensures
        !(node_action(order, node, Some(bytes)) matches Ok(CudaActionView::ReadMeta(_))),
        !(node_action(order, node, Some(bytes)) matches Ok(CudaActionView::Finished)),
{
}

/// The optimizer takes its settings from the bytes that were read back for this
/// run: the step number, then the bits of the learning rate, of the two decay
/// rates, of epsilon and of the weight decay.
pub proof fn law_adamw_takes_live_settings<B: Backend>(
    env: LaunchEnv,
    bindings: Seq<BindingView<B>>,
    bytes: Seq<u8>,
    k: int,
)
    requires
        kernel_action(Kernel::AdamW, env, bindings, Some(bytes)) is Ok,
        0 <= k < 6,
    ensures
        kernel_action(Kernel::AdamW, env, bindings, Some(bytes)) matches Ok(
            CudaActionView::Launch(launch),
        ) && {
            let word = word_at(
                env.order,
                tensor_bytes(bytes, held(bindings, 5).size),
                k,
            );
            launch.args[5 + k] == (if k == 0 {
                KernelArg::<B>::U32(word)
            } else {
                KernelArg::<B>::F32(word)
            })
        },
{
}

/// Whether two lists of bindings differ at most in the bytes cached at one slot.
pub open spec fn same_but_for_cached<B: Backend>(
    first: Seq<BindingView<B>>,
    second: Seq<BindingView<B>>,
    idx: u32,
) -> bool {
    &&& first.len() == second.len()
    &&& forall|i: int|
        0 <= i < first.len() ==> {
            ||| #[trigger] first[i] == second[i]
            ||| first[i].binding == idx && second[i] == (BindingView {
                cached_meta: second[i].cached_meta,
                ..first[i]
            })
        }
}

proof fn lemma_slots_agree<B: Backend>(
    first: Seq<BindingView<B>>,
    second: Seq<BindingView<B>>,
    changed: u32,
    idx: u32,
)
    requires
        same_but_for_cached(first, second, changed),
    ensures
        idx != changed ==> slot(first, idx) == slot(second, idx),
        slot(first, idx) is Some <==> slot(second, idx) is Some,
        slot(first, idx) is Some ==> held(first, idx).slice == held(second, idx).slice && held(
            first,
            idx,
        ).size == held(second, idx).size,
    decreases first.len(),
{
    if first.len() > 0 {
        assert(first[0] == second[0] || (first[0].binding == changed && second[0] == (
        BindingView { cached_meta: second[0].cached_meta, ..first[0] })));
        assert forall|i: int| 0 <= i < first.drop_first().len() implies {
            ||| #[trigger] first.drop_first()[i] == second.drop_first()[i]
            ||| first.drop_first()[i].binding == changed && second.drop_first()[i] == (
            BindingView {
                cached_meta: second.drop_first()[i].cached_meta,
                ..first.drop_first()[i]
            })
        } by {
            assert(first.drop_first()[i] == first[i + 1]);
            assert(second.drop_first()[i] == second[i + 1]);
        }
        lemma_slots_agree(first.drop_first(), second.drop_first(), changed, idx);
    }
}

/// What was cached of the optimizer's settings when the node was added never
/// counts.
pub proof fn law_adamw_ignores_cached_settings<B: Backend>(
    env: LaunchEnv,
    first: Seq<BindingView<B>>,
    second: Seq<BindingView<B>>,
    live: Option<Seq<u8>>,
)
    requires
        same_but_for_cached(first, second, 5),
    ensures
        kernel_action(Kernel::AdamW, env, first, live) == kernel_action(
            Kernel::AdamW,
            env,
            second,
            live,
        ),
{
    lemma_slots_agree(first, second, 5, 0);
    lemma_slots_agree(first, second, 5, 1);
    lemma_slots_agree(first, second, 5, 2);
    lemma_slots_agree(first, second, 5, 3);
    lemma_slots_agree(first, second, 5, 4);
    lemma_slots_agree(first, second, 5, 5);
    reveal_with_fuel(first_missing, 7);
    let forms = Kernel::AdamW.form().args;
    match ready_spec(Kernel::AdamW, env.order, first) {
        Ok(found) => {
            match live {
                Some(bytes) => {
                    match fields_spec(env.order, tensor_bytes(bytes, held(first, 5).size), 6) {
                        Ok(settings) => {
                            assert(args_spec(forms, first, found, settings)
                                =~= args_spec(forms, second, found, settings));
                        },
                        Err(_) => {},
                    }
                },
                None => {},
            }
        },
        Err(_) => {},
    }
}

// ---------------------------------------------------------------- grids ---

/// Blocks cover the whole extent, and none of them is idle.
pub proof fn law_blocks_cover(extent: u32, per: u32)
    requires
        per > 0,
    ensures
        match blocks_spec(extent, per) {
            Ok(count) => (count - 1) * per < extent <= count * per,
            Err(e) => e == (DispatchError::GridOverflow { extent }) && extent > u32::MAX - (per
                - 1),
        },
{
    let total = extent + (per - 1);
    let count = total / (per as int);
    assert(count * per <= total < count * per + per) by (nonlinear_arith)
        requires
            per > 0,
            count == total / (per as int),
    ;
    assert(0 <= count <= total) by (nonlinear_arith)
        requires
            per > 0,
            total >= 0,
            count == total / (per as int),
    ;
    assert((count - 1) * per == count * per - per) by (nonlinear_arith);
}

/// A row of threads has one for each item, and less than one block too many.
pub proof fn law_items_get_a_thread_each(n: u32)
    ensures
        match cfg_1d_spec(n) {
            Ok(config) => {
                let threads = config.grid_dim.0 * config.block_dim.0;
                n <= threads < n + 256
            },
            Err(_) => n > u32::MAX - 255,
        },
{
    law_blocks_cover(n, 256);
}

/// Every launch has blocks of 256 threads and asks for no shared memory.
pub proof fn law_blocks_have_256_threads<B: Backend>(
    grid: GridForm,
    bindings: Seq<BindingView<B>>,
    workgroups: [u32; 3],
    found: Seq<u32>,
)
    ensures
        config_spec(grid, bindings, workgroups, found) matches Ok(config) ==> {
            &&& config.block_dim.0 * config.block_dim.1 * config.block_dim.2 == 256
            &&& config.grid_dim.2 == 1
            &&& config.shared_mem_bytes == 0
        },
{
}

/// Tiles cover the whole area.
pub proof fn law_tiles_cover<B: Backend>(
    width: int,
    halved: bool,
    height: int,
    bindings: Seq<BindingView<B>>,
    workgroups: [u32; 3],
    found: Seq<u32>,
)
    ensures
        config_spec(
            GridForm::Tiles { width, halved, height },
            bindings,
            workgroups,
            found,
        ) matches Ok(config) ==> {
            &&& config.grid_dim.0 * config.block_dim.0 >= (if halved {
                (found[width] / 2) as int
            } else {
                found[width] as int
            })
            &&& config.grid_dim.1 * config.block_dim.1 >= found[height]
            &&& config.grid_dim.0 >= 1
            &&& config.grid_dim.1 >= 1
        },
{
    law_blocks_cover(
        if halved {
            found[width] / 2
        } else {
            found[width]
        },
        16,
    );
    law_blocks_cover(found[height], 16);
}

} // verus!
