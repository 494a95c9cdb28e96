//! Building, fusing and executing graphs.
use std::sync::Arc;

use wilupgu::backend::Backend;
use wilupgu::cache::{KernelCache, KernelStep, PipelineCache};
use wilupgu::context::{Maintain, SubmitCounter, WgpuContext};
use wilupgu::graph::fuse::fuse_compute_graphs;
use wilupgu::graph::kernels::Kernel;
use wilupgu::graph::{
    ComputeGraph, ComputeNode, Execution, LayoutEntry, NodeAction, NodeError, NodeEvent, ShaderDef,
    TensorBind, TensorMode,
};
use wilupgu::tensor::{Tensor, TensorStorage};

struct Fake;

impl Backend for Fake {
    type WgpuDevice = ();
    type CudaContext = ();
    type Buffer = u32;
    type BindGroupLayout = u32;
    type ComputePipeline = u32;
    type BindGroup = u32;
    type CudaSlice = u32;
    type CudaFunction = u32;
}

fn wgpu_ctx() -> Arc<WgpuContext<Fake>> {
    Arc::new(WgpuContext::new(()))
}

fn cuda_ctx() -> Arc<WgpuContext<Fake>> {
    Arc::new(WgpuContext::Cuda(Arc::new(())))
}

fn buffer(id: u32, size: u64) -> Tensor<Fake> {
    Tensor::new(wgpu_ctx(), size, TensorStorage::Wgpu(Arc::new(id)))
}

fn slice(id: u32, size: u64) -> Tensor<Fake> {
    Tensor::new(cuda_ctx(), size, TensorStorage::Cuda(Arc::new(id)))
}

fn bind<'a>(binding: u32, tensor: &'a Tensor<Fake>, mode: TensorMode) -> TensorBind<'a, Fake> {
    TensorBind { binding, tensor, mode }
}

fn softmax() -> ShaderDef {
    ShaderDef::new("Softmax", "// wgsl", vec![TensorMode::InOut, TensorMode::Meta])
}

/// Adds a node on wgpu, compiling pipeline `compiled` if asked to, and says
/// whether it was asked to.
fn add_wgpu(
    graph: &mut ComputeGraph<Fake>,
    cache: &mut PipelineCache<Fake>,
    shader: &ShaderDef,
    bindings: &[TensorBind<Fake>],
    compiled: u32,
    bind_group: u32,
) -> bool {
    let mut asked = false;
    let mut event = NodeEvent::Begin;
    loop {
        match graph.add_node(cache, shader, bindings, [compiled, 2, 3], event) {
            Ok(NodeAction::Compile(_)) => {
                asked = true;
                event = NodeEvent::Compiled {
                    layout: Arc::new(compiled + 1),
                    pipeline: Arc::new(compiled),
                };
            }
            Ok(NodeAction::Bind { pipeline, .. }) => {
                event = NodeEvent::Bound { pipeline, bind_group: Arc::new(bind_group) };
            }
            Ok(NodeAction::Added) => return asked,
            Ok(NodeAction::ReadMeta(_)) => panic!("wgpu has nothing to read back"),
            Err(e) => panic!("{}", e.message(&shader.name)),
        }
    }
}

#[test]
fn a_shader_keeps_what_it_is_made_of() {
    let shader = ShaderDef::new("Add", "fn main() {}", vec![TensorMode::InOut, TensorMode::Input]);
    assert_eq!(shader.name, "Add");
    assert_eq!(shader.source, "fn main() {}");
    assert_eq!(shader.expected_layout, vec![TensorMode::InOut, TensorMode::Input]);
}

#[test]
fn modes_and_what_they_allow() {
    assert!(TensorMode::Input.read_only());
    assert!(TensorMode::Meta.read_only());
    assert!(!TensorMode::Output.read_only());
    assert!(!TensorMode::InOut.read_only());
    for mode in [TensorMode::Input, TensorMode::Output, TensorMode::InOut, TensorMode::Meta] {
        assert_eq!(mode.name(), format!("{:?}", mode));
    }
}

#[test]
fn fitting_bindings_are_accepted_in_any_order() {
    let (x, m) = (buffer(1, 8), buffer(2, 4));
    let shader = softmax();
    let there = [bind(0, &x, TensorMode::InOut), bind(1, &m, TensorMode::Meta)];
    let back = [bind(1, &m, TensorMode::Meta), bind(0, &x, TensorMode::InOut)];
    assert_eq!(shader.check(&there), Ok(()));
    assert_eq!(shader.check(&back), Ok(()));
}

#[test]
fn another_number_of_bindings_is_refused() {
    let x = buffer(1, 8);
    let shader = softmax();
    let e = shader.check(&[bind(0, &x, TensorMode::InOut)]).unwrap_err();
    assert_eq!(e, NodeError::BindingCount { expected: 2, provided: 1 });
    assert_eq!(
        e.message(&shader.name),
        "[ERROR] Shader Binding Mismatch: Shader 'Softmax' expects 2 tensors, but 1 were provided."
    );
}

#[test]
fn another_mode_is_refused() {
    let (x, m) = (buffer(1, 8), buffer(2, 4));
    let shader = softmax();
    let bindings = [bind(0, &x, TensorMode::InOut), bind(1, &m, TensorMode::Input)];
    let e = shader.check(&bindings).unwrap_err();
    assert_eq!(
        e.message(&shader.name),
        "[ERROR] Tensor Mode Mismatch: In shader 'Softmax', binding 1 expects Meta, but Input was provided."
    );
}

#[test]
fn a_slot_out_of_range_is_refused() {
    let (x, m) = (buffer(1, 8), buffer(2, 4));
    let shader = softmax();
    let bindings = [bind(0, &x, TensorMode::InOut), bind(2, &m, TensorMode::Meta)];
    let e = shader.check(&bindings).unwrap_err();
    assert_eq!(e, NodeError::BindingIndex { slots: 2, binding: 2 });
    assert_eq!(e.message(&shader.name), "index out of bounds: the len is 2 but the index is 2");
}

#[test]
fn the_first_misfit_is_reported() {
    let (x, m) = (buffer(1, 8), buffer(2, 4));
    let shader = softmax();
    let bindings = [bind(1, &m, TensorMode::Output), bind(7, &x, TensorMode::InOut)];
    assert!(matches!(
        shader.check(&bindings),
        Err(NodeError::ModeMismatch {
            binding: 1,
            slot_mode: TensorMode::Meta,
            bound_mode: TensorMode::Output,
        })
    ));
}

#[test]
fn misfits_are_refused_on_both_backends() {
    let shader = softmax();
    for ctx in [wgpu_ctx(), cuda_ctx()] {
        let mut graph = ComputeGraph::new(ctx);
        let mut cache = PipelineCache::new();
        let refused = graph.add_node(&mut cache, &shader, &[], [1, 1, 1], NodeEvent::Begin);
        assert!(matches!(refused, Err(NodeError::BindingCount { expected: 2, provided: 0 })));
        assert!(graph.nodes().is_empty());
    }
}

#[test]
fn a_new_shader_is_compiled_with_its_labels_and_layout() {
    let (x, m) = (buffer(1, 8), buffer(2, 4));
    let shader = softmax();
    let bindings = [bind(0, &x, TensorMode::InOut), bind(1, &m, TensorMode::Meta)];
    let mut graph = ComputeGraph::new(wgpu_ctx());
    let mut cache = PipelineCache::new();
    match graph.add_node(&mut cache, &shader, &bindings, [4, 1, 1], NodeEvent::Begin) {
        Ok(NodeAction::Compile(request)) => {
            assert_eq!(request.shader_label, "Softmax_Shader");
            assert_eq!(request.source, "// wgsl");
            assert_eq!(request.layout_label, "Softmax_Layout");
            assert_eq!(request.pipeline_layout_label, "Softmax_PipelineLayout");
            assert_eq!(request.pipeline_label, "Softmax_Pipeline");
            assert_eq!(request.entry_point, "main");
            assert_eq!(
                request.entries,
                vec![
                    LayoutEntry { binding: 0, read_only: false },
                    LayoutEntry { binding: 1, read_only: true },
                ]
            );
        }
        _ => panic!("nothing was to be compiled"),
    }
    let event = NodeEvent::Compiled { layout: Arc::new(20), pipeline: Arc::new(10) };
    match graph.add_node(&mut cache, &shader, &bindings, [4, 1, 1], event) {
        Ok(NodeAction::Bind { layout, pipeline, request }) => {
            assert_eq!((*layout, *pipeline), (20, 10));
            assert_eq!(request.label, "Softmax_BindGroup");
            let entries: Vec<(u32, u32)> =
                request.entries.iter().map(|e| (e.binding, *e.buffer)).collect();
            assert_eq!(entries, vec![(0, 1), (1, 2)]);
        }
        _ => panic!("nothing was to be bound"),
    }
    assert_eq!(cache.lookup("Softmax").map(|(l, p)| (*l, *p)), Some((20, 10)));
    assert!(cache.lookup("SoftmaxBwd").is_none());
    let event = NodeEvent::Bound { pipeline: Arc::new(10), bind_group: Arc::new(30) };
    let added = graph.add_node(&mut cache, &shader, &bindings, [4, 1, 1], event);
    assert!(matches!(added, Ok(NodeAction::Added)));
    match &graph.nodes()[0] {
        ComputeNode::Wgpu { name, pipeline, bind_group, workgroups } => {
            assert_eq!(name, "Softmax");
            assert_eq!((**pipeline, **bind_group), (10, 30));
            assert_eq!(*workgroups, [4, 1, 1]);
        }
        ComputeNode::Cuda { .. } => panic!("not a wgpu node"),
    }
}

#[test]
fn a_shader_is_compiled_once_per_name() {
    let (x, m) = (buffer(1, 8), buffer(2, 4));
    let bindings = [bind(0, &x, TensorMode::InOut), bind(1, &m, TensorMode::Meta)];
    let other = ShaderDef::new("Softmax", "// other", softmax().expected_layout);
    let mut cache = PipelineCache::new();
    let mut first = ComputeGraph::new(wgpu_ctx());
    let mut second = ComputeGraph::new(wgpu_ctx());
    assert!(add_wgpu(&mut first, &mut cache, &softmax(), &bindings, 10, 30));
    assert!(!add_wgpu(&mut first, &mut cache, &softmax(), &bindings, 11, 31));
    assert!(!add_wgpu(&mut second, &mut cache, &other, &bindings, 12, 32));
    for (graph, count) in [(&first, 2), (&second, 1)] {
        assert_eq!(graph.nodes().len(), count);
        for node in graph.nodes() {
            assert!(matches!(node, ComputeNode::Wgpu { pipeline, .. } if **pipeline == 10));
        }
    }
}

#[test]
fn a_cuda_tensor_in_a_wgpu_graph_is_refused() {
    let (x, m) = (buffer(1, 8), slice(2, 4));
    let shader = softmax();
    let bindings = [bind(0, &x, TensorMode::InOut), bind(1, &m, TensorMode::Meta)];
    let mut graph = ComputeGraph::new(wgpu_ctx());
    let mut cache = PipelineCache::new();
    let event = NodeEvent::Compiled { layout: Arc::new(20), pipeline: Arc::new(10) };
    let e = match graph.add_node(&mut cache, &shader, &bindings, [1, 1, 1], event) {
        Err(e) => e,
        Ok(_) => panic!("accepted"),
    };
    assert_eq!(e.message("Softmax"), "[wilupgu] wgpu graph received a CUDA-backed tensor");
    assert!(cache.lookup("Softmax").is_some());
    assert!(graph.nodes().is_empty());
}

#[test]
fn a_wgpu_tensor_in_a_cuda_graph_is_refused() {
    let (x, m) = (slice(1, 8), buffer(2, 4));
    let shader = softmax();
    let bindings = [bind(0, &x, TensorMode::InOut), bind(1, &m, TensorMode::Meta)];
    let mut graph = ComputeGraph::new(cuda_ctx());
    let mut cache = PipelineCache::new();
    for event in [NodeEvent::Begin, NodeEvent::Readback(vec![vec![], vec![]])] {
        let e = match graph.add_node(&mut cache, &shader, &bindings, [1, 1, 1], event) {
            Err(e) => e,
            Ok(_) => panic!("accepted"),
        };
        assert_eq!(e.message("Softmax"), "[wilupgu] CUDA graph received a wgpu-backed tensor");
    }
    assert!(graph.nodes().is_empty());
}

#[test]
fn a_cuda_node_keeps_the_bytes_of_its_meta_tensors() {
    let (x, m) = (slice(1, 8), slice(2, 6));
    let shader = softmax();
    let bindings = [bind(0, &x, TensorMode::InOut), bind(1, &m, TensorMode::Meta)];
    let mut graph = ComputeGraph::new(cuda_ctx());
    let mut cache = PipelineCache::new();
    match graph.add_node(&mut cache, &shader, &bindings, [5, 6, 7], NodeEvent::Begin) {
        Ok(NodeAction::ReadMeta(slices)) => {
            let ids: Vec<Option<u32>> = slices.iter().map(|s| s.as_ref().map(|s| **s)).collect();
            assert_eq!(ids, vec![None, Some(2)]);
        }
        _ => panic!("nothing was to be read back"),
    }
    let event = NodeEvent::Readback(vec![vec![9; 8], vec![1, 2, 3, 4, 5, 6, 7, 8]]);
    let added = graph.add_node(&mut cache, &shader, &bindings, [5, 6, 7], event);
    assert!(matches!(added, Ok(NodeAction::Added)));
    match &graph.nodes()[0] {
        ComputeNode::Cuda { name, bindings, workgroups } => {
            assert_eq!(name, "Softmax");
            assert_eq!(*workgroups, [5, 6, 7]);
            assert_eq!((bindings[0].binding, *bindings[0].slice, bindings[0].size), (0, 1, 8));
            assert_eq!(bindings[0].mode, TensorMode::InOut);
            assert_eq!(bindings[0].cached_meta, None);
            assert_eq!((bindings[1].binding, *bindings[1].slice, bindings[1].size), (1, 2, 6));
            assert_eq!(bindings[1].mode, TensorMode::Meta);
            assert_eq!(bindings[1].cached_meta, Some(vec![1, 2, 3, 4, 5, 6]));
        }
        ComputeNode::Wgpu { .. } => panic!("not a CUDA node"),
    }
}

fn wgpu_graph(cache: &mut PipelineCache<Fake>, bind_groups: &[u32]) -> ComputeGraph<Fake> {
    let (x, m) = (buffer(1, 8), buffer(2, 4));
    let bindings = [bind(0, &x, TensorMode::InOut), bind(1, &m, TensorMode::Meta)];
    let mut graph = ComputeGraph::new(wgpu_ctx());
    for id in bind_groups {
        add_wgpu(&mut graph, cache, &softmax(), &bindings, 10, *id);
    }
    graph
}

fn dispatched(graph: &ComputeGraph<Fake>) -> Vec<u32> {
    match graph.execute(&mut SubmitCounter::new()) {
        Execution::Wgpu(request) => {
            assert_eq!(request.encoder_label, "Wilupgu_Execute_Encoder");
            assert_eq!(request.pass_label, "Wilupgu_Compute_Pass");
            assert_eq!(request.maintain, Maintain::Poll);
            for dispatch in &request.dispatches {
                assert_eq!(*dispatch.pipeline, 10);
                assert_eq!(dispatch.workgroups, [10, 2, 3]);
            }
            request.dispatches.iter().map(|d| *d.bind_group).collect()
        }
        Execution::Cuda => panic!("not a wgpu execution"),
    }
}

#[test]
fn a_graph_dispatches_its_nodes_in_order() {
    let mut cache = PipelineCache::new();
    let graph = wgpu_graph(&mut cache, &[30, 31, 32]);
    assert_eq!(dispatched(&graph), vec![30, 31, 32]);
    assert_eq!(dispatched(&graph), vec![30, 31, 32]);
    assert_eq!(dispatched(&ComputeGraph::new(wgpu_ctx())), Vec::<u32>::new());
}

#[test]
fn a_fused_graph_dispatches_the_graphs_in_turn() {
    let mut cache = PipelineCache::new();
    let first = wgpu_graph(&mut cache, &[30, 31]);
    let second = wgpu_graph(&mut cache, &[]);
    let third = wgpu_graph(&mut cache, &[32]);
    let fused = fuse_compute_graphs(wgpu_ctx(), &[&first, &second, &third, &first]);
    assert_eq!(dispatched(&fused), vec![30, 31, 32, 30, 31]);
    let both = fuse_compute_graphs(wgpu_ctx(), &[&first, &third]);
    let twice = fuse_compute_graphs(wgpu_ctx(), &[&both, &first]);
    assert_eq!(dispatched(&twice), vec![30, 31, 32, 30, 31]);
    assert_eq!(dispatched(&fuse_compute_graphs(wgpu_ctx(), &[&first])), vec![30, 31]);
    assert!(fuse_compute_graphs(wgpu_ctx(), &[]).nodes().is_empty());
}

#[test]
fn a_cuda_graph_is_run_node_by_node() {
    let mut counter = SubmitCounter::new();
    assert!(matches!(ComputeGraph::new(cuda_ctx()).execute(&mut counter), Execution::Cuda));
}

#[test]
fn every_second_execution_waits_for_the_device() {
    let mut cache = PipelineCache::new();
    let first = wgpu_graph(&mut cache, &[30]);
    let second = wgpu_graph(&mut cache, &[]);
    let cuda = ComputeGraph::<Fake>::new(cuda_ctx());
    let mut counter = SubmitCounter::new();
    let mut seen = Vec::new();
    for graph in [&first, &second, &cuda, &first, &cuda, &cuda, &second, &first] {
        match graph.execute(&mut counter) {
            Execution::Wgpu(request) => seen.push(request.maintain),
            Execution::Cuda => {}
        }
    }
    assert_eq!(
        seen,
        vec![Maintain::Poll, Maintain::Wait, Maintain::Poll, Maintain::Wait, Maintain::Poll]
    );
    assert_eq!(counter.record(), Maintain::Wait);
}

#[test]
fn fused_cuda_nodes_keep_slices_and_meta() {
    let (x, m) = (slice(1, 8), slice(2, 4));
    let bindings = [bind(0, &x, TensorMode::InOut), bind(1, &m, TensorMode::Meta)];
    let mut graph = ComputeGraph::new(cuda_ctx());
    let mut cache = PipelineCache::new();
    let event = NodeEvent::Readback(vec![vec![], vec![3, 0, 0, 0]]);
    assert!(graph.add_node(&mut cache, &softmax(), &bindings, [1, 1, 1], event).is_ok());
    let fused = fuse_compute_graphs(wgpu_ctx(), &[&graph, &graph]);
    assert_eq!(fused.nodes().len(), 2);
    for node in fused.nodes() {
        match node {
            ComputeNode::Cuda { name, bindings, .. } => {
                assert_eq!(name, "Softmax");
                assert_eq!((*bindings[0].slice, *bindings[1].slice), (1, 2));
                assert_eq!(bindings[1].cached_meta, Some(vec![3, 0, 0, 0]));
            }
            ComputeNode::Wgpu { .. } => panic!("not a CUDA node"),
        }
    }
    assert_eq!(dispatched(&fused), Vec::<u32>::new());
    assert!(!fused.ctx().is_cuda());
}

#[test]
fn a_kernel_is_compiled_once() {
    let mut cache = KernelCache::<Fake>::new();
    assert!(matches!(
        cache.get_or_compile(Kernel::Rope, None),
        KernelStep::Compile { key: "rope", function: "rope_kernel" }
    ));
    let kept = cache.get_or_compile(Kernel::Rope, Some(Arc::new(5)));
    assert!(matches!(kept, KernelStep::Ready(f) if *f == 5));
    let again = cache.get_or_compile(Kernel::Rope, None);
    assert!(matches!(again, KernelStep::Ready(f) if *f == 5));
    let late = cache.get_or_compile(Kernel::Rope, Some(Arc::new(6)));
    assert!(matches!(late, KernelStep::Ready(f) if *f == 5));
    let still = cache.get_or_compile(Kernel::Rope, None);
    assert!(matches!(still, KernelStep::Ready(f) if *f == 5));
    assert!(matches!(
        cache.get_or_compile(Kernel::RopeBwd, None),
        KernelStep::Compile { key: "rope_bwd", .. }
    ));
}

#[test]
fn compiled_pipelines_stay_when_others_are_added() {
    let (x, m) = (buffer(1, 8), buffer(2, 4));
    let bindings = [bind(0, &x, TensorMode::InOut), bind(1, &m, TensorMode::Meta)];
    let mut cache = PipelineCache::new();
    let mut graph = ComputeGraph::new(wgpu_ctx());
    assert!(add_wgpu(&mut graph, &mut cache, &softmax(), &bindings, 10, 30));
    let rope = ShaderDef::new("RoPE", "// rope", softmax().expected_layout);
    assert!(add_wgpu(&mut graph, &mut cache, &rope, &bindings, 40, 31));
    assert_eq!(cache.lookup("Softmax").map(|(l, p)| (*l, *p)), Some((11, 10)));
    assert_eq!(cache.lookup("RoPE").map(|(l, p)| (*l, *p)), Some((41, 40)));
    assert_eq!(graph.nodes().len(), 2);
}
