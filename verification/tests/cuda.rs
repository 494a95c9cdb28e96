//! Running the nodes of CUDA graphs.
use std::sync::Arc;

use wilupgu::backend::Backend;
use wilupgu::bytes::ByteOrder;
use wilupgu::cache::PipelineCache;
use wilupgu::context::WgpuContext;
use wilupgu::graph::cuda_exec::{
    cfg_1d, elem_count, execute_cuda_graph, find, meta_fields, meta_u32, CudaAction, DispatchError,
    GemmOp, KernelArg,
};
use wilupgu::graph::fuse_compute_graphs;
use wilupgu::graph::kernels::{CudaOp, Kernel};
use wilupgu::graph::{
    ComputeGraph, ComputeNode, CudaNodeBinding, NodeAction, NodeEvent, ShaderDef, TensorBind,
    TensorMode,
};
use wilupgu::tensor::{Tensor, TensorStorage};

struct Fake;

impl Backend for Fake {
    type WgpuDevice = ();
    type CudaContext = ();
    type Buffer = u32;
    type BindGroupLayout = u32;
    type ComputePipeline = u32;
    type BindGroup = u32;
    type CudaSlice = u32;
    type CudaFunction = u32;
}

const LE: ByteOrder = ByteOrder::Little;

fn le(words: &[u32]) -> Vec<u8> {
    words.iter().flat_map(|w| w.to_le_bytes()).collect()
}

fn data(binding: u32, size: u64) -> CudaNodeBinding<Fake> {
    CudaNodeBinding {
        binding,
        slice: Arc::new(100 + binding),
        mode: TensorMode::InOut,
        size,
        cached_meta: None,
    }
}

fn meta(binding: u32, bytes: Vec<u8>) -> CudaNodeBinding<Fake> {
    CudaNodeBinding {
        binding,
        slice: Arc::new(100 + binding),
        mode: TensorMode::Meta,
        size: bytes.len() as u64,
        cached_meta: Some(bytes),
    }
}

/// A node of this shader with `tensors` tensors and then the meta words.
fn node(name: &str, tensors: u32, words: &[u32]) -> ComputeNode<Fake> {
    let mut bindings: Vec<CudaNodeBinding<Fake>> = (0..tensors).map(|i| data(i, 4000)).collect();
    if !words.is_empty() {
        bindings.push(meta(tensors, le(words)));
    }
    ComputeNode::Cuda { name: name.to_string(), bindings, workgroups: [3, 1, 1] }
}

fn show(args: &[KernelArg<Fake>]) -> Vec<String> {
    args.iter()
        .map(|arg| match arg {
            KernelArg::Read(slice) => format!("r{}", slice),
            KernelArg::Write(slice) => format!("w{}", slice),
            KernelArg::U32(n) => format!("{}", n),
            KernelArg::F32(bits) => format!("{:?}", f32::from_bits(*bits)),
        })
        .collect()
}

/// Runs one node and checks the kernel, the grid, the block and the arguments.
fn launches(
    node: ComputeNode<Fake>,
    kernel: Kernel,
    grid: (u32, u32, u32),
    block: (u32, u32, u32),
    args: &[&str],
) {
    let nodes = vec![node];
    let step = execute_cuda_graph(LE, &nodes, 0, None);
    assert_eq!(step.at, 1);
    match step.action {
        Ok(CudaAction::Launch(launch)) => {
            assert_eq!(launch.kernel, kernel);
            assert_eq!(launch.config.grid_dim, grid);
            assert_eq!(launch.config.block_dim, block);
            assert_eq!(launch.config.shared_mem_bytes, 0);
            assert_eq!(show(&launch.args), args);
        }
        Err(e) => panic!("{}", e.message("node")),
        _ => panic!("not a launch"),
    }
}

fn fails(node: ComputeNode<Fake>) -> DispatchError {
    let nodes = vec![node];
    let step = execute_cuda_graph(LE, &nodes, 0, None);
    assert_eq!(step.at, 0);
    match step.action {
        Err(e) => e,
        Ok(_) => panic!("did not fail"),
    }
}

const ROW: (u32, u32, u32) = (256, 1, 1);
const TILE: (u32, u32, u32) = (16, 16, 1);

#[test]
fn elementwise_kernels() {
    launches(node("SiLU", 1, &[]), Kernel::Silu, (4, 1, 1), ROW, &["w100", "1000"]);
    launches(node("ZeroTensor", 1, &[]), Kernel::ZeroTensor, (4, 1, 1), ROW, &["w100", "1000"]);
    launches(
        node("SiLUBwd", 3, &[]),
        Kernel::SiluBwd,
        (4, 1, 1),
        ROW,
        &["r100", "r101", "w102", "1000"],
    );
    launches(node("ResidualAdd", 2, &[]), Kernel::Add, (4, 1, 1), ROW, &["w100", "r101", "1000"]);
    launches(
        node("BwdAddInplace", 2, &[]),
        Kernel::BwdAddInplace,
        (4, 1, 1),
        ROW,
        &["w100", "r101", "1000"],
    );
}

#[test]
fn embedding_kernels() {
    let args = ["r100", "r101", "w102", "50257", "768", "128"];
    launches(node("Embedding", 3, &[50257, 768, 128]), Kernel::Embedding, (3, 128, 1), ROW, &args);
    launches(
        node("EmbeddingBwd", 3, &[50257, 768, 128]),
        Kernel::EmbeddingBwd,
        (3, 128, 1),
        ROW,
        &args,
    );
}

#[test]
fn embedding_grids_have_at_least_one_block() {
    let mut empty = node("Embedding", 3, &[10, 4, 0]);
    if let ComputeNode::Cuda { workgroups, .. } = &mut empty {
        *workgroups = [0, 0, 0];
    }
    launches(empty, Kernel::Embedding, (1, 1, 1), ROW, &["r100", "r101", "w102", "10", "4", "0"]);
}

#[test]
fn causal_mask_kernel() {
    launches(
        node("CausalMask", 1, &[17, 0.125f32.to_bits()]),
        Kernel::CausalMask,
        (2, 2, 1),
        TILE,
        &["w100", "17", "0.125"],
    );
}

#[test]
fn head_kernels() {
    let args = ["r100", "w101", "33", "768", "64", "128"];
    launches(node("HeadGather", 2, &[33, 768, 64, 128]), Kernel::HeadGather, (4, 3, 1), TILE, &args);
    launches(
        node("HeadScatter", 2, &[33, 768, 64, 128]),
        Kernel::HeadScatter,
        (4, 3, 1),
        TILE,
        &args,
    );
    launches(
        node("HeadGather", 2, &[0, 0, 0, 0]),
        Kernel::HeadGather,
        (1, 1, 1),
        TILE,
        &["r100", "w101", "0", "0", "0", "0"],
    );
}

#[test]
fn rope_kernels() {
    let args = ["w100", "33", "768", "66"];
    launches(node("RoPE", 1, &[33, 768, 66]), Kernel::Rope, (3, 3, 1), TILE, &args);
    launches(node("RoPEBwd", 1, &[33, 768, 66]), Kernel::RopeBwd, (3, 3, 1), TILE, &args);
}

#[test]
fn softmax_kernels() {
    launches(node("Softmax", 1, &[257]), Kernel::Softmax, (2, 1, 1), ROW, &["w100", "257"]);
    launches(
        node("SoftmaxBwd", 3, &[256, 0.5f32.to_bits()]),
        Kernel::SoftmaxBwd,
        (1, 1, 1),
        ROW,
        &["r100", "r101", "w102", "256", "0.5"],
    );
}

#[test]
fn rmsnorm_kernels() {
    let eps = 1e-5f32.to_bits();
    launches(
        node("RMSNorm", 3, &[2, 4, eps]),
        Kernel::RmsNorm,
        (2, 1, 1),
        ROW,
        &["r100", "r101", "w102", "2", "4", "1e-5"],
    );
    launches(
        node("RMSNormBwd", 5, &[0, 4, eps]),
        Kernel::RmsNormBwd,
        (1, 1, 1),
        ROW,
        &["r100", "r101", "r102", "w103", "w104", "0", "4", "1e-5"],
    );
    launches(
        node("RMSNormWeightBwd", 4, &[2, 768]),
        Kernel::RmsNormWeightBwd,
        (3, 1, 1),
        ROW,
        &["r100", "r101", "r102", "w103", "2", "768"],
    );
}

#[test]
fn cross_entropy_kernels() {
    launches(
        node("CrossEntropy", 4, &[50257, 300]),
        Kernel::CrossEntropy,
        (2, 1, 1),
        ROW,
        &["r100", "r101", "w102", "w103", "50257", "300"],
    );
    launches(
        node("CrossEntropyBwd", 4, &[50257, 300]),
        Kernel::CrossEntropyBwd,
        (2, 1, 1),
        ROW,
        &["r100", "r101", "r102", "w103", "50257", "300"],
    );
}

#[test]
fn matrix_multiplications() {
    let cases = [
        ("MatMul", GemmOp::NoTrans, GemmOp::NoTrans, (3, 2, 5), (3, 5, 3), 0),
        ("MatMulTrp", GemmOp::Trans, GemmOp::NoTrans, (3, 2, 5), (5, 5, 3), 0),
        ("MatMulWeightBwd", GemmOp::NoTrans, GemmOp::Trans, (3, 5, 2), (3, 5, 3), 1),
    ];
    for (name, transa, transb, (m, n, k), (lda, ldb, ldc), beta) in cases {
        let nodes = vec![node(name, 3, &[2, 3, 5])];
        match execute_cuda_graph(LE, &nodes, 0, None).action {
            Ok(CudaAction::Gemm(call)) => {
                assert_eq!((call.transa, call.transb), (transa, transb));
                assert_eq!((call.m, call.n, call.k), (m, n, k));
                assert_eq!((call.lda, call.ldb, call.ldc), (lda, ldb, ldc));
                assert_eq!((call.alpha, call.beta), (1, beta));
                assert_eq!(call.label, if beta == 1 { "MatMulWeightBwd" } else { "MatMul" });
                assert_eq!((*call.a, *call.b, *call.c), (101, 100, 102));
            }
            _ => panic!("not a multiplication"),
        }
    }
}

/// What cuBLAS computes, on integers.
fn column_major_gemm(
    trans: (GemmOp, GemmOp),
    dims: (i32, i32, i32),
    lds: (i32, i32, i32),
    scale: (i32, i32),
    a: &[i32],
    b: &[i32],
    c: &mut [i32],
) {
    for i in 0..dims.0 {
        for j in 0..dims.1 {
            let mut sum = 0;
            for l in 0..dims.2 {
                let x = if trans.0 == GemmOp::NoTrans { i + l * lds.0 } else { l + i * lds.0 };
                let y = if trans.1 == GemmOp::NoTrans { l + j * lds.1 } else { j + l * lds.1 };
                sum += a[x as usize] * b[y as usize];
            }
            let at = (i + j * lds.2) as usize;
            c[at] = scale.0 * sum + scale.1 * c[at];
        }
    }
}

#[test]
fn multiplications_are_row_major_products() {
    // A is 2 by 3, B is 3 by 2 and given transposed as 2 by 3, dC is 2 by 2.
    let a = [1, 2, 3, 4, 5, 6];
    let b = [7, 8, 9, 10, 11, 12];
    let b_trp = [7, 9, 11, 8, 10, 12];
    let dc = [1, 2, 3, 4];
    let cases: [(&str, &[i32], Vec<i32>, Vec<i32>); 3] = [
        ("MatMul", &b, vec![9; 4], vec![58, 64, 139, 154]),
        ("MatMulTrp", &b_trp, vec![9; 4], vec![58, 64, 139, 154]),
        ("MatMulWeightBwd", &dc, vec![100; 6], vec![113, 118, 117, 124, 121, 130]),
    ];
    for (name, second, mut out, expected) in cases {
        let nodes = vec![node(name, 3, &[2, 2, 3])];
        match execute_cuda_graph(LE, &nodes, 0, None).action {
            Ok(CudaAction::Gemm(call)) => {
                column_major_gemm(
                    (call.transa, call.transb),
                    (call.m, call.n, call.k),
                    (call.lda, call.ldb, call.ldc),
                    (call.alpha, call.beta),
                    second,
                    &a,
                    &mut out,
                );
                assert_eq!(out, expected, "{}", name);
            }
            _ => panic!("not a multiplication"),
        }
    }
}

fn settings(step: u32, lr: f32) -> Vec<u8> {
    let rest = [lr, 0.9, 0.999, 1e-8, 0.0].map(f32::to_bits);
    let mut words = vec![step];
    words.extend(rest);
    le(&words)
}

fn adamw() -> ComputeNode<Fake> {
    let mut bindings: Vec<CudaNodeBinding<Fake>> = (0..4).map(|i| data(i, 16)).collect();
    bindings.push(meta(4, le(&[4])));
    bindings.push(meta(5, settings(0, 0.0)));
    ComputeNode::Cuda { name: "AdamW".to_string(), bindings, workgroups: [1, 1, 1] }
}

#[test]
fn adamw_reads_its_settings_at_every_run() {
    let nodes = vec![adamw()];
    for (i, lr) in [0.1f32, 0.01, 0.001].into_iter().enumerate() {
        let step = execute_cuda_graph(LE, &nodes, 0, None);
        assert_eq!(step.at, 0);
        assert!(matches!(step.action, Ok(CudaAction::ReadMeta(slice)) if *slice == 105));
        let live = settings(i as u32 + 1, lr);
        let step = execute_cuda_graph(LE, &nodes, step.at, Some(&live));
        assert_eq!(step.at, 1);
        match step.action {
            Ok(CudaAction::Launch(launch)) => {
                assert_eq!(launch.kernel, Kernel::AdamW);
                assert_eq!(launch.config.grid_dim, (1, 1, 1));
                let expected = [
                    "w100".to_string(),
                    "r101".to_string(),
                    "w102".to_string(),
                    "w103".to_string(),
                    "4".to_string(),
                    format!("{}", i + 1),
                    format!("{:?}", lr),
                    "0.9".to_string(),
                    "0.999".to_string(),
                    "1e-8".to_string(),
                    "0.0".to_string(),
                ];
                assert_eq!(show(&launch.args), expected);
            }
            _ => panic!("not a launch"),
        }
        let step = execute_cuda_graph(LE, &nodes, step.at, None);
        assert!(matches!(step.action, Ok(CudaAction::Finished)));
    }
}

#[test]
fn adamw_needs_all_its_settings() {
    let nodes = vec![adamw()];
    let live = settings(1, 0.1)[..20].to_vec();
    let step = execute_cuda_graph(LE, &nodes, 0, Some(&live));
    assert!(matches!(step.action, Err(DispatchError::MetaTooShort { len: 20, words: 6 })));
}

#[test]
fn other_nodes_never_look_at_live_bytes() {
    let nodes = vec![node("RMSNorm", 3, &[2, 4, 0])];
    let live = vec![7; 64];
    for given in [None, Some(&live)] {
        match execute_cuda_graph(LE, &nodes, 0, given).action {
            Ok(CudaAction::Launch(launch)) => assert_eq!(
                show(&launch.args),
                ["r100", "r101", "w102", "2", "4", "0.0"]
            ),
            _ => panic!("not a launch"),
        }
    }
}

#[test]
fn a_big_endian_machine_reads_its_own_words() {
    let mut softmax = node("Softmax", 1, &[]);
    if let ComputeNode::Cuda { bindings, .. } = &mut softmax {
        bindings.push(meta(1, vec![0, 0, 1, 4]));
    }
    let nodes = vec![softmax];
    match execute_cuda_graph(ByteOrder::Big, &nodes, 0, None).action {
        Ok(CudaAction::Launch(launch)) => assert_eq!(show(&launch.args), ["w100", "260"]),
        _ => panic!("not a launch"),
    }
}

#[test]
fn a_graph_is_run_in_order_passing_over_wgpu_nodes() {
    let passed = || ComputeNode::Wgpu {
        name: "SiLU".to_string(),
        pipeline: Arc::new(1),
        bind_group: Arc::new(2),
        workgroups: [1, 1, 1],
    };
    let nodes = vec![
        passed(),
        node("SiLU", 1, &[]),
        adamw(),
        passed(),
        node("MatMul", 3, &[1, 1, 1]),
        passed(),
    ];
    let live = settings(1, 0.1);
    let mut seen = Vec::new();
    let mut at = 0;
    let mut reply: Option<Vec<u8>> = None;
    loop {
        let step = execute_cuda_graph(LE, &nodes, at, reply.as_ref());
        reply = None;
        match step.action {
            Ok(CudaAction::Gemm(_)) => seen.push("gemm".to_string()),
            Ok(CudaAction::Launch(launch)) => seen.push(launch.kernel.key().to_string()),
            Ok(CudaAction::ReadMeta(_)) => reply = Some(live.clone()),
            Ok(CudaAction::Finished) => break,
            Err(_) => panic!("a node cannot be run"),
        }
        at = step.at;
    }
    assert_eq!(seen, ["silu", "adamw", "gemm"]);
}

#[test]
fn an_unknown_shader_cannot_be_run() {
    let e = fails(node("Dropout", 1, &[]));
    assert_eq!(e, DispatchError::UnknownShader);
    assert_eq!(
        e.message("Dropout"),
        "[wilupgu] CUDA backend: no kernel mapping for shader 'Dropout'"
    );
}

#[test]
fn a_missing_binding_is_found_before_anything_else() {
    let e = fails(node("SoftmaxBwd", 2, &[]));
    assert_eq!(e, DispatchError::MissingBinding { binding: 2 });
    assert_eq!(e.message("SoftmaxBwd"), "missing binding index");
}

#[test]
fn a_slot_bound_twice_leaves_another_unbound() {
    let mut softmax = node("Softmax", 1, &[]);
    if let ComputeNode::Cuda { bindings, .. } = &mut softmax {
        bindings.push(data(0, 4));
    }
    assert_eq!(fails(softmax), DispatchError::MissingBinding { binding: 1 });
}

#[test]
fn a_meta_slot_needs_its_bytes() {
    let e = fails(node("Softmax", 2, &[]));
    assert_eq!(e, DispatchError::NoCachedMeta);
    assert_eq!(
        e.message("Softmax"),
        "meta_bytes called on a binding with no cached meta readback (not TensorMode::Meta?)"
    );
}

fn with_meta(name: &str, tensors: u32, bytes: Vec<u8>) -> ComputeNode<Fake> {
    let mut made = node(name, tensors, &[]);
    if let ComputeNode::Cuda { bindings, .. } = &mut made {
        bindings.push(meta(tensors, bytes));
    }
    made
}

#[test]
fn meta_bytes_make_whole_words_where_all_are_read() {
    let e = fails(with_meta("Softmax", 1, vec![1, 0, 0, 0, 9]));
    assert_eq!(e, DispatchError::MetaNotWords { len: 5 });
    assert_eq!(e.message("Softmax"), "meta tensor of 5 bytes does not hold whole words");
    let mut bytes = le(&[16, 0.5f32.to_bits()]);
    bytes.push(9);
    launches(
        with_meta("CausalMask", 1, bytes),
        Kernel::CausalMask,
        (1, 1, 1),
        TILE,
        &["w100", "16", "0.5"],
    );
}

#[test]
fn meta_bytes_hold_all_the_words_that_are_read() {
    let e = fails(node("MatMul", 3, &[2, 3]));
    assert_eq!(e, DispatchError::MetaTooShort { len: 8, words: 3 });
    assert_eq!(e.message("MatMul"), "meta tensor of 8 bytes holds fewer than 3 words");
    assert_eq!(
        fails(with_meta("CausalMask", 1, vec![0; 7])),
        DispatchError::MetaTooShort { len: 7, words: 2 }
    );
}

#[test]
fn too_large_an_extent_has_no_grid() {
    let n = u32::MAX - 255;
    assert_eq!(cfg_1d(n).unwrap().grid_dim, (16_777_215, 1, 1));
    assert_eq!(cfg_1d(n + 1), Err(DispatchError::GridOverflow { extent: n + 1 }));
    let e = fails(node("Softmax", 1, &[u32::MAX]));
    assert_eq!(e.message("Softmax"), "no grid covers an extent of 4294967295");
}

#[test]
fn rows_of_256_threads() {
    for (n, blocks) in [(0u32, 0u32), (1, 1), (255, 1), (256, 1), (257, 2), (1000, 4)] {
        let config = cfg_1d(n).unwrap();
        assert_eq!(config.grid_dim, (blocks, 1, 1));
        assert_eq!(config.block_dim, ROW);
    }
}

#[test]
fn elements_are_counted_in_four_bytes() {
    assert_eq!(elem_count(&data(0, 4003)), 1000);
    assert_eq!(elem_count(&data(0, 3)), 0);
    assert_eq!(elem_count(&data(0, 4 * (1 << 32) + 8)), 2);
}

#[test]
fn the_first_binding_of_a_slot_counts() {
    let mut first = data(3, 4);
    first.slice = Arc::new(7);
    let bindings = vec![data(1, 4), first, data(3, 4)];
    assert_eq!(find(&bindings, 3).map(|b| *b.slice), Some(7));
    assert!(find(&bindings, 0).is_none());
}

#[test]
fn meta_words_are_read_from_the_cached_bytes() {
    let held = meta(3, le(&[5, 6, 7]));
    assert_eq!(meta_u32(LE, &held, 2), Ok(vec![5, 6]));
    assert_eq!(meta_fields(LE, &held, 3), Ok(vec![5, 6, 7]));
    assert_eq!(meta_u32(LE, &data(3, 12), 2), Err(DispatchError::NoCachedMeta));
}

#[test]
fn every_shader_name_has_its_operation() {
    let named = [
        ("MatMul", CudaOp::MatMul),
        ("MatMulTrp", CudaOp::MatMulTrp),
        ("MatMulWeightBwd", CudaOp::MatMulWeightBwd),
        ("Embedding", CudaOp::Launch(Kernel::Embedding)),
        ("EmbeddingBwd", CudaOp::Launch(Kernel::EmbeddingBwd)),
        ("CausalMask", CudaOp::Launch(Kernel::CausalMask)),
        ("HeadGather", CudaOp::Launch(Kernel::HeadGather)),
        ("HeadScatter", CudaOp::Launch(Kernel::HeadScatter)),
        ("ZeroTensor", CudaOp::Launch(Kernel::ZeroTensor)),
        ("SiLU", CudaOp::Launch(Kernel::Silu)),
        ("SiLUBwd", CudaOp::Launch(Kernel::SiluBwd)),
        ("ResidualAdd", CudaOp::Launch(Kernel::Add)),
        ("BwdAddInplace", CudaOp::Launch(Kernel::BwdAddInplace)),
        ("RoPE", CudaOp::Launch(Kernel::Rope)),
        ("RoPEBwd", CudaOp::Launch(Kernel::RopeBwd)),
        ("Softmax", CudaOp::Launch(Kernel::Softmax)),
        ("SoftmaxBwd", CudaOp::Launch(Kernel::SoftmaxBwd)),
        ("RMSNorm", CudaOp::Launch(Kernel::RmsNorm)),
        ("RMSNormBwd", CudaOp::Launch(Kernel::RmsNormBwd)),
        ("RMSNormWeightBwd", CudaOp::Launch(Kernel::RmsNormWeightBwd)),
        ("CrossEntropy", CudaOp::Launch(Kernel::CrossEntropy)),
        ("CrossEntropyBwd", CudaOp::Launch(Kernel::CrossEntropyBwd)),
        ("AdamW", CudaOp::Launch(Kernel::AdamW)),
    ];
    for (name, op) in named {
        assert_eq!(CudaOp::from_name(name), Some(op));
        if let CudaOp::Launch(kernel) = op {
            assert_eq!(kernel.function(), format!("{}_kernel", kernel.key()));
        }
    }
    assert_eq!(CudaOp::from_name("matmul"), None);
    assert_eq!(CudaOp::from_name(""), None);
}

#[test]
fn an_added_node_runs_on_what_its_meta_tensor_held() {
    let ctx: Arc<WgpuContext<Fake>> = Arc::new(WgpuContext::Cuda(Arc::new(())));
    let tensor = |id: u32, size: u64| {
        Tensor::new(ctx.clone(), size, TensorStorage::Cuda(Arc::new(id)))
    };
    let (x, w, out, m) = (tensor(1, 32), tensor(2, 16), tensor(3, 32), tensor(4, 12));
    let shader = ShaderDef::new(
        "RMSNorm",
        "",
        vec![TensorMode::Input, TensorMode::Input, TensorMode::Output, TensorMode::Meta],
    );
    let bindings = [
        TensorBind { binding: 3, tensor: &m, mode: TensorMode::Meta },
        TensorBind { binding: 0, tensor: &x, mode: TensorMode::Input },
        TensorBind { binding: 1, tensor: &w, mode: TensorMode::Input },
        TensorBind { binding: 2, tensor: &out, mode: TensorMode::Output },
    ];
    let mut graph = ComputeGraph::new(ctx.clone());
    let mut cache = PipelineCache::new();
    let held = vec![le(&[2, 4, 1e-5f32.to_bits(), 77]), vec![], vec![], vec![]];
    let added =
        graph.add_node(&mut cache, &shader, &bindings, [2, 1, 1], NodeEvent::Readback(held));
    assert!(matches!(added, Ok(NodeAction::Added)));
    for _ in 0..2 {
        match execute_cuda_graph(LE, graph.nodes(), 0, None).action {
            Ok(CudaAction::Launch(launch)) => {
                assert_eq!(launch.kernel, Kernel::RmsNorm);
                assert_eq!(launch.config.grid_dim, (2, 1, 1));
                assert_eq!(show(&launch.args), ["r1", "r2", "w3", "2", "4", "1e-5"]);
            }
            _ => panic!("not a launch"),
        }
    }
}

#[test]
fn no_two_kernels_share_a_key() {
    let kernels = [
        Kernel::Embedding,
        Kernel::EmbeddingBwd,
        Kernel::CausalMask,
        Kernel::HeadGather,
        Kernel::HeadScatter,
        Kernel::ZeroTensor,
        Kernel::Silu,
        Kernel::SiluBwd,
        Kernel::Add,
        Kernel::BwdAddInplace,
        Kernel::Rope,
        Kernel::RopeBwd,
        Kernel::Softmax,
        Kernel::SoftmaxBwd,
        Kernel::RmsNorm,
        Kernel::RmsNormBwd,
        Kernel::RmsNormWeightBwd,
        Kernel::CrossEntropy,
        Kernel::CrossEntropyBwd,
        Kernel::AdamW,
    ];
    for (i, a) in kernels.iter().enumerate() {
        for b in &kernels[i + 1..] {
            assert_ne!(a.key(), b.key());
        }
    }
    assert_eq!(Kernel::Add.key(), "add");
    assert_eq!(Kernel::RmsNormWeightBwd.key(), "rmsnorm_weight_bwd");
}

#[test]
fn a_fused_cuda_graph_runs_the_graphs_in_turn() {
    let ctx: Arc<WgpuContext<Fake>> = Arc::new(WgpuContext::Cuda(Arc::new(())));
    let graph_of = |names: &[&str]| {
        let x = Tensor::new(ctx.clone(), 8, TensorStorage::Cuda(Arc::new(1)));
        let mut graph = ComputeGraph::new(ctx.clone());
        let mut cache = PipelineCache::new();
        for name in names {
            let shader = ShaderDef::new(name, "", vec![TensorMode::InOut]);
            let bindings = [TensorBind { binding: 0, tensor: &x, mode: TensorMode::InOut }];
            let event = NodeEvent::Readback(vec![vec![]]);
            assert!(graph.add_node(&mut cache, &shader, &bindings, [1, 1, 1], event).is_ok());
        }
        graph
    };
    let (first, second) = (graph_of(&["SiLU", "ZeroTensor"]), graph_of(&["SiLU"]));
    let fused = fuse_compute_graphs(ctx.clone(), &[&second, &first]);
    let mut seen = Vec::new();
    let mut at = 0;
    while let Ok(CudaAction::Launch(launch)) = execute_cuda_graph(LE, fused.nodes(), at, None).action
    {
        seen.push(launch.kernel);
        at += 1;
    }
    assert_eq!(seen, [Kernel::Silu, Kernel::Silu, Kernel::ZeroTensor]);
}
