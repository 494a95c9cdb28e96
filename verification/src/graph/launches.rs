//! What running each operation on CUDA comes to, in terms of the node that is run
//! and of the step that is returned: the kernel or the multiplication, how many
//! threads meet the data, and which arguments they are given.
use vstd::prelude::*;

use super::cuda_exec::{
    cfg_1d, elem_count, execute_cuda_graph, find, first_missing, held, meta_fields, meta_u32,
    meta_u32_spec, slot, CudaAction, CudaStep, DispatchError, GemmOp, KernelArg, LaunchConfig,
};
use super::gemm::{
    c_index, gemm_element, law_matmul_computes_the_product, law_weight_bwd_accumulates_the_product,
    lemma_sums_agree, op_b_index, row_major, sum,
};
use super::kernels::{law_op_named, CudaOp, Kernel};
use super::laws::law_blocks_cover;
use super::{bindings_view, nodes_view, BindingView, ComputeNode, CudaNodeBinding};
use crate::backend::Backend;
use crate::bytes::{tensor_bytes, word_at, ByteOrder};
use crate::text::decimal;

verus! {

// ------------------------------------------------- what a node has bound ---

/// Whether a tensor is bound to this slot.
pub open spec fn bound<B: Backend>(bindings: Seq<BindingView<B>>, idx: int) -> bool {
    exists|i: int| 0 <= i < bindings.len() && (#[trigger] bindings[i]).binding == idx
}

/// What is found at a slot is the first of the tensors that are bound to it, and
/// something is found exactly if one is.
pub proof fn law_first_binding_counts<B: Backend>(bindings: Seq<BindingView<B>>, idx: u32)
    ensures
        slot(bindings, idx) is Some <==> bound(bindings, idx as int),
        slot(bindings, idx) matches Some(b) ==> exists|i: int|
            #![trigger bindings[i]]
            0 <= i < bindings.len() && bindings[i] == b && b.binding == idx && forall|j: int|
                0 <= j < i ==> (#[trigger] bindings[j]).binding != idx,
    decreases bindings.len(),
{
    if bindings.len() > 0 {
        let rest = bindings.drop_first();
        law_first_binding_counts(rest, idx);
        if bindings[0].binding == idx {
            assert(bound(bindings, idx as int));
        } else {
            if bound(rest, idx as int) {
                let i = choose|i: int|
                    #![trigger rest[i]]
                    0 <= i < rest.len() && rest[i] == slot(rest, idx)->0 && rest[i].binding == idx
                        && forall|j: int| 0 <= j < i ==> (#[trigger] rest[j]).binding != idx;
                assert(bindings[i + 1] == rest[i]);
                assert forall|j: int| 0 <= j < i + 1 implies (#[trigger] bindings[j]).binding
                    != idx by {
                    if j > 0 {
                        assert(rest[j - 1] == bindings[j]);
                    }
                }
            }
            if bound(bindings, idx as int) {
                let i = choose|i: int|
                    0 <= i < bindings.len() && (#[trigger] bindings[i]).binding == idx;
                assert(rest[i - 1] == bindings[i]);
            }
        }
    }
}

proof fn lemma_first_missing<B: Backend>(bindings: Seq<BindingView<B>>, n: nat)
    requires
        n <= u32::MAX,
    ensures
        match first_missing(bindings, n) {
            Some(k) => k < n && !bound(bindings, k as int) && forall|j: int|
                0 <= j < k ==> #[trigger] bound(bindings, j),
            None => forall|j: int| 0 <= j < n ==> #[trigger] bound(bindings, j),
        },
    decreases n,
{
    if n > 0 {
        lemma_first_missing(bindings, (n - 1) as nat);
        law_first_binding_counts(bindings, (n - 1) as u32);
    }
}

/// Whether the slots `0..slots` are bound.
pub open spec fn all_bound<B: Backend>(bindings: Seq<BindingView<B>>, slots: nat) -> bool {
    forall|j: int| 0 <= j < slots ==> #[trigger] bound(bindings, j)
}

/// The bytes at hand of the meta tensor at a slot.
pub open spec fn meta_at<B: Backend>(bindings: Seq<BindingView<B>>, idx: u32) -> Seq<u8> {
    held(bindings, idx).cached_meta->0
}

/// A meta tensor that an operation reads: its slot, the words that are read, and
/// whether it may hold nothing but whole words.
pub struct Reads {
    pub slot: u32,
    pub words: nat,
    pub whole: bool,
}

/// Whether an operation has what it needs: its slots are bound, and its meta
/// tensor was read back and holds its words.
pub open spec fn at_hand<B: Backend>(
    bindings: Seq<BindingView<B>>,
    slots: nat,
    reads: Option<Reads>,
) -> bool {
    &&& all_bound(bindings, slots)
    &&& reads matches Some(meta) ==> {
        &&& held(bindings, meta.slot).cached_meta is Some
        &&& meta_at(bindings, meta.slot).len() >= 4 * meta.words
        &&& meta.whole ==> meta_at(bindings, meta.slot).len() % 4 == 0
    }
}

/// Whether an error tells what an operation lacks: the lowest slot that is not
/// bound; else that its meta tensor was not read back, is no whole number of
/// words, or holds too few of them.
pub open spec fn lacks<B: Backend>(
    bindings: Seq<BindingView<B>>,
    slots: nat,
    reads: Option<Reads>,
    e: DispatchError,
) -> bool {
    match e {
        DispatchError::MissingBinding { binding } => {
            &&& binding < slots
            &&& !bound(bindings, binding as int)
            &&& all_bound(bindings, binding as nat)
        },
        DispatchError::NoCachedMeta => {
            &&& all_bound(bindings, slots)
            &&& reads matches Some(meta) && held(bindings, meta.slot).cached_meta is None
        },
        DispatchError::MetaNotWords { len } => {
            &&& all_bound(bindings, slots)
            &&& reads matches Some(meta) && meta.whole && held(
                bindings,
                meta.slot,
            ).cached_meta is Some && len == meta_at(bindings, meta.slot).len() as usize
                && meta_at(bindings, meta.slot).len() % 4 != 0
        },
        DispatchError::MetaTooShort { len, words } => {
            &&& all_bound(bindings, slots)
            &&& reads matches Some(meta) && held(bindings, meta.slot).cached_meta is Some && len
                == meta_at(bindings, meta.slot).len() as usize && words == meta.words
                && meta_at(bindings, meta.slot).len() < 4 * meta.words && (meta.whole ==> meta_at(
                bindings,
                meta.slot,
            ).len() % 4 == 0)
        },
        DispatchError::UnknownShader => false,
        DispatchError::GridOverflow { .. } => false,
    }
}

// ------------------------------------------------------------- the grids ---

/// One thread for each of `n` items, in a single row of blocks of 256 threads
/// with none of them idle.
pub open spec fn one_thread_each(config: LaunchConfig, n: int) -> bool {
    &&& config.block_dim == (256u32, 1u32, 1u32)
    &&& config.grid_dim.1 == 1
    &&& config.grid_dim.2 == 1
    &&& n <= config.grid_dim.0 * 256 < n + 256
    &&& config.shared_mem_bytes == 0
}

/// The larger of a number and one.
pub open spec fn or_one(n: u32) -> u32 {
    if n > 1 {
        n
    } else {
        1
    }
}

/// One block of 256 threads for each of `n` rows, and one if there is none.
pub open spec fn one_block_each(config: LaunchConfig, n: u32) -> bool {
    &&& config.block_dim == (256u32, 1u32, 1u32)
    &&& config.grid_dim == (or_one(n), 1u32, 1u32)
    &&& config.shared_mem_bytes == 0
}

/// One thread for each place of an area, in tiles of 16 by 16: tiles reach as far
/// across and down as the area does, and none lies outside of it but the first.
pub open spec fn one_thread_per_place(config: LaunchConfig, width: u32, height: u32) -> bool {
    &&& config.block_dim == (16u32, 16u32, 1u32)
    &&& config.grid_dim.2 == 1
    &&& or_one(width) <= config.grid_dim.0 * 16 < or_one(width) + 16
    &&& or_one(height) <= config.grid_dim.1 * 16 < or_one(height) + 16
    &&& config.shared_mem_bytes == 0
}

// ------------------------------------------------------------- the steps ---

/// Whether the node at this position runs on CUDA and is of this shader.
pub open spec fn runs<B: Backend>(
    nodes: &Vec<ComputeNode<B>>,
    at: usize,
    shader: Seq<char>,
) -> bool {
    &&& at < nodes@.len()
    &&& nodes@[at as int] matches ComputeNode::Cuda { name, .. } && name@ == shader
}

/// What the CUDA node at this position has bound.
pub open spec fn bound_by<B: Backend>(nodes: &Vec<ComputeNode<B>>, at: usize) -> Seq<
    BindingView<B>,
> {
    bindings_view(nodes@[at as int]->Cuda_bindings@)
}

// --------------------------------------------------- element by element ---

/// Activating a tensor: one thread for each element, which it rewrites.
pub proof fn law_silu<B: Backend>(
    order: ByteOrder,
    nodes: &Vec<ComputeNode<B>>,
    at: usize,
    live: Option<&Vec<u8>>,
    r: CudaStep<B>,
)
    requires
        call_ensures(execute_cuda_graph::<B>, (order, nodes, at, live), r),
        runs(nodes, at, "SiLU"@),
    ensures
        ({
            let b = bound_by(nodes, at);
            let reads = None::<Reads>;
            let n = (held(b, 0).size / 4) as u32;
            match r.action {
                Ok(CudaAction::Launch(launch)) => {
                    &&& at_hand(b, 1, reads)
                    &&& launch.kernel == Kernel::Silu
                    &&& one_thread_each(launch.config, n as int)
                    &&& launch.args@ == seq![
                        KernelArg::<B>::Write(held(b, 0).slice),
                        KernelArg::<B>::U32(n),
                    ]
                },
                Ok(_) => false,
                Err(e) => {
                    ||| lacks(b, 1, reads, e)
                    ||| at_hand(b, 1, reads) && e == (DispatchError::GridOverflow {
                        extent: n,
                    }) && n > u32::MAX - 255
                },
            }
        }),
{
    let b = bound_by(nodes, at);
    law_op_named(CudaOp::Launch(Kernel::Silu));
    assert(nodes_view(nodes@)[at as int] == nodes@[at as int]@);
    lemma_first_missing(b, 1);
    law_blocks_cover((held(b, 0).size / 4) as u32, 256);
}

/// Zeroing a tensor: one thread for each element, which it writes.
pub proof fn law_zero_tensor<B: Backend>(
    order: ByteOrder,
    nodes: &Vec<ComputeNode<B>>,
    at: usize,
    live: Option<&Vec<u8>>,
    r: CudaStep<B>,
)
    requires
        call_ensures(execute_cuda_graph::<B>, (order, nodes, at, live), r),
        runs(nodes, at, "ZeroTensor"@),
    ensures
        ({
            let b = bound_by(nodes, at);
            let reads = None::<Reads>;
            let n = (held(b, 0).size / 4) as u32;
            match r.action {
                Ok(CudaAction::Launch(launch)) => {
                    &&& at_hand(b, 1, reads)
                    &&& launch.kernel == Kernel::ZeroTensor
                    &&& one_thread_each(launch.config, n as int)
                    &&& launch.args@ == seq![
                        KernelArg::<B>::Write(held(b, 0).slice),
                        KernelArg::<B>::U32(n),
                    ]
                },
                Ok(_) => false,
                Err(e) => {
                    ||| lacks(b, 1, reads, e)
                    ||| at_hand(b, 1, reads) && e == (DispatchError::GridOverflow {
                        extent: n,
                    }) && n > u32::MAX - 255
                },
            }
        }),
{
    let b = bound_by(nodes, at);
    law_op_named(CudaOp::Launch(Kernel::ZeroTensor));
    assert(nodes_view(nodes@)[at as int] == nodes@[at as int]@);
    lemma_first_missing(b, 1);
    law_blocks_cover((held(b, 0).size / 4) as u32, 256);
}

/// Activating backward: one thread for each element of the input. It reads that
/// and the output's gradient, and writes the input's.
pub proof fn law_silu_bwd<B: Backend>(
    order: ByteOrder,
    nodes: &Vec<ComputeNode<B>>,
    at: usize,
    live: Option<&Vec<u8>>,
    r: CudaStep<B>,
)
    requires
        call_ensures(execute_cuda_graph::<B>, (order, nodes, at, live), r),
        runs(nodes, at, "SiLUBwd"@),
    ensures
        ({
            let b = bound_by(nodes, at);
            let reads = None::<Reads>;
            let n = (held(b, 0).size / 4) as u32;
            match r.action {
                Ok(CudaAction::Launch(launch)) => {
                    &&& at_hand(b, 3, reads)
                    &&& launch.kernel == Kernel::SiluBwd
                    &&& one_thread_each(launch.config, n as int)
                    &&& launch.args@ == seq![
                        KernelArg::<B>::Read(held(b, 0).slice),
                        KernelArg::<B>::Read(held(b, 1).slice),
                        KernelArg::<B>::Write(held(b, 2).slice),
                        KernelArg::<B>::U32(n),
                    ]
                },
                Ok(_) => false,
                Err(e) => {
                    ||| lacks(b, 3, reads, e)
                    ||| at_hand(b, 3, reads) && e == (DispatchError::GridOverflow {
                        extent: n,
                    }) && n > u32::MAX - 255
                },
            }
        }),
{
    let b = bound_by(nodes, at);
    law_op_named(CudaOp::Launch(Kernel::SiluBwd));
    assert(nodes_view(nodes@)[at as int] == nodes@[at as int]@);
    lemma_first_missing(b, 3);
    law_blocks_cover((held(b, 0).size / 4) as u32, 256);
}

/// Adding, forward as backward: one thread for each element of the sum, to which
/// it adds that of the other tensor.
pub proof fn law_add<B: Backend>(
    order: ByteOrder,
    nodes: &Vec<ComputeNode<B>>,
    at: usize,
    live: Option<&Vec<u8>>,
    r: CudaStep<B>,
    backward: bool,
)
    requires
        call_ensures(execute_cuda_graph::<B>, (order, nodes, at, live), r),
        runs(nodes, at, if backward {
            "BwdAddInplace"@
        } else {
            "ResidualAdd"@
        }),
    ensures
        ({
            let b = bound_by(nodes, at);
            let reads = None::<Reads>;
            let n = (held(b, 0).size / 4) as u32;
            match r.action {
                Ok(CudaAction::Launch(launch)) => {
                    &&& at_hand(b, 2, reads)
                    &&& launch.kernel == (if backward {
                        Kernel::BwdAddInplace
                    } else {
                        Kernel::Add
                    })
                    &&& one_thread_each(launch.config, n as int)
                    &&& launch.args@ == seq![
                        KernelArg::<B>::Write(held(b, 0).slice),
                        KernelArg::<B>::Read(held(b, 1).slice),
                        KernelArg::<B>::U32(n),
                    ]
                },
                Ok(_) => false,
                Err(e) => {
                    ||| lacks(b, 2, reads, e)
                    ||| at_hand(b, 2, reads) && e == (DispatchError::GridOverflow {
                        extent: n,
                    }) && n > u32::MAX - 255
                },
            }
        }),
{
    let b = bound_by(nodes, at);
    law_op_named(CudaOp::Launch(Kernel::Add));
    law_op_named(CudaOp::Launch(Kernel::BwdAddInplace));
    assert(nodes_view(nodes@)[at as int] == nodes@[at as int]@);
    lemma_first_missing(b, 2);
    law_blocks_cover((held(b, 0).size / 4) as u32, 256);
}

// ------------------------------------------------------------- embedding ---

/// Embedding, forward as backward: a row of blocks for each position of the
/// sequence, as many to a row as the node was added with. The tokens and the
/// table, or the gradient, are read; the output, or the table's gradient, is
/// written.
pub proof fn law_embedding<B: Backend>(
    order: ByteOrder,
    nodes: &Vec<ComputeNode<B>>,
    at: usize,
    live: Option<&Vec<u8>>,
    r: CudaStep<B>,
    backward: bool,
)
    requires
        call_ensures(execute_cuda_graph::<B>, (order, nodes, at, live), r),
        runs(nodes, at, if backward {
            "EmbeddingBwd"@
        } else {
            "Embedding"@
        }),
    ensures
        ({
            let b = bound_by(nodes, at);
            let reads = Some(Reads { slot: 3, words: 3, whole: true });
            let vocab_size = word_at(order, meta_at(b, 3), 0);
            let embed_dim = word_at(order, meta_at(b, 3), 1);
            let seq_len = word_at(order, meta_at(b, 3), 2);
            match r.action {
                Ok(CudaAction::Launch(launch)) => {
                    &&& at_hand(b, 4, reads)
                    &&& launch.kernel == (if backward {
                        Kernel::EmbeddingBwd
                    } else {
                        Kernel::Embedding
                    })
                    &&& launch.config.block_dim == (256u32, 1u32, 1u32)
                    &&& launch.config.grid_dim == (
                        or_one(nodes@[at as int]->Cuda_workgroups[0]),
                        or_one(seq_len),
                        1u32,
                    )
                    &&& launch.config.shared_mem_bytes == 0
                    &&& launch.args@ == seq![
                        KernelArg::<B>::Read(held(b, 0).slice),
                        KernelArg::<B>::Read(held(b, 1).slice),
                        KernelArg::<B>::Write(held(b, 2).slice),
                        KernelArg::<B>::U32(vocab_size),
                        KernelArg::<B>::U32(embed_dim),
                        KernelArg::<B>::U32(seq_len),
                    ]
                },
                Ok(_) => false,
                Err(e) => lacks(b, 4, reads, e),
            }
        }),
{
    let b = bound_by(nodes, at);
    law_op_named(CudaOp::Launch(Kernel::Embedding));
    law_op_named(CudaOp::Launch(Kernel::EmbeddingBwd));
    assert(nodes_view(nodes@)[at as int] == nodes@[at as int]@);
    lemma_first_missing(b, 4);
}

// ------------------------------------------------------------- attention ---

/// Masking scores: one thread for each pair of positions, in tiles. The scores are
/// rewritten, by the scale.
pub proof fn law_causal_mask<B: Backend>(
    order: ByteOrder,
    nodes: &Vec<ComputeNode<B>>,
    at: usize,
    live: Option<&Vec<u8>>,
    r: CudaStep<B>,
)
    requires
        call_ensures(execute_cuda_graph::<B>, (order, nodes, at, live), r),
        runs(nodes, at, "CausalMask"@),
    ensures
        ({
            let b = bound_by(nodes, at);
            let reads = Some(Reads { slot: 1, words: 2, whole: false });
            let seq_len = word_at(order, meta_at(b, 1), 0);
            let scale = word_at(order, meta_at(b, 1), 1);
            match r.action {
                Ok(CudaAction::Launch(launch)) => {
                    &&& at_hand(b, 2, reads)
                    &&& launch.kernel == Kernel::CausalMask
                    &&& launch.config.block_dim == (16u32, 16u32, 1u32)
                    &&& launch.config.grid_dim.0 == launch.config.grid_dim.1
                    &&& launch.config.grid_dim.2 == 1
                    &&& seq_len <= launch.config.grid_dim.0 * 16 < seq_len + 16
                    &&& launch.config.shared_mem_bytes == 0
                    &&& launch.args@ == seq![
                        KernelArg::<B>::Write(held(b, 0).slice),
                        KernelArg::<B>::U32(seq_len),
                        KernelArg::<B>::F32(scale),
                    ]
                },
                Ok(_) => false,
                Err(e) => {
                    ||| lacks(b, 2, reads, e)
                    ||| at_hand(b, 2, reads) && e == (DispatchError::GridOverflow {
                        extent: seq_len,
                    }) && seq_len > u32::MAX - 15
                },
            }
        }),
{
    let b = bound_by(nodes, at);
    law_op_named(CudaOp::Launch(Kernel::CausalMask));
    assert(nodes_view(nodes@)[at as int] == nodes@[at as int]@);
    lemma_first_missing(b, 2);
    law_blocks_cover(word_at(order, meta_at(b, 1), 0), 16);
}

/// Moving one head out of the full width, or back into it: one thread for each
/// place of the head at each position. The first tensor is read, the second
/// written.
pub proof fn law_head_move<B: Backend>(
    order: ByteOrder,
    nodes: &Vec<ComputeNode<B>>,
    at: usize,
    live: Option<&Vec<u8>>,
    r: CudaStep<B>,
    back: bool,
)
    requires
        call_ensures(execute_cuda_graph::<B>, (order, nodes, at, live), r),
        runs(nodes, at, if back {
            "HeadScatter"@
        } else {
            "HeadGather"@
        }),
    ensures
        ({
            let b = bound_by(nodes, at);
            let reads = Some(Reads { slot: 2, words: 4, whole: true });
            let seq_len = word_at(order, meta_at(b, 2), 0);
            let full_dim = word_at(order, meta_at(b, 2), 1);
            let head_dim = word_at(order, meta_at(b, 2), 2);
            let head_offset = word_at(order, meta_at(b, 2), 3);
            match r.action {
                Ok(CudaAction::Launch(launch)) => {
                    &&& at_hand(b, 3, reads)
                    &&& launch.kernel == (if back {
                        Kernel::HeadScatter
                    } else {
                        Kernel::HeadGather
                    })
                    &&& one_thread_per_place(launch.config, head_dim, seq_len)
                    &&& launch.args@ == seq![
                        KernelArg::<B>::Read(held(b, 0).slice),
                        KernelArg::<B>::Write(held(b, 1).slice),
                        KernelArg::<B>::U32(seq_len),
                        KernelArg::<B>::U32(full_dim),
                        KernelArg::<B>::U32(head_dim),
                        KernelArg::<B>::U32(head_offset),
                    ]
                },
                Ok(_) => false,
                Err(e) => {
                    ||| lacks(b, 3, reads, e)
                    ||| at_hand(b, 3, reads) && e == (DispatchError::GridOverflow {
                        extent: head_dim,
                    }) && head_dim > u32::MAX - 15
                    ||| at_hand(b, 3, reads) && e == (DispatchError::GridOverflow {
                        extent: seq_len,
                    }) && seq_len > u32::MAX - 15 && head_dim <= u32::MAX - 15
                },
            }
        }),
{
    let b = bound_by(nodes, at);
    law_op_named(CudaOp::Launch(Kernel::HeadGather));
    law_op_named(CudaOp::Launch(Kernel::HeadScatter));
    assert(nodes_view(nodes@)[at as int] == nodes@[at as int]@);
    lemma_first_missing(b, 3);
    law_blocks_cover(word_at(order, meta_at(b, 2), 2), 16);
    law_blocks_cover(word_at(order, meta_at(b, 2), 0), 16);
}

/// Rotating vectors, or their gradients back: one thread for each pair of places
/// of a head across, and for each position down. The vectors are rewritten.
pub proof fn law_rope<B: Backend>(
    order: ByteOrder,
    nodes: &Vec<ComputeNode<B>>,
    at: usize,
    live: Option<&Vec<u8>>,
    r: CudaStep<B>,
    backward: bool,
)
    requires
        call_ensures(execute_cuda_graph::<B>, (order, nodes, at, live), r),
        runs(nodes, at, if backward {
            "RoPEBwd"@
        } else {
            "RoPE"@
        }),
    ensures
        ({
            let b = bound_by(nodes, at);
            let reads = Some(Reads { slot: 1, words: 3, whole: true });
            let seq_len = word_at(order, meta_at(b, 1), 0);
            let dim = word_at(order, meta_at(b, 1), 1);
            let head_dim = word_at(order, meta_at(b, 1), 2);
            match r.action {
                Ok(CudaAction::Launch(launch)) => {
                    &&& at_hand(b, 2, reads)
                    &&& launch.kernel == (if backward {
                        Kernel::RopeBwd
                    } else {
                        Kernel::Rope
                    })
                    &&& one_thread_per_place(launch.config, head_dim / 2, seq_len)
                    &&& head_dim / 2 <= launch.config.grid_dim.0 * launch.config.block_dim.0
                    &&& seq_len <= launch.config.grid_dim.1 * launch.config.block_dim.1
                    &&& launch.args@ == seq![
                        KernelArg::<B>::Write(held(b, 0).slice),
                        KernelArg::<B>::U32(seq_len),
                        KernelArg::<B>::U32(dim),
                        KernelArg::<B>::U32(head_dim),
                    ]
                },
                Ok(_) => false,
                Err(e) => {
                    ||| lacks(b, 2, reads, e)
                    ||| at_hand(b, 2, reads) && e == (DispatchError::GridOverflow {
                        extent: head_dim / 2,
                    }) && head_dim / 2 > u32::MAX - 15
                    ||| at_hand(b, 2, reads) && e == (DispatchError::GridOverflow {
                        extent: seq_len,
                    }) && seq_len > u32::MAX - 15
                },
            }
        }),
{
    let b = bound_by(nodes, at);
    law_op_named(CudaOp::Launch(Kernel::Rope));
    law_op_named(CudaOp::Launch(Kernel::RopeBwd));
    assert(nodes_view(nodes@)[at as int] == nodes@[at as int]@);
    lemma_first_missing(b, 2);
    law_blocks_cover(word_at(order, meta_at(b, 1), 2) / 2, 16);
    law_blocks_cover(word_at(order, meta_at(b, 1), 0), 16);
}

/// Normalising scores: one thread for each row, which it rewrites.
pub proof fn law_softmax<B: Backend>(
    order: ByteOrder,
    nodes: &Vec<ComputeNode<B>>,
    at: usize,
    live: Option<&Vec<u8>>,
    r: CudaStep<B>,
)
    requires
        call_ensures(execute_cuda_graph::<B>, (order, nodes, at, live), r),
        runs(nodes, at, "Softmax"@),
    ensures
        ({
            let b = bound_by(nodes, at);
            let reads = Some(Reads { slot: 1, words: 1, whole: true });
            let seq_len = word_at(order, meta_at(b, 1), 0);
            match r.action {
                Ok(CudaAction::Launch(launch)) => {
                    &&& at_hand(b, 2, reads)
                    &&& launch.kernel == Kernel::Softmax
                    &&& one_thread_each(launch.config, seq_len as int)
                    &&& launch.args@ == seq![
                        KernelArg::<B>::Write(held(b, 0).slice),
                        KernelArg::<B>::U32(seq_len),
                    ]
                },
                Ok(_) => false,
                Err(e) => {
                    ||| lacks(b, 2, reads, e)
                    ||| at_hand(b, 2, reads) && e == (DispatchError::GridOverflow {
                        extent: seq_len,
                    }) && seq_len > u32::MAX - 255
                },
            }
        }),
{
    let b = bound_by(nodes, at);
    law_op_named(CudaOp::Launch(Kernel::Softmax));
    assert(nodes_view(nodes@)[at as int] == nodes@[at as int]@);
    lemma_first_missing(b, 2);
    law_blocks_cover(word_at(order, meta_at(b, 1), 0), 256);
}

/// Normalising scores backward: one thread for each row. The output and its
/// gradient are read, the input's gradient is written, by the scale.
pub proof fn law_softmax_bwd<B: Backend>(
    order: ByteOrder,
    nodes: &Vec<ComputeNode<B>>,
    at: usize,
    live: Option<&Vec<u8>>,
    r: CudaStep<B>,
)
    requires
        call_ensures(execute_cuda_graph::<B>, (order, nodes, at, live), r),
        runs(nodes, at, "SoftmaxBwd"@),
    ensures
        ({
            let b = bound_by(nodes, at);
            let reads = Some(Reads { slot: 3, words: 2, whole: false });
            let seq_len = word_at(order, meta_at(b, 3), 0);
            let scale = word_at(order, meta_at(b, 3), 1);
            match r.action {
                Ok(CudaAction::Launch(launch)) => {
                    &&& at_hand(b, 4, reads)
                    &&& launch.kernel == Kernel::SoftmaxBwd
                    &&& one_thread_each(launch.config, seq_len as int)
                    &&& launch.args@ == seq![
                        KernelArg::<B>::Read(held(b, 0).slice),
                        KernelArg::<B>::Read(held(b, 1).slice),
                        KernelArg::<B>::Write(held(b, 2).slice),
                        KernelArg::<B>::U32(seq_len),
                        KernelArg::<B>::F32(scale),
                    ]
                },
                Ok(_) => false,
                Err(e) => {
                    ||| lacks(b, 4, reads, e)
                    ||| at_hand(b, 4, reads) && e == (DispatchError::GridOverflow {
                        extent: seq_len,
                    }) && seq_len > u32::MAX - 255
                },
            }
        }),
{
    let b = bound_by(nodes, at);
    law_op_named(CudaOp::Launch(Kernel::SoftmaxBwd));
    assert(nodes_view(nodes@)[at as int] == nodes@[at as int]@);
    lemma_first_missing(b, 4);
    law_blocks_cover(word_at(order, meta_at(b, 3), 0), 256);
}

// --------------------------------------------------------- normalisation ---

/// Normalising rows: one block of 256 threads for each row of the sequence. The
/// rows and the weights are read, the output is written.
pub proof fn law_rmsnorm<B: Backend>(
    order: ByteOrder,
    nodes: &Vec<ComputeNode<B>>,
    at: usize,
    live: Option<&Vec<u8>>,
    r: CudaStep<B>,
)
    requires
        call_ensures(execute_cuda_graph::<B>, (order, nodes, at, live), r),
        runs(nodes, at, "RMSNorm"@),
    ensures
        ({
            let b = bound_by(nodes, at);
            let reads = Some(Reads { slot: 3, words: 3, whole: false });
            let seq_len = word_at(order, meta_at(b, 3), 0);
            let size = word_at(order, meta_at(b, 3), 1);
            let eps = word_at(order, meta_at(b, 3), 2);
            match r.action {
                Ok(CudaAction::Launch(launch)) => {
                    &&& at_hand(b, 4, reads)
                    &&& launch.kernel == Kernel::RmsNorm
                    &&& one_block_each(launch.config, seq_len)
                    &&& launch.args@ == seq![
                        KernelArg::<B>::Read(held(b, 0).slice),
                        KernelArg::<B>::Read(held(b, 1).slice),
                        KernelArg::<B>::Write(held(b, 2).slice),
                        KernelArg::<B>::U32(seq_len),
                        KernelArg::<B>::U32(size),
                        KernelArg::<B>::F32(eps),
                    ]
                },
                Ok(_) => false,
                Err(e) => lacks(b, 4, reads, e),
            }
        }),
{
    let b = bound_by(nodes, at);
    law_op_named(CudaOp::Launch(Kernel::RmsNorm));
    assert(nodes_view(nodes@)[at as int] == nodes@[at as int]@);
    lemma_first_missing(b, 4);
}

/// Normalising rows backward: one block of 256 threads for each row of the
/// sequence. The output's gradient, the rows and the weights are read; the rows'
/// gradient and their reciprocal roots are written.
pub proof fn law_rmsnorm_bwd<B: Backend>(
    order: ByteOrder,
    nodes: &Vec<ComputeNode<B>>,
    at: usize,
    live: Option<&Vec<u8>>,
    r: CudaStep<B>,
)
    requires
        call_ensures(execute_cuda_graph::<B>, (order, nodes, at, live), r),
        runs(nodes, at, "RMSNormBwd"@),
    ensures
        ({
            let b = bound_by(nodes, at);
            let reads = Some(Reads { slot: 5, words: 3, whole: false });
            let seq_len = word_at(order, meta_at(b, 5), 0);
            let size = word_at(order, meta_at(b, 5), 1);
            let eps = word_at(order, meta_at(b, 5), 2);
            match r.action {
                Ok(CudaAction::Launch(launch)) => {
                    &&& at_hand(b, 6, reads)
                    &&& launch.kernel == Kernel::RmsNormBwd
                    &&& one_block_each(launch.config, seq_len)
                    &&& launch.args@ == seq![
                        KernelArg::<B>::Read(held(b, 0).slice),
                        KernelArg::<B>::Read(held(b, 1).slice),
                        KernelArg::<B>::Read(held(b, 2).slice),
                        KernelArg::<B>::Write(held(b, 3).slice),
                        KernelArg::<B>::Write(held(b, 4).slice),
                        KernelArg::<B>::U32(seq_len),
                        KernelArg::<B>::U32(size),
                        KernelArg::<B>::F32(eps),
                    ]
                },
                Ok(_) => false,
                Err(e) => lacks(b, 6, reads, e),
            }
        }),
{
    let b = bound_by(nodes, at);
    law_op_named(CudaOp::Launch(Kernel::RmsNormBwd));
    assert(nodes_view(nodes@)[at as int] == nodes@[at as int]@);
    lemma_first_missing(b, 6);
}

/// The weights' gradient of normalised rows: one thread for each weight. The
/// output's gradient, the rows and their reciprocal roots are read, and the
/// weights' gradient is written.
pub proof fn law_rmsnorm_weight_bwd<B: Backend>(
    order: ByteOrder,
    nodes: &Vec<ComputeNode<B>>,
    at: usize,
    live: Option<&Vec<u8>>,
    r: CudaStep<B>,
)
    requires
        call_ensures(execute_cuda_graph::<B>, (order, nodes, at, live), r),
        runs(nodes, at, "RMSNormWeightBwd"@),
    ensures
        ({
            let b = bound_by(nodes, at);
            let reads = Some(Reads { slot: 4, words: 2, whole: true });
            let seq_len = word_at(order, meta_at(b, 4), 0);
            let size = word_at(order, meta_at(b, 4), 1);
            match r.action {
                Ok(CudaAction::Launch(launch)) => {
                    &&& at_hand(b, 5, reads)
                    &&& launch.kernel == Kernel::RmsNormWeightBwd
                    &&& one_thread_each(launch.config, size as int)
                    &&& launch.args@ == seq![
                        KernelArg::<B>::Read(held(b, 0).slice),
                        KernelArg::<B>::Read(held(b, 1).slice),
                        KernelArg::<B>::Read(held(b, 2).slice),
                        KernelArg::<B>::Write(held(b, 3).slice),
                        KernelArg::<B>::U32(seq_len),
                        KernelArg::<B>::U32(size),
                    ]
                },
                Ok(_) => false,
                Err(e) => {
                    ||| lacks(b, 5, reads, e)
                    ||| at_hand(b, 5, reads) && e == (DispatchError::GridOverflow {
                        extent: size,
                    }) && size > u32::MAX - 255
                },
            }
        }),
{
    let b = bound_by(nodes, at);
    law_op_named(CudaOp::Launch(Kernel::RmsNormWeightBwd));
    assert(nodes_view(nodes@)[at as int] == nodes@[at as int]@);
    lemma_first_missing(b, 5);
    law_blocks_cover(word_at(order, meta_at(b, 4), 1), 256);
}

// ------------------------------------------------------------------ loss ---

/// The losses: one thread for each row of logits. The logits and the targets are
/// read, the probabilities and the losses are written.
pub proof fn law_cross_entropy<B: Backend>(
    order: ByteOrder,
    nodes: &Vec<ComputeNode<B>>,
    at: usize,
    live: Option<&Vec<u8>>,
    r: CudaStep<B>,
)
    requires
        call_ensures(execute_cuda_graph::<B>, (order, nodes, at, live), r),
        runs(nodes, at, "CrossEntropy"@),
    ensures
        ({
            let b = bound_by(nodes, at);
            let reads = Some(Reads { slot: 4, words: 2, whole: true });
            let vocab_size = word_at(order, meta_at(b, 4), 0);
            let num_rows = word_at(order, meta_at(b, 4), 1);
            match r.action {
                Ok(CudaAction::Launch(launch)) => {
                    &&& at_hand(b, 5, reads)
                    &&& launch.kernel == Kernel::CrossEntropy
                    &&& one_thread_each(launch.config, num_rows as int)
                    &&& launch.args@ == seq![
                        KernelArg::<B>::Read(held(b, 0).slice),
                        KernelArg::<B>::Read(held(b, 1).slice),
                        KernelArg::<B>::Write(held(b, 2).slice),
                        KernelArg::<B>::Write(held(b, 3).slice),
                        KernelArg::<B>::U32(vocab_size),
                        KernelArg::<B>::U32(num_rows),
                    ]
                },
                Ok(_) => false,
                Err(e) => {
                    ||| lacks(b, 5, reads, e)
                    ||| at_hand(b, 5, reads) && e == (DispatchError::GridOverflow {
                        extent: num_rows,
                    }) && num_rows > u32::MAX - 255
                },
            }
        }),
{
    let b = bound_by(nodes, at);
    law_op_named(CudaOp::Launch(Kernel::CrossEntropy));
    assert(nodes_view(nodes@)[at as int] == nodes@[at as int]@);
    lemma_first_missing(b, 5);
    law_blocks_cover(word_at(order, meta_at(b, 4), 1), 256);
}

/// The losses backward: one thread for each row. The probabilities, the targets
/// and the losses' gradients are read, and the logits' gradients are written.
pub proof fn law_cross_entropy_bwd<B: Backend>(
    order: ByteOrder,
    nodes: &Vec<ComputeNode<B>>,
    at: usize,
    live: Option<&Vec<u8>>,
    r: CudaStep<B>,
)
    requires
        call_ensures(execute_cuda_graph::<B>, (order, nodes, at, live), r),
        runs(nodes, at, "CrossEntropyBwd"@),
    ensures
        ({
            let b = bound_by(nodes, at);
            let reads = Some(Reads { slot: 4, words: 2, whole: true });
            let vocab_size = word_at(order, meta_at(b, 4), 0);
            let num_rows = word_at(order, meta_at(b, 4), 1);
            match r.action {
                Ok(CudaAction::Launch(launch)) => {
                    &&& at_hand(b, 5, reads)
                    &&& launch.kernel == Kernel::CrossEntropyBwd
                    &&& one_thread_each(launch.config, num_rows as int)
                    &&& launch.args@ == seq![
                        KernelArg::<B>::Read(held(b, 0).slice),
                        KernelArg::<B>::Read(held(b, 1).slice),
                        KernelArg::<B>::Read(held(b, 2).slice),
                        KernelArg::<B>::Write(held(b, 3).slice),
                        KernelArg::<B>::U32(vocab_size),
                        KernelArg::<B>::U32(num_rows),
                    ]
                },
                Ok(_) => false,
                Err(e) => {
                    ||| lacks(b, 5, reads, e)
                    ||| at_hand(b, 5, reads) && e == (DispatchError::GridOverflow {
                        extent: num_rows,
                    }) && num_rows > u32::MAX - 255
                },
            }
        }),
{
    let b = bound_by(nodes, at);
    law_op_named(CudaOp::Launch(Kernel::CrossEntropyBwd));
    assert(nodes_view(nodes@)[at as int] == nodes@[at as int]@);
    lemma_first_missing(b, 5);
    law_blocks_cover(word_at(order, meta_at(b, 4), 1), 256);
}

// ------------------------------------------------------------- optimizer ---

/// An optimizer step: where nothing was read back yet, the settings at the last
/// slot are asked for; else there is one thread for each weight, in a single row.
/// The weights and both moments are rewritten, the gradients read, and the
/// settings are those of the bytes that were read back.
pub proof fn law_adamw<B: Backend>(
    order: ByteOrder,
    nodes: &Vec<ComputeNode<B>>,
    at: usize,
    live: Option<&Vec<u8>>,
    r: CudaStep<B>,
)
    requires
        call_ensures(execute_cuda_graph::<B>, (order, nodes, at, live), r),
        runs(nodes, at, "AdamW"@),
    ensures
        ({
            let b = bound_by(nodes, at);
            let reads = Some(Reads { slot: 4, words: 1, whole: true });
            let size = word_at(order, meta_at(b, 4), 0);
            let settings = tensor_bytes(live->0@, held(b, 5).size);
            match r.action {
                Ok(CudaAction::ReadMeta(slice)) => {
                    &&& at_hand(b, 6, reads)
                    &&& live is None
                    &&& slice == held(b, 5).slice
                },
                Ok(CudaAction::Launch(launch)) => {
                    &&& at_hand(b, 6, reads)
                    &&& live is Some
                    &&& settings.len() >= 24
                    &&& launch.kernel == Kernel::AdamW
                    &&& one_thread_each(launch.config, size as int)
                    &&& launch.args@ == seq![
                        KernelArg::<B>::Write(held(b, 0).slice),
                        KernelArg::<B>::Read(held(b, 1).slice),
                        KernelArg::<B>::Write(held(b, 2).slice),
                        KernelArg::<B>::Write(held(b, 3).slice),
                        KernelArg::<B>::U32(size),
                        KernelArg::<B>::U32(word_at(order, settings, 0)),
                        KernelArg::<B>::F32(word_at(order, settings, 1)),
                        KernelArg::<B>::F32(word_at(order, settings, 2)),
                        KernelArg::<B>::F32(word_at(order, settings, 3)),
                        KernelArg::<B>::F32(word_at(order, settings, 4)),
                        KernelArg::<B>::F32(word_at(order, settings, 5)),
                    ]
                },
                Ok(_) => false,
                Err(e) => {
                    ||| lacks(b, 6, reads, e)
                    ||| at_hand(b, 6, reads) && live is Some && settings.len() < 24 && e == (
                    DispatchError::MetaTooShort { len: settings.len() as usize, words: 6 })
                    ||| at_hand(b, 6, reads) && live is Some && settings.len() >= 24 && e == (
                    DispatchError::GridOverflow { extent: size }) && size > u32::MAX - 255
                },
            }
        }),
{
    let b = bound_by(nodes, at);
    law_op_named(CudaOp::Launch(Kernel::AdamW));
    assert(nodes_view(nodes@)[at as int] == nodes@[at as int]@);
    lemma_first_missing(b, 6);
    law_blocks_cover(word_at(order, meta_at(b, 4), 0), 256);
}

// ------------------------------------------------------- multiplications ---

/// Multiplying: a row-major `C[m,n] = A[m,k] x B[k,n]`, or `x B[n,k]^T` where
/// `B` is transposed. In exact arithmetic each place of `C` comes to hold the
/// products of a row of `A` and a column of the other factor, summed.
pub proof fn law_matmul<B: Backend>(
    order: ByteOrder,
    nodes: &Vec<ComputeNode<B>>,
    at: usize,
    live: Option<&Vec<u8>>,
    r: CudaStep<B>,
    transposed: bool,
    x: Seq<int>,
    y: Seq<int>,
    z: Seq<int>,
    row: int,
    col: int,
)
    requires
        call_ensures(execute_cuda_graph::<B>, (order, nodes, at, live), r),
        runs(
            nodes,
            at,
            if transposed {
                "MatMulTrp"@
            } else {
                "MatMul"@
            },
        ),
    ensures
        ({
            let b = bound_by(nodes, at);
            let reads = Some(Reads { slot: 3, words: 3, whole: true });
            let m = word_at(order, meta_at(b, 3), 0);
            let n = word_at(order, meta_at(b, 3), 1);
            let k = word_at(order, meta_at(b, 3), 2);
            match r.action {
                Ok(CudaAction::Gemm(call)) => {
                    &&& at_hand(b, 4, reads)
                    &&& call.label@ == "MatMul"@
                    &&& call.alpha == 1 && call.beta == 0
                    &&& call.transa == (if transposed {
                        GemmOp::Trans
                    } else {
                        GemmOp::NoTrans
                    })
                    &&& call.transb == GemmOp::NoTrans
                    &&& call.b == held(b, 0).slice
                    &&& call.a == held(b, 1).slice
                    &&& call.c == held(b, 2).slice
                    &&& (call.n as u32, call.m as u32, call.k as u32) == (m, n, k)
                    &&& call.ldc as u32 == n
                    &&& call.ldb as u32 == k
                    &&& call.lda as u32 == (if transposed {
                        k
                    } else {
                        n
                    })
                    &&& (m <= i32::MAX && n <= i32::MAX && k <= i32::MAX && 0 <= row < m && 0
                        <= col < n) ==> {
                        &&& c_index(call, col, row) == row * n + col
                        &&& gemm_element(call, y, x, z, col, row) == sum(
                            k as nat,
                            |l: int|
                                x[row * k + l] * (if transposed {
                                    y[col * k + l]
                                } else {
                                    y[l * n + col]
                                }),
                        )
                    }
                },
                Ok(_) => false,
                Err(e) => lacks(b, 4, reads, e),
            }
        }),
{
    let b = bound_by(nodes, at);
    let m = word_at(order, meta_at(b, 3), 0);
    let n = word_at(order, meta_at(b, 3), 1);
    let k = word_at(order, meta_at(b, 3), 2);
    law_op_named(CudaOp::MatMul);
    law_op_named(CudaOp::MatMulTrp);
    assert(nodes_view(nodes@)[at as int] == nodes@[at as int]@);
    lemma_first_missing(b, 4);
    lemma_signed_and_back(m);
    lemma_signed_and_back(n);
    lemma_signed_and_back(k);
    match r.action {
        Ok(CudaAction::Gemm(call)) => {
            let dims = meta_u32_spec(order, held(b, 3), 3)->Ok_0;
            if m <= i32::MAX && n <= i32::MAX && k <= i32::MAX && 0 <= row < m && 0 <= col < n {
                law_matmul_computes_the_product(
                    order,
                    b,
                    transposed,
                    call,
                    dims,
                    x,
                    y,
                    z,
                    row,
                    col,
                );
                let f = |l: int|
                    x[row_major(row, l, dims[2] as int)] * y[op_b_index(
                        dims,
                        transposed,
                        l,
                        col,
                    )];
                let g = |l: int|
                    x[row * k + l] * (if transposed {
                        y[col * k + l]
                    } else {
                        y[l * n + col]
                    });
                lemma_sums_agree(k as nat, f, g);
            }
        },
        _ => {},
    }
}

/// Multiplying backward to the weights: a row-major `dB[k,n] += A[m,k]^T x
/// dC[m,n]`. In exact arithmetic each place of `dB` gains the products of a
/// column of `A` and a column of `dC`, summed.
pub proof fn law_matmul_weight_bwd<B: Backend>(
    order: ByteOrder,
    nodes: &Vec<ComputeNode<B>>,
    at: usize,
    live: Option<&Vec<u8>>,
    r: CudaStep<B>,
    x: Seq<int>,
    dz: Seq<int>,
    dy: Seq<int>,
    row: int,
    col: int,
)
    requires
        call_ensures(execute_cuda_graph::<B>, (order, nodes, at, live), r),
        runs(nodes, at, "MatMulWeightBwd"@),
    ensures
        ({
            let b = bound_by(nodes, at);
            let reads = Some(Reads { slot: 3, words: 3, whole: true });
            let m = word_at(order, meta_at(b, 3), 0);
            let n = word_at(order, meta_at(b, 3), 1);
            let k = word_at(order, meta_at(b, 3), 2);
            match r.action {
                Ok(CudaAction::Gemm(call)) => {
                    &&& at_hand(b, 4, reads)
                    &&& call.label@ == "MatMulWeightBwd"@
                    &&& call.alpha == 1 && call.beta == 1
                    &&& call.transa == GemmOp::NoTrans
                    &&& call.transb == GemmOp::Trans
                    &&& call.b == held(b, 0).slice
                    &&& call.a == held(b, 1).slice
                    &&& call.c == held(b, 2).slice
                    &&& (call.k as u32, call.m as u32, call.n as u32) == (m, n, k)
                    &&& call.lda as u32 == n
                    &&& call.ldb as u32 == k
                    &&& call.ldc as u32 == n
                    &&& (m <= i32::MAX && n <= i32::MAX && k <= i32::MAX && 0 <= row < k && 0
                        <= col < n) ==> {
                        &&& c_index(call, col, row) == row * n + col
                        &&& gemm_element(call, dz, x, dy, col, row) == dy[row * n + col] + sum(
                            m as nat,
                            |l: int| x[l * k + row] * dz[l * n + col],
                        )
                    }
                },
                Ok(_) => false,
                Err(e) => lacks(b, 4, reads, e),
            }
        }),
{
    let b = bound_by(nodes, at);
    let m = word_at(order, meta_at(b, 3), 0);
    let n = word_at(order, meta_at(b, 3), 1);
    let k = word_at(order, meta_at(b, 3), 2);
    law_op_named(CudaOp::MatMulWeightBwd);
    assert(nodes_view(nodes@)[at as int] == nodes@[at as int]@);
    lemma_first_missing(b, 4);
    lemma_signed_and_back(m);
    lemma_signed_and_back(n);
    lemma_signed_and_back(k);
    match r.action {
        Ok(CudaAction::Gemm(call)) => {
            let dims = meta_u32_spec(order, held(b, 3), 3)->Ok_0;
            if m <= i32::MAX && n <= i32::MAX && k <= i32::MAX && 0 <= row < k && 0 <= col < n {
                law_weight_bwd_accumulates_the_product(order, b, call, dims, x, dz, dy, row, col);
                let f = |l: int|
                    x[row_major(l, row, dims[2] as int)] * dz[row_major(l, col, dims[1] as int)];
                let g = |l: int| x[l * k + row] * dz[l * n + col];
                lemma_sums_agree(m as nat, f, g);
            }
        },
        _ => {},
    }
}

proof fn lemma_signed_and_back(n: u32)
    ensures
        (n as i32) as u32 == n,
{
    assert((n as i32) as u32 == n) by (bit_vector);
}

// ----------------------------------------------------------- other steps ---

/// A shader of any other name is refused.
pub proof fn law_unknown_shaders_are_refused<B: Backend>(
    order: ByteOrder,
    nodes: &Vec<ComputeNode<B>>,
    at: usize,
    live: Option<&Vec<u8>>,
    r: CudaStep<B>,
    shader: Seq<char>,
)
    requires
        call_ensures(execute_cuda_graph::<B>, (order, nodes, at, live), r),
        runs(nodes, at, shader),
        shader != "MatMul"@,
        shader != "MatMulTrp"@,
        shader != "MatMulWeightBwd"@,
        shader != "Embedding"@,
        shader != "EmbeddingBwd"@,
        shader != "CausalMask"@,
        shader != "HeadGather"@,
        shader != "HeadScatter"@,
        shader != "ZeroTensor"@,
        shader != "SiLU"@,
        shader != "SiLUBwd"@,
        shader != "ResidualAdd"@,
        shader != "BwdAddInplace"@,
        shader != "RoPE"@,
        shader != "RoPEBwd"@,
        shader != "Softmax"@,
        shader != "SoftmaxBwd"@,
        shader != "RMSNorm"@,
        shader != "RMSNormBwd"@,
        shader != "RMSNormWeightBwd"@,
        shader != "CrossEntropy"@,
        shader != "CrossEntropyBwd"@,
        shader != "AdamW"@,
    ensures
        r.action matches Err(e) && e == DispatchError::UnknownShader,
{
    assert(nodes_view(nodes@)[at as int] == nodes@[at as int]@);
    assert forall|op: CudaOp| (#[trigger] op.shader_spec())@ != shader by {}
}

/// A step at a node that runs on CUDA goes on past it once it is run. Where it
/// cannot be, or a read-back is asked for first, the step stays at it.
pub proof fn law_steps_go_on_by_one<B: Backend>(
    order: ByteOrder,
    nodes: &Vec<ComputeNode<B>>,
    at: usize,
    live: Option<&Vec<u8>>,
    r: CudaStep<B>,
)
    requires
        call_ensures(execute_cuda_graph::<B>, (order, nodes, at, live), r),
        at < nodes@.len(),
        nodes@[at as int] is Cuda,
    ensures
        match r.action {
            Ok(CudaAction::Gemm(_)) => r.at == at + 1,
            Ok(CudaAction::Launch(_)) => r.at == at + 1,
            Ok(CudaAction::ReadMeta(_)) => r.at == at,
            Ok(CudaAction::Finished) => false,
            Err(_) => r.at == at,
        },
{
    assert(nodes_view(nodes@)[at as int] == nodes@[at as int]@);
}

/// Nodes that run on wgpu are passed over: a step at one comes to what a step at
/// the next position does.
pub proof fn law_steps_pass_over_wgpu_nodes<B: Backend>(
    order: ByteOrder,
    nodes: &Vec<ComputeNode<B>>,
    at: usize,
    after: usize,
    live: Option<&Vec<u8>>,
    r: CudaStep<B>,
    next: CudaStep<B>,
)
    requires
        at < nodes@.len(),
        nodes@[at as int] is Wgpu,
        after == at + 1,
        call_ensures(execute_cuda_graph::<B>, (order, nodes, at, live), r),
        call_ensures(execute_cuda_graph::<B>, (order, nodes, after, live), next),
    ensures
        r.at == next.at,
        match (r.action, next.action) {
            (Ok(first), Ok(second)) => first@ == second@,
            (Err(first), Err(second)) => first == second,
            _ => false,
        },
{
    assert(nodes_view(nodes@)[at as int] == nodes@[at as int]@);
}

/// Past the last node a run is finished.
pub proof fn law_runs_finish<B: Backend>(
    order: ByteOrder,
    nodes: &Vec<ComputeNode<B>>,
    at: usize,
    live: Option<&Vec<u8>>,
    r: CudaStep<B>,
)
    requires
        call_ensures(execute_cuda_graph::<B>, (order, nodes, at, live), r),
        at >= nodes@.len(),
    ensures
        r.action matches Ok(CudaAction::Finished),
        r.at == nodes@.len(),
{
}

// ----------------------------------------------------------------- parts ---

/// Of several tensors at one slot the first is found, and nothing only where
/// none is bound to it.
pub proof fn law_finding_a_binding<'b, B: Backend>(
    bindings: &'b Vec<CudaNodeBinding<B>>,
    idx: u32,
    r: Option<&'b CudaNodeBinding<B>>,
)
    requires
        call_ensures(find::<B>, (bindings, idx), r),
    ensures
        match r {
            Some(b) => exists|i: int|
                #![trigger bindings@[i]]
                0 <= i < bindings@.len() && bindings@[i]@ == b@ && b.binding == idx
                    && forall|j: int|
                    0 <= j < i ==> (#[trigger] bindings@[j]).binding != idx,
            None => forall|i: int|
                0 <= i < bindings@.len() ==> (#[trigger] bindings@[i]).binding != idx,
        },
{
    let view = bindings_view(bindings@);
    law_first_binding_counts(view, idx);
    match r {
        Some(b) => {
            let i = choose|i: int|
                #![trigger view[i]]
                0 <= i < view.len() && view[i] == b@ && b@.binding == idx && forall|j: int|
                    0 <= j < i ==> (#[trigger] view[j]).binding != idx;
            assert(view[i] == bindings@[i]@);
            assert forall|j: int| 0 <= j < i implies (#[trigger] bindings@[j]).binding != idx by {
                assert(view[j].binding != idx);
            }
        },
        None => {
            assert forall|i: int| 0 <= i < bindings@.len() implies (
            #[trigger] bindings@[i]).binding != idx by {
                assert(view[i].binding == bindings@[i].binding);
            }
        },
    }
}

/// The words of a meta tensor are the first of its cached bytes, as many as are
/// asked for. They are refused where nothing is cached or too little is, and by
/// one of the two ways of reading also where the bytes make no whole number of
/// words.
pub proof fn law_reading_meta_words<B: Backend>(
    order: ByteOrder,
    b: CudaNodeBinding<B>,
    n: usize,
    whole: bool,
    r: Result<Vec<u32>, DispatchError>,
)
    requires
        whole ==> call_ensures(meta_u32::<B>, (order, &b, n), r),
        !whole ==> call_ensures(meta_fields::<B>, (order, &b, n), r),
    ensures
        match r {
            Ok(found) => {
                &&& b.cached_meta is Some
                &&& 4 * n <= b.cached_meta->0@.len()
                &&& whole ==> b.cached_meta->0@.len() % 4 == 0
                &&& found@.len() == n
                &&& forall|k: int|
                    0 <= k < n ==> #[trigger] found@[k] == word_at(order, b.cached_meta->0@, k)
            },
            Err(DispatchError::NoCachedMeta) => b.cached_meta is None,
            Err(DispatchError::MetaNotWords { len }) => {
                &&& whole
                &&& b.cached_meta is Some
                &&& len == b.cached_meta->0@.len() as usize
                &&& b.cached_meta->0@.len() % 4 != 0
            },
            Err(DispatchError::MetaTooShort { len, words }) => {
                &&& b.cached_meta is Some
                &&& len == b.cached_meta->0@.len() as usize
                &&& words == n
                &&& b.cached_meta->0@.len() < 4 * n
                &&& whole ==> b.cached_meta->0@.len() % 4 == 0
            },
            Err(_) => false,
        },
{
}

/// A row of threads has one for each item, in blocks of 256 with none of them
/// idle. It is refused only where the threads cannot be counted.
pub proof fn law_rows_of_threads(n: u32, r: Result<LaunchConfig, DispatchError>)
    requires
        call_ensures(cfg_1d, (n,), r),
    ensures
        match r {
            Ok(config) => one_thread_each(config, n as int),
            Err(e) => e == (DispatchError::GridOverflow { extent: n }) && n > u32::MAX - 255,
        },
{
    law_blocks_cover(n, 256);
}

/// A tensor has an element for every four bytes.
pub proof fn law_elements_are_of_four_bytes<B: Backend>(b: CudaNodeBinding<B>, r: u32)
    requires
        call_ensures(elem_count::<B>, (&b,), r),
        b.size / 4 <= u32::MAX,
    ensures
        4 * r <= b.size < 4 * r + 4,
{
}

/// The texts of the errors.
pub proof fn law_dispatch_messages(e: DispatchError, shader: &str, r: String)
    requires
        call_ensures(DispatchError::message, (e, shader), r),
    ensures
        e is UnknownShader ==> r@ == "[wilupgu] CUDA backend: no kernel mapping for shader '"@
            + shader@ + "'"@,
        e is MissingBinding ==> r@ == "missing binding index"@,
        e is NoCachedMeta ==> r@
            == "meta_bytes called on a binding with no cached meta readback (not TensorMode::Meta?)"@,
        e matches DispatchError::MetaNotWords { len } ==> r@ == "meta tensor of "@ + decimal(
            len as nat,
        ) + " bytes does not hold whole words"@,
        e matches DispatchError::MetaTooShort { len, words } ==> r@ == "meta tensor of "@
            + decimal(len as nat) + " bytes holds fewer than "@ + decimal(words as nat)
            + " words"@,
        e matches DispatchError::GridOverflow { extent } ==> r@
            == "no grid covers an extent of "@ + decimal(extent as nat),
{
}

} // verus!
