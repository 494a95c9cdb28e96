//! The operations of the CUDA backend: their names, and for each kernel what it
//! reads, how it is laid out on the device and which arguments it takes.
use vstd::prelude::*;

use crate::text::same_text;

verus! {

/// A kernel compiled from CUDA C.
#[derive(Debug, Clone, Copy, PartialEq, Eq, Structural)]
pub enum Kernel {
    Embedding,
    EmbeddingBwd,
    CausalMask,
    HeadGather,
    HeadScatter,
    ZeroTensor,
    Silu,
    SiluBwd,
    Add,
    BwdAddInplace,
    Rope,
    RopeBwd,
    Softmax,
    SoftmaxBwd,
    RmsNorm,
    RmsNormBwd,
    RmsNormWeightBwd,
    CrossEntropy,
    CrossEntropyBwd,
    AdamW,
}

/// What a shader's name stands for on CUDA.
#[derive(Debug, Clone, Copy, PartialEq, Eq, Structural)]
pub enum CudaOp {
    /// `C = A x B`, by cuBLAS.
    MatMul,
    /// `C = A x B^T`, by cuBLAS.
    MatMulTrp,
    /// `dB += A^T x dC`, by cuBLAS.
    MatMulWeightBwd,
    /// A kernel.
    Launch(Kernel),
}

impl Kernel {
    /// The key under which the compiled kernel is cached.
    pub open spec fn key_spec(self) -> &'static str {
        match self {
            Kernel::Embedding => "embedding",
            Kernel::EmbeddingBwd => "embedding_bwd",
            Kernel::CausalMask => "causal_mask",
            Kernel::HeadGather => "head_gather",
            Kernel::HeadScatter => "head_scatter",
            Kernel::ZeroTensor => "zero_tensor",
            Kernel::Silu => "silu",
            Kernel::SiluBwd => "silu_bwd",
            Kernel::Add => "add",
            Kernel::BwdAddInplace => "bwd_add_inplace",
            Kernel::Rope => "rope",
            Kernel::RopeBwd => "rope_bwd",
            Kernel::Softmax => "softmax",
            Kernel::SoftmaxBwd => "softmax_bwd",
            Kernel::RmsNorm => "rmsnorm",
            Kernel::RmsNormBwd => "rmsnorm_bwd",
            Kernel::RmsNormWeightBwd => "rmsnorm_weight_bwd",
            Kernel::CrossEntropy => "cross_entropy",
            Kernel::CrossEntropyBwd => "cross_entropy_bwd",
            Kernel::AdamW => "adamw",
        }
    }

    /// The key under which the compiled kernel is cached.
    pub fn key(self) -> (r: &'static str)
        ensures
            r == self.key_spec(),
    {
        match self {
            Kernel::Embedding => "embedding",
            Kernel::EmbeddingBwd => "embedding_bwd",
            Kernel::CausalMask => "causal_mask",
            Kernel::HeadGather => "head_gather",
            Kernel::HeadScatter => "head_scatter",
            Kernel::ZeroTensor => "zero_tensor",
            Kernel::Silu => "silu",
            Kernel::SiluBwd => "silu_bwd",
            Kernel::Add => "add",
            Kernel::BwdAddInplace => "bwd_add_inplace",
            Kernel::Rope => "rope",
            Kernel::RopeBwd => "rope_bwd",
            Kernel::Softmax => "softmax",
            Kernel::SoftmaxBwd => "softmax_bwd",
            Kernel::RmsNorm => "rmsnorm",
            Kernel::RmsNormBwd => "rmsnorm_bwd",
            Kernel::RmsNormWeightBwd => "rmsnorm_weight_bwd",
            Kernel::CrossEntropy => "cross_entropy",
            Kernel::CrossEntropyBwd => "cross_entropy_bwd",
            Kernel::AdamW => "adamw",
        }
    }

    /// The name of the kernel's function in its source.
    pub open spec fn function_spec(self) -> &'static str {
        match self {
            Kernel::Embedding => "embedding_kernel",
            Kernel::EmbeddingBwd => "embedding_bwd_kernel",
            Kernel::CausalMask => "causal_mask_kernel",
            Kernel::HeadGather => "head_gather_kernel",
            Kernel::HeadScatter => "head_scatter_kernel",
            Kernel::ZeroTensor => "zero_tensor_kernel",
            Kernel::Silu => "silu_kernel",
            Kernel::SiluBwd => "silu_bwd_kernel",
            Kernel::Add => "add_kernel",
            Kernel::BwdAddInplace => "bwd_add_inplace_kernel",
            Kernel::Rope => "rope_kernel",
            Kernel::RopeBwd => "rope_bwd_kernel",
            Kernel::Softmax => "softmax_kernel",
            Kernel::SoftmaxBwd => "softmax_bwd_kernel",
            Kernel::RmsNorm => "rmsnorm_kernel",
            Kernel::RmsNormBwd => "rmsnorm_bwd_kernel",
            Kernel::RmsNormWeightBwd => "rmsnorm_weight_bwd_kernel",
            Kernel::CrossEntropy => "cross_entropy_kernel",
            Kernel::CrossEntropyBwd => "cross_entropy_bwd_kernel",
            Kernel::AdamW => "adamw_kernel",
        }
    }

    /// The name of the kernel's function in its source.
    pub fn function(self) -> (r: &'static str)
        ensures
            r == self.function_spec(),
    {
        match self {
            Kernel::Embedding => "embedding_kernel",
            Kernel::EmbeddingBwd => "embedding_bwd_kernel",
            Kernel::CausalMask => "causal_mask_kernel",
            Kernel::HeadGather => "head_gather_kernel",
            Kernel::HeadScatter => "head_scatter_kernel",
            Kernel::ZeroTensor => "zero_tensor_kernel",
            Kernel::Silu => "silu_kernel",
            Kernel::SiluBwd => "silu_bwd_kernel",
            Kernel::Add => "add_kernel",
            Kernel::BwdAddInplace => "bwd_add_inplace_kernel",
            Kernel::Rope => "rope_kernel",
            Kernel::RopeBwd => "rope_bwd_kernel",
            Kernel::Softmax => "softmax_kernel",
            Kernel::SoftmaxBwd => "softmax_bwd_kernel",
            Kernel::RmsNorm => "rmsnorm_kernel",
            Kernel::RmsNormBwd => "rmsnorm_bwd_kernel",
            Kernel::RmsNormWeightBwd => "rmsnorm_weight_bwd_kernel",
            Kernel::CrossEntropy => "cross_entropy_kernel",
            Kernel::CrossEntropyBwd => "cross_entropy_bwd_kernel",
            Kernel::AdamW => "adamw_kernel",
        }
    }
}

impl CudaOp {
    /// The name of the shader that stands for the operation.
    pub open spec fn shader_spec(self) -> &'static str {
        match self {
            CudaOp::MatMul => "MatMul",
            CudaOp::MatMulTrp => "MatMulTrp",
            CudaOp::MatMulWeightBwd => "MatMulWeightBwd",
            CudaOp::Launch(kernel) => match kernel {
                Kernel::Embedding => "Embedding",
                Kernel::EmbeddingBwd => "EmbeddingBwd",
                Kernel::CausalMask => "CausalMask",
                Kernel::HeadGather => "HeadGather",
                Kernel::HeadScatter => "HeadScatter",
                Kernel::ZeroTensor => "ZeroTensor",
                Kernel::Silu => "SiLU",
                Kernel::SiluBwd => "SiLUBwd",
                Kernel::Add => "ResidualAdd",
                Kernel::BwdAddInplace => "BwdAddInplace",
                Kernel::Rope => "RoPE",
                Kernel::RopeBwd => "RoPEBwd",
                Kernel::Softmax => "Softmax",
                Kernel::SoftmaxBwd => "SoftmaxBwd",
                Kernel::RmsNorm => "RMSNorm",
                Kernel::RmsNormBwd => "RMSNormBwd",
                Kernel::RmsNormWeightBwd => "RMSNormWeightBwd",
                Kernel::CrossEntropy => "CrossEntropy",
                Kernel::CrossEntropyBwd => "CrossEntropyBwd",
                Kernel::AdamW => "AdamW",
            },
        }
    }
}

/// The length and the first two letters of a shader's name, which tell all of
/// them apart.
spec fn shader_mark(op: CudaOp) -> (nat, char, char) {
    match op {
        CudaOp::MatMul => (6, 'M', 'a'),
        CudaOp::MatMulTrp => (9, 'M', 'a'),
        CudaOp::MatMulWeightBwd => (15, 'M', 'a'),
        CudaOp::Launch(kernel) => match kernel {
            Kernel::Embedding => (9, 'E', 'm'),
            Kernel::EmbeddingBwd => (12, 'E', 'm'),
            Kernel::CausalMask => (10, 'C', 'a'),
            Kernel::HeadGather => (10, 'H', 'e'),
            Kernel::HeadScatter => (11, 'H', 'e'),
            Kernel::ZeroTensor => (10, 'Z', 'e'),
            Kernel::Silu => (4, 'S', 'i'),
            Kernel::SiluBwd => (7, 'S', 'i'),
            Kernel::Add => (11, 'R', 'e'),
            Kernel::BwdAddInplace => (13, 'B', 'w'),
            Kernel::Rope => (4, 'R', 'o'),
            Kernel::RopeBwd => (7, 'R', 'o'),
            Kernel::Softmax => (7, 'S', 'o'),
            Kernel::SoftmaxBwd => (10, 'S', 'o'),
            Kernel::RmsNorm => (7, 'R', 'M'),
            Kernel::RmsNormBwd => (10, 'R', 'M'),
            Kernel::RmsNormWeightBwd => (16, 'R', 'M'),
            Kernel::CrossEntropy => (12, 'C', 'r'),
            Kernel::CrossEntropyBwd => (15, 'C', 'r'),
            Kernel::AdamW => (5, 'A', 'd'),
        },
    }
}

/// The length and the first letter of a kernel's key, which tell all of them
/// apart.
spec fn key_mark(kernel: Kernel) -> (nat, char) {
    match kernel {
        Kernel::Embedding => (9, 'e'),
        Kernel::EmbeddingBwd => (13, 'e'),
        Kernel::CausalMask => (11, 'c'),
        Kernel::HeadGather => (11, 'h'),
        Kernel::HeadScatter => (12, 'h'),
        Kernel::ZeroTensor => (11, 'z'),
        Kernel::Silu => (4, 's'),
        Kernel::SiluBwd => (8, 's'),
        Kernel::Add => (3, 'a'),
        Kernel::BwdAddInplace => (15, 'b'),
        Kernel::Rope => (4, 'r'),
        Kernel::RopeBwd => (8, 'r'),
        Kernel::Softmax => (7, 's'),
        Kernel::SoftmaxBwd => (11, 's'),
        Kernel::RmsNorm => (7, 'r'),
        Kernel::RmsNormBwd => (11, 'r'),
        Kernel::RmsNormWeightBwd => (18, 'r'),
        Kernel::CrossEntropy => (13, 'c'),
        Kernel::CrossEntropyBwd => (17, 'c'),
        Kernel::AdamW => (5, 'a'),
    }
}

proof fn lemma_shader_mark(op: CudaOp)
    ensures
        op.shader_spec()@.len() == shader_mark(op).0,
        op.shader_spec()@[0] == shader_mark(op).1,
        op.shader_spec()@[1] == shader_mark(op).2,
{
    reveal_strlit("MatMul");
    reveal_strlit("MatMulTrp");
    reveal_strlit("MatMulWeightBwd");
    reveal_strlit("Embedding");
    reveal_strlit("EmbeddingBwd");
    reveal_strlit("CausalMask");
    reveal_strlit("HeadGather");
    reveal_strlit("HeadScatter");
    reveal_strlit("ZeroTensor");
    reveal_strlit("SiLU");
    reveal_strlit("SiLUBwd");
    reveal_strlit("ResidualAdd");
    reveal_strlit("BwdAddInplace");
    reveal_strlit("RoPE");
    reveal_strlit("RoPEBwd");
    reveal_strlit("Softmax");
    reveal_strlit("SoftmaxBwd");
    reveal_strlit("RMSNorm");
    reveal_strlit("RMSNormBwd");
    reveal_strlit("RMSNormWeightBwd");
    reveal_strlit("CrossEntropy");
    reveal_strlit("CrossEntropyBwd");
    reveal_strlit("AdamW");
}

proof fn lemma_key_mark(kernel: Kernel)
    ensures
        kernel.key_spec()@.len() == key_mark(kernel).0,
        kernel.key_spec()@[0] == key_mark(kernel).1,
{
    reveal_strlit("embedding");
    reveal_strlit("embedding_bwd");
    reveal_strlit("causal_mask");
    reveal_strlit("head_gather");
    reveal_strlit("head_scatter");
    reveal_strlit("zero_tensor");
    reveal_strlit("silu");
    reveal_strlit("silu_bwd");
    reveal_strlit("add");
    reveal_strlit("bwd_add_inplace");
    reveal_strlit("rope");
    reveal_strlit("rope_bwd");
    reveal_strlit("softmax");
    reveal_strlit("softmax_bwd");
    reveal_strlit("rmsnorm");
    reveal_strlit("rmsnorm_bwd");
    reveal_strlit("rmsnorm_weight_bwd");
    reveal_strlit("cross_entropy");
    reveal_strlit("cross_entropy_bwd");
    reveal_strlit("adamw");
}

/// No two operations share a shader name.
pub proof fn law_shader_names_differ(first: CudaOp, second: CudaOp)
    requires
        first.shader_spec()@ == second.shader_spec()@,
    ensures
        first == second,
{
    lemma_shader_mark(first);
    lemma_shader_mark(second);
}

/// No two kernels share a cache key, so a cached function is never taken for
/// that of another kernel.
pub proof fn law_kernel_keys_differ(first: Kernel, second: Kernel)
    requires
        first.key_spec()@ == second.key_spec()@,
    ensures
        first == second,
{
    lemma_key_mark(first);
    lemma_key_mark(second);
}

/// The function of every kernel is named after its key.
pub proof fn law_function_names(kernel: Kernel)
    ensures
        kernel.function_spec()@ == kernel.key_spec()@ + "_kernel"@,
{
    reveal_strlit("_kernel");
    reveal_strlit("embedding");
    reveal_strlit("embedding_kernel");
    reveal_strlit("embedding_bwd");
    reveal_strlit("embedding_bwd_kernel");
    reveal_strlit("causal_mask");
    reveal_strlit("causal_mask_kernel");
    reveal_strlit("head_gather");
    reveal_strlit("head_gather_kernel");
    reveal_strlit("head_scatter");
    reveal_strlit("head_scatter_kernel");
    reveal_strlit("zero_tensor");
    reveal_strlit("zero_tensor_kernel");
    reveal_strlit("silu");
    reveal_strlit("silu_kernel");
    reveal_strlit("silu_bwd");
    reveal_strlit("silu_bwd_kernel");
    reveal_strlit("add");
    reveal_strlit("add_kernel");
    reveal_strlit("bwd_add_inplace");
    reveal_strlit("bwd_add_inplace_kernel");
    reveal_strlit("rope");
    reveal_strlit("rope_kernel");
    reveal_strlit("rope_bwd");
    reveal_strlit("rope_bwd_kernel");
    reveal_strlit("softmax");
    reveal_strlit("softmax_kernel");
    reveal_strlit("softmax_bwd");
    reveal_strlit("softmax_bwd_kernel");
    reveal_strlit("rmsnorm");
    reveal_strlit("rmsnorm_kernel");
    reveal_strlit("rmsnorm_bwd");
    reveal_strlit("rmsnorm_bwd_kernel");
    reveal_strlit("rmsnorm_weight_bwd");
    reveal_strlit("rmsnorm_weight_bwd_kernel");
    reveal_strlit("cross_entropy");
    reveal_strlit("cross_entropy_kernel");
    reveal_strlit("cross_entropy_bwd");
    reveal_strlit("cross_entropy_bwd_kernel");
    reveal_strlit("adamw");
    reveal_strlit("adamw_kernel");
    assert(kernel.function_spec()@ =~= kernel.key_spec()@ + "_kernel"@);
}

/// The operation that a shader of this name stands for, if there is one.
pub open spec fn op_named(name: Seq<char>) -> Option<CudaOp> {
    if exists|op: CudaOp| (#[trigger] op.shader_spec())@ == name {
        Some(choose|op: CudaOp| (#[trigger] op.shader_spec())@ == name)
    } else {
        None
    }
}

/// The operation of a name is the one whose shader has it.
pub proof fn law_op_named(op: CudaOp)
    ensures
        op_named(op.shader_spec()@) == Some(op),
{
    let found = choose|other: CudaOp|
        (#[trigger] other.shader_spec())@ == op.shader_spec()@;
    law_shader_names_differ(found, op);
}

impl CudaOp {
    /// The operation that a shader of this name stands for, if there is one.
    pub fn from_name(name: &str) -> (r: Option<CudaOp>)
        ensures
            r == op_named(name@),
    {
        let r: Option<CudaOp> = if same_text(name, "MatMul") {
            Some(CudaOp::MatMul)
        } else if same_text(name, "MatMulTrp") {
            Some(CudaOp::MatMulTrp)
        } else if same_text(name, "MatMulWeightBwd") {
            Some(CudaOp::MatMulWeightBwd)
        } else if same_text(name, "Embedding") {
            Some(CudaOp::Launch(Kernel::Embedding))
        } else if same_text(name, "EmbeddingBwd") {
            Some(CudaOp::Launch(Kernel::EmbeddingBwd))
        } else if same_text(name, "CausalMask") {
            Some(CudaOp::Launch(Kernel::CausalMask))
        } else if same_text(name, "HeadGather") {
            Some(CudaOp::Launch(Kernel::HeadGather))
        } else if same_text(name, "HeadScatter") {
            Some(CudaOp::Launch(Kernel::HeadScatter))
        } else if same_text(name, "ZeroTensor") {
            Some(CudaOp::Launch(Kernel::ZeroTensor))
        } else if same_text(name, "SiLU") {
            Some(CudaOp::Launch(Kernel::Silu))
        } else if same_text(name, "SiLUBwd") {
            Some(CudaOp::Launch(Kernel::SiluBwd))
        } else if same_text(name, "ResidualAdd") {
            Some(CudaOp::Launch(Kernel::Add))
        } else if same_text(name, "BwdAddInplace") {
            Some(CudaOp::Launch(Kernel::BwdAddInplace))
        } else if same_text(name, "RoPE") {
            Some(CudaOp::Launch(Kernel::Rope))
        } else if same_text(name, "RoPEBwd") {
            Some(CudaOp::Launch(Kernel::RopeBwd))
        } else if same_text(name, "Softmax") {
            Some(CudaOp::Launch(Kernel::Softmax))
        } else if same_text(name, "SoftmaxBwd") {
            Some(CudaOp::Launch(Kernel::SoftmaxBwd))
        } else if same_text(name, "RMSNorm") {
            Some(CudaOp::Launch(Kernel::RmsNorm))
        } else if same_text(name, "RMSNormBwd") {
            Some(CudaOp::Launch(Kernel::RmsNormBwd))
        } else if same_text(name, "RMSNormWeightBwd") {
            Some(CudaOp::Launch(Kernel::RmsNormWeightBwd))
        } else if same_text(name, "CrossEntropy") {
            Some(CudaOp::Launch(Kernel::CrossEntropy))
        } else if same_text(name, "CrossEntropyBwd") {
            Some(CudaOp::Launch(Kernel::CrossEntropyBwd))
        } else if same_text(name, "AdamW") {
            Some(CudaOp::Launch(Kernel::AdamW))
        } else {
            None
        };
        proof {
            match r {
                Some(op) => {
                    law_op_named(op);
                },
                None => {
                    assert(forall|op: CudaOp| (#[trigger] op.shader_spec())@ != name@);
                },
            }
        }
        r
    }
}

/// Each kernel is cached under its own key, and its function is the one that its
/// source names after that key.
pub proof fn law_kernels_are_known_by_their_keys(
    kernel: Kernel,
    key: &'static str,
    function: &'static str,
)
    requires
        call_ensures(Kernel::key, (kernel,), key),
        call_ensures(Kernel::function, (kernel,), function),
    ensures
        function@ == key@ + "_kernel"@,
        key@ == "embedding"@ <==> kernel == Kernel::Embedding,
        key@ == "embedding_bwd"@ <==> kernel == Kernel::EmbeddingBwd,
        key@ == "causal_mask"@ <==> kernel == Kernel::CausalMask,
        key@ == "head_gather"@ <==> kernel == Kernel::HeadGather,
        key@ == "head_scatter"@ <==> kernel == Kernel::HeadScatter,
        key@ == "zero_tensor"@ <==> kernel == Kernel::ZeroTensor,
        key@ == "silu"@ <==> kernel == Kernel::Silu,
        key@ == "silu_bwd"@ <==> kernel == Kernel::SiluBwd,
        key@ == "add"@ <==> kernel == Kernel::Add,
        key@ == "bwd_add_inplace"@ <==> kernel == Kernel::BwdAddInplace,
        key@ == "rope"@ <==> kernel == Kernel::Rope,
        key@ == "rope_bwd"@ <==> kernel == Kernel::RopeBwd,
        key@ == "softmax"@ <==> kernel == Kernel::Softmax,
        key@ == "softmax_bwd"@ <==> kernel == Kernel::SoftmaxBwd,
        key@ == "rmsnorm"@ <==> kernel == Kernel::RmsNorm,
        key@ == "rmsnorm_bwd"@ <==> kernel == Kernel::RmsNormBwd,
        key@ == "rmsnorm_weight_bwd"@ <==> kernel == Kernel::RmsNormWeightBwd,
        key@ == "cross_entropy"@ <==> kernel == Kernel::CrossEntropy,
        key@ == "cross_entropy_bwd"@ <==> kernel == Kernel::CrossEntropyBwd,
        key@ == "adamw"@ <==> kernel == Kernel::AdamW,
{
    law_function_names(kernel);
    lemma_key_mark(Kernel::Embedding);
    lemma_key_mark(Kernel::EmbeddingBwd);
    lemma_key_mark(Kernel::CausalMask);
    lemma_key_mark(Kernel::HeadGather);
    lemma_key_mark(Kernel::HeadScatter);
    lemma_key_mark(Kernel::ZeroTensor);
    lemma_key_mark(Kernel::Silu);
    lemma_key_mark(Kernel::SiluBwd);
    lemma_key_mark(Kernel::Add);
    lemma_key_mark(Kernel::BwdAddInplace);
    lemma_key_mark(Kernel::Rope);
    lemma_key_mark(Kernel::RopeBwd);
    lemma_key_mark(Kernel::Softmax);
    lemma_key_mark(Kernel::SoftmaxBwd);
    lemma_key_mark(Kernel::RmsNorm);
    lemma_key_mark(Kernel::RmsNormBwd);
    lemma_key_mark(Kernel::RmsNormWeightBwd);
    lemma_key_mark(Kernel::CrossEntropy);
    lemma_key_mark(Kernel::CrossEntropyBwd);
    lemma_key_mark(Kernel::AdamW);
    lemma_key_mark(kernel);
}

/// Each shader's name stands for its own operation.
pub proof fn law_shaders_are_known_by_their_names(name: &str, r: Option<CudaOp>)
    requires
        call_ensures(CudaOp::from_name, (name,), r),
    ensures
        name@ == "MatMul"@ <==> r == Some(CudaOp::MatMul),
        name@ == "MatMulTrp"@ <==> r == Some(CudaOp::MatMulTrp),
        name@ == "MatMulWeightBwd"@ <==> r == Some(CudaOp::MatMulWeightBwd),
        name@ == "Embedding"@ <==> r == Some(CudaOp::Launch(Kernel::Embedding)),
        name@ == "EmbeddingBwd"@ <==> r == Some(CudaOp::Launch(Kernel::EmbeddingBwd)),
        name@ == "CausalMask"@ <==> r == Some(CudaOp::Launch(Kernel::CausalMask)),
        name@ == "HeadGather"@ <==> r == Some(CudaOp::Launch(Kernel::HeadGather)),
        name@ == "HeadScatter"@ <==> r == Some(CudaOp::Launch(Kernel::HeadScatter)),
        name@ == "ZeroTensor"@ <==> r == Some(CudaOp::Launch(Kernel::ZeroTensor)),
        name@ == "SiLU"@ <==> r == Some(CudaOp::Launch(Kernel::Silu)),
        name@ == "SiLUBwd"@ <==> r == Some(CudaOp::Launch(Kernel::SiluBwd)),
        name@ == "ResidualAdd"@ <==> r == Some(CudaOp::Launch(Kernel::Add)),
        name@ == "BwdAddInplace"@ <==> r == Some(CudaOp::Launch(Kernel::BwdAddInplace)),
        name@ == "RoPE"@ <==> r == Some(CudaOp::Launch(Kernel::Rope)),
        name@ == "RoPEBwd"@ <==> r == Some(CudaOp::Launch(Kernel::RopeBwd)),
        name@ == "Softmax"@ <==> r == Some(CudaOp::Launch(Kernel::Softmax)),
        name@ == "SoftmaxBwd"@ <==> r == Some(CudaOp::Launch(Kernel::SoftmaxBwd)),
        name@ == "RMSNorm"@ <==> r == Some(CudaOp::Launch(Kernel::RmsNorm)),
        name@ == "RMSNormBwd"@ <==> r == Some(CudaOp::Launch(Kernel::RmsNormBwd)),
        name@ == "RMSNormWeightBwd"@ <==> r == Some(CudaOp::Launch(Kernel::RmsNormWeightBwd)),
        name@ == "CrossEntropy"@ <==> r == Some(CudaOp::Launch(Kernel::CrossEntropy)),
        name@ == "CrossEntropyBwd"@ <==> r == Some(CudaOp::Launch(Kernel::CrossEntropyBwd)),
        name@ == "AdamW"@ <==> r == Some(CudaOp::Launch(Kernel::AdamW)),
{
    law_op_named(CudaOp::MatMul);
    law_op_named(CudaOp::MatMulTrp);
    law_op_named(CudaOp::MatMulWeightBwd);
    law_op_named(CudaOp::Launch(Kernel::Embedding));
    law_op_named(CudaOp::Launch(Kernel::EmbeddingBwd));
    law_op_named(CudaOp::Launch(Kernel::CausalMask));
    law_op_named(CudaOp::Launch(Kernel::HeadGather));
    law_op_named(CudaOp::Launch(Kernel::HeadScatter));
    law_op_named(CudaOp::Launch(Kernel::ZeroTensor));
    law_op_named(CudaOp::Launch(Kernel::Silu));
    law_op_named(CudaOp::Launch(Kernel::SiluBwd));
    law_op_named(CudaOp::Launch(Kernel::Add));
    law_op_named(CudaOp::Launch(Kernel::BwdAddInplace));
    law_op_named(CudaOp::Launch(Kernel::Rope));
    law_op_named(CudaOp::Launch(Kernel::RopeBwd));
    law_op_named(CudaOp::Launch(Kernel::Softmax));
    law_op_named(CudaOp::Launch(Kernel::SoftmaxBwd));
    law_op_named(CudaOp::Launch(Kernel::RmsNorm));
    law_op_named(CudaOp::Launch(Kernel::RmsNormBwd));
    law_op_named(CudaOp::Launch(Kernel::RmsNormWeightBwd));
    law_op_named(CudaOp::Launch(Kernel::CrossEntropy));
    law_op_named(CudaOp::Launch(Kernel::CrossEntropyBwd));
    law_op_named(CudaOp::Launch(Kernel::AdamW));
}

/// Where an argument of a kernel comes from.
pub enum ArgForm {
    /// The slice at a slot, which the kernel reads.
    Read(u32),
    /// The slice at a slot, which the kernel writes.
    Write(u32),
    /// The number of elements of the tensor at the first slot.
    Count,
    /// A word of the meta tensor.
    Word(int),
    /// A word of the meta tensor that holds the bits of an `f32`.
    Float(int),
    /// A word of the live meta tensor.
    LiveWord(int),
    /// A word of the live meta tensor that holds the bits of an `f32`.
    LiveFloat(int),
}

/// How a kernel is laid out over the device. `Word` numbers are those of the
/// meta tensor.
pub enum GridForm {
    /// One thread per element of the first slot.
    Elements,
    /// One thread per item, as many as the word says.
    Items(int),
    /// One block of 256 threads per row, as many as the word says but at least
    /// one.
    Rows(int),
    /// Blocks of 256 threads: as many across as the node's first workgroup
    /// count says, as many down as the word says, at least one either way.
    Columns(int),
    /// Tiles of 16 by 16 threads over a square whose side the word says.
    Square(int),
    /// Tiles of 16 by 16 threads over an area whose width and height the words
    /// say; the width may be halved first. At least one tile either way.
    Tiles { width: int, halved: bool, height: int },
}

/// The meta tensor of a kernel: its slot, the words that are read, and whether
/// the tensor has to hold whole words only.
pub struct MetaForm {
    pub slot: u32,
    pub words: nat,
    pub whole: bool,
}

/// What a kernel needs and is given.
pub struct KernelForm {
    /// The slots `0..slots` are bound.
    pub slots: nat,
    /// The meta tensor whose bytes were read back when the node was added.
    pub meta: Option<MetaForm>,
    /// The meta tensor whose bytes are read back at every run.
    pub live: Option<MetaForm>,
    pub grid: GridForm,
    pub args: Seq<ArgForm>,
}

impl Kernel {
    /// What the kernel needs and is given.
    pub open spec fn form(self) -> KernelForm {
        match self {
            // Tokens, table, output; backward: tokens, gradient, table gradient.
            // Meta: vocabulary size, embedding width, sequence length.
            Kernel::Embedding | Kernel::EmbeddingBwd => KernelForm {
                slots: 4,
                meta: Some(MetaForm { slot: 3, words: 3, whole: true }),
                live: None,
                grid: GridForm::Columns(2),
                args: seq![
                    ArgForm::Read(0),
                    ArgForm::Read(1),
                    ArgForm::Write(2),
                    ArgForm::Word(0),
                    ArgForm::Word(1),
                    ArgForm::Word(2),
                ],
            },
            // Scores. Meta: sequence length, scale.
            Kernel::CausalMask => KernelForm {
                slots: 2,
                meta: Some(MetaForm { slot: 1, words: 2, whole: false }),
                live: None,
                grid: GridForm::Square(0),
                args: seq![ArgForm::Write(0), ArgForm::Word(0), ArgForm::Float(1)],
            },
            // From, to. Meta: sequence length, full width, head width, head offset.
            Kernel::HeadGather | Kernel::HeadScatter => KernelForm {
                slots: 3,
                meta: Some(MetaForm { slot: 2, words: 4, whole: true }),
                live: None,
                grid: GridForm::Tiles { width: 2, halved: false, height: 0 },
                args: seq![
                    ArgForm::Read(0),
                    ArgForm::Write(1),
                    ArgForm::Word(0),
                    ArgForm::Word(1),
                    ArgForm::Word(2),
                    ArgForm::Word(3),
                ],
            },
            Kernel::ZeroTensor | Kernel::Silu => KernelForm {
                slots: 1,
                meta: None,
                live: None,
                grid: GridForm::Elements,
                args: seq![ArgForm::Write(0), ArgForm::Count],
            },
            // Input, output gradient, input gradient.
            Kernel::SiluBwd => KernelForm {
                slots: 3,
                meta: None,
                live: None,
                grid: GridForm::Elements,
                args: seq![ArgForm::Read(0), ArgForm::Read(1), ArgForm::Write(2), ArgForm::Count],
            },
            // Sum, addend.
            Kernel::Add | Kernel::BwdAddInplace => KernelForm {
                slots: 2,
                meta: None,
                live: None,
                grid: GridForm::Elements,
                args: seq![ArgForm::Write(0), ArgForm::Read(1), ArgForm::Count],
            },
            // Vectors. Meta: sequence length, width, head width.
            Kernel::Rope | Kernel::RopeBwd => KernelForm {
                slots: 2,
                meta: Some(MetaForm { slot: 1, words: 3, whole: true }),
                live: None,
                grid: GridForm::Tiles { width: 2, halved: true, height: 0 },
                args: seq![
                    ArgForm::Write(0),
                    ArgForm::Word(0),
                    ArgForm::Word(1),
                    ArgForm::Word(2),
                ],
            },
            // Scores. Meta: sequence length.
            Kernel::Softmax => KernelForm {
                slots: 2,
                meta: Some(MetaForm { slot: 1, words: 1, whole: true }),
                live: None,
                grid: GridForm::Items(0),
                args: seq![ArgForm::Write(0), ArgForm::Word(0)],
            },
            // Output, output gradient, input gradient. Meta: sequence length, scale.
            Kernel::SoftmaxBwd => KernelForm {
                slots: 4,
                meta: Some(MetaForm { slot: 3, words: 2, whole: false }),
                live: None,
                grid: GridForm::Items(0),
                args: seq![
                    ArgForm::Read(0),
                    ArgForm::Read(1),
                    ArgForm::Write(2),
                    ArgForm::Word(0),
                    ArgForm::Float(1),
                ],
            },
            // Input, weight, output. Meta: sequence length, width, epsilon.
            Kernel::RmsNorm => KernelForm {
                slots: 4,
                meta: Some(MetaForm { slot: 3, words: 3, whole: false }),
                live: None,
                grid: GridForm::Rows(0),
                args: seq![
                    ArgForm::Read(0),
                    ArgForm::Read(1),
                    ArgForm::Write(2),
                    ArgForm::Word(0),
                    ArgForm::Word(1),
                    ArgForm::Float(2),
                ],
            },
            // Output gradient, input, weight, input gradient, reciprocal roots.
            // Meta: sequence length, width, epsilon.
            Kernel::RmsNormBwd => KernelForm {
                slots: 6,
                meta: Some(MetaForm { slot: 5, words: 3, whole: false }),
                live: None,
                grid: GridForm::Rows(0),
                args: seq![
                    ArgForm::Read(0),
                    ArgForm::Read(1),
                    ArgForm::Read(2),
                    ArgForm::Write(3),
                    ArgForm::Write(4),
                    ArgForm::Word(0),
                    ArgForm::Word(1),
                    ArgForm::Float(2),
                ],
            },
            // Output gradient, input, reciprocal roots, weight gradient.
            // Meta: sequence length, width.
            Kernel::RmsNormWeightBwd => KernelForm {
                slots: 5,
                meta: Some(MetaForm { slot: 4, words: 2, whole: true }),
                live: None,
                grid: GridForm::Items(1),
                args: seq![
                    ArgForm::Read(0),
                    ArgForm::Read(1),
                    ArgForm::Read(2),
                    ArgForm::Write(3),
                    ArgForm::Word(0),
                    ArgForm::Word(1),
                ],
            },
            // Logits, targets, probabilities, losses. Meta: vocabulary size, rows.
            Kernel::CrossEntropy => KernelForm {
                slots: 5,
                meta: Some(MetaForm { slot: 4, words: 2, whole: true }),
                live: None,
                grid: GridForm::Items(1),
                args: seq![
                    ArgForm::Read(0),
                    ArgForm::Read(1),
                    ArgForm::Write(2),
                    ArgForm::Write(3),
                    ArgForm::Word(0),
                    ArgForm::Word(1),
                ],
            },
            // Probabilities, targets, loss gradients, logit gradients.
            // Meta: vocabulary size, rows.
            Kernel::CrossEntropyBwd => KernelForm {
                slots: 5,
                meta: Some(MetaForm { slot: 4, words: 2, whole: true }),
                live: None,
                grid: GridForm::Items(1),
                args: seq![
                    ArgForm::Read(0),
                    ArgForm::Read(1),
                    ArgForm::Read(2),
                    ArgForm::Write(3),
                    ArgForm::Word(0),
                    ArgForm::Word(1),
                ],
            },
            // Weights, gradients, first and second moments. Meta: size. Live:
            // step, learning rate, first and second decay, epsilon, weight decay.
            Kernel::AdamW => KernelForm {
                slots: 6,
                meta: Some(MetaForm { slot: 4, words: 1, whole: true }),
                live: Some(MetaForm { slot: 5, words: 6, whole: false }),
                grid: GridForm::Items(0),
                args: seq![
                    ArgForm::Write(0),
                    ArgForm::Read(1),
                    ArgForm::Write(2),
                    ArgForm::Write(3),
                    ArgForm::Word(0),
                    ArgForm::LiveWord(0),
                    ArgForm::LiveFloat(1),
                    ArgForm::LiveFloat(2),
                    ArgForm::LiveFloat(3),
                    ArgForm::LiveFloat(4),
                    ArgForm::LiveFloat(5),
                ],
            },
        }
    }
}

} // verus!
