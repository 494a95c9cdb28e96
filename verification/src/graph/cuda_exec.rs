//! How the nodes of a CUDA graph are run: structured and elementwise operations
//! as kernel launches, matrix multiplications through cuBLAS.
//!
//! A `Meta` tensor is raw bytes, read as 32-bit words in the byte order of the
//! machine. A word that stands for a floating-point number is passed on as its
//! bits.
use std::sync::Arc;
use vstd::prelude::*;

use super::kernels::{op_named, ArgForm, CudaOp, GridForm, Kernel, MetaForm};
use super::{bindings_view, nodes_view, BindingView, ComputeNode, CudaNodeBinding, NodeView};
use crate::backend::Backend;
use crate::bytes::{all_words, cut_to_tensor, first_words, tensor_bytes, words, ByteOrder};
use crate::text::{decimal, joined, push_decimal};

verus! {

/// Why a node cannot be run.
#[derive(Debug, Clone, Copy, PartialEq, Eq, Structural)]
pub enum DispatchError {
    /// No operation has the name of the node's shader.
    UnknownShader,
    /// No tensor is bound to this slot.
    MissingBinding { binding: u32 },
    /// The slot was not bound as `Meta`, so its bytes are not at hand.
    NoCachedMeta,
    /// The bytes of the meta tensor do not make whole words.
    MetaNotWords { len: usize },
    /// The meta tensor holds fewer words than the operation reads.
    MetaTooShort { len: usize, words: usize },
    /// So large an extent cannot be divided into blocks.
    GridOverflow { extent: u32 },
}

impl DispatchError {
    /// The text that reports the error for the shader of this name.
    pub open spec fn message_spec(self, shader: Seq<char>) -> Seq<char> {
        match self {
            DispatchError::UnknownShader => {
                "[wilupgu] CUDA backend: no kernel mapping for shader '"@ + shader + "'"@
            },
            DispatchError::MissingBinding { .. } => "missing binding index"@,
            DispatchError::NoCachedMeta => {
                "meta_bytes called on a binding with no cached meta readback (not TensorMode::Meta?)"@
            },
            DispatchError::MetaNotWords { len } => {
                "meta tensor of "@ + decimal(len as nat) + " bytes does not hold whole words"@
            },
            DispatchError::MetaTooShort { len, words } => {
                "meta tensor of "@ + decimal(len as nat) + " bytes holds fewer than "@ + decimal(
                    words as nat,
                ) + " words"@
            },
            DispatchError::GridOverflow { extent } => {
                "no grid covers an extent of "@ + decimal(extent as nat)
            },
        }
    }

    /// The text that reports the error for the shader of this name.
    pub fn message(self, shader: &str) -> (r: String)
        ensures
            r@ == self.message_spec(shader@),
    {
        match self {
            DispatchError::UnknownShader => {
                let mut s: String = joined(
                    "[wilupgu] CUDA backend: no kernel mapping for shader '",
                    shader,
                );
                s.append("'");
                s
            },
            DispatchError::MissingBinding { .. } => "missing binding index".to_owned(),
            DispatchError::NoCachedMeta => {
                "meta_bytes called on a binding with no cached meta readback (not TensorMode::Meta?)".to_owned()
            },
            DispatchError::MetaNotWords { len } => {
                let mut s: String = "meta tensor of ".to_owned();
                push_decimal(&mut s, len as u64);
                s.append(" bytes does not hold whole words");
                s
            },
            DispatchError::MetaTooShort { len, words } => {
                let mut s: String = "meta tensor of ".to_owned();
                push_decimal(&mut s, len as u64);
                s.append(" bytes holds fewer than ");
                push_decimal(&mut s, words as u64);
                s.append(" words");
                s
            },
            DispatchError::GridOverflow { extent } => {
                let mut s: String = "no grid covers an extent of ".to_owned();
                push_decimal(&mut s, extent as u64);
                s
            },
        }
    }
}

/// The extents of a launch.
#[derive(Debug, Clone, Copy, PartialEq, Eq)]
pub struct LaunchConfig {
    pub grid_dim: (u32, u32, u32),
    pub block_dim: (u32, u32, u32),
    pub shared_mem_bytes: u32,
}

/// An argument of a kernel.
pub enum KernelArg<B: Backend> {
    /// A slice that the kernel reads.
    Read(Arc<B::CudaSlice>),
    /// A slice that the kernel writes.
    Write(Arc<B::CudaSlice>),
    U32(u32),
    /// The bits of an `f32`.
    F32(u32),
}

/// A kernel to be launched.
pub struct KernelLaunch<B: Backend> {
    pub kernel: Kernel,
    pub config: LaunchConfig,
    pub args: Vec<KernelArg<B>>,
}

/// What a launch holds.
pub struct LaunchView<B: Backend> {
    pub kernel: Kernel,
    pub config: LaunchConfig,
    pub args: Seq<KernelArg<B>>,
}

impl<B: Backend> View for KernelLaunch<B> {
    type V = LaunchView<B>;

    open spec fn view(&self) -> LaunchView<B> {
        LaunchView { kernel: self.kernel, config: self.config, args: self.args@ }
    }
}

/// Whether cuBLAS takes an operand as it stands or transposed.
#[derive(Debug, Clone, Copy, PartialEq, Eq, Structural)]
pub enum GemmOp {
    NoTrans,
    Trans,
}

/// A call of cuBLAS `sgemm`, which takes column-major matrices:
/// `c = alpha * transa(a) x transb(b) + beta * c`.
pub struct GemmCall<B: Backend> {
    /// What a failure of the call is reported as.
    pub label: &'static str,
    pub transa: GemmOp,
    pub transb: GemmOp,
    pub m: i32,
    pub n: i32,
    pub k: i32,
    pub alpha: i32,
    pub a: Arc<B::CudaSlice>,
    pub lda: i32,
    pub b: Arc<B::CudaSlice>,
    pub ldb: i32,
    pub beta: i32,
    pub c: Arc<B::CudaSlice>,
    pub ldc: i32,
}

// ------------------------------------------------------------- bindings ---

/// The first binding at this slot.
pub open spec fn slot<B: Backend>(bindings: Seq<BindingView<B>>, idx: u32) -> Option<
    BindingView<B>,
>
    decreases bindings.len(),
{
    if bindings.len() == 0 {
        None
    } else if bindings[0].binding == idx {
        Some(bindings[0])
    } else {
        slot(bindings.drop_first(), idx)
    }
}

/// The lowest of the slots `0..n` to which nothing is bound.
pub open spec fn first_missing<B: Backend>(bindings: Seq<BindingView<B>>, n: nat) -> Option<u32>
    decreases n,
{
    if n == 0 {
        None
    } else {
        match first_missing(bindings, (n - 1) as nat) {
            Some(k) => Some(k),
            None => if slot(bindings, (n - 1) as u32) is None {
                Some((n - 1) as u32)
            } else {
                None
            },
        }
    }
}

/// What is bound to a slot to which something is.
pub open spec fn held<B: Backend>(bindings: Seq<BindingView<B>>, idx: u32) -> BindingView<B> {
    slot(bindings, idx)->0
}

proof fn lemma_slot_skips<B: Backend>(bindings: Seq<BindingView<B>>, idx: u32, n: int)
    requires
        0 <= n <= bindings.len(),
        forall|j: int| 0 <= j < n ==> (#[trigger] bindings[j]).binding != idx,
    ensures
        slot(bindings, idx) == slot(bindings.skip(n), idx),
    decreases n,
{
    if n == 0 {
        assert(bindings.skip(0) =~= bindings);
    } else {
        let rest = bindings.drop_first();
        assert forall|j: int| 0 <= j < n - 1 implies (#[trigger] rest[j]).binding != idx by {
            assert(rest[j] == bindings[j + 1]);
        }
        lemma_slot_skips(rest, idx, n - 1);
        assert(rest.skip(n - 1) =~= bindings.skip(n));
    }
}

/// The first binding at this slot.
pub fn find<'b, B: Backend>(bindings: &'b Vec<CudaNodeBinding<B>>, idx: u32) -> (r: Option<
    &'b CudaNodeBinding<B>,
>)
    ensures
        slot(bindings_view(bindings@), idx) == (match r {
            Some(b) => Some(b@),
            None => None,
        }),
{
    let ghost view = bindings_view(bindings@);
    let mut i: usize = 0;
    while i < bindings.len()
        invariant
            i <= bindings@.len(),
            view == bindings_view(bindings@),
            forall|j: int| 0 <= j < i ==> (#[trigger] view[j]).binding != idx,
        decreases bindings@.len() - i,
    {
        if bindings[i].binding == idx {
            proof {
                lemma_slot_skips(view, idx, i as int);
                assert(view.skip(i as int)[0] == bindings@[i as int]@);
            }
            return Some(&bindings[i]);
        }
        assert(view[i as int].binding == bindings@[i as int].binding);
        i += 1;
    }
    proof {
        lemma_slot_skips(view, idx, view.len() as int);
    }
    None
}

/// What is bound to the slots `0..n`.
fn operands<'b, B: Backend>(bindings: &'b Vec<CudaNodeBinding<B>>, n: u32) -> (r: Result<
    Vec<&'b CudaNodeBinding<B>>,
    DispatchError,
>)
    ensures
        match r {
            Ok(found) => {
                &&& first_missing(bindings_view(bindings@), n as nat) is None
                &&& found@.len() == n
                &&& forall|i: int|
                    0 <= i < n ==> (#[trigger] found@[i])@ == held(
                        bindings_view(bindings@),
                        i as u32,
                    )
            },
            Err(e) => first_missing(bindings_view(bindings@), n as nat) matches Some(k) && e == (
            DispatchError::MissingBinding { binding: k }),
        },
{
    let ghost view = bindings_view(bindings@);
    let mut found: Vec<&'b CudaNodeBinding<B>> = Vec::new();
    let mut i: u32 = 0;
    while i < n
        invariant
            i <= n,
            view == bindings_view(bindings@),
            found@.len() == i,
            first_missing(view, i as nat) is None,
            forall|j: int| 0 <= j < i ==> (#[trigger] found@[j])@ == held(view, j as u32),
        decreases n - i,
    {
        match find(bindings, i) {
            Some(b) => {
                found.push(b);
            },
            None => {
                proof {
                    lemma_missing_stays(view, i as nat + 1, n as nat);
                }
                return Err(DispatchError::MissingBinding { binding: i });
            },
        }
        i += 1;
    }
    Ok(found)
}

proof fn lemma_missing_stays<B: Backend>(bindings: Seq<BindingView<B>>, m: nat, n: nat)
    requires
        m <= n,
        first_missing(bindings, m) is Some,
    ensures
        first_missing(bindings, n) == first_missing(bindings, m),
    decreases n,
{
    if m < n {
        lemma_missing_stays(bindings, m, (n - 1) as nat);
    }
}

// ----------------------------------------------------------------- meta ---

/// The first `n` words of a meta tensor's cached bytes, which make whole words.
pub open spec fn meta_u32_spec<B: Backend>(order: ByteOrder, b: BindingView<B>, n: nat) -> Result<
    Seq<u32>,
    DispatchError,
> {
    match b.cached_meta {
        None => Err(DispatchError::NoCachedMeta),
        Some(bytes) => if bytes.len() % 4 != 0 {
            Err(DispatchError::MetaNotWords { len: bytes.len() as usize })
        } else {
            fields_spec(order, bytes, n)
        },
    }
}

/// The first `n` words of a meta tensor's cached bytes, whatever follows them.
pub open spec fn meta_fields_spec<B: Backend>(
    order: ByteOrder,
    b: BindingView<B>,
    n: nat,
) -> Result<Seq<u32>, DispatchError> {
    match b.cached_meta {
        None => Err(DispatchError::NoCachedMeta),
        Some(bytes) => fields_spec(order, bytes, n),
    }
}

/// The first `n` words of a byte string.
pub open spec fn fields_spec(order: ByteOrder, bytes: Seq<u8>, n: nat) -> Result<
    Seq<u32>,
    DispatchError,
> {
    if bytes.len() < 4 * n {
        Err(DispatchError::MetaTooShort { len: bytes.len() as usize, words: n as usize })
    } else {
        Ok(words(order, bytes, n))
    }
}

/// Whether a result holds these words, or this error.
pub open spec fn words_are(
    r: Result<Vec<u32>, DispatchError>,
    expected: Result<Seq<u32>, DispatchError>,
) -> bool {
    (match r {
        Ok(found) => Ok(found@),
        Err(e) => Err(e),
    }) == expected
}

/// The words of a meta tensor, from the bytes that were read back when the node
/// was added. The operation reads the first `n`.
pub fn meta_u32<B: Backend>(order: ByteOrder, b: &CudaNodeBinding<B>, n: usize) -> (r: Result<
    Vec<u32>,
    DispatchError,
>)
    ensures
        words_are(r, meta_u32_spec(order, b@, n as nat)),
{
    match &b.cached_meta {
        None => Err(DispatchError::NoCachedMeta),
        Some(bytes) => {
            let len: usize = bytes.len();
            if len % 4 != 0 {
                return Err(DispatchError::MetaNotWords { len });
            }
            if len / 4 < n {
                return Err(DispatchError::MetaTooShort { len, words: n });
            }
            let mut found: Vec<u32> = all_words(order, bytes.as_slice());
            found.truncate(n);
            assert(found@ =~= words(order, bytes@, n as nat));
            Ok(found)
        },
    }
}

/// The first `n` words of a meta tensor, whatever follows them, from the bytes
/// that were read back when the node was added.
pub fn meta_fields<B: Backend>(order: ByteOrder, b: &CudaNodeBinding<B>, n: usize) -> (r: Result<
    Vec<u32>,
    DispatchError,
>)
    ensures
        words_are(r, meta_fields_spec(order, b@, n as nat)),
{
    match &b.cached_meta {
        None => Err(DispatchError::NoCachedMeta),
        Some(bytes) => fields(order, bytes, n),
    }
}

/// The first `n` words of a byte string.
fn fields(order: ByteOrder, bytes: &Vec<u8>, n: usize) -> (r: Result<Vec<u32>, DispatchError>)
    ensures
        words_are(r, fields_spec(order, bytes@, n as nat)),
{
    let len: usize = bytes.len();
    if len / 4 < n {
        return Err(DispatchError::MetaTooShort { len, words: n });
    }
    Ok(first_words(order, bytes.as_slice(), n))
}

// ---------------------------------------------------------------- grids ---

/// The number of blocks of `per` that cover `extent`.
pub open spec fn blocks_spec(extent: u32, per: u32) -> Result<u32, DispatchError> {
    if extent + (per - 1) > u32::MAX {
        Err(DispatchError::GridOverflow { extent })
    } else {
        Ok(((extent + (per - 1)) / (per as int)) as u32)
    }
}

fn blocks(extent: u32, per: u32) -> (r: Result<u32, DispatchError>)
    requires
        per > 0,
    ensures
        r == blocks_spec(extent, per),
{
    if extent > u32::MAX - (per - 1) {
        Err(DispatchError::GridOverflow { extent })
    } else {
        Ok((extent + (per - 1)) / per)
    }
}

/// At least one.
pub open spec fn at_least_one_spec(n: u32) -> u32 {
    if n == 0 {
        1
    } else {
        n
    }
}

fn at_least_one(n: u32) -> (r: u32)
    ensures
        r == at_least_one_spec(n),
{
    if n == 0 {
        1
    } else {
        n
    }
}

/// One thread per item, in rows of 256.
pub open spec fn cfg_1d_spec(n: u32) -> Result<LaunchConfig, DispatchError> {
    match blocks_spec(n, 256) {
        Err(e) => Err(e),
        Ok(count) => Ok(
            LaunchConfig {
                grid_dim: (count, 1, 1),
                block_dim: (256, 1, 1),
                shared_mem_bytes: 0,
            },
        ),
    }
}

/// One thread per item, in rows of 256.
pub fn cfg_1d(n: u32) -> (r: Result<LaunchConfig, DispatchError>)
    ensures
        r == cfg_1d_spec(n),
{
    match blocks(n, 256) {
        Err(e) => Err(e),
        Ok(count) => Ok(
            LaunchConfig {
                grid_dim: (count, 1, 1),
                block_dim: (256, 1, 1),
                shared_mem_bytes: 0,
            },
        ),
    }
}

/// The number of elements of a bound tensor.
pub fn elem_count<B: Backend>(b: &CudaNodeBinding<B>) -> (r: u32)
    ensures
        r == elem_count_spec(b@),
{
    (b.size / 4) as u32
}

/// The number of elements of a bound tensor.
pub open spec fn elem_count_spec<B: Backend>(b: BindingView<B>) -> u32 {
    (b.size / 4) as u32
}

// ------------------------------------------------------------- launches ---

/// What a launch depends on besides its bindings.
#[derive(Debug, Clone, Copy)]
pub struct LaunchEnv {
    /// The byte order of the machine.
    pub order: ByteOrder,
    /// The workgroup counts that the node was added with.
    pub workgroups: [u32; 3],
}

/// The words that a kernel reads from its meta tensor.
pub open spec fn meta_spec<B: Backend>(
    order: ByteOrder,
    bindings: Seq<BindingView<B>>,
    meta: Option<MetaForm>,
) -> Result<Seq<u32>, DispatchError> {
    match meta {
        None => Ok(Seq::empty()),
        Some(form) => if form.whole {
            meta_u32_spec(order, held(bindings, form.slot), form.words)
        } else {
            meta_fields_spec(order, held(bindings, form.slot), form.words)
        },
    }
}

/// The words that a kernel reads, where all its slots are bound.
pub open spec fn ready_spec<B: Backend>(
    kernel: Kernel,
    order: ByteOrder,
    bindings: Seq<BindingView<B>>,
) -> Result<Seq<u32>, DispatchError> {
    match first_missing(bindings, kernel.form().slots) {
        Some(k) => Err(DispatchError::MissingBinding { binding: k }),
        None => meta_spec(order, bindings, kernel.form().meta),
    }
}

/// The extents of a launch.
pub open spec fn config_spec<B: Backend>(
    grid: GridForm,
    bindings: Seq<BindingView<B>>,
    workgroups: [u32; 3],
    found: Seq<u32>,
) -> Result<LaunchConfig, DispatchError> {
    match grid {
        GridForm::Elements => cfg_1d_spec(elem_count_spec(held(bindings, 0))),
        GridForm::Items(k) => cfg_1d_spec(found[k]),
        GridForm::Rows(k) => Ok(
            LaunchConfig {
                grid_dim: (at_least_one_spec(found[k]), 1, 1),
                block_dim: (256, 1, 1),
                shared_mem_bytes: 0,
            },
        ),
        GridForm::Columns(k) => Ok(
            LaunchConfig {
                grid_dim: (
                    at_least_one_spec(workgroups[0]),
                    at_least_one_spec(found[k]),
                    1,
                ),
                block_dim: (256, 1, 1),
                shared_mem_bytes: 0,
            },
        ),
        GridForm::Square(k) => match blocks_spec(found[k], 16) {
            Err(e) => Err(e),
            Ok(side) => Ok(
                LaunchConfig {
                    grid_dim: (side, side, 1),
                    block_dim: (16, 16, 1),
                    shared_mem_bytes: 0,
                },
            ),
        },
        GridForm::Tiles { width, halved, height } => match blocks_spec(
            if halved {
                found[width] / 2
            } else {
                found[width]
            },
            16,
        ) {
            Err(e) => Err(e),
            Ok(across) => match blocks_spec(found[height], 16) {
                Err(e) => Err(e),
                Ok(down) => Ok(
                    LaunchConfig {
                        grid_dim: (at_least_one_spec(across), at_least_one_spec(down), 1),
                        block_dim: (16, 16, 1),
                        shared_mem_bytes: 0,
                    },
                ),
            },
        },
    }
}

/// An argument of a kernel.
pub open spec fn arg_spec<B: Backend>(
    form: ArgForm,
    bindings: Seq<BindingView<B>>,
    found: Seq<u32>,
    live: Seq<u32>,
) -> KernelArg<B> {
    match form {
        ArgForm::Read(idx) => KernelArg::Read(held(bindings, idx).slice),
        ArgForm::Write(idx) => KernelArg::Write(held(bindings, idx).slice),
        ArgForm::Count => KernelArg::U32(elem_count_spec(held(bindings, 0))),
        ArgForm::Word(k) => KernelArg::U32(found[k]),
        ArgForm::Float(k) => KernelArg::F32(found[k]),
        ArgForm::LiveWord(k) => KernelArg::U32(live[k]),
        ArgForm::LiveFloat(k) => KernelArg::F32(live[k]),
    }
}

/// The arguments of a kernel.
pub open spec fn args_spec<B: Backend>(
    forms: Seq<ArgForm>,
    bindings: Seq<BindingView<B>>,
    found: Seq<u32>,
    live: Seq<u32>,
) -> Seq<KernelArg<B>> {
    Seq::new(forms.len(), |i: int| arg_spec(forms[i], bindings, found, live))
}

/// The launch of a kernel, given the words of its live meta tensor if it has
/// one.
pub open spec fn launch_spec<B: Backend>(
    kernel: Kernel,
    env: LaunchEnv,
    bindings: Seq<BindingView<B>>,
    live: Seq<u32>,
) -> Result<LaunchView<B>, DispatchError> {
    match ready_spec(kernel, env.order, bindings) {
        Err(e) => Err(e),
        Ok(found) => match config_spec(kernel.form().grid, bindings, env.workgroups, found) {
            Err(e) => Err(e),
            Ok(config) => Ok(
                LaunchView {
                    kernel,
                    config,
                    args: args_spec(kernel.form().args, bindings, found, live),
                },
            ),
        },
    }
}

/// Whether a result is this launch, or this error.
pub open spec fn launch_is<B: Backend>(
    r: Result<KernelLaunch<B>, DispatchError>,
    expected: Result<LaunchView<B>, DispatchError>,
) -> bool {
    (match r {
        Ok(launch) => Ok(launch@),
        Err(e) => Err(e),
    }) == expected
}

fn read<B: Backend>(b: &CudaNodeBinding<B>) -> (r: KernelArg<B>)
    ensures
        r == KernelArg::<B>::Read(b@.slice),
{
    KernelArg::Read(b.slice.clone())
}

fn write<B: Backend>(b: &CudaNodeBinding<B>) -> (r: KernelArg<B>)
    ensures
        r == KernelArg::<B>::Write(b@.slice),
{
    KernelArg::Write(b.slice.clone())
}

/// Rewrites a tensor element by element.
fn launch_elementwise_1<B: Backend>(
    env: LaunchEnv,
    bindings: &Vec<CudaNodeBinding<B>>,
) -> (r: Result<KernelLaunch<B>, DispatchError>)
    ensures
        launch_is(r, launch_spec(Kernel::Silu, env, bindings_view(bindings@), Seq::empty())),
{
    let found: Vec<&CudaNodeBinding<B>> = operands(bindings, 1)?;
    let n: u32 = elem_count(found[0]);
    let config: LaunchConfig = cfg_1d(n)?;
    let args: Vec<KernelArg<B>> = vec![
        write(found[0]),
        KernelArg::U32(n),
    ];
    assert(args@ =~= args_spec(
        Kernel::Silu.form().args,
        bindings_view(bindings@),
        Seq::empty(),
        Seq::empty(),
    ));
    Ok(KernelLaunch { kernel: Kernel::Silu, config, args })
}

/// Writes a tensor element by element from two others.
fn launch_elementwise_3<B: Backend>(
    env: LaunchEnv,
    bindings: &Vec<CudaNodeBinding<B>>,
) -> (r: Result<KernelLaunch<B>, DispatchError>)
    ensures
        launch_is(r, launch_spec(Kernel::SiluBwd, env, bindings_view(bindings@), Seq::empty())),
{
    let found: Vec<&CudaNodeBinding<B>> = operands(bindings, 3)?;
    let n: u32 = elem_count(found[0]);
    let config: LaunchConfig = cfg_1d(n)?;
    let args: Vec<KernelArg<B>> = vec![
        read(found[0]),
        read(found[1]),
        write(found[2]),
        KernelArg::U32(n),
    ];
    assert(args@ =~= args_spec(
        Kernel::SiluBwd.form().args,
        bindings_view(bindings@),
        Seq::empty(),
        Seq::empty(),
    ));
    Ok(KernelLaunch { kernel: Kernel::SiluBwd, config, args })
}

/// Adds a tensor to another.
fn launch_add<B: Backend>(
    env: LaunchEnv,
    bindings: &Vec<CudaNodeBinding<B>>,
    kernel: Kernel,
) -> (r: Result<KernelLaunch<B>, DispatchError>)
    requires
        kernel == Kernel::Add || kernel == Kernel::BwdAddInplace,
    ensures
        launch_is(r, launch_spec(kernel, env, bindings_view(bindings@), Seq::empty())),
{
    let found: Vec<&CudaNodeBinding<B>> = operands(bindings, 2)?;
    let n: u32 = elem_count(found[0]);
    let config: LaunchConfig = cfg_1d(n)?;
    let args: Vec<KernelArg<B>> = vec![
        write(found[0]),
        read(found[1]),
        KernelArg::U32(n),
    ];
    assert(args@ =~= args_spec(
        kernel.form().args,
        bindings_view(bindings@),
        Seq::empty(),
        Seq::empty(),
    ));
    Ok(KernelLaunch { kernel, config, args })
}

/// Gathers rows of the embedding table, or scatters their gradients.
fn launch_embedding<B: Backend>(
    env: LaunchEnv,
    bindings: &Vec<CudaNodeBinding<B>>,
    kernel: Kernel,
) -> (r: Result<KernelLaunch<B>, DispatchError>)
    requires
        kernel == Kernel::Embedding || kernel == Kernel::EmbeddingBwd,
    ensures
        launch_is(r, launch_spec(kernel, env, bindings_view(bindings@), Seq::empty())),
{
    let found: Vec<&CudaNodeBinding<B>> = operands(bindings, 4)?;
    let dims: Vec<u32> = meta_u32(env.order, found[3], 3)?;
    let config: LaunchConfig = LaunchConfig {
        grid_dim: (at_least_one(env.workgroups[0]), at_least_one(dims[2]), 1),
        block_dim: (256, 1, 1),
        shared_mem_bytes: 0,
    };
    let args: Vec<KernelArg<B>> = vec![
        read(found[0]),
        read(found[1]),
        write(found[2]),
        KernelArg::U32(dims[0]),
        KernelArg::U32(dims[1]),
        KernelArg::U32(dims[2]),
    ];
    assert(args@ =~= args_spec(
        kernel.form().args,
        bindings_view(bindings@),
        dims@,
        Seq::empty(),
    ));
    Ok(KernelLaunch { kernel, config, args })
}

/// Scales the scores and masks those of later positions.
fn launch_causal_mask<B: Backend>(
    env: LaunchEnv,
    bindings: &Vec<CudaNodeBinding<B>>,
) -> (r: Result<KernelLaunch<B>, DispatchError>)
    ensures
        launch_is(r, launch_spec(Kernel::CausalMask, env, bindings_view(bindings@), Seq::empty())),
{
    let found: Vec<&CudaNodeBinding<B>> = operands(bindings, 2)?;
    let dims: Vec<u32> = meta_fields(env.order, found[1], 2)?;
    let side: u32 = blocks(dims[0], 16)?;
    let config: LaunchConfig = LaunchConfig {
        grid_dim: (side, side, 1),
        block_dim: (16, 16, 1),
        shared_mem_bytes: 0,
    };
    let args: Vec<KernelArg<B>> = vec![
        write(found[0]),
        KernelArg::U32(dims[0]),
        KernelArg::F32(dims[1]),
    ];
    assert(args@ =~= args_spec(
        Kernel::CausalMask.form().args,
        bindings_view(bindings@),
        dims@,
        Seq::empty(),
    ));
    Ok(KernelLaunch { kernel: Kernel::CausalMask, config, args })
}

/// Copies one attention head out of the full width, or back into it.
fn launch_head_move<B: Backend>(
    env: LaunchEnv,
    bindings: &Vec<CudaNodeBinding<B>>,
    kernel: Kernel,
) -> (r: Result<KernelLaunch<B>, DispatchError>)
    requires
        kernel == Kernel::HeadGather || kernel == Kernel::HeadScatter,
    ensures
        launch_is(r, launch_spec(kernel, env, bindings_view(bindings@), Seq::empty())),
{
    let found: Vec<&CudaNodeBinding<B>> = operands(bindings, 3)?;
    let dims: Vec<u32> = meta_u32(env.order, found[2], 4)?;
    let across: u32 = blocks(dims[2], 16)?;
    let down: u32 = blocks(dims[0], 16)?;
    let config: LaunchConfig = LaunchConfig {
        grid_dim: (at_least_one(across), at_least_one(down), 1),
        block_dim: (16, 16, 1),
        shared_mem_bytes: 0,
    };
    let args: Vec<KernelArg<B>> = vec![
        read(found[0]),
        write(found[1]),
        KernelArg::U32(dims[0]),
        KernelArg::U32(dims[1]),
        KernelArg::U32(dims[2]),
        KernelArg::U32(dims[3]),
    ];
    assert(args@ =~= args_spec(
        kernel.form().args,
        bindings_view(bindings@),
        dims@,
        Seq::empty(),
    ));
    Ok(KernelLaunch { kernel, config, args })
}

/// Sets a tensor to zero.
fn launch_zero_tensor<B: Backend>(
    env: LaunchEnv,
    bindings: &Vec<CudaNodeBinding<B>>,
) -> (r: Result<KernelLaunch<B>, DispatchError>)
    ensures
        launch_is(r, launch_spec(Kernel::ZeroTensor, env, bindings_view(bindings@), Seq::empty())),
{
    let found: Vec<&CudaNodeBinding<B>> = operands(bindings, 1)?;
    let n: u32 = elem_count(found[0]);
    let config: LaunchConfig = cfg_1d(n)?;
    let args: Vec<KernelArg<B>> = vec![
        write(found[0]),
        KernelArg::U32(n),
    ];
    assert(args@ =~= args_spec(
        Kernel::ZeroTensor.form().args,
        bindings_view(bindings@),
        Seq::empty(),
        Seq::empty(),
    ));
    Ok(KernelLaunch { kernel: Kernel::ZeroTensor, config, args })
}

/// Rotates positions into vectors, or their gradients back.
fn launch_rope<B: Backend>(
    env: LaunchEnv,
    bindings: &Vec<CudaNodeBinding<B>>,
    kernel: Kernel,
) -> (r: Result<KernelLaunch<B>, DispatchError>)
    requires
        kernel == Kernel::Rope || kernel == Kernel::RopeBwd,
    ensures
        launch_is(r, launch_spec(kernel, env, bindings_view(bindings@), Seq::empty())),
{
    let found: Vec<&CudaNodeBinding<B>> = operands(bindings, 2)?;
    let dims: Vec<u32> = meta_u32(env.order, found[1], 3)?;
    let across: u32 = blocks(dims[2] / 2, 16)?;
    let down: u32 = blocks(dims[0], 16)?;
    let config: LaunchConfig = LaunchConfig {
        grid_dim: (at_least_one(across), at_least_one(down), 1),
        block_dim: (16, 16, 1),
        shared_mem_bytes: 0,
    };
    let args: Vec<KernelArg<B>> = vec![
        write(found[0]),
        KernelArg::U32(dims[0]),
        KernelArg::U32(dims[1]),
        KernelArg::U32(dims[2]),
    ];
    assert(args@ =~= args_spec(
        kernel.form().args,
        bindings_view(bindings@),
        dims@,
        Seq::empty(),
    ));
    Ok(KernelLaunch { kernel, config, args })
}

/// Normalises rows of scores.
fn launch_softmax<B: Backend>(
    env: LaunchEnv,
    bindings: &Vec<CudaNodeBinding<B>>,
) -> (r: Result<KernelLaunch<B>, DispatchError>)
    ensures
        launch_is(r, launch_spec(Kernel::Softmax, env, bindings_view(bindings@), Seq::empty())),
{
    let found: Vec<&CudaNodeBinding<B>> = operands(bindings, 2)?;
    let dims: Vec<u32> = meta_u32(env.order, found[1], 1)?;
    let config: LaunchConfig = cfg_1d(dims[0])?;
    let args: Vec<KernelArg<B>> = vec![
        write(found[0]),
        KernelArg::U32(dims[0]),
    ];
    assert(args@ =~= args_spec(
        Kernel::Softmax.form().args,
        bindings_view(bindings@),
        dims@,
        Seq::empty(),
    ));
    Ok(KernelLaunch { kernel: Kernel::Softmax, config, args })
}

/// The gradient of normalised rows.
fn launch_softmax_bwd<B: Backend>(
    env: LaunchEnv,
    bindings: &Vec<CudaNodeBinding<B>>,
) -> (r: Result<KernelLaunch<B>, DispatchError>)
    ensures
        launch_is(r, launch_spec(Kernel::SoftmaxBwd, env, bindings_view(bindings@), Seq::empty())),
{
    let found: Vec<&CudaNodeBinding<B>> = operands(bindings, 4)?;
    let dims: Vec<u32> = meta_fields(env.order, found[3], 2)?;
    let config: LaunchConfig = cfg_1d(dims[0])?;
    let args: Vec<KernelArg<B>> = vec![
        read(found[0]),
        read(found[1]),
        write(found[2]),
        KernelArg::U32(dims[0]),
        KernelArg::F32(dims[1]),
    ];
    assert(args@ =~= args_spec(
        Kernel::SoftmaxBwd.form().args,
        bindings_view(bindings@),
        dims@,
        Seq::empty(),
    ));
    Ok(KernelLaunch { kernel: Kernel::SoftmaxBwd, config, args })
}

/// Scales rows by their root mean square.
fn launch_rmsnorm<B: Backend>(
    env: LaunchEnv,
    bindings: &Vec<CudaNodeBinding<B>>,
) -> (r: Result<KernelLaunch<B>, DispatchError>)
    ensures
        launch_is(r, launch_spec(Kernel::RmsNorm, env, bindings_view(bindings@), Seq::empty())),
{
    let found: Vec<&CudaNodeBinding<B>> = operands(bindings, 4)?;
    let dims: Vec<u32> = meta_fields(env.order, found[3], 3)?;
    let config: LaunchConfig = LaunchConfig {
        grid_dim: (at_least_one(dims[0]), 1, 1),
        block_dim: (256, 1, 1),
        shared_mem_bytes: 0,
    };
    let args: Vec<KernelArg<B>> = vec![
        read(found[0]),
        read(found[1]),
        write(found[2]),
        KernelArg::U32(dims[0]),
        KernelArg::U32(dims[1]),
        KernelArg::F32(dims[2]),
    ];
    assert(args@ =~= args_spec(
        Kernel::RmsNorm.form().args,
        bindings_view(bindings@),
        dims@,
        Seq::empty(),
    ));
    Ok(KernelLaunch { kernel: Kernel::RmsNorm, config, args })
}

/// The gradient of scaled rows; keeps their reciprocal roots.
fn launch_rmsnorm_bwd<B: Backend>(
    env: LaunchEnv,
    bindings: &Vec<CudaNodeBinding<B>>,
) -> (r: Result<KernelLaunch<B>, DispatchError>)
    ensures
        launch_is(r, launch_spec(Kernel::RmsNormBwd, env, bindings_view(bindings@), Seq::empty())),
{
    let found: Vec<&CudaNodeBinding<B>> = operands(bindings, 6)?;
    let dims: Vec<u32> = meta_fields(env.order, found[5], 3)?;
    let config: LaunchConfig = LaunchConfig {
        grid_dim: (at_least_one(dims[0]), 1, 1),
        block_dim: (256, 1, 1),
        shared_mem_bytes: 0,
    };
    let args: Vec<KernelArg<B>> = vec![
        read(found[0]),
        read(found[1]),
        read(found[2]),
        write(found[3]),
        write(found[4]),
        KernelArg::U32(dims[0]),
        KernelArg::U32(dims[1]),
        KernelArg::F32(dims[2]),
    ];
    assert(args@ =~= args_spec(
        Kernel::RmsNormBwd.form().args,
        bindings_view(bindings@),
        dims@,
        Seq::empty(),
    ));
    Ok(KernelLaunch { kernel: Kernel::RmsNormBwd, config, args })
}

/// The gradient of the weights that scaled the rows.
fn launch_rmsnorm_weight_bwd<B: Backend>(
    env: LaunchEnv,
    bindings: &Vec<CudaNodeBinding<B>>,
) -> (r: Result<KernelLaunch<B>, DispatchError>)
    ensures
        launch_is(r, launch_spec(Kernel::RmsNormWeightBwd, env, bindings_view(bindings@), Seq::empty())),
{
    let found: Vec<&CudaNodeBinding<B>> = operands(bindings, 5)?;
    let dims: Vec<u32> = meta_u32(env.order, found[4], 2)?;
    let config: LaunchConfig = cfg_1d(dims[1])?;
    let args: Vec<KernelArg<B>> = vec![
        read(found[0]),
        read(found[1]),
        read(found[2]),
        write(found[3]),
        KernelArg::U32(dims[0]),
        KernelArg::U32(dims[1]),
    ];
    assert(args@ =~= args_spec(
        Kernel::RmsNormWeightBwd.form().args,
        bindings_view(bindings@),
        dims@,
        Seq::empty(),
    ));
    Ok(KernelLaunch { kernel: Kernel::RmsNormWeightBwd, config, args })
}

/// The loss of each row of logits, and its probabilities.
fn launch_cross_entropy<B: Backend>(
    env: LaunchEnv,
    bindings: &Vec<CudaNodeBinding<B>>,
) -> (r: Result<KernelLaunch<B>, DispatchError>)
    ensures
        launch_is(r, launch_spec(Kernel::CrossEntropy, env, bindings_view(bindings@), Seq::empty())),
{
    let found: Vec<&CudaNodeBinding<B>> = operands(bindings, 5)?;
    let dims: Vec<u32> = meta_u32(env.order, found[4], 2)?;
    let config: LaunchConfig = cfg_1d(dims[1])?;
    let args: Vec<KernelArg<B>> = vec![
        read(found[0]),
        read(found[1]),
        write(found[2]),
        write(found[3]),
        KernelArg::U32(dims[0]),
        KernelArg::U32(dims[1]),
    ];
    assert(args@ =~= args_spec(
        Kernel::CrossEntropy.form().args,
        bindings_view(bindings@),
        dims@,
        Seq::empty(),
    ));
    Ok(KernelLaunch { kernel: Kernel::CrossEntropy, config, args })
}

/// The gradient of the losses.
fn launch_cross_entropy_bwd<B: Backend>(
    env: LaunchEnv,
    bindings: &Vec<CudaNodeBinding<B>>,
) -> (r: Result<KernelLaunch<B>, DispatchError>)
    ensures
        launch_is(r, launch_spec(Kernel::CrossEntropyBwd, env, bindings_view(bindings@), Seq::empty())),
{
    let found: Vec<&CudaNodeBinding<B>> = operands(bindings, 5)?;
    let dims: Vec<u32> = meta_u32(env.order, found[4], 2)?;
    let config: LaunchConfig = cfg_1d(dims[1])?;
    let args: Vec<KernelArg<B>> = vec![
        read(found[0]),
        read(found[1]),
        read(found[2]),
        write(found[3]),
        KernelArg::U32(dims[0]),
        KernelArg::U32(dims[1]),
    ];
    assert(args@ =~= args_spec(
        Kernel::CrossEntropyBwd.form().args,
        bindings_view(bindings@),
        dims@,
        Seq::empty(),
    ));
    Ok(KernelLaunch { kernel: Kernel::CrossEntropyBwd, config, args })
}

// ------------------------------------------------------ multiplications ---

/// The multiplication of row-major matrices `C[m,n] = A[m,k] x op(B)`, where
/// `op(B)` is `B[k,n]` or, transposed, that of `B[n,k]`. Slots: `A`, `B`, `C`,
/// meta with `m`, `n`, `k`.
///
/// A row-major matrix is the column-major form of its transpose, so cuBLAS is
/// asked for `C^T = op(B)^T x A^T`.
pub open spec fn gemm_matmul_spec<B: Backend>(
    order: ByteOrder,
    bindings: Seq<BindingView<B>>,
    transpose_b: bool,
) -> Result<GemmCall<B>, DispatchError> {
    match first_missing(bindings, 4) {
        Some(k) => Err(DispatchError::MissingBinding { binding: k }),
        None => match meta_u32_spec(order, held(bindings, 3), 3) {
            Err(e) => Err(e),
            Ok(dims) => Ok(
                GemmCall {
                    label: "MatMul",
                    transa: if transpose_b {
                        GemmOp::Trans
                    } else {
                        GemmOp::NoTrans
                    },
                    transb: GemmOp::NoTrans,
                    m: dims[1] as i32,
                    n: dims[0] as i32,
                    k: dims[2] as i32,
                    alpha: 1,
                    a: held(bindings, 1).slice,
                    lda: if transpose_b {
                        dims[2] as i32
                    } else {
                        dims[1] as i32
                    },
                    b: held(bindings, 0).slice,
                    ldb: dims[2] as i32,
                    beta: 0,
                    c: held(bindings, 2).slice,
                    ldc: dims[1] as i32,
                },
            ),
        },
    }
}

/// The multiplication of row-major matrices `dB[k,n] += A^T x dC[m,n]`, where
/// `A` is `[m,k]`. Slots: `A`, `dC`, `dB`, meta with `m`, `n`, `k`.
pub open spec fn gemm_weight_bwd_spec<B: Backend>(
    order: ByteOrder,
    bindings: Seq<BindingView<B>>,
) -> Result<GemmCall<B>, DispatchError> {
    match first_missing(bindings, 4) {
        Some(k) => Err(DispatchError::MissingBinding { binding: k }),
        None => match meta_u32_spec(order, held(bindings, 3), 3) {
            Err(e) => Err(e),
            Ok(dims) => Ok(
                GemmCall {
                    label: "MatMulWeightBwd",
                    transa: GemmOp::NoTrans,
                    transb: GemmOp::Trans,
                    m: dims[1] as i32,
                    n: dims[2] as i32,
                    k: dims[0] as i32,
                    alpha: 1,
                    a: held(bindings, 1).slice,
                    lda: dims[1] as i32,
                    b: held(bindings, 0).slice,
                    ldb: dims[2] as i32,
                    beta: 1,
                    c: held(bindings, 2).slice,
                    ldc: dims[1] as i32,
                },
            ),
        },
    }
}

/// `C = A x B`, or `C = A x B^T`.
fn gemm_matmul<B: Backend>(
    order: ByteOrder,
    bindings: &Vec<CudaNodeBinding<B>>,
    transpose_b: bool,
) -> (r: Result<GemmCall<B>, DispatchError>)
    ensures
        r == gemm_matmul_spec(order, bindings_view(bindings@), transpose_b),
{
    let found: Vec<&CudaNodeBinding<B>> = operands(bindings, 4)?;
    let a: &CudaNodeBinding<B> = found[0];
    let b: &CudaNodeBinding<B> = found[1];
    let c: &CudaNodeBinding<B> = found[2];
    let dims: Vec<u32> = meta_u32(order, found[3], 3)?;
    let m: u32 = dims[0];
    let n: u32 = dims[1];
    let k: u32 = dims[2];
    let op_b: GemmOp = if transpose_b {
        GemmOp::Trans
    } else {
        GemmOp::NoTrans
    };
    let ldb: u32 = if transpose_b {
        k
    } else {
        n
    };
    assert(a@ == held(bindings_view(bindings@), 0));
    assert(b@ == held(bindings_view(bindings@), 1));
    assert(c@ == held(bindings_view(bindings@), 2));
    Ok(
        GemmCall {
            label: "MatMul",
            transa: op_b,
            transb: GemmOp::NoTrans,
            m: n as i32,
            n: m as i32,
            k: k as i32,
            alpha: 1,
            a: b.slice.clone(),
            lda: ldb as i32,
            b: a.slice.clone(),
            ldb: k as i32,
            beta: 0,
            c: c.slice.clone(),
            ldc: n as i32,
        },
    )
}

/// `dB += A^T x dC`.
fn gemm_weight_bwd<B: Backend>(order: ByteOrder, bindings: &Vec<CudaNodeBinding<B>>) -> (r: Result<
    GemmCall<B>,
    DispatchError,
>)
    ensures
        r == gemm_weight_bwd_spec(order, bindings_view(bindings@)),
{
    let found: Vec<&CudaNodeBinding<B>> = operands(bindings, 4)?;
    let a: &CudaNodeBinding<B> = found[0];
    let dc: &CudaNodeBinding<B> = found[1];
    let db: &CudaNodeBinding<B> = found[2];
    let dims: Vec<u32> = meta_u32(order, found[3], 3)?;
    let m: u32 = dims[0];
    let n: u32 = dims[1];
    let k: u32 = dims[2];
    assert(a@ == held(bindings_view(bindings@), 0));
    assert(dc@ == held(bindings_view(bindings@), 1));
    assert(db@ == held(bindings_view(bindings@), 2));
    Ok(
        GemmCall {
            label: "MatMulWeightBwd",
            transa: GemmOp::NoTrans,
            transb: GemmOp::Trans,
            m: n as i32,
            n: k as i32,
            k: m as i32,
            alpha: 1,
            a: dc.slice.clone(),
            lda: n as i32,
            b: a.slice.clone(),
            ldb: k as i32,
            beta: 1,
            c: db.slice.clone(),
            ldc: n as i32,
        },
    )
}

// ---------------------------------------------------------------- nodes ---

/// What is to be done next to run a graph.
pub enum CudaAction<B: Backend> {
    Gemm(GemmCall<B>),
    Launch(KernelLaunch<B>),
    /// Read back this slice and come again with its bytes.
    ReadMeta(Arc<B::CudaSlice>),
    /// Nothing: all nodes were run.
    Finished,
}

/// What an action holds.
pub enum CudaActionView<B: Backend> {
    Gemm(GemmCall<B>),
    Launch(LaunchView<B>),
    ReadMeta(Arc<B::CudaSlice>),
    Finished,
}

impl<B: Backend> View for CudaAction<B> {
    type V = CudaActionView<B>;

    open spec fn view(&self) -> CudaActionView<B> {
        match self {
            CudaAction::Gemm(call) => CudaActionView::Gemm(*call),
            CudaAction::Launch(launch) => CudaActionView::Launch(launch@),
            CudaAction::ReadMeta(slice) => CudaActionView::ReadMeta(*slice),
            CudaAction::Finished => CudaActionView::Finished,
        }
    }
}

/// What running a kernel takes. A kernel with a live meta tensor has that read
/// back first; its launch then takes the bytes that came, never those that were
/// cached.
pub open spec fn kernel_action<B: Backend>(
    kernel: Kernel,
    env: LaunchEnv,
    bindings: Seq<BindingView<B>>,
    live: Option<Seq<u8>>,
) -> Result<CudaActionView<B>, DispatchError> {
    match kernel.form().live {
        None => match launch_spec(kernel, env, bindings, Seq::empty()) {
            Err(e) => Err(e),
            Ok(launch) => Ok(CudaActionView::Launch(launch)),
        },
        Some(form) => match ready_spec(kernel, env.order, bindings) {
            Err(e) => Err(e),
            Ok(_) => match live {
                None => Ok(CudaActionView::ReadMeta(held(bindings, form.slot).slice)),
                Some(bytes) => match fields_spec(
                    env.order,
                    tensor_bytes(bytes, held(bindings, form.slot).size),
                    form.words,
                ) {
                    Err(e) => Err(e),
                    Ok(found) => match launch_spec(kernel, env, bindings, found) {
                        Err(e) => Err(e),
                        Ok(launch) => Ok(CudaActionView::Launch(launch)),
                    },
                },
            },
        },
    }
}

/// What running a shader of this name takes, given the bytes of its live meta
/// tensor if they were read back.
pub open spec fn shader_action<B: Backend>(
    name: Seq<char>,
    env: LaunchEnv,
    bindings: Seq<BindingView<B>>,
    live: Option<Seq<u8>>,
) -> Result<CudaActionView<B>, DispatchError> {
    match op_named(name) {
        None => Err(DispatchError::UnknownShader),
        Some(CudaOp::MatMul) => match gemm_matmul_spec(env.order, bindings, false) {
            Err(e) => Err(e),
            Ok(call) => Ok(CudaActionView::Gemm(call)),
        },
        Some(CudaOp::MatMulTrp) => match gemm_matmul_spec(env.order, bindings, true) {
            Err(e) => Err(e),
            Ok(call) => Ok(CudaActionView::Gemm(call)),
        },
        Some(CudaOp::MatMulWeightBwd) => match gemm_weight_bwd_spec(env.order, bindings) {
            Err(e) => Err(e),
            Ok(call) => Ok(CudaActionView::Gemm(call)),
        },
        Some(CudaOp::Launch(kernel)) => kernel_action(kernel, env, bindings, live),
    }
}

/// Whether a result is this action, or this error.
pub open spec fn action_is<B: Backend>(
    r: Result<CudaAction<B>, DispatchError>,
    expected: Result<CudaActionView<B>, DispatchError>,
) -> bool {
    (match r {
        Ok(action) => Ok(action@),
        Err(e) => Err(e),
    }) == expected
}

/// What bytes hold, if there are any.
pub open spec fn live_view(live: Option<&Vec<u8>>) -> Option<Seq<u8>> {
    match live {
        Some(bytes) => Some(bytes@),
        None => None,
    }
}

/// Updates weights. The settings of the step change from run to run, so they
/// are read back every time.
fn launch_adamw<B: Backend>(
    env: LaunchEnv,
    bindings: &Vec<CudaNodeBinding<B>>,
    live: Option<&Vec<u8>>,
) -> (r: Result<CudaAction<B>, DispatchError>)
    ensures
        action_is(
            r,
            kernel_action(Kernel::AdamW, env, bindings_view(bindings@), live_view(live)),
        ),
{
    let found: Vec<&CudaNodeBinding<B>> = operands(bindings, 6)?;
    let dims: Vec<u32> = meta_u32(env.order, found[4], 1)?;
    let cfg: &CudaNodeBinding<B> = found[5];
    assert(cfg@ == held(bindings_view(bindings@), 5));
    let bytes: Vec<u8> = match live {
        None => {
            return Ok(CudaAction::ReadMeta(cfg.slice.clone()));
        },
        Some(bytes) => cut_to_tensor(bytes.as_slice(), cfg.size),
    };
    let settings: Vec<u32> = fields(env.order, &bytes, 6)?;
    let config: LaunchConfig = cfg_1d(dims[0])?;
    let args: Vec<KernelArg<B>> = vec![
        write(found[0]),
        read(found[1]),
        write(found[2]),
        write(found[3]),
        KernelArg::U32(dims[0]),
        KernelArg::U32(settings[0]),
        KernelArg::F32(settings[1]),
        KernelArg::F32(settings[2]),
        KernelArg::F32(settings[3]),
        KernelArg::F32(settings[4]),
        KernelArg::F32(settings[5]),
    ];
    assert(args@ =~= args_spec(
        Kernel::AdamW.form().args,
        bindings_view(bindings@),
        dims@,
        settings@,
    ));
    Ok(CudaAction::Launch(KernelLaunch { kernel: Kernel::AdamW, config, args }))
}

/// What running a kernel takes.
fn run_kernel<B: Backend>(
    kernel: Kernel,
    env: LaunchEnv,
    bindings: &Vec<CudaNodeBinding<B>>,
    live: Option<&Vec<u8>>,
) -> (r: Result<CudaAction<B>, DispatchError>)
    ensures
        action_is(r, kernel_action(kernel, env, bindings_view(bindings@), live_view(live))),
{
    let launch: KernelLaunch<B> = match kernel {
        Kernel::Embedding | Kernel::EmbeddingBwd => launch_embedding(env, bindings, kernel)?,
        Kernel::CausalMask => launch_causal_mask(env, bindings)?,
        Kernel::HeadGather | Kernel::HeadScatter => launch_head_move(env, bindings, kernel)?,
        Kernel::ZeroTensor => launch_zero_tensor(env, bindings)?,
        Kernel::Silu => launch_elementwise_1(env, bindings)?,
        Kernel::SiluBwd => launch_elementwise_3(env, bindings)?,
        Kernel::Add | Kernel::BwdAddInplace => launch_add(env, bindings, kernel)?,
        Kernel::Rope | Kernel::RopeBwd => launch_rope(env, bindings, kernel)?,
        Kernel::Softmax => launch_softmax(env, bindings)?,
        Kernel::SoftmaxBwd => launch_softmax_bwd(env, bindings)?,
        Kernel::RmsNorm => launch_rmsnorm(env, bindings)?,
        Kernel::RmsNormBwd => launch_rmsnorm_bwd(env, bindings)?,
        Kernel::RmsNormWeightBwd => launch_rmsnorm_weight_bwd(env, bindings)?,
        Kernel::CrossEntropy => launch_cross_entropy(env, bindings)?,
        Kernel::CrossEntropyBwd => launch_cross_entropy_bwd(env, bindings)?,
        Kernel::AdamW => {
            return launch_adamw(env, bindings, live);
        },
    };
    Ok(CudaAction::Launch(launch))
}

/// What running a shader of this name takes.
fn run_shader<B: Backend>(
    name: &str,
    env: LaunchEnv,
    bindings: &Vec<CudaNodeBinding<B>>,
    live: Option<&Vec<u8>>,
) -> (r: Result<CudaAction<B>, DispatchError>)
    ensures
        action_is(r, shader_action(name@, env, bindings_view(bindings@), live_view(live))),
{
    match CudaOp::from_name(name) {
        None => Err(DispatchError::UnknownShader),
        Some(CudaOp::MatMul) => {
            let call: GemmCall<B> = gemm_matmul(env.order, bindings, false)?;
            Ok(CudaAction::Gemm(call))
        },
        Some(CudaOp::MatMulTrp) => {
            let call: GemmCall<B> = gemm_matmul(env.order, bindings, true)?;
            Ok(CudaAction::Gemm(call))
        },
        Some(CudaOp::MatMulWeightBwd) => {
            let call: GemmCall<B> = gemm_weight_bwd(env.order, bindings)?;
            Ok(CudaAction::Gemm(call))
        },
        Some(CudaOp::Launch(kernel)) => run_kernel(kernel, env, bindings, live),
    }
}

/// The first node that runs on CUDA, from position `at` on; the number of nodes
/// if there is none.
pub open spec fn next_cuda<B: Backend>(nodes: Seq<NodeView<B>>, at: int) -> int
    decreases nodes.len() - at,
{
    if at >= nodes.len() || at < 0 {
        nodes.len() as int
    } else if nodes[at] is Cuda {
        at
    } else {
        next_cuda(nodes, at + 1)
    }
}

/// What running a node takes.
pub open spec fn node_action<B: Backend>(
    order: ByteOrder,
    node: NodeView<B>,
    live: Option<Seq<u8>>,
) -> Result<CudaActionView<B>, DispatchError> {
    shader_action(
        node->Cuda_name,
        LaunchEnv { order, workgroups: node->Cuda_workgroups },
        node->Cuda_bindings,
        live,
    )
}

/// One step of running a graph.
pub struct CudaStep<B: Backend> {
    pub action: Result<CudaAction<B>, DispatchError>,
    /// The position of the next step: past the node that the action runs, at
    /// the node whose meta tensor is to be read, at the node that cannot be run.
    pub at: usize,
}

/// One step of running the nodes of a graph in order.
///
/// The first step is at position zero; each further one is where the step
/// before says, until all nodes were run or one cannot be. `live` holds the
/// bytes that were read back if the step before asked for any. Nodes that run on
/// wgpu are passed over.
pub fn execute_cuda_graph<B: Backend>(
    order: ByteOrder,
    nodes: &Vec<ComputeNode<B>>,
    at: usize,
    live: Option<&Vec<u8>>,
) -> (r: CudaStep<B>)
    ensures
        ({
            let i = next_cuda(nodes_view(nodes@), at as int);
            if i == nodes@.len() {
                &&& action_is(r.action, Ok(CudaActionView::Finished))
                &&& r.at == i
            } else {
                &&& action_is(
                    r.action,
                    node_action(order, nodes_view(nodes@)[i], live_view(live)),
                )
                &&& r.at == (match r.action {
                    Ok(CudaAction::Gemm(_)) => i + 1,
                    Ok(CudaAction::Launch(_)) => i + 1,
                    _ => i,
                })
            }
        }),
{
    let ghost view = nodes_view(nodes@);
    let mut i: usize = at;
    while i < nodes.len()
        invariant
            at <= nodes@.len() ==> i <= nodes@.len(),
            at > nodes@.len() ==> i == at,
            view == nodes_view(nodes@),
            next_cuda(view, i as int) == next_cuda(view, at as int),
        decreases nodes@.len() - i,
    {
        match &nodes[i] {
            ComputeNode::Wgpu { .. } => {
                assert(view[i as int] == nodes@[i as int]@);
            },
            ComputeNode::Cuda { name, bindings, workgroups } => {
                assert(view[i as int] == nodes@[i as int]@);
                let env: LaunchEnv = LaunchEnv { order, workgroups: *workgroups };
                let action: Result<CudaAction<B>, DispatchError> = run_shader(
                    name.as_str(),
                    env,
                    bindings,
                    live,
                );
                let next: usize = match &action {
                    Ok(CudaAction::Gemm(_)) => i + 1,
                    Ok(CudaAction::Launch(_)) => i + 1,
                    _ => i,
                };
                return CudaStep { action, at: next };
            },
        }
        i += 1;
    }
    CudaStep { action: Ok(CudaAction::Finished), at: nodes.len() }
}

} // verus!
