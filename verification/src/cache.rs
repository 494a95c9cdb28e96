//! What has been compiled already, by name.
use std::sync::Arc;
use vstd::hash_map::StringHashMap;
use vstd::prelude::*;

use crate::backend::Backend;
use crate::graph::kernels::{law_function_names, law_kernel_keys_differ, Kernel};

verus! {

/// The compiled pipelines of a wgpu device, each with its bind group layout,
/// by shader name.
///
/// Layout and pipeline are a function of the shader, not of the tensors bound
/// to it, so every node that uses a shader of the same name shares them.
pub struct PipelineCache<B: Backend> {
    entries: StringHashMap<(Arc<B::BindGroupLayout>, Arc<B::ComputePipeline>)>,
}

impl<B: Backend> View for PipelineCache<B> {
    type V = Map<Seq<char>, (Arc<B::BindGroupLayout>, Arc<B::ComputePipeline>)>;

    closed spec fn view(&self) -> Self::V {
        self.entries@
    }
}

impl<B: Backend> PipelineCache<B> {
    /// An empty cache.
    pub fn new() -> (r: Self)
        ensures
            r@ == Map::<Seq<char>, (Arc<B::BindGroupLayout>, Arc<B::ComputePipeline>)>::empty(),
    {
        PipelineCache { entries: StringHashMap::new() }
    }

    /// What was compiled for the shader of this name, if anything was.
    pub fn lookup(&self, name: &str) -> (r: Option<
        (Arc<B::BindGroupLayout>, Arc<B::ComputePipeline>),
    >)
        ensures
            r == (if self@.contains_key(name@) {
                Some(self@[name@])
            } else {
                None
            }),
    {
        match self.entries.get(name) {
            Some(found) => Some((found.0.clone(), found.1.clone())),
            None => None,
        }
    }

    /// Keeps what was compiled for the shader of this name, where nothing is kept
    /// under it.
    pub(crate) fn store(
        &mut self,
        name: &str,
        layout: Arc<B::BindGroupLayout>,
        pipeline: Arc<B::ComputePipeline>,
    )
        requires
            !old(self)@.contains_key(name@),
        ensures
            final(self)@ == old(self)@.insert(name@, (layout, pipeline)),
    {
        self.entries.insert(name.to_owned(), (layout, pipeline));
    }
}

/// The compiled kernel functions of a CUDA device, by cache key.
pub struct KernelCache<B: Backend> {
    entries: StringHashMap<Arc<B::CudaFunction>>,
}

impl<B: Backend> View for KernelCache<B> {
    type V = Map<Seq<char>, Arc<B::CudaFunction>>;

    closed spec fn view(&self) -> Self::V {
        self.entries@
    }
}

impl<B: Backend> KernelCache<B> {
    /// An empty cache.
    pub fn new() -> (r: Self)
        ensures
            r@ == Map::<Seq<char>, Arc<B::CudaFunction>>::empty(),
    {
        KernelCache { entries: StringHashMap::new() }
    }

    /// The compiled function of a kernel.
    ///
    /// Called first without a function: one that was compiled before is given
    /// back, and otherwise the kernel is to be compiled. Called then with what
    /// was compiled, which is kept under the kernel's key and given back. Where
    /// one is kept already, that one is given back and stays.
    pub fn get_or_compile(
        &mut self,
        kernel: Kernel,
        compiled: Option<Arc<B::CudaFunction>>,
    ) -> (r: KernelStep<B>)
        ensures
            r == kernel_step::<B>(old(self)@, kernel, compiled),
            final(self)@ == kernels_after::<B>(old(self)@, kernel, compiled),
    {
        let key: &'static str = kernel.key();
        match self.entries.get(key) {
            Some(found) => KernelStep::Ready(found.clone()),
            None => match compiled {
                Some(function) => {
                    self.entries.insert(key.to_owned(), function.clone());
                    KernelStep::Ready(function)
                },
                None => KernelStep::Compile { key, function: kernel.function() },
            },
        }
    }
}

/// A compiled kernel, or what compiling it takes.
pub enum KernelStep<B: Backend> {
    Ready(Arc<B::CudaFunction>),
    /// Compile the kernel's source and load the function of this name from it.
    Compile { key: &'static str, function: &'static str },
}

/// What asking for a kernel comes to.
pub open spec fn kernel_step<B: Backend>(
    cache: Map<Seq<char>, Arc<B::CudaFunction>>,
    kernel: Kernel,
    compiled: Option<Arc<B::CudaFunction>>,
) -> KernelStep<B> {
    if cache.contains_key(kernel.key_spec()@) {
        KernelStep::Ready(cache[kernel.key_spec()@])
    } else {
        match compiled {
            Some(function) => KernelStep::Ready(function),
            None => KernelStep::Compile {
                key: kernel.key_spec(),
                function: kernel.function_spec(),
            },
        }
    }
}

/// What is kept once a kernel was asked for.
pub open spec fn kernels_after<B: Backend>(
    cache: Map<Seq<char>, Arc<B::CudaFunction>>,
    kernel: Kernel,
    compiled: Option<Arc<B::CudaFunction>>,
) -> Map<Seq<char>, Arc<B::CudaFunction>> {
    match compiled {
        Some(function) if !cache.contains_key(kernel.key_spec()@) => cache.insert(
            kernel.key_spec()@,
            function,
        ),
        _ => cache,
    }
}

/// A kernel is compiled once: the function that is handed in for it first is what
/// it is given from then on, whatever is handed in later, and asking for any
/// other kernel comes to what it did before.
pub proof fn law_kernels_are_compiled_once<B: Backend>(
    cache: Map<Seq<char>, Arc<B::CudaFunction>>,
    kernel: Kernel,
    function: Arc<B::CudaFunction>,
    later: Option<Arc<B::CudaFunction>>,
    other: Kernel,
)
    ensures
        ({
            let after = kernels_after::<B>(cache, kernel, Some(function));
            &&& kernel_step::<B>(after, kernel, later) == kernel_step::<B>(
                cache,
                kernel,
                Some(function),
            )
            &&& kernels_after::<B>(after, kernel, later) == after
            &&& other != kernel ==> kernel_step::<B>(after, other, later) == kernel_step::<B>(
                cache,
                other,
                later,
            )
        }),
{
    if other != kernel && other.key_spec()@ == kernel.key_spec()@ {
        law_kernel_keys_differ(other, kernel);
    }
}

/// A function that is kept stays, whatever kernel is asked for and whatever is
/// handed in for it.
pub proof fn law_compiled_kernels_stay<B: Backend>(
    cache: Map<Seq<char>, Arc<B::CudaFunction>>,
    kernel: Kernel,
    compiled: Option<Arc<B::CudaFunction>>,
    key: Seq<char>,
)
    requires
        cache.contains_key(key),
    ensures
        kernels_after::<B>(cache, kernel, compiled).contains_key(key),
        kernels_after::<B>(cache, kernel, compiled)[key] == cache[key],
{
}

/// A new cache keeps nothing, and what is looked up is what is kept under the
/// name.
pub proof fn law_lookups_give_what_is_kept<B: Backend>(
    made: PipelineCache<B>,
    made_kernels: KernelCache<B>,
    cache: PipelineCache<B>,
    name: &str,
    r: Option<(Arc<B::BindGroupLayout>, Arc<B::ComputePipeline>)>,
)
    requires
        call_ensures(PipelineCache::<B>::new, (), made),
        call_ensures(KernelCache::<B>::new, (), made_kernels),
        call_ensures(PipelineCache::<B>::lookup, (&cache, name), r),
    ensures
        made@.dom() == Set::<Seq<char>>::empty(),
        made_kernels@.dom() == Set::<Seq<char>>::empty(),
        r is Some <==> cache@.contains_key(name@),
        r matches Some(found) ==> found == cache@[name@],
{
}

/// Asking for a kernel gives the function that is kept for it. Where none is, the
/// function that is handed in is given back and kept, and without one the kernel
/// is to be compiled. What is kept for any other kernel stays as it was.
pub proof fn law_asking_for_a_kernel<B: Backend>(
    cache: &mut KernelCache<B>,
    kernel: Kernel,
    compiled: Option<Arc<B::CudaFunction>>,
    r: KernelStep<B>,
    other: Kernel,
)
    requires
        call_ensures(KernelCache::<B>::get_or_compile, (cache, kernel, compiled), r),
    ensures
        ({
            let key = kernel.key_spec()@;
            match r {
                KernelStep::Ready(function) => {
                    &&& final(cache)@.contains_key(key)
                    &&& final(cache)@[key] == function
                    &&& function == (if old(cache)@.contains_key(key) {
                        old(cache)@[key]
                    } else {
                        compiled->0
                    })
                    &&& old(cache)@.contains_key(key) || compiled is Some
                },
                KernelStep::Compile { key: asked, function } => {
                    &&& !old(cache)@.contains_key(key)
                    &&& compiled is None
                    &&& asked@ == key
                    &&& function@ == key + "_kernel"@
                    &&& final(cache)@ == old(cache)@
                },
            }
        }),
        other != kernel ==> {
            let key = other.key_spec()@;
            &&& final(cache)@.contains_key(key) <==> old(cache)@.contains_key(key)
            &&& old(cache)@.contains_key(key) ==> final(cache)@[key] == old(cache)@[key]
        },
{
    law_function_names(kernel);
    if other != kernel && other.key_spec()@ == kernel.key_spec()@ {
        law_kernel_keys_differ(other, kernel);
    }
}

} // verus!
