//! The backend that tensors and graphs are built against.
use std::sync::Arc;
use vstd::prelude::*;

use crate::backend::Backend;

verus! {

/// Either a wgpu (Vulkan) device or a CUDA device.
pub enum WgpuContext<B: Backend> {
    Wgpu(B::WgpuDevice),
    Cuda(Arc<B::CudaContext>),
}

impl<B: Backend> WgpuContext<B> {
    /// The context of an opened wgpu device: the default backend.
    pub fn new(device: B::WgpuDevice) -> (r: Self)
        ensures
            r == WgpuContext::<B>::Wgpu(device),
    {
        WgpuContext::Wgpu(device)
    }

    /// The context of a CUDA device, given what opening it came to. `None`
    /// where no device could be opened, so that the caller can fall back to
    /// wgpu.
    pub fn new_cuda<E>(opened: Result<Arc<B::CudaContext>, E>) -> (r: Option<Self>)
        ensures
            r == (match opened {
                Ok(cuda) => Some(WgpuContext::<B>::Cuda(cuda)),
                Err(_) => None,
            }),
    {
        match opened {
            Ok(cuda) => Some(WgpuContext::Cuda(cuda)),
            Err(_) => None,
        }
    }

    /// Whether this is a CUDA context.
    pub fn is_cuda(&self) -> (r: bool)
        ensures
            r == (self is Cuda),
    {
        match self {
            WgpuContext::Wgpu(_) => false,
            WgpuContext::Cuda(_) => true,
        }
    }

    /// The wgpu device of a wgpu context.
    pub fn wgpu(&self) -> (r: &B::WgpuDevice)
        requires
            self is Wgpu,
        ensures
            *self == WgpuContext::<B>::Wgpu(*r),
    {
        match self {
            WgpuContext::Wgpu(device) => device,
            WgpuContext::Cuda(_) => vstd::pervasive::unreached(),
        }
    }

    /// The CUDA device of a CUDA context.
    pub fn cuda(&self) -> (r: &Arc<B::CudaContext>)
        requires
            self is Cuda,
        ensures
            *self == WgpuContext::<B>::Cuda(*r),
    {
        match self {
            WgpuContext::Cuda(cuda) => cuda,
            WgpuContext::Wgpu(_) => vstd::pervasive::unreached(),
        }
    }
}

/// How the device is polled after a submission.
#[derive(Debug, Clone, Copy, PartialEq, Eq, Structural)]
pub enum Maintain {
    /// Block until the device has completed what was submitted.
    Wait,
    /// Process what has completed, without blocking.
    Poll,
}

/// One submission in this many waits for the device.
pub const POLL_INTERVAL: u64 = 2;

/// How the device is polled after the `n`th submission.
pub open spec fn maintain_after(n: u64) -> Maintain {
    if n % POLL_INTERVAL == 0 {
        Maintain::Wait
    } else {
        Maintain::Poll
    }
}

/// The count after one more submission. It wraps around at the end of its range.
pub open spec fn next_count(n: u64) -> u64 {
    if n == u64::MAX {
        0
    } else {
        (n + 1) as u64
    }
}

/// Counts the submissions to one wgpu device, over all the graphs that share
/// it.
///
/// Without polling, the pool of command buffers runs ahead of the device until
/// a buffer is recycled that is still pending. Waiting for every submission
/// would serialise host and device, so only some wait.
pub struct SubmitCounter {
    count: u64,
}

impl SubmitCounter {
    /// The submissions counted so far, modulo the range of the counter.
    pub closed spec fn submitted(self) -> u64 {
        self.count
    }

    /// The submissions since the last one that waited.
    pub open spec fn ahead(self) -> u64 {
        self.submitted() % POLL_INTERVAL
    }

    /// No submissions yet.
    pub fn new() -> (r: Self)
        ensures
            r.submitted() == 0,
            r.ahead() == 0,
    {
        SubmitCounter { count: 0 }
    }

    /// Counts a submission and says how the device is to be polled after it.
    /// Never more than `POLL_INTERVAL - 1` submissions go by without a wait.
    pub fn record(&mut self) -> (r: Maintain)
        ensures
            final(self).submitted() == next_count(old(self).submitted()),
            r == maintain_after(final(self).submitted()),
            final(self).ahead() == (if r == Maintain::Wait {
                0
            } else {
                (old(self).ahead() + 1) as u64
            }),
            final(self).ahead() < POLL_INTERVAL,
    {
        let n: u64 = self.count.wrapping_add(1);
        self.count = n;
        if n % POLL_INTERVAL == 0 {
            Maintain::Wait
        } else {
            Maintain::Poll
        }
    }
}

/// Of any two submissions in a row exactly one waits for the device, wherever
/// the counter stands.
pub proof fn law_every_other_submission_waits(n: u64)
    ensures
        (maintain_after(n) == Maintain::Wait) != (maintain_after(next_count(n)) == Maintain::Wait),
{
}

/// Submissions are counted one by one, round the range of the counter, and it is
/// those with an even count that wait: the first of a new counter does not, the
/// second does.
pub proof fn law_even_submissions_wait(counter: &mut SubmitCounter, made: SubmitCounter, r: Maintain)
    requires
        call_ensures(SubmitCounter::new, (), made),
        call_ensures(SubmitCounter::record, (counter,), r),
    ensures
        made.submitted() == 0,
        final(counter).submitted() == (old(counter).submitted() + 1) % 0x1_0000_0000_0000_0000,
        r == Maintain::Wait <==> final(counter).submitted() % 2 == 0,
        r == Maintain::Poll <==> final(counter).submitted() % 2 == 1,
{
}

/// A context gives back the device that it was made of: a wgpu device always
/// makes a wgpu context, and a CUDA context is made exactly where a device was
/// opened.
pub proof fn law_contexts_hold_their_device<B: Backend, E>(
    device: B::WgpuDevice,
    opened: Result<Arc<B::CudaContext>, E>,
    made: WgpuContext<B>,
    made_cuda: Option<WgpuContext<B>>,
    tested: bool,
    given: B::WgpuDevice,
    tested_cuda: bool,
    given_cuda: Arc<B::CudaContext>,
)
    requires
        call_ensures(WgpuContext::<B>::new, (device,), made),
        call_ensures(WgpuContext::<B>::is_cuda, (&made,), tested),
        call_ensures(WgpuContext::<B>::wgpu, (&made,), &given),
        call_ensures(WgpuContext::<B>::new_cuda::<E>, (opened,), made_cuda),
        made_cuda is Some ==> call_ensures(
            WgpuContext::<B>::is_cuda,
            (&made_cuda->0,),
            tested_cuda,
        ),
        made_cuda is Some ==> call_ensures(WgpuContext::<B>::cuda, (&made_cuda->0,), &given_cuda),
    ensures
        !tested,
        given == device,
        opened is Err ==> made_cuda is None,
        opened matches Ok(cuda) ==> made_cuda is Some && tested_cuda && given_cuda == cuda,
{
}

} // verus!
