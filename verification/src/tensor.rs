//! Tensors: device buffers tagged with the backend that holds them.
use std::sync::Arc;
use vstd::prelude::*;

use crate::backend::Backend;
use crate::context::WgpuContext;
use crate::text::{decimal, push_decimal};

verus! {

/// `wgpu::BufferUsages::MAP_READ`.
pub const USAGE_MAP_READ: u32 = 1;

/// `wgpu::BufferUsages::COPY_SRC`.
pub const USAGE_COPY_SRC: u32 = 4;

/// `wgpu::BufferUsages::COPY_DST`.
pub const USAGE_COPY_DST: u32 = 8;

/// `wgpu::BufferUsages::STORAGE`.
pub const USAGE_STORAGE: u32 = 128;

/// The usage of a tensor that was uploaded from the host: bound to shaders,
/// overwritten and read back.
pub const TENSOR_USAGE: u32 = USAGE_STORAGE + USAGE_COPY_DST + USAGE_COPY_SRC;

/// The usage of the buffer through which a tensor is read back.
pub const STAGING_USAGE: u32 = USAGE_MAP_READ + USAGE_COPY_DST;

/// The size of the elements that CUDA storage is counted in.
pub const ELEMENT_BYTES: usize = 4;

/// Where a tensor's bytes are held.
pub enum TensorStorage<B: Backend> {
    Wgpu(Arc<B::Buffer>),
    Cuda(Arc<B::CudaSlice>),
}

/// A buffer of `size` bytes on the device of its context.
pub struct Tensor<B: Backend> {
    pub ctx: Arc<WgpuContext<B>>,
    pub storage: TensorStorage<B>,
    pub size: u64,
}

/// A wgpu buffer to be created.
#[derive(Debug, Clone, Copy)]
pub struct BufferRequest {
    pub label: &'static str,
    pub size: u64,
    /// The bits of a `wgpu::BufferUsages`.
    pub usage: u32,
    pub mapped_at_creation: bool,
}

/// The storage that a zeroed tensor needs.
#[derive(Debug, Clone, Copy)]
pub enum Allocation {
    Wgpu(BufferRequest),
    /// Zeroed elements of `ELEMENT_BYTES` each.
    Cuda { elements: usize },
}

/// How a tensor's storage is created from the host's bytes.
#[derive(Debug, Clone, Copy)]
pub enum Upload {
    /// A buffer initialised with all the bytes.
    Wgpu { label: &'static str, usage: u32 },
    /// A slice of as many elements, copied from the host.
    Cuda { elements: usize },
}

/// How a tensor is overwritten from the host's bytes.
pub enum WriteRequest<B: Backend> {
    /// All the bytes are written at `offset`.
    Wgpu { buffer: Arc<B::Buffer>, offset: u64 },
    /// The bytes are copied as elements, from the first on.
    Cuda { slice: Arc<B::CudaSlice>, elements: usize },
}

/// How a tensor is read back to the host.
pub enum ReadRequest<B: Backend> {
    /// `size` bytes are copied from the start of the buffer to the start of a
    /// staging buffer, which is then mapped and read whole.
    Wgpu { buffer: Arc<B::Buffer>, staging: BufferRequest, size: u64 },
    /// The whole slice is copied to the host.
    Cuda { slice: Arc<B::CudaSlice> },
}

/// Why a transfer between a tensor and the host cannot be made.
#[derive(Debug, Clone, Copy, PartialEq, Eq, Structural)]
pub enum TensorError {
    /// CUDA storage holds whole elements, and this many bytes do not make any.
    PartialElement { len: usize },
    /// The tensor's storage belongs to another backend than its context.
    BackendMismatch,
}

impl TensorError {
    /// The text that reports the error.
    pub open spec fn message_spec(self) -> Seq<char> {
        match self {
            TensorError::PartialElement { len } => {
                decimal(len as nat) + " bytes do not make whole elements"@
            },
            TensorError::BackendMismatch => "[wilupgu] Tensor ctx/storage backend mismatch"@,
        }
    }

    /// The text that reports the error.
    pub fn message(self) -> (r: String)
        ensures
            r@ == self.message_spec(),
    {
        match self {
            TensorError::PartialElement { len } => {
                let mut s: String = String::new();
                push_decimal(&mut s, len as u64);
                s.append(" bytes do not make whole elements");
                assert(s@ =~= self.message_spec());
                s
            },
            TensorError::BackendMismatch => {
                "[wilupgu] Tensor ctx/storage backend mismatch".to_owned()
            },
        }
    }
}

impl<B: Backend> TensorStorage<B> {
    /// Whether the storage belongs to the backend of this context.
    pub open spec fn belongs_to(self, ctx: WgpuContext<B>) -> bool {
        (self is Cuda) == (ctx is Cuda)
    }
}

impl<B: Backend> Tensor<B> {
    /// The storage belongs to the backend of the tensor's context.
    pub open spec fn wf(self) -> bool {
        self.storage.belongs_to(*self.ctx)
    }

    /// The bytes that reading the tensor back gives: all of them on wgpu, those
    /// of the whole elements on CUDA.
    pub open spec fn readable_bytes(self) -> int {
        if self.storage is Cuda {
            ELEMENT_BYTES * ((self.size as usize) / ELEMENT_BYTES)
        } else {
            self.size as int
        }
    }

    /// What `allocation` asks for.
    pub open spec fn allocation_spec(
        ctx: WgpuContext<B>,
        size_bytes: u64,
        usage: u32,
    ) -> Allocation {
        match ctx {
            WgpuContext::Wgpu(_) => Allocation::Wgpu(
                BufferRequest {
                    label: "Wilupgu_Tensor",
                    size: size_bytes,
                    usage,
                    mapped_at_creation: false,
                },
            ),
            WgpuContext::Cuda(_) => Allocation::Cuda {
                elements: (size_bytes as usize) / ELEMENT_BYTES,
            },
        }
    }

    /// What `upload` asks for, given `len` bytes.
    pub open spec fn upload_spec(ctx: WgpuContext<B>, len: nat) -> Result<Upload, TensorError> {
        match ctx {
            WgpuContext::Wgpu(_) => Ok(
                Upload::Wgpu { label: "Wilupgu_Tensor", usage: TENSOR_USAGE },
            ),
            WgpuContext::Cuda(_) => if len % 4 == 0 {
                Ok(Upload::Cuda { elements: (len / 4) as usize })
            } else {
                Err(TensorError::PartialElement { len: len as usize })
            },
        }
    }

    /// What `copy_from_cpu` asks for, given `len` bytes.
    pub open spec fn write_spec(self, len: nat) -> Result<WriteRequest<B>, TensorError> {
        match (*self.ctx, self.storage) {
            (WgpuContext::Wgpu(_), TensorStorage::Wgpu(buffer)) => Ok(
                WriteRequest::Wgpu { buffer, offset: 0 },
            ),
            (WgpuContext::Cuda(_), TensorStorage::Cuda(slice)) => if len % 4 == 0 {
                Ok(WriteRequest::Cuda { slice, elements: (len / 4) as usize })
            } else {
                Err(TensorError::PartialElement { len: len as usize })
            },
            _ => Err(TensorError::BackendMismatch),
        }
    }

    /// What `to_cpu` asks for.
    pub open spec fn read_spec(self) -> Result<ReadRequest<B>, TensorError> {
        match (*self.ctx, self.storage) {
            (WgpuContext::Wgpu(_), TensorStorage::Wgpu(buffer)) => Ok(
                ReadRequest::Wgpu {
                    buffer,
                    staging: BufferRequest {
                        label: "Staging_Buffer",
                        size: self.size,
                        usage: STAGING_USAGE,
                        mapped_at_creation: false,
                    },
                    size: self.size,
                },
            ),
            (WgpuContext::Cuda(_), TensorStorage::Cuda(slice)) => Ok(ReadRequest::Cuda { slice }),
            _ => Err(TensorError::BackendMismatch),
        }
    }

    /// The storage to create for a zeroed tensor of `size_bytes`.
    pub fn allocation(ctx: &WgpuContext<B>, size_bytes: u64, usage: u32) -> (r: Allocation)
        ensures
            r == Self::allocation_spec(*ctx, size_bytes, usage),
    {
        match ctx {
            WgpuContext::Wgpu(_) => Allocation::Wgpu(
                BufferRequest {
                    label: "Wilupgu_Tensor",
                    size: size_bytes,
                    usage,
                    mapped_at_creation: false,
                },
            ),
            WgpuContext::Cuda(_) => Allocation::Cuda {
                elements: (size_bytes as usize) / ELEMENT_BYTES,
            },
        }
    }

    /// A tensor of `size_bytes` over the storage that was created for it.
    pub fn new(ctx: Arc<WgpuContext<B>>, size_bytes: u64, storage: TensorStorage<B>) -> (r: Self)
        requires
            storage.belongs_to(*ctx),
        ensures
            r == (Tensor { ctx, storage, size: size_bytes }),
            r.wf(),
    {
        Tensor { ctx, storage, size: size_bytes }
    }

    /// How the storage of a tensor is created from the host's bytes. CUDA
    /// storage takes whole elements only.
    pub fn upload(ctx: &WgpuContext<B>, data: &[u8]) -> (r: Result<Upload, TensorError>)
        ensures
            r == Self::upload_spec(*ctx, data@.len()),
    {
        match ctx {
            WgpuContext::Wgpu(_) => Ok(
                Upload::Wgpu { label: "Wilupgu_Tensor", usage: TENSOR_USAGE },
            ),
            WgpuContext::Cuda(_) => {
                if data.len() % ELEMENT_BYTES == 0 {
                    Ok(Upload::Cuda { elements: data.len() / ELEMENT_BYTES })
                } else {
                    Err(TensorError::PartialElement { len: data.len() })
                }
            },
        }
    }

    /// A tensor of the host's bytes, over the storage that was created from
    /// them. Its size is theirs.
    pub fn init_from_cpu(
        ctx: Arc<WgpuContext<B>>,
        data: &[u8],
        storage: TensorStorage<B>,
    ) -> (r: Self)
        requires
            storage.belongs_to(*ctx),
        ensures
            r == (Tensor { ctx, storage, size: data@.len() as u64 }),
            r.size == data@.len(),
            r.wf(),
    {
        Tensor { ctx, storage, size: data.len() as u64 }
    }

    /// How the tensor is overwritten from the host's bytes.
    pub fn copy_from_cpu(&self, data: &[u8]) -> (r: Result<WriteRequest<B>, TensorError>)
        ensures
            r == self.write_spec(data@.len()),
            self.wf() ==> r != Err::<WriteRequest<B>, TensorError>(TensorError::BackendMismatch),
    {
        match (&*self.ctx, &self.storage) {
            (WgpuContext::Wgpu(_), TensorStorage::Wgpu(buffer)) => Ok(
                WriteRequest::Wgpu { buffer: buffer.clone(), offset: 0 },
            ),
            (WgpuContext::Cuda(_), TensorStorage::Cuda(slice)) => {
                if data.len() % ELEMENT_BYTES == 0 {
                    Ok(
                        WriteRequest::Cuda {
                            slice: slice.clone(),
                            elements: data.len() / ELEMENT_BYTES,
                        },
                    )
                } else {
                    Err(TensorError::PartialElement { len: data.len() })
                }
            },
            _ => Err(TensorError::BackendMismatch),
        }
    }

    /// How the tensor is read back to the host.
    pub fn to_cpu(&self) -> (r: Result<ReadRequest<B>, TensorError>)
        ensures
            r == self.read_spec(),
            self.wf() ==> r is Ok,
    {
        match (&*self.ctx, &self.storage) {
            (WgpuContext::Wgpu(_), TensorStorage::Wgpu(buffer)) => Ok(
                ReadRequest::Wgpu {
                    buffer: buffer.clone(),
                    staging: BufferRequest {
                        label: "Staging_Buffer",
                        size: self.size,
                        usage: STAGING_USAGE,
                        mapped_at_creation: false,
                    },
                    size: self.size,
                },
            ),
            (WgpuContext::Cuda(_), TensorStorage::Cuda(slice)) => Ok(
                ReadRequest::Cuda { slice: slice.clone() },
            ),
            _ => Err(TensorError::BackendMismatch),
        }
    }

    /// Gives up the tensor. A wgpu buffer is returned, to be destroyed; CUDA
    /// storage is freed when its last holder lets go of it.
    pub fn free(self) -> (r: Option<Arc<B::Buffer>>)
        ensures
            r == (match self.storage {
                TensorStorage::Wgpu(buffer) => Some(buffer),
                TensorStorage::Cuda(_) => None,
            }),
    {
        match self.storage {
            TensorStorage::Wgpu(buffer) => Some(buffer),
            TensorStorage::Cuda(_) => None,
        }
    }
}

/// A tensor of uploaded bytes is read back whole: on either backend, reading it
/// gives exactly as many bytes as the upload took.
pub proof fn law_upload_is_read_back_whole<B: Backend>(t: Tensor<B>, data: Seq<u8>)
    requires
        data.len() <= usize::MAX,
        t.wf(),
        t.size == data.len(),
        Tensor::<B>::upload_spec(*t.ctx, data.len()) is Ok,
    ensures
        t.readable_bytes() == data.len(),
{
}

/// A zeroed tensor has room for its bytes: all of them on wgpu, and on CUDA all
/// the whole elements, less than one element short.
pub proof fn law_allocation_holds_tensor<B: Backend>(t: Tensor<B>, usage: u32)
    requires
        t.wf(),
        t.size <= usize::MAX,
    ensures
        match Tensor::<B>::allocation_spec(*t.ctx, t.size, usage) {
            Allocation::Wgpu(request) => request.size == t.readable_bytes() == t.size,
            Allocation::Cuda { elements } => ELEMENT_BYTES * elements == t.readable_bytes()
                && t.size - ELEMENT_BYTES < t.readable_bytes() <= t.size,
        },
{
}

/// Writing and reading meet the start of the same buffer, or of the same slice.
pub proof fn law_read_follows_write<B: Backend>(t: Tensor<B>, len: nat)
    requires
        t.wf(),
        t.write_spec(len) is Ok,
    ensures
        match (t.write_spec(len), t.read_spec()) {
            (
                Ok(WriteRequest::Wgpu { buffer: written, offset }),
                Ok(ReadRequest::Wgpu { buffer: read, staging, size }),
            ) => written == read && offset == 0 && size == t.size,
            (
                Ok(WriteRequest::Cuda { slice: written, elements }),
                Ok(ReadRequest::Cuda { slice: read }),
            ) => written == read,
            _ => false,
        },
{
}

/// What storage that held these bytes holds once the request to write `data` was
/// carried out: the data from the start on, then what followed before.
pub open spec fn after_write<B: Backend>(
    request: WriteRequest<B>,
    held: Seq<u8>,
    data: Seq<u8>,
) -> Seq<u8> {
    let start = match request {
        WriteRequest::Wgpu { buffer, offset } => offset as int,
        WriteRequest::Cuda { slice, elements } => 0,
    };
    held.take(start) + data + held.skip(start + data.len())
}

/// What carrying out the request to read gives, where the storage holds these
/// bytes. The host reads the whole staging buffer, which is zero behind what is
/// copied into it.
pub open spec fn read_bytes<B: Backend>(request: ReadRequest<B>, held: Seq<u8>) -> Seq<u8> {
    match request {
        ReadRequest::Wgpu { buffer, staging, size } => Seq::new(
            staging.size as nat,
            |i: int|
                if i < size {
                    held[i]
                } else {
                    0
                },
        ),
        ReadRequest::Cuda { slice } => held,
    }
}

/// Reading gives back what was written: the data that a tensor was overwritten
/// with, and after it what the tensor held before.
pub proof fn law_read_gives_back_what_was_written<B: Backend>(
    t: Tensor<B>,
    held: Seq<u8>,
    data: Seq<u8>,
)
    requires
        t.wf(),
        t.write_spec(data.len()) is Ok,
        t.storage is Wgpu ==> t.size <= held.len(),
        t.storage is Cuda ==> t.readable_bytes() == held.len(),
        data.len() <= t.readable_bytes(),
    ensures
        ({
            let write = t.write_spec(data.len())->Ok_0;
            let read = t.read_spec()->Ok_0;
            let given = read_bytes(read, after_write(write, held, data));
            &&& t.read_spec() is Ok
            &&& given.len() == t.readable_bytes()
            &&& given.take(data.len() as int) == data
            &&& given.skip(data.len() as int) == read_bytes(read, held).skip(data.len() as int)
        }),
{
    let write = t.write_spec(data.len())->Ok_0;
    let read = t.read_spec()->Ok_0;
    let given = read_bytes(read, after_write(write, held, data));
    assert(given.len() == t.readable_bytes());
    assert(given.take(data.len() as int) =~= data);
    assert(given.skip(data.len() as int) =~= read_bytes(read, held).skip(data.len() as int));
}

/// A tensor of uploaded bytes reads back as these bytes, whatever padding its
/// buffer has behind them.
pub proof fn law_upload_reads_back<B: Backend>(t: Tensor<B>, data: Seq<u8>, padding: Seq<u8>)
    requires
        data.len() <= usize::MAX,
        t.wf(),
        t.size == data.len(),
        Tensor::<B>::upload_spec(*t.ctx, data.len()) is Ok,
        t.storage is Cuda ==> padding.len() == 0,
    ensures
        t.read_spec() is Ok,
        read_bytes(t.read_spec()->Ok_0, data + padding) == data,
{
    assert(read_bytes(t.read_spec()->Ok_0, data + padding) =~= data);
}

/// Reading a tensor back asks for its own storage. On wgpu the staging buffer has
/// exactly the tensor's size, and as many bytes are copied into it; it can be
/// copied to and mapped for reading, and nothing else. Reading is refused exactly
/// where the storage is not that of the tensor's backend.
pub proof fn law_reading_asks_for_the_whole_tensor<B: Backend>(
    t: Tensor<B>,
    r: Result<ReadRequest<B>, TensorError>,
)
    requires
        call_ensures(Tensor::<B>::to_cpu, (&t,), r),
    ensures
        match r {
            Ok(ReadRequest::Wgpu { buffer, staging, size }) => {
                &&& *t.ctx is Wgpu
                &&& t.storage == TensorStorage::<B>::Wgpu(buffer)
                &&& staging.size == t.size
                &&& size == t.size
                &&& staging.usage == 1u32 | 8u32
                &&& !staging.mapped_at_creation
                &&& staging.label@ == "Staging_Buffer"@
            },
            Ok(ReadRequest::Cuda { slice }) => {
                &&& *t.ctx is Cuda
                &&& t.storage == TensorStorage::<B>::Cuda(slice)
            },
            Err(e) => e == TensorError::BackendMismatch && (*t.ctx is Cuda) != (t.storage is Cuda),
        },
        (*t.ctx is Cuda) == (t.storage is Cuda) ==> r is Ok,
{
    assert(1u32 | 8u32 == 9u32) by (bit_vector);
}

/// Overwriting a tensor meets its own storage, from the start on. CUDA takes as
/// many elements as the bytes make, and refuses bytes that make no whole number
/// of them; storage of another backend is refused first.
pub proof fn law_writing_starts_at_the_front<B: Backend>(
    t: Tensor<B>,
    data: &[u8],
    r: Result<WriteRequest<B>, TensorError>,
)
    requires
        data@.len() <= usize::MAX,
        call_ensures(Tensor::<B>::copy_from_cpu, (&t, data), r),
    ensures
        match r {
            Ok(WriteRequest::Wgpu { buffer, offset }) => {
                &&& *t.ctx is Wgpu
                &&& t.storage == TensorStorage::<B>::Wgpu(buffer)
                &&& offset == 0
            },
            Ok(WriteRequest::Cuda { slice, elements }) => {
                &&& *t.ctx is Cuda
                &&& t.storage == TensorStorage::<B>::Cuda(slice)
                &&& 4 * elements == data@.len()
            },
            Err(TensorError::PartialElement { len }) => {
                &&& *t.ctx is Cuda
                &&& t.storage is Cuda
                &&& len == data@.len()
                &&& len % 4 != 0
            },
            Err(TensorError::BackendMismatch) => (*t.ctx is Cuda) != (t.storage is Cuda),
        },
{
}

/// A zeroed tensor is given a buffer of its size for the usage that was asked
/// for, or as many elements as its bytes hold whole.
pub proof fn law_allocation_is_of_the_size_asked_for<B: Backend>(
    ctx: WgpuContext<B>,
    size_bytes: u64,
    usage: u32,
    r: Allocation,
)
    requires
        size_bytes <= usize::MAX,
        call_ensures(Tensor::<B>::allocation, (&ctx, size_bytes, usage), r),
    ensures
        match r {
            Allocation::Wgpu(request) => {
                &&& ctx is Wgpu
                &&& request.size == size_bytes
                &&& request.usage == usage
                &&& !request.mapped_at_creation
                &&& request.label@ == "Wilupgu_Tensor"@
            },
            Allocation::Cuda { elements } => {
                &&& ctx is Cuda
                &&& 4 * elements <= size_bytes < 4 * elements + 4
            },
        },
{
}

/// An upload takes all the bytes. On wgpu the buffer can be bound to shaders and
/// copied to and from, and nothing else; on CUDA there are as many elements as the
/// bytes make, and bytes that make no whole number of them are refused.
pub proof fn law_upload_takes_all_bytes<B: Backend>(
    ctx: WgpuContext<B>,
    data: &[u8],
    r: Result<Upload, TensorError>,
)
    requires
        data@.len() <= usize::MAX,
        call_ensures(Tensor::<B>::upload, (&ctx, data), r),
    ensures
        match r {
            Ok(Upload::Wgpu { label, usage }) => {
                &&& ctx is Wgpu
                &&& usage == 128u32 | 8u32 | 4u32
                &&& label@ == "Wilupgu_Tensor"@
            },
            Ok(Upload::Cuda { elements }) => ctx is Cuda && 4 * elements == data@.len(),
            Err(TensorError::PartialElement { len }) => {
                &&& ctx is Cuda
                &&& len == data@.len()
                &&& len % 4 != 0
            },
            Err(TensorError::BackendMismatch) => false,
        },
{
    assert(128u32 | 8u32 | 4u32 == 140u32) by (bit_vector);
}

/// A new tensor is of the context, the storage and the size that it was made
/// with; an uploaded one has a byte for each of the host's. Freeing it gives up
/// that buffer, if it is one.
pub proof fn law_tensors_are_of_what_they_are_made_with<B: Backend>(
    ctx: Arc<WgpuContext<B>>,
    size_bytes: u64,
    data: &[u8],
    storage: TensorStorage<B>,
    made: Tensor<B>,
    uploaded: Tensor<B>,
    freed: Option<Arc<B::Buffer>>,
)
    requires
        call_ensures(Tensor::<B>::new, (ctx, size_bytes, storage), made),
        call_ensures(Tensor::<B>::init_from_cpu, (ctx, data, storage), uploaded),
        call_ensures(Tensor::<B>::free, (made,), freed),
    ensures
        made.size == size_bytes,
        uploaded.size == data@.len(),
        made.ctx == ctx,
        uploaded.ctx == ctx,
        made.storage == storage,
        uploaded.storage == storage,
        freed matches Some(buffer) ==> storage == TensorStorage::<B>::Wgpu(buffer),
        freed is None ==> storage is Cuda,
{
}

/// Overwriting a tensor and reading it back gives the data, and behind it what
/// the tensor held before: as many bytes as the tensor has, or on CUDA as its
/// whole elements have.
pub proof fn law_write_then_read<B: Backend>(
    t: Tensor<B>,
    held: Seq<u8>,
    data: &[u8],
    write: Result<WriteRequest<B>, TensorError>,
    read: Result<ReadRequest<B>, TensorError>,
    i: int,
)
    requires
        call_ensures(Tensor::<B>::copy_from_cpu, (&t, data), write),
        call_ensures(Tensor::<B>::to_cpu, (&t,), read),
        write is Ok,
        t.storage is Wgpu ==> t.size <= held.len(),
        t.storage is Cuda ==> held.len() <= t.size < held.len() + 4 && held.len() % 4 == 0,
        data@.len() <= held.len(),
        data@.len() <= t.size,
        0 <= i < held.len(),
        i < t.size,
    ensures
        read is Ok,
        ({
            let given = read_bytes(read->Ok_0, after_write(write->Ok_0, held, data@));
            &&& given.len() == (if t.storage is Cuda {
                held.len()
            } else {
                t.size as nat
            })
            &&& given[i] == (if i < data@.len() {
                data@[i]
            } else {
                held[i]
            })
        }),
{
}

/// The texts of the errors.
pub proof fn law_tensor_messages(e: TensorError, r: String)
    requires
        call_ensures(TensorError::message, (e,), r),
    ensures
        e matches TensorError::PartialElement { len } ==> r@ == decimal(len as nat)
            + " bytes do not make whole elements"@,
        e is BackendMismatch ==> r@ == "[wilupgu] Tensor ctx/storage backend mismatch"@,
{
}

} // verus!
