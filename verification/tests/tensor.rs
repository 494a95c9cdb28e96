//! Tensors, contexts, bytes and text.
use std::sync::Arc;

use wilupgu::backend::Backend;
use wilupgu::bytes::{all_words, cut_to_tensor, first_words, word_from, ByteOrder};
use wilupgu::context::{Maintain, SubmitCounter, WgpuContext, POLL_INTERVAL};
use wilupgu::tensor::{
    Allocation, ReadRequest, Tensor, TensorError, TensorStorage, Upload, WriteRequest,
    STAGING_USAGE, TENSOR_USAGE,
};
use wilupgu::text::{joined, push_decimal, same_text};

struct Fake;

impl Backend for Fake {
    type WgpuDevice = &'static str;
    type CudaContext = &'static str;
    type Buffer = u32;
    type BindGroupLayout = u32;
    type ComputePipeline = u32;
    type BindGroup = u32;
    type CudaSlice = u32;
    type CudaFunction = u32;
}

fn wgpu_ctx() -> Arc<WgpuContext<Fake>> {
    Arc::new(WgpuContext::new("vulkan"))
}

fn cuda_ctx() -> Arc<WgpuContext<Fake>> {
    let opened: Result<Arc<&'static str>, ()> = Ok(Arc::new("cuda"));
    Arc::new(WgpuContext::new_cuda(opened).unwrap())
}

#[test]
fn the_default_context_is_wgpu() {
    let ctx = wgpu_ctx();
    assert!(!ctx.is_cuda());
    assert_eq!(*ctx.wgpu(), "vulkan");
}

#[test]
fn a_cuda_context_holds_the_opened_device() {
    let ctx = cuda_ctx();
    assert!(ctx.is_cuda());
    assert_eq!(**ctx.cuda(), "cuda");
}

#[test]
fn no_cuda_device_gives_no_context() {
    let opened: Result<Arc<&'static str>, &str> = Err("no driver");
    assert!(WgpuContext::<Fake>::new_cuda(opened).is_none());
}

#[test]
fn every_other_submission_waits() {
    assert_eq!(POLL_INTERVAL, 2);
    let mut counter = SubmitCounter::new();
    let seen: Vec<Maintain> = (0..5).map(|_| counter.record()).collect();
    assert_eq!(
        seen,
        vec![Maintain::Poll, Maintain::Wait, Maintain::Poll, Maintain::Wait, Maintain::Poll]
    );
}

#[test]
fn usages_are_those_of_wgpu() {
    let tensor = wgpu::BufferUsages::STORAGE
        | wgpu::BufferUsages::COPY_DST
        | wgpu::BufferUsages::COPY_SRC;
    let staging = wgpu::BufferUsages::MAP_READ | wgpu::BufferUsages::COPY_DST;
    assert_eq!(TENSOR_USAGE, tensor.bits());
    assert_eq!(STAGING_USAGE, staging.bits());
}

#[test]
fn a_zeroed_wgpu_tensor_takes_a_buffer_of_its_size() {
    match Tensor::allocation(&*wgpu_ctx(), 10, 128) {
        Allocation::Wgpu(request) => {
            assert_eq!(request.label, "Wilupgu_Tensor");
            assert_eq!(request.size, 10);
            assert_eq!(request.usage, 128);
            assert!(!request.mapped_at_creation);
        }
        Allocation::Cuda { .. } => panic!("not a wgpu allocation"),
    }
}

#[test]
fn a_zeroed_cuda_tensor_takes_whole_elements() {
    for (size, expected) in [(0u64, 0usize), (3, 0), (4, 1), (10, 2), (12, 3)] {
        match Tensor::allocation(&*cuda_ctx(), size, 128) {
            Allocation::Cuda { elements } => assert_eq!(elements, expected),
            Allocation::Wgpu(_) => panic!("not a CUDA allocation"),
        }
    }
}

#[test]
fn a_new_tensor_keeps_size_and_storage() {
    let tensor = Tensor::new(wgpu_ctx(), 10, TensorStorage::Wgpu(Arc::new(7)));
    assert_eq!(tensor.size, 10);
    assert!(matches!(&tensor.storage, TensorStorage::Wgpu(buffer) if **buffer == 7));
}

#[test]
fn uploads_of_either_backend() {
    match Tensor::upload(&*wgpu_ctx(), &[1, 2, 3]) {
        Ok(Upload::Wgpu { label, usage }) => {
            assert_eq!(label, "Wilupgu_Tensor");
            assert_eq!(usage, TENSOR_USAGE);
        }
        _ => panic!("not a wgpu upload"),
    }
    assert!(matches!(Tensor::upload(&*cuda_ctx(), &[0; 12]), Ok(Upload::Cuda { elements: 3 })));
}

#[test]
fn a_cuda_upload_of_a_partial_element_is_refused() {
    let refused = Tensor::upload(&*cuda_ctx(), &[1, 2, 3, 4, 5]);
    assert_eq!(refused.unwrap_err(), TensorError::PartialElement { len: 5 });
    let tensor = Tensor::new(cuda_ctx(), 8, TensorStorage::Cuda(Arc::new(1)));
    let refused = tensor.copy_from_cpu(&[1]);
    assert!(matches!(refused, Err(TensorError::PartialElement { len: 1 })));
}

#[test]
fn an_uploaded_tensor_has_the_size_of_its_data() {
    let tensor = Tensor::init_from_cpu(cuda_ctx(), &[0; 12], TensorStorage::Cuda(Arc::new(1)));
    assert_eq!(tensor.size, 12);
    let tensor = Tensor::init_from_cpu(wgpu_ctx(), &[], TensorStorage::Wgpu(Arc::new(1)));
    assert_eq!(tensor.size, 0);
}

#[test]
fn reading_and_writing_meet_the_same_wgpu_buffer() {
    let tensor = Tensor::new(wgpu_ctx(), 8, TensorStorage::Wgpu(Arc::new(7)));
    match tensor.copy_from_cpu(&[0; 8]) {
        Ok(WriteRequest::Wgpu { buffer, offset }) => {
            assert_eq!(*buffer, 7);
            assert_eq!(offset, 0);
        }
        _ => panic!("not a wgpu write"),
    }
    match tensor.to_cpu() {
        Ok(ReadRequest::Wgpu { buffer, staging, size }) => {
            assert_eq!(*buffer, 7);
            assert_eq!(size, 8);
            assert_eq!(staging.label, "Staging_Buffer");
            assert_eq!(staging.size, 8);
            assert_eq!(staging.usage, STAGING_USAGE);
            assert!(!staging.mapped_at_creation);
        }
        _ => panic!("not a wgpu read"),
    }
}

#[test]
fn reading_and_writing_meet_the_same_cuda_slice() {
    let tensor = Tensor::new(cuda_ctx(), 8, TensorStorage::Cuda(Arc::new(9)));
    match tensor.copy_from_cpu(&[0; 8]) {
        Ok(WriteRequest::Cuda { slice, elements }) => {
            assert_eq!(*slice, 9);
            assert_eq!(elements, 2);
        }
        _ => panic!("not a CUDA write"),
    }
    match tensor.to_cpu() {
        Ok(ReadRequest::Cuda { slice }) => assert_eq!(*slice, 9),
        _ => panic!("not a CUDA read"),
    }
}

#[test]
fn storage_of_another_backend_is_refused() {
    let tensor = Tensor::<Fake> {
        ctx: wgpu_ctx(),
        storage: TensorStorage::Cuda(Arc::new(9)),
        size: 8,
    };
    assert!(matches!(tensor.to_cpu(), Err(TensorError::BackendMismatch)));
    assert!(matches!(tensor.copy_from_cpu(&[0; 8]), Err(TensorError::BackendMismatch)));
}

#[test]
fn freeing_hands_back_a_wgpu_buffer_only() {
    let tensor = Tensor::new(wgpu_ctx(), 8, TensorStorage::Wgpu(Arc::new(7)));
    assert_eq!(tensor.free().map(|b| *b), Some(7));
    let tensor = Tensor::new(cuda_ctx(), 8, TensorStorage::Cuda(Arc::new(9)));
    assert!(tensor.free().is_none());
}

#[test]
fn tensor_errors_in_words() {
    assert_eq!(
        TensorError::PartialElement { len: 105 }.message(),
        "105 bytes do not make whole elements"
    );
    assert_eq!(
        TensorError::BackendMismatch.message(),
        "[wilupgu] Tensor ctx/storage backend mismatch"
    );
}

#[test]
fn words_in_either_byte_order() {
    let bytes = [1, 2, 3, 4, 0xff, 0, 0, 0x80];
    assert_eq!(all_words(ByteOrder::Little, &bytes), vec![0x0403_0201, 0x8000_00ff]);
    assert_eq!(all_words(ByteOrder::Big, &bytes), vec![0x0102_0304, 0xff00_0080]);
    assert_eq!(first_words(ByteOrder::Little, &bytes[..7], 1), vec![0x0403_0201]);
    assert_eq!(word_from(ByteOrder::Big, [0, 0, 1, 0]), 256);
    assert_eq!(all_words(ByteOrder::Big, &[]), Vec::<u32>::new());
}

#[test]
fn words_are_those_of_the_standard_library() {
    let bytes = [0x9c, 0x41, 0x00, 0xf7];
    assert_eq!(word_from(ByteOrder::Little, bytes), u32::from_le_bytes(bytes));
    assert_eq!(word_from(ByteOrder::Big, bytes), u32::from_be_bytes(bytes));
}

#[test]
fn storage_is_cut_to_the_tensor() {
    assert_eq!(cut_to_tensor(&[1, 2, 3, 4], 3), vec![1, 2, 3]);
    assert_eq!(cut_to_tensor(&[1, 2, 3, 4], 4), vec![1, 2, 3, 4]);
    assert_eq!(cut_to_tensor(&[1, 2, 3, 4], 9), vec![1, 2, 3, 4]);
    assert_eq!(cut_to_tensor(&[1, 2, 3, 4], 0), Vec::<u8>::new());
}

#[test]
fn names_are_compared_by_character() {
    assert!(same_text("RoPE", "RoPE"));
    assert!(same_text("", ""));
    assert!(!same_text("RoPE", "RoPEBwd"));
    assert!(!same_text("RoPE", "RoPe"));
    assert!(same_text("g\u{e9}n\u{e9}ral", "g\u{e9}n\u{e9}ral"));
}

#[test]
fn numbers_in_decimal() {
    for n in [0u64, 7, 9, 10, 99, 100, 65535, u64::MAX] {
        let mut s = String::from("n=");
        push_decimal(&mut s, n);
        assert_eq!(s, format!("n={}", n));
    }
    assert_eq!(joined("Mat", "Mul"), "MatMul");
}

#[test]
fn different_bytes_hold_different_words() {
    let bytes = [1, 2, 3, 4, 5, 6, 7, 8];
    for i in 0..bytes.len() {
        let mut other = bytes;
        other[i] ^= 0x80;
        for order in [ByteOrder::Little, ByteOrder::Big] {
            assert_ne!(all_words(order, &bytes), all_words(order, &other));
        }
    }
}
