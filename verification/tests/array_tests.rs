use vpi::array::{
    ArrayData, ArrayDataBacking, ArrayDataBuilder, ArrayDataWrapper, ArrayLock, ERR_ARRAY_CAPACITY,
    ERR_ARRAY_DATA, ERR_ARRAY_ITEM_TYPE, ERR_ARRAY_SIZE, ERR_ARRAY_STRIDE,
};
use vpi::sys::{VPIArrayBufferType_VPI_ARRAY_BUFFER_CUDA_AOS, VPIArrayBufferType_VPI_ARRAY_BUFFER_HOST_AOS};
use vpi::VpiError;

fn size_of_type(t: u32) -> i32 {
    (t as i32) * 4
}

fn refusal(r: Result<ArrayDataWrapper, VpiError>) -> &'static str {
    match r {
        Err(VpiError::App(m)) => m,
        _ => panic!("expected a refusal"),
    }
}

#[test]
fn array_defaults_capacity_and_stride() {
    let w = ArrayDataBuilder::default().ptr(0x1000).size(10).item_type(2).array_data(size_of_type).ok().unwrap();
    assert_eq!(w.data.buffer_type, VPIArrayBufferType_VPI_ARRAY_BUFFER_HOST_AOS);
    assert_eq!(w.data.aos.data, 0x1000);
    assert_eq!(w.data.aos.size, 10);
    assert_eq!(w.data.aos.capacity, 10);
    assert_eq!(w.data.aos.stride_bytes, 8);
    assert_eq!(w.data.aos.item_type, 2);
}

#[test]
fn array_keeps_given_capacity_stride_and_cuda() {
    let w = ArrayDataBuilder::default()
        .cuda()
        .ptr(0x2000)
        .size(3)
        .capacity(16)
        .stride_bytes(24)
        .item_type(5)
        .array_data(|_t| panic!("the item size is not needed"))
        .ok()
        .unwrap();
    assert_eq!(w.data.buffer_type, VPIArrayBufferType_VPI_ARRAY_BUFFER_CUDA_AOS);
    assert_eq!(w.data.aos.capacity, 16);
    assert_eq!(w.data.aos.stride_bytes, 24);
}

#[test]
fn array_errors_come_in_order() {
    assert_eq!(refusal(ArrayDataBuilder::default().array_data(size_of_type)), ERR_ARRAY_DATA);
    assert_eq!(refusal(ArrayDataBuilder::default().ptr(0).size(1).array_data(size_of_type)), ERR_ARRAY_DATA);
    assert_eq!(refusal(ArrayDataBuilder::default().ptr(8).array_data(size_of_type)), ERR_ARRAY_SIZE);
    assert_eq!(refusal(ArrayDataBuilder::default().ptr(8).size(0).array_data(size_of_type)), ERR_ARRAY_SIZE);
    assert_eq!(
        refusal(ArrayDataBuilder::default().ptr(8).size(2).capacity(0).array_data(size_of_type)),
        ERR_ARRAY_CAPACITY
    );
    assert_eq!(refusal(ArrayDataBuilder::default().ptr(8).size(2).array_data(size_of_type)), ERR_ARRAY_ITEM_TYPE);
    assert_eq!(
        refusal(ArrayDataBuilder::default().ptr(8).size(2).item_type(1).stride_bytes(0).array_data(size_of_type)),
        ERR_ARRAY_STRIDE
    );
    assert_eq!(
        refusal(ArrayDataBuilder::default().ptr(8).size(2).item_type(0).array_data(size_of_type)),
        ERR_ARRAY_STRIDE
    );
}

#[test]
fn built_array_reads_back_through_a_lock() {
    let w = ArrayDataBuilder::default().ptr(0x40).size(6).capacity(9).stride_bytes(12).item_type(3).array_data(size_of_type).ok().unwrap();
    let mut lock = ArrayLock::from_locked(w.data);
    match lock.data() {
        ArrayData::Host(h) => {
            assert_eq!(h.as_ptr(), 0x40);
            assert_eq!(h.size(), 6);
            assert_eq!(h.capacity(), 9);
            assert_eq!(h.stride_bytes(), 12);
            assert_eq!(h.item_type(), 3);
            assert_eq!(h.size_bytes(12), 72);
        }
        _ => panic!("expected host memory"),
    }
}

#[test]
fn cuda_array_lock_reads_back() {
    let w = ArrayDataBuilder::default().cuda().ptr(0x80).size(2).item_type(3).array_data(size_of_type).ok().unwrap();
    let mut lock = ArrayLock::from_locked(w.data);
    match lock.data() {
        ArrayData::Cuda(c) => {
            assert_eq!(c.as_device_ptr(), 0x80);
            assert_eq!(c.size(), 2);
            assert_eq!(c.capacity(), 2);
            assert_eq!(c.stride_bytes(), 12);
            assert_eq!(c.item_type(), 3);
            assert_eq!(c.size_bytes(12), 24);
        }
        _ => panic!("expected CUDA memory"),
    }
}
