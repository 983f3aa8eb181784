//! Array descriptions: building the description of caller-owned memory that
//! VPI wraps as an array, and reading the description that VPI hands back
//! when an array is locked.
use crate::sys::{
    VPIArrayBufferAOS, VPIArrayBufferType, VPIArrayData, VPIArrayType,
    VPIArrayBufferType_VPI_ARRAY_BUFFER_CUDA_AOS, VPIArrayBufferType_VPI_ARRAY_BUFFER_HOST_AOS,
};
use crate::util::{VpiError, VpiResult};
use vstd::prelude::*;

verus! {

pub const ERR_ARRAY_DATA: &'static str = "Invalid data pointer given to array builder";

pub const ERR_ARRAY_SIZE: &'static str = "Invalid size given to array builder";

pub const ERR_ARRAY_CAPACITY: &'static str = "Invalid capacity given to array builder";

pub const ERR_ARRAY_ITEM_TYPE: &'static str = "Invalid item type given to array builder";

pub const ERR_ARRAY_STRIDE: &'static str = "Invalid stride given to array builder";

/// The description of an array's memory, ready to be wrapped.
pub struct ArrayDataWrapper {
    pub data: VPIArrayData,
}

/// Something that can describe the memory of an array. The size in bytes of
/// an item type is what VPI reports for it; `item_size_of` asks VPI.
pub trait ArrayDataBacking {
    fn array_data<F: Fn(VPIArrayType) -> i32>(&self, item_size_of: F) -> VpiResult<
        ArrayDataWrapper,
    >
        requires
            forall|t: VPIArrayType| item_size_of.requires((t,)),
    ;
}

/// What an `ArrayDataBuilder` has been told so far.
pub struct ArrayDataBuilderView {
    pub buffer_type: Option<VPIArrayBufferType>,
    pub ptr: Option<usize>,
    pub size: Option<usize>,
    pub capacity: Option<usize>,
    pub stride_bytes: Option<usize>,
    pub item_type: Option<VPIArrayType>,
}

/// Collects the address, sizes, stride, item type and memory kind of an
/// array.
pub struct ArrayDataBuilder {
    buffer_type: Option<VPIArrayBufferType>,
    ptr: Option<usize>,
    size: Option<usize>,
    capacity: Option<usize>,
    stride_bytes: Option<usize>,
    item_type: Option<VPIArrayType>,
}

impl View for ArrayDataBuilder {
    type V = ArrayDataBuilderView;

    closed spec fn view(&self) -> ArrayDataBuilderView {
        ArrayDataBuilderView {
            buffer_type: self.buffer_type,
            ptr: self.ptr,
            size: self.size,
            capacity: self.capacity,
            stride_bytes: self.stride_bytes,
            item_type: self.item_type,
        }
    }
}

impl Default for ArrayDataBuilder {
    fn default() -> (r: ArrayDataBuilder)
        ensures
            r@ == (ArrayDataBuilderView {
                buffer_type: None,
                ptr: None,
                size: None,
                capacity: None,
                stride_bytes: None,
                item_type: None,
            }),
    {
        ArrayDataBuilder {
            buffer_type: None,
            ptr: None,
            size: None,
            capacity: None,
            stride_bytes: None,
            item_type: None,
        }
    }
}

impl ArrayDataBuilder {
    /// Asks for the array to live in CUDA memory.
    pub fn cuda(self) -> (r: Self)
        ensures
            r@ == (ArrayDataBuilderView {
                buffer_type: Some(VPIArrayBufferType_VPI_ARRAY_BUFFER_CUDA_AOS),
                ..self@
            }),
    {
        let mut s = self;
        s.buffer_type = Some(VPIArrayBufferType_VPI_ARRAY_BUFFER_CUDA_AOS);
        s
    }

    /// Sets the address of the first item.
    pub fn ptr(self, ptr: usize) -> (r: Self)
        ensures
            r@ == (ArrayDataBuilderView { ptr: Some(ptr), ..self@ }),
    {
        let mut s = self;
        s.ptr = Some(ptr);
        s
    }

    /// Sets the number of items in use.
    pub fn size(self, size: usize) -> (r: Self)
        ensures
            r@ == (ArrayDataBuilderView { size: Some(size), ..self@ }),
    {
        let mut s = self;
        s.size = Some(size);
        s
    }

    /// Sets the number of items the memory holds.
    pub fn capacity(self, capacity: usize) -> (r: Self)
        ensures
            r@ == (ArrayDataBuilderView { capacity: Some(capacity), ..self@ }),
    {
        let mut s = self;
        s.capacity = Some(capacity);
        s
    }

    /// Sets the distance between the starts of two items, in bytes.
    pub fn stride_bytes(self, stride_bytes: usize) -> (r: Self)
        ensures
            r@ == (ArrayDataBuilderView { stride_bytes: Some(stride_bytes), ..self@ }),
    {
        let mut s = self;
        s.stride_bytes = Some(stride_bytes);
        s
    }

    /// Sets the item type.
    pub fn item_type(self, item_type: VPIArrayType) -> (r: Self)
        ensures
            r@ == (ArrayDataBuilderView { item_type: Some(item_type), ..self@ }),
    {
        let mut s = self;
        s.item_type = Some(item_type);
        s
    }
}

/// The capacity that `b` asks for: the one given, else the size.
pub open spec fn requested_capacity(b: ArrayDataBuilderView) -> Option<usize> {
    match b.capacity {
        Some(c) => Some(c),
        None => b.size,
    }
}

/// The refusal that `b` earns before the item size is needed, if any.
pub open spec fn array_layout_error(b: ArrayDataBuilderView) -> Option<&'static str> {
    if !(b.ptr matches Some(p) && p != 0) {
        Some(ERR_ARRAY_DATA)
    } else if !(b.size matches Some(s) && s > 0) {
        Some(ERR_ARRAY_SIZE)
    } else if !(requested_capacity(b) matches Some(c) && c > 0) {
        Some(ERR_ARRAY_CAPACITY)
    } else if b.item_type is None {
        Some(ERR_ARRAY_ITEM_TYPE)
    } else {
        None
    }
}

/// The stride that `b` asks for, where the item type has `item_size` bytes.
pub open spec fn requested_stride(b: ArrayDataBuilderView, item_size: usize) -> usize {
    match b.stride_bytes {
        Some(s) => s,
        None => item_size,
    }
}

/// `w` is the description built from `b` with a stride of `stride`: the
/// buffer type asked for (host memory when none was), the address, item
/// type, and size, capacity and stride as C `int`s.
pub open spec fn is_built_array_data(b: ArrayDataBuilderView, stride: usize, w: ArrayDataWrapper) -> bool {
    &&& w.data.buffer_type == (match b.buffer_type {
        Some(t) => t,
        None => VPIArrayBufferType_VPI_ARRAY_BUFFER_HOST_AOS,
    })
    &&& w.data.aos.data == b.ptr.unwrap()
    &&& w.data.aos.item_type == b.item_type.unwrap()
    &&& w.data.aos.size == b.size.unwrap() as i32
    &&& w.data.aos.capacity == requested_capacity(b).unwrap() as i32
    &&& w.data.aos.stride_bytes == stride as i32
}

impl ArrayDataBacking for ArrayDataBuilder {
    /// Checks what the builder was told and builds the description: refused
    /// for a null or missing address, a zero or missing size, a zero
    /// capacity (the size standing in for a missing one), a missing item
    /// type, or a zero stride (the item type's size standing in for a
    /// missing one), in this order. The item size is asked for only when no
    /// stride was given.
    fn array_data<F: Fn(VPIArrayType) -> i32>(&self, item_size_of: F) -> (r: VpiResult<
        ArrayDataWrapper,
    >)
        ensures
            array_layout_error(self@) matches Some(m) ==> (r matches Err(e) && e matches VpiError::App(
                em,
            ) && em == m),
            array_layout_error(self@) is None && self@.stride_bytes is Some ==> (if self@.stride_bytes.unwrap()
                > 0 {
                r matches Ok(w) && is_built_array_data(self@, self@.stride_bytes.unwrap(), w)
            } else {
                r matches Err(e) && e matches VpiError::App(em) && em == ERR_ARRAY_STRIDE
            }),
            array_layout_error(self@) is None && self@.stride_bytes is None ==> (exists|
                item_size: i32,
            |
                #[trigger] item_size_of.ensures((self@.item_type.unwrap(),), item_size) && (if (
                item_size as usize) > 0 {
                    r matches Ok(w) && is_built_array_data(self@, item_size as usize, w)
                } else {
                    r matches Err(e) && e matches VpiError::App(em) && em == ERR_ARRAY_STRIDE
                })),
            // A non-null address, any size of at least one item, a positive
            // capacity or none, an item type and a positive stride are
            // accepted, and the size, capacity, stride and address are kept.
            self@.ptr is Some && self@.ptr.unwrap() != 0 && self@.size is Some && self@.size.unwrap()
                >= 1 && (self@.capacity is None || self@.capacity.unwrap() >= 1)
                && self@.item_type is Some && self@.stride_bytes is Some
                && self@.stride_bytes.unwrap() >= 1 ==> (r matches Ok(w) && w.data.aos.size
                == self@.size.unwrap() as i32 && w.data.aos.stride_bytes
                == self@.stride_bytes.unwrap() as i32 && w.data.aos.data == self@.ptr.unwrap()
                && w.data.aos.item_type == self@.item_type.unwrap() && w.data.aos.capacity == (
            if self@.capacity is Some {
                self@.capacity.unwrap()
            } else {
                self@.size.unwrap()
            }) as i32),
            // Without a stride, the same holds where the item type's size is
            // positive, whatever size was reported.
            self@.ptr is Some && self@.ptr.unwrap() != 0 && self@.size is Some && self@.size.unwrap()
                >= 1 && (self@.capacity is None || self@.capacity.unwrap() >= 1)
                && self@.item_type is Some && self@.stride_bytes is None && (forall|z: i32|
                #[trigger] item_size_of.ensures((self@.item_type.unwrap(),), z) ==> (z as usize)
                >= 1) ==> (r matches Ok(w) && w.data.aos.size == self@.size.unwrap() as i32),
            // Refused only for a null or missing address, a missing or zero
            // size, a zero capacity, a missing item type or a zero stride.
            r is Err ==> (self@.ptr is None || self@.ptr.unwrap() == 0 || self@.size is None
                || self@.size.unwrap() == 0 || (self@.capacity is Some && self@.capacity.unwrap()
                == 0) || self@.item_type is None || (self@.stride_bytes is Some
                && self@.stride_bytes.unwrap() == 0) || (self@.stride_bytes is None && exists|
                z: i32,
            | #[trigger] item_size_of.ensures((self@.item_type.unwrap(),), z) && (z as usize)
                == 0)),
    {
        proof {
            lemma_array_layout_accepts_exactly(self@);
        }
        let data_ptr = match self.ptr {
            Some(p) if p != 0 => p,
            _ => {
                return Err(VpiError::App(ERR_ARRAY_DATA));
            },
        };
        let size = match self.size {
            Some(s) if s > 0 => s,
            _ => {
                return Err(VpiError::App(ERR_ARRAY_SIZE));
            },
        };
        let capacity = match self.capacity {
            Some(c) => c,
            None => size,
        };
        if capacity == 0 {
            return Err(VpiError::App(ERR_ARRAY_CAPACITY));
        }
        let item_type = match self.item_type {
            Some(t) => t,
            None => {
                return Err(VpiError::App(ERR_ARRAY_ITEM_TYPE));
            },
        };
        let stride_bytes = match self.stride_bytes {
            Some(s) => s,
            None => {
                let item_size = item_size_of(item_type);
                item_size as usize
            },
        };
        if stride_bytes == 0 {
            return Err(VpiError::App(ERR_ARRAY_STRIDE));
        }
        let buffer_type = match self.buffer_type {
            Some(t) => t,
            None => VPIArrayBufferType_VPI_ARRAY_BUFFER_HOST_AOS,
        };
        Ok(
            ArrayDataWrapper {
                data: VPIArrayData {
                    buffer_type,
                    aos: VPIArrayBufferAOS {
                        item_type,
                        capacity: capacity as i32,
                        stride_bytes: stride_bytes as i32,
                        size: size as i32,
                        data: data_ptr,
                    },
                },
            },
        )
    }
}

/// Number of bytes taken by `size` items of `item_size` bytes.
pub open spec fn items_size_bytes(aos: VPIArrayBufferAOS, item_size: usize) -> int {
    (aos.size as usize) * item_size
}

/// The items of a locked array in host memory.
pub struct HostData {
    inner: VPIArrayBufferAOS,
}

impl View for HostData {
    type V = VPIArrayBufferAOS;

    closed spec fn view(&self) -> VPIArrayBufferAOS {
        self.inner
    }
}

impl HostData {
    /// Address of the first item.
    pub fn as_ptr(&self) -> (r: usize)
        ensures
            r == self@.data,
    {
        self.inner.data
    }

    /// Number of items in use.
    pub fn size(&self) -> (r: usize)
        ensures
            r == self@.size as usize,
    {
        self.inner.size as usize
    }

    /// Number of items the memory holds.
    pub fn capacity(&self) -> (r: usize)
        ensures
            r == self@.capacity as usize,
    {
        self.inner.capacity as usize
    }

    /// Distance between the starts of two items, in bytes.
    pub fn stride_bytes(&self) -> (r: usize)
        ensures
            r == self@.stride_bytes as usize,
    {
        self.inner.stride_bytes as usize
    }

    pub fn item_type(&self) -> (r: VPIArrayType)
        ensures
            r == self@.item_type,
    {
        self.inner.item_type
    }

    /// Number of bytes taken by the items in use, for items of `item_size`
    /// bytes.
    pub fn size_bytes(&self, item_size: usize) -> (r: usize)
        requires
            items_size_bytes(self@, item_size) <= usize::MAX,
        ensures
            r == items_size_bytes(self@, item_size),
    {
        self.size() * item_size
    }
}

/// The items of a locked array in CUDA memory.
pub struct CudaData {
    inner: VPIArrayBufferAOS,
}

impl View for CudaData {
    type V = VPIArrayBufferAOS;

    closed spec fn view(&self) -> VPIArrayBufferAOS {
        self.inner
    }
}

impl CudaData {
    /// Number of items in use.
    pub fn size(&self) -> (r: usize)
        ensures
            r == self@.size as usize,
    {
        self.inner.size as usize
    }

    /// Number of items the memory holds.
    pub fn capacity(&self) -> (r: usize)
        ensures
            r == self@.capacity as usize,
    {
        self.inner.capacity as usize
    }

    /// Distance between the starts of two items, in bytes.
    pub fn stride_bytes(&self) -> (r: usize)
        ensures
            r == self@.stride_bytes as usize,
    {
        self.inner.stride_bytes as usize
    }

    pub fn item_type(&self) -> (r: VPIArrayType)
        ensures
            r == self@.item_type,
    {
        self.inner.item_type
    }

    /// Number of bytes taken by the items in use, for items of `item_size`
    /// bytes.
    pub fn size_bytes(&self, item_size: usize) -> (r: usize)
        requires
            items_size_bytes(self@, item_size) <= usize::MAX,
        ensures
            r == items_size_bytes(self@, item_size),
    {
        self.size() * item_size
    }

    /// Device address of the first item.
    pub fn as_device_ptr(&self) -> (r: usize)
        ensures
            r == self@.data,
    {
        self.inner.data
    }
}

/// The memory of a locked array, by kind.
pub enum ArrayData {
    Host(HostData),
    Cuda(CudaData),
}

/// The buffer types whose memory a lock can hand out.
pub open spec fn array_lock_buffer_type_supported(t: VPIArrayBufferType) -> bool {
    ||| t == VPIArrayBufferType_VPI_ARRAY_BUFFER_HOST_AOS
    ||| t == VPIArrayBufferType_VPI_ARRAY_BUFFER_CUDA_AOS
}

/// The description of a locked array, as VPI handed it out.
pub struct ArrayLock {
    data: VPIArrayData,
}

impl View for ArrayLock {
    type V = VPIArrayData;

    closed spec fn view(&self) -> VPIArrayData {
        self.data
    }
}

impl ArrayLock {
    /// Holds the description that locking an array produced.
    pub fn from_locked(data: VPIArrayData) -> (r: ArrayLock)
        ensures
            r@ == data,
    {
        ArrayLock { data }
    }

    /// The memory of the array, by the kind that the description names.
    pub fn data(&mut self) -> (r: ArrayData)
        requires
            array_lock_buffer_type_supported(old(self)@.buffer_type),
        ensures
            final(self)@ == old(self)@,
            old(self)@.buffer_type == VPIArrayBufferType_VPI_ARRAY_BUFFER_HOST_AOS ==> (r matches ArrayData::Host(
                h,
            ) && h@ == old(self)@.aos),
            old(self)@.buffer_type == VPIArrayBufferType_VPI_ARRAY_BUFFER_CUDA_AOS ==> (r matches ArrayData::Cuda(
                c,
            ) && c@ == old(self)@.aos),
    {
        if self.data.buffer_type == VPIArrayBufferType_VPI_ARRAY_BUFFER_HOST_AOS {
            ArrayData::Host(HostData { inner: self.data.aos })
        } else {
            ArrayData::Cuda(CudaData { inner: self.data.aos })
        }
    }
}

/// A built array description holds, as the values that the getters of a
/// locked array report unchanged, the
/// address, item type, size, capacity and stride that the builder was given
/// (the size standing in for a missing capacity), when each fits in a C
/// `int`.
pub proof fn lemma_built_array_keeps_layout(b: ArrayDataBuilderView, stride: usize, w: ArrayDataWrapper)
    requires
        array_layout_error(b) is None,
        stride > 0,
        is_built_array_data(b, stride, w),
        b.size.unwrap() <= i32::MAX,
        requested_capacity(b).unwrap() <= i32::MAX,
        stride <= i32::MAX,
    ensures
        w.data.aos.data == b.ptr.unwrap(),
        w.data.aos.item_type == b.item_type.unwrap(),
        w.data.aos.size as usize == b.size.unwrap(),
        w.data.aos.capacity as usize == requested_capacity(b).unwrap(),
        w.data.aos.stride_bytes as usize == stride,
{
}

/// The layout checks pass exactly for a non-null address, a size of at
/// least one item, a capacity of at least one item or none, and an item type.
pub proof fn lemma_array_layout_accepts_exactly(b: ArrayDataBuilderView)
    ensures
        array_layout_error(b) is None <==> (b.ptr is Some && b.ptr.unwrap() != 0 && b.size is Some
            && b.size.unwrap() >= 1 && (b.capacity is None || b.capacity.unwrap() >= 1)
            && b.item_type is Some),
{
}

/// Which refusal the layout checks give, in order: a null or missing
/// address, then a missing or zero size, then a zero capacity (the size
/// standing in for a missing one), then a missing item type.
pub proof fn lemma_array_layout_refusal_order(b: ArrayDataBuilderView)
    ensures
        (b.ptr is None || b.ptr.unwrap() == 0) ==> array_layout_error(b) == Some(ERR_ARRAY_DATA),
        b.ptr is Some && b.ptr.unwrap() != 0 && (b.size is None || b.size.unwrap() == 0)
            ==> array_layout_error(b) == Some(ERR_ARRAY_SIZE),
        b.ptr is Some && b.ptr.unwrap() != 0 && b.size is Some && b.size.unwrap() >= 1
            && b.capacity is Some && b.capacity.unwrap() == 0 ==> array_layout_error(b) == Some(
            ERR_ARRAY_CAPACITY,
        ),
        b.ptr is Some && b.ptr.unwrap() != 0 && b.size is Some && b.size.unwrap() >= 1 && (
        b.capacity is None || b.capacity.unwrap() >= 1) && b.item_type is None
            ==> array_layout_error(b) == Some(ERR_ARRAY_ITEM_TYPE),
{
}

} // verus!
