//! Image descriptions: building the description of caller-owned memory that
//! VPI wraps as an image, and reading the description that VPI hands back
//! when an image is locked.
use crate::sys::{
    zero_plane, zero_plane_spec, VPIImageBufferPitchLinear, VPIImageBufferType, VPIImageData,
    VPIImageFormat, VPIImagePlanePitchLinear, VPIPixelType,
    VPIImageBufferType_VPI_IMAGE_BUFFER_CUDA_PITCH_LINEAR,
    VPIImageBufferType_VPI_IMAGE_BUFFER_HOST_PITCH_LINEAR, VPI_MAX_PLANE_COUNT,
    VPIImageBufferType_VPI_IMAGE_BUFFER_CUDA_ARRAY,
};
use crate::util::{VpiError, VpiResult};
use vstd::prelude::*;

verus! {

pub const ERR_IMAGE_PLANE_COUNT: &'static str = "Invalid number of planes given to image builder";

pub const ERR_IMAGE_FORMAT: &'static str = "Image data requires format to be specified";

pub const ERR_IMAGE_PLANE_DATA: &'static str = "Invalid data pointer given to image builder";

pub const ERR_IMAGE_PLANE_WIDTH: &'static str = "Invalid width given to image builder";

pub const ERR_IMAGE_PLANE_HEIGHT: &'static str = "Invalid height given to image builder";

pub const ERR_IMAGE_PLANE_PITCH: &'static str = "Invalid pitch given to image builder";

/// Something that can describe the memory of an image.
pub trait ImageDataBacking {
    fn image_data(&self) -> VpiResult<VPIImageData>;
}

/// What an `ImageDataBuilder` has been told so far.
pub struct ImageDataBuilderView {
    pub format: Option<VPIImageFormat>,
    pub buffer_type: Option<VPIImageBufferType>,
    pub planes: Seq<VPIImagePlanePitchLinear>,
}

/// Collects the format, the memory kind and the planes of an image.
pub struct ImageDataBuilder {
    format: Option<VPIImageFormat>,
    buffer_type: Option<VPIImageBufferType>,
    pitch: Vec<VPIImagePlanePitchLinear>,
}

impl View for ImageDataBuilder {
    type V = ImageDataBuilderView;

    closed spec fn view(&self) -> ImageDataBuilderView {
        ImageDataBuilderView { format: self.format, buffer_type: self.buffer_type, planes: self.pitch@ }
    }
}

impl Default for ImageDataBuilder {
    fn default() -> (r: ImageDataBuilder)
        ensures
            r@.format is None,
            r@.buffer_type is None,
            r@.planes == Seq::<VPIImagePlanePitchLinear>::empty(),
    {
        ImageDataBuilder { format: None, buffer_type: None, pitch: Vec::new() }
    }
}

/// The first refusal that a plane earns, if any.
pub open spec fn plane_error(p: VPIImagePlanePitchLinear) -> Option<&'static str> {
    if p.data == 0 {
        Some(ERR_IMAGE_PLANE_DATA)
    } else if p.width <= 0 {
        Some(ERR_IMAGE_PLANE_WIDTH)
    } else if p.height <= 0 {
        Some(ERR_IMAGE_PLANE_HEIGHT)
    } else if p.pitch_bytes <= 0 {
        Some(ERR_IMAGE_PLANE_PITCH)
    } else {
        None
    }
}

/// The refusal of the first plane in `ps` that earns one, if any.
pub open spec fn planes_error(ps: Seq<VPIImagePlanePitchLinear>) -> Option<&'static str>
    decreases ps.len(),
{
    if ps.len() == 0 {
        None
    } else {
        match plane_error(ps[0]) {
            Some(m) => Some(m),
            None => planes_error(ps.drop_first()),
        }
    }
}

/// Number of planes that fit into the slots of an image description.
pub open spec fn stored_plane_count(n: nat) -> nat {
    if n <= VPI_MAX_PLANE_COUNT {
        n
    } else {
        VPI_MAX_PLANE_COUNT as nat
    }
}

/// The planes that are checked and stored: those that fit into the slots.
pub open spec fn stored_planes(b: ImageDataBuilderView) -> Seq<VPIImagePlanePitchLinear> {
    b.planes.take(stored_plane_count(b.planes.len()) as int)
}

/// The refusal that building the description of `b` earns, if any.
pub open spec fn image_data_error(b: ImageDataBuilderView) -> Option<&'static str> {
    if b.planes.len() == 0 {
        Some(ERR_IMAGE_PLANE_COUNT)
    } else if b.format is None {
        Some(ERR_IMAGE_FORMAT)
    } else {
        planes_error(stored_planes(b))
    }
}

/// The buffer type that `b` asks for, host memory when none was given.
pub open spec fn requested_buffer_type(b: ImageDataBuilderView) -> VPIImageBufferType {
    match b.buffer_type {
        Some(t) => t,
        None => VPIImageBufferType_VPI_IMAGE_BUFFER_HOST_PITCH_LINEAR,
    }
}

/// `d` is the description built from `b`: its buffer type and format, the
/// count of planes given (as a C `int`), the stored planes in their slots
/// and zero in the slots left over.
pub open spec fn is_built_image_data(b: ImageDataBuilderView, d: VPIImageData) -> bool {
    &&& d.buffer_type == requested_buffer_type(b)
    &&& b.format == Some(d.pitch.format)
    &&& d.pitch.num_planes == b.planes.len() as i32
    &&& forall|i: int|
        0 <= i < VPI_MAX_PLANE_COUNT ==> #[trigger] d.pitch.planes@[i] == (if i < stored_plane_count(
            b.planes.len(),
        ) {
            b.planes[i]
        } else {
            zero_plane_spec()
        })
    &&& d.cuda_array == 0
}

proof fn lemma_planes_error_step(ps: Seq<VPIImagePlanePitchLinear>, i: int)
    requires
        0 <= i < ps.len(),
    ensures
        planes_error(ps.skip(i)) == (match plane_error(ps[i]) {
            Some(m) => Some(m),
            None => planes_error(ps.skip(i + 1)),
        }),
{
    assert(ps.skip(i).drop_first() =~= ps.skip(i + 1));
}

impl ImageDataBuilder {
    /// Sets the image format.
    pub fn format(self, format: VPIImageFormat) -> (r: Self)
        ensures
            r@.format == Some(format),
            r@.buffer_type == self@.buffer_type,
            r@.planes == self@.planes,
    {
        let mut s = self;
        s.format = Some(format);
        s
    }

    /// Asks for the image to live in CUDA pitch-linear memory.
    pub fn cuda(self) -> (r: Self)
        ensures
            r@.format == self@.format,
            r@.buffer_type == Some(VPIImageBufferType_VPI_IMAGE_BUFFER_CUDA_PITCH_LINEAR),
            r@.planes == self@.planes,
    {
        let mut s = self;
        s.buffer_type = Some(VPIImageBufferType_VPI_IMAGE_BUFFER_CUDA_PITCH_LINEAR);
        s
    }

    /// Adds a plane whose first row starts at address `data`. The sizes are
    /// stored as C `int`s.
    pub fn plane(
        self,
        data: usize,
        width: usize,
        height: usize,
        pitch_bytes: usize,
        pixel_type: VPIPixelType,
    ) -> (r: Self)
        ensures
            r@.format == self@.format,
            r@.buffer_type == self@.buffer_type,
            r@.planes == self@.planes.push(
                VPIImagePlanePitchLinear {
                    pixel_type,
                    width: width as i32,
                    height: height as i32,
                    pitch_bytes: pitch_bytes as i32,
                    data,
                },
            ),
    {
        let mut s = self;
        s.pitch.push(
            VPIImagePlanePitchLinear {
                pixel_type,
                width: width as i32,
                height: height as i32,
                pitch_bytes: pitch_bytes as i32,
                data,
            },
        );
        s
    }
}

impl ImageDataBacking for ImageDataBuilder {
    /// Checks what the builder was told and builds the description: refused
    /// without planes, without a format, or for the first stored plane with a
    /// null address or a size that is not positive.
    fn image_data(&self) -> (r: VpiResult<VPIImageData>)
        ensures
            match image_data_error(self@) {
                Some(m) => r matches Err(e) && e matches VpiError::App(em) && em == m,
                None => r matches Ok(d) && is_built_image_data(self@, d),
            },
            // Accepted exactly when there is a plane and a format, and every
            // plane that fits into the slots has an address and positive sizes.
            r is Ok <==> (self@.format is Some && self@.planes.len() > 0 && forall|i: int|
                0 <= i < self@.planes.len() && i < VPI_MAX_PLANE_COUNT ==> {
                    &&& #[trigger] self@.planes[i].data != 0
                    &&& self@.planes[i].width > 0
                    &&& self@.planes[i].height > 0
                    &&& self@.planes[i].pitch_bytes > 0
                }),
            r matches Ok(d) ==> d.pitch.num_planes == self@.planes.len() as i32 && forall|i: int|
                0 <= i < self@.planes.len() && i < VPI_MAX_PLANE_COUNT ==> #[trigger] d.pitch.planes@[i]
                    == self@.planes[i],
    {
        proof {
            lemma_image_data_accepts_exactly_well_formed_planes(self@);
        }
        let num_planes = self.pitch.len();
        if num_planes == 0 {
            return Err(VpiError::App(ERR_IMAGE_PLANE_COUNT));
        }
        let format = match self.format {
            Some(f) => f,
            None => {
                return Err(VpiError::App(ERR_IMAGE_FORMAT));
            },
        };
        let buffer_type = match self.buffer_type {
            Some(t) => t,
            None => VPIImageBufferType_VPI_IMAGE_BUFFER_HOST_PITCH_LINEAR,
        };
        let z = zero_plane();
        let mut data = VPIImageData {
            buffer_type,
            pitch: VPIImageBufferPitchLinear {
                format,
                num_planes: num_planes as i32,
                planes: [z, z, z, z, z, z],
            },
            cuda_array: 0,
        };
        let count = if num_planes < VPI_MAX_PLANE_COUNT {
            num_planes
        } else {
            VPI_MAX_PLANE_COUNT
        };
        let ghost stored = stored_planes(self@);
        assert(stored.skip(0) =~= stored);
        let mut i: usize = 0;
        while i < count
            invariant
                count == stored_plane_count(self@.planes.len()),
                count == stored.len(),
                stored == stored_planes(self@),
                num_planes == self@.planes.len(),
                num_planes > 0,
                self@.format == Some(format),
                buffer_type == requested_buffer_type(self@),
                0 <= i <= count,
                planes_error(stored) == planes_error(stored.skip(i as int)),
                data.buffer_type == buffer_type,
                data.pitch.format == format,
                data.pitch.num_planes == num_planes as i32,
                data.cuda_array == 0,
                forall|j: int|
                    0 <= j < VPI_MAX_PLANE_COUNT ==> #[trigger] data.pitch.planes@[j] == (if j
                        < i {
                        self@.planes[j]
                    } else {
                        zero_plane_spec()
                    }),
            decreases count - i,
        {
            let p = self.pitch[i];
            proof {
                lemma_planes_error_step(stored, i as int);
                assert(p == stored[i as int]);
                assert(image_data_error(self@) == planes_error(stored));
            }
            if p.data == 0 {
                return Err(VpiError::App(ERR_IMAGE_PLANE_DATA));
            }
            if p.width <= 0 {
                return Err(VpiError::App(ERR_IMAGE_PLANE_WIDTH));
            }
            if p.height <= 0 {
                return Err(VpiError::App(ERR_IMAGE_PLANE_HEIGHT));
            }
            if p.pitch_bytes <= 0 {
                return Err(VpiError::App(ERR_IMAGE_PLANE_PITCH));
            }
            data.pitch.planes[i] = VPIImagePlanePitchLinear {
                data: p.data,
                width: p.width,
                height: p.height,
                pitch_bytes: p.pitch_bytes,
                pixel_type: p.pixel_type,
            };
            i = i + 1;
        }
        assert(stored.skip(count as int) =~= Seq::<VPIImagePlanePitchLinear>::empty());
        Ok(data)
    }
}

/// Number of bytes that a plane spans: every row but the last at its full
/// pitch, and the pixels of the last row rounded down to whole bytes.
pub open spec fn plane_size_bytes(p: VPIImagePlanePitchLinear, bits_per_pixel: usize) -> int {
    let rows_before_last: int = if (p.height as usize) >= 1 {
        (p.height as usize) - 1
    } else {
        0
    };
    rows_before_last * (p.pitch_bytes as usize) + (p.width as usize) * bits_per_pixel / 8
}

/// `plane_size_bytes` can be computed in `usize` without overflow.
pub open spec fn plane_size_fits(p: VPIImagePlanePitchLinear, bits_per_pixel: usize) -> bool {
    let rows_before_last: int = if (p.height as usize) >= 1 {
        (p.height as usize) - 1
    } else {
        0
    };
    &&& rows_before_last * (p.pitch_bytes as usize) <= usize::MAX
    &&& (p.width as usize) * bits_per_pixel <= usize::MAX
    &&& plane_size_bytes(p, bits_per_pixel) <= usize::MAX
}

fn plane_size_bytes_exec(p: &VPIImagePlanePitchLinear, bits_per_pixel: usize) -> (r: usize)
    requires
        plane_size_fits(*p, bits_per_pixel),
    ensures
        r == plane_size_bytes(*p, bits_per_pixel),
{
    let height = p.height as usize;
    let rows_before_last = height.saturating_sub(1);
    let pitch = p.pitch_bytes as usize;
    let width = p.width as usize;
    rows_before_last * pitch + width * bits_per_pixel / 8
}

/// A plane of a locked image in host memory.
pub struct HostPlane {
    inner: VPIImagePlanePitchLinear,
}

impl View for HostPlane {
    type V = VPIImagePlanePitchLinear;

    closed spec fn view(&self) -> VPIImagePlanePitchLinear {
        self.inner
    }
}

impl HostPlane {
    pub fn pixel_type(&self) -> (r: VPIPixelType)
        ensures
            r == self@.pixel_type,
    {
        self.inner.pixel_type
    }

    /// Width in pixels.
    pub fn width(&self) -> (r: usize)
        ensures
            r == self@.width as usize,
    {
        self.inner.width as usize
    }

    /// Height in rows.
    pub fn height(&self) -> (r: usize)
        ensures
            r == self@.height as usize,
    {
        self.inner.height as usize
    }

    /// Distance between the starts of two rows, in bytes.
    pub fn pitch_bytes(&self) -> (r: usize)
        ensures
            r == self@.pitch_bytes as usize,
    {
        self.inner.pitch_bytes as usize
    }

    /// Address of the first row.
    pub fn as_ptr(&self) -> (r: usize)
        ensures
            r == self@.data,
    {
        self.inner.data
    }

    /// Number of bytes the plane spans, for a pixel type of
    /// `bits_per_pixel` bits.
    pub fn size_bytes(&self, bits_per_pixel: usize) -> (r: usize)
        requires
            plane_size_fits(self@, bits_per_pixel),
        ensures
            r == plane_size_bytes(self@, bits_per_pixel),
    {
        plane_size_bytes_exec(&self.inner, bits_per_pixel)
    }
}

/// The planes of a locked image in host memory.
pub struct HostPitch {
    inner: VPIImageBufferPitchLinear,
}

impl View for HostPitch {
    type V = VPIImageBufferPitchLinear;

    closed spec fn view(&self) -> VPIImageBufferPitchLinear {
        self.inner
    }
}

/// The planes in use: the first `num_planes` slots.
pub open spec fn planes_in_use(p: VPIImageBufferPitchLinear) -> Seq<VPIImagePlanePitchLinear> {
    p.planes@.take(p.num_planes as int)
}

/// `num_planes` names a number of slots that exist.
pub open spec fn plane_count_valid(p: VPIImageBufferPitchLinear) -> bool {
    0 <= p.num_planes <= VPI_MAX_PLANE_COUNT
}

fn copy_planes_in_use(p: &VPIImageBufferPitchLinear) -> (r: Vec<VPIImagePlanePitchLinear>)
    requires
        plane_count_valid(*p),
    ensures
        r@ == planes_in_use(*p),
{
    let n = p.num_planes as usize;
    let mut r: Vec<VPIImagePlanePitchLinear> = Vec::new();
    let mut i: usize = 0;
    while i < n
        invariant
            n == p.num_planes,
            n <= VPI_MAX_PLANE_COUNT,
            i <= n,
            r@ == p.planes@.take(i as int),
        decreases n - i,
    {
        r.push(p.planes[i]);
        i = i + 1;
        assert(r@ =~= p.planes@.take(i as int));
    }
    r
}

impl HostPitch {
    /// The planes in use, in slot order.
    pub fn planes_mut(&mut self) -> (r: Vec<HostPlane>)
        requires
            plane_count_valid(old(self)@),
        ensures
            final(self)@ == old(self)@,
            r@.len() == planes_in_use(old(self)@).len(),
            forall|i: int| 0 <= i < r@.len() ==> #[trigger] r@[i]@ == planes_in_use(old(self)@)[i],
    {
        let planes = copy_planes_in_use(&self.inner);
        let mut r: Vec<HostPlane> = Vec::new();
        let mut i: usize = 0;
        while i < planes.len()
            invariant
                i <= planes@.len(),
                r@.len() == i,
                forall|j: int| 0 <= j < i ==> #[trigger] r@[j]@ == planes@[j],
            decreases planes@.len() - i,
        {
            r.push(HostPlane { inner: planes[i] });
            i = i + 1;
        }
        r
    }
}

/// A plane of a locked image in CUDA memory.
pub struct CudaPlane {
    inner: VPIImagePlanePitchLinear,
}

impl View for CudaPlane {
    type V = VPIImagePlanePitchLinear;

    closed spec fn view(&self) -> VPIImagePlanePitchLinear {
        self.inner
    }
}

impl CudaPlane {
    pub fn pixel_type(&self) -> (r: VPIPixelType)
        ensures
            r == self@.pixel_type,
    {
        self.inner.pixel_type
    }

    /// Width in pixels.
    pub fn width(&self) -> (r: usize)
        ensures
            r == self@.width as usize,
    {
        self.inner.width as usize
    }

    /// Height in rows.
    pub fn height(&self) -> (r: usize)
        ensures
            r == self@.height as usize,
    {
        self.inner.height as usize
    }

    /// Distance between the starts of two rows, in bytes.
    pub fn pitch_bytes(&self) -> (r: usize)
        ensures
            r == self@.pitch_bytes as usize,
    {
        self.inner.pitch_bytes as usize
    }

    /// Number of bytes the plane spans, for a pixel type of
    /// `bits_per_pixel` bits.
    pub fn size_bytes(&self, bits_per_pixel: usize) -> (r: usize)
        requires
            plane_size_fits(self@, bits_per_pixel),
        ensures
            r == plane_size_bytes(self@, bits_per_pixel),
    {
        plane_size_bytes_exec(&self.inner, bits_per_pixel)
    }

    /// Device address of the first row.
    pub fn as_device_ptr(&self) -> (r: usize)
        ensures
            r == self@.data,
    {
        self.inner.data
    }
}

/// The planes of a locked image in CUDA memory.
pub struct CudaPitch {
    inner: VPIImageBufferPitchLinear,
}

impl View for CudaPitch {
    type V = VPIImageBufferPitchLinear;

    closed spec fn view(&self) -> VPIImageBufferPitchLinear {
        self.inner
    }
}

impl CudaPitch {
    /// The planes in use, in slot order.
    pub fn planes(&self) -> (r: Vec<CudaPlane>)
        requires
            plane_count_valid(self@),
        ensures
            r@.len() == planes_in_use(self@).len(),
            forall|i: int| 0 <= i < r@.len() ==> #[trigger] r@[i]@ == planes_in_use(self@)[i],
    {
        let planes = copy_planes_in_use(&self.inner);
        let mut r: Vec<CudaPlane> = Vec::new();
        let mut i: usize = 0;
        while i < planes.len()
            invariant
                i <= planes@.len(),
                r@.len() == i,
                forall|j: int| 0 <= j < i ==> #[trigger] r@[j]@ == planes@[j],
            decreases planes@.len() - i,
        {
            r.push(CudaPlane { inner: planes[i] });
            i = i + 1;
        }
        r
    }
}

/// A locked image held in a CUDA array.
pub struct CudaArray {
    inner: usize,
}

impl View for CudaArray {
    type V = usize;

    closed spec fn view(&self) -> usize {
        self.inner
    }
}

impl CudaArray {
    /// Device address of the CUDA array.
    pub fn as_device_ptr(&self) -> (r: usize)
        ensures
            r == self@,
    {
        self.inner
    }
}

/// The memory of a locked image, by kind.
pub enum ImageData {
    HostPitchLinear(HostPitch),
    CudaPitchLinear(CudaPitch),
    CudaArray(CudaArray),
}

/// The buffer types whose memory a lock can hand out.
pub open spec fn lock_buffer_type_supported(t: VPIImageBufferType) -> bool {
    ||| t == VPIImageBufferType_VPI_IMAGE_BUFFER_HOST_PITCH_LINEAR
    ||| t == VPIImageBufferType_VPI_IMAGE_BUFFER_CUDA_PITCH_LINEAR
    ||| t == VPIImageBufferType_VPI_IMAGE_BUFFER_CUDA_ARRAY
}

/// The description of a locked image, as VPI handed it out.
pub struct ImageLock {
    data: VPIImageData,
}

impl View for ImageLock {
    type V = VPIImageData;

    closed spec fn view(&self) -> VPIImageData {
        self.data
    }
}

impl ImageLock {
    /// Holds the description that locking an image produced.
    pub fn from_locked(data: VPIImageData) -> (r: ImageLock)
        ensures
            r@ == data,
    {
        ImageLock { data }
    }

    /// The memory of the image, by the kind that the description names.
    pub fn data(&mut self) -> (r: ImageData)
        requires
            lock_buffer_type_supported(old(self)@.buffer_type),
        ensures
            final(self)@ == old(self)@,
            old(self)@.buffer_type == VPIImageBufferType_VPI_IMAGE_BUFFER_HOST_PITCH_LINEAR ==> (
            r matches ImageData::HostPitchLinear(h) && h@ == old(self)@.pitch),
            old(self)@.buffer_type == VPIImageBufferType_VPI_IMAGE_BUFFER_CUDA_PITCH_LINEAR ==> (
            r matches ImageData::CudaPitchLinear(c) && c@ == old(self)@.pitch),
            old(self)@.buffer_type == VPIImageBufferType_VPI_IMAGE_BUFFER_CUDA_ARRAY ==> (
            r matches ImageData::CudaArray(a) && a@ == old(self)@.cuda_array),
    {
        if self.data.buffer_type == VPIImageBufferType_VPI_IMAGE_BUFFER_HOST_PITCH_LINEAR {
            ImageData::HostPitchLinear(HostPitch { inner: self.data.pitch })
        } else if self.data.buffer_type == VPIImageBufferType_VPI_IMAGE_BUFFER_CUDA_PITCH_LINEAR {
            ImageData::CudaPitchLinear(CudaPitch { inner: self.data.pitch })
        } else {
            ImageData::CudaArray(CudaArray { inner: self.data.cuda_array })
        }
    }
}

/// The planes given to a builder come back, unchanged and in order, as the
/// planes in use of the description it builds, when they fit into its slots.
pub proof fn lemma_built_planes_read_back(b: ImageDataBuilderView, d: VPIImageData)
    requires
        image_data_error(b) is None,
        b.planes.len() <= VPI_MAX_PLANE_COUNT,
        is_built_image_data(b, d),
    ensures
        plane_count_valid(d.pitch),
        planes_in_use(d.pitch) == b.planes,
{
    assert(planes_in_use(d.pitch) =~= b.planes);
}

/// Asking for CUDA memory changes nothing in the built description but its
/// buffer type: the same builder is accepted or refused alike, and the
/// format and planes are the same.
pub proof fn lemma_cuda_changes_only_buffer_type(
    b: ImageDataBuilderView,
    d_host: VPIImageData,
    d_cuda: VPIImageData,
)
    requires
        image_data_error(b) is None,
        is_built_image_data(b, d_host),
        is_built_image_data(
            ImageDataBuilderView {
                buffer_type: Some(VPIImageBufferType_VPI_IMAGE_BUFFER_CUDA_PITCH_LINEAR),
                ..b
            },
            d_cuda,
        ),
    ensures
        image_data_error(
            ImageDataBuilderView {
                buffer_type: Some(VPIImageBufferType_VPI_IMAGE_BUFFER_CUDA_PITCH_LINEAR),
                ..b
            },
        ) is None,
        d_cuda.buffer_type == VPIImageBufferType_VPI_IMAGE_BUFFER_CUDA_PITCH_LINEAR,
        d_cuda.pitch == d_host.pitch,
        d_cuda.cuda_array == d_host.cuda_array,
{
    broadcast use vstd::array::axiom_array_ext_equal;

    assert(d_cuda.pitch.planes =~= d_host.pitch.planes);
}

proof fn lemma_planes_error_none(ps: Seq<VPIImagePlanePitchLinear>)
    requires
        forall|i: int|
            0 <= i < ps.len() ==> {
                &&& #[trigger] ps[i].data != 0
                &&& ps[i].width > 0
                &&& ps[i].height > 0
                &&& ps[i].pitch_bytes > 0
            },
    ensures
        planes_error(ps) is None,
    decreases ps.len(),
{
    if ps.len() > 0 {
        assert(ps[0].data != 0);
        assert forall|i: int| 0 <= i < ps.drop_first().len() implies {
            &&& #[trigger] ps.drop_first()[i].data != 0
            &&& ps.drop_first()[i].width > 0
            &&& ps.drop_first()[i].height > 0
            &&& ps.drop_first()[i].pitch_bytes > 0
        } by {
            assert(ps.drop_first()[i] == ps[i + 1]);
            assert(ps[i + 1].data != 0);
        }
        lemma_planes_error_none(ps.drop_first());
    }
}

proof fn lemma_planes_error_some(ps: Seq<VPIImagePlanePitchLinear>, k: int)
    requires
        0 <= k < ps.len(),
        !(ps[k].data != 0 && ps[k].width > 0 && ps[k].height > 0 && ps[k].pitch_bytes > 0),
    ensures
        planes_error(ps) is Some,
    decreases ps.len(),
{
    if k > 0 && plane_error(ps[0]) is None {
        assert(ps.drop_first()[k - 1] == ps[k]);
        lemma_planes_error_some(ps.drop_first(), k - 1);
    }
}

/// A description is built exactly when the builder has at least one plane
/// and a format, and every plane that fits into the slots has a non-null
/// address and a positive width, height and pitch; any positive pitch is
/// accepted.
pub proof fn lemma_image_data_accepts_exactly_well_formed_planes(b: ImageDataBuilderView)
    ensures
        image_data_error(b) is None <==> (b.format is Some && b.planes.len() > 0 && forall|i: int|
            0 <= i < b.planes.len() && i < VPI_MAX_PLANE_COUNT ==> {
                &&& #[trigger] b.planes[i].data != 0
                &&& b.planes[i].width > 0
                &&& b.planes[i].height > 0
                &&& b.planes[i].pitch_bytes > 0
            }),
{
    let stored = stored_planes(b);
    if b.format is Some && b.planes.len() > 0 {
        if forall|i: int|
            0 <= i < b.planes.len() && i < VPI_MAX_PLANE_COUNT ==> {
                &&& #[trigger] b.planes[i].data != 0
                &&& b.planes[i].width > 0
                &&& b.planes[i].height > 0
                &&& b.planes[i].pitch_bytes > 0
            } {
            assert forall|i: int| 0 <= i < stored.len() implies {
                &&& #[trigger] stored[i].data != 0
                &&& stored[i].width > 0
                &&& stored[i].height > 0
                &&& stored[i].pitch_bytes > 0
            } by {
                assert(stored[i] == b.planes[i]);
                assert(b.planes[i].data != 0);
            }
            lemma_planes_error_none(stored);
        } else {
            assert(exists|i: int|
                0 <= i < b.planes.len() && i < VPI_MAX_PLANE_COUNT && !(#[trigger] b.planes[i].data
                    != 0 && b.planes[i].width > 0 && b.planes[i].height > 0
                    && b.planes[i].pitch_bytes > 0));
            let k = choose|i: int|
                0 <= i < b.planes.len() && i < VPI_MAX_PLANE_COUNT && !(#[trigger] b.planes[i].data
                    != 0 && b.planes[i].width > 0 && b.planes[i].height > 0
                    && b.planes[i].pitch_bytes > 0);
            assert(stored[k] == b.planes[k]);
            lemma_planes_error_some(stored, k);
        }
    }
}

proof fn lemma_planes_error_first_bad(ps: Seq<VPIImagePlanePitchLinear>, k: int)
    requires
        0 <= k < ps.len(),
        forall|i: int|
            0 <= i < k ==> {
                &&& #[trigger] ps[i].data != 0
                &&& ps[i].width > 0
                &&& ps[i].height > 0
                &&& ps[i].pitch_bytes > 0
            },
    ensures
        planes_error(ps) == planes_error(ps.skip(k)),
    decreases k,
{
    if k == 0 {
        assert(ps.skip(0) =~= ps);
    } else {
        assert(ps[0].data != 0);
        assert(plane_error(ps[0]) is None);
        assert forall|i: int| 0 <= i < k - 1 implies {
            &&& #[trigger] ps.drop_first()[i].data != 0
            &&& ps.drop_first()[i].width > 0
            &&& ps.drop_first()[i].height > 0
            &&& ps.drop_first()[i].pitch_bytes > 0
        } by {
            assert(ps.drop_first()[i] == ps[i + 1]);
            assert(ps[i + 1].data != 0);
        }
        lemma_planes_error_first_bad(ps.drop_first(), k - 1);
        assert(ps.drop_first().skip(k - 1) =~= ps.skip(k));
    }
}

/// Which refusal a builder earns: no planes first, then no format, then the
/// first stored plane that is not well formed, by its first bad field in the
/// order address, width, height, pitch.
pub proof fn lemma_image_data_refusal_order(b: ImageDataBuilderView, k: int)
    ensures
        b.planes.len() == 0 ==> image_data_error(b) == Some(ERR_IMAGE_PLANE_COUNT),
        b.planes.len() > 0 && b.format is None ==> image_data_error(b) == Some(ERR_IMAGE_FORMAT),
        b.planes.len() > 0 && b.format is Some && 0 <= k < b.planes.len() && k
            < VPI_MAX_PLANE_COUNT && (forall|i: int|
            0 <= i < k ==> {
                &&& #[trigger] b.planes[i].data != 0
                &&& b.planes[i].width > 0
                &&& b.planes[i].height > 0
                &&& b.planes[i].pitch_bytes > 0
            }) ==> image_data_error(b) == (if b.planes[k].data == 0 {
            Some(ERR_IMAGE_PLANE_DATA)
        } else if b.planes[k].width <= 0 {
            Some(ERR_IMAGE_PLANE_WIDTH)
        } else if b.planes[k].height <= 0 {
            Some(ERR_IMAGE_PLANE_HEIGHT)
        } else if b.planes[k].pitch_bytes <= 0 {
            Some(ERR_IMAGE_PLANE_PITCH)
        } else {
            image_data_error(b)
        }),
{
    if b.planes.len() > 0 && b.format is Some && 0 <= k < b.planes.len() && k < VPI_MAX_PLANE_COUNT
        && (forall|i: int|
        0 <= i < k ==> {
            &&& #[trigger] b.planes[i].data != 0
            &&& b.planes[i].width > 0
            &&& b.planes[i].height > 0
            &&& b.planes[i].pitch_bytes > 0
        }) {
        let stored = stored_planes(b);
        assert forall|i: int| 0 <= i < k implies {
            &&& #[trigger] stored[i].data != 0
            &&& stored[i].width > 0
            &&& stored[i].height > 0
            &&& stored[i].pitch_bytes > 0
        } by {
            assert(stored[i] == b.planes[i]);
            assert(b.planes[i].data != 0);
        }
        lemma_planes_error_first_bad(stored, k);
        lemma_planes_error_step(stored, k);
        assert(stored.skip(0) =~= stored);
        assert(stored[k] == b.planes[k]);
    }
}

} // verus!
