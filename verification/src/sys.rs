//! The VPI data records that the library reads and fills, held as plain
//! values.
//!
//! Every handle and every buffer address that the C API hands out is held
//! here as the integer value of the address (`0` for null). The records
//! mirror the C layout: fixed-size plane and region arrays, a separate count
//! of the slots in use, and 32-bit signed sizes.
use vstd::prelude::*;

verus! {

/// Status code returned by every VPI call.
pub type VPIStatus = u32;

/// The status of a call that succeeded.
pub const VPIStatus_VPI_SUCCESS: VPIStatus = 0;

/// Size of the buffer that receives the text of the last status message.
pub const VPI_MAX_STATUS_MESSAGE_LENGTH: usize = 256;

/// Packed image format code.
pub type VPIImageFormat = u64;

/// Packed pixel type code.
pub type VPIPixelType = u64;

/// Element type of an array.
pub type VPIArrayType = u32;

/// Kind of memory an image buffer lives in.
pub type VPIImageBufferType = u32;

pub const VPIImageBufferType_VPI_IMAGE_BUFFER_INVALID: VPIImageBufferType = 0;
pub const VPIImageBufferType_VPI_IMAGE_BUFFER_HOST_PITCH_LINEAR: VPIImageBufferType = 1;
pub const VPIImageBufferType_VPI_IMAGE_BUFFER_CUDA_PITCH_LINEAR: VPIImageBufferType = 2;
pub const VPIImageBufferType_VPI_IMAGE_BUFFER_CUDA_ARRAY: VPIImageBufferType = 3;
pub const VPIImageBufferType_VPI_IMAGE_BUFFER_EGLIMAGE: VPIImageBufferType = 4;
pub const VPIImageBufferType_VPI_IMAGE_BUFFER_NVBUFFER: VPIImageBufferType = 5;

/// Kind of memory an array buffer lives in.
pub type VPIArrayBufferType = u32;

pub const VPIArrayBufferType_VPI_ARRAY_BUFFER_INVALID: VPIArrayBufferType = 0;
pub const VPIArrayBufferType_VPI_ARRAY_BUFFER_HOST_AOS: VPIArrayBufferType = 1;
pub const VPIArrayBufferType_VPI_ARRAY_BUFFER_CUDA_AOS: VPIArrayBufferType = 2;

/// Number of plane slots in a pitch-linear image buffer.
pub const VPI_MAX_PLANE_COUNT: usize = 6;

/// Number of horizontal region slots in a warp grid.
pub const VPI_WARPGRID_MAX_HORIZ_REGIONS_COUNT: usize = 4;

/// Number of vertical region slots in a warp grid.
pub const VPI_WARPGRID_MAX_VERT_REGIONS_COUNT: usize = 4;

/// One plane of a pitch-linear image.
#[derive(Clone, Copy, Debug, PartialEq, Eq, Structural)]
pub struct VPIImagePlanePitchLinear {
    pub pixel_type: VPIPixelType,
    pub width: i32,
    pub height: i32,
    pub pitch_bytes: i32,
    /// Address of the first pixel row.
    pub data: usize,
}

/// The plane slots of a pitch-linear image buffer.
#[derive(Clone, Copy, Debug, PartialEq, Eq)]
pub struct VPIImageBufferPitchLinear {
    pub format: VPIImageFormat,
    pub num_planes: i32,
    pub planes: [VPIImagePlanePitchLinear; 6],
}

/// Description of the memory behind an image.
#[derive(Clone, Copy, Debug, PartialEq, Eq)]
pub struct VPIImageData {
    pub buffer_type: VPIImageBufferType,
    /// Meaningful for the two pitch-linear buffer types.
    pub pitch: VPIImageBufferPitchLinear,
    /// Address of the CUDA array, meaningful for `VPI_IMAGE_BUFFER_CUDA_ARRAY`.
    pub cuda_array: usize,
}

/// An array-of-structures buffer.
#[derive(Clone, Copy, Debug, PartialEq, Eq, Structural)]
pub struct VPIArrayBufferAOS {
    pub item_type: VPIArrayType,
    pub capacity: i32,
    pub stride_bytes: i32,
    /// Number of items in use (the value behind the C record's size pointer).
    pub size: i32,
    /// Address of the first item.
    pub data: usize,
}

/// Description of the memory behind an array.
#[derive(Clone, Copy, Debug, PartialEq, Eq, Structural)]
pub struct VPIArrayData {
    pub buffer_type: VPIArrayBufferType,
    pub aos: VPIArrayBufferAOS,
}

/// Layout of the control points of a warp map.
#[derive(Clone, Copy, Debug, PartialEq, Eq)]
pub struct VPIWarpGrid {
    pub num_horiz_regions: i8,
    pub num_vert_regions: i8,
    pub region_width: [i16; 4],
    pub region_height: [i16; 4],
    pub horiz_interval: [i16; 4],
    pub vert_interval: [i16; 4],
}

/// The plane with every field zero, as a zeroed C record holds it.
pub open spec fn zero_plane_spec() -> VPIImagePlanePitchLinear {
    VPIImagePlanePitchLinear { pixel_type: 0, width: 0, height: 0, pitch_bytes: 0, data: 0 }
}

/// Returns the plane with every field zero.
pub fn zero_plane() -> (r: VPIImagePlanePitchLinear)
    ensures
        r == zero_plane_spec(),
{
    VPIImagePlanePitchLinear { pixel_type: 0, width: 0, height: 0, pitch_bytes: 0, data: 0 }
}

} // verus!
