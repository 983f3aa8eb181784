use vpi::image::{
    ImageData, ImageDataBacking, ImageDataBuilder, ImageLock, ERR_IMAGE_FORMAT,
    ERR_IMAGE_PLANE_COUNT, ERR_IMAGE_PLANE_DATA, ERR_IMAGE_PLANE_HEIGHT, ERR_IMAGE_PLANE_PITCH,
    ERR_IMAGE_PLANE_WIDTH,
};
use vpi::sys::{
    VPIImageBufferType_VPI_IMAGE_BUFFER_CUDA_ARRAY,
    VPIImageBufferType_VPI_IMAGE_BUFFER_CUDA_PITCH_LINEAR,
    VPIImageBufferType_VPI_IMAGE_BUFFER_HOST_PITCH_LINEAR, VPIImagePlanePitchLinear,
};
use vpi::VpiError;

fn app_error(r: Result<vpi::sys::VPIImageData, VpiError>) -> &'static str {
    match r {
        Err(VpiError::App(m)) => m,
        _ => panic!("expected a refusal"),
    }
}

fn zero() -> VPIImagePlanePitchLinear {
    VPIImagePlanePitchLinear { pixel_type: 0, width: 0, height: 0, pitch_bytes: 0, data: 0 }
}

#[test]
fn one_plane_image_is_described_in_host_memory() {
    let b = ImageDataBuilder::default().format(0x51).plane(4096, 640, 480, 768, 7);
    let d = b.image_data().ok().unwrap();
    assert_eq!(d.buffer_type, VPIImageBufferType_VPI_IMAGE_BUFFER_HOST_PITCH_LINEAR);
    assert_eq!(d.pitch.format, 0x51);
    assert_eq!(d.pitch.num_planes, 1);
    assert_eq!(
        d.pitch.planes[0],
        VPIImagePlanePitchLinear { pixel_type: 7, width: 640, height: 480, pitch_bytes: 768, data: 4096 }
    );
    for i in 1..6 {
        assert_eq!(d.pitch.planes[i], zero());
    }
    assert_eq!(d.cuda_array, 0);
}

#[test]
fn cuda_builder_asks_for_cuda_pitch_linear() {
    let b = ImageDataBuilder::default().cuda().format(3).plane(8, 2, 2, 8, 1);
    let d = b.image_data().ok().unwrap();
    assert_eq!(d.buffer_type, VPIImageBufferType_VPI_IMAGE_BUFFER_CUDA_PITCH_LINEAR);
}

#[test]
fn cuda_changes_only_the_buffer_type() {
    let host = ImageDataBuilder::default().format(3).plane(8, 2, 2, 8, 1).image_data().ok().unwrap();
    let cuda = ImageDataBuilder::default().format(3).plane(8, 2, 2, 8, 1).cuda().image_data().ok().unwrap();
    assert_eq!(host.pitch, cuda.pitch);
    assert_eq!(host.cuda_array, cuda.cuda_array);
    assert_ne!(host.buffer_type, cuda.buffer_type);
}

#[test]
fn image_without_planes_is_refused() {
    assert_eq!(app_error(ImageDataBuilder::default().format(1).image_data()), ERR_IMAGE_PLANE_COUNT);
}

#[test]
fn plane_count_is_checked_before_format() {
    assert_eq!(app_error(ImageDataBuilder::default().image_data()), ERR_IMAGE_PLANE_COUNT);
}

#[test]
fn image_without_format_is_refused() {
    let b = ImageDataBuilder::default().plane(8, 2, 2, 8, 1);
    assert_eq!(app_error(b.image_data()), ERR_IMAGE_FORMAT);
}

#[test]
fn null_plane_address_is_refused() {
    let b = ImageDataBuilder::default().format(1).plane(0, 2, 2, 8, 1);
    assert_eq!(app_error(b.image_data()), ERR_IMAGE_PLANE_DATA);
}

#[test]
fn zero_width_is_refused() {
    let b = ImageDataBuilder::default().format(1).plane(8, 0, 2, 8, 1);
    assert_eq!(app_error(b.image_data()), ERR_IMAGE_PLANE_WIDTH);
}

#[test]
fn zero_height_is_refused() {
    let b = ImageDataBuilder::default().format(1).plane(8, 2, 0, 8, 1);
    assert_eq!(app_error(b.image_data()), ERR_IMAGE_PLANE_HEIGHT);
}

#[test]
fn zero_pitch_is_refused() {
    let b = ImageDataBuilder::default().format(1).plane(8, 2, 2, 0, 1);
    assert_eq!(app_error(b.image_data()), ERR_IMAGE_PLANE_PITCH);
}

#[test]
fn width_that_wraps_negative_as_c_int_is_refused() {
    // 2^31 is stored as a C int, which makes it negative.
    let b = ImageDataBuilder::default().format(1).plane(8, 2147483648, 2, 8, 1);
    assert_eq!(app_error(b.image_data()), ERR_IMAGE_PLANE_WIDTH);
}

#[test]
fn first_bad_plane_decides_the_refusal() {
    let b = ImageDataBuilder::default()
        .format(1)
        .plane(8, 2, 2, 8, 1)
        .plane(8, 2, 0, 8, 1)
        .plane(0, 2, 2, 8, 1);
    assert_eq!(app_error(b.image_data()), ERR_IMAGE_PLANE_HEIGHT);
}

#[test]
fn planes_beyond_the_slots_are_counted_but_not_checked() {
    let mut b = ImageDataBuilder::default().format(1);
    for i in 0..6usize {
        b = b.plane(64 + i, 2, 2, 8, 1);
    }
    b = b.plane(0, 0, 0, 0, 0);
    let d = b.image_data().ok().unwrap();
    assert_eq!(d.pitch.num_planes, 7);
    for i in 0..6usize {
        assert_eq!(d.pitch.planes[i].data, 64 + i);
    }
}

#[test]
fn built_planes_read_back_through_a_host_lock() {
    let b = ImageDataBuilder::default()
        .format(9)
        .plane(100, 4, 3, 16, 11)
        .plane(200, 2, 1, 8, 12);
    let d = b.image_data().ok().unwrap();
    let mut lock = ImageLock::from_locked(d);
    match lock.data() {
        ImageData::HostPitchLinear(mut h) => {
            let planes = h.planes_mut();
            assert_eq!(planes.len(), 2);
            assert_eq!(planes[0].as_ptr(), 100);
            assert_eq!(planes[0].width(), 4);
            assert_eq!(planes[0].height(), 3);
            assert_eq!(planes[0].pitch_bytes(), 16);
            assert_eq!(planes[0].pixel_type(), 11);
            assert_eq!(planes[1].as_ptr(), 200);
            assert_eq!(planes[1].pixel_type(), 12);
        }
        _ => panic!("expected host memory"),
    }
}

#[test]
fn cuda_lock_hands_out_cuda_planes() {
    let mut d = ImageDataBuilder::default().cuda().format(9).plane(100, 4, 3, 16, 11).image_data().ok().unwrap();
    d.buffer_type = VPIImageBufferType_VPI_IMAGE_BUFFER_CUDA_PITCH_LINEAR;
    let mut lock = ImageLock::from_locked(d);
    match lock.data() {
        ImageData::CudaPitchLinear(c) => {
            let planes = c.planes();
            assert_eq!(planes.len(), 1);
            assert_eq!(planes[0].as_device_ptr(), 100);
            assert_eq!(planes[0].width(), 4);
            assert_eq!(planes[0].height(), 3);
            assert_eq!(planes[0].pitch_bytes(), 16);
            assert_eq!(planes[0].pixel_type(), 11);
        }
        _ => panic!("expected CUDA pitch-linear memory"),
    }
}

#[test]
fn cuda_array_lock_hands_out_the_array_address() {
    let mut d = ImageDataBuilder::default().format(9).plane(100, 4, 3, 16, 11).image_data().ok().unwrap();
    d.buffer_type = VPIImageBufferType_VPI_IMAGE_BUFFER_CUDA_ARRAY;
    d.cuda_array = 0xdead0;
    let mut lock = ImageLock::from_locked(d);
    match lock.data() {
        ImageData::CudaArray(a) => assert_eq!(a.as_device_ptr(), 0xdead0),
        _ => panic!("expected a CUDA array"),
    }
}

#[test]
fn plane_size_counts_full_rows_and_the_last_row_pixels() {
    // 3 rows of pitch 16: two full rows, then 4 pixels of 12 bits = 6 bytes.
    let d = ImageDataBuilder::default().format(9).plane(100, 4, 3, 16, 11).image_data().ok().unwrap();
    let mut lock = ImageLock::from_locked(d);
    match lock.data() {
        ImageData::HostPitchLinear(mut h) => {
            let planes = h.planes_mut();
            assert_eq!(planes[0].size_bytes(12), 2 * 16 + 4 * 12 / 8);
            assert_eq!(planes[0].size_bytes(8), 36);
        }
        _ => panic!("expected host memory"),
    }
}

#[test]
fn plane_size_of_zero_height_plane_is_the_last_row_only() {
    let mut d = ImageDataBuilder::default().format(9).plane(100, 5, 1, 16, 11).image_data().ok().unwrap();
    d.pitch.planes[0].height = 0;
    let mut lock = ImageLock::from_locked(d);
    match lock.data() {
        ImageData::HostPitchLinear(mut h) => {
            assert_eq!(h.planes_mut()[0].size_bytes(8), 5);
        }
        _ => panic!("expected host memory"),
    }
}
