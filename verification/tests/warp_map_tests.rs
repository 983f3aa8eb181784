use vpi::warp_map::{
    FisheyeLensDistortionModel, GenerationFn, PolynomialLensDistortionModel, VpiWarpMap,
    WarpMapBuilder,
};

#[test]
fn grid_lays_out_regions_in_order() {
    let plan = WarpMapBuilder::default()
        .horiz_region(640, 8)
        .horiz_region(320, 16)
        .vert_region(480, 4)
        .build();
    assert_eq!(plan.grid.num_horiz_regions, 2);
    assert_eq!(plan.grid.num_vert_regions, 1);
    assert_eq!(plan.grid.region_width, [640, 320, 0, 0]);
    assert_eq!(plan.grid.horiz_interval, [8, 16, 0, 0]);
    assert_eq!(plan.grid.region_height, [480, 0, 0, 0]);
    assert_eq!(plan.grid.vert_interval, [4, 0, 0, 0]);
    assert!(matches!(plan.generation, GenerationFn::Identity));
}

#[test]
fn regions_beyond_the_slots_are_counted_but_dropped() {
    let mut b = WarpMapBuilder::default();
    for i in 1..=5i16 {
        b = b.vert_region(10 * i, 1);
    }
    let plan = b.build();
    assert_eq!(plan.grid.num_vert_regions, 5);
    assert_eq!(plan.grid.region_height, [10, 20, 30, 40]);
    assert_eq!(plan.grid.num_horiz_regions, 0);
}

#[test]
fn last_generation_choice_wins() {
    let k = [[1.0f32.to_bits(), 0, 2.0f32.to_bits()], [0, 1.0f32.to_bits(), 3.0f32.to_bits()]];
    let x = [[0u32; 4]; 3];
    let fisheye = FisheyeLensDistortionModel { mapping: 1, k1: 7, k2: 8, k3: 9, k4: 10 };
    let plan = WarpMapBuilder::default().fisheye(k, x, k, fisheye).build();
    match plan.generation {
        GenerationFn::Fisheye { k: kk, model, .. } => {
            assert_eq!(kk, k);
            assert_eq!(model, fisheye);
        }
        _ => panic!("expected fisheye"),
    }
    let poly = PolynomialLensDistortionModel { k1: 1, k2: 2, k3: 3, k4: 4, k5: 5, k6: 6, p1: 7, p2: 8 };
    let plan = WarpMapBuilder::default().fisheye(k, x, k, fisheye).polynomial(k, x, k, poly).build();
    assert!(matches!(plan.generation, GenerationFn::Polynomial { model, .. } if model == poly));
    let plan = WarpMapBuilder::default().polynomial(k, x, k, poly).identity().build();
    assert!(matches!(plan.generation, GenerationFn::Identity));
}

#[test]
fn warp_map_shape_and_keypoint_offsets() {
    let m = VpiWarpMap::from_allocated(3, 2, 32);
    assert_eq!(m.num_horiz_points(), 3);
    assert_eq!(m.num_vert_points(), 2);
    assert_eq!(m.pitch_bytes(), 32);
    assert_eq!(m.keypoint_offsets(), vec![0, 8, 16, 32, 40, 48]);
}

#[test]
fn empty_warp_map_has_no_keypoints() {
    let m = VpiWarpMap::from_allocated(0, 4, 16);
    assert!(m.keypoint_offsets().is_empty());
}
