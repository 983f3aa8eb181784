//! Warp maps: laying out the control-point grid of a warp map from its
//! regions, choosing how its keypoints are generated, and locating the
//! keypoints in the allocated map.
//!
//! Camera and lens parameters are `f32` values in VPI; here each one is held
//! as its IEEE-754 bit pattern (`f32::to_bits`), which is what the library
//! stores and hands on unchanged.
use crate::sys::{VPIWarpGrid, VPI_WARPGRID_MAX_HORIZ_REGIONS_COUNT, VPI_WARPGRID_MAX_VERT_REGIONS_COUNT};
use vstd::prelude::*;

verus! {

/// Bit patterns of a camera intrinsic matrix, `float[2][3]` in VPI.
pub type CameraIntrinsicBits = [[u32; 3]; 2];

/// Bit patterns of a camera extrinsic matrix, `float[3][4]` in VPI.
pub type CameraExtrinsicBits = [[u32; 4]; 3];

/// A fisheye lens model: the mapping kind and the bit patterns of its
/// coefficients.
#[derive(Clone, Copy, Debug, PartialEq, Eq, Structural)]
pub struct FisheyeLensDistortionModel {
    pub mapping: u32,
    pub k1: u32,
    pub k2: u32,
    pub k3: u32,
    pub k4: u32,
}

/// A polynomial lens model: the bit patterns of its radial and tangential
/// coefficients.
#[derive(Clone, Copy, Debug, PartialEq, Eq, Structural)]
pub struct PolynomialLensDistortionModel {
    pub k1: u32,
    pub k2: u32,
    pub k3: u32,
    pub k4: u32,
    pub k5: u32,
    pub k6: u32,
    pub p1: u32,
    pub p2: u32,
}

/// One region of the grid along one axis.
#[derive(Clone, Copy, Debug, PartialEq, Eq, Structural)]
pub struct GridRegion {
    pub size: i16,
    /// Must be a power of two, at least 1.
    pub interval: i16,
}

/// How the keypoints of a warp map are generated.
#[derive(Clone, Copy, Debug)]
pub enum GenerationFn {
    Identity,
    Fisheye {
        k: CameraIntrinsicBits,
        x: CameraExtrinsicBits,
        k_new: CameraIntrinsicBits,
        model: FisheyeLensDistortionModel,
    },
    Polynomial {
        k: CameraIntrinsicBits,
        x: CameraExtrinsicBits,
        k_new: CameraIntrinsicBits,
        model: PolynomialLensDistortionModel,
    },
}

/// What a `WarpMapBuilder` has been told so far.
pub struct WarpMapBuilderView {
    pub vertical_regions: Seq<GridRegion>,
    pub horizontal_regions: Seq<GridRegion>,
    pub generation_fn: Option<GenerationFn>,
}

/// Collects the grid regions and the generation function of a warp map.
pub struct WarpMapBuilder {
    vertical_regions: Vec<GridRegion>,
    horizontal_regions: Vec<GridRegion>,
    generation_fn: Option<GenerationFn>,
}

impl View for WarpMapBuilder {
    type V = WarpMapBuilderView;

    closed spec fn view(&self) -> WarpMapBuilderView {
        WarpMapBuilderView {
            vertical_regions: self.vertical_regions@,
            horizontal_regions: self.horizontal_regions@,
            generation_fn: self.generation_fn,
        }
    }
}

impl Default for WarpMapBuilder {
    fn default() -> (r: WarpMapBuilder)
        ensures
            r@.vertical_regions == Seq::<GridRegion>::empty(),
            r@.horizontal_regions == Seq::<GridRegion>::empty(),
            r@.generation_fn is None,
    {
        WarpMapBuilder {
            vertical_regions: Vec::new(),
            horizontal_regions: Vec::new(),
            generation_fn: None,
        }
    }
}

/// What `build` hands on for allocation: the grid and the generation
/// function.
pub struct WarpMapPlan {
    pub grid: VPIWarpGrid,
    pub generation: GenerationFn,
}

/// Number of regions that fit into `slots` slots.
pub open spec fn stored_region_count(n: nat, slots: nat) -> nat {
    if n <= slots {
        n
    } else {
        slots
    }
}

/// The region sizes and intervals of `regions` are laid out in `sizes` and
/// `intervals`: the regions that fit, in order, then zero.
pub open spec fn regions_laid_out(regions: Seq<GridRegion>, sizes: Seq<i16>, intervals: Seq<i16>) -> bool {
    &&& sizes.len() == intervals.len()
    &&& forall|i: int|
        0 <= i < sizes.len() ==> #[trigger] sizes[i] == (if i < stored_region_count(
            regions.len(),
            sizes.len(),
        ) {
            regions[i].size
        } else {
            0
        })
    &&& forall|i: int|
        0 <= i < intervals.len() ==> #[trigger] intervals[i] == (if i < stored_region_count(
            regions.len(),
            intervals.len(),
        ) {
            regions[i].interval
        } else {
            0
        })
}

/// `g` is the grid laid out from `b`: the region counts as C `int8_t`s and
/// the regions that fit in their slots.
pub open spec fn is_built_grid(b: WarpMapBuilderView, g: VPIWarpGrid) -> bool {
    &&& g.num_horiz_regions == b.horizontal_regions.len() as i8
    &&& g.num_vert_regions == b.vertical_regions.len() as i8
    &&& regions_laid_out(b.horizontal_regions, g.region_width@, g.horiz_interval@)
    &&& regions_laid_out(b.vertical_regions, g.region_height@, g.vert_interval@)
}

/// The generation function that `b` asks for: the identity when none was
/// chosen.
pub open spec fn requested_generation(b: WarpMapBuilderView) -> GenerationFn {
    match b.generation_fn {
        Some(f) => f,
        None => GenerationFn::Identity,
    }
}

fn lay_out_regions(regions: &Vec<GridRegion>) -> (r: ([i16; 4], [i16; 4]))
    ensures
        regions_laid_out(regions@, r.0@, r.1@),
{
    let mut sizes: [i16; 4] = [0, 0, 0, 0];
    let mut intervals: [i16; 4] = [0, 0, 0, 0];
    let count = if regions.len() < 4 {
        regions.len()
    } else {
        4
    };
    let mut i: usize = 0;
    while i < count
        invariant
            count == stored_region_count(regions@.len(), 4),
            i <= count,
            forall|j: int|
                0 <= j < 4 ==> #[trigger] sizes@[j] == (if j < i {
                    regions@[j].size
                } else {
                    0
                }),
            forall|j: int|
                0 <= j < 4 ==> #[trigger] intervals@[j] == (if j < i {
                    regions@[j].interval
                } else {
                    0
                }),
        decreases count - i,
    {
        let region = regions[i];
        sizes[i] = region.size;
        intervals[i] = region.interval;
        i = i + 1;
    }
    (sizes, intervals)
}

impl WarpMapBuilder {
    /// Adds a region of `height` rows, with control points every `interval`
    /// rows.
    pub fn vert_region(self, height: i16, interval: i16) -> (r: Self)
        ensures
            r@.vertical_regions == self@.vertical_regions.push(
                GridRegion { size: height, interval },
            ),
            r@.horizontal_regions == self@.horizontal_regions,
            r@.generation_fn == self@.generation_fn,
    {
        let mut s = self;
        s.vertical_regions.push(GridRegion { size: height, interval });
        s
    }

    /// Adds a region of `width` columns, with control points every
    /// `interval` columns.
    pub fn horiz_region(self, width: i16, interval: i16) -> (r: Self)
        ensures
            r@.horizontal_regions == self@.horizontal_regions.push(
                GridRegion { size: width, interval },
            ),
            r@.vertical_regions == self@.vertical_regions,
            r@.generation_fn == self@.generation_fn,
    {
        let mut s = self;
        s.horizontal_regions.push(GridRegion { size: width, interval });
        s
    }

    /// Generates the identity mapping.
    pub fn identity(self) -> (r: Self)
        ensures
            r@.generation_fn == Some(GenerationFn::Identity),
            r@.vertical_regions == self@.vertical_regions,
            r@.horizontal_regions == self@.horizontal_regions,
    {
        let mut s = self;
        s.generation_fn = Some(GenerationFn::Identity);
        s
    }

    /// Generates the mapping that undoes a fisheye lens.
    pub fn fisheye(
        self,
        k: CameraIntrinsicBits,
        x: CameraExtrinsicBits,
        k_new: CameraIntrinsicBits,
        model: FisheyeLensDistortionModel,
    ) -> (r: Self)
        ensures
            r@.generation_fn == Some(GenerationFn::Fisheye { k, x, k_new, model }),
            r@.vertical_regions == self@.vertical_regions,
            r@.horizontal_regions == self@.horizontal_regions,
    {
        let mut s = self;
        s.generation_fn = Some(GenerationFn::Fisheye { k, x, k_new, model });
        s
    }

    /// Generates the mapping that undoes a polynomial lens.
    pub fn polynomial(
        self,
        k: CameraIntrinsicBits,
        x: CameraExtrinsicBits,
        k_new: CameraIntrinsicBits,
        model: PolynomialLensDistortionModel,
    ) -> (r: Self)
        ensures
            r@.generation_fn == Some(GenerationFn::Polynomial { k, x, k_new, model }),
            r@.vertical_regions == self@.vertical_regions,
            r@.horizontal_regions == self@.horizontal_regions,
    {
        let mut s = self;
        s.generation_fn = Some(GenerationFn::Polynomial { k, x, k_new, model });
        s
    }

    /// Lays out the grid and picks the generation function, for VPI to
    /// allocate the map and generate its keypoints. VPI refuses a grid whose
    /// sizes or intervals it cannot use when it allocates.
    pub fn build(self) -> (r: WarpMapPlan)
        ensures
            is_built_grid(self@, r.grid),
            r.generation == requested_generation(self@),
            // Region `i` of each axis, when it fits, lands in slot `i`.
            forall|i: int|
                0 <= i < 4 ==> #[trigger] r.grid.region_width@[i] == (if i
                    < self@.horizontal_regions.len() {
                    self@.horizontal_regions[i].size
                } else {
                    0
                }) && r.grid.horiz_interval@[i] == (if i < self@.horizontal_regions.len() {
                    self@.horizontal_regions[i].interval
                } else {
                    0
                }),
            forall|i: int|
                0 <= i < 4 ==> #[trigger] r.grid.region_height@[i] == (if i
                    < self@.vertical_regions.len() {
                    self@.vertical_regions[i].size
                } else {
                    0
                }) && r.grid.vert_interval@[i] == (if i < self@.vertical_regions.len() {
                    self@.vertical_regions[i].interval
                } else {
                    0
                }),
    {
        let (region_width, horiz_interval) = lay_out_regions(&self.horizontal_regions);
        let (region_height, vert_interval) = lay_out_regions(&self.vertical_regions);
        let grid = VPIWarpGrid {
            num_horiz_regions: self.horizontal_regions.len() as i8,
            num_vert_regions: self.vertical_regions.len() as i8,
            region_width,
            region_height,
            horiz_interval,
            vert_interval,
        };
        proof {
            lemma_built_grid_holds_regions(self@, grid);
        }
        let generation = match self.generation_fn {
            Some(f) => f,
            None => GenerationFn::Identity,
        };
        WarpMapPlan { grid, generation }
    }
}

/// A built grid holds, in slot `i` of each axis, the size and interval of
/// the `i`-th region given along that axis, and zero in the slots that no
/// region fills; its counts are the numbers of regions given.
pub proof fn lemma_built_grid_holds_regions(b: WarpMapBuilderView, g: VPIWarpGrid)
    requires
        is_built_grid(b, g),
    ensures
        g.num_horiz_regions == b.horizontal_regions.len() as i8,
        g.num_vert_regions == b.vertical_regions.len() as i8,
        forall|i: int|
            0 <= i < 4 ==> #[trigger] g.region_width@[i] == (if i < b.horizontal_regions.len() {
                b.horizontal_regions[i].size
            } else {
                0
            }) && g.horiz_interval@[i] == (if i < b.horizontal_regions.len() {
                b.horizontal_regions[i].interval
            } else {
                0
            }),
        forall|i: int|
            0 <= i < 4 ==> #[trigger] g.region_height@[i] == (if i < b.vertical_regions.len() {
                b.vertical_regions[i].size
            } else {
                0
            }) && g.vert_interval@[i] == (if i < b.vertical_regions.len() {
                b.vertical_regions[i].interval
            } else {
                0
            }),
{
    assert forall|i: int| 0 <= i < 4 implies #[trigger] g.region_width@[i] == (if i
        < b.horizontal_regions.len() {
        b.horizontal_regions[i].size
    } else {
        0
    }) && g.horiz_interval@[i] == (if i < b.horizontal_regions.len() {
        b.horizontal_regions[i].interval
    } else {
        0
    }) by {
        assert(g.region_width@[i] == g.region_width@[i]);
        assert(g.horiz_interval@[i] == g.horiz_interval@[i]);
    }
    assert forall|i: int| 0 <= i < 4 implies #[trigger] g.region_height@[i] == (if i
        < b.vertical_regions.len() {
        b.vertical_regions[i].size
    } else {
        0
    }) && g.vert_interval@[i] == (if i < b.vertical_regions.len() {
        b.vertical_regions[i].interval
    } else {
        0
    }) by {
        assert(g.region_height@[i] == g.region_height@[i]);
        assert(g.vert_interval@[i] == g.vert_interval@[i]);
    }
}

/// Size in bytes of one keypoint (two `f32` coordinates).
pub const KEYPOINT_F32_BYTES: usize = 8;

/// The shape of an allocated warp map: its keypoint counts and the distance
/// between the starts of two keypoint rows.
pub struct VpiWarpMapView {
    pub num_horiz_points: i32,
    pub num_vert_points: i32,
    pub pitch_bytes: i32,
}

/// The shape of a warp map that VPI has allocated.
pub struct VpiWarpMap {
    num_horiz_points: i32,
    num_vert_points: i32,
    pitch_bytes: i32,
}

impl View for VpiWarpMap {
    type V = VpiWarpMapView;

    closed spec fn view(&self) -> VpiWarpMapView {
        VpiWarpMapView {
            num_horiz_points: self.num_horiz_points,
            num_vert_points: self.num_vert_points,
            pitch_bytes: self.pitch_bytes,
        }
    }
}

/// Byte offset, from the first keypoint, of the keypoint in row `row` and
/// column `col`.
pub open spec fn keypoint_offset(pitch: int, row: int, col: int) -> int {
    row * pitch + col * KEYPOINT_F32_BYTES
}

/// The keypoint offsets of a map can be computed in `usize`: the start of
/// the row after the last one, and the end of the longest row, fit.
pub open spec fn keypoint_offsets_fit(m: VpiWarpMapView) -> bool {
    &&& (m.num_vert_points as usize) * (m.pitch_bytes as usize) <= usize::MAX
    &&& (m.num_horiz_points as usize) * KEYPOINT_F32_BYTES <= usize::MAX
    &&& (m.num_vert_points as usize) * (m.pitch_bytes as usize) + (m.num_horiz_points as usize)
        * KEYPOINT_F32_BYTES <= usize::MAX
}

proof fn lemma_offset_bounds(h: int, w: int, pitch: int, row: int, col: int)
    by (nonlinear_arith)
    requires
        0 <= row < h,
        0 <= col < w,
        0 <= pitch,
    ensures
        0 <= row * pitch <= h * pitch,
        0 <= col * 8 <= w * 8,
        row * pitch + pitch <= h * pitch,
{
}

proof fn lemma_row_major_index(i: int, j: int, row: int, width: int)
    by (nonlinear_arith)
    requires
        0 <= i < row,
        0 <= j < width,
    ensures
        0 <= i * width + j < row * width,
{
}

proof fn lemma_next_row_start(row: int, width: int)
    by (nonlinear_arith)
    ensures
        row * width + width == (row + 1) * width,
{
}

/// Keypoint offsets add up: the first keypoint is at 0, the next keypoint
/// in a row lies 8 bytes further, the same column of the next row lies one
/// pitch further, so the keypoint in row `row`, column `col` lies at
/// `row * pitch + 8 * col`.
pub proof fn lemma_keypoint_offsets_are_additive()
    ensures
        forall|pitch: int, row: int, col: int|
            #![trigger keypoint_offset(pitch, row, col)]
            keypoint_offset(pitch, row, col) == row * pitch + 8 * col,
        forall|pitch: int| #[trigger] keypoint_offset(pitch, 0, 0) == 0,
        forall|pitch: int, row: int, col: int|
            #![trigger keypoint_offset(pitch, row, col + 1)]
            keypoint_offset(pitch, row, col + 1) == keypoint_offset(pitch, row, col) + 8,
        forall|pitch: int, row: int, col: int|
            #![trigger keypoint_offset(pitch, row + 1, col)]
            keypoint_offset(pitch, row + 1, col) == keypoint_offset(pitch, row, col) + pitch,
{
    assert forall|pitch: int, row: int, col: int|
        #![trigger keypoint_offset(pitch, row + 1, col)]
        keypoint_offset(pitch, row + 1, col) == keypoint_offset(pitch, row, col) + pitch by {
        assert((row + 1) * pitch == row * pitch + pitch) by (nonlinear_arith);
    }
}

impl VpiWarpMap {
    /// Holds the shape of a map that VPI allocated.
    pub fn from_allocated(num_horiz_points: i32, num_vert_points: i32, pitch_bytes: i32) -> (r:
        VpiWarpMap)
        ensures
            r@ == (VpiWarpMapView { num_horiz_points, num_vert_points, pitch_bytes }),
    {
        VpiWarpMap { num_horiz_points, num_vert_points, pitch_bytes }
    }

    /// Number of keypoints in a row.
    pub fn num_horiz_points(&self) -> (r: usize)
        ensures
            r == self@.num_horiz_points as usize,
    {
        self.num_horiz_points as usize
    }

    /// Number of keypoint rows.
    pub fn num_vert_points(&self) -> (r: usize)
        ensures
            r == self@.num_vert_points as usize,
    {
        self.num_vert_points as usize
    }

    /// Distance between the starts of two keypoint rows, in bytes.
    pub fn pitch_bytes(&self) -> (r: usize)
        ensures
            r == self@.pitch_bytes as usize,
    {
        self.pitch_bytes as usize
    }

    /// Byte offsets of all keypoints, row after row, each row from left to
    /// right.
    pub fn keypoint_offsets(&self) -> (r: Vec<usize>)
        requires
            keypoint_offsets_fit(self@),
        ensures
            r@.len() == (self@.num_vert_points as usize) * (self@.num_horiz_points as usize),
            forall|row: int, col: int|
                0 <= row < (self@.num_vert_points as usize) && 0 <= col < (
                self@.num_horiz_points as usize) ==> #[trigger] r@[row * (
                self@.num_horiz_points as usize) + col] == keypoint_offset(
                    self@.pitch_bytes as usize as int,
                    row,
                    col,
                ),
            // Rows start `pitch_bytes` apart and keypoints in a row lie 8
            // bytes apart, starting at offset 0.
            forall|row: int, col: int|
                0 <= row < (self@.num_vert_points as usize) && 0 <= col < (
                self@.num_horiz_points as usize) ==> #[trigger] r@[row * (
                self@.num_horiz_points as usize) + col] == row * (self@.pitch_bytes as usize) + 8
                    * col,
    {
        proof {
            lemma_keypoint_offsets_are_additive();
        }
        let height = self.num_vert_points();
        let width = self.num_horiz_points();
        let pitch = self.pitch_bytes();
        let mut r: Vec<usize> = Vec::new();
        let mut row: usize = 0;
        while row < height
            invariant
                height == self@.num_vert_points as usize,
                width == self@.num_horiz_points as usize,
                pitch == self@.pitch_bytes as usize,
                keypoint_offsets_fit(self@),
                row <= height,
                r@.len() == row * width,
                forall|i: int, j: int|
                    0 <= i < row && 0 <= j < width ==> #[trigger] r@[i * width + j]
                        == keypoint_offset(pitch as int, i, j),
            decreases height - row,
        {
            let mut col: usize = 0;
            while col < width
                invariant
                    height == self@.num_vert_points as usize,
                    width == self@.num_horiz_points as usize,
                    pitch == self@.pitch_bytes as usize,
                    keypoint_offsets_fit(self@),
                    row < height,
                    col <= width,
                    r@.len() == row * width + col,
                    forall|i: int, j: int|
                        0 <= i < row && 0 <= j < width ==> #[trigger] r@[i * width + j]
                            == keypoint_offset(pitch as int, i, j),
                    forall|j: int|
                        0 <= j < col ==> #[trigger] r@[row * width + j] == keypoint_offset(
                            pitch as int,
                            row as int,
                            j,
                        ),
                decreases width - col,
            {
                proof {
                    lemma_offset_bounds(height as int, width as int, pitch as int, row as int, col as int);
                }
                let ghost before = r@;
                r.push(row * pitch + col * KEYPOINT_F32_BYTES);
                proof {
                    assert forall|i: int, j: int|
                        0 <= i < row && 0 <= j < width implies #[trigger] r@[i * width + j]
                        == keypoint_offset(pitch as int, i, j) by {
                        lemma_row_major_index(i, j, row as int, width as int);
                        assert(r@[i * width + j] == before[i * width + j]);
                    }
                }
                col = col + 1;
            }
            proof {
                lemma_next_row_start(row as int, width as int);
            }
            row = row + 1;
        }
        r
    }
}

} // verus!
