//! Safe, verified data handling for the NVIDIA VPI image-processing API:
//! building the image and array descriptions that VPI wraps, reading the
//! descriptions that VPI hands back when a buffer is locked, laying out warp
//! grids, and turning VPI status codes into errors.
#![allow(non_upper_case_globals)]

pub mod sys;
pub mod util;
pub mod warp_map;
pub mod array;
pub mod flags;
pub mod image;

pub use util::{VpiError, VpiResult};
