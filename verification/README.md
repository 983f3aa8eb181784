# vpi

Rust bindings to NVIDIA VPI, in two crates:

- `src/` — the library `vpi`, verified with Verus. It holds the data handling
  that the bindings rest on, over plain values: the image and array
  descriptions built from caller memory (`image::ImageDataBuilder`,
  `array::ArrayDataBuilder`) and the checks they make, the descriptions that a
  lock hands back and their planes and items (`image::ImageLock`,
  `array::ArrayLock`), the control-point grid of a warp map and the offsets of
  its keypoints (`warp_map`), the turning of a VPI status into an error
  (`util`), and the combining of flag bits (`flags`). `sys` holds the VPI
  records these work on.
- `app/` — the handles and calls over the C API (`libnvvpi`): contexts,
  streams, events, payloads, images, arrays, warp maps and the algorithm
  submissions. Each call hands its status to `vpi::util::check`, and each
  description goes through the library before it reaches VPI.
