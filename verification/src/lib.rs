//! Image-to-image neural inference pipeline: a uniform preprocess → infer →
//! postprocess contract over three model variants (upscaling, face
//! restoration, background removal), with an image ↔ tensor codec, a closed
//! numeric-precision abstraction, and fail-fast batch collection.
//!
//! The inference engine and the on-disk image codec are external
//! collaborators: the library works on decoded pixel buffers and on tensors
//! of quantized intensity levels, and states exactly how every stage
//! transforms geometry and pixel data.

pub mod error;
pub mod model;
pub mod paths;
pub mod processor;
pub mod raster;
pub mod tensor;
pub mod types;

use vstd::prelude::*;

verus! {

/// Largest width or height, in pixels, that the pipeline accepts for any
/// image or model input it is asked to resample. Keeps every buffer length
/// and index computation comfortably inside `usize` and `u32`.
pub const MAX_DIM: u32 = 16384;

/// The backend's liveness check: answers a number with that number plus two.
pub fn backend_add(number: i32) -> (r: i32)
    requires
        number + 2 <= i32::MAX,
    ensures
        r == number + 2,
{
    number + 2
}

} // verus!
