//! Parameter records for the three model variants, the numeric-precision
//! abstraction shared by the tensor codec, and the exact rational that
//! stands for background removal's scaling factor.

use vstd::prelude::*;

verus! {

/// How tensor element levels relate to the floating-point values the
/// inference engine consumes. A level `v` in `0..=255` stands for:
///
/// - `ZeroToOne`: `v / 255`, the range `[0, 1]`;
/// - `SymmetricUnit`: `(v / 255 - 0.5) / 0.5`, the range `[-1, 1]`;
/// - `MeanStd`: `(v - 128) / 256`, mean/std normalization.
///
/// All three maps are strictly monotonic in `v` and invertible on the 256
/// levels, so the pipeline's logic works on levels and the engine boundary
/// applies the map this tag names.
#[derive(Clone, Copy, Debug, PartialEq, Eq, Structural)]
pub enum Normalization {
    ZeroToOne,
    SymmetricUnit,
    MeanStd,
}

/// Clamps a denormalized level into the displayable range `0..=255`.
pub open spec fn clamp_level(v: int) -> int {
    if v < 0 {
        0
    } else if v > 255 {
        255
    } else {
        v
    }
}

/// A closed abstraction over the two numeric precisions the models use.
///
/// Exactly two conversions: a pixel's 8-bit level into the representation,
/// and the representation back into a clamped 8-bit level. Both IEEE single
/// and half precision represent all 256 levels exactly, so at level
/// granularity each representation is an integer; the precisions differ only
/// in the bit width the engine boundary serializes.
pub trait NumericType: Sized + Copy {
    /// The denormalized level this value stands for. Engine outputs may lie
    /// outside `0..=255`; conversion back to a pixel clamps.
    spec fn value(self) -> int;

    /// Converts a pixel's channel level into the representation.
    fn from_level(v: u8) -> (r: Self)
        ensures
            r.value() == v as int,
    ;

    /// Builds a representation from a raw denormalized level, as the engine
    /// boundary does when it quantizes a floating-point output.
    fn from_raw(v: i32) -> (r: Self)
        ensures
            r.value() == v as int,
    ;

    /// Converts the representation back into a displayable channel level,
    /// clamping to `0..=255`.
    fn to_level(self) -> (r: u8)
        ensures
            r as int == clamp_level(self.value()),
    ;
}

/// Single-precision (32-bit) representation of a pixel level.
#[derive(Clone, Copy, Debug, PartialEq, Eq, Structural)]
pub struct Single(pub i32);

/// Half-precision (16-bit) representation of a pixel level.
#[derive(Clone, Copy, Debug, PartialEq, Eq, Structural)]
pub struct Half(pub i32);

impl NumericType for Single {
    open spec fn value(self) -> int {
        self.0 as int
    }

    fn from_level(v: u8) -> (r: Self) {
        Single(v as i32)
    }

    fn from_raw(v: i32) -> (r: Self) {
        Single(v)
    }

    fn to_level(self) -> (r: u8) {
        if self.0 < 0 {
            0
        } else if self.0 > 255 {
            255
        } else {
            self.0 as u8
        }
    }
}

impl NumericType for Half {
    open spec fn value(self) -> int {
        self.0 as int
    }

    fn from_level(v: u8) -> (r: Self) {
        Half(v as i32)
    }

    fn from_raw(v: i32) -> (r: Self) {
        Half(v)
    }

    fn to_level(self) -> (r: u8) {
        if self.0 < 0 {
            0
        } else if self.0 > 255 {
            255
        } else {
            self.0 as u8
        }
    }
}

/// An exact rational in `[0, 1]`, standing for background removal's
/// scaling factor `min(1, min(model_w / w, model_h / h))`.
#[derive(Clone, Copy, Debug, PartialEq, Eq, Structural)]
pub struct ScaleFactor {
    pub num: u32,
    pub den: u32,
}

impl ScaleFactor {
    /// A factor is valid when its denominator is positive and it does not
    /// exceed one.
    pub open spec fn wf(self) -> bool {
        1 <= self.num <= self.den
    }

    /// The identity factor.
    pub open spec fn spec_one() -> ScaleFactor {
        ScaleFactor { num: 1, den: 1 }
    }

    /// A dimension scaled by this factor, truncated to whole pixels.
    pub open spec fn spec_apply(self, d: int) -> int {
        d * self.num as int / self.den as int
    }

    /// Scales a dimension by this factor, truncating to whole pixels.
    pub fn apply(&self, d: u32) -> (r: u32)
        requires
            self.wf(),
            d <= crate::MAX_DIM,
        ensures
            r as int == self.spec_apply(d as int),
            r <= d,
    {
        let dw: u64 = d as u64;
        let nw: u64 = self.num as u64;
        let dnw: u64 = self.den as u64;
        proof {
            assert(dw * nw <= 16384 * 0xffff_ffff) by (nonlinear_arith)
                requires dw <= 16384 && nw <= 0xffff_ffff;
        }
        let wide: u64 = dw * nw / dnw;
        proof {
            let di = d as int;
            let n = self.num as int;
            let dn = self.den as int;
            assert(di * n <= di * dn) by (nonlinear_arith)
                requires 0 <= di && 0 < n <= dn;
            assert(di * n / dn <= di * dn / dn) by (nonlinear_arith)
                requires 0 <= di * n <= di * dn && 0 < dn;
            assert(di * dn / dn == di) by (nonlinear_arith)
                requires 0 < dn;
            assert(0 <= di * n / dn) by (nonlinear_arith)
                requires 0 <= di * n && 0 < dn;
        }
        wide as u32
    }
}

/// Per-invocation configuration of the upscaling variant. Upscaling derives
/// nothing during preprocessing: its output resolution is a fixed multiple
/// determined by the loaded graph.
#[derive(Clone, Default)]
pub struct UpscalingParams {}

/// Per-invocation configuration of the face restoration variant.
///
/// `face_size` is fixed by the caller; the original dimensions are derived
/// during preprocessing and consumed by postprocessing to resample the
/// restored square back to the input's exact size.
#[derive(Clone)]
pub struct FaceRestorationParams {
    pub face_size: u32,
    pub original_width: Option<u32>,
    pub original_height: Option<u32>,
}

impl Default for FaceRestorationParams {
    /// The default face crop is a 512-pixel square, with no derived
    /// dimensions recorded yet.
    fn default() -> (r: Self)
        ensures
            r.face_size == 512,
            r.original_width is None,
            r.original_height is None,
    {
        Self { face_size: 512, original_width: None, original_height: None }
    }
}

/// Per-invocation configuration of the background removal variant.
///
/// The model input dimensions are fixed by the caller; the original
/// dimensions and the scaling factor are derived during preprocessing and
/// consumed by postprocessing to size the emitted alpha mask.
#[derive(Clone, Default)]
pub struct BackgroundRemovalParams {
    pub model_width: usize,
    pub model_height: usize,
    pub original_width: Option<u32>,
    pub original_height: Option<u32>,
    pub scaling_factor: Option<ScaleFactor>,
}

/// A downloadable model file: its name on disk, where to fetch it, and the
/// version it carries.
pub struct ModelInfo {
    pub name: String,
    pub url: String,
    pub version: String,
}

} // verus!
