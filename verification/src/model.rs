//! The three model variants. Each one implements the preprocess and
//! postprocess halves of the pipeline contract over decoded images and
//! tensors; the inference call between them is the engine's, outside this
//! library, and the laws below say what the geometry of a whole run is for
//! every engine output of the expected shape.

use vstd::prelude::*;

use crate::MAX_DIM;
use crate::error::ImageProcessingError;
use crate::raster::{
    center_crop, pixel_at, resize_image, Image, lemma_flat_bound, lemma_unflatten,
    ResampleFilter,
};
use crate::tensor::{
    image_decodes, image_to_tensor, lemma_encoded_levels_in_byte_range, levels_in_byte_range,
    tensor_at, tensor_encodes, tensor_to_image, Tensor,
};
use crate::types::{
    clamp_level, BackgroundRemovalParams, FaceRestorationParams, Half, Normalization, NumericType,
    ScaleFactor, Single, UpscalingParams,
};

verus! {

/// A dimension rounded up to the next even value, the padding rule of the
/// upscaling preprocessor.
pub open spec fn even_dim(d: int) -> int {
    if d % 2 == 1 {
        d + 1
    } else {
        d
    }
}

/// Rounds a dimension up to the next even value.
pub fn pad_even(d: u32) -> (r: u32)
    requires
        d <= MAX_DIM,
    ensures
        r == even_dim(d as int),
        r % 2 == 0,
        d <= r <= MAX_DIM,
{
    if d % 2 == 1 {
        d + 1
    } else {
        d
    }
}

/// The width after scaling so that the shorter edge equals `face`,
/// preserving the aspect ratio.
pub open spec fn face_resize_width(w: int, h: int, face: int) -> int {
    if w <= h {
        face
    } else {
        w * face / h
    }
}

/// The height after scaling so that the shorter edge equals `face`,
/// preserving the aspect ratio.
pub open spec fn face_resize_height(w: int, h: int, face: int) -> int {
    if w <= h {
        h * face / w
    } else {
        face
    }
}

/// An aspect-preserving resize to a shorter edge of `face` leaves neither
/// dimension below `face`: the crop that follows always has enough pixels
/// and never needs to pad.
pub proof fn lemma_face_resize_bounds(w: int, h: int, face: int)
    requires
        1 <= w,
        1 <= h,
        1 <= face,
    ensures
        face_resize_width(w, h, face) >= face,
        face_resize_height(w, h, face) >= face,
{
    if w <= h {
        assert(h * face / w >= face) by (nonlinear_arith)
            requires
                1 <= w <= h,
                1 <= face,
        ;
    } else {
        assert(w * face / h >= face) by (nonlinear_arith)
            requires
                1 <= h <= w,
                1 <= face,
        ;
    }
}

/// Scaling a square of the face size to a shorter edge of the face size
/// changes nothing: the resize of an already-correctly-sized face input is
/// the identity on dimensions.
pub proof fn lemma_face_resize_identity(face: int)
    requires
        1 <= face,
    ensures
        face_resize_width(face, face, face) == face,
        face_resize_height(face, face, face) == face,
{
    assert(face * face / face == face) by (nonlinear_arith)
        requires
            1 <= face,
    ;
}

/// Computes the aspect-preserving dimensions whose shorter edge is `face`.
pub fn face_resize_dims(w: u32, h: u32, face: u32) -> (r: (u32, u32))
    requires
        1 <= w <= MAX_DIM,
        1 <= h <= MAX_DIM,
        1 <= face <= MAX_DIM,
        face_resize_width(w as int, h as int, face as int) <= MAX_DIM,
        face_resize_height(w as int, h as int, face as int) <= MAX_DIM,
    ensures
        r.0 == face_resize_width(w as int, h as int, face as int),
        r.1 == face_resize_height(w as int, h as int, face as int),
        face <= r.0,
        face <= r.1,
{
    proof {
        lemma_face_resize_bounds(w as int, h as int, face as int);
        assert(w as int * face as int <= 0x1000_0000 && h as int * face as int <= 0x1000_0000)
            by (nonlinear_arith)
            requires
                w <= 16384,
                h <= 16384,
                face <= 16384,
                1 <= w,
                1 <= h,
                1 <= face,
        ;
    }
    if w <= h {
        let long = ((h as u64) * (face as u64) / (w as u64)) as u32;
        (face, long)
    } else {
        let long = ((w as u64) * (face as u64) / (h as u64)) as u32;
        (long, face)
    }
}

/// Whether an aspect-preserving resize to a shorter edge of `face` stays
/// inside the pipeline's dimension limit.
pub fn face_dims_within_limits(w: u32, h: u32, face: u32) -> (r: bool)
    requires
        1 <= w <= MAX_DIM,
        1 <= h <= MAX_DIM,
        1 <= face <= MAX_DIM,
    ensures
        r == (face_resize_width(w as int, h as int, face as int) <= MAX_DIM
            && face_resize_height(w as int, h as int, face as int) <= MAX_DIM),
{
    proof {
        assert(w as int * face as int <= 0x1000_0000 && h as int * face as int <= 0x1000_0000)
            by (nonlinear_arith)
            requires
                w <= 16384,
                h <= 16384,
                face <= 16384,
        ;
    }
    if w <= h {
        let long = (h as u64) * (face as u64) / (w as u64);
        long <= MAX_DIM as u64
    } else {
        let long = (w as u64) * (face as u64) / (h as u64);
        long <= MAX_DIM as u64
    }
}

/// Background removal's scaling factor: `min(1, min(mw / w, mh / h))` as an
/// exact rational, where `(mw, mh)` are the model's input dimensions and
/// `(w, h)` the image's.
pub open spec fn spec_scale_factor(mw: int, mh: int, w: int, h: int) -> ScaleFactor {
    if mw * h <= mh * w {
        if mw >= w {
            ScaleFactor { num: 1, den: 1 }
        } else {
            ScaleFactor { num: mw as u32, den: w as u32 }
        }
    } else {
        if mh >= h {
            ScaleFactor { num: 1, den: 1 }
        } else {
            ScaleFactor { num: mh as u32, den: h as u32 }
        }
    }
}

/// An image resized to exactly the model's input dimensions keeps its
/// dimensions, and the scaling factor of an already-correctly-sized image
/// is exactly one.
pub proof fn lemma_scale_factor_identity(mw: int, mh: int, w: int, h: int)
    requires
        1 <= w,
        1 <= h,
        mw == w,
        mh == h,
    ensures
        spec_scale_factor(mw, mh, w, h) == (ScaleFactor { num: 1, den: 1 }),
{
    assert(mw * h == mh * w) by (nonlinear_arith)
        requires
            mw == w,
            mh == h,
    ;
}

/// Computes the scaling factor `min(1, min(mw / w, mh / h))` exactly.
pub fn compute_scale_factor(mw: u32, mh: u32, w: u32, h: u32) -> (r: ScaleFactor)
    requires
        1 <= mw <= MAX_DIM,
        1 <= mh <= MAX_DIM,
        1 <= w <= MAX_DIM,
        1 <= h <= MAX_DIM,
    ensures
        r == spec_scale_factor(mw as int, mh as int, w as int, h as int),
        r.wf(),
{
    proof {
        assert(mw as int * h as int <= 0x1000_0000 && mh as int * w as int <= 0x1000_0000)
            by (nonlinear_arith)
            requires
                mw <= 16384,
                mh <= 16384,
                w <= 16384,
                h <= 16384,
        ;
    }
    let a = (mw as u64) * (h as u64);
    let b = (mh as u64) * (w as u64);
    if a <= b {
        if mw >= w {
            ScaleFactor { num: 1, den: 1 }
        } else {
            ScaleFactor { num: mw, den: w }
        }
    } else {
        if mh >= h {
            ScaleFactor { num: 1, den: 1 }
        } else {
            ScaleFactor { num: mh, den: h }
        }
    }
}

/// The upscaling variant: half precision, identity normalization, and
/// even-padding of odd input dimensions. The loaded graph fixes the output
/// resolution as a multiple of the input's.
pub struct UpscalingModel;

/// The tensor handed to the upscaling engine has the image's dimensions
/// rounded up to even, channel first.
pub open spec fn upscale_preprocessed<N: NumericType>(img: Image, t: Tensor<N>) -> bool {
    &&& t.channels == 3
    &&& t.width == even_dim(img.width as int)
    &&& t.height == even_dim(img.height as int)
}

impl UpscalingModel {
    /// Decodes nothing and discards nothing: pads the image to even
    /// dimensions with a high-quality resample, then encodes it channel
    /// first in the identity normalization. An already-even image is
    /// encoded pixel for pixel.
    pub fn preprocess(img: &Image, params: &mut UpscalingParams) -> (r: Result<
        Tensor<Half>,
        ImageProcessingError,
    >)
        requires
            img.wf(),
            img.channels == 3,
            img.dims_ok(),
        ensures
            r is Ok,
            *final(params) == *old(params),
            r matches Ok(t) ==> t.wf() && t.norm == Normalization::ZeroToOne
                && upscale_preprocessed(*img, t) && levels_in_byte_range(t),
            img.width % 2 == 0 && img.height % 2 == 0 ==> (r matches Ok(t) ==> tensor_encodes(
                t, *img)),
    {
        let w = pad_even(img.width);
        let h = pad_even(img.height);
        let resized = resize_image(img, w, h, ResampleFilter::Lanczos);
        let r = image_to_tensor::<Half>(&resized);
        proof {
            if r is Ok {
                lemma_encoded_levels_in_byte_range(r->Ok_0, resized);
            }
            if img.width % 2 == 0 && img.height % 2 == 0 {
                assert(resized.data@ == img.data@);
                if r is Ok {
                    let t = r->Ok_0;
                    assert forall|c: int, y: int, x: int|
                        0 <= c < 3 && 0 <= y < t.height && 0 <= x < t.width implies tensor_at(
                        t, c, y, x) == pixel_at(*img, x, y, c) by {
                        assert(tensor_at(t, c, y, x) == pixel_at(resized, x, y, c));
                        assert(pixel_at(resized, x, y, c) == pixel_at(*img, x, y, c));
                    }
                }
            }
        }
        r
    }

    /// Reassembles the engine's output tensor into an image at the tensor's
    /// own resolution: upscaling performs no resize after inference.
    pub fn postprocess(output: &Tensor<Half>, params: &UpscalingParams) -> (r: Result<
        Image,
        ImageProcessingError,
    >)
        requires
            output.wf(),
            output.channels == 3,
            output.width <= u32::MAX,
            output.height <= u32::MAX,
        ensures
            r is Ok,
            r matches Ok(img) ==> img.wf() && image_decodes(img, *output),
    {
        tensor_to_image(output)
    }

    /// Preprocessing an image whose dimensions are already even is the
    /// identity on dimensions.
    pub proof fn lemma_preprocess_identity<N: NumericType>(img: Image, t: Tensor<N>)
        requires
            upscale_preprocessed(img, t),
            img.width % 2 == 0,
            img.height % 2 == 0,
        ensures
            t.width == img.width as int,
            t.height == img.height as int,
    {
    }

    /// For every valid input, the output of a whole upscaling run has
    /// exactly `scale` times the even-padded input dimensions, where
    /// `scale` is the multiple the loaded graph applies to its input.
    pub proof fn lemma_output_dims<N: NumericType>(
        img: Image,
        t_in: Tensor<N>,
        t_out: Tensor<N>,
        out: Image,
        scale: int,
    )
        requires
            upscale_preprocessed(img, t_in),
            t_out.width as int == scale * t_in.width as int,
            t_out.height as int == scale * t_in.height as int,
            image_decodes(out, t_out),
        ensures
            out.width as int == scale * even_dim(img.width as int),
            out.height as int == scale * even_dim(img.height as int),
    {
    }
}

/// The face restoration variant: single precision, symmetric normalization,
/// and a square face-sized crop whose geometry is undone after inference.
pub struct FaceRestorationModel;

/// The parameters carry the dimensions of the image they were derived from.
pub open spec fn face_params_recorded(img: Image, p: FaceRestorationParams) -> bool {
    &&& p.original_width == Some(img.width)
    &&& p.original_height == Some(img.height)
}

/// The output image has exactly the dimensions the parameters recorded,
/// whenever they recorded any.
pub open spec fn face_output_sized(p: FaceRestorationParams, out: Image) -> bool {
    match (p.original_width, p.original_height) {
        (Some(ow), Some(oh)) => out.width == ow && out.height == oh,
        _ => true,
    }
}

impl FaceRestorationModel {
    /// Records the image's dimensions in the parameters, scales the image so
    /// its shorter edge matches the configured face size, cuts the centered
    /// face-sized square, and encodes it channel first in the symmetric
    /// normalization.
    pub fn preprocess(img: &Image, params: &mut FaceRestorationParams) -> (r: Result<
        Tensor<Single>,
        ImageProcessingError,
    >)
        requires
            img.wf(),
            img.channels == 3,
            img.dims_ok(),
            1 <= old(params).face_size <= MAX_DIM,
            face_resize_width(img.width as int, img.height as int,
                old(params).face_size as int) <= MAX_DIM,
            face_resize_height(img.width as int, img.height as int,
                old(params).face_size as int) <= MAX_DIM,
        ensures
            r is Ok,
            final(params).face_size == old(params).face_size,
            face_params_recorded(*img, *final(params)),
            r matches Ok(t) ==> t.wf() && t.norm == Normalization::SymmetricUnit && t.channels
                == 3 && t.width == old(params).face_size as int && t.height == old(
                params).face_size as int && levels_in_byte_range(t),
            img.width == old(params).face_size && img.height == old(params).face_size ==> (
            r matches Ok(t) ==> tensor_encodes(t, *img)),
    {
        params.original_width = Some(img.width);
        params.original_height = Some(img.height);
        let face = params.face_size;
        let (rw, rh) = face_resize_dims(img.width, img.height, face);
        let resized = resize_image(img, rw, rh, ResampleFilter::Triangle);
        let square = center_crop(&resized, face);
        proof {
            if img.width == face && img.height == face {
                lemma_face_resize_identity(face as int);
                assert(resized.data@ == img.data@);
                assert forall|c: int, y: int, x: int|
                    0 <= c < 3 && 0 <= y < square.height && 0 <= x < square.width implies
                    pixel_at(square, x, y, c) == pixel_at(*img, x, y, c) by {
                    assert(pixel_at(square, x, y, c) == pixel_at(resized, x, y, c));
                    assert(pixel_at(resized, x, y, c) == pixel_at(*img, x, y, c));
                }
            }
        }
        match image_to_tensor::<Single>(&square) {
            Ok(mut t) => {
                t.norm = Normalization::SymmetricUnit;
                proof {
                    assert(tensor_encodes(t, square));
                    lemma_encoded_levels_in_byte_range(t, square);
                }
                Ok(t)
            },
            Err(e) => Err(e),
        }
    }

    /// Reassembles the engine's output square and, when the parameters
    /// recorded the original dimensions, resamples it back to exactly those.
    pub fn postprocess(output: &Tensor<Single>, params: &FaceRestorationParams) -> (r: Result<
        Image,
        ImageProcessingError,
    >)
        requires
            output.wf(),
            output.channels == 3,
            output.width <= u32::MAX,
            output.height <= u32::MAX,
            params.original_width matches Some(ow) ==> 1 <= ow <= MAX_DIM,
            params.original_height matches Some(oh) ==> 1 <= oh <= MAX_DIM,
        ensures
            r is Ok,
            r matches Ok(img) ==> img.wf() && img.channels == 3 && face_output_sized(
                *params, img),
            params.original_width is None || params.original_height is None ==> (r matches Ok(
                img) ==> image_decodes(img, *output)),
            params.original_width is Some && params.original_height is Some
                && params.original_width->Some_0 as int == output.width as int
                && params.original_height->Some_0 as int == output.height as int ==> (
            r matches Ok(img) ==> image_decodes(img, *output)),
    {
        let decoded = match tensor_to_image(output) {
            Ok(img) => img,
            Err(e) => {
                return Err(e);
            },
        };
        match (params.original_width, params.original_height) {
            (Some(ow), Some(oh)) => {
                let resized = resize_image(&decoded, ow, oh, ResampleFilter::Lanczos);
                proof {
                    if ow as int == output.width as int && oh as int == output.height as int {
                        assert(resized.data@ == decoded.data@);
                        assert forall|c: int, y: int, x: int|
                            0 <= c < 3 && 0 <= y < output.height && 0 <= x < output.width
                            implies pixel_at(resized, x, y, c) == clamp_level(tensor_at(
                            *output, c, y, x)) by {
                            assert(pixel_at(resized, x, y, c) == pixel_at(decoded, x, y, c));
                        }
                    }
                }
                Ok(resized)
            },
            _ => Ok(decoded),
        }
    }

    /// Round trip: whatever the engine returns, the output of a whole face
    /// restoration run has exactly the dimensions of the input image,
    /// because preprocessing records them and postprocessing resamples back
    /// to what was recorded.
    pub proof fn lemma_restores_original_dims(
        img: Image,
        params: FaceRestorationParams,
        out: Image,
    )
        requires
            face_params_recorded(img, params),
            face_output_sized(params, out),
        ensures
            out.width == img.width,
            out.height == img.height,
    {
    }
}

/// The background removal variant: single precision, mean/std
/// normalization, a fixed model-sized input, and a single-channel alpha
/// mask as output.
pub struct BackgroundRemovalModel;

/// The parameters carry the dimensions of the image they were derived from
/// and the scaling factor computed from them.
pub open spec fn br_params_recorded(img: Image, p: BackgroundRemovalParams) -> bool {
    &&& p.original_width == Some(img.width)
    &&& p.original_height == Some(img.height)
    &&& p.scaling_factor == Some(spec_scale_factor(p.model_width as int, p.model_height as int,
        img.width as int, img.height as int))
}

/// The parameters carry everything postprocessing needs to size the mask:
/// both original dimensions and the scaling factor.
pub open spec fn br_complete(p: BackgroundRemovalParams) -> bool {
    &&& p.original_width is Some
    &&& p.original_height is Some
    &&& p.scaling_factor is Some
}

/// The width of the emitted mask: the recorded original width scaled by the
/// recorded factor.
pub open spec fn br_scaled_width(p: BackgroundRemovalParams) -> int {
    p.scaling_factor->Some_0.spec_apply(p.original_width->Some_0 as int)
}

/// The height of the emitted mask: the recorded original height scaled by
/// the recorded factor.
pub open spec fn br_scaled_height(p: BackgroundRemovalParams) -> int {
    p.scaling_factor->Some_0.spec_apply(p.original_height->Some_0 as int)
}

/// The byte at flat position `k` of the alpha-mask image built from a
/// single-channel tensor: black in the color channels, the clamped mask
/// level in the alpha channel.
pub open spec fn mask_byte<N: NumericType>(t: Tensor<N>, k: int) -> int {
    let c = k % 4;
    let p = k / 4;
    let y = p / t.width as int;
    let x = p % t.width as int;
    if c < 3 {
        0
    } else {
        clamp_level(tensor_at(t, 0, y, x))
    }
}

impl BackgroundRemovalModel {
    /// Records the image's dimensions and its scaling factor in the
    /// parameters, resamples the image to exactly the model's input
    /// dimensions, and encodes it channel first in the mean/std
    /// normalization.
    pub fn preprocess(img: &Image, params: &mut BackgroundRemovalParams) -> (r: Result<
        Tensor<Single>,
        ImageProcessingError,
    >)
        requires
            img.wf(),
            img.channels == 3,
            img.dims_ok(),
            1 <= old(params).model_width <= MAX_DIM,
            1 <= old(params).model_height <= MAX_DIM,
        ensures
            r is Ok,
            final(params).model_width == old(params).model_width,
            final(params).model_height == old(params).model_height,
            br_params_recorded(*img, *final(params)),
            r matches Ok(t) ==> t.wf() && t.norm == Normalization::MeanStd && t.channels == 3
                && t.width == old(params).model_width && t.height == old(params).model_height
                && levels_in_byte_range(t),
            img.width as int == old(params).model_width as int && img.height as int == old(
                params).model_height as int ==> (r matches Ok(t) ==> tensor_encodes(t, *img)),
    {
        params.original_width = Some(img.width);
        params.original_height = Some(img.height);
        let mw = params.model_width as u32;
        let mh = params.model_height as u32;
        params.scaling_factor = Some(compute_scale_factor(mw, mh, img.width, img.height));
        let resized = resize_image(img, mw, mh, ResampleFilter::Lanczos);
        proof {
            if img.width == mw && img.height == mh {
                assert(resized.data@ == img.data@);
            }
        }
        match image_to_tensor::<Single>(&resized) {
            Ok(mut t) => {
                t.norm = Normalization::MeanStd;
                proof {
                    assert(tensor_encodes(t, resized));
                    lemma_encoded_levels_in_byte_range(t, resized);
                    if img.width == mw && img.height == mh {
                        assert forall|c: int, y: int, x: int|
                            0 <= c < 3 && 0 <= y < t.height && 0 <= x < t.width implies
                            tensor_at(t, c, y, x) == pixel_at(*img, x, y, c) by {
                            assert(tensor_at(t, c, y, x) == pixel_at(resized, x, y, c));
                            assert(pixel_at(resized, x, y, c) == pixel_at(*img, x, y, c));
                        }
                    }
                }
                Ok(t)
            },
            Err(e) => Err(e),
        }
    }

    /// Interprets the engine's single-channel output as an alpha mask in an
    /// RGBA image whose color is black, then resamples the mask to the
    /// recorded original dimensions scaled by the recorded factor.
    pub fn postprocess(output: &Tensor<Single>, params: &BackgroundRemovalParams) -> (r: Result<
        Image,
        ImageProcessingError,
    >)
        requires
            output.wf(),
            output.channels == 1,
            1 <= output.width <= MAX_DIM,
            1 <= output.height <= MAX_DIM,
            params.original_width matches Some(ow) ==> 1 <= ow <= MAX_DIM,
            params.original_height matches Some(oh) ==> 1 <= oh <= MAX_DIM,
            params.scaling_factor matches Some(sf) ==> sf.wf(),
            br_complete(*params) ==> br_scaled_width(*params) >= 1,
            br_complete(*params) ==> br_scaled_height(*params) >= 1,
        ensures
            r is Ok,
            r matches Ok(img) ==> img.wf() && img.channels == 4,
            br_complete(*params) ==> (r matches Ok(img) ==> img.width as int == br_scaled_width(
                *params) && img.height as int == br_scaled_height(*params)),
            !br_complete(*params) ==> (r matches Ok(img) ==> img.width as int
                == output.width as int && img.height as int == output.height as int && (forall|
                x: int,
                y: int,
            |
                0 <= x < img.width && 0 <= y < img.height ==> pixel_at(img, x, y, 3)
                    == clamp_level(tensor_at(*output, 0, y, x))) && (forall|
                x: int,
                y: int,
                c: int,
            |
                0 <= x < img.width && 0 <= y < img.height && 0 <= c < 3 ==> pixel_at(
                    img, x, y, c) == 0)),
    {
        let mask = Self::mask_image(output);
        match (params.original_width, params.original_height, params.scaling_factor) {
            (Some(ow), Some(oh), Some(sf)) => {
                let sw = sf.apply(ow);
                let sh = sf.apply(oh);
                Ok(resize_image(&mask, sw, sh, ResampleFilter::Triangle))
            },
            _ => Ok(mask),
        }
    }

    /// Builds the RGBA alpha-mask image of a single-channel tensor: black
    /// color channels, the tensor's clamped levels as alpha.
    fn mask_image(t: &Tensor<Single>) -> (r: Image)
        requires
            t.wf(),
            t.channels == 1,
            1 <= t.width <= MAX_DIM,
            1 <= t.height <= MAX_DIM,
        ensures
            r.wf(),
            r.channels == 4,
            r.width as int == t.width as int,
            r.height as int == t.height as int,
            forall|x: int, y: int|
                0 <= x < r.width && 0 <= y < r.height ==> pixel_at(r, x, y, 3) == clamp_level(
                    tensor_at(*t, 0, y, x)),
            forall|x: int, y: int, c: int|
                0 <= x < r.width && 0 <= y < r.height && 0 <= c < 3 ==> pixel_at(r, x, y, c)
                    == 0,
    {
        let h = t.height;
        let w = t.width;
        proof {
            assert(w * h * 4 <= 0x4000_0000 && w * h * 1 == 1 * w * h && h * w == w * h)
                by (nonlinear_arith)
                requires
                    w <= 16384,
                    h <= 16384,
            ;
        }
        let total = w * h * 4;
        let tlen = t.data.len();
        let mut data: Vec<u8> = Vec::new();
        let mut k: usize = 0;
        while k < total
            invariant
                t.wf(),
                t.channels == 1,
                1 <= w <= MAX_DIM,
                1 <= h <= MAX_DIM,
                w == t.width,
                h == t.height,
                total == w * h * 4,
                tlen == t.data@.len(),
                k <= total,
                data@.len() == k,
                forall|j: int| 0 <= j < k ==> #[trigger] data@[j] as int == mask_byte(*t, j),
            decreases total - k,
        {
            let c = k % 4;
            let p = k / 4;
            let y = p / w;
            let x = p % w;
            proof {
                assert(p < w * h) by (nonlinear_arith)
                    requires
                        k < w * h * 4,
                        p == k / 4,
                        0 < w,
                        0 < h,
                        0 <= k,
                ;
                assert(y < h && x < w) by (nonlinear_arith)
                    requires
                        p < w * h,
                        y == p / w,
                        x == p % w,
                        0 < w,
                        0 <= p,
                ;
            }
            let b: u8;
            if c < 3 {
                b = 0;
            } else {
                proof {
                    lemma_flat_bound(0, y as int, x as int, 1, h as int, w as int);
                    assert(1 as int * h as int * w as int == t.channels as int * t.height as int
                        * t.width as int) by (nonlinear_arith)
                        requires
                            t.channels == 1,
                            h == t.height,
                            w == t.width,
                    ;
                }
                b = t.data[(0 * h + y) * w + x].to_level();
            }
            data.push(b);
            k += 1;
        }
        let out = Image { width: w as u32, height: h as u32, channels: 4, data };
        proof {
            assert(out.data@.len() == out.channels as int * out.width as int
                * out.height as int) by (nonlinear_arith)
                requires
                    out.data@.len() == total,
                    total == w * h * 4,
                    out.channels == 4,
                    out.width as int == w as int,
                    out.height as int == h as int,
            ;
            assert forall|x: int, y: int|
                0 <= x < out.width && 0 <= y < out.height implies pixel_at(out, x, y, 3)
                == clamp_level(tensor_at(*t, 0, y, x)) by {
                lemma_flat_bound(y, x, 3, h as int, w as int, 4);
                lemma_unflatten(y, x, 3, w as int, 4);
            }
            assert forall|x: int, y: int, c: int|
                0 <= x < out.width && 0 <= y < out.height && 0 <= c < 3 implies pixel_at(
                out, x, y, c) == 0 by {
                lemma_flat_bound(y, x, c, h as int, w as int, 4);
                lemma_unflatten(y, x, c, w as int, 4);
            }
        }
        out
    }

    /// Preprocessing an image that already has the model's input dimensions
    /// is the identity on dimensions, and the recorded scaling factor is
    /// exactly one.
    pub proof fn lemma_preprocess_identity(
        img: Image,
        params: BackgroundRemovalParams,
        t: Tensor<Single>,
    )
        requires
            1 <= img.width,
            1 <= img.height,
            img.width as int == params.model_width as int,
            img.height as int == params.model_height as int,
            br_params_recorded(img, params),
            t.width as int == params.model_width as int,
            t.height as int == params.model_height as int,
        ensures
            t.width as int == img.width as int,
            t.height as int == img.height as int,
            params.scaling_factor == Some(ScaleFactor::spec_one()),
    {
        lemma_scale_factor_identity(params.model_width as int, params.model_height as int,
            img.width as int, img.height as int);
    }

    /// The alpha mask, resampled back to the recorded original dimensions,
    /// covers the original image exactly: its dimensions are the input's.
    pub proof fn lemma_mask_covers_original(
        img: Image,
        params: BackgroundRemovalParams,
        mask: Image,
    )
        requires
            br_params_recorded(img, params),
            params.original_width matches Some(ow) ==> mask.width == ow,
            params.original_height matches Some(oh) ==> mask.height == oh,
        ensures
            mask.width == img.width,
            mask.height == img.height,
    {
    }
}

} // verus!
