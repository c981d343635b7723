//! The image ↔ tensor codec. A tensor is a dense channel-first array with a
//! fixed batch dimension of one; its elements are quantized intensity levels
//! in a chosen numeric representation. The codec is exact: encoding reads
//! every channel of every pixel into its channel-first slot, decoding clamps
//! each level back into a displayable byte, and a round trip reproduces the
//! image byte for byte.

use vstd::prelude::*;
use vstd::string::StringExecFns;

use crate::error::ImageProcessingError;
use crate::raster::{Image, lemma_flat_bound, lemma_unflatten, pixel_at, px_index};
use crate::types::{clamp_level, Normalization, NumericType};

verus! {

/// A dense 4-dimensional numeric array with axis order (batch, channel,
/// height, width) and batch fixed at one, flattened row major. `norm` names
/// the map between the stored levels and the floating-point values the
/// inference engine sees.
pub struct Tensor<N> {
    pub channels: usize,
    pub height: usize,
    pub width: usize,
    pub norm: Normalization,
    pub data: Vec<N>,
}

/// The level stored for channel `c` at row `y`, column `x`.
pub open spec fn tensor_at<N: NumericType>(t: Tensor<N>, c: int, y: int, x: int) -> int {
    t.data@[(c * t.height as int + y) * t.width as int + x].value()
}

impl<N: NumericType> Tensor<N> {
    /// The buffer holds exactly one element per channel per pixel, and the
    /// channel count is an RGB image's or a single mask plane.
    pub open spec fn wf(self) -> bool {
        &&& (self.channels == 1 || self.channels == 3)
        &&& self.data@.len() == self.channels as int * self.height as int * self.width as int
    }

    /// The batch axis: always one image per tensor.
    pub open spec fn batch(self) -> int {
        1
    }

    /// Assembles a tensor from a flat buffer, checking that the buffer holds
    /// exactly one element per channel per pixel of the claimed shape. This
    /// is the reassembly guard of the inference stage: an engine output
    /// whose length does not match its claimed shape is a processing error.
    pub fn new(
        channels: usize,
        height: usize,
        width: usize,
        norm: Normalization,
        data: Vec<N>,
    ) -> (r: Result<Tensor<N>, ImageProcessingError>)
        ensures
            r matches Ok(t) ==> t == (Tensor { channels, height, width, norm, data }),
            r is Ok <==> (channels == 1 || channels == 3) && data@.len() == channels as int
                * height as int * width as int,
            r matches Err(e) ==> e is Processing,
    {
        if !(channels == 1 || channels == 3) {
            return Err(ImageProcessingError::Processing(String::from_str(
                "unsupported channel count in model output",
            )));
        }
        let len = data.len();
        let plane = match height.checked_mul(width) {
            Some(p) => p,
            None => {
                proof {
                    assert(len < channels as int * height as int * width as int)
                        by (nonlinear_arith)
                        requires
                            height as int * width as int > usize::MAX as int,
                            len <= usize::MAX as int,
                            channels as int >= 1;
                }
                return Err(ImageProcessingError::Processing(String::from_str(
                    "model output shape does not fit its buffer",
                )));
            },
        };
        let expect = match channels.checked_mul(plane) {
            Some(e) => e,
            None => {
                proof {
                    assert(channels as int * (height as int * width as int) == channels as int
                        * height as int * width as int) by (nonlinear_arith);
                }
                return Err(ImageProcessingError::Processing(String::from_str(
                    "model output shape does not fit its buffer",
                )));
            },
        };
        proof {
            assert(channels as int * (height as int * width as int) == channels as int
                * height as int * width as int) by (nonlinear_arith);
        }
        if len != expect {
            return Err(ImageProcessingError::Processing(String::from_str(
                "model output shape does not match its buffer",
            )));
        }
        Ok(Tensor { channels, height, width, norm, data })
    }
}

/// Splits an engine output's shape into channels, height and width,
/// checking the tensor contract's fixed axis order: four axes with a batch
/// of exactly one. Any other rank is a processing error.
pub fn split_output_shape(dims: &Vec<usize>) -> (r: Result<
    (usize, usize, usize),
    ImageProcessingError,
>)
    ensures
        r is Ok <==> dims@.len() == 4 && dims@[0] == 1,
        r matches Ok(chw) ==> chw == (dims@[1], dims@[2], dims@[3]),
        r matches Err(e) ==> e is Processing,
{
    if dims.len() != 4 {
        return Err(ImageProcessingError::Processing(String::from_str(
            "unexpected output rank from model",
        )));
    }
    if dims[0] != 1 {
        return Err(ImageProcessingError::Processing(String::from_str(
            "model output is not a single-image batch",
        )));
    }
    Ok((dims[1], dims[2], dims[3]))
}

/// The tensor holds, channel first, exactly the pixel levels of the image.
pub open spec fn tensor_encodes<N: NumericType>(t: Tensor<N>, img: Image) -> bool {
    &&& t.channels == 3
    &&& t.height == img.height as int
    &&& t.width == img.width as int
    &&& forall|c: int, y: int, x: int|
        0 <= c < 3 && 0 <= y < t.height && 0 <= x < t.width ==> tensor_at(t, c, y, x) == pixel_at(
            img, x, y, c)
}

/// Every element of the tensor is a byte-range level, `0..=255`. Under the
/// tensor's normalization tag this is exactly the engine-facing range the
/// variant promises: [0, 1] for the identity map, [-1, 1] for the symmetric
/// map, and the mean/std image of a byte for the third.
pub open spec fn levels_in_byte_range<N: NumericType>(t: Tensor<N>) -> bool {
    forall|c: int, y: int, x: int|
        0 <= c < t.channels && 0 <= y < t.height && 0 <= x < t.width ==> 0 <= #[trigger] tensor_at(
            t, c, y, x) <= 255
}

/// A tensor encoded from an image holds only byte-range levels: every
/// element is some pixel's channel byte.
pub proof fn lemma_encoded_levels_in_byte_range<N: NumericType>(t: Tensor<N>, img: Image)
    requires
        tensor_encodes(t, img),
    ensures
        levels_in_byte_range(t),
{
    assert forall|c: int, y: int, x: int|
        0 <= c < t.channels && 0 <= y < t.height && 0 <= x < t.width implies 0 <= #[trigger]
    tensor_at(t, c, y, x) <= 255 by {
        assert(tensor_at(t, c, y, x) == pixel_at(img, x, y, c));
    }
}

/// Every pixel byte of the image is the clamped level of the tensor's
/// corresponding channel-first element.
pub open spec fn image_decodes<N: NumericType>(img: Image, t: Tensor<N>) -> bool {
    &&& img.channels == 3
    &&& img.width as int == t.width as int
    &&& img.height as int == t.height as int
    &&& forall|c: int, y: int, x: int|
        0 <= c < 3 && 0 <= y < t.height && 0 <= x < t.width ==> pixel_at(img, x, y, c)
            == clamp_level(tensor_at(t, c, y, x))
}

/// The interleaved pixel byte a channel-first tensor element at flat
/// position `k` is read from, for an RGB image of the tensor's dimensions.
pub open spec fn encode_source_index(img: Image, k: int) -> int {
    let plane = img.height as int * img.width as int;
    let c = k / plane;
    let y = (k % plane) / img.width as int;
    let x = (k % plane) % img.width as int;
    px_index(img, x, y, c)
}

/// Decomposes a channel-first flat index `(c * h + y) * w + x` back into its
/// plane and coordinates by division and remainder.
pub proof fn lemma_unflatten_plane(c: int, y: int, x: int, h: int, w: int)
    requires
        0 <= c,
        0 <= y < h,
        0 <= x < w,
    ensures
        ((c * h + y) * w + x) / (h * w) == c,
        ((c * h + y) * w + x) % (h * w) == y * w + x,
        (y * w + x) / w == y,
        (y * w + x) % w == x,
{
    assert((c * h + y) * w + x == c * (h * w) + (y * w + x) && 0 <= y * w + x < h * w)
        by (nonlinear_arith)
        requires
            0 <= c,
            0 <= y < h,
            0 <= x < w,
    ;
    vstd::arithmetic::div_mod::lemma_fundamental_div_mod_converse(
        (c * h + y) * w + x, h * w, c, y * w + x);
    vstd::arithmetic::div_mod::lemma_fundamental_div_mod_converse(y * w + x, w, y, x);
}

/// Converts a decoded RGB image into a channel-first tensor of levels in the
/// identity normalization, one element per channel per pixel.
pub fn image_to_tensor<N: NumericType>(img: &Image) -> (r: Result<
    Tensor<N>,
    ImageProcessingError,
>)
    requires
        img.wf(),
        img.channels == 3,
    ensures
        r matches Ok(t) ==> t.wf() && t.norm == Normalization::ZeroToOne && tensor_encodes(
            t, *img),
        r is Ok,
{
    let h = img.height as usize;
    let w = img.width as usize;
    let total = img.data.len();
    proof {
        assert(h * w * 3 == total && h * w <= total && 3 * h * w == total) by (nonlinear_arith)
            requires
                total == img.channels as int * img.width as int * img.height as int,
                img.channels == 3,
                h == img.height,
                w == img.width,
        ;
    }
    let plane = h * w;
    let mut data: Vec<N> = Vec::new();
    let mut k: usize = 0;
    while k < total
        invariant
            img.wf(),
            img.channels == 3,
            h == img.height,
            w == img.width,
            total == img.data@.len(),
            plane == h * w,
            plane * 3 == total,
            k <= total,
            data@.len() == k,
            forall|j: int|
                0 <= j < k ==> #[trigger] data@[j].value() == img.data@[encode_source_index(
                    *img, j)] as int,
        decreases total - k,
    {
        proof {
            assert(plane > 0 && w > 0 && h > 0) by (nonlinear_arith)
                requires
                    plane == h * w,
                    plane * 3 == total,
                    k < total,
                    0 <= k,
            ;
            assert(k / plane < 3) by (nonlinear_arith)
                requires
                    plane * 3 == total,
                    0 <= k < total,
                    plane > 0,
            ;
            assert(k % plane < plane && (k % plane) / w < h && (k % plane) % w < w)
                by (nonlinear_arith)
                requires
                    plane == h * w,
                    plane > 0,
                    w > 0,
                    h > 0,
                    0 <= k,
            ;
        }
        let c = k / plane;
        let rem = k % plane;
        let y = rem / w;
        let x = rem % w;
        proof {
            lemma_flat_bound(y as int, x as int, c as int, h as int, w as int, 3);
            assert(h as int * w as int * 3 == 3 as int * w as int * h as int)
                by (nonlinear_arith);
        }
        let src = (y * w + x) * 3 + c;
        data.push(N::from_level(img.data[src]));
        k += 1;
    }
    let t = Tensor { channels: 3usize, height: h, width: w, norm: Normalization::ZeroToOne, data };
    proof {
        assert(t.data@.len() == t.channels as int * t.height as int * t.width as int)
            by (nonlinear_arith)
            requires
                t.data@.len() == total,
                plane * 3 == total,
                plane == h * w,
                t.channels == 3,
                t.height == h,
                t.width == w,
        ;
        assert forall|c: int, y: int, x: int|
            0 <= c < 3 && 0 <= y < t.height && 0 <= x < t.width implies tensor_at(t, c, y, x)
            == pixel_at(*img, x, y, c) by {
            lemma_flat_bound(c, y, x, 3, h as int, w as int);
            lemma_unflatten_plane(c, y, x, h as int, w as int);
            assert(3 as int * h as int * w as int == total) by (nonlinear_arith)
                requires
                    plane * 3 == total,
                    plane == h as int * w as int,
            ;
        }
    }
    Ok(t)
}

/// The byte at flat position `k` of the image decoded from a channel-first
/// RGB tensor: the clamped level of the element the layout maps `k` to.
pub open spec fn decoded_byte<N: NumericType>(t: Tensor<N>, k: int) -> int {
    let c = k % 3;
    let p = k / 3;
    let y = p / t.width as int;
    let x = p % t.width as int;
    clamp_level(tensor_at(t, c, y, x))
}

/// Reassembles a displayable RGB image from a channel-first tensor,
/// clamping every level into the 0..=255 byte range.
pub fn tensor_to_image<N: NumericType>(t: &Tensor<N>) -> (r: Result<
    Image,
    ImageProcessingError,
>)
    requires
        t.wf(),
        t.channels == 3,
        t.width <= u32::MAX,
        t.height <= u32::MAX,
    ensures
        r matches Ok(img) ==> img.wf() && image_decodes(img, *t),
        r is Ok,
{
    let h = t.height;
    let w = t.width;
    let total = t.data.len();
    proof {
        assert(h * w * 3 == total && h * w <= total) by (nonlinear_arith)
            requires
                total == t.channels as int * t.height as int * t.width as int,
                t.channels == 3,
                h == t.height,
                w == t.width,
        ;
    }
    let mut data: Vec<u8> = Vec::new();
    let mut k: usize = 0;
    while k < total
        invariant
            t.wf(),
            t.channels == 3,
            h == t.height,
            w == t.width,
            total == t.data@.len(),
            h * w * 3 == total,
            k <= total,
            data@.len() == k,
            forall|j: int| 0 <= j < k ==> #[trigger] data@[j] as int == decoded_byte(*t, j),
        decreases total - k,
    {
        proof {
            assert(w > 0 && h > 0) by (nonlinear_arith)
                requires
                    h * w * 3 == total,
                    k < total,
                    0 <= k,
            ;
            assert(k / 3 < h * w) by (nonlinear_arith)
                requires
                    h * w * 3 == total,
                    0 <= k < total,
            ;
            assert((k / 3) / w < h && (k / 3) % w < w) by (nonlinear_arith)
                requires
                    k / 3 < h * w,
                    w > 0,
                    h > 0,
                    0 <= k,
            ;
        }
        let c = k % 3;
        let p = k / 3;
        let y = p / w;
        let x = p % w;
        proof {
            lemma_flat_bound(c as int, y as int, x as int, 3, h as int, w as int);
            assert(3 as int * h as int * w as int == total) by (nonlinear_arith)
                requires
                    h as int * w as int * 3 == total,
            ;
        }
        let src = (c * h + y) * w + x;
        data.push(t.data[src].to_level());
        k += 1;
    }
    let out = Image { width: w as u32, height: h as u32, channels: 3, data };
    proof {
        assert(out.data@.len() == out.channels as int * out.width as int * out.height as int)
            by (nonlinear_arith)
            requires
                out.data@.len() == total,
                h * w * 3 == total,
                out.channels == 3,
                out.width as int == w as int,
                out.height as int == h as int,
        ;
        assert forall|c: int, y: int, x: int|
            0 <= c < 3 && 0 <= y < t.height && 0 <= x < t.width implies pixel_at(out, x, y, c)
            == clamp_level(tensor_at(*t, c, y, x)) by {
            lemma_flat_bound(y, x, c, h as int, w as int, 3);
            lemma_unflatten(y, x, c, w as int, 3);
        }
    }
    Ok(out)
}

/// The codec round trip is the identity: a tensor encoded from an RGB image
/// and decoded back, with no normalization change, reproduces the image's
/// dimensions and every pixel byte exactly, because clamping is the
/// identity on the byte range.
pub proof fn lemma_codec_round_trip<N: NumericType>(img: Image, t: Tensor<N>, out: Image)
    requires
        img.wf(),
        img.channels == 3,
        tensor_encodes(t, img),
        out.wf(),
        image_decodes(out, t),
    ensures
        out.width == img.width,
        out.height == img.height,
        out.channels == img.channels,
        out.data@ == img.data@,
{
    let w = img.width as int;
    let h = img.height as int;
    assert forall|j: int| 0 <= j < out.data@.len() implies out.data@[j] == img.data@[j] by {
        let c = j % 3;
        let p = j / 3;
        let y = p / w;
        let x = p % w;
        assert(out.data@.len() == 3 * w * h) by (nonlinear_arith)
            requires
                out.data@.len() == out.channels as int * out.width as int * out.height as int,
                out.channels == 3,
                out.width as int == w,
                out.height as int == h,
        ;
        assert(p < w * h && w > 0 && h > 0) by (nonlinear_arith)
            requires
                0 <= j < 3 * w * h,
                p == j / 3,
                0 <= w,
                0 <= h,
        ;
        assert(0 <= y < h && 0 <= x < w) by (nonlinear_arith)
            requires
                0 <= p < w * h,
                y == p / w,
                x == p % w,
                w > 0,
                h > 0,
        ;
        vstd::arithmetic::div_mod::lemma_fundamental_div_mod(j, 3);
        vstd::arithmetic::div_mod::lemma_fundamental_div_mod(p, w);
        assert(j == (y * w + x) * 3 + c) by (nonlinear_arith)
            requires
                j == 3 * p + c,
                p == w * y + x,
        ;
        assert(pixel_at(out, x, y, c) == clamp_level(tensor_at(t, c, y, x)));
        assert(tensor_at(t, c, y, x) == pixel_at(img, x, y, c));
        lemma_flat_bound(y, x, c, h, w, 3);
        assert(3 * w * h == w as int * 3 as int * h as int && h * w * 3 == 3 * w * h)
            by (nonlinear_arith);
        assert(0 <= pixel_at(img, x, y, c) <= 255);
        assert(pixel_at(out, x, y, c) == pixel_at(img, x, y, c));
    }
    assert(out.data@.len() == img.data@.len());
    assert(out.data@ =~= img.data@);
}

} // verus!
