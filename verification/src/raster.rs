//! Decoded images as plain pixel buffers: interleaved 8-bit channels, row
//! major. Decoding and resampling are done by the `image` crate behind
//! trusted wrappers; cropping and mask compositing are verified here.

use vstd::prelude::*;

use crate::MAX_DIM;
use crate::error::ImageProcessingError;

verus! {

/// A decoded image: `channels` interleaved 8-bit samples per pixel
/// (3 = RGB, 4 = RGBA), rows top to bottom.
pub struct Image {
    pub width: u32,
    pub height: u32,
    pub channels: u32,
    pub data: Vec<u8>,
}

/// The flat index of channel `c` of the pixel at column `x`, row `y`.
pub open spec fn px_index(img: Image, x: int, y: int, c: int) -> int {
    (y * img.width as int + x) * img.channels as int + c
}

/// The value, as an integer level, of channel `c` of the pixel at `(x, y)`.
pub open spec fn pixel_at(img: Image, x: int, y: int, c: int) -> int {
    img.data@[px_index(img, x, y, c)] as int
}

impl Image {
    /// The buffer holds exactly one sample per channel per pixel.
    pub open spec fn wf(self) -> bool {
        &&& (self.channels == 3 || self.channels == 4)
        &&& self.data@.len() == self.channels as int * self.width as int * self.height as int
    }

    /// Both dimensions are positive and small enough for every index
    /// computation of the pipeline.
    pub open spec fn dims_ok(self) -> bool {
        &&& 1 <= self.width <= MAX_DIM
        &&& 1 <= self.height <= MAX_DIM
    }

    /// Whether the pipeline accepts this image's dimensions.
    pub fn fits_limits(&self) -> (r: bool)
        ensures
            r == self.dims_ok(),
    {
        1 <= self.width && self.width <= MAX_DIM && 1 <= self.height && self.height <= MAX_DIM
    }

    /// Reads channel `c` of the pixel at `(x, y)`.
    pub fn channel(&self, x: u32, y: u32, c: u32) -> (r: u8)
        requires
            self.wf(),
            x < self.width,
            y < self.height,
            c < self.channels,
        ensures
            r as int == pixel_at(*self, x as int, y as int, c as int),
    {
        proof {
            lemma_flat_bound(y as int, x as int, c as int, self.height as int,
                self.width as int, self.channels as int);
        }
        let len = self.data.len();
        let idx = (y as usize * self.width as usize + x as usize) * self.channels as usize
            + c as usize;
        self.data[idx]
    }
}

/// Decomposes the flat index `(a * nb + b) * nc + c` back into its three
/// coordinates by division and remainder.
pub proof fn lemma_unflatten(a: int, b: int, c: int, nb: int, nc: int)
    requires
        0 <= a,
        0 <= b < nb,
        0 <= c < nc,
    ensures
        ((a * nb + b) * nc + c) / nc == a * nb + b,
        ((a * nb + b) * nc + c) % nc == c,
        (a * nb + b) / nb == a,
        (a * nb + b) % nb == b,
{
    vstd::arithmetic::div_mod::lemma_fundamental_div_mod_converse(
        (a * nb + b) * nc + c, nc, a * nb + b, c);
    vstd::arithmetic::div_mod::lemma_fundamental_div_mod_converse(a * nb + b, nb, a, b);
}

/// Bounds the flat index `(a * nb + b) * nc + c` by the buffer length
/// `na * nb * nc`, with the intermediate bounds the index computation needs.
pub proof fn lemma_flat_bound(a: int, b: int, c: int, na: int, nb: int, nc: int)
    by (nonlinear_arith)
    requires
        0 <= a < na,
        0 <= b < nb,
        0 <= c < nc,
    ensures
        0 <= a * nb,
        a * nb + b < na * nb,
        na * nb <= na * nb * nc,
        0 <= (a * nb + b) * nc,
        (a * nb + b) * nc + c < na * nb * nc,
        na * nb * nc == nc * nb * na,
{
}

/// Decodes an encoded image (PNG, JPEG, ...) into an interleaved RGB buffer.
///
/// Relies on `image::load_from_memory` for the decoding itself and on
/// `DynamicImage::to_rgb8`: the returned buffer holds exactly three samples
/// per pixel of the decoded dimensions. Unsupported or corrupt input yields
/// the decode error kind.
#[verifier::external_body]
fn decode_rgb(bytes: &[u8]) -> (r: Result<Image, ImageProcessingError>)
    ensures
        r matches Ok(img) ==> img.wf() && img.channels == 3,
        r matches Err(e) ==> e is Image,
{
    match image::load_from_memory(bytes) {
        Ok(decoded) => {
            let rgb = decoded.to_rgb8();
            let (width, height) = rgb.dimensions();
            Ok(Image { width, height, channels: 3, data: rgb.into_raw() })
        }
        Err(e) => Err(ImageProcessingError::Image(e.to_string())),
    }
}

/// Decodes an encoded image into an interleaved RGB buffer, or reports a
/// decode error on unsupported or corrupt input.
pub fn decode_image(bytes: &[u8]) -> (r: Result<Image, ImageProcessingError>)
    ensures
        r matches Ok(img) ==> img.wf() && img.channels == 3,
        r matches Err(e) ==> e is Image,
{
    decode_rgb(bytes)
}

/// The resampling kernels the pipeline uses: a fast triangle (bilinear)
/// filter and a high-quality Lanczos window.
#[derive(Clone, Copy, Debug, PartialEq, Eq, Structural)]
pub enum ResampleFilter {
    Triangle,
    Lanczos,
}

/// Resamples an RGB image to exactly the requested dimensions.
///
/// Relies on `image::imageops::resize`: the returned buffer has exactly the
/// requested dimensions, and when they equal the input's the pixels are
/// copied unchanged rather than resampled.
#[verifier::external_body]
fn resize_rgb(img: &Image, nwidth: u32, nheight: u32, filter: ResampleFilter) -> (r: Image)
    requires
        img.wf(),
        img.channels == 3,
        1 <= nwidth <= MAX_DIM,
        1 <= nheight <= MAX_DIM,
    ensures
        r.wf(),
        r.channels == 3,
        r.width == nwidth,
        r.height == nheight,
        nwidth == img.width && nheight == img.height ==> r.data@ == img.data@,
{
    let kernel = match filter {
        ResampleFilter::Triangle => image::imageops::FilterType::Triangle,
        ResampleFilter::Lanczos => image::imageops::FilterType::Lanczos3,
    };
    let buf = image::RgbImage::from_raw(img.width, img.height, img.data.clone())
        .expect("buffer length matches dimensions");
    let resized = image::imageops::resize(&buf, nwidth, nheight, kernel);
    Image { width: nwidth, height: nheight, channels: 3, data: resized.into_raw() }
}

/// Resamples an RGBA image to exactly the requested dimensions.
///
/// Relies on `image::imageops::resize`, as `resize_rgb` does, instantiated
/// at four channels per pixel.
#[verifier::external_body]
fn resize_rgba(img: &Image, nwidth: u32, nheight: u32, filter: ResampleFilter) -> (r: Image)
    requires
        img.wf(),
        img.channels == 4,
        1 <= nwidth <= MAX_DIM,
        1 <= nheight <= MAX_DIM,
    ensures
        r.wf(),
        r.channels == 4,
        r.width == nwidth,
        r.height == nheight,
        nwidth == img.width && nheight == img.height ==> r.data@ == img.data@,
{
    let kernel = match filter {
        ResampleFilter::Triangle => image::imageops::FilterType::Triangle,
        ResampleFilter::Lanczos => image::imageops::FilterType::Lanczos3,
    };
    let buf = image::RgbaImage::from_raw(img.width, img.height, img.data.clone())
        .expect("buffer length matches dimensions");
    let resized = image::imageops::resize(&buf, nwidth, nheight, kernel);
    Image { width: nwidth, height: nheight, channels: 4, data: resized.into_raw() }
}

/// Resamples an image to exactly the requested dimensions, preserving its
/// channel layout. Resampling to the image's own dimensions is a pixel-exact
/// copy.
pub fn resize_image(img: &Image, nwidth: u32, nheight: u32, filter: ResampleFilter) -> (r: Image)
    requires
        img.wf(),
        1 <= nwidth <= MAX_DIM,
        1 <= nheight <= MAX_DIM,
    ensures
        r.wf(),
        r.channels == img.channels,
        r.width == nwidth,
        r.height == nheight,
        nwidth == img.width && nheight == img.height ==> r.data@ == img.data@,
{
    if img.channels == 3 {
        resize_rgb(img, nwidth, nheight, filter)
    } else {
        resize_rgba(img, nwidth, nheight, filter)
    }
}

/// The offset at which a centered crop of `size` starts inside `full`.
pub open spec fn crop_offset(full: int, size: int) -> int {
    (full - size) / 2
}

/// The byte at flat position `k` of the centered `size`-square crop of
/// `img`, read from the source pixel the crop maps `k` to.
pub open spec fn cropped_byte(img: Image, size: int, k: int) -> u8 {
    let c = k % 3;
    let p = k / 3;
    let y = p / size;
    let x = p % size;
    img.data@[px_index(img,
        x + crop_offset(img.width as int, size),
        y + crop_offset(img.height as int, size),
        c)]
}

/// Cuts the centered `size` by `size` square out of an RGB image.
pub fn center_crop(img: &Image, size: u32) -> (r: Image)
    requires
        img.wf(),
        img.channels == 3,
        img.width <= MAX_DIM,
        img.height <= MAX_DIM,
        1 <= size <= img.width,
        size <= img.height,
    ensures
        r.wf(),
        r.channels == 3,
        r.width == size,
        r.height == size,
        forall|x: int, y: int, c: int|
            0 <= x < size && 0 <= y < size && 0 <= c < 3 ==> pixel_at(r, x, y, c) == pixel_at(
                *img,
                x + crop_offset(img.width as int, size as int),
                y + crop_offset(img.height as int, size as int),
                c,
            ),
{
    let ox = ((img.width - size) / 2) as usize;
    let oy = ((img.height - size) / 2) as usize;
    let w = img.width as usize;
    let sz = size as usize;
    proof {
        assert(sz * sz * 3 < 0x4000_0000) by (nonlinear_arith)
            requires sz <= 16384;
    }
    let total = sz * sz * 3;
    let src_len = img.data.len();
    let mut data: Vec<u8> = Vec::new();
    let mut k: usize = 0;
    while k < total
        invariant
            img.wf(),
            img.channels == 3,
            img.width <= MAX_DIM,
            img.height <= MAX_DIM,
            1 <= size <= img.width,
            size <= img.height,
            ox == crop_offset(img.width as int, size as int),
            oy == crop_offset(img.height as int, size as int),
            w == img.width,
            sz == size,
            total == sz * sz * 3,
            src_len == img.data@.len(),
            k <= total,
            data@.len() == k,
            forall|j: int| 0 <= j < k ==> data@[j] == cropped_byte(*img, size as int, j),
        decreases total - k,
    {
        let c = k % 3;
        let p = k / 3;
        let y = p / sz;
        let x = p % sz;
        proof {
            assert(p < sz * sz) by (nonlinear_arith)
                requires k < sz * sz * 3, p == k / 3, 0 < sz;
            assert(y < sz && x < sz) by (nonlinear_arith)
                requires p < sz * sz, y == p / sz, x == p % sz, 0 < sz;
            vstd::arithmetic::div_mod::lemma_div_nonincreasing(img.height - size, 2);
            vstd::arithmetic::div_mod::lemma_div_nonincreasing(img.width - size, 2);
            assert(oy + sz <= img.height && ox + sz <= img.width);
            lemma_flat_bound(y as int + oy as int, x as int + ox as int, c as int,
                img.height as int, img.width as int, 3);
        }
        let src = ((y + oy) * w + (x + ox)) * 3 + c;
        data.push(img.data[src]);
        k += 1;
    }
    let out = Image { width: size, height: size, channels: 3, data };
    proof {
        assert(sz * sz * 3 == 3 * size as int * size as int) by (nonlinear_arith)
            requires sz == size;
        assert forall|x: int, y: int, c: int|
            0 <= x < size && 0 <= y < size && 0 <= c < 3 implies pixel_at(out, x, y, c)
            == pixel_at(
            *img,
            x + crop_offset(img.width as int, size as int),
            y + crop_offset(img.height as int, size as int),
            c,
        ) by {
            lemma_flat_bound(y, x, c, size as int, size as int, 3);
            lemma_unflatten(y, x, c, size as int, 3);
        }
    }
    out
}

/// The byte at flat position `k` of the composite of `original` and `mask`:
/// color channels come from `original`, the alpha channel from `mask`.
pub open spec fn composite_byte(original: Image, mask: Image, k: int) -> u8 {
    let c = k % 4;
    let p = k / 4;
    let y = p / original.width as int;
    let x = p % original.width as int;
    if c < 3 {
        original.data@[px_index(original, x, y, c)]
    } else {
        mask.data@[px_index(mask, x, y, 3)]
    }
}

/// Combines an image with an alpha mask of the same dimensions: the result
/// keeps the original's color channels and takes its opacity from the
/// mask's alpha channel.
pub fn composite_mask(original: &Image, mask: &Image) -> (r: Image)
    requires
        original.wf(),
        mask.wf(),
        mask.channels == 4,
        original.width == mask.width,
        original.height == mask.height,
        original.dims_ok(),
    ensures
        r.wf(),
        r.channels == 4,
        r.width == original.width,
        r.height == original.height,
        forall|x: int, y: int, c: int|
            0 <= x < r.width && 0 <= y < r.height && 0 <= c < 3 ==> pixel_at(r, x, y, c)
                == pixel_at(*original, x, y, c),
        forall|x: int, y: int|
            0 <= x < r.width && 0 <= y < r.height ==> pixel_at(r, x, y, 3) == pixel_at(
                *mask, x, y, 3),
{
    let w = original.width as usize;
    let h = original.height as usize;
    proof {
        assert(w * h * 4 <= 0x4000_0000) by (nonlinear_arith)
            requires w <= 16384 && h <= 16384;
    }
    let total = w * h * 4;
    let olen = original.data.len();
    let mlen = mask.data.len();
    let mut data: Vec<u8> = Vec::new();
    let mut k: usize = 0;
    while k < total
        invariant
            original.wf(),
            mask.wf(),
            mask.channels == 4,
            original.width == mask.width,
            original.height == mask.height,
            original.dims_ok(),
            w == original.width,
            h == original.height,
            total == w * h * 4,
            olen == original.data@.len(),
            mlen == mask.data@.len(),
            k <= total,
            data@.len() == k,
            forall|j: int| 0 <= j < k ==> data@[j] == composite_byte(*original, *mask, j),
        decreases total - k,
    {
        let c = k % 4;
        let p = k / 4;
        let y = p / w;
        let x = p % w;
        proof {
            assert(p < w * h) by (nonlinear_arith)
                requires k < w * h * 4, p == k / 4, 0 < w, 0 < h;
            assert(y < h && x < w) by (nonlinear_arith)
                requires p < w * h, y == p / w, x == p % w, 0 < w;
        }
        let b: u8;
        if c < 3 {
            let oc = original.channels as usize;
            proof {
                lemma_flat_bound(y as int, x as int, c as int,
                    original.height as int, original.width as int, original.channels as int);
            }
            b = original.data[(y * w + x) * oc + c];
        } else {
            proof {
                lemma_flat_bound(y as int, x as int, 3, mask.height as int, mask.width as int, 4);
            }
            b = mask.data[(y * w + x) * 4 + 3];
        }
        data.push(b);
        k += 1;
    }
    let out = Image { width: original.width, height: original.height, channels: 4, data };
    proof {
        assert(w * h * 4 == 4 * w * h) by (nonlinear_arith);
        assert forall|x: int, y: int, c: int|
            0 <= x < out.width && 0 <= y < out.height && 0 <= c < 3 implies pixel_at(out, x, y, c)
            == pixel_at(*original, x, y, c) by {
            lemma_flat_bound(y, x, c, out.height as int, out.width as int, 4);
            lemma_unflatten(y, x, c, out.width as int, 4);
        }
        assert forall|x: int, y: int|
            0 <= x < out.width && 0 <= y < out.height implies pixel_at(out, x, y, 3) == pixel_at(
            *mask, x, y, 3) by {
            lemma_flat_bound(y, x, 3, out.height as int, out.width as int, 4);
            lemma_unflatten(y, x, 3, out.width as int, 4);
        }
    }
    out
}

} // verus!
