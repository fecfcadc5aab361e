//! The image pipeline: colour transform (grayscale or black-and-white
//! dither) followed by pre-multiplication of every channel against a
//! white background.
//!
//! Images are held as plain pixel buffers so that every step of the
//! pipeline is specified pointwise; only the error-diffusion dither is
//! delegated to the `image` crate.

use crate::errors::Error;
use vstd::prelude::*;

verus! {

/// Which colour reduction to apply before pre-multiplication.
#[derive(Debug, Clone, Copy, PartialEq, Eq)]
pub enum ColorTransform {
    /// 8-bit luminance, then error-diffusion dither to pure black/white.
    ToBlackAndWhite,
    /// 8-bit luminance by the standard luma weighting.
    ToGrayscale,
    /// Leave the colours as they are.
    Unchanged,
}

/// A decoded raster image in one of the pixel layouts the pipeline
/// handles, row-major, with channels interleaved. Any other layout is
/// carried as `Unsupported` and rejected by `process_image`.
#[derive(Debug, Clone, PartialEq, Eq)]
pub enum PixelImage {
    Gray8 { width: u32, height: u32, data: Vec<u8> },
    Rgb8 { width: u32, height: u32, data: Vec<u8> },
    Rgb16 { width: u32, height: u32, data: Vec<u16> },
    Unsupported,
}

impl PixelImage {
    /// The buffer holds exactly one entry per channel per pixel.
    pub open spec fn wf(&self) -> bool {
        match *self {
            PixelImage::Gray8 { width, height, data } => data@.len() == width * height,
            PixelImage::Rgb8 { width, height, data } => data@.len() == 3 * (width * height),
            PixelImage::Rgb16 { width, height, data } => data@.len() == 3 * (width * height),
            PixelImage::Unsupported => true,
        }
    }

    pub open spec fn is_supported(&self) -> bool {
        !(*self is Unsupported)
    }

    pub open spec fn spec_width(&self) -> nat {
        match *self {
            PixelImage::Gray8 { width, .. } => width as nat,
            PixelImage::Rgb8 { width, .. } => width as nat,
            PixelImage::Rgb16 { width, .. } => width as nat,
            PixelImage::Unsupported => 0,
        }
    }

    pub open spec fn spec_height(&self) -> nat {
        match *self {
            PixelImage::Gray8 { height, .. } => height as nat,
            PixelImage::Rgb8 { height, .. } => height as nat,
            PixelImage::Rgb16 { height, .. } => height as nat,
            PixelImage::Unsupported => 0,
        }
    }

    /// The 8-bit luminance of a supported image, pixel by pixel.
    pub open spec fn spec_gray(&self) -> Seq<u8> {
        match *self {
            PixelImage::Gray8 { width, height, data } => data@,
            PixelImage::Rgb8 { width, height, data } => Seq::new(
                (width * height) as nat,
                |i: int| luma8(data@[3 * i], data@[3 * i + 1], data@[3 * i + 2]),
            ),
            PixelImage::Rgb16 { width, height, data } => Seq::new(
                (width * height) as nat,
                |i: int| luma16(data@[3 * i], data@[3 * i + 1], data@[3 * i + 2]),
            ),
            PixelImage::Unsupported => Seq::empty(),
        }
    }
}

/// The standard luma weighting of an 8-bit RGB pixel:
/// 0.2126 red + 0.7152 green + 0.0722 blue, in exact integer form.
pub open spec fn luma8(r: u8, g: u8, b: u8) -> u8 {
    ((2126 * r + 7152 * g + 722 * b) / 10000) as u8
}

/// The same weighting for a 16-bit RGB pixel, reduced to 8 bits
/// (65535 maps to 255 exactly).
pub open spec fn luma16(r: u16, g: u16, b: u16) -> u8 {
    (((2126 * r + 7152 * g + 722 * b) / 10000) / 257) as u8
}

/// One channel pre-multiplied against a white background:
/// `alpha/100` of the value plus `1 - alpha/100` of the channel
/// maximum, rounded to the nearest value with halves going up.
pub open spec fn premul8(c: u8, alpha: u8) -> u8
    recommends
        alpha <= 100,
{
    ((alpha * c + (100 - alpha) * 255 + 50) / 100) as u8
}

pub open spec fn premul16(c: u16, alpha: u8) -> u16
    recommends
        alpha <= 100,
{
    ((alpha * c + (100 - alpha) * 65535 + 50) / 100) as u16
}

/// A whole 8-bit buffer pre-multiplied channel by channel.
pub open spec fn apply_alpha8(data: Seq<u8>, alpha: u8) -> Seq<u8> {
    Seq::new(data.len(), |i: int| premul8(data[i], alpha))
}

pub open spec fn apply_alpha16(data: Seq<u16>, alpha: u8) -> Seq<u16> {
    Seq::new(data.len(), |i: int| premul16(data[i], alpha))
}

/// The two-level palette applied pointwise: luminance above the
/// midpoint becomes white, the rest black.
pub open spec fn bilevel_threshold(data: Seq<u8>) -> Seq<u8> {
    Seq::new(data.len(), |i: int| if data[i] > 127 { 255u8 } else { 0u8 })
}

/// What the black-and-white reduction of the `image` crate returns for
/// a given luminance buffer; a fixed function of the buffer and its
/// dimensions alone.
pub uninterp spec fn bilevel_dither_of(data: Seq<u8>, width: nat, height: nat) -> Seq<u8>;

/// Relies on `image::imageops::colorops::dither` with the `BiLevel`
/// palette: Floyd-Steinberg error diffusion onto {0, 255}, in place,
/// keeping the buffer's dimensions. The crate indexes rows and columns
/// directly and unconditionally diffuses to column `x + 1` on the last
/// row, so empty buffers and single-column buffers must stay out: both
/// would make it index out of bounds.
#[verifier::external_body]
fn dither_bilevel(width: u32, height: u32, data: Vec<u8>) -> (r: Vec<u8>)
    requires
        2 <= width,
        1 <= height,
        data@.len() == width * height,
    ensures
        r@ == bilevel_dither_of(data@, width as nat, height as nat),
        r@.len() == data@.len(),
        forall|i: int| 0 <= i < r@.len() ==> r@[i] == 0 || r@[i] == 255,
{
    let mut buf: image::ImageBuffer<image::Luma<u8>, Vec<u8>> = image::ImageBuffer::from_raw(
        width,
        height,
        data,
    ).unwrap();
    image::imageops::colorops::dither(&mut buf, &image::imageops::colorops::BiLevel);
    buf.into_raw()
}

/// What `process_image` promises, as one predicate over the input, the
/// requested transform and opacity, and the outcome.
pub open spec fn process_post(
    img: PixelImage,
    t: ColorTransform,
    alpha: u8,
    r: Result<PixelImage, Error>,
) -> bool {
    if img is Unsupported && !(t is Unchanged && alpha == 100) {
        r matches Err(e) && e is UnsupportedPixelFormat
    } else {
        match t {
            ColorTransform::Unchanged => r matches Ok(out) && alpha_only_post(img, alpha, out),
            ColorTransform::ToGrayscale => r matches Ok(out) && gray_post(img, alpha, out),
            ColorTransform::ToBlackAndWhite => r matches Ok(out) && bw_post(img, alpha, out),
        }
    }
}

/// With no colour transform, every channel is pre-multiplied at its
/// native precision and the layout is preserved.
pub open spec fn alpha_only_post(img: PixelImage, alpha: u8, out: PixelImage) -> bool {
    match img {
        PixelImage::Gray8 { width, height, data } => out matches PixelImage::Gray8 {
            width: ow,
            height: oh,
            data: od,
        } && ow == width && oh == height && od@ == apply_alpha8(data@, alpha),
        PixelImage::Rgb8 { width, height, data } => out matches PixelImage::Rgb8 {
            width: ow,
            height: oh,
            data: od,
        } && ow == width && oh == height && od@ == apply_alpha8(data@, alpha),
        PixelImage::Rgb16 { width, height, data } => out matches PixelImage::Rgb16 {
            width: ow,
            height: oh,
            data: od,
        } && ow == width && oh == height && od@ == apply_alpha16(data@, alpha),
        PixelImage::Unsupported => out is Unsupported,
    }
}

/// Grayscale output: one 8-bit channel, the luma of the input, then
/// pre-multiplied.
pub open spec fn gray_post(img: PixelImage, alpha: u8, out: PixelImage) -> bool {
    out matches PixelImage::Gray8 { width, height, data } && width == img.spec_width() && height
        == img.spec_height() && data@ == apply_alpha8(img.spec_gray(), alpha)
}

/// Black-and-white output: the luma of the input reduced to the
/// two-level palette, then pre-multiplied. Images at least two columns
/// wide go through the crate's error-diffusion dither; a single column
/// (which the crate cannot dither) is thresholded pointwise instead.
/// Either way every output pixel is one of the two pre-multiplied
/// levels.
pub open spec fn bw_post(img: PixelImage, alpha: u8, out: PixelImage) -> bool {
    out matches PixelImage::Gray8 { width, height, data } && width == img.spec_width() && height
        == img.spec_height() && (if img.spec_width() * img.spec_height() == 0 {
        data@.len() == 0
    } else if img.spec_width() < 2 {
        data@ == apply_alpha8(bilevel_threshold(img.spec_gray()), alpha)
    } else {
        data@ == apply_alpha8(
            bilevel_dither_of(img.spec_gray(), img.spec_width(), img.spec_height()),
            alpha,
        )
    }) && (forall|i: int|
        0 <= i < data@.len() ==> data@[i] == premul8(0, alpha) || data@[i] == premul8(
            255,
            alpha,
        ))
}

/// Applies the requested colour transform, then pre-multiplies every
/// channel against white. With nothing to do the input is returned as
/// it is; an unsupported layout that would have to be touched is
/// rejected.
#[verifier::rlimit(30)]
pub fn process_image(img: &PixelImage, color_transform: ColorTransform, alpha: u8) -> (r: Result<
    PixelImage,
    Error,
>)
    requires
        img.wf(),
        alpha <= 100,
    ensures
        process_post(*img, color_transform, alpha, r),
        r matches Ok(out) ==> out.wf(),
{
    let r: Result<PixelImage, Error> = match color_transform {
        ColorTransform::Unchanged => {
            if alpha == 100 {
                let out = copy_image(img);
                proof {
                    lemma_premul_identity(*img);
                }
                let r1: Result<PixelImage, Error> = Ok(out);
                assert(process_post(*img, color_transform, alpha, r1));
                r1
            } else {
                let r1 = premul_image(img, alpha);
                assert(process_post(*img, color_transform, alpha, r1));
                r1
            }
        },
        ColorTransform::ToGrayscale => {
            match to_gray(img) {
                Ok(gray) => {
                    let out = premul_image(&gray, alpha);
                    assert(process_post(*img, color_transform, alpha, out));
                    out
                },
                Err(e) => {
                    let r1: Result<PixelImage, Error> = Err(e);
                    assert(process_post(*img, color_transform, alpha, r1));
                    r1
                },
            }
        },
        ColorTransform::ToBlackAndWhite => {
            match to_gray(img) {
                Ok(gray) => {
                    match gray {
                        PixelImage::Gray8 { width, height, data } => {
                            if width == 0 || height == 0 {
                                proof {
                                    assert(img.spec_width() == 0 || img.spec_height() == 0);
                                    assert(img.spec_width() * img.spec_height() == 0)
                                        by (nonlinear_arith)
                                        requires
                                            img.spec_width() == 0 || img.spec_height() == 0,
                                    ;
                                    assert(data@.len() == 0);
                                }
                                let r1: Result<PixelImage, Error> = Ok(
                                    PixelImage::Gray8 { width, height, data },
                                );
                                assert(process_post(*img, color_transform, alpha, r1));
                                r1
                            } else if width < 2 {
                                let reduced = threshold_buffer(&data);
                                let ghost rv = reduced@;
                                let r1 = premul_image(
                                    &(PixelImage::Gray8 { width, height, data: reduced }),
                                    alpha,
                                );
                                proof {
                                    lemma_two_level_premul(rv, alpha);
                                }
                                assert(process_post(*img, color_transform, alpha, r1));
                                r1
                            } else {
                                let dithered = dither_bilevel(width, height, data);
                                let ghost dv = dithered@;
                                let r1 = premul_image(
                                    &(PixelImage::Gray8 { width, height, data: dithered }),
                                    alpha,
                                );
                                proof {
                                    lemma_two_level_premul(dv, alpha);
                                }
                                assert(process_post(*img, color_transform, alpha, r1));
                                r1
                            }
                        },
                        _ => {
                            proof {
                                assert(false);
                            }
                            Err(Error::UnsupportedPixelFormat)
                        },
                    }
                },
                Err(e) => Err(e),
            }
        },
    };
    assert(process_post(*img, color_transform, alpha, r));
    r
}

/// Two images with the same layout, dimensions and pixel values.
pub open spec fn image_eq(a: PixelImage, b: PixelImage) -> bool {
    match a {
        PixelImage::Gray8 { width, height, data } => b matches PixelImage::Gray8 {
            width: bw,
            height: bh,
            data: bd,
        } && bw == width && bh == height && bd@ == data@,
        PixelImage::Rgb8 { width, height, data } => b matches PixelImage::Rgb8 {
            width: bw,
            height: bh,
            data: bd,
        } && bw == width && bh == height && bd@ == data@,
        PixelImage::Rgb16 { width, height, data } => b matches PixelImage::Rgb16 {
            width: bw,
            height: bh,
            data: bd,
        } && bw == width && bh == height && bd@ == data@,
        PixelImage::Unsupported => b is Unsupported,
    }
}

/// Every channel of every pixel sits at the channel maximum: the image
/// is pure white.
pub open spec fn all_white(img: PixelImage) -> bool {
    match img {
        PixelImage::Gray8 { width, height, data } => forall|i: int|
            0 <= i < data@.len() ==> data@[i] == 255,
        PixelImage::Rgb8 { width, height, data } => forall|i: int|
            0 <= i < data@.len() ==> data@[i] == 255,
        PixelImage::Rgb16 { width, height, data } => forall|i: int|
            0 <= i < data@.len() ==> data@[i] == 65535,
        PixelImage::Unsupported => false,
    }
}

/// Pre-multiplication idempotence: with no colour transform and full
/// opacity, the pipeline returns an image equal to its input, pixel
/// for pixel.
pub proof fn lemma_process_identity(img: PixelImage, r: Result<PixelImage, Error>)
    requires
        process_post(img, ColorTransform::Unchanged, 100, r),
    ensures
        r matches Ok(out) && image_eq(out, img),
{
    lemma_premul_identity(img);
}

/// Pre-multiplication correctness at opacity zero: every output pixel
/// equals the channel maximum, whatever the input pixels were.
pub proof fn lemma_opacity_zero_white(
    img: PixelImage,
    t: ColorTransform,
    r: Result<PixelImage, Error>,
)
    requires
        img.wf(),
        img.is_supported(),
        process_post(img, t, 0, r),
    ensures
        r matches Ok(out) && all_white(out),
{
    assert forall|c: u8| premul8(c, 0) == 255 by {}
    assert forall|c: u16| premul16(c, 0) == 65535 by {}
}

/// The grayscale transform always yields a single 8-bit luminance
/// channel with the input's dimensions, and is deterministic: two runs
/// on the same input agree pixel for pixel.
pub proof fn lemma_grayscale_single_channel(
    img: PixelImage,
    alpha: u8,
    r1: Result<PixelImage, Error>,
    r2: Result<PixelImage, Error>,
)
    requires
        img.wf(),
        img.is_supported(),
        alpha <= 100,
        process_post(img, ColorTransform::ToGrayscale, alpha, r1),
        process_post(img, ColorTransform::ToGrayscale, alpha, r2),
    ensures
        r1 matches Ok(out) && out is Gray8 && out.spec_width() == img.spec_width()
            && out.spec_height() == img.spec_height(),
        r2 matches Ok(out2) && (r1 matches Ok(out) && image_eq(out, out2)),
{
}

/// The black-and-white transform at full opacity yields a single
/// 8-bit channel holding nothing but pure black and pure white.
pub proof fn lemma_black_and_white_two_level(img: PixelImage, r: Result<PixelImage, Error>)
    requires
        img.wf(),
        img.is_supported(),
        process_post(img, ColorTransform::ToBlackAndWhite, 100, r),
    ensures
        r matches Ok(out) && out matches PixelImage::Gray8 { width, height, data } && (forall|
            i: int,
        | 0 <= i < data@.len() ==> data@[i] == 0 || data@[i] == 255),
{
    assert(premul8(0, 100) == 0);
    assert(premul8(255, 100) == 255);
}

/// `premul` at opacity 100 changes nothing.
proof fn lemma_premul_identity(img: PixelImage)
    ensures
        alpha_only_post(img, 100, img),
{
    match img {
        PixelImage::Gray8 { width, height, data } => {
            assert forall|i: int| 0 <= i < data@.len() implies premul8(data@[i], 100) == data@[i] by {
                lemma_premul8_full(data@[i]);
            }
            assert(data@ =~= apply_alpha8(data@, 100));
        },
        PixelImage::Rgb8 { width, height, data } => {
            assert forall|i: int| 0 <= i < data@.len() implies premul8(data@[i], 100) == data@[i] by {
                lemma_premul8_full(data@[i]);
            }
            assert(data@ =~= apply_alpha8(data@, 100));
        },
        PixelImage::Rgb16 { width, height, data } => {
            assert forall|i: int| 0 <= i < data@.len() implies premul16(data@[i], 100)
                == data@[i] by {
                lemma_premul16_full(data@[i]);
            }
            assert(data@ =~= apply_alpha16(data@, 100));
        },
        PixelImage::Unsupported => {},
    }
}

proof fn lemma_premul8_full(c: u8)
    ensures
        premul8(c, 100) == c,
{
    assert((100 * c + 50) / 100 == c) by (nonlinear_arith);
}

proof fn lemma_premul16_full(c: u16)
    ensures
        premul16(c, 100) == c,
{
    assert((100 * c + 50) / 100 == c) by (nonlinear_arith);
}

/// Pre-multiplying a two-level buffer yields only the two
/// pre-multiplied levels.
proof fn lemma_two_level_premul(data: Seq<u8>, alpha: u8)
    requires
        forall|i: int| 0 <= i < data.len() ==> data[i] == 0 || data[i] == 255,
    ensures
        forall|i: int|
            0 <= i < data.len() ==> apply_alpha8(data, alpha)[i] == premul8(0, alpha)
                || apply_alpha8(data, alpha)[i] == premul8(255, alpha),
{
}

/// A fresh image with the same layout, dimensions and pixels.
fn copy_image(img: &PixelImage) -> (out: PixelImage)
    requires
        img.wf(),
    ensures
        out.wf(),
        match *img {
            PixelImage::Gray8 { width, height, data } => out matches PixelImage::Gray8 {
                width: ow,
                height: oh,
                data: od,
            } && ow == width && oh == height && od@ == data@,
            PixelImage::Rgb8 { width, height, data } => out matches PixelImage::Rgb8 {
                width: ow,
                height: oh,
                data: od,
            } && ow == width && oh == height && od@ == data@,
            PixelImage::Rgb16 { width, height, data } => out matches PixelImage::Rgb16 {
                width: ow,
                height: oh,
                data: od,
            } && ow == width && oh == height && od@ == data@,
            PixelImage::Unsupported => out is Unsupported,
        },
{
    match img {
        PixelImage::Gray8 { width, height, data } => PixelImage::Gray8 {
            width: *width,
            height: *height,
            data: copy_u8_vec(data),
        },
        PixelImage::Rgb8 { width, height, data } => PixelImage::Rgb8 {
            width: *width,
            height: *height,
            data: copy_u8_vec(data),
        },
        PixelImage::Rgb16 { width, height, data } => PixelImage::Rgb16 {
            width: *width,
            height: *height,
            data: copy_u16_vec(data),
        },
        PixelImage::Unsupported => PixelImage::Unsupported,
    }
}

fn copy_u8_vec(v: &Vec<u8>) -> (r: Vec<u8>)
    ensures
        r@ == v@,
{
    let mut out: Vec<u8> = Vec::new();
    let n = v.len();
    let mut i: usize = 0;
    while i < n
        invariant
            i <= n,
            n == v@.len(),
            out@ == v@.take(i as int),
        decreases n - i,
    {
        out.push(v[i]);
        assert(out@ =~= v@.take(i + 1));
        i = i + 1;
    }
    proof {
        assert(v@.take(n as int) =~= v@);
    }
    out
}

fn copy_u16_vec(v: &Vec<u16>) -> (r: Vec<u16>)
    ensures
        r@ == v@,
{
    let mut out: Vec<u16> = Vec::new();
    let n = v.len();
    let mut i: usize = 0;
    while i < n
        invariant
            i <= n,
            n == v@.len(),
            out@ == v@.take(i as int),
        decreases n - i,
    {
        out.push(v[i]);
        assert(out@ =~= v@.take(i + 1));
        i = i + 1;
    }
    proof {
        assert(v@.take(n as int) =~= v@);
    }
    out
}

/// Pre-multiplies every channel of a supported image.
fn premul_image(img: &PixelImage, alpha: u8) -> (r: Result<PixelImage, Error>)
    requires
        img.wf(),
        alpha <= 100,
    ensures
        img.is_supported() ==> (r matches Ok(out) && alpha_only_post(*img, alpha, out)
            && out.wf()),
        !img.is_supported() ==> (r matches Err(e) && e is UnsupportedPixelFormat),
{
    match img {
        PixelImage::Gray8 { width, height, data } => Ok(
            PixelImage::Gray8 {
                width: *width,
                height: *height,
                data: premul_buffer_u8(data, alpha),
            },
        ),
        PixelImage::Rgb8 { width, height, data } => Ok(
            PixelImage::Rgb8 {
                width: *width,
                height: *height,
                data: premul_buffer_u8(data, alpha),
            },
        ),
        PixelImage::Rgb16 { width, height, data } => Ok(
            PixelImage::Rgb16 {
                width: *width,
                height: *height,
                data: premul_buffer_u16(data, alpha),
            },
        ),
        PixelImage::Unsupported => Err(Error::UnsupportedPixelFormat),
    }
}

/// Reduces a luminance buffer to the two-level palette pointwise.
fn threshold_buffer(data: &Vec<u8>) -> (r: Vec<u8>)
    ensures
        r@ == bilevel_threshold(data@),
{
    let mut out: Vec<u8> = Vec::new();
    let n = data.len();
    let mut i: usize = 0;
    while i < n
        invariant
            i <= n,
            n == data@.len(),
            out@.len() == i,
            forall|j: int| 0 <= j < i ==> out@[j] == (if data@[j] > 127 { 255u8 } else { 0u8 }),
        decreases n - i,
    {
        let c = data[i];
        let v: u8 = if c > 127 {
            255
        } else {
            0
        };
        out.push(v);
        i = i + 1;
    }
    proof {
        assert(out@ =~= bilevel_threshold(data@));
    }
    out
}

fn premul_buffer_u8(data: &Vec<u8>, alpha: u8) -> (r: Vec<u8>)
    requires
        alpha <= 100,
    ensures
        r@ == apply_alpha8(data@, alpha),
{
    let mut out: Vec<u8> = Vec::new();
    let n = data.len();
    let mut i: usize = 0;
    while i < n
        invariant
            i <= n,
            n == data@.len(),
            alpha <= 100,
            out@.len() == i,
            forall|j: int| 0 <= j < i ==> out@[j] == premul8(data@[j], alpha),
        decreases n - i,
    {
        let c = data[i];
        proof {
            assert((alpha as int) * (c as int) <= 100 * 255) by (nonlinear_arith)
                requires
                    alpha <= 100,
                    c <= 255,
            ;
        }
        let v: u32 = ((alpha as u32) * (c as u32) + ((100 - alpha) as u32) * 255 + 50) / 100;
        out.push(v as u8);
        i = i + 1;
    }
    proof {
        assert(out@ =~= apply_alpha8(data@, alpha));
    }
    out
}

fn premul_buffer_u16(data: &Vec<u16>, alpha: u8) -> (r: Vec<u16>)
    requires
        alpha <= 100,
    ensures
        r@ == apply_alpha16(data@, alpha),
{
    let mut out: Vec<u16> = Vec::new();
    let n = data.len();
    let mut i: usize = 0;
    while i < n
        invariant
            i <= n,
            n == data@.len(),
            alpha <= 100,
            out@.len() == i,
            forall|j: int| 0 <= j < i ==> out@[j] == premul16(data@[j], alpha),
        decreases n - i,
    {
        let c = data[i];
        proof {
            assert((alpha as int) * (c as int) <= 100 * 65535) by (nonlinear_arith)
                requires
                    alpha <= 100,
                    c <= 65535,
            ;
        }
        let v: u32 = ((alpha as u32) * (c as u32) + ((100 - alpha) as u32) * 65535 + 50) / 100;
        out.push(v as u16);
        i = i + 1;
    }
    proof {
        assert(out@ =~= apply_alpha16(data@, alpha));
    }
    out
}

/// Reduces a supported image to its 8-bit luminance channel.
fn to_gray(img: &PixelImage) -> (r: Result<PixelImage, Error>)
    requires
        img.wf(),
    ensures
        img.is_supported() ==> (r matches Ok(out) && out matches PixelImage::Gray8 {
            width,
            height,
            data,
        } && width == img.spec_width() && height == img.spec_height() && data@ == img.spec_gray()
            && out.wf()),
        !img.is_supported() ==> (r matches Err(e) && e is UnsupportedPixelFormat),
{
    match img {
        PixelImage::Gray8 { width, height, data } => Ok(
            PixelImage::Gray8 { width: *width, height: *height, data: copy_u8_vec(data) },
        ),
        PixelImage::Rgb8 { width, height, data } => {
            let npix = data.len() / 3;
            proof {
                assert(3 * ((img.spec_width() * img.spec_height()) as int) / 3 == (
                img.spec_width() * img.spec_height()) as int);
            }
            let mut out: Vec<u8> = Vec::new();
            let mut i: usize = 0;
            while i < npix
                invariant
                    i <= npix,
                    npix == (img.spec_width() * img.spec_height()) as int,
                    data@.len() == 3 * npix,
                    data@.len() <= usize::MAX,
                    *img matches PixelImage::Rgb8 { width: _, height: _, data: d } && d@ == data@,
                    out@.len() == i,
                    forall|j: int|
                        0 <= j < i ==> out@[j] == luma8(data@[3 * j], data@[3 * j + 1], data@[3 * j
                            + 2]),
                decreases npix - i,
            {
                proof {
                    assert(3 * i + 2 < data@.len());
                }
                let cr = data[3 * i];
                let cg = data[3 * i + 1];
                let cb = data[3 * i + 2];
                let v: u32 = (2126 * (cr as u32) + 7152 * (cg as u32) + 722 * (cb as u32)) / 10000;
                out.push(v as u8);
                i = i + 1;
            }
            proof {
                assert(out@ =~= img.spec_gray());
            }
            Ok(PixelImage::Gray8 { width: *width, height: *height, data: out })
        },
        PixelImage::Rgb16 { width, height, data } => {
            let npix = data.len() / 3;
            proof {
                assert(3 * ((img.spec_width() * img.spec_height()) as int) / 3 == (
                img.spec_width() * img.spec_height()) as int);
            }
            let mut out: Vec<u8> = Vec::new();
            let mut i: usize = 0;
            while i < npix
                invariant
                    i <= npix,
                    npix == (img.spec_width() * img.spec_height()) as int,
                    data@.len() == 3 * npix,
                    data@.len() <= usize::MAX,
                    *img matches PixelImage::Rgb16 { width: _, height: _, data: d } && d@ == data@,
                    out@.len() == i,
                    forall|j: int|
                        0 <= j < i ==> out@[j] == luma16(data@[3 * j], data@[3 * j + 1], data@[3 * j
                            + 2]),
                decreases npix - i,
            {
                proof {
                    assert(3 * i + 2 < data@.len());
                }
                let cr = data[3 * i];
                let cg = data[3 * i + 1];
                let cb = data[3 * i + 2];
                let v: u32 = ((2126 * (cr as u32) + 7152 * (cg as u32) + 722 * (cb as u32)) / 10000)
                    / 257;
                out.push(v as u8);
                i = i + 1;
            }
            proof {
                assert(out@ =~= img.spec_gray());
            }
            Ok(PixelImage::Gray8 { width: *width, height: *height, data: out })
        },
        PixelImage::Unsupported => Err(Error::UnsupportedPixelFormat),
    }
}

} // verus!
