//! Scaling of RGB pictures with the `image` crate.

use vstd::prelude::*;

verus! {

/// The sampling filter of a resize.
#[derive(Clone, Copy, Debug, PartialEq, Eq)]
pub enum ScaleFilter {
    /// Nearest neighbour: fast and rough.
    Nearest,
    /// Linear interpolation.
    Triangle,
}

/// The bytes of the RGB picture of `new_width` x `new_height` pixels that
/// `image::imageops::resize` makes from the tightly packed RGB picture
/// `pixels` of `width` x `height` pixels with `filter`.
pub uninterp spec fn resized_rgb8(
    pixels: Seq<u8>,
    width: u32,
    height: u32,
    new_width: u32,
    new_height: u32,
    filter: ScaleFilter,
) -> Seq<u8>;

/// Bytes that an allocation of the `image` crate may hold on this machine.
pub open spec fn fits_in_memory(bytes: int) -> bool {
    bytes <= isize::MAX as int
}

/// The largest width or height, source or target, of a linear-interpolation
/// resize: 2^20 pixels. Up to it, the sample positions that the `image` crate
/// computes in single precision stay within a small fraction of a pixel of
/// the exact ones, so the source pixel nearest to each sample gets a positive
/// weight and the weights can be normalised. Far beyond it a sample can land
/// on pixels of weight zero only, and the crate fails on the zero sum.
pub const TRIANGLE_LIMIT: u32 = 1048576;

/// Whether the first `count` pixels of the RGB bytes `pixels` all have the
/// colour `(red, green, blue)`.
pub open spec fn is_uniform(pixels: Seq<u8>, count: int, red: u8, green: u8, blue: u8) -> bool {
    forall|i: int|
        0 <= i < count ==> pixels[3 * i] == red && pixels[3 * i + 1] == green && #[trigger] pixels[3
            * i + 2] == blue
}

/// A resize that keeps a picture of one colour in that colour, as the
/// `image` crate's source shows: nearest-neighbour sampling copies one source
/// pixel into each target pixel, and a halving with linear interpolation
/// averages at most five source pixels per direction with normalised
/// weights, whose single-precision error is far below the half unit at which
/// the final rounding would change the value.
pub open spec fn keeps_uniform_colour(
    width: u32,
    height: u32,
    new_width: u32,
    new_height: u32,
    filter: ScaleFilter,
) -> bool {
    width > 0 && height > 0 && (filter == ScaleFilter::Nearest || (width == 2 * new_width && height
        == 2 * new_height))
}

/// Resizes an RGB picture with `image::ImageBuffer::from_raw` and
/// `image::imageops::resize`. Trusted: the result is `resized_rgb8` of the
/// arguments and holds three bytes for each of `new_width * new_height`
/// pixels. As the crate's source shows, an empty source picture gives a black
/// picture, a resize to the same dimensions copies the picture, and a
/// picture of one colour keeps its colour under the resizes that
/// `keeps_uniform_colour` admits. Linear interpolation is admitted up to
/// `TRIANGLE_LIMIT` pixels in each direction.
#[verifier::external_body]
fn resize_rgb8(
    pixels: &[u8],
    width: u32,
    height: u32,
    new_width: u32,
    new_height: u32,
    filter: ScaleFilter,
) -> (r: Vec<u8>)
    requires
        3 * width * height <= pixels@.len(),
        fits_in_memory(3 * new_width * new_height),
        fits_in_memory(16 * width * new_height),
        filter == ScaleFilter::Triangle ==> width <= TRIANGLE_LIMIT && height <= TRIANGLE_LIMIT
            && new_width <= TRIANGLE_LIMIT && new_height <= TRIANGLE_LIMIT,
    ensures
        r@ == resized_rgb8(pixels@, width, height, new_width, new_height, filter),
        r@.len() == 3 * new_width * new_height,
        width == 0 || height == 0 ==> forall|i: int| 0 <= i < r@.len() ==> r@[i] == 0,
        width == new_width && height == new_height && width > 0 && height > 0 ==> r@
            == pixels@.take(3 * width * height),
        forall|red: u8, green: u8, blue: u8|
            keeps_uniform_colour(width, height, new_width, new_height, filter) && #[trigger] is_uniform(
                pixels@,
                width * height,
                red,
                green,
                blue,
            ) ==> is_uniform(r@, new_width * new_height, red, green, blue),
{
    let filter = match filter {
        ScaleFilter::Nearest => image::imageops::FilterType::Nearest,
        ScaleFilter::Triangle => image::imageops::FilterType::Triangle,
    };
    let picture = image::ImageBuffer::<image::Rgb<u8>, &[u8]>::from_raw(width, height, pixels)
        .unwrap();
    image::imageops::resize(&picture, new_width, new_height, filter).into_raw()
}

/// The RGB picture that `resize` makes: a rough nearest-neighbour scaling to
/// twice the target size, then linear interpolation down to the target.
pub open spec fn two_step_resized(
    pixels: Seq<u8>,
    width: u32,
    height: u32,
    new_width: u32,
    new_height: u32,
) -> Seq<u8> {
    let w2 = (2 * new_width) as u32;
    let h2 = (2 * new_height) as u32;
    resized_rgb8(
        resized_rgb8(pixels, width, height, w2, h2, ScaleFilter::Nearest),
        w2,
        h2,
        new_width,
        new_height,
        ScaleFilter::Triangle,
    )
}

/// Resizes the tightly packed RGB picture `pixels` of `width` x `height`
/// pixels to `new_width` x `new_height`, in two steps as `two_step_resized`
/// says.
pub fn resize(pixels: &[u8], width: u32, height: u32, new_width: u32, new_height: u32) -> (r: Vec<
    u8,
>)
    requires
        3 * width * height <= pixels@.len(),
        2 * new_width <= TRIANGLE_LIMIT,
        2 * new_height <= TRIANGLE_LIMIT,
        fits_in_memory(12 * new_width * new_height),
        fits_in_memory(32 * width * new_height),
        fits_in_memory(32 * new_width * new_height),
    ensures
        r@ == two_step_resized(pixels@, width, height, new_width, new_height),
        r@.len() == 3 * new_width * new_height,
        forall|red: u8, green: u8, blue: u8|
            width > 0 && height > 0 && #[trigger] is_uniform(
                pixels@,
                width * height,
                red,
                green,
                blue,
            ) ==> is_uniform(r@, new_width * new_height, red, green, blue),
{
    let w2 = 2 * new_width;
    let h2 = 2 * new_height;
    assert(3 * w2 * h2 == 12 * new_width * new_height) by (nonlinear_arith)
        requires
            w2 == 2 * new_width,
            h2 == 2 * new_height,
    ;
    assert(16 * width * h2 == 32 * width * new_height) by (nonlinear_arith)
        requires
            h2 == 2 * new_height,
    ;
    assert(16 * w2 * new_height == 32 * new_width * new_height) by (nonlinear_arith)
        requires
            w2 == 2 * new_width,
    ;
    assert(3 * new_width * new_height <= 12 * new_width * new_height) by (nonlinear_arith);
    let rough = resize_rgb8(pixels, width, height, w2, h2, ScaleFilter::Nearest);
    let r = resize_rgb8(rough.as_slice(), w2, h2, new_width, new_height, ScaleFilter::Triangle);
    assert forall|red: u8, green: u8, blue: u8|
        width > 0 && height > 0 && #[trigger] is_uniform(
            pixels@,
            width * height,
            red,
            green,
            blue,
        ) implies is_uniform(r@, new_width * new_height, red, green, blue) by {
        assert(keeps_uniform_colour(width, height, w2, h2, ScaleFilter::Nearest));
        assert(is_uniform(rough@, w2 * h2, red, green, blue));
        if new_width > 0 && new_height > 0 {
            assert(keeps_uniform_colour(w2, h2, new_width, new_height, ScaleFilter::Triangle));
        } else {
            assert(new_width * new_height == 0) by (nonlinear_arith)
                requires
                    new_width == 0 || new_height == 0,
            ;
        }
    }
    r
}

} // verus!
