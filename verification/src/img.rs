//! Trusted boundary around the `image` crate.
//!
//! Decoded rasters are carried as `image::DynamicImage` values, which are
//! opaque here. Each resampling or compositing primitive the compositing
//! logic needs is wrapped once; the wrapper's contract names the result and
//! states the dimension facts that the `image` crate documents.

use vstd::prelude::*;

verus! {

#[verifier::external_type_specification]
#[verifier::external_body]
pub struct ExDynamicImage(image::DynamicImage);

/// The width in pixels of a raster; a pure attribute of the value.
pub uninterp spec fn image_width(img: image::DynamicImage) -> u32;

/// The height in pixels of a raster; a pure attribute of the value.
pub uninterp spec fn image_height(img: image::DynamicImage) -> u32;

/// The raster produced by Lanczos3 aspect-preserving resizing of `img` to
/// the largest size that fits within `w` by `h`.
pub uninterp spec fn fit_resized(img: image::DynamicImage, w: u32, h: u32) -> image::DynamicImage;

/// The raster produced by Lanczos3 resize-to-fill of `img`: uniform scaling
/// until `w` by `h` is covered, then a centered crop to `w` by `h`.
pub uninterp spec fn fill_resized(img: image::DynamicImage, w: u32, h: u32) -> image::DynamicImage;

/// The raster produced by drawing `top` over `bottom` with its top-left
/// corner at `(x, y)`, clipped to `bottom`'s canvas.
pub uninterp spec fn overlaid(
    bottom: image::DynamicImage,
    top: image::DynamicImage,
    x: i64,
    y: i64,
) -> image::DynamicImage;

/// The all-zero (fully transparent) RGBA raster of size `w` by `h`.
pub uninterp spec fn blank_of(w: u32, h: u32) -> image::DynamicImage;

/// Relies on `image::DynamicImage::width`.
#[verifier::external_body]
pub fn width_of(img: &image::DynamicImage) -> (r: u32)
    ensures
        r == image_width(*img),
{
    img.width()
}

/// Relies on `image::DynamicImage::height`.
#[verifier::external_body]
pub fn height_of(img: &image::DynamicImage) -> (r: u32)
    ensures
        r == image_height(*img),
{
    img.height()
}

/// Relies on `image::DynamicImage::clone`: the clone is the same raster.
#[verifier::external_body]
pub(crate) fn clone_image(img: &image::DynamicImage) -> (r: image::DynamicImage)
    ensures
        r == *img,
{
    img.clone()
}

/// Relies on `image::DynamicImage::resize` with the Lanczos3 filter: the
/// result preserves the aspect ratio and is the largest raster, at least
/// 1 by 1, that fits within the `w` by `h` bounds.
#[verifier::external_body]
pub(crate) fn resize_fit(img: &image::DynamicImage, w: u32, h: u32) -> (r: image::DynamicImage)
    requires
        1 <= w,
        1 <= h,
        1 <= image_width(*img),
        1 <= image_height(*img),
    ensures
        r == fit_resized(*img, w, h),
        1 <= image_width(r) <= w,
        1 <= image_height(r) <= h,
{
    img.resize(w, h, image::imageops::FilterType::Lanczos3)
}

/// Relies on `image::DynamicImage::resize_to_fill` with the Lanczos3
/// filter: the source is scaled uniformly until it covers `w` by `h` and
/// the overflow is cropped away symmetrically. The result has exactly the
/// requested dimensions as long as the scaled intermediate raster stays
/// within the `u32` coordinate range.
#[verifier::external_body]
pub(crate) fn resize_fill(img: &image::DynamicImage, w: u32, h: u32) -> (r: image::DynamicImage)
    requires
        1 <= w,
        1 <= h,
        1 <= image_width(*img),
        1 <= image_height(*img),
    ensures
        r == fill_resized(*img, w, h),
        image_width(*img) * h <= u32::MAX && image_height(*img) * w <= u32::MAX ==> {
            &&& image_width(r) == w
            &&& image_height(r) == h
        },
{
    img.resize_to_fill(w, h, image::imageops::FilterType::Lanczos3)
}

/// Relies on `image::imageops::overlay`: draws `top` onto `bottom` with its
/// top-left corner at `(x, y)`, clipping at `bottom`'s edges; `bottom`
/// keeps its dimensions.
#[verifier::external_body]
pub(crate) fn overlay_onto(
    bottom: &mut image::DynamicImage,
    top: &image::DynamicImage,
    x: i64,
    y: i64,
)
    ensures
        *final(bottom) == overlaid(*old(bottom), *top, x, y),
        image_width(*final(bottom)) == image_width(*old(bottom)),
        image_height(*final(bottom)) == image_height(*old(bottom)),
{
    image::imageops::overlay(bottom, top, x, y);
}

/// Relies on `image::DynamicImage::new_rgba8`: an all-zero RGBA raster of
/// the given size. The size bound keeps the pixel buffer allocation from
/// overflowing.
#[verifier::external_body]
pub(crate) fn blank_image(w: u32, h: u32) -> (r: image::DynamicImage)
    requires
        w * h * 4 <= u32::MAX,
    ensures
        r == blank_of(w, h),
        image_width(r) == w,
        image_height(r) == h,
{
    image::DynamicImage::new_rgba8(w, h)
}

} // verus!
