use vstd::prelude::*;

use image::DynamicImage;

verus! {

#[verifier::external_type_specification]
#[verifier::external_body]
pub struct ExDynamicImage(DynamicImage);

/// The red, green and blue of each pixel of an image, keyed by `(x, y)`.
pub uninterp spec fn pixels_of(img: DynamicImage) -> Map<(u32, u32), (u8, u8, u8)>;

/// An image's width and height.
pub uninterp spec fn dimensions_of(img: DynamicImage) -> (u32, u32);

/// Whether an image stores 8-bit RGB pixels.
pub uninterp spec fn is_rgb8(img: DynamicImage) -> bool;

/// The coordinates of a `width` by `height` image.
pub open spec fn grid(width: u32, height: u32) -> Set<(u32, u32)> {
    Set::new(|p: (u32, u32)| p.0 < width && p.1 < height)
}

/// Relies on `image::DynamicImage::new_rgb8`: an 8-bit RGB image of the given
/// size whose buffer is filled with zeros. It computes the buffer's length as
/// `3 * width`, then times `height`, and panics where either product overflows
/// `usize`.
#[verifier::external_body]
fn new_rgb8(width: u32, height: u32) -> (r: DynamicImage)
    requires
        width as int * 3 <= usize::MAX,
        width as int * height as int * 3 <= usize::MAX,
    ensures
        is_rgb8(r),
        dimensions_of(r) == (width, height),
        pixels_of(r).dom() == grid(width, height),
        forall|p: (u32, u32)| #[trigger] pixels_of(r).contains_key(p) ==> pixels_of(r)[p] == (0u8, 0u8, 0u8),
{
    DynamicImage::new_rgb8(width, height)
}

/// Relies on `image::GenericImage::put_pixel` of `DynamicImage`: on an 8-bit
/// RGB image the pixel at `(x, y)` takes the red, green and blue of the given
/// value (the alpha is dropped). It panics outside the image's bounds.
#[verifier::external_body]
fn put_rgb(img: &mut DynamicImage, x: u32, y: u32, rgb: (u8, u8, u8))
    requires
        is_rgb8(*old(img)),
        x < dimensions_of(*old(img)).0,
        y < dimensions_of(*old(img)).1,
    ensures
        is_rgb8(*final(img)),
        dimensions_of(*final(img)) == dimensions_of(*old(img)),
        pixels_of(*final(img)) == pixels_of(*old(img)).insert((x, y), rgb),
{
    image::GenericImage::put_pixel(img, x, y, image::Rgba([rgb.0, rgb.1, rgb.2, u8::MAX]))
}

/// Renders a `width` by `height` RGB image, visiting each pixel once and
/// storing there the bytes that `shade` gives for its column and row.
pub fn render_pixels<F: Fn(u32, u32) -> (u8, u8, u8)>(width: u32, height: u32, shade: F) -> (r:
    DynamicImage)
    requires
        width as int * 3 <= usize::MAX,
        width as int * height as int * 3 <= usize::MAX,
        forall|x: u32, y: u32| x < width && y < height ==> call_requires(shade, (x, y)),
    ensures
        is_rgb8(r),
        dimensions_of(r) == (width, height),
        pixels_of(r).dom() == grid(width, height),
        forall|x: u32, y: u32|
            x < width && y < height ==> call_ensures(shade, (x, y), #[trigger] pixels_of(r)[(x, y)]),
{
    let mut img = new_rgb8(width, height);
    let mut x: u32 = 0;
    while x < width
        invariant
            x <= width,
            forall|x: u32, y: u32| x < width && y < height ==> call_requires(shade, (x, y)),
            is_rgb8(img),
            dimensions_of(img) == (width, height),
            pixels_of(img).dom() == grid(width, height),
            forall|a: u32, b: u32|
                a < x && b < height ==> call_ensures(shade, (a, b), #[trigger] pixels_of(img)[(a, b)]),
        decreases width - x,
    {
        let mut y: u32 = 0;
        while y < height
            invariant
                x < width,
                y <= height,
                forall|x: u32, y: u32| x < width && y < height ==> call_requires(shade, (x, y)),
                is_rgb8(img),
                dimensions_of(img) == (width, height),
                pixels_of(img).dom() == grid(width, height),
                forall|a: u32, b: u32|
                    a < x && b < height ==> call_ensures(shade, (a, b), #[trigger] pixels_of(img)[(a, b)]),
                forall|b: u32|
                    b < y ==> call_ensures(shade, (x, b), #[trigger] pixels_of(img)[(x, b)]),
            decreases height - y,
        {
            let rgb = shade(x, y);
            proof {
                assert(grid(width, height).contains((x, y)));
            }
            put_rgb(&mut img, x, y, rgb);
            y += 1;
        }
        x += 1;
    }
    img
}

} // verus!
