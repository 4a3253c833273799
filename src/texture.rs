use vstd::prelude::*;

verus! {

/// Bytes in one RGB8 pixel.
pub const RGB_BYTES: u32 = 3;

/// The number of bytes of a `width` by `height` RGB8 image.
pub open spec fn rgb_len(width: u32, height: u32) -> int {
    3 * (width as int) * (height as int)
}

/// The rows of a `width`-pixel-wide RGB8 image stored top row first, in
/// reverse order: row `y` of the result is row `height - 1 - y` of `pixels`.
pub open spec fn flipped_rows(width: u32, height: u32, pixels: Seq<u8>) -> Seq<u8> {
    let row = 3 * (width as int);
    Seq::new(pixels.len(), |i: int| pixels[(height - 1 - i / row) * row + i % row])
}

/// Relies on `image::imageops::flip_vertical`, applied to the RGB8 image that
/// `ImageBuffer::from_raw` builds over the bytes: the pixel at `(x, y)` of the
/// result is the pixel at `(x, height - 1 - y)` of the input, and the result
/// has the input's dimensions.
#[verifier::external_body]
fn flip_vertical_rgb8(width: u32, height: u32, pixels: Vec<u8>) -> (r: Vec<u8>)
    requires
        pixels@.len() == rgb_len(width, height),
    ensures
        r@ == flipped_rows(width, height, pixels@),
{
    let image = image::RgbImage::from_raw(width, height, pixels).unwrap();
    image::imageops::flip_vertical(&image).into_raw()
}

#[derive(Debug, Clone, Copy, PartialEq, Eq, Structural)]
pub enum TextureError {
    /// The pixel data is not three bytes for each pixel of the image.
    SizeMismatch,
    /// A dimension does not fit the `i32` that `glTexImage2D` takes.
    TooLarge,
}

/// The arguments of a `glTexImage2D` call for an RGB8 texture.
pub struct TextureUpload {
    pub width: i32,
    pub height: i32,
    pub pixels: Vec<u8>,
}

/// The texture upload of an RGB8 image stored top row first: OpenGL reads
/// the bottom row first, so the rows are flipped.
pub fn prepare_texture(width: u32, height: u32, pixels: Vec<u8>) -> (r: Result<
    TextureUpload,
    TextureError,
>)
    ensures
        r is Ok <==> pixels@.len() == rgb_len(width, height) && width <= i32::MAX && height
            <= i32::MAX,
        r matches Ok(t) ==> t.width == width && t.height == height && t.pixels@ == flipped_rows(
            width,
            height,
            pixels@,
        ),
        r matches Err(e) ==> (e == TextureError::SizeMismatch <==> pixels@.len() != rgb_len(
            width,
            height,
        )),
{
    let w = width as u128;
    let h = height as u128;
    assert(w * h <= 0xffff_ffff_ffff_ffff) by (nonlinear_arith)
        requires
            w <= 0xffff_ffff,
            h <= 0xffff_ffff,
    ;
    let need: u128 = RGB_BYTES as u128 * (w * h);
    assert(need == rgb_len(width, height)) by (nonlinear_arith)
        requires
            need == 3 * (w * h),
            w == width,
            h == height,
    ;
    if pixels.len() as u128 != need {
        return Err(TextureError::SizeMismatch);
    }
    if width > i32::MAX as u32 || height > i32::MAX as u32 {
        return Err(TextureError::TooLarge);
    }
    let flipped = flip_vertical_rgb8(width, height, pixels);
    Ok(TextureUpload { width: width as i32, height: height as i32, pixels: flipped })
}

} // verus!
