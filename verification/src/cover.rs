//! Cover art: the embedded picture of a track, decoded to RGBA pixels.

use vstd::prelude::*;

verus! {

/// Why an embedded picture gave no cover.
#[derive(Debug, Clone, Copy, PartialEq, Eq, Structural)]
pub enum CoverError {
    /// The image decoder rejected the bytes.
    Undecodable,
    /// The pixel buffer does not hold four bytes for each pixel.
    SizeMismatch,
    /// The dimensions ask for a buffer larger than any buffer can be.
    TooLarge,
}

/// What a cover image is: its dimensions and its pixels, row by row, four
/// bytes (red, green, blue, alpha) to the pixel.
pub struct CoverView {
    pub width: u32,
    pub height: u32,
    pub pixels: Seq<u8>,
}

/// A decoded cover image. Its buffer always holds exactly
/// `4 * width * height` bytes.
#[derive(Debug)]
pub struct CoverImage {
    width: u32,
    height: u32,
    pixels: Vec<u8>,
}

/// The number of bytes that the RGBA pixels of a `width` by `height` image
/// take.
pub open spec fn rgba8_len(width: u32, height: u32) -> int {
    4 * width * height
}

/// Whether `len` bytes are exactly the RGBA pixels of a `width` by `height`
/// image.
pub open spec fn fits_rgba8(width: u32, height: u32, len: nat) -> bool {
    len == rgba8_len(width, height)
}

/// Whether a buffer can hold the RGBA pixels of a `width` by `height` image
/// at all.
pub open spec fn rgba8_allocatable(width: u32, height: u32) -> bool {
    rgba8_len(width, height) <= isize::MAX
}

/// Computes the size of the RGBA buffer for the given dimensions, or `None`
/// where no buffer can be that large.
pub fn checked_rgba8_len(width: u32, height: u32) -> (len: Option<usize>)
    ensures
        rgba8_allocatable(width, height) ==> len == Some(rgba8_len(width, height) as usize),
        !rgba8_allocatable(width, height) ==> len.is_none(),
{
    assert(width * height <= u64::MAX && 4 * width * height == 4 * (width * height))
        by (nonlinear_arith)
        requires
            width <= u32::MAX,
            height <= u32::MAX,
    ;
    let area: u64 = (width as u64) * (height as u64);
    let most: u64 = (isize::MAX as u64) / 4;
    if area <= most {
        Some((area * 4) as usize)
    } else {
        None
    }
}

impl View for CoverImage {
    type V = CoverView;

    closed spec fn view(&self) -> CoverView {
        CoverView { width: self.width, height: self.height, pixels: self.pixels@ }
    }
}

impl Clone for CoverImage {
    /// A copy with the same dimensions and the same pixels.
    fn clone(&self) -> (copy: Self)
        ensures
            copy@ == self@,
    {
        proof {
            use_type_invariant(self);
        }
        let pixels = self.pixels.clone();
        assert(pixels@ =~= self.pixels@);
        CoverImage { width: self.width, height: self.height, pixels }
    }
}

impl CoverImage {
    #[verifier::type_invariant]
    spec fn buffer_fits(self) -> bool {
        fits_rgba8(self.width, self.height, self.pixels@.len())
    }

    /// What holds of every cover image: the buffer matches the dimensions.
    pub open spec fn well_formed(&self) -> bool {
        fits_rgba8(self@.width, self@.height, self@.pixels.len())
    }

    /// Builds a cover from RGBA bytes, or refuses dimensions that no buffer
    /// can serve and a buffer of the wrong size.
    pub fn from_rgba8(width: u32, height: u32, pixels: Vec<u8>) -> (cover: Result<
        CoverImage,
        CoverError,
    >)
        ensures
            cover_view(cover) == cover_of(width, height, pixels@),
            cover matches Ok(c) ==> c.well_formed(),
    {
        match checked_rgba8_len(width, height) {
            None => Err(CoverError::TooLarge),
            Some(len) => if pixels.len() == len {
                Ok(CoverImage { width, height, pixels })
            } else {
                Err(CoverError::SizeMismatch)
            },
        }
    }

    /// The width in pixels.
    pub fn width(&self) -> (w: u32)
        ensures
            w == self@.width,
    {
        self.width
    }

    /// The height in pixels.
    pub fn height(&self) -> (h: u32)
        ensures
            h == self@.height,
    {
        self.height
    }

    /// The RGBA bytes, row by row: four for each pixel.
    pub fn pixels(&self) -> (bytes: &[u8])
        ensures
            bytes@ == self@.pixels,
            bytes@.len() == rgba8_len(self@.width, self@.height),
            self.well_formed(),
    {
        proof {
            use_type_invariant(self);
        }
        self.pixels.as_slice()
    }
}

/// The view of a cover, or the error in its place.
pub open spec fn cover_view(cover: Result<CoverImage, CoverError>) -> Result<
    CoverView,
    CoverError,
> {
    match cover {
        Ok(c) => Ok(c@),
        Err(e) => Err(e),
    }
}

/// The cover made of a decoded picture's dimensions and RGBA bytes: the
/// picture as it is, with its own width and height, unless the dimensions
/// are beyond any buffer or the buffer does not match them.
pub open spec fn cover_of(width: u32, height: u32, pixels: Seq<u8>) -> Result<
    CoverView,
    CoverError,
> {
    if !rgba8_allocatable(width, height) {
        Err(CoverError::TooLarge)
    } else if fits_rgba8(width, height, pixels.len()) {
        Ok(CoverView { width, height, pixels })
    } else {
        Err(CoverError::SizeMismatch)
    }
}

#[verifier::external_type_specification]
#[verifier::external_body]
pub struct ExDynamicImage(image::DynamicImage);

#[verifier::external_type_specification]
#[verifier::external_body]
pub struct ExImageError(image::ImageError);

/// The width of a decoded picture, in pixels.
pub uninterp spec fn image_width(picture: image::DynamicImage) -> u32;

/// The height of a decoded picture, in pixels.
pub uninterp spec fn image_height(picture: image::DynamicImage) -> u32;

/// The pixels of a decoded picture, converted to RGBA with eight bits to
/// the channel, as one buffer.
pub uninterp spec fn image_rgba8(picture: image::DynamicImage) -> Seq<u8>;

/// Calls `image::load_from_memory`, which guesses the format of `data` and
/// decodes it. Nothing is claimed of the outcome: which formats the decoder
/// knows is settled where the program is built and started, not by the
/// bytes alone.
#[verifier::external_body]
fn decode_picture(data: &[u8]) -> (picture: Result<image::DynamicImage, image::ImageError>) {
    image::load_from_memory(data)
}

/// Calls `image::DynamicImage::width`. Trusted: the answer depends on the
/// picture alone, so it is `image_width` of it.
#[verifier::external_body]
fn picture_width(picture: &image::DynamicImage) -> (width: u32)
    ensures
        width == image_width(*picture),
{
    picture.width()
}

/// Calls `image::DynamicImage::height`. Trusted: the answer depends on the
/// picture alone, so it is `image_height` of it.
#[verifier::external_body]
fn picture_height(picture: &image::DynamicImage) -> (height: u32)
    ensures
        height == image_height(*picture),
{
    picture.height()
}

/// Calls `image::DynamicImage::to_rgba8` and takes the raw buffer of the
/// copy it returns. The conversion allocates four bytes for each pixel and
/// panics where that is more than a buffer can hold, so such dimensions are
/// left out. Trusted: the answer depends on the picture alone, so it is
/// `image_rgba8` of it. Nothing is claimed of the buffer's length.
#[verifier::external_body]
fn picture_rgba8(picture: &image::DynamicImage) -> (pixels: Vec<u8>)
    requires
        rgba8_allocatable(image_width(*picture), image_height(*picture)),
    ensures
        pixels@ == image_rgba8(*picture),
{
    picture.to_rgba8().into_raw()
}

/// Makes the cover of a decoded picture: its RGBA pixels under its own
/// width and height.
pub fn cover_of_image(picture: &image::DynamicImage) -> (cover: Result<CoverImage, CoverError>)
    ensures
        cover_view(cover) == cover_of(
            image_width(*picture),
            image_height(*picture),
            image_rgba8(*picture),
        ),
        cover matches Ok(c) ==> c.well_formed(),
{
    let width = picture_width(picture);
    let height = picture_height(picture);
    if checked_rgba8_len(width, height).is_none() {
        return Err(CoverError::TooLarge);
    }
    let pixels = picture_rgba8(picture);
    CoverImage::from_rgba8(width, height, pixels)
}

/// Decodes an embedded picture and makes its cover. The decoder decides
/// whether the bytes are a picture; the answer is what `cover_of_decoded`
/// makes of the decoder's outcome.
pub fn render_cover_image(data: &[u8]) -> (cover: Result<CoverImage, CoverError>)
    ensures
        exists|outcome: Result<image::DynamicImage, image::ImageError>|
            cover_view(cover) == #[trigger] decoded_cover(outcome),
        cover matches Ok(c) ==> c.well_formed(),
{
    let outcome = decode_picture(data);
    let ghost decoded = outcome;
    let cover = cover_of_decoded(outcome);
    assert(cover_view(cover) == decoded_cover(decoded));
    cover
}

/// The cover that a decoder's outcome gives: `Undecodable` where the
/// decoder refused the bytes, else the cover of the picture it decoded.
pub open spec fn decoded_cover(outcome: Result<image::DynamicImage, image::ImageError>) -> Result<
    CoverView,
    CoverError,
> {
    match outcome {
        Ok(picture) => cover_of(
            image_width(picture),
            image_height(picture),
            image_rgba8(picture),
        ),
        Err(_) => Err(CoverError::Undecodable),
    }
}

/// Makes the cover of what the decoder answered, whatever it answered.
pub fn cover_of_decoded(outcome: Result<image::DynamicImage, image::ImageError>) -> (cover: Result<
    CoverImage,
    CoverError,
>)
    ensures
        cover_view(cover) == decoded_cover(outcome),
        cover matches Ok(c) ==> c.well_formed(),
{
    match outcome {
        Ok(picture) => cover_of_image(&picture),
        Err(_) => Err(CoverError::Undecodable),
    }
}

/// A cover has the pixel dimensions of the decoded picture it was made
/// from, and its pixels; and there is a cover exactly where the buffer
/// holds four bytes for each pixel and is no larger than a buffer can be.
pub proof fn lemma_cover_keeps_dimensions(width: u32, height: u32, pixels: Seq<u8>)
    ensures
        cover_of(width, height, pixels) matches Ok(cover) ==> cover.width == width && cover.height
            == height && cover.pixels == pixels,
        cover_of(width, height, pixels).is_ok() <==> pixels.len() == 4 * width * height
            && pixels.len() <= isize::MAX,
{
}

} // verus!
