//! Pictures: decoding, stretching and encoding, done by the `image` crate.

use vstd::prelude::*;
use image::imageops::FilterType;
use image::{DynamicImage, GenericImageView, ImageError, ImageFormat};
use crate::factor::ScaleFactor;
use crate::mode::StretchType;
use crate::policy::{resize_target, target_size};

verus! {

/// A decoded picture of the `image` crate. Nothing of it is visible here but
/// what the functions below say.
#[verifier::external_type_specification]
#[verifier::external_body]
pub struct ExDynamicImage(image::DynamicImage);

/// The error of the `image` crate.
#[verifier::external_type_specification]
#[verifier::external_body]
pub struct ExImageError(image::ImageError);

/// The resampling filters of the `image` crate.
#[verifier::external_type_specification]
pub struct ExFilterType(image::imageops::FilterType);

/// The file formats of the `image` crate.
#[verifier::external_type_specification]
pub struct ExImageFormat(image::ImageFormat);

/// Width and height of a decoded picture, in pixels: what
/// `image::GenericImageView::dimensions` returns for it.
pub uninterp spec fn picture_size(picture: image::DynamicImage) -> (u32, u32);

/// A picture resampled to `width` by `height` pixels, each new pixel taken
/// from the nearest old one: what `image::DynamicImage::resize_exact`
/// returns for it with the nearest-neighbour filter.
pub uninterp spec fn resampled(picture: image::DynamicImage, width: u32, height: u32) -> image::DynamicImage;

/// The bytes of a picture as a PNG file: what
/// `image::DynamicImage::write_to` writes for it in that format.
pub uninterp spec fn png_bytes(picture: image::DynamicImage) -> Seq<u8>;

/// Whether a buffer of `w` by `h` pixels of sixteen bytes, the widest pixel
/// there is, can be asked for: a vector holds at most `isize::MAX` bytes.
pub open spec fn buffer_fits(w: int, h: int) -> bool {
    16 * w * h <= isize::MAX
}

/// Decodes a picture from the bytes of a file, guessing the format from its
/// first bytes.
///
/// Calls `image::load_from_memory`. Nothing is claimed of the outcome: which
/// bytes are a picture is for the codecs to say.
#[verifier::external_body]
fn load(data: &[u8]) -> (r: Result<DynamicImage, ImageError>) {
    image::load_from_memory(data)
}

/// Width and height of a picture.
///
/// Calls `image::GenericImageView::dimensions` and names what it returns.
#[verifier::external_body]
fn dimensions(picture: &DynamicImage) -> (size: (u32, u32))
    ensures
        size == picture_size(*picture),
{
    picture.dimensions()
}

/// A copy of the picture resampled to `width` by `height` pixels, each new
/// pixel taken from the nearest old one.
///
/// Calls `image::DynamicImage::resize_exact`. The contract claims what its
/// documentation says, that the two numbers are the new picture's
/// dimensions, and names the new picture: the method computes it from the
/// old picture and the two numbers alone. It is stated for the
/// nearest-neighbour filter alone, and leaves out the sizes on which the
/// buffers that the method makes would pass the length of a vector, where
/// it panics: one of the old width by the new height, one of the new width
/// by the new height. Whether the machine has that much memory is beyond
/// any contract.
#[verifier::external_body]
fn resize(picture: &DynamicImage, width: u32, height: u32, filter: FilterType) -> (resized: DynamicImage)
    requires
        filter is Nearest,
        buffer_fits(picture_size(*picture).0 as int, height as int),
        buffer_fits(width as int, height as int),
    ensures
        resized == resampled(*picture, width, height),
        picture_size(resized) == (width, height),
{
    picture.resize_exact(width, height, filter)
}

/// The picture as the bytes of a PNG file.
///
/// Calls `image::DynamicImage::write_to` on an empty buffer and hands the
/// buffer out. The contract is stated for the PNG format alone. It does not
/// say when the writing comes off; it names the file that then comes back,
/// since the PNG encoder works from the picture alone, with fixed settings
/// and without a clock, chance or the order of a hash.
#[verifier::external_body]
fn encode(picture: &DynamicImage, format: ImageFormat) -> (r: Result<Vec<u8>, ImageError>)
    requires
        format is Png,
    ensures
        r matches Ok(file) ==> file@ == png_bytes(*picture),
{
    let mut buffer = std::io::Cursor::new(Vec::new());
    picture.write_to(&mut buffer, format)?;
    Ok(buffer.into_inner())
}

/// A decoded picture.
pub struct Picture {
    image: DynamicImage,
}

/// Why a picture could not be stretched.
#[derive(Debug)]
pub enum PictureError {
    /// The bytes are no picture in a format that is known here.
    Decode(ImageError),
    /// The stretched picture of one of this width and height would be wider
    /// or higher than `u32::MAX` pixels, or take more bytes than a buffer
    /// holds.
    TooLarge { width: u32, height: u32 },
    /// The stretched picture could not be written as a file.
    Encode(ImageError),
}

/// A stretched picture as a PNG file, with its size before and after.
pub struct Stretched {
    pub png: Vec<u8>,
    pub from: (u32, u32),
    pub to: (u32, u32),
}

/// The size that a picture of size `from` is resampled to for a stretch of
/// kind `mode`: the policy's target, or `None` where there is none or where
/// the buffers for it cannot be asked for.
pub open spec fn picture_target(
    from: (u32, u32),
    mode: StretchType,
    width_modifier: ScaleFactor,
    height_modifier: ScaleFactor,
) -> Option<(u32, u32)> {
    match resize_target(mode, from.0, from.1, width_modifier, height_modifier) {
        Some(to) => if buffer_fits(from.0 as int, to.1 as int) && buffer_fits(to.0 as int, to.1 as int) {
            Some(to)
        } else {
            None
        },
        None => None,
    }
}

/// Whether `buffer_fits(w, h)` holds.
fn fits(w: u32, h: u32) -> (r: bool)
    ensures
        r == buffer_fits(w as int, h as int),
{
    assert(16 * w * h <= 0x10_0000_0000_0000_0000) by (nonlinear_arith)
        requires
            w <= 0xffff_ffff,
            h <= 0xffff_ffff,
    ;
    16 * (w as u128) * (h as u128) <= isize::MAX as u128
}

impl Picture {
    /// Width and height of the picture, in pixels.
    pub closed spec fn size(self) -> (u32, u32) {
        picture_size(self.image)
    }

    /// Decodes a picture from the bytes of a file in any format that is
    /// known here, told by the file's first bytes.
    pub fn decode(data: &[u8]) -> (r: Result<Picture, PictureError>)
        ensures
            r matches Err(e) ==> e is Decode,
    {
        let decoding: Result<DynamicImage, ImageError> = load(data);
        Picture::from_decoding(decoding)
    }

    /// The picture's width in pixels.
    pub fn width(&self) -> (w: u32)
        ensures
            w == self.size().0,
    {
        dimensions(&self.image).0
    }

    /// The picture's height in pixels.
    pub fn height(&self) -> (h: u32)
        ensures
            h == self.size().1,
    {
        dimensions(&self.image).1
    }

    /// The picture stretched as `mode` says, by the modifiers that were
    /// drawn for it: resampled without interpolation to the target size of
    /// the policy. Where there is no such size, or the buffers for it cannot
    /// be asked for, the picture is too large.
    pub fn stretch(
        &self,
        mode: StretchType,
        width_modifier: ScaleFactor,
        height_modifier: ScaleFactor,
    ) -> (r: Result<Picture, PictureError>)
        ensures
            match picture_target(self.size(), mode, width_modifier, height_modifier) {
                Some(to) => {
                    &&& r matches Ok(stretched)
                    &&& stretched.image() == resampled(self.image(), to.0, to.1)
                    &&& stretched.size() == to
                },
                None => r == Err::<Picture, PictureError>(
                    PictureError::TooLarge { width: self.size().0, height: self.size().1 },
                ),
            },
    {
        match self.target(mode, width_modifier, height_modifier) {
            Some((w, h)) => Ok(Picture { image: resize(&self.image, w, h, FilterType::Nearest) }),
            None => {
                let (width, height): (u32, u32) = dimensions(&self.image);
                Err(PictureError::TooLarge { width, height })
            },
        }
    }

    /// The picture as the bytes of a PNG file.
    pub fn encode_png(&self) -> (r: Result<Vec<u8>, PictureError>)
        ensures
            r matches Ok(file) ==> file@ == png_bytes(self.image()),
            r matches Err(e) ==> e is Encode,
    {
        let encoding: Result<Vec<u8>, ImageError> = encode(&self.image, ImageFormat::Png);
        from_encoding(encoding)
    }

    /// The picture as the codec holds it.
    pub closed spec fn image(self) -> DynamicImage {
        self.image
    }

    /// The size that this picture is resampled to for a stretch of kind
    /// `mode` with the modifiers that were drawn for it; `None` where the
    /// picture is too large for that stretch.
    pub fn target(
        &self,
        mode: StretchType,
        width_modifier: ScaleFactor,
        height_modifier: ScaleFactor,
    ) -> (r: Option<(u32, u32)>)
        ensures
            r == picture_target(self.size(), mode, width_modifier, height_modifier),
    {
        let (width, height): (u32, u32) = dimensions(&self.image);
        match target_size(mode, width, height, width_modifier, height_modifier) {
            Some((w, h)) => if fits(width, h) && fits(w, h) {
                Some((w, h))
            } else {
                None
            },
            None => None,
        }
    }

    /// What a decoding comes to: the picture that the codec made, as it
    /// made it, or the codec's error as the reason why there is none.
    pub fn from_decoding(decoding: Result<DynamicImage, ImageError>) -> (r: Result<Picture, PictureError>)
        ensures
            match decoding {
                Ok(image) => r matches Ok(picture) && picture.image() == image && picture.size()
                    == picture_size(image),
                Err(e) => r == Err::<Picture, PictureError>(PictureError::Decode(e)),
            },
    {
        match decoding {
            Ok(image) => Ok(Picture { image }),
            Err(e) => Err(PictureError::Decode(e)),
        }
    }
}

/// What an encoding comes to: the file that the codec wrote, byte for byte,
/// or the codec's error as the reason why there is none.
pub fn from_encoding(encoding: Result<Vec<u8>, ImageError>) -> (r: Result<Vec<u8>, PictureError>)
    ensures
        match encoding {
            Ok(file) => r == Ok::<Vec<u8>, PictureError>(file),
            Err(e) => r == Err::<Vec<u8>, PictureError>(PictureError::Encode(e)),
        },
{
    match encoding {
        Ok(file) => Ok(file),
        Err(e) => Err(PictureError::Encode(e)),
    }
}

/// Stretches a decoded picture as `mode` says by the modifiers that were
/// drawn for it, and encodes the result as a PNG file.
///
/// A picture with a target size is resampled to exactly that size, and
/// nothing but the encoding can then fail; one without is refused as too
/// large.
pub fn stretch_decoded(
    picture: &Picture,
    mode: StretchType,
    width_modifier: ScaleFactor,
    height_modifier: ScaleFactor,
) -> (r: Result<Stretched, PictureError>)
    ensures
        match picture_target(picture.size(), mode, width_modifier, height_modifier) {
            Some(to) => match r {
                Ok(done) => {
                    &&& done.from == picture.size()
                    &&& done.to == to
                    &&& done.png@ == png_bytes(resampled(picture.image(), to.0, to.1))
                },
                Err(e) => e is Encode,
            },
            None => r == Err::<Stretched, PictureError>(
                PictureError::TooLarge { width: picture.size().0, height: picture.size().1 },
            ),
        },
{
    let from: (u32, u32) = (picture.width(), picture.height());
    let stretched: Picture = match picture.stretch(mode, width_modifier, height_modifier) {
        Ok(stretched) => stretched,
        Err(e) => {
            return Err(e);
        },
    };
    let to: (u32, u32) = (stretched.width(), stretched.height());
    match stretched.encode_png() {
        Ok(png) => Ok(Stretched { png, from, to }),
        Err(e) => Err(e),
    }
}

/// Decodes the picture in `data`, stretches it as `mode` says by the
/// modifiers that were drawn for it, and encodes the result as a PNG file.
///
/// Whatever the codec does with the bytes, a result that comes back has the
/// target size of the policy for the size that was decoded, and a picture is
/// refused as too large only where it has no such size.
pub fn stretch_picture(
    data: &[u8],
    mode: StretchType,
    width_modifier: ScaleFactor,
    height_modifier: ScaleFactor,
) -> (r: Result<Stretched, PictureError>)
    ensures
        r matches Ok(done) ==> picture_target(done.from, mode, width_modifier, height_modifier) == Some(
            done.to,
        ),
        r matches Ok(done) ==> exists|decoded: DynamicImage|
            picture_size(decoded) == done.from && done.png@ == png_bytes(
                #[trigger] resampled(decoded, done.to.0, done.to.1),
            ),
        r matches Err(PictureError::TooLarge { width, height }) ==> picture_target(
            (width, height),
            mode,
            width_modifier,
            height_modifier,
        ) is None,
{
    match Picture::decode(data) {
        Ok(picture) => {
            let r = stretch_decoded(&picture, mode, width_modifier, height_modifier);
            proof {
                if r is Ok {
                    let done = r->Ok_0;
                    let decoded = picture.image();
                    assert(picture_size(decoded) == done.from && done.png@ == png_bytes(
                        resampled(decoded, done.to.0, done.to.1),
                    ));
                }
            }
            r
        },
        Err(e) => Err(e),
    }
}

} // verus!
