//! Turning decoded bytes into a validated source image and its fixed-size
//! preview.

use crate::raster::{decode_rgba, decoded_of, image_error_text, nearest_resample_of, resize_nearest, RgbaImage};
use crate::validate::{valid_dimensions, validate_dimensions, validation_spec, ImageValidationError};
use vstd::arithmetic::power2::{lemma2_to64, pow2};
use vstd::prelude::*;

verus! {

/// The side of the display copy of every source image.
pub const PREVIEW_SIDE: u32 = 512;

/// A validated source image at full resolution, with its display copy.
#[derive(Debug, Clone)]
pub struct ProcessedImage {
    pub original: RgbaImage,
    pub preview: RgbaImage,
}

impl ProcessedImage {
    pub open spec fn wf(&self) -> bool {
        &&& self.original.wf()
        &&& valid_dimensions(self.original.width, self.original.height)
        &&& self.preview.wf()
        &&& self.preview.width == PREVIEW_SIDE
        &&& self.preview.height == PREVIEW_SIDE
        &&& self.preview.data@ == nearest_resample_of(
            self.original.data@,
            self.original.width,
            self.original.height,
            PREVIEW_SIDE,
        )
    }
}

/// Why a file could not become a source image.
#[derive(Debug, Clone)]
pub enum LoadError {
    /// The codec could not decode the bytes; its message.
    Decode(String),
    /// The decoded image breaks a rule of the validator.
    Invalid(ImageValidationError),
}

impl LoadError {
    pub open spec fn message_spec(&self) -> Seq<char> {
        match self {
            LoadError::Decode(m) => m@,
            LoadError::Invalid(e) => e.message_spec(),
        }
    }

    /// A sentence for the user.
    pub fn message(&self) -> (r: String)
        ensures
            r@ == self.message_spec(),
    {
        match self {
            LoadError::Decode(m) => m.clone(),
            LoadError::Invalid(e) => e.message(),
        }
    }
}

/// The 512 by 512 nearest-neighbour copy of a validated image, for display.
/// The image itself is only read.
pub fn reduce(img: &RgbaImage) -> (r: RgbaImage)
    requires
        img.wf(),
        valid_dimensions(img.width, img.height),
    ensures
        r.wf(),
        r.width == PREVIEW_SIDE,
        r.height == PREVIEW_SIDE,
        r.data@ == nearest_resample_of(img.data@, img.width, img.height, PREVIEW_SIDE),
        img.width == PREVIEW_SIDE && img.height == PREVIEW_SIDE ==> r.data@ == img.data@,
{
    let data = resize_nearest(img, PREVIEW_SIDE);
    RgbaImage { width: PREVIEW_SIDE, height: PREVIEW_SIDE, data }
}

/// Reducing is stable in size: every preview meets the validator's rules, so
/// it may be reduced again, and that gives a 512 by 512 image once more, with
/// the same pixels.
pub proof fn lemma_preview_reducible(preview: RgbaImage)
    requires
        preview.wf(),
        preview.width == PREVIEW_SIDE,
        preview.height == PREVIEW_SIDE,
    ensures
        valid_dimensions(preview.width, preview.height),
{
    lemma2_to64();
    assert(pow2(9) == 512);
}

/// Validates a decoded image and makes its preview.
pub fn prepare_image(img: RgbaImage) -> (r: Result<ProcessedImage, ImageValidationError>)
    requires
        img.wf(),
    ensures
        match validation_spec(img.width, img.height) {
            Err(e) => r == Err::<ProcessedImage, ImageValidationError>(e),
            Ok(_) => r matches Ok(p) && p.wf() && p.original == img,
        },
{
    validate_dimensions(img.width, img.height)?;
    let preview = reduce(&img);
    Ok(ProcessedImage { original: img, preview })
}

/// Decodes an image file's bytes, validates the image and makes its preview.
pub fn load_image(bytes: &[u8]) -> (r: Result<ProcessedImage, LoadError>)
    ensures
        match decoded_of(bytes@) {
            None => r matches Err(LoadError::Decode(_)),
            Some(d) => match validation_spec(d.0, d.1) {
                Err(e) => r == Err::<ProcessedImage, LoadError>(LoadError::Invalid(e)),
                Ok(_) => r matches Ok(p) && p.wf() && p.original.width == d.0
                    && p.original.height == d.1 && p.original.data@ == d.2,
            },
        },
{
    match decode_rgba(bytes) {
        Err(e) => Err(LoadError::Decode(image_error_text(&e))),
        Ok(img) => match prepare_image(img) {
            Ok(p) => Ok(p),
            Err(e) => Err(LoadError::Invalid(e)),
        },
    }
}

} // verus!
