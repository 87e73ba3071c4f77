//! An 8-bit RGBA pixel grid, and the image codec calls that read, convert,
//! resample and encode it.

use vstd::prelude::*;

verus! {

#[verifier::external_type_specification]
#[verifier::external_body]
pub struct ExImageError(image::ImageError);

/// A decoded image: `width` by `height` pixels, four bytes (R, G, B, A) per
/// pixel, row by row from the top left.
#[derive(Debug, Clone)]
pub struct RgbaImage {
    pub width: u32,
    pub height: u32,
    pub data: Vec<u8>,
}

impl RgbaImage {
    /// The buffer holds exactly four bytes per pixel.
    pub open spec fn wf(&self) -> bool {
        self.data@.len() == 4 * (self.width as int) * (self.height as int)
    }

    pub open spec fn pixel_count(&self) -> int {
        (self.width as int) * (self.height as int)
    }

    /// Wraps `data` as a `width` by `height` image, or `None` where its length
    /// is not four bytes per pixel.
    pub fn from_raw(width: u32, height: u32, data: Vec<u8>) -> (r: Option<RgbaImage>)
        ensures
            r is Some <==> data@.len() == 4 * (width as int) * (height as int),
            r matches Some(img) ==> img.width == width && img.height == height && img.data@
                == data@,
    {
        proof {
            assert((width as int) * (height as int) <= 0xffff_ffff * 0xffff_ffff) by (nonlinear_arith);
        }
        let pixels: u64 = width as u64 * height as u64;
        let len: usize = data.len();
        proof {
            assert(4 * (width as int) * (height as int) == 4 * (pixels as int)) by (nonlinear_arith)
                requires
                    pixels == (width as int) * (height as int),
            ;
        }
        if len % 4 == 0 && (len / 4) as u64 == pixels {
            Some(RgbaImage { width, height, data })
        } else {
            None
        }
    }
}

impl RgbaImage {
    /// A copy with the same size and samples.
    pub fn duplicate(&self) -> (r: RgbaImage)
        ensures
            r.width == self.width,
            r.height == self.height,
            r.data@ == self.data@,
    {
        let mut data: Vec<u8> = Vec::with_capacity(self.data.len());
        let mut i: usize = 0;
        while i < self.data.len()
            invariant
                i <= self.data@.len(),
                data@ == self.data@.subrange(0, i as int),
            decreases self.data@.len() - i,
        {
            data.push(self.data[i]);
            i = i + 1;
            assert(data@ =~= self.data@.subrange(0, i as int));
        }
        assert(data@ =~= self.data@);
        RgbaImage { width: self.width, height: self.height, data }
    }

    /// Whether the image holds four bytes per pixel and meets the validator's
    /// rules.
    pub fn is_valid_source(&self) -> (r: bool)
        ensures
            r == (self.wf() && crate::validate::valid_dimensions(self.width, self.height)),
    {
        proof {
            assert((self.width as int) * (self.height as int) <= 0xffff_ffff * 0xffff_ffff)
                by (nonlinear_arith);
        }
        let pixels: u64 = self.width as u64 * self.height as u64;
        let len: usize = self.data.len();
        proof {
            assert(4 * (self.width as int) * (self.height as int) == 4 * (pixels as int))
                by (nonlinear_arith)
                requires
                    pixels == (self.width as int) * (self.height as int),
            ;
        }
        if len % 4 != 0 || (len / 4) as u64 != pixels {
            return false;
        }
        match crate::validate::validate_dimensions(self.width, self.height) {
            Ok(()) => true,
            Err(_) => false,
        }
    }
}

/// The luminance buffer that the codec derives from an RGBA buffer.
pub uninterp spec fn luma_of(rgba: Seq<u8>) -> Seq<u8>;

/// The `side` by `side` nearest-neighbour resampling that the codec makes of a
/// `width` by `height` RGBA buffer.
pub uninterp spec fn nearest_resample_of(rgba: Seq<u8>, width: u32, height: u32, side: u32) -> Seq<u8>;

/// The PNG stream that the codec writes for a `width` by `height` RGBA buffer.
pub uninterp spec fn png_of(rgba: Seq<u8>, width: u32, height: u32) -> Seq<u8>;

/// The width, height and RGBA samples that the codec decodes from a file's
/// bytes, or `None` where it cannot decode them.
pub uninterp spec fn decoded_of(bytes: Seq<u8>) -> Option<(u32, u32, Seq<u8>)>;

/// Relies on `image::load_from_memory`, which guesses the format from the
/// bytes and decodes them, and on `DynamicImage::to_rgba8`, whose buffer holds
/// four bytes for each pixel of the decoded image.
#[verifier::external_body]
pub(crate) fn decode_rgba(bytes: &[u8]) -> (r: Result<RgbaImage, image::ImageError>)
    ensures
        r is Ok <==> decoded_of(bytes@) is Some,
        r matches Ok(img) ==> img.wf() && decoded_of(bytes@) == Some(
            (img.width, img.height, img.data@),
        ),
{
    let img = image::load_from_memory(bytes)?.to_rgba8();
    Ok(RgbaImage { width: img.width(), height: img.height(), data: img.into_raw() })
}

/// Relies on `DynamicImage::to_luma8`: one luminance byte per RGBA pixel, the
/// result a function of the samples alone.
#[verifier::external_body]
pub(crate) fn to_luma(img: &RgbaImage) -> (r: Vec<u8>)
    requires
        img.wf(),
    ensures
        r@ == luma_of(img.data@),
        r@.len() == img.pixel_count(),
{
    let buf = image::RgbaImage::from_raw(img.width, img.height, img.data.clone()).unwrap();
    image::DynamicImage::ImageRgba8(buf).to_luma8().into_raw()
}

/// Relies on `DynamicImage::resize_exact` with the `Nearest` filter: a
/// `side` by `side` buffer, and a plain copy where the size is already that.
#[verifier::external_body]
pub(crate) fn resize_nearest(img: &RgbaImage, side: u32) -> (r: Vec<u8>)
    requires
        img.wf(),
        img.width > 0,
        img.height > 0,
        0 < side <= 16384,
    ensures
        r@ == nearest_resample_of(img.data@, img.width, img.height, side),
        r@.len() == 4 * (side as int) * (side as int),
        img.width == side && img.height == side ==> r@ == img.data@,
{
    let buf = image::RgbaImage::from_raw(img.width, img.height, img.data.clone()).unwrap();
    let dynamic = image::DynamicImage::ImageRgba8(buf);
    dynamic.resize_exact(side, side, image::imageops::FilterType::Nearest).to_rgba8().into_raw()
}

/// Relies on `PngEncoder::write_image`, which writes one PNG stream of the
/// RGBA8 samples into the buffer it was made with.
#[verifier::external_body]
pub(crate) fn encode_png(img: &RgbaImage) -> (r: Result<Vec<u8>, image::ImageError>)
    requires
        img.wf(),
    ensures
        r matches Ok(b) ==> b@ == png_of(img.data@, img.width, img.height),
        0 < img.width <= 0x7fff_ffff && 0 < img.height <= 0x7fff_ffff ==> r is Ok,
{
    let mut out: Vec<u8> = Vec::new();
    let encoder = image::codecs::png::PngEncoder::new(&mut out);
    image::ImageEncoder::write_image(encoder, &img.data, img.width, img.height, image::ExtendedColorType::Rgba8)?;
    Ok(out)
}

/// Relies on `ImageError`'s `Display` impl for a readable message.
#[verifier::external_body]
pub(crate) fn image_error_text(e: &image::ImageError) -> (r: String) {
    e.to_string()
}

} // verus!
