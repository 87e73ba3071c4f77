//! The output containers and file names of a run, and the lossless PNG
//! encoding of a packed texture.

use crate::raster::{encode_png, image_error_text, png_of, RgbaImage};
use vstd::prelude::*;

verus! {

/// The container that the two packed textures are written in.
#[derive(Debug, Clone, Copy, PartialEq, Eq, Structural)]
pub enum OutputFormat {
    Png,
    Dds,
}

impl Default for OutputFormat {
    fn default() -> (r: Self)
        ensures
            r == OutputFormat::Png,
    {
        OutputFormat::Png
    }
}

/// The two textures that a run writes.
#[derive(Debug, Clone, Copy, PartialEq, Eq, Structural)]
pub enum PackedTexture {
    Albedo,
    Normal,
}

pub open spec fn file_name_spec(texture: PackedTexture, format: OutputFormat) -> Seq<char> {
    match (texture, format) {
        (PackedTexture::Albedo, OutputFormat::Png) => "albedo.png"@,
        (PackedTexture::Albedo, OutputFormat::Dds) => "albedo.dds"@,
        (PackedTexture::Normal, OutputFormat::Png) => "normal.png"@,
        (PackedTexture::Normal, OutputFormat::Dds) => "normal.dds"@,
    }
}

/// The name of the file that holds `texture` in the output directory.
pub fn output_file_name(texture: PackedTexture, format: OutputFormat) -> (r: String)
    ensures
        r@ == file_name_spec(texture, format),
{
    match (texture, format) {
        (PackedTexture::Albedo, OutputFormat::Png) => "albedo.png".to_string(),
        (PackedTexture::Albedo, OutputFormat::Dds) => "albedo.dds".to_string(),
        (PackedTexture::Normal, OutputFormat::Png) => "normal.png".to_string(),
        (PackedTexture::Normal, OutputFormat::Dds) => "normal.dds".to_string(),
    }
}

/// The bytes of a PNG file of `img`, or the encoder's message: the codec's
/// lossless stream of the samples.
pub fn encode_png_file(img: &RgbaImage) -> (r: Result<Vec<u8>, String>)
    requires
        img.wf(),
    ensures
        r matches Ok(b) ==> b@ == png_of(img.data@, img.width, img.height),
        0 < img.width <= 0x7fff_ffff && 0 < img.height <= 0x7fff_ffff ==> r is Ok,
{
    match encode_png(img) {
        Err(e) => Err(image_error_text(&e)),
        Ok(b) => Ok(b),
    }
}

} // verus!
