//! One run: checks the inputs of a job, packs its two textures, and for PNG
//! output serialises them, ready to be written into the output directory.

use crate::compose::{
    albedo_channel, compose_albedo, compose_normal, first_mismatch, luma_view, normal_channel,
    CompositeError,
};
use crate::container::{encode_png_file, file_name_spec, output_file_name, OutputFormat, PackedTexture};
use crate::raster::{png_of, RgbaImage};
use crate::session::{source_ok, InputSlot, RunJob};
use crate::validate::valid_dimensions;
use vstd::prelude::*;

verus! {

/// One file of a run's output: its name in the output directory and its bytes.
#[derive(Debug)]
pub struct RenderedFile {
    pub name: String,
    pub bytes: Vec<u8>,
}

/// The two packed textures of a run.
#[derive(Debug)]
pub struct PackedTextures {
    pub albedo: RgbaImage,
    pub normal: RgbaImage,
}

/// The two files of a run.
#[derive(Debug)]
pub struct RenderedOutputs {
    pub albedo: RenderedFile,
    pub normal: RenderedFile,
}

/// Why a run produced no files.
#[derive(Debug, Clone)]
pub enum RunError {
    /// An input of the job is not a valid source image.
    InvalidSource(InputSlot),
    /// An optional input does not match its primary image in size.
    Composite(CompositeError),
    /// The container writer failed on a texture, with its message.
    Encode(PackedTexture, String),
}

pub open spec fn opt_ref(o: &Option<RgbaImage>) -> Option<&RgbaImage> {
    match o {
        Some(i) => Some(i),
        None => None,
    }
}

fn borrow_image(o: &Option<RgbaImage>) -> (r: Option<&RgbaImage>)
    ensures
        r == opt_ref(o),
{
    match o {
        Some(i) => Some(i),
        None => None,
    }
}

pub open spec fn opt_source_ok(o: &Option<RgbaImage>) -> bool {
    o matches Some(i) ==> source_ok(*i)
}

/// The first input of the job, in slot order, that is not a valid source.
pub open spec fn first_invalid(job: &RunJob) -> Option<InputSlot> {
    if !source_ok(job.albedo) {
        Some(InputSlot::Albedo)
    } else if !opt_source_ok(&job.ambient_occlusion) {
        Some(InputSlot::AmbientOcclusion)
    } else if !opt_source_ok(&job.height) {
        Some(InputSlot::Height)
    } else if !source_ok(job.normal) {
        Some(InputSlot::Normal)
    } else if !opt_source_ok(&job.roughness) {
        Some(InputSlot::Roughness)
    } else {
        None
    }
}

/// The first size mismatch of the job: the albedo's inputs, then the normal
/// map's.
pub open spec fn job_mismatch(job: &RunJob) -> Option<InputSlot> {
    match first_mismatch(
        &job.albedo,
        opt_ref(&job.ambient_occlusion),
        InputSlot::AmbientOcclusion,
        opt_ref(&job.height),
        InputSlot::Height,
    ) {
        Some(s) => Some(s),
        None => first_mismatch(
            &job.normal,
            opt_ref(&job.roughness),
            InputSlot::Roughness,
            None,
            InputSlot::Roughness,
        ),
    }
}

/// The samples of the packed albedo texture of a job.
pub open spec fn packed_albedo(job: &RunJob) -> Seq<u8> {
    Seq::new(
        job.albedo.data@.len(),
        |k: int|
            albedo_channel(
                job.albedo.data@,
                luma_view(opt_ref(&job.ambient_occlusion)),
                luma_view(opt_ref(&job.height)),
                k,
            ),
    )
}

/// The samples of the packed normal texture of a job.
pub open spec fn packed_normal(job: &RunJob) -> Seq<u8> {
    Seq::new(
        job.normal.data@.len(),
        |k: int|
            normal_channel(
                job.normal.data@,
                job.normal_format,
                luma_view(opt_ref(&job.roughness)),
                job.roughness_format,
                k,
            ),
    )
}

fn check_source(img: &RgbaImage, slot: InputSlot) -> (r: Result<(), RunError>)
    ensures
        source_ok(*img) ==> r is Ok,
        !source_ok(*img) ==> (r matches Err(RunError::InvalidSource(s)) && s == slot),
{
    if img.is_valid_source() {
        Ok(())
    } else {
        Err(RunError::InvalidSource(slot))
    }
}

fn check_optional(img: &Option<RgbaImage>, slot: InputSlot) -> (r: Result<(), RunError>)
    ensures
        opt_source_ok(img) ==> r is Ok,
        !opt_source_ok(img) ==> (r matches Err(RunError::InvalidSource(s)) && s == slot),
{
    match img {
        Some(i) => check_source(i, slot),
        None => Ok(()),
    }
}

fn encode_texture(img: &RgbaImage, texture: PackedTexture) -> (r: Result<RenderedFile, RunError>)
    requires
        img.wf(),
    ensures
        r matches Ok(f) ==> f.name@ == file_name_spec(texture, OutputFormat::Png) && f.bytes@
            == png_of(img.data@, img.width, img.height),
        r matches Err(e) ==> (e matches RunError::Encode(t, _) && t == texture),
        0 < img.width <= 0x7fff_ffff && 0 < img.height <= 0x7fff_ffff ==> r is Ok,
{
    match encode_png_file(img) {
        Ok(bytes) => Ok(RenderedFile { name: output_file_name(texture, OutputFormat::Png), bytes }),
        Err(m) => Err(RunError::Encode(texture, m)),
    }
}

/// Both packed textures fit the PNG encoder's limit on a side.
pub open spec fn png_sized(job: &RunJob) -> bool {
    job.albedo.width <= 0x7fff_ffff && job.normal.width <= 0x7fff_ffff
}

/// Checks the inputs of `job` in slot order, then their sizes, and packs the
/// albedo and the normal texture.
pub fn pack_textures(job: &RunJob) -> (r: Result<PackedTextures, RunError>)
    ensures
        match first_invalid(job) {
            Some(s) => r matches Err(RunError::InvalidSource(x)) && x == s,
            None => match job_mismatch(job) {
                Some(s) => r matches Err(RunError::Composite(CompositeError::DimensionMismatch(x)))
                    && x == s,
                None => r matches Ok(p) && {
                    &&& p.albedo.wf()
                    &&& p.albedo.width == job.albedo.width
                    &&& p.albedo.height == job.albedo.height
                    &&& p.albedo.data@ == packed_albedo(job)
                    &&& p.normal.wf()
                    &&& p.normal.width == job.normal.width
                    &&& p.normal.height == job.normal.height
                    &&& p.normal.data@ == packed_normal(job)
                    &&& valid_dimensions(p.albedo.width, p.albedo.height)
                    &&& valid_dimensions(p.normal.width, p.normal.height)
                },
            },
        },
{
    check_source(&job.albedo, InputSlot::Albedo)?;
    check_optional(&job.ambient_occlusion, InputSlot::AmbientOcclusion)?;
    check_optional(&job.height, InputSlot::Height)?;
    check_source(&job.normal, InputSlot::Normal)?;
    check_optional(&job.roughness, InputSlot::Roughness)?;
    let albedo = match compose_albedo(
        &job.albedo,
        borrow_image(&job.ambient_occlusion),
        borrow_image(&job.height),
    ) {
        Ok(a) => a,
        Err(e) => return Err(RunError::Composite(e)),
    };
    let normal = match compose_normal(
        &job.normal,
        job.normal_format,
        borrow_image(&job.roughness),
        job.roughness_format,
    ) {
        Ok(n) => n,
        Err(e) => return Err(RunError::Composite(e)),
    };
    assert(albedo.data@ =~= packed_albedo(job));
    assert(normal.data@ =~= packed_normal(job));
    Ok(PackedTextures { albedo, normal })
}

/// Packs both textures of `job` and encodes them as PNG files, albedo first;
/// the first failure ends the run. Where the inputs are fine and no side
/// exceeds `0x7fff_ffff`, it succeeds.
pub fn render_png_outputs(job: &RunJob) -> (r: Result<RenderedOutputs, RunError>)
    ensures
        match first_invalid(job) {
            Some(s) => r matches Err(RunError::InvalidSource(x)) && x == s,
            None => match job_mismatch(job) {
                Some(s) => r matches Err(RunError::Composite(CompositeError::DimensionMismatch(x)))
                    && x == s,
                None => {
                    &&& png_sized(job) ==> r is Ok
                    &&& match r {
                        Err(e) => e matches RunError::Encode(_, _),
                        Ok(out) => {
                            &&& out.albedo.name@ == file_name_spec(PackedTexture::Albedo, OutputFormat::Png)
                            &&& out.normal.name@ == file_name_spec(PackedTexture::Normal, OutputFormat::Png)
                            &&& out.albedo.bytes@ == png_of(
                                packed_albedo(job),
                                job.albedo.width,
                                job.albedo.height,
                            )
                            &&& out.normal.bytes@ == png_of(
                                packed_normal(job),
                                job.normal.width,
                                job.normal.height,
                            )
                        },
                    }
                },
            },
        },
{
    let packed = pack_textures(job)?;
    let albedo_file = encode_texture(&packed.albedo, PackedTexture::Albedo)?;
    let normal_file = encode_texture(&packed.normal, PackedTexture::Normal)?;
    Ok(RenderedOutputs { albedo: albedo_file, normal: normal_file })
}

} // verus!
