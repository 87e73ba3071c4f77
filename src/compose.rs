//! The channel compositor: packs albedo with ambient occlusion and height, and
//! a normal map with roughness, into two RGBA textures.

use crate::raster::{luma_of, to_luma, RgbaImage};
use crate::session::InputSlot;
use rayon::iter::{IndexedParallelIterator, IntoParallelRefIterator, ParallelIterator};
use rayon::slice::ParallelSlice;
use vstd::prelude::*;

verus! {

/// Which sign convention the normal map's green channel (the Y axis) uses.
#[derive(Debug, Clone, Copy, PartialEq, Eq, Structural)]
pub enum NormalMapFormat {
    OpenGL,
    DirectX,
}

impl Default for NormalMapFormat {
    fn default() -> (r: Self)
        ensures
            r == NormalMapFormat::OpenGL,
    {
        NormalMapFormat::OpenGL
    }
}

/// Whether the roughness input stores roughness or its complement, smoothness.
#[derive(Debug, Clone, Copy, PartialEq, Eq, Structural)]
pub enum RoughnessFormat {
    Roughness,
    Smoothness,
}

impl Default for RoughnessFormat {
    fn default() -> (r: Self)
        ensures
            r == RoughnessFormat::Roughness,
    {
        RoughnessFormat::Roughness
    }
}

/// An optional input whose size differs from the primary image it is packed
/// into.
#[derive(Debug, Clone, Copy, PartialEq, Eq, Structural)]
pub enum CompositeError {
    DimensionMismatch(InputSlot),
}

/// The alpha of a packed albedo pixel when no height map is given.
pub const OPAQUE_ALPHA: u8 = 255;

/// The alpha of a packed normal pixel when no roughness map is given.
pub const NEUTRAL_ROUGHNESS: u8 = 128;

/// One step of a pipeline, applied to a pixel together with one byte of a
/// second buffer at the same index.
#[derive(Debug, Clone, Copy, PartialEq, Eq, Structural)]
pub enum PixelOp {
    /// Scale R, G and B by `aux / 255`, rounding down.
    Occlude,
    /// Replace alpha by `aux`.
    SetAlpha,
    /// Replace alpha by `255 - aux`.
    SetInvertedAlpha,
    /// Replace green `g` by `255 - g`; `aux` is not read.
    FlipGreen,
}

/// Channel `c` (0 red, 1 green, 2 blue, 3 alpha) of a pixel after `op`, where
/// the channel held `v`.
pub open spec fn op_channel(op: PixelOp, c: int, v: u8, aux: u8) -> u8 {
    match op {
        PixelOp::Occlude => if c < 3 {
            (v * aux / 255) as u8
        } else {
            v
        },
        PixelOp::SetAlpha => if c == 3 {
            aux
        } else {
            v
        },
        PixelOp::SetInvertedAlpha => if c == 3 {
            (255 - aux) as u8
        } else {
            v
        },
        PixelOp::FlipGreen => if c == 1 {
            (255 - v) as u8
        } else {
            v
        },
    }
}

/// `op` applied to every pixel of `pixels`, with the byte of `aux` at the
/// pixel's index.
pub open spec fn blend_all(op: PixelOp, pixels: Seq<u8>, aux: Seq<u8>) -> Seq<u8> {
    Seq::new(pixels.len(), |k: int| op_channel(op, k % 4, pixels[k], aux[k / 4]))
}

/// `v * f / 255`, rounded down.
fn scale(v: u8, f: u8) -> (r: u8)
    ensures
        r == v * f / 255,
{
    proof {
        assert(v * f <= 255 * 255) by (nonlinear_arith)
            requires
                v <= 255,
                f <= 255,
        ;
    }
    (v as u32 * f as u32 / 255) as u8
}

/// One pixel after `op`.
pub fn blend_pixel(op: PixelOp, p: [u8; 4], aux: u8) -> (r: [u8; 4])
    ensures
        forall|c: int| 0 <= c < 4 ==> r@[c] == op_channel(op, c, p@[c], aux),
{
    match op {
        PixelOp::Occlude => [scale(p[0], aux), scale(p[1], aux), scale(p[2], aux), p[3]],
        PixelOp::SetAlpha => [p[0], p[1], p[2], aux],
        PixelOp::SetInvertedAlpha => [p[0], p[1], p[2], 255 - aux],
        PixelOp::FlipGreen => [p[0], 255 - p[1], p[2], p[3]],
    }
}

/// Relies on rayon's `par_chunks_exact`, `zip`, `map` and `collect` on
/// indexed parallel iterators: each four-byte pixel, with the byte of `aux` at
/// its index, goes once through `blend_pixel`, and `collect` keeps the order.
#[verifier::external_body]
fn par_blend(pixels: &Vec<u8>, aux: &Vec<u8>, op: PixelOp) -> (r: Vec<u8>)
    requires
        pixels@.len() == 4 * aux@.len(),
    ensures
        r@ == blend_all(op, pixels@, aux@),
{
    let out: Vec<[u8; 4]> = pixels.par_chunks_exact(4).zip(aux.par_iter()).map(
        |(p, a)| blend_pixel(op, [p[0], p[1], p[2], p[3]], *a),
    ).collect();
    out.concat()
}

/// `n` copies of `v`.
fn filled(n: usize, v: u8) -> (r: Vec<u8>)
    ensures
        r@ == Seq::new(n as nat, |i: int| v),
{
    let mut r: Vec<u8> = Vec::with_capacity(n);
    let mut i: usize = 0;
    while i < n
        invariant
            i <= n,
            r@ == Seq::new(i as nat, |j: int| v),
        decreases n - i,
    {
        r.push(v);
        i = i + 1;
        assert(r@ =~= Seq::new(i as nat, |j: int| v));
    }
    r
}

/// Byte `k` of the packed albedo: R, G and B of the albedo scaled by
/// `ao / 255` (rounded down) where an occlusion buffer is given, alpha the
/// height where one is given and fully opaque where not.
pub open spec fn albedo_channel(
    albedo: Seq<u8>,
    ao: Option<Seq<u8>>,
    height: Option<Seq<u8>>,
    k: int,
) -> u8 {
    if k % 4 < 3 {
        match ao {
            Some(a) => (albedo[k] * a[k / 4] / 255) as u8,
            None => albedo[k],
        }
    } else {
        match height {
            Some(h) => h[k / 4],
            None => OPAQUE_ALPHA,
        }
    }
}

/// Byte `k` of the packed normal: green inverted for DirectX, R and B as
/// given, alpha the roughness (inverted where the input holds smoothness) or
/// the neutral 128 where no roughness buffer is given.
pub open spec fn normal_channel(
    normal: Seq<u8>,
    format: NormalMapFormat,
    roughness: Option<Seq<u8>>,
    roughness_format: RoughnessFormat,
    k: int,
) -> u8 {
    if k % 4 == 1 {
        match format {
            NormalMapFormat::DirectX => (255 - normal[k]) as u8,
            NormalMapFormat::OpenGL => normal[k],
        }
    } else if k % 4 == 3 {
        match roughness {
            Some(r) => match roughness_format {
                RoughnessFormat::Roughness => r[k / 4],
                RoughnessFormat::Smoothness => (255 - r[k / 4]) as u8,
            },
            None => NEUTRAL_ROUGHNESS,
        }
    } else {
        normal[k]
    }
}

pub open spec fn view_of(b: Option<&Vec<u8>>) -> Option<Seq<u8>> {
    match b {
        Some(v) => Some(v@),
        None => None,
    }
}

/// A buffer, where given, holds one byte for each pixel of `img`.
pub open spec fn fits(b: Option<&Vec<u8>>, img: &RgbaImage) -> bool {
    b matches Some(v) ==> v@.len() == img.pixel_count()
}

proof fn lemma_len_is_four_per_pixel(img: &RgbaImage)
    requires
        img.wf(),
    ensures
        img.data@.len() == 4 * img.pixel_count(),
{
    assert(4 * (img.width as int) * (img.height as int) == 4 * ((img.width as int) * (
    img.height as int))) by (nonlinear_arith);
}

/// Packs albedo with per-pixel ambient occlusion and height luminance.
pub fn pack_albedo(albedo: &RgbaImage, ao: Option<&Vec<u8>>, height: Option<&Vec<u8>>) -> (r:
    RgbaImage)
    requires
        albedo.wf(),
        fits(ao, albedo),
        fits(height, albedo),
    ensures
        r.width == albedo.width,
        r.height == albedo.height,
        r.wf(),
        forall|k: int|
            0 <= k < r.data@.len() ==> r.data@[k] == albedo_channel(
                albedo.data@,
                view_of(ao),
                view_of(height),
                k,
            ),
{
    proof {
        lemma_len_is_four_per_pixel(albedo);
    }
    let n = albedo.data.len() / 4;
    let shaded = match ao {
        Some(a) => par_blend(&albedo.data, a, PixelOp::Occlude),
        None => albedo.duplicate().data,
    };
    let data = match height {
        Some(h) => par_blend(&shaded, h, PixelOp::SetAlpha),
        None => par_blend(&shaded, &filled(n, OPAQUE_ALPHA), PixelOp::SetAlpha),
    };
    RgbaImage { width: albedo.width, height: albedo.height, data }
}

/// Packs a normal map with its green convention and per-pixel roughness
/// luminance.
pub fn pack_normal(
    normal: &RgbaImage,
    format: NormalMapFormat,
    roughness: Option<&Vec<u8>>,
    roughness_format: RoughnessFormat,
) -> (r: RgbaImage)
    requires
        normal.wf(),
        fits(roughness, normal),
    ensures
        r.width == normal.width,
        r.height == normal.height,
        r.wf(),
        forall|k: int|
            0 <= k < r.data@.len() ==> r.data@[k] == normal_channel(
                normal.data@,
                format,
                view_of(roughness),
                roughness_format,
                k,
            ),
{
    proof {
        lemma_len_is_four_per_pixel(normal);
    }
    let n = normal.data.len() / 4;
    let flipped = match format {
        NormalMapFormat::DirectX => par_blend(&normal.data, &filled(n, 0), PixelOp::FlipGreen),
        NormalMapFormat::OpenGL => normal.duplicate().data,
    };
    let data = match roughness {
        Some(m) => match roughness_format {
            RoughnessFormat::Roughness => par_blend(&flipped, m, PixelOp::SetAlpha),
            RoughnessFormat::Smoothness => par_blend(&flipped, m, PixelOp::SetInvertedAlpha),
        },
        None => par_blend(&flipped, &filled(n, NEUTRAL_ROUGHNESS), PixelOp::SetAlpha),
    };
    RgbaImage { width: normal.width, height: normal.height, data }
}

pub open spec fn same_size(a: &RgbaImage, b: &RgbaImage) -> bool {
    a.width == b.width && a.height == b.height
}

/// The luminance of an optional input, as the codec derives it.
pub open spec fn luma_view(img: Option<&RgbaImage>) -> Option<Seq<u8>> {
    match img {
        Some(i) => Some(luma_of(i.data@)),
        None => None,
    }
}

pub open spec fn wf_opt(img: Option<&RgbaImage>) -> bool {
    img matches Some(i) ==> i.wf()
}

/// The first optional input, if any, whose size differs from `primary`.
pub open spec fn first_mismatch(
    primary: &RgbaImage,
    first: Option<&RgbaImage>,
    first_slot: InputSlot,
    second: Option<&RgbaImage>,
    second_slot: InputSlot,
) -> Option<InputSlot> {
    if first matches Some(a) && !same_size(a, primary) {
        Some(first_slot)
    } else if second matches Some(b) && !same_size(b, primary) {
        Some(second_slot)
    } else {
        None
    }
}

/// The luminance of an optional input that must match `primary` in size.
fn luma_matching(primary: &RgbaImage, img: Option<&RgbaImage>, slot: InputSlot) -> (r: Result<
    Option<Vec<u8>>,
    CompositeError,
>)
    requires
        wf_opt(img),
    ensures
        match img {
            None => r == Ok::<Option<Vec<u8>>, CompositeError>(None),
            Some(i) => if same_size(i, primary) {
                r matches Ok(Some(l)) && l@ == luma_of(i.data@) && l@.len() == i.pixel_count()
            } else {
                r == Err::<Option<Vec<u8>>, CompositeError>(CompositeError::DimensionMismatch(slot))
            },
        },
{
    match img {
        None => Ok(None),
        Some(i) => {
            if i.width != primary.width || i.height != primary.height {
                Err(CompositeError::DimensionMismatch(slot))
            } else {
                Ok(Some(to_luma(i)))
            }
        },
    }
}

fn borrow_opt(v: &Option<Vec<u8>>) -> (r: Option<&Vec<u8>>)
    ensures
        view_of(r) == match v {
            Some(b) => Some(b@),
            None => None::<Seq<u8>>,
        },
{
    match v {
        Some(b) => Some(b),
        None => None,
    }
}

/// The albedo pipeline on decoded images: refuses an occlusion or height map
/// whose size differs from the albedo (occlusion checked first), and otherwise
/// packs the albedo with their luminance.
pub fn compose_albedo(albedo: &RgbaImage, ao: Option<&RgbaImage>, height: Option<&RgbaImage>) -> (r:
    Result<RgbaImage, CompositeError>)
    requires
        albedo.wf(),
        wf_opt(ao),
        wf_opt(height),
    ensures
        match first_mismatch(albedo, ao, InputSlot::AmbientOcclusion, height, InputSlot::Height) {
            Some(slot) => r == Err::<RgbaImage, CompositeError>(
                CompositeError::DimensionMismatch(slot),
            ),
            None => r matches Ok(out) && out.wf() && out.width == albedo.width && out.height
                == albedo.height && forall|k: int|
                0 <= k < out.data@.len() ==> out.data@[k] == albedo_channel(
                    albedo.data@,
                    luma_view(ao),
                    luma_view(height),
                    k,
                ),
        },
{
    let ao_luma = luma_matching(albedo, ao, InputSlot::AmbientOcclusion)?;
    let height_luma = luma_matching(albedo, height, InputSlot::Height)?;
    Ok(pack_albedo(albedo, borrow_opt(&ao_luma), borrow_opt(&height_luma)))
}

/// The normal pipeline on decoded images: refuses a roughness map whose size
/// differs from the normal map, and otherwise packs the normal map with its
/// luminance.
pub fn compose_normal(
    normal: &RgbaImage,
    format: NormalMapFormat,
    roughness: Option<&RgbaImage>,
    roughness_format: RoughnessFormat,
) -> (r: Result<RgbaImage, CompositeError>)
    requires
        normal.wf(),
        wf_opt(roughness),
    ensures
        match first_mismatch(normal, roughness, InputSlot::Roughness, None, InputSlot::Roughness) {
            Some(slot) => r == Err::<RgbaImage, CompositeError>(
                CompositeError::DimensionMismatch(slot),
            ),
            None => r matches Ok(out) && out.wf() && out.width == normal.width && out.height
                == normal.height && forall|k: int|
                0 <= k < out.data@.len() ==> out.data@[k] == normal_channel(
                    normal.data@,
                    format,
                    luma_view(roughness),
                    roughness_format,
                    k,
                ),
        },
{
    let rough_luma = luma_matching(normal, roughness, InputSlot::Roughness)?;
    Ok(pack_normal(normal, format, borrow_opt(&rough_luma), roughness_format))
}


/// Without a height map every packed albedo pixel is fully opaque.
pub proof fn lemma_albedo_opaque_without_height(albedo: Seq<u8>, ao: Option<Seq<u8>>, i: int)
    requires
        0 <= i,
    ensures
        albedo_channel(albedo, ao, None, 4 * i + 3) == 255,
{
}

/// Occlusion never changes the alpha of a packed albedo pixel.
pub proof fn lemma_occlusion_keeps_alpha(
    albedo: Seq<u8>,
    ao: Seq<u8>,
    height: Option<Seq<u8>>,
    i: int,
)
    requires
        0 <= i,
    ensures
        albedo_channel(albedo, Some(ao), height, 4 * i + 3) == albedo_channel(
            albedo,
            None,
            height,
            4 * i + 3,
        ),
{
}

/// Without a roughness map every packed normal pixel has the neutral alpha
/// 128, whatever the encodings.
pub proof fn lemma_normal_neutral_without_roughness(
    normal: Seq<u8>,
    format: NormalMapFormat,
    roughness_format: RoughnessFormat,
    i: int,
)
    requires
        0 <= i,
    ensures
        normal_channel(normal, format, None, roughness_format, 4 * i + 3) == 128,
{
}

/// DirectX encoding replaces green `g` by `255 - g` and keeps red and blue.
pub proof fn lemma_directx_flips_green_only(
    normal: Seq<u8>,
    roughness: Option<Seq<u8>>,
    roughness_format: RoughnessFormat,
    i: int,
)
    requires
        0 <= i,
        4 * i + 3 < normal.len(),
    ensures
        normal_channel(normal, NormalMapFormat::DirectX, roughness, roughness_format, 4 * i)
            == normal[4 * i],
        normal_channel(normal, NormalMapFormat::DirectX, roughness, roughness_format, 4 * i + 1)
            == 255 - normal[4 * i + 1],
        normal_channel(normal, NormalMapFormat::DirectX, roughness, roughness_format, 4 * i + 2)
            == normal[4 * i + 2],
{
}

/// The roughness alpha is the roughness luminance as stored, and its
/// complement where the input holds smoothness.
pub proof fn lemma_roughness_alpha(
    normal: Seq<u8>,
    format: NormalMapFormat,
    roughness: Seq<u8>,
    i: int,
)
    requires
        0 <= i < roughness.len(),
    ensures
        normal_channel(normal, format, Some(roughness), RoughnessFormat::Roughness, 4 * i + 3)
            == roughness[i],
        normal_channel(normal, format, Some(roughness), RoughnessFormat::Smoothness, 4 * i + 3)
            == 255 - roughness[i],
{
}

} // verus!
