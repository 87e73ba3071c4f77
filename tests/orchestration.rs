use terrain_prepare::compose::{NormalMapFormat, RoughnessFormat};
use terrain_prepare::container::{encode_png_file, output_file_name, OutputFormat, PackedTexture};
use terrain_prepare::preview::{load_image, prepare_image, LoadError, ProcessedImage};
use terrain_prepare::raster::RgbaImage;
use terrain_prepare::run::{pack_textures, render_png_outputs, RunError};
use terrain_prepare::session::{InputSlot, LoadState, ProcessingState, TerrainSession};
use terrain_prepare::validate::ImageValidationError;
use terrain_prepare::compose::CompositeError;

fn solid(side: u32, px: [u8; 4]) -> RgbaImage {
    let mut data = Vec::new();
    for _ in 0..(side as usize * side as usize) {
        data.extend_from_slice(&px);
    }
    RgbaImage::from_raw(side, side, data).unwrap()
}

fn processed(px: [u8; 4]) -> ProcessedImage {
    prepare_image(solid(512, px)).unwrap()
}

fn load(session: &mut TerrainSession, slot: InputSlot, px: [u8; 4]) {
    let ticket = session.begin_load(slot);
    assert!(session.finish_load(ticket, Ok(processed(px))));
}

fn is_loaded(session: &TerrainSession, slot: InputSlot) -> bool {
    matches!(session.slot(slot).state, LoadState::Loaded)
}

#[test]
fn new_session_is_empty() {
    let s = TerrainSession::new();
    for slot in [InputSlot::Albedo, InputSlot::AmbientOcclusion, InputSlot::Height, InputSlot::Normal, InputSlot::Roughness] {
        assert!(matches!(s.slot(slot).state, LoadState::NotLoaded));
        assert!(s.slot(slot).image.is_none());
    }
    assert_eq!(s.normal_format, NormalMapFormat::OpenGL);
    assert_eq!(s.roughness_format, RoughnessFormat::Roughness);
    assert_eq!(s.output_format, OutputFormat::Png);
    assert!(matches!(s.processing, ProcessingState::NotStarted));
    assert_eq!(NormalMapFormat::default(), NormalMapFormat::OpenGL);
    assert_eq!(RoughnessFormat::default(), RoughnessFormat::Roughness);
    assert_eq!(OutputFormat::default(), OutputFormat::Png);
}

#[test]
fn load_lifecycle() {
    let mut s = TerrainSession::new();
    let ticket = s.begin_load(InputSlot::Height);
    assert!(matches!(s.slot(InputSlot::Height).state, LoadState::Loading));
    assert!(s.finish_load(ticket, Ok(processed([1, 1, 1, 1]))));
    assert!(is_loaded(&s, InputSlot::Height));
    let ticket = s.begin_load(InputSlot::Height);
    assert!(s.slot(InputSlot::Height).image.is_none());
    assert!(s.finish_load(ticket, Err(LoadError::Invalid(ImageValidationError::NotSquare))));
    match &s.slot(InputSlot::Height).state {
        LoadState::Error(m) => assert_eq!(m, "Image must be square"),
        other => panic!("unexpected state {:?}", other),
    }
}

#[test]
fn stale_load_is_ignored() {
    let mut s = TerrainSession::new();
    let first = s.begin_load(InputSlot::Albedo);
    let second = s.begin_load(InputSlot::Albedo);
    assert_ne!(first.generation, second.generation);
    assert!(!s.finish_load(first, Ok(processed([1, 1, 1, 1]))));
    assert!(matches!(s.slot(InputSlot::Albedo).state, LoadState::Loading));
    assert!(s.finish_load(second, Ok(processed([2, 2, 2, 2]))));
    assert_eq!(s.slot(InputSlot::Albedo).image.as_ref().unwrap().original.data[0], 2);
    assert!(!s.finish_load(second, Ok(processed([3, 3, 3, 3]))));
    assert_eq!(s.slot(InputSlot::Albedo).image.as_ref().unwrap().original.data[0], 2);
}

#[test]
fn clear_discards_slot_and_pending_load() {
    let mut s = TerrainSession::new();
    load(&mut s, InputSlot::AmbientOcclusion, [1, 1, 1, 1]);
    s.clear(InputSlot::AmbientOcclusion);
    assert!(matches!(s.slot(InputSlot::AmbientOcclusion).state, LoadState::NotLoaded));
    assert!(s.slot(InputSlot::AmbientOcclusion).image.is_none());
    let pending = s.begin_load(InputSlot::Roughness);
    s.clear(InputSlot::Roughness);
    assert!(!s.finish_load(pending, Ok(processed([1, 1, 1, 1]))));
    assert!(matches!(s.slot(InputSlot::Roughness).state, LoadState::NotLoaded));
}

#[test]
fn run_gating() {
    let mut s = TerrainSession::new();
    assert!(!s.can_run());
    load(&mut s, InputSlot::Albedo, [1, 1, 1, 1]);
    assert!(!s.can_run());
    load(&mut s, InputSlot::Normal, [1, 1, 1, 1]);
    assert!(!s.can_run());
    s.output_directory = Some("/tmp/out".to_string());
    assert!(s.can_run());
    s.begin_load(InputSlot::Normal);
    assert!(!s.can_run());
    assert!(s.start_run().is_none());
    load(&mut s, InputSlot::Normal, [1, 1, 1, 1]);
    let job = s.start_run().unwrap();
    assert_eq!(job.output_directory, "/tmp/out");
    assert!(matches!(s.processing, ProcessingState::Processing));
    assert!(!s.can_run());
    assert!(s.start_run().is_none());
    s.finish_run(Err("disk full".to_string()));
    assert!(matches!(&s.processing, ProcessingState::Error(m) if m == "disk full"));
    assert!(s.can_run());
    s.start_run().unwrap();
    s.finish_run(Ok(()));
    assert!(matches!(s.processing, ProcessingState::Done));
    s.output_directory = None;
    assert!(!s.can_run());
}

#[test]
fn file_names() {
    assert_eq!(output_file_name(PackedTexture::Albedo, OutputFormat::Png), "albedo.png");
    assert_eq!(output_file_name(PackedTexture::Normal, OutputFormat::Png), "normal.png");
    assert_eq!(output_file_name(PackedTexture::Albedo, OutputFormat::Dds), "albedo.dds");
    assert_eq!(output_file_name(PackedTexture::Normal, OutputFormat::Dds), "normal.dds");
}

#[test]
fn png_round_trip_is_exact() {
    let mut img = solid(512, [0, 0, 0, 0]);
    for (i, b) in img.data.iter_mut().enumerate() {
        *b = (i * 31 % 256) as u8;
    }
    let bytes = encode_png_file(&img).unwrap();
    assert_eq!(&bytes[1..4], b"PNG");
    let back = load_image(&bytes).unwrap();
    assert_eq!((back.original.width, back.original.height), (512, 512));
    assert_eq!(back.original.data, img.data);
}

#[test]
fn load_image_reports_decode_and_rule_errors() {
    assert!(matches!(load_image(b"not an image"), Err(LoadError::Decode(_))));
    let small = solid(256, [1, 2, 3, 4]);
    let bytes = encode_png_file(&solid(512, [1, 2, 3, 4])).unwrap();
    assert!(load_image(&bytes).is_ok());
    let mut raw = Vec::new();
    image::ImageEncoder::write_image(
        image::codecs::png::PngEncoder::new(&mut raw),
        &small.data,
        256,
        256,
        image::ExtendedColorType::Rgba8,
    )
    .unwrap();
    assert!(matches!(load_image(&raw), Err(LoadError::Invalid(ImageValidationError::TooSmall))));
}

#[test]
fn render_outputs_packs_and_encodes() {
    let mut s = TerrainSession::new();
    load(&mut s, InputSlot::Albedo, [200, 100, 50, 255]);
    load(&mut s, InputSlot::AmbientOcclusion, [128, 128, 128, 255]);
    load(&mut s, InputSlot::Height, [77, 77, 77, 255]);
    load(&mut s, InputSlot::Normal, [10, 20, 30, 40]);
    load(&mut s, InputSlot::Roughness, [90, 90, 90, 255]);
    s.normal_format = NormalMapFormat::DirectX;
    s.roughness_format = RoughnessFormat::Smoothness;
    s.output_directory = Some("out".to_string());
    let job = s.start_run().unwrap();
    let out = render_png_outputs(&job).unwrap();
    assert_eq!(out.albedo.name, "albedo.png");
    assert_eq!(out.normal.name, "normal.png");
    let albedo = load_image(&out.albedo.bytes).unwrap().original;
    let normal = load_image(&out.normal.bytes).unwrap().original;
    for p in albedo.data.chunks(4) {
        assert_eq!(p, &[100, 50, 25, 77]);
    }
    for p in normal.data.chunks(4) {
        assert_eq!(p, &[10, 235, 30, 165]);
    }
    let packed = pack_textures(&job).unwrap();
    assert_eq!(packed.albedo.data, albedo.data);
    assert_eq!(packed.normal.data, normal.data);
}

#[test]
fn pack_textures_defaults_alpha() {
    let mut s = TerrainSession::new();
    load(&mut s, InputSlot::Albedo, [200, 100, 50, 3]);
    load(&mut s, InputSlot::Normal, [10, 20, 30, 40]);
    s.output_directory = Some("out".to_string());
    s.output_format = OutputFormat::Dds;
    let job = s.start_run().unwrap();
    assert_eq!(job.output_format, OutputFormat::Dds);
    let packed = pack_textures(&job).unwrap();
    for p in packed.albedo.data.chunks(4) {
        assert_eq!(p, &[200, 100, 50, 255]);
    }
    for p in packed.normal.data.chunks(4) {
        assert_eq!(p, &[10, 20, 30, 128]);
    }
}

#[test]
fn render_outputs_reports_bad_inputs() {
    let mut s = TerrainSession::new();
    load(&mut s, InputSlot::Albedo, [1, 1, 1, 1]);
    load(&mut s, InputSlot::Normal, [1, 1, 1, 1]);
    s.output_directory = Some("out".to_string());
    let mut job = s.start_run().unwrap();
    job.height = Some(solid(1024, [1, 1, 1, 1]));
    assert!(matches!(
        render_png_outputs(&job),
        Err(RunError::Composite(CompositeError::DimensionMismatch(InputSlot::Height)))
    ));
    job.roughness = Some(solid(256, [1, 1, 1, 1]));
    assert!(matches!(render_png_outputs(&job), Err(RunError::InvalidSource(InputSlot::Roughness))));
    job.albedo.data.pop();
    assert!(matches!(render_png_outputs(&job), Err(RunError::InvalidSource(InputSlot::Albedo))));
}

#[test]
fn finish_load_refuses_malformed_image() {
    let mut s = TerrainSession::new();
    let ticket = s.begin_load(InputSlot::Normal);
    let mut p = processed([1, 2, 3, 4]);
    p.original.data.truncate(10);
    assert!(s.finish_load(ticket, Ok(p)));
    assert!(matches!(s.slot(InputSlot::Normal).state, LoadState::Error(_)));
    assert!(s.slot(InputSlot::Normal).image.is_none());
}

#[test]
fn source_checks_and_copies() {
    let img = solid(512, [4, 3, 2, 1]);
    assert!(img.is_valid_source());
    let copy = img.duplicate();
    assert_eq!((copy.width, copy.height), (512, 512));
    assert_eq!(copy.data, img.data);
    assert!(!solid(256, [0, 0, 0, 0]).is_valid_source());
    let mut short = solid(512, [0, 0, 0, 0]);
    short.data.pop();
    assert!(!short.is_valid_source());
    let session = TerrainSession::default();
    assert!(!session.can_run());
}

#[test]
fn required_images_ignore_optional_slots() {
    let mut s = TerrainSession::new();
    load(&mut s, InputSlot::Height, [1, 1, 1, 1]);
    assert!(!s.are_required_images_loaded());
    load(&mut s, InputSlot::Albedo, [1, 1, 1, 1]);
    load(&mut s, InputSlot::Normal, [1, 1, 1, 1]);
    s.output_directory = Some("out".to_string());
    assert!(s.are_required_images_loaded());
    s.start_run().unwrap();
    assert!(s.are_required_images_loaded());
    assert!(!s.can_run());
    let d = TerrainSession::default();
    assert_eq!(d.output_format, OutputFormat::Png);
    assert_eq!(d.normal_format, NormalMapFormat::OpenGL);
}

#[test]
fn load_image_decodes_non_square_as_not_square() {
    let rect = RgbaImage::from_raw(512, 256, vec![9; 512 * 256 * 4]).unwrap();
    let bytes = encode_png_file(&rect).unwrap();
    match load_image(&bytes) {
        Err(e) => assert_eq!(e.message(), "Image must be square"),
        Ok(_) => panic!("a 512x256 image was accepted"),
    }
}
