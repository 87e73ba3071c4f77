use terrain_prepare::preview::{prepare_image, reduce, LoadError, PREVIEW_SIDE};
use terrain_prepare::raster::RgbaImage;
use terrain_prepare::validate::{is_power_of_two, validate_dimensions, ImageValidationError};

fn solid(side: u32, px: [u8; 4]) -> RgbaImage {
    let mut data = Vec::new();
    for _ in 0..(side as usize * side as usize) {
        data.extend_from_slice(&px);
    }
    RgbaImage::from_raw(side, side, data).unwrap()
}

#[test]
fn accepts_square_powers_of_two_from_512() {
    for side in [512u32, 1024, 2048, 4096, 1 << 31] {
        assert_eq!(validate_dimensions(side, side), Ok(()));
    }
}

#[test]
fn rejects_non_square_first() {
    assert_eq!(validate_dimensions(512, 1024), Err(ImageValidationError::NotSquare));
    assert_eq!(validate_dimensions(300, 200), Err(ImageValidationError::NotSquare));
    assert_eq!(validate_dimensions(100, 100 + 1), Err(ImageValidationError::NotSquare));
}

#[test]
fn rejects_non_power_of_two_before_size() {
    assert_eq!(validate_dimensions(600, 600), Err(ImageValidationError::NotPowerOfTwo));
    assert_eq!(validate_dimensions(300, 300), Err(ImageValidationError::NotPowerOfTwo));
    assert_eq!(validate_dimensions(0, 0), Err(ImageValidationError::NotPowerOfTwo));
}

#[test]
fn rejects_small_powers_of_two() {
    assert_eq!(validate_dimensions(256, 256), Err(ImageValidationError::TooSmall));
    assert_eq!(validate_dimensions(1, 1), Err(ImageValidationError::TooSmall));
}

#[test]
fn power_of_two_edges() {
    assert!(!is_power_of_two(0));
    assert!(is_power_of_two(1));
    assert!(is_power_of_two(2));
    assert!(!is_power_of_two(3));
    assert!(is_power_of_two(1 << 31));
    assert!(!is_power_of_two(u32::MAX));
    assert!(!is_power_of_two((1 << 31) + 1));
}

#[test]
fn validation_messages() {
    assert_eq!(ImageValidationError::NotSquare.message(), "Image must be square");
    assert_eq!(ImageValidationError::NotPowerOfTwo.message(), "Image dimensions must be power of 2");
    assert_eq!(ImageValidationError::TooSmall.message(), "Image must be at least 512x512");
    assert_eq!(LoadError::Invalid(ImageValidationError::TooSmall).message(), "Image must be at least 512x512");
    assert_eq!(LoadError::Decode("bad".to_string()).message(), "bad");
}

#[test]
fn from_raw_checks_length() {
    assert!(RgbaImage::from_raw(2, 2, vec![0; 16]).is_some());
    assert!(RgbaImage::from_raw(2, 2, vec![0; 15]).is_none());
    assert!(RgbaImage::from_raw(2, 2, vec![0; 17]).is_none());
    assert!(RgbaImage::from_raw(0, 0, vec![]).is_some());
}

#[test]
fn reduce_yields_512_and_keeps_original() {
    let mut big = solid(1024, [1, 2, 3, 4]);
    // a distinct pixel at the top left survives nearest sampling there
    big.data[0] = 200;
    let before = big.data.clone();
    let preview = reduce(&big);
    assert_eq!(preview.width, PREVIEW_SIDE);
    assert_eq!(preview.height, PREVIEW_SIDE);
    assert_eq!(preview.data.len(), 512 * 512 * 4);
    assert_eq!(big.data, before);
    assert_eq!(big.width, 1024);
    assert_eq!(&preview.data[4..8], &[1, 2, 3, 4]);
}

#[test]
fn reduce_twice_is_512() {
    let big = solid(2048, [9, 8, 7, 6]);
    let once = reduce(&big);
    let twice = reduce(&once);
    assert_eq!((twice.width, twice.height), (512, 512));
    assert_eq!(twice.data, once.data);
}

#[test]
fn reduce_at_preview_size_copies() {
    let mut img = solid(512, [0, 0, 0, 255]);
    for (i, b) in img.data.iter_mut().enumerate() {
        *b = (i % 251) as u8;
    }
    assert_eq!(reduce(&img).data, img.data);
}

#[test]
fn prepare_image_reports_rule() {
    let small = solid(256, [0, 0, 0, 0]);
    assert_eq!(prepare_image(small).err(), Some(ImageValidationError::TooSmall));
    let ok = prepare_image(solid(512, [5, 5, 5, 5])).unwrap();
    assert_eq!(ok.original.width, 512);
    assert_eq!(ok.preview.width, 512);
    let rect = RgbaImage::from_raw(512, 1024, vec![0; 512 * 1024 * 4]).unwrap();
    assert_eq!(prepare_image(rect).err(), Some(ImageValidationError::NotSquare));
}
