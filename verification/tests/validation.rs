use clipsaver::errors::Error;
use clipsaver::pixels::PixelImage;

#[test]
fn valid_buffer_is_accepted_with_exact_dimensions() {
    let bytes = vec![7u8; 2 * 3 * 4];
    let img = PixelImage::from_raw(2, 3, bytes.clone()).unwrap();
    assert_eq!(img.width, 2);
    assert_eq!(img.height, 3);
    assert_eq!(img.bytes, bytes);
}

#[test]
fn single_pixel_buffer_is_accepted() {
    let img = PixelImage::from_raw(1, 1, vec![1, 2, 3, 4]).unwrap();
    assert_eq!(img.width, 1);
    assert_eq!(img.height, 1);
    assert_eq!(img.bytes, vec![1, 2, 3, 4]);
}

#[test]
fn short_buffer_is_rejected() {
    let r = PixelImage::from_raw(2, 1, vec![0u8; 7]);
    assert_eq!(r.unwrap_err(), Error::ImageValidationError);
}

#[test]
fn long_buffer_is_rejected() {
    let r = PixelImage::from_raw(2, 1, vec![0u8; 9]);
    assert_eq!(r.unwrap_err(), Error::ImageValidationError);
}

#[test]
fn zero_width_is_rejected() {
    let r = PixelImage::from_raw(0, 5, vec![]);
    assert_eq!(r.unwrap_err(), Error::ImageValidationError);
}

#[test]
fn zero_height_is_rejected() {
    let r = PixelImage::from_raw(5, 0, vec![]);
    assert_eq!(r.unwrap_err(), Error::ImageValidationError);
}

#[test]
fn oversized_width_is_rejected() {
    let r = PixelImage::from_raw(0x1_0000_0000usize, 1, vec![0u8; 16]);
    assert_eq!(r.unwrap_err(), Error::ImageValidationError);
}

#[test]
fn encoded_png_decodes_back_to_the_same_pixels() {
    let bytes = vec![10u8, 20, 30, 255, 40, 50, 60, 255];
    let img = PixelImage::from_raw(2, 1, bytes.clone()).unwrap();
    let png = clipsaver::pixels::encode_image(&img);
    assert_eq!(&png[..8], &[0x89u8, b'P', b'N', b'G', 0x0D, 0x0A, 0x1A, 0x0A]);
    let decoded = image::load_from_memory(&png).unwrap().to_rgba8();
    assert_eq!(decoded.width(), 2);
    assert_eq!(decoded.height(), 1);
    assert_eq!(decoded.into_raw(), bytes);
}
