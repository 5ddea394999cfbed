use vectorscope::raster::{Raster, RasterError};
use vectorscope::resample::{resize_image, ResizeError};

fn uniform(width: u32, height: u32, rgba: [u8; 4]) -> Raster {
    let mut pixels = Vec::new();
    for _ in 0..(width * height) {
        pixels.extend_from_slice(&rgba);
    }
    Raster::new(width, height, pixels).unwrap()
}

#[test]
fn raster_rejects_wrong_buffer_size() {
    assert!(matches!(Raster::new(2, 2, vec![0; 15]), Err(RasterError::BufferSizeMismatch)));
    assert!(Raster::new(2, 2, vec![0; 16]).is_ok());
}

#[test]
fn halves_even_dimensions() {
    let out = resize_image(uniform(8, 6, [10, 20, 30, 255])).unwrap();
    assert_eq!(out.width(), 4);
    assert_eq!(out.height(), 3);
    assert_eq!(out.pixels().len(), 4 * 3 * 4);
}

#[test]
fn halves_odd_dimensions_by_floor() {
    let out = resize_image(uniform(5, 7, [10, 20, 30, 255])).unwrap();
    assert_eq!(out.width(), 2);
    assert_eq!(out.height(), 3);
    assert_eq!(out.pixels().len(), 2 * 3 * 4);
}

#[test]
fn smallest_halvable_raster() {
    let out = resize_image(uniform(2, 2, [1, 2, 3, 255])).unwrap();
    assert_eq!((out.width(), out.height()), (1, 1));
}

#[test]
fn uniform_opaque_colour_survives_resampling() {
    let out = resize_image(uniform(10, 10, [200, 100, 50, 255])).unwrap();
    for px in out.pixels().chunks(4) {
        assert_eq!(px, &[200, 100, 50, 255]);
    }
}

#[test]
fn zero_dimension_fails() {
    let r = resize_image(Raster::new(0, 5, Vec::new()).unwrap());
    assert!(matches!(r, Err(ResizeError::InvalidDimensions)));
    let r = resize_image(Raster::new(5, 0, Vec::new()).unwrap());
    assert!(matches!(r, Err(ResizeError::InvalidDimensions)));
}

#[test]
fn one_pixel_side_fails() {
    let r = resize_image(uniform(1, 4, [0, 0, 0, 255]));
    assert!(matches!(r, Err(ResizeError::InvalidDimensions)));
}

#[test]
fn alpha_is_multiplied_before_and_divided_after_resampling() {
    let out = resize_image(uniform(6, 4, [200, 100, 50, 128])).unwrap();
    for px in out.pixels().chunks(4) {
        assert_eq!(px[3], 128);
        for (got, want) in px[..3].iter().zip([200u8, 100, 50]) {
            assert!((*got as i32 - want as i32).abs() <= 2, "{:?}", px);
        }
    }
}
