use vectorscope::canvas::{Canvas, RenderError};
use vectorscope::raster::Raster;
use vectorscope::vector_scope::{
    draw_vector_scope, sample_colors, vector_scope_point, ChromaSample, VECTOR_SCOPE_HEIGHT,
    VECTOR_SCOPE_WIDTH,
};
use vectorscope::waveform::{draw_waveform, draw_waveform_luminance, WAVEFORM_HEIGHT};

fn decode(png: &[u8]) -> image::RgbImage {
    image::load_from_memory(png).unwrap().to_rgb8()
}

fn raster_of(width: u32, height: u32, colors: &[(u8, u8, u8)]) -> Raster {
    let mut pixels = Vec::new();
    for &(r, g, b) in colors {
        pixels.extend_from_slice(&[r, g, b, 255]);
    }
    Raster::new(width, height, pixels).unwrap()
}

#[test]
fn neutral_colours_plot_at_centre() {
    assert_eq!(vector_scope_point((0, 0, 0), (0, 0)), (125, 125));
    assert_eq!(vector_scope_point((255, 255, 255), (40, -7)), (125, 125));
    assert_eq!(vector_scope_point((128, 128, 128), (-90, 90)), (125, 125));
}

#[test]
fn chroma_offset_flips_y() {
    assert_eq!(vector_scope_point((255, 0, 0), (30, 40)), (155, 85));
    assert_eq!(vector_scope_point((0, 0, 255), (-10, -20)), (115, 145));
}

#[test]
fn samples_every_sixty_fourth_pixel() {
    let colors: Vec<(u8, u8, u8)> = (0..130u32).map(|i| (i as u8, 0, 0)).collect();
    let raster = raster_of(130, 1, &colors);
    assert_eq!(sample_colors(&raster), vec![(0, 0, 0), (64, 0, 0), (128, 0, 0)]);
    let raster = raster_of(64, 1, &colors[..64]);
    assert_eq!(sample_colors(&raster), vec![(0, 0, 0)]);
}

#[test]
fn vector_scope_is_fixed_size_and_plots_samples() {
    let samples = vec![
        ChromaSample { color: (250, 10, 10), offset: (50, 20) },
        ChromaSample { color: (10, 250, 10), offset: (500, 500) },
    ];
    let img = decode(&draw_vector_scope(&samples).unwrap());
    assert_eq!((img.width(), img.height()), (VECTOR_SCOPE_WIDTH, VECTOR_SCOPE_HEIGHT));
    assert_eq!(img.get_pixel(175, 105).0, [250, 10, 10]);
    // background away from every guide
    assert_eq!(img.get_pixel(5, 5).0, [16, 16, 16]);
    // centre cross-hair and saturation circle in the guide colour
    assert_eq!(img.get_pixel(10, 125).0, [100, 100, 100]);
    assert_eq!(img.get_pixel(125, 10).0, [100, 100, 100]);
    assert_eq!(img.get_pixel(225, 125).0, [100, 100, 100]);
}

#[test]
fn waveform_width_follows_source() {
    for width in [1u32, 3, 17] {
        let colors = vec![(9, 9, 9); width as usize * 2];
        let raster = raster_of(width, 2, &colors);
        let img = decode(&draw_waveform_luminance(&raster).unwrap());
        assert_eq!(img.width(), width);
        assert_eq!(img.height(), WAVEFORM_HEIGHT);
    }
}

#[test]
fn luminance_waveform_plots_true_colour_at_luminance() {
    let raster = raster_of(4, 1, &[(200, 100, 50), (0, 0, 0), (0, 0, 0), (0, 0, 0)]);
    let img = decode(&draw_waveform_luminance(&raster).unwrap());
    assert_eq!(img.get_pixel(0, 123).0, [200, 100, 50]);
    assert_eq!(img.get_pixel(0, 0).0, [16, 16, 16]);
    assert_eq!(img.get_pixel(3, 128).0, [100, 100, 100]);
    assert_eq!(img.get_pixel(2, 40).0, [100, 100, 100]);
}

#[test]
fn per_channel_waveform_plots_each_channel() {
    let raster = raster_of(4, 1, &[(10, 20, 30), (0, 0, 0), (0, 0, 0), (0, 0, 0)]);
    let img = decode(&draw_waveform(&raster).unwrap());
    assert_eq!(img.get_pixel(0, 10).0, [10, 0, 0]);
    assert_eq!(img.get_pixel(0, 20).0, [0, 20, 0]);
    assert_eq!(img.get_pixel(0, 30).0, [0, 0, 30]);
}

#[test]
fn canvas_plots_and_drops_off_canvas_points() {
    let mut canvas = Canvas::new(4, 3, 16).unwrap();
    canvas.plot_pixel(1, 2, (1, 2, 3));
    canvas.plot_pixel(-1, 0, (9, 9, 9));
    canvas.plot_pixel(4, 0, (9, 9, 9));
    let o = (2 * 4 + 1) * 3;
    assert_eq!(&canvas.data()[o..o + 3], &[1, 2, 3]);
    assert_eq!(canvas.data().iter().filter(|&&b| b == 9).count(), 0);
}

#[test]
fn canvas_line_changes_pixels() {
    let mut canvas = Canvas::new(5, 5, 0).unwrap();
    canvas.draw_line((0, 2), (4, 2), (7, 7, 7));
    for x in 0..5 {
        let o = (2 * 5 + x) * 3;
        assert_eq!(&canvas.data()[o..o + 3], &[7, 7, 7]);
    }
    let png = canvas.encode_png().unwrap();
    assert_eq!(&png[..8], &[0x89, b'P', b'N', b'G', 0x0d, 0x0a, 0x1a, 0x0a]);
}

#[test]
fn vector_scope_draws_saturation_circle() {
    let img = decode(&draw_vector_scope(&vec![]).unwrap());
    // (185, 45) is 100 pixels from the centre (a 60-80-100 triangle)
    let mut hit = false;
    for dx in -1i32..=1 {
        for dy in -1i32..=1 {
            let p = img.get_pixel((185 + dx) as u32, (45 + dy) as u32).0;
            hit |= p == [100, 100, 100];
        }
    }
    assert!(hit);
    assert_eq!(img.get_pixel(150, 100).0, [16, 16, 16]);
}

#[test]
fn empty_canvas_cannot_be_encoded() {
    let canvas = Canvas::new(0, 3, 16).unwrap();
    assert_eq!(canvas.encode_png(), Err(RenderError::Encoding));
}

#[test]
fn waveform_of_raster_without_columns_fails_to_encode() {
    let raster = Raster::new(0, 4, Vec::new()).unwrap();
    assert_eq!(draw_waveform_luminance(&raster), Err(RenderError::Encoding));
    assert_eq!(draw_waveform(&raster), Err(RenderError::Encoding));
}

#[test]
fn canvas_refuses_sizes_the_backend_cannot_address() {
    assert!(Canvas::new(1 << 16, 1 << 16, 0).is_none());
    assert!(Canvas::new(3_000_000_000, 0, 0).is_none());
}

#[test]
fn right_to_left_line_is_drawn() {
    let mut canvas = Canvas::new(12, 1, 0).unwrap();
    canvas.draw_line((10, 0), (5, 0), (9, 9, 9));
    let lit: Vec<usize> = (0..12).filter(|x| canvas.data()[x * 3] == 9).collect();
    assert!(!lit.is_empty());
    assert!(lit.iter().all(|&x| (5..=10).contains(&x)));
}
