use vectorscope::color::{luminance_of, RGB};

#[test]
fn check_rgb_black_to_yuv() {
    let rgb = RGB { r: 0, g: 0, b: 0 };
    let ybr = rgb.convert_to_ybr();
    assert_eq!(ybr.y, 0);
    assert_eq!(ybr.u, 0);
    assert_eq!(ybr.v, 0);
}

#[test]
fn check_rgb_white_to_yuv() {
    let rgb = RGB {
        r: 255,
        g: 255,
        b: 255,
    };
    let ybr = rgb.convert_to_ybr();
    assert_eq!(ybr.y, 255);
    assert_eq!(ybr.u, 0);
    assert_eq!(ybr.v, 0);
}

#[test]
fn check_rgb_gray_to_yuv() {
    let rgb = RGB {
        r: 128,
        g: 128,
        b: 128,
    };
    let ybr = rgb.convert_to_ybr();
    assert_eq!(ybr.y, 128);
    assert_eq!(ybr.u, 0);
    assert_eq!(ybr.v, 0);
}

#[test]
fn check_rgb_red_to_yuv() {
    let rgb = RGB { r: 255, g: 0, b: 0 };
    let ybr = rgb.convert_to_ybr();
    assert_eq!(ybr.y, 76);
    assert_eq!(ybr.u, -43);
    assert_eq!(ybr.v, 127);
}

#[test]
fn check_rgb_green_to_yuv() {
    let rgb = RGB { r: 0, g: 255, b: 0 };
    let ybr = rgb.convert_to_ybr();
    assert_eq!(ybr.y, 150);
    assert_eq!(ybr.u, -84);
    assert_eq!(ybr.v, -107);
}

#[test]
fn check_rgb_blue_to_yuv() {
    let rgb = RGB { r: 0, g: 0, b: 255 };
    let ybr = rgb.convert_to_ybr();
    assert_eq!(ybr.y, 29);
    assert_eq!(ybr.u, 127);
    assert_eq!(ybr.v, -21);
}

#[test]
fn check_rgb_cyan_to_yuv() {
    let rgb = RGB {
        r: 0,
        g: 255,
        b: 255,
    };
    let ybr = rgb.convert_to_ybr();
    assert_eq!(ybr.y, 179);
    assert_eq!(ybr.u, 43);
    assert_eq!(ybr.v, -128);
}

#[test]
fn check_rgb_purple_to_yuv() {
    let rgb = RGB {
        r: 255,
        g: 0,
        b: 255,
    };
    let ybr = rgb.convert_to_ybr();
    assert_eq!(ybr.y, 105);
    assert_eq!(ybr.u, 84);
    assert_eq!(ybr.v, 107);
}

#[test]
fn check_rgb_yello_to_yuv() {
    let rgb = RGB {
        r: 255,
        g: 255,
        b: 0,
    };
    let ybr = rgb.convert_to_ybr();
    assert_eq!(ybr.y, 226);
    assert_eq!(ybr.u, -128);
    assert_eq!(ybr.v, 21);
}

#[test]
fn yuv_components_stay_in_range_for_all_inputs_sampled() {
    for r in (0..=255u16).step_by(17) {
        for g in (0..=255u16).step_by(17) {
            for b in (0..=255u16).step_by(17) {
                let c = RGB { r: r as u8, g: g as u8, b: b as u8 };
                let yuv = c.convert_to_ybr();
                let exact = 0.299 * r as f64 + 0.587 * g as f64 + 0.114 * b as f64;
                assert!((yuv.y as f64 - exact).abs() <= 0.5 + 1e-9);
                assert!(yuv.u >= -128 && yuv.v >= -128);
            }
        }
    }
}

#[test]
fn rounding_tie_goes_away_from_zero() {
    // 0.5 * 255 for V before clamping is 127.5, which rounds to 128 and is clamped.
    let yuv = RGB { r: 255, g: 0, b: 0 }.convert_to_ybr();
    assert_eq!(yuv.v, 127);
    // -0.5 * 255 for V is -127.5, which rounds to -128.
    let yuv = RGB { r: 0, g: 255, b: 255 }.convert_to_ybr();
    assert_eq!(yuv.v, -128);
}

#[test]
fn luminance_weights() {
    assert_eq!(luminance_of(0, 0, 0), 0);
    assert_eq!(luminance_of(255, 255, 255), 255);
    assert_eq!(luminance_of(200, 100, 50), 123);
    assert_eq!(luminance_of(255, 0, 0), 76);
}
