use experiments::buffer::{Error, Image};
use experiments::naive;
use experiments::utils;

fn rgb_image(bytes: Vec<u8>, w: u32, h: u32) -> Image {
    Image::new(bytes, w, h, 3).unwrap()
}

#[test]
fn naive_dim() {
    let img = utils::gen_image(64);
    let out = naive::dim(img.clone(), 2).unwrap();
    assert_eq!(out.get_pixel(0, 0)[0], img.get_pixel(0, 0)[0] / 2);
}

#[test]
fn greyscale_oracle_2x2() {
    let img = rgb_image(
        vec![10, 20, 30, 40, 50, 60, 70, 80, 90, 100, 110, 120],
        2,
        2,
    );
    let out = naive::greyscale(img).unwrap();
    assert_eq!(out.channels, 1);
    assert_eq!(out.width, 2);
    assert_eq!(out.height, 2);
    assert_eq!(out.bytes, vec![20, 50, 80, 110]);
}

#[test]
fn greyscale_white_is_white() {
    let img = rgb_image(vec![255, 255, 255], 1, 1);
    let out = naive::greyscale(img).unwrap();
    assert_eq!(out.bytes, vec![255]);
}

#[test]
fn dim_truncates_per_byte() {
    let img = rgb_image(vec![10, 11, 255], 1, 1);
    let out = naive::dim(img, 2).unwrap();
    assert_eq!(out.bytes, vec![5, 5, 127]);
}

#[test]
fn dim_zero_factor_rejected() {
    let img = rgb_image(vec![10, 11, 255], 1, 1);
    assert_eq!(naive::dim(img, 0).unwrap_err(), Error::ZeroFactor);
}

#[test]
fn rgb_restrict_each_channel() {
    let img = rgb_image(vec![10, 20, 30], 1, 1);
    assert_eq!(
        naive::rgb_restrict(img.clone(), 'R').unwrap().bytes,
        vec![0, 20, 30]
    );
    assert_eq!(
        naive::rgb_restrict(img.clone(), 'G').unwrap().bytes,
        vec![10, 0, 30]
    );
    assert_eq!(
        naive::rgb_restrict(img, 'B').unwrap().bytes,
        vec![10, 20, 0]
    );
}

#[test]
fn rgb_restrict_invalid_channel() {
    let img = rgb_image(vec![10, 20, 30], 1, 1);
    assert_eq!(
        naive::rgb_restrict(img, 'X').unwrap_err(),
        Error::InvalidChannel
    );
}

#[test]
fn rgb_restrict_idempotent() {
    let img = rgb_image(
        vec![10, 20, 30, 40, 50, 60, 70, 80, 90, 100, 110, 120],
        2,
        2,
    );
    let once = naive::rgb_restrict(img, 'G').unwrap();
    let twice = naive::rgb_restrict(once.clone(), 'G').unwrap();
    assert_eq!(twice.bytes, once.bytes);
}

#[test]
fn combine_identical_images() {
    let img = utils::gen_image(8);
    let out = naive::combine(img.clone(), img.clone()).unwrap();
    assert_eq!(out.bytes, img.bytes);
    assert_eq!(out.width, img.width);
    assert_eq!(out.height, img.height);
}

#[test]
fn combine_splits_at_midpoint() {
    let left = rgb_image(vec![1, 2, 3, 4, 5, 6], 2, 1);
    let right = rgb_image(vec![7, 8, 9, 10, 11, 12], 2, 1);
    let out = naive::combine(left, right).unwrap();
    // column 0 is left of the midpoint, column 1 is at it
    assert_eq!(out.bytes, vec![1, 2, 3, 10, 11, 12]);
}

#[test]
fn combine_mismatched_sizes() {
    let a = rgb_image(vec![1, 2, 3], 1, 1);
    let b = rgb_image(vec![1, 2, 3, 4, 5, 6], 2, 1);
    assert_eq!(naive::combine(a, b).unwrap_err(), Error::SizeMismatch);
}

#[test]
fn quarters_each_quadrant() {
    // 4x4 RGBA image, every pixel (200, 100, 50, 80)
    let px = [200u8, 100, 50, 80];
    let mut bytes = Vec::new();
    for _ in 0..16 {
        bytes.extend(px);
    }
    let img = Image::new(bytes, 4, 4, 4).unwrap();
    let out = naive::quarters(img);
    // bottom-right quadrant (x > 2, y > 2): red saturate-doubled, green halved
    assert_eq!(out.get_pixel(3, 3), vec![255, 50, 50, 80]);
    // top-right quadrant (x > 2, y < 2): grey mean (200 + 100 + 50) / 3 = 116
    assert_eq!(out.get_pixel(3, 0), vec![116, 116, 116, 80]);
    // bottom-left quadrant (x < 2, y > 2): red and blue swapped
    assert_eq!(out.get_pixel(0, 3), vec![50, 100, 200, 80]);
    // top-left quadrant: alpha quartered
    assert_eq!(out.get_pixel(0, 0), vec![200, 100, 50, 20]);
    // the midlines fall to the alpha-quartering branch
    assert_eq!(out.get_pixel(2, 2), vec![200, 100, 50, 20]);
}

#[test]
fn to_rgba_widens_each_format() {
    let grey = Image::new(vec![7, 8], 2, 1, 1).unwrap().to_rgba();
    assert_eq!(grey.channels, 4);
    assert_eq!(grey.bytes, vec![7, 7, 7, 255, 8, 8, 8, 255]);
    let rgb = rgb_image(vec![1, 2, 3], 1, 1).to_rgba();
    assert_eq!(rgb.bytes, vec![1, 2, 3, 255]);
    let rgba = Image::new(vec![1, 2, 3, 4], 1, 1, 4).unwrap().to_rgba();
    assert_eq!(rgba.bytes, vec![1, 2, 3, 4]);
}

#[test]
fn combine_after_widening() {
    let left = rgb_image(vec![1, 2, 3, 4, 5, 6], 2, 1).to_rgba();
    let right = Image::new(vec![9, 9, 9, 9, 8, 8, 8, 8], 2, 1, 4).unwrap();
    let out = naive::combine(left, right).unwrap();
    assert_eq!(out.bytes, vec![1, 2, 3, 255, 8, 8, 8, 8]);
}

#[test]
fn quarters_saturates_red() {
    let img = Image::new(vec![127, 9, 1, 200], 1, 1, 4).unwrap();
    // a 1x1 image has its only pixel on both midlines
    let out = naive::quarters(img);
    assert_eq!(out.bytes, vec![127, 9, 1, 50]);
}
