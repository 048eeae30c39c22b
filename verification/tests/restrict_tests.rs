use experiments::buffer::{Error, Image};
use experiments::naive::{self, ColorChannel, Hsv, Lab};
use experiments::utils;

fn rgb_image(bytes: Vec<u8>, w: u32, h: u32) -> Image {
    Image::new(bytes, w, h, 3).unwrap()
}

#[test]
fn lab_zero_l_is_black() {
    // zeroing L* leaves no lightness, whatever the colour was
    let img = rgb_image(vec![255, 255, 255], 1, 1);
    let out = naive::restrict::<Lab>(img, 'L').unwrap();
    assert_eq!(out.bytes, vec![0, 0, 0]);
}

#[test]
fn lab_zero_a_changes_red() {
    let img = rgb_image(vec![255, 0, 0], 1, 1);
    let out = naive::restrict::<Lab>(img.clone(), 'A').unwrap();
    assert_ne!(out.bytes, img.bytes);
}

#[test]
fn lab_zero_b_changes_blue() {
    let img = rgb_image(vec![0, 0, 255], 1, 1);
    let out = naive::restrict::<Lab>(img.clone(), 'B').unwrap();
    assert_ne!(out.bytes, img.bytes);
}

#[test]
fn hsv_zero_value_is_black() {
    let img = rgb_image(vec![10, 20, 30], 1, 1);
    let out = naive::restrict::<Hsv>(img, 'V').unwrap();
    assert_eq!(out.bytes, vec![0, 0, 0]);
}

#[test]
fn hsv_zero_saturation_greys() {
    // without saturation only the value remains: all channels equal
    let img = rgb_image(vec![200, 50, 100], 1, 1);
    let out = naive::restrict::<Hsv>(img.clone(), 'S').unwrap();
    assert_ne!(out.bytes, img.bytes);
    assert_eq!(out.bytes[0], out.bytes[1]);
    assert_eq!(out.bytes[1], out.bytes[2]);
}

#[test]
fn hsv_zero_hue_turns_red() {
    // hue zero is red: a saturated green pixel moves to the red hue
    let img = rgb_image(vec![0, 255, 0], 1, 1);
    let out = naive::restrict::<Hsv>(img.clone(), 'H').unwrap();
    assert_ne!(out.bytes, img.bytes);
    assert_eq!(out.bytes, vec![255, 0, 0]);
}

#[test]
fn restrict_accepts_lower_case() {
    let img = rgb_image(vec![10, 20, 30], 1, 1);
    let upper = naive::restrict::<Hsv>(img.clone(), 'V').unwrap();
    let lower = naive::restrict::<Hsv>(img, 'v').unwrap();
    assert_eq!(upper.bytes, lower.bytes);
}

#[test]
fn restrict_invalid_channel() {
    let img = rgb_image(vec![10, 20, 30], 1, 1);
    assert_eq!(
        naive::restrict::<Lab>(img.clone(), 'H').unwrap_err(),
        Error::InvalidChannel
    );
    assert_eq!(
        naive::restrict::<Hsv>(img, 'L').unwrap_err(),
        Error::InvalidChannel
    );
}

#[test]
fn zero_channel_refuses_unknown_letter() {
    assert_eq!(
        Lab::zero_channel(1, 2, 3, 'x').unwrap_err(),
        Error::InvalidChannel
    );
}

#[test]
fn gen_image_shape() {
    let img = utils::gen_image(64);
    assert_eq!(img.width, 64);
    assert_eq!(img.height, 64);
    assert_eq!(img.channels, 3);
    assert_eq!(img.bytes.len(), 64 * 64 * 3);
}

#[test]
fn image_new_rejects_bad_length() {
    assert_eq!(
        Image::new(vec![1, 2, 3, 4], 1, 1, 3).unwrap_err(),
        Error::BufferSize
    );
    assert_eq!(
        Image::new(vec![1, 2], 1, 1, 2).unwrap_err(),
        Error::BufferSize
    );
    assert!(Image::new(vec![1, 2, 3], 1, 1, 3).is_ok());
}
