use realsense_rust::base::{DynamicImage, Rs2Image};

#[test]
fn owned_image_copies_the_samples() {
    let data: Vec<u8> = (0..12).collect();
    let image = Rs2Image::Rgb8 { width: 2, height: 2, data: &data };
    assert_eq!(
        image.to_owned(),
        DynamicImage::ImageRgb8 { width: 2, height: 2, data: data.clone() }
    );
    let image = Rs2Image::Bgr8 { width: 4, height: 1, data: &data };
    assert_eq!(
        image.to_owned(),
        DynamicImage::ImageBgr8 { width: 4, height: 1, data: data.clone() }
    );
    let image = Rs2Image::Rgba8 { width: 1, height: 3, data: &data };
    assert_eq!(
        image.to_owned(),
        DynamicImage::ImageRgba8 { width: 1, height: 3, data: data.clone() }
    );
    let image = Rs2Image::Bgra8 { width: 3, height: 1, data: &data };
    assert_eq!(
        image.to_owned(),
        DynamicImage::ImageBgra8 { width: 3, height: 1, data: data.clone() }
    );
}

#[test]
fn owned_image_leaves_out_what_lies_behind_the_pixels() {
    let data: Vec<u16> = vec![10, 20, 30, 40, 50, 60, 70];
    let image = Rs2Image::Luma16 { width: 3, height: 2, data: &data };
    assert_eq!(
        image.to_owned(),
        DynamicImage::ImageLuma16 { width: 3, height: 2, data: vec![10, 20, 30, 40, 50, 60] }
    );
    let bytes: Vec<u8> = vec![1, 2, 3, 4, 5];
    let image = Rs2Image::Rgb8 { width: 1, height: 1, data: &bytes };
    assert_eq!(
        image.to_owned(),
        DynamicImage::ImageRgb8 { width: 1, height: 1, data: vec![1, 2, 3] }
    );
}

#[test]
fn owned_image_of_no_pixels_is_empty() {
    let data: Vec<u8> = vec![1, 2, 3];
    let image = Rs2Image::Rgba8 { width: 0, height: 7, data: &data };
    assert_eq!(
        image.to_owned(),
        DynamicImage::ImageRgba8 { width: 0, height: 7, data: vec![] }
    );
    let none: Vec<u16> = vec![];
    let image = Rs2Image::Luma16 { width: 5, height: 0, data: &none };
    assert_eq!(
        image.to_owned(),
        DynamicImage::ImageLuma16 { width: 5, height: 0, data: vec![] }
    );
}
