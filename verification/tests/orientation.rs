use image::DynamicImage;
use media_core::apply_orientation;
use media_core::read_orientation;
use media_core::Orientation;

#[test]
fn test_orientation_from_u16() {
    assert_eq!(Orientation::from_u16(1), Some(Orientation::Normal));
    assert_eq!(Orientation::from_u16(6), Some(Orientation::Rotate90));
    assert_eq!(Orientation::from_u16(8), Some(Orientation::Rotate270));
    assert_eq!(Orientation::from_u16(9), None);
}

#[test]
fn test_apply_orientation_normal() {
    let img = DynamicImage::new_rgb8(10, 20);
    let result = apply_orientation(img.clone(), Orientation::Normal);
    assert_eq!(result.width(), 10);
    assert_eq!(result.height(), 20);
}

#[test]
fn test_apply_orientation_rotate90() {
    let img = DynamicImage::new_rgb8(10, 20);
    let result = apply_orientation(img, Orientation::Rotate90);
    assert_eq!(result.width(), 20);
    assert_eq!(result.height(), 10);
}

#[test]
fn test_apply_orientation_axis_swaps() {
    for (orientation, swaps) in [
        (Orientation::Normal, false),
        (Orientation::FlipHorizontal, false),
        (Orientation::Rotate180, false),
        (Orientation::FlipVertical, false),
        (Orientation::Transpose, true),
        (Orientation::Rotate90, true),
        (Orientation::Transverse, true),
        (Orientation::Rotate270, true),
    ] {
        let img = DynamicImage::new_rgb8(10, 20);
        let result = apply_orientation(img, orientation);
        let expected = if swaps { (20, 10) } else { (10, 20) };
        assert_eq!((result.width(), result.height()), expected, "{orientation:?}");
    }
}

#[test]
fn test_apply_orientation_moves_pixels() {
    let mut rgb = image::RgbImage::new(2, 1);
    rgb.put_pixel(0, 0, image::Rgb([255, 0, 0]));
    rgb.put_pixel(1, 0, image::Rgb([0, 0, 255]));
    let img = DynamicImage::ImageRgb8(rgb);
    let flipped = apply_orientation(img, Orientation::FlipHorizontal).to_rgb8();
    assert_eq!(flipped.get_pixel(0, 0), &image::Rgb([0, 0, 255]));
    assert_eq!(flipped.get_pixel(1, 0), &image::Rgb([255, 0, 0]));
}

/// A minimal little-endian TIFF holding one IFD with a single SHORT
/// orientation entry of the given value.
fn tiff_with_orientation(value: u16) -> Vec<u8> {
    let mut bytes: Vec<u8> = Vec::new();
    bytes.extend_from_slice(b"II");
    bytes.extend_from_slice(&42u16.to_le_bytes());
    bytes.extend_from_slice(&8u32.to_le_bytes());
    bytes.extend_from_slice(&1u16.to_le_bytes());
    bytes.extend_from_slice(&0x0112u16.to_le_bytes());
    bytes.extend_from_slice(&3u16.to_le_bytes());
    bytes.extend_from_slice(&1u32.to_le_bytes());
    bytes.extend_from_slice(&value.to_le_bytes());
    bytes.extend_from_slice(&[0, 0]);
    bytes.extend_from_slice(&0u32.to_le_bytes());
    bytes
}

#[test]
fn test_read_orientation_from_exif() {
    let data = tiff_with_orientation(6);
    assert_eq!(read_orientation(&data), Some(Orientation::Rotate90));
    let data = tiff_with_orientation(1);
    assert_eq!(read_orientation(&data), Some(Orientation::Normal));
    let data = tiff_with_orientation(9);
    assert_eq!(read_orientation(&data), None);
}

#[test]
fn test_read_orientation_tolerates_absence() {
    assert_eq!(read_orientation(b"not an image at all"), None);
    assert_eq!(read_orientation(&[]), None);
}
