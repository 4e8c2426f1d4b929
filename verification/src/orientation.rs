//! EXIF orientation: reading the tag and normalizing the pixel buffer.

use vstd::prelude::*;

use crate::image_ops::exif_orientation_code;
use crate::image_ops::flip_horizontal;
use crate::image_ops::flip_vertical;
use crate::image_ops::fliph_bytes;
use crate::image_ops::flipv_bytes;
use crate::image_ops::img_data;
use crate::image_ops::img_height;
use crate::image_ops::img_width;
use crate::image_ops::read_exif_code;
use crate::image_ops::rotate180_bytes;
use crate::image_ops::rotate270_bytes;
use crate::image_ops::rotate90_bytes;
use crate::image_ops::rotate_180;
use crate::image_ops::rotate_270;
use crate::image_ops::rotate_90;

verus! {

/// The eight EXIF orientation codes, each a fixed rotation or flip.
#[derive(Debug, Clone, Copy, PartialEq, Eq, Structural)]
pub enum Orientation {
    Normal,
    FlipHorizontal,
    Rotate180,
    FlipVertical,
    Transpose,
    Rotate90,
    Transverse,
    Rotate270,
}

impl Orientation {
    /// The orientation denoted by a raw EXIF tag value; codes outside one
    /// through eight denote none.
    pub open spec fn spec_from_u16(value: u16) -> Option<Orientation> {
        match value {
            1u16 => Some(Orientation::Normal),
            2u16 => Some(Orientation::FlipHorizontal),
            3u16 => Some(Orientation::Rotate180),
            4u16 => Some(Orientation::FlipVertical),
            5u16 => Some(Orientation::Transpose),
            6u16 => Some(Orientation::Rotate90),
            7u16 => Some(Orientation::Transverse),
            8u16 => Some(Orientation::Rotate270),
            _ => None,
        }
    }

    /// Maps a raw EXIF tag value to its orientation.
    pub fn from_u16(value: u16) -> (r: Option<Orientation>)
        ensures
            r == Orientation::spec_from_u16(value),
    {
        match value {
            1u16 => Some(Orientation::Normal),
            2u16 => Some(Orientation::FlipHorizontal),
            3u16 => Some(Orientation::Rotate180),
            4u16 => Some(Orientation::FlipVertical),
            5u16 => Some(Orientation::Transpose),
            6u16 => Some(Orientation::Rotate90),
            7u16 => Some(Orientation::Transverse),
            8u16 => Some(Orientation::Rotate270),
            _ => None,
        }
    }

    /// Whether normalizing this orientation swaps width and height: true
    /// of the four quarter-turn transforms.
    pub open spec fn swaps_axes(self) -> bool {
        match self {
            Orientation::Transpose => true,
            Orientation::Rotate90 => true,
            Orientation::Transverse => true,
            Orientation::Rotate270 => true,
            _ => false,
        }
    }
}

/// The width of a picture after its orientation is normalized.
pub open spec fn oriented_width(o: Orientation, w: u32, h: u32) -> u32 {
    if o.swaps_axes() {
        h
    } else {
        w
    }
}

/// The height of a picture after its orientation is normalized.
pub open spec fn oriented_height(o: Orientation, w: u32, h: u32) -> u32 {
    if o.swaps_axes() {
        w
    } else {
        h
    }
}

/// The pixel contents of a picture after its orientation is normalized:
/// the fixed transform each EXIF code stands for.
pub open spec fn oriented_data(o: Orientation, d: Seq<u8>, w: u32, h: u32) -> Seq<u8> {
    match o {
        Orientation::Normal => d,
        Orientation::FlipHorizontal => fliph_bytes(d, w, h),
        Orientation::Rotate180 => rotate180_bytes(d, w, h),
        Orientation::FlipVertical => flipv_bytes(d, w, h),
        Orientation::Transpose => fliph_bytes(rotate90_bytes(d, w, h), h, w),
        Orientation::Rotate90 => rotate90_bytes(d, w, h),
        Orientation::Transverse => fliph_bytes(rotate270_bytes(d, w, h), h, w),
        Orientation::Rotate270 => rotate270_bytes(d, w, h),
    }
}

/// Rotates or flips the pixel buffer so its visual orientation is
/// canonical. A quarter-turn orientation swaps the extents; `Normal`
/// returns the picture untouched.
pub fn apply_orientation(img: image::DynamicImage, orientation: Orientation) -> (r:
    image::DynamicImage)
    ensures
        img_width(r) == oriented_width(orientation, img_width(img), img_height(img)),
        img_height(r) == oriented_height(orientation, img_width(img), img_height(img)),
        img_data(r) == oriented_data(orientation, img_data(img), img_width(img), img_height(img)),
{
    match orientation {
        Orientation::Normal => img,
        Orientation::FlipHorizontal => flip_horizontal(&img),
        Orientation::Rotate180 => rotate_180(&img),
        Orientation::FlipVertical => flip_vertical(&img),
        Orientation::Transpose => {
            let turned = rotate_90(&img);
            flip_horizontal(&turned)
        },
        Orientation::Rotate90 => rotate_90(&img),
        Orientation::Transverse => {
            let turned = rotate_270(&img);
            flip_horizontal(&turned)
        },
        Orientation::Rotate270 => rotate_270(&img),
    }
}

/// The orientation carried by a byte stream: the EXIF orientation code,
/// mapped through `Orientation::spec_from_u16`; absent, malformed or
/// unrecognized EXIF yields none.
pub open spec fn spec_read_orientation(bytes: Seq<u8>) -> Option<Orientation> {
    match exif_orientation_code(bytes) {
        Some(code) => Orientation::spec_from_u16(code),
        None => None,
    }
}

/// Reads the EXIF orientation tag from a raw byte stream. Absence or
/// malformed EXIF yields `None` rather than an error: orientation is an
/// enhancement, never a reason to fail the pipeline.
pub fn read_orientation(data: &[u8]) -> (r: Option<Orientation>)
    ensures
        r == spec_read_orientation(data@),
{
    match read_exif_code(data) {
        Some(code) => Orientation::from_u16(code),
        None => None,
    }
}

} // verus!
