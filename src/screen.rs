//! Mapping of a pixel to its place on the normalized screen. The image is
//! laid over the [-1, 1] box along its longer side; a pixel's center is
//! `(x_num / scale, y_num / scale)`, with row 0 at the top.

use vstd::prelude::*;

verus! {

/// Exact center of a pixel as a pair of numerators over a common scale.
#[derive(Clone, Copy, Debug, PartialEq, Eq, Structural)]
pub struct ScreenPoint {
    pub x_num: i64,
    pub y_num: i64,
    pub scale: u32,
}

pub open spec fn x_numerator(x: int, width: int) -> int {
    2 * x + 1 - width
}

pub open spec fn y_numerator(y: int, height: int) -> int {
    2 * (height - y) - 1 - height
}

pub open spec fn longer_side(width: int, height: int) -> int {
    if width >= height {
        width
    } else {
        height
    }
}

/// The center of pixel `(x, y)` of a `width` by `height` image. A pixel of
/// the image lies strictly inside the box: both numerators are smaller than
/// the scale in absolute value.
pub fn pixel_center(x: u32, y: u32, width: u32, height: u32) -> (r: ScreenPoint)
    requires
        y < height,
    ensures
        r.x_num == x_numerator(x as int, width as int),
        r.y_num == y_numerator(y as int, height as int),
        r.scale == longer_side(width as int, height as int),
        x < width ==> -r.scale < r.x_num < r.scale,
        -r.scale < r.y_num < r.scale,
{
    let scale: u32 = if width >= height {
        width
    } else {
        height
    };
    let x_num: i64 = 2 * (x as i64) + 1 - (width as i64);
    let y_num: i64 = 2 * ((height - y) as i64) - 1 - (height as i64);
    ScreenPoint { x_num, y_num, scale }
}

/// Pixels mirrored across the image's vertical axis get opposite horizontal
/// coordinates, and pixels mirrored across its horizontal axis opposite
/// vertical ones: the image is centered on the screen.
pub proof fn lemma_image_centered(x: int, y: int, width: int, height: int)
    requires
        0 <= x < width,
        0 <= y < height,
    ensures
        x_numerator(width - 1 - x, width) == -x_numerator(x, width),
        y_numerator(height - 1 - y, height) == -y_numerator(y, height),
{
}

} // verus!
