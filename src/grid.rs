use vstd::prelude::*;
use itertools::Itertools;

verus! {

/// Scene coordinates of the pixel at render position `k`: columns major,
/// rows minor.
pub open spec fn render_pixel(height: int, k: int) -> (int, int) {
    (k / height, k % height)
}

/// Relies on itertools::Itertools::cartesian_product over two ranges: every pair,
/// the first range major and the second minor.
#[verifier::external_body]
fn cartesian_grid(width: u32, height: u32) -> (r: Vec<(u32, u32)>)
    requires
        width * height <= usize::MAX,
    ensures
        r@.len() == width * height,
        forall|k: int|
            0 <= k < r@.len() ==> (#[trigger] r@[k]).0 == k / (height as int) && r@[k].1 == k
                % (height as int),
{
    (0..width).cartesian_product(0..height).collect()
}

/// Every pixel of a `width` by `height` image, in render order.
pub fn pixel_grid(width: u32, height: u32) -> (r: Vec<(u32, u32)>)
    requires
        width * height <= usize::MAX,
    ensures
        r@.len() == width * height,
        forall|k: int|
            0 <= k < r@.len() ==> (#[trigger] r@[k]).0 == render_pixel(height as int, k).0
                && r@[k].1 == render_pixel(height as int, k).1,
{
    cartesian_grid(width, height)
}

} // verus!
