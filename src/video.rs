//! Turning a camera frame, decoded to packed RGB, into the RGBA pixels of a
//! texture.

use vstd::prelude::*;

verus! {

/// Pixel `i` of a texture filled from packed RGB bytes: opaque where the
/// bytes hold a whole pixel, transparent black past their end.
pub open spec fn rgba_pixel(rgb: Seq<u8>, i: int) -> (u8, u8, u8, u8) {
    if 3 * i + 3 <= rgb.len() {
        (rgb[3 * i], rgb[3 * i + 1], rgb[3 * i + 2], 255u8)
    } else {
        (0u8, 0u8, 0u8, 0u8)
    }
}

/// The `pixels` RGBA pixels of a texture filled from packed RGB bytes.
pub fn rgb_to_rgba(rgb: &[u8], pixels: usize) -> (r: Vec<(u8, u8, u8, u8)>)
    ensures
        r@.len() == pixels,
        forall|i: int| 0 <= i < pixels ==> #[trigger] r@[i] == rgba_pixel(rgb@, i),
{
    let mut out: Vec<(u8, u8, u8, u8)> = Vec::with_capacity(pixels);
    let n = rgb.len();
    let whole = n / 3;
    let mut i: usize = 0;
    while i < pixels
        invariant
            i <= pixels,
            n == rgb@.len(),
            whole == n / 3,
            out@.len() == i,
            forall|j: int| 0 <= j < i ==> #[trigger] out@[j] == rgba_pixel(rgb@, j),
        decreases pixels - i,
    {
        if i < whole {
            assert(3 * i + 3 <= n) by (nonlinear_arith)
                requires
                    i < whole,
                    whole == n / 3,
            ;
            let k = 3 * i;
            out.push((rgb[k], rgb[k + 1], rgb[k + 2], 255));
        } else {
            assert(3 * i + 3 > n) by (nonlinear_arith)
                requires
                    i >= whole,
                    whole == n / 3,
            ;
            out.push((0, 0, 0, 0));
        }
        i += 1;
    }
    out
}

} // verus!
