//! Surface sizing for the renderer and the aspect ratio for the camera, both
//! taken from a window's client area.
use vstd::prelude::*;

use crate::event::Rect;

verus! {

/// The surface size for a client area: its width and height when both are
/// positive; an empty area keeps the current size.
pub open spec fn surface_size_spec(r: Rect) -> Option<(u32, u32)> {
    if r.width_spec() > 0 && r.height_spec() > 0 {
        Some((r.width_spec() as u32, r.height_spec() as u32))
    } else {
        None
    }
}

/// Width and height to configure the surface with, if the area is not empty.
pub fn surface_size(r: &Rect) -> (s: Option<(u32, u32)>)
    ensures
        s == surface_size_spec(*r),
        s matches Some((w, h)) ==> w == r.width_spec() && h == r.height_spec(),
{
    let w = r.width();
    let h = r.height();
    if w > 0 && h > 0 {
        Some((w as u32, h as u32))
    } else {
        None
    }
}

} // verus!
