use vstd::prelude::*;

verus! {

/// An axis-aligned rectangle on the drawing surface, in pixels.
///
/// `left <= right` and `top <= bottom` hold for every rectangle this
/// library produces; `wf` states that.
#[derive(Clone, Copy, PartialEq, Eq, Structural, Debug)]
pub struct Rect {
    pub left: u32,
    pub top: u32,
    pub right: u32,
    pub bottom: u32,
}

impl Rect {
    /// A rectangle is well formed when its sides are ordered.
    pub open spec fn wf(self) -> bool {
        self.left <= self.right && self.top <= self.bottom
    }

    pub open spec fn spec_width(self) -> int {
        self.right - self.left
    }

    pub open spec fn spec_height(self) -> int {
        self.bottom - self.top
    }

    pub fn width(&self) -> (w: u32)
        requires
            self.wf(),
        ensures
            w == self.spec_width(),
    {
        self.right - self.left
    }

    pub fn height(&self) -> (h: u32)
        requires
            self.wf(),
        ensures
            h == self.spec_height(),
    {
        self.bottom - self.top
    }
}

/// The margin kept on each side of the surface: one twentieth of the
/// extent in that direction, rounded down.
pub open spec fn margin(extent: int) -> int {
    extent / 20
}

/// The part of the surface available for text: the full surface rectangle
/// inset by `margin(width)` on the left and right and by `margin(height)`
/// on the top and bottom. A degenerate (zero-sized) surface yields an
/// empty usable rectangle; no input is rejected.
pub fn compute_usable_rect(surface_width: u32, surface_height: u32) -> (r: Rect)
    ensures
        r.left == margin(surface_width as int),
        r.top == margin(surface_height as int),
        r.right == surface_width - margin(surface_width as int),
        r.bottom == surface_height - margin(surface_height as int),
        r.wf(),
        r.spec_width() == surface_width - 2 * margin(surface_width as int),
        r.spec_height() == surface_height - 2 * margin(surface_height as int),
{
    let margin_x = surface_width / 20;
    let margin_y = surface_height / 20;
    proof {
        assert(2 * (surface_width as int / 20) <= surface_width as int) by (nonlinear_arith);
        assert(2 * (surface_height as int / 20) <= surface_height as int) by (nonlinear_arith);
    }
    Rect {
        left: margin_x,
        top: margin_y,
        right: surface_width - margin_x,
        bottom: surface_height - margin_y,
    }
}

} // verus!
