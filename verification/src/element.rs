//! Candidate elements and their screen geometry.

use vstd::prelude::*;

verus! {

/// Widest element that is still treated as a target.
pub const MAX_ELEMENT_WIDTH: i32 = 3000;

/// Tallest element that is still treated as a target.
pub const MAX_ELEMENT_HEIGHT: i32 = 2000;

/// An on-screen element that can be acted upon, with its bounding box in
/// device pixels.
#[derive(Debug)]
pub struct ClickableElement {
    pub name: String,
    pub role: String,
    pub x: i32,
    pub y: i32,
    pub width: i32,
    pub height: i32,
}

/// Whether a bounding box lies on screen, is not empty and is small enough to
/// be a target rather than a background surface.
pub open spec fn plausible_box(x: int, y: int, width: int, height: int) -> bool {
    &&& x >= 0
    &&& y >= 0
    &&& 0 < width < MAX_ELEMENT_WIDTH
    &&& 0 < height < MAX_ELEMENT_HEIGHT
}

/// Half of `v`, rounded towards zero.
pub open spec fn half(v: int) -> int {
    if v >= 0 {
        v / 2
    } else {
        -((-v) / 2)
    }
}

/// What an element holds, as mathematical values.
pub struct ElementView {
    pub name: Seq<char>,
    pub role: Seq<char>,
    pub x: int,
    pub y: int,
    pub width: int,
    pub height: int,
}

impl ElementView {
    /// The geometric invariant, on the mathematical value.
    pub open spec fn plausible(self) -> bool {
        plausible_box(self.x, self.y, self.width, self.height)
    }
}

impl View for ClickableElement {
    type V = ElementView;

    open spec fn view(&self) -> ElementView {
        ElementView {
            name: self.name@,
            role: self.role@,
            x: self.x as int,
            y: self.y as int,
            width: self.width as int,
            height: self.height as int,
        }
    }
}

/// The mathematical values of a sequence of elements.
pub open spec fn element_views(elements: Seq<ClickableElement>) -> Seq<ElementView> {
    elements.map_values(|e: ClickableElement| e@)
}

impl Clone for ClickableElement {
    fn clone(&self) -> (copy: Self)
        ensures
            copy == *self,
    {
        ClickableElement {
            name: self.name.clone(),
            role: self.role.clone(),
            x: self.x,
            y: self.y,
            width: self.width,
            height: self.height,
        }
    }
}

impl ClickableElement {
    /// The geometric invariant of every element that discovery hands out.
    pub open spec fn plausible(&self) -> bool {
        plausible_box(self.x as int, self.y as int, self.width as int, self.height as int)
    }

    /// The centre of the bounding box, as a pair of mathematical integers.
    pub open spec fn center_spec(&self) -> (int, int) {
        (self.x + half(self.width as int), self.y + half(self.height as int))
    }

    /// Whether the centre can be held in `i32` coordinates.
    pub open spec fn center_fits(&self) -> bool {
        &&& i32::MIN <= self.center_spec().0 <= i32::MAX
        &&& i32::MIN <= self.center_spec().1 <= i32::MAX
    }

    /// The centre point of the element, where a click lands.
    pub fn center(&self) -> (p: (i32, i32))
        requires
            self.center_fits(),
        ensures
            p.0 == self.center_spec().0,
            p.1 == self.center_spec().1,
    {
        (self.x + self.width / 2, self.y + self.height / 2)
    }
}

} // verus!
