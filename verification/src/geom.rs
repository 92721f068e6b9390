//! Integer geometry: points, sizes, rectangles, insets and regions.
//!
//! All coordinates are `i64` device units. Operations that add coordinates
//! saturate at the ends of the `i64` range, so every geometric operation is
//! total; the saturation point is far outside any real window.

use vstd::prelude::*;

verus! {

/// A position, parent-relative unless said otherwise.
#[derive(Clone, Copy, PartialEq, Eq, Structural, Debug)]
pub struct Point {
    pub x: i64,
    pub y: i64,
}

/// The extent of a widget's layout box.
#[derive(Clone, Copy, PartialEq, Eq, Structural, Debug)]
pub struct Size {
    pub width: i64,
    pub height: i64,
}

/// An axis-aligned rectangle, `x0 <= x < x1`, `y0 <= y < y1`.
#[derive(Clone, Copy, PartialEq, Eq, Structural, Debug)]
pub struct Rect {
    pub x0: i64,
    pub y0: i64,
    pub x1: i64,
    pub y1: i64,
}

/// Distances by which a paint area extends past a layout box on each side.
#[derive(Clone, Copy, PartialEq, Eq, Structural, Debug)]
pub struct Insets {
    pub x0: i64,
    pub y0: i64,
    pub x1: i64,
    pub y1: i64,
}

/// Clamps a mathematical integer into the `i64` range.
pub open spec fn clamp_i64(v: int) -> int {
    if v < i64::MIN as int {
        i64::MIN as int
    } else if v > i64::MAX as int {
        i64::MAX as int
    } else {
        v
    }
}

/// Saturating coordinate addition.
pub open spec fn sat_add(a: i64, b: i64) -> i64 {
    clamp_i64(a as int + b as int) as i64
}

/// Saturating coordinate subtraction.
pub open spec fn sat_sub(a: i64, b: i64) -> i64 {
    clamp_i64(a as int - b as int) as i64
}

/// Adds two coordinates, saturating at the ends of the `i64` range.
pub fn add_coord(a: i64, b: i64) -> (r: i64)
    ensures
        r == sat_add(a, b),
{
    if b >= 0 {
        if a > i64::MAX - b {
            i64::MAX
        } else {
            a + b
        }
    } else {
        if a < i64::MIN - b {
            i64::MIN
        } else {
            a + b
        }
    }
}

/// Subtracts two coordinates, saturating at the ends of the `i64` range.
pub fn sub_coord(a: i64, b: i64) -> (r: i64)
    ensures
        r == sat_sub(a, b),
{
    if b <= 0 {
        if a > i64::MAX + b {
            i64::MAX
        } else {
            a - b
        }
    } else {
        if a < i64::MIN + b {
            i64::MIN
        } else {
            a - b
        }
    }
}

/// Whether `p` lies within `r` (the left and top edges included, the right
/// and bottom edges excluded).
pub open spec fn rect_contains_pt(r: Rect, p: Point) -> bool {
    r.x0 <= p.x < r.x1 && r.y0 <= p.y < r.y1
}

/// Whether `outer` covers all of `inner`.
pub open spec fn rect_contains_rect(outer: Rect, inner: Rect) -> bool {
    outer.x0 <= inner.x0 && outer.y0 <= inner.y0 && inner.x1 <= outer.x1 && inner.y1 <= outer.y1
}

/// The smallest rectangle covering both arguments.
pub open spec fn rect_union(a: Rect, b: Rect) -> Rect {
    Rect {
        x0: if a.x0 <= b.x0 { a.x0 } else { b.x0 },
        y0: if a.y0 <= b.y0 { a.y0 } else { b.y0 },
        x1: if a.x1 >= b.x1 { a.x1 } else { b.x1 },
        y1: if a.y1 >= b.y1 { a.y1 } else { b.y1 },
    }
}

/// `r` shifted by the vector `d`.
pub open spec fn rect_translate(r: Rect, d: Point) -> Rect {
    Rect {
        x0: sat_add(r.x0, d.x),
        y0: sat_add(r.y0, d.y),
        x1: sat_add(r.x1, d.x),
        y1: sat_add(r.y1, d.y),
    }
}

/// The rectangle with top-left corner `o` and extent `s`.
pub open spec fn rect_from_origin_size(o: Point, s: Size) -> Rect {
    Rect { x0: o.x, y0: o.y, x1: sat_add(o.x, s.width), y1: sat_add(o.y, s.height) }
}

/// `r` grown outward by `i` on each side.
pub open spec fn rect_expand(r: Rect, i: Insets) -> Rect {
    Rect {
        x0: sat_sub(r.x0, i.x0),
        y0: sat_sub(r.y0, i.y0),
        x1: sat_add(r.x1, i.x1),
        y1: sat_add(r.y1, i.y1),
    }
}

/// Whether no side of the insets is negative.
pub open spec fn insets_nonneg(i: Insets) -> bool {
    i.x0 >= 0 && i.y0 >= 0 && i.x1 >= 0 && i.y1 >= 0
}

/// The insets with every negative side replaced by zero.
pub open spec fn insets_clamp_nonneg(i: Insets) -> Insets {
    Insets {
        x0: if i.x0 >= 0 { i.x0 } else { 0 },
        y0: if i.y0 >= 0 { i.y0 } else { 0 },
        x1: if i.x1 >= 0 { i.x1 } else { 0 },
        y1: if i.y1 >= 0 { i.y1 } else { 0 },
    }
}

/// Growing a rectangle by nonnegative insets yields a rectangle that covers it.
pub proof fn lemma_expand_contains(r: Rect, i: Insets)
    requires
        insets_nonneg(i),
    ensures
        rect_contains_rect(rect_expand(r, i), r),
{
}

impl Rect {
    /// The rectangle covering nothing, used as the unit for accumulation.
    pub fn zero() -> (r: Rect)
        ensures
            r == (Rect { x0: 0, y0: 0, x1: 0, y1: 0 }),
    {
        Rect { x0: 0, y0: 0, x1: 0, y1: 0 }
    }

    /// Builds the rectangle with top-left corner `o` and extent `s`.
    pub fn from_origin_size(o: Point, s: Size) -> (r: Rect)
        ensures
            r == rect_from_origin_size(o, s),
    {
        Rect { x0: o.x, y0: o.y, x1: add_coord(o.x, s.width), y1: add_coord(o.y, s.height) }
    }

    /// The smallest rectangle covering `self` and `other`.
    pub fn union(&self, other: &Rect) -> (r: Rect)
        ensures
            r == rect_union(*self, *other),
    {
        Rect {
            x0: if self.x0 <= other.x0 { self.x0 } else { other.x0 },
            y0: if self.y0 <= other.y0 { self.y0 } else { other.y0 },
            x1: if self.x1 >= other.x1 { self.x1 } else { other.x1 },
            y1: if self.y1 >= other.y1 { self.y1 } else { other.y1 },
        }
    }

    /// `self` shifted by the vector `d`.
    pub fn translate(&self, d: Point) -> (r: Rect)
        ensures
            r == rect_translate(*self, d),
    {
        Rect {
            x0: add_coord(self.x0, d.x),
            y0: add_coord(self.y0, d.y),
            x1: add_coord(self.x1, d.x),
            y1: add_coord(self.y1, d.y),
        }
    }

    /// `self` grown outward by `i` on each side.
    pub fn expand(&self, i: Insets) -> (r: Rect)
        ensures
            r == rect_expand(*self, i),
    {
        Rect {
            x0: sub_coord(self.x0, i.x0),
            y0: sub_coord(self.y0, i.y0),
            x1: add_coord(self.x1, i.x1),
            y1: add_coord(self.y1, i.y1),
        }
    }

    /// Whether `p` lies within `self`.
    pub fn contains_pt(&self, p: Point) -> (r: bool)
        ensures
            r == rect_contains_pt(*self, p),
    {
        self.x0 <= p.x && p.x < self.x1 && self.y0 <= p.y && p.y < self.y1
    }

    /// Whether `self` covers all of `inner`.
    pub fn contains_rect(&self, inner: &Rect) -> (r: bool)
        ensures
            r == rect_contains_rect(*self, *inner),
    {
        self.x0 <= inner.x0 && self.y0 <= inner.y0 && inner.x1 <= self.x1 && inner.y1 <= self.y1
    }
}

impl Insets {
    /// The insets with every negative side replaced by zero.
    pub fn nonnegative(&self) -> (r: Insets)
        ensures
            r == insets_clamp_nonneg(*self),
    {
        Insets {
            x0: if self.x0 >= 0 { self.x0 } else { 0 },
            y0: if self.y0 >= 0 { self.y0 } else { 0 },
            x1: if self.x1 >= 0 { self.x1 } else { 0 },
            y1: if self.y1 >= 0 { self.y1 } else { 0 },
        }
    }
}

/// A union of rectangles, kept as the list of rectangles that were added.
#[derive(Clone, Debug)]
pub struct Region {
    pub rects: Vec<Rect>,
}

/// Whether some rectangle of the region covers all of `r`.
pub open spec fn region_covers(reg: Region, r: Rect) -> bool {
    exists|i: int| 0 <= i < reg.rects@.len() && rect_contains_rect(reg.rects@[i], r)
}

impl Region {
    /// The empty region.
    pub fn empty() -> (r: Region)
        ensures
            r.rects@.len() == 0,
    {
        Region { rects: Vec::new() }
    }

    /// The region consisting of the one rectangle `r`.
    pub fn single(r: Rect) -> (reg: Region)
        ensures
            reg.rects@ =~= seq![r],
    {
        let mut rects: Vec<Rect> = Vec::new();
        rects.push(r);
        Region { rects }
    }

    /// Adds `r` to the union.
    pub fn add_rect(&mut self, r: Rect)
        ensures
            final(self).rects@ == old(self).rects@.push(r),
    {
        self.rects.push(r);
    }

    /// Replaces the whole region by the one rectangle `r`.
    pub fn set_rect(&mut self, r: Rect)
        ensures
            final(self).rects@ =~= seq![r],
    {
        self.rects.clear();
        self.rects.push(r);
    }

    /// Removes every rectangle.
    pub fn clear(&mut self)
        ensures
            final(self).rects@.len() == 0,
    {
        self.rects.clear();
    }

    /// Whether some rectangle of the region covers all of `r`.
    pub fn covers(&self, r: &Rect) -> (b: bool)
        ensures
            b == region_covers(*self, *r),
    {
        let mut i: usize = 0;
        while i < self.rects.len()
            invariant
                0 <= i <= self.rects@.len(),
                forall|j: int| 0 <= j < i ==> !rect_contains_rect(self.rects@[j], *r),
            decreases self.rects@.len() - i,
        {
            if self.rects[i].contains_rect(r) {
                return true;
            }
            i = i + 1;
        }
        false
    }
}

} // verus!
