//! Axis-aligned rectangles on the desktop and the translation between a
//! capture's own coordinates and those of the whole display.

use vstd::prelude::*;

verus! {

/// The mathematical rectangle that a [`DisplayArea`] stands for: two corners
/// over the unbounded integers.
pub struct Rect {
    pub s_x: int,
    pub s_y: int,
    pub e_x: int,
    pub e_y: int,
}

/// The quotient of `a` by two, rounded toward zero.
pub open spec fn half_toward_zero(a: int) -> int {
    if a >= 0 {
        a / 2
    } else {
        -((-a) / 2)
    }
}

/// The smaller of two integers.
pub open spec fn lower(a: int, b: int) -> int {
    if a <= b {
        a
    } else {
        b
    }
}

/// The larger of two integers.
pub open spec fn upper(a: int, b: int) -> int {
    if a <= b {
        b
    } else {
        a
    }
}

/// The distance between two integers.
pub open spec fn distance(a: int, b: int) -> int {
    if a <= b {
        b - a
    } else {
        a - b
    }
}

/// The rectangle spanned by two arbitrary corners, start corner first.
pub open spec fn spanning(x1: int, y1: int, x2: int, y2: int) -> Rect {
    Rect { s_x: lower(x1, x2), s_y: lower(y1, y2), e_x: upper(x1, x2), e_y: upper(y1, y2) }
}

impl Rect {
    /// The start corner does not lie beyond the end corner on either axis.
    pub open spec fn normalized(self) -> bool {
        self.s_x <= self.e_x && self.s_y <= self.e_y
    }

    /// Extent along the horizontal axis.
    pub open spec fn width(self) -> int {
        distance(self.s_x, self.e_x)
    }

    /// Extent along the vertical axis.
    pub open spec fn height(self) -> int {
        distance(self.s_y, self.e_y)
    }

    /// The corner with the smaller coordinate on each axis.
    pub open spec fn origin(self) -> (int, int) {
        (lower(self.s_x, self.e_x), lower(self.s_y, self.e_y))
    }

    /// The midpoint of the two corners, each coordinate rounded toward zero.
    pub open spec fn center(self) -> (int, int) {
        (half_toward_zero(self.s_x + self.e_x), half_toward_zero(self.s_y + self.e_y))
    }

    /// The same rectangle moved by `(dx, dy)`.
    pub open spec fn translated(self, dx: int, dy: int) -> Rect {
        Rect { s_x: self.s_x + dx, s_y: self.s_y + dy, e_x: self.e_x + dx, e_y: self.e_y + dy }
    }

    /// Every coordinate is representable as an `i32`.
    pub open spec fn representable(self) -> bool {
        &&& i32::MIN <= self.s_x <= i32::MAX
        &&& i32::MIN <= self.s_y <= i32::MAX
        &&& i32::MIN <= self.e_x <= i32::MAX
        &&& i32::MIN <= self.e_y <= i32::MAX
    }
}

/// A rectangle in some coordinate space, either that of the display or that
/// of a captured frame. Every constructor yields a normalized rectangle.
#[derive(Clone, Copy, Debug, PartialEq, Eq)]
pub struct DisplayArea {
    s_x: i32,
    s_y: i32,
    e_x: i32,
    e_y: i32,
}

impl View for DisplayArea {
    type V = Rect;

    closed spec fn view(&self) -> Rect {
        Rect { s_x: self.s_x as int, s_y: self.s_y as int, e_x: self.e_x as int, e_y: self.e_y as int }
    }
}

impl DisplayArea {
    /// Well-formedness: the start corner precedes the end corner.
    pub open spec fn wf(&self) -> bool {
        self@.normalized()
    }

    /// Whether this area, read as relative to the origin of `basic_area`,
    /// still has coordinates that fit when expressed in the coordinates of
    /// `basic_area`.
    pub fn fits_relative(&self, basic_area: &DisplayArea) -> (res: bool)
        ensures
            res == self@.translated(basic_area@.s_x, basic_area@.s_y).representable(),
    {
        let x: i64 = basic_area.s_x as i64;
        let y: i64 = basic_area.s_y as i64;
        let lo: i64 = i32::MIN as i64;
        let hi: i64 = i32::MAX as i64;
        let s_x: i64 = self.s_x as i64 + x;
        let s_y: i64 = self.s_y as i64 + y;
        let e_x: i64 = self.e_x as i64 + x;
        let e_y: i64 = self.e_y as i64 + y;
        lo <= s_x && s_x <= hi && lo <= s_y && s_y <= hi && lo <= e_x && e_x <= hi && lo <= e_y
            && e_y <= hi
    }

    /// Reads this area as relative to the origin of `basic_area` and gives
    /// it back in the coordinates that `basic_area` itself is expressed in.
    pub fn from_relative(&self, basic_area: &DisplayArea) -> (res: DisplayArea)
        requires
            self@.translated(basic_area@.s_x, basic_area@.s_y).representable(),
        ensures
            res@ == self@.translated(basic_area@.s_x, basic_area@.s_y),
            self.wf() ==> res.wf(),
    {
        let ((x, y), _) = basic_area.get_points();
        DisplayArea { s_x: self.s_x + x, s_y: self.s_y + y, e_x: self.e_x + x, e_y: self.e_y + y }
    }

    /// The area with origin `(x, y)`, `w` wide and `h` high.
    pub fn from_rectangle(x: i32, y: i32, w: u32, h: u32) -> (res: DisplayArea)
        requires
            x + w <= i32::MAX,
            y + h <= i32::MAX,
        ensures
            res@ == (Rect { s_x: x as int, s_y: y as int, e_x: x + w, e_y: y + h }),
            res.wf(),
    {
        let e_x: i64 = x as i64 + w as i64;
        let e_y: i64 = y as i64 + h as i64;
        DisplayArea { s_x: x, s_y: y, e_x: e_x as i32, e_y: e_y as i32 }
    }

    /// The area spanned by two corners given in any order.
    pub fn from_points(s_x: i32, s_y: i32, e_x: i32, e_y: i32) -> (res: DisplayArea)
        ensures
            res@ == spanning(s_x as int, s_y as int, e_x as int, e_y as int),
            res.wf(),
    {
        DisplayArea {
            s_x: if s_x <= e_x { s_x } else { e_x },
            s_y: if s_y <= e_y { s_y } else { e_y },
            e_x: if s_x <= e_x { e_x } else { s_x },
            e_y: if s_y <= e_y { e_y } else { s_y },
        }
    }

    /// The origin of the area with its width and height.
    pub fn get_rectangle(&self) -> (res: ((i32, i32), (u32, u32)))
        ensures
            (res.0.0 as int, res.0.1 as int) == self@.origin(),
            res.1.0 == self@.width(),
            res.1.1 == self@.height(),
    {
        let x: i32 = if self.s_x <= self.e_x { self.s_x } else { self.e_x };
        let y: i32 = if self.s_y <= self.e_y { self.s_y } else { self.e_y };
        let w: i64 = if self.s_x <= self.e_x {
            self.e_x as i64 - self.s_x as i64
        } else {
            self.s_x as i64 - self.e_x as i64
        };
        let h: i64 = if self.s_y <= self.e_y {
            self.e_y as i64 - self.s_y as i64
        } else {
            self.s_y as i64 - self.e_y as i64
        };
        ((x, y), (w as u32, h as u32))
    }

    /// The two corners as they are stored.
    pub fn get_points(&self) -> (res: ((i32, i32), (i32, i32)))
        ensures
            res.0.0 == self@.s_x,
            res.0.1 == self@.s_y,
            res.1.0 == self@.e_x,
            res.1.1 == self@.e_y,
    {
        ((self.s_x, self.s_y), (self.e_x, self.e_y))
    }

    /// The point halfway between the two corners, rounded toward zero.
    pub fn get_average_point(&self) -> (res: (i32, i32))
        ensures
            (res.0 as int, res.1 as int) == self@.center(),
    {
        let sum_x: i64 = self.s_x as i64 + self.e_x as i64;
        let sum_y: i64 = self.s_y as i64 + self.e_y as i64;
        ((sum_x / 2) as i32, (sum_y / 2) as i32)
    }
}

/// The area spanned by two corners does not depend on the order in which the
/// corners are given, nor on which corner supplies which coordinate.
pub proof fn lemma_spanning_order_independent(x1: int, y1: int, x2: int, y2: int)
    ensures
        spanning(x1, y1, x2, y2) == spanning(x2, y2, x1, y1),
        spanning(x1, y1, x2, y2) == spanning(x2, y1, x1, y2),
        spanning(x1, y1, x2, y2) == spanning(x1, y2, x2, y1),
        spanning(x1, y1, x2, y2).normalized(),
{
}

/// Translating a rectangle keeps its width, its height and its
/// normalization, and translating back restores it.
pub proof fn lemma_translation_keeps_size(r: Rect, dx: int, dy: int)
    ensures
        r.translated(dx, dy).width() == r.width(),
        r.translated(dx, dy).height() == r.height(),
        r.normalized() ==> r.translated(dx, dy).normalized(),
        r.translated(dx, dy).translated(-dx, -dy) == r,
{
}

/// Composition is consistent across nested areas: expressing a rectangle in
/// its parent's coordinates and the result in the grandparent's gives what
/// expressing it in the coordinates of the parent, itself expressed in the
/// grandparent's, gives.
pub proof fn lemma_nested_composition(r: Rect, parent: Rect, grandparent: Rect)
    ensures
        r.translated(parent.s_x, parent.s_y).translated(grandparent.s_x, grandparent.s_y)
            == r.translated(
            parent.translated(grandparent.s_x, grandparent.s_y).s_x,
            parent.translated(grandparent.s_x, grandparent.s_y).s_y,
        ),
{
}

/// The rectangle of an area has coordinates that fit into 32 bits.
pub proof fn lemma_area_is_representable(area: DisplayArea)
    ensures
        area@.representable(),
{
}

/// A rectangle without extent has its single point as its center.
pub proof fn lemma_degenerate_center(x: int, y: int)
    ensures
        (Rect { s_x: x, s_y: y, e_x: x, e_y: y }).center() == (x, y),
{
}

} // verus!
