//! Integer geometry in layout space: points, sizes and rectangles.

use vstd::prelude::*;
use crate::text::{decimal_text, push_chars, push_decimal};

verus! {

/// Point coordinate (x, y) in layout space.
#[derive(Debug, Copy, Clone, PartialEq, Eq, Structural, PartialOrd, Hash)]
pub struct LayoutPoint {
    pub x: isize,
    pub y: isize,
}

/// Size (width, height) in layout space.
#[derive(Debug, Copy, Clone, PartialEq, Eq, Structural, PartialOrd, Hash)]
pub struct LayoutSize {
    pub width: isize,
    pub height: isize,
}

/// Rectangle (origin and size) in layout space.
#[derive(Debug, Copy, Clone, PartialEq, Eq, Structural, PartialOrd, Hash)]
pub struct LayoutRect {
    pub origin: LayoutPoint,
    pub size: LayoutSize,
}

impl LayoutPoint {
    pub fn new(x: isize, y: isize) -> (r: Self)
        ensures
            r.x == x,
            r.y == y,
    {
        LayoutPoint { x, y }
    }

    pub fn zero() -> (r: Self)
        ensures
            r.x == 0,
            r.y == 0,
    {
        Self::new(0, 0)
    }
}

/// `(x, y)`.
pub open spec fn point_text(p: LayoutPoint) -> Seq<char> {
    seq!['('] + decimal_text(p.x as int) + seq![',', ' '] + decimal_text(p.y as int) + seq![')']
}

/// `WxH`.
pub open spec fn size_text(s: LayoutSize) -> Seq<char> {
    decimal_text(s.width as int) + seq!['x'] + decimal_text(s.height as int)
}

/// `WxH @ (x, y)`.
pub open spec fn rect_text(r: LayoutRect) -> Seq<char> {
    size_text(r.size) + seq![' ', '@', ' '] + point_text(r.origin)
}

impl LayoutPoint {
    fn write_to(&self, s: &mut String)
        ensures
            final(s)@ == old(s)@ + point_text(*self),
    {
        push_chars(s, &['(']);
        push_decimal(s, self.x);
        push_chars(s, &[',', ' ']);
        push_decimal(s, self.y);
        push_chars(s, &[')']);
        proof {
            assert(final(s)@ =~= old(s)@ + point_text(*self));
        }
    }

    /// The point as `(x, y)`.
    pub fn to_string(&self) -> (r: String)
        ensures
            r@ == point_text(*self),
    {
        let mut s = String::new();
        self.write_to(&mut s);
        proof {
            assert(s@ =~= point_text(*self));
        }
        s
    }
}

impl LayoutSize {
    fn write_to(&self, s: &mut String)
        ensures
            final(s)@ == old(s)@ + size_text(*self),
    {
        push_decimal(s, self.width);
        push_chars(s, &['x']);
        push_decimal(s, self.height);
        proof {
            assert(final(s)@ =~= old(s)@ + size_text(*self));
        }
    }

    /// The size as `WxH`.
    pub fn to_string(&self) -> (r: String)
        ensures
            r@ == size_text(*self),
    {
        let mut s = String::new();
        self.write_to(&mut s);
        proof {
            assert(s@ =~= size_text(*self));
        }
        s
    }

    pub fn new(width: isize, height: isize) -> (r: Self)
        ensures
            r.width == width,
            r.height == height,
    {
        LayoutSize { width, height }
    }

    pub fn zero() -> (r: Self)
        ensures
            r.width == 0,
            r.height == 0,
    {
        Self::new(0, 0)
    }
}

/// `v` can be stored in an `isize`.
pub open spec fn fits_isize(v: int) -> bool {
    isize::MIN <= v <= isize::MAX
}

impl LayoutRect {
    /// The far horizontal edge: `origin.x + size.width`.
    pub open spec fn right(self) -> int {
        self.origin.x + self.size.width
    }

    /// The far vertical edge: `origin.y + size.height`.
    pub open spec fn bottom(self) -> int {
        self.origin.y + self.size.height
    }

    pub fn new(origin: LayoutPoint, size: LayoutSize) -> (r: Self)
        ensures
            r.origin == origin,
            r.size == size,
    {
        LayoutRect { origin, size }
    }

    pub fn zero() -> (r: Self)
        ensures
            r.origin.x == 0 && r.origin.y == 0,
            r.size.width == 0 && r.size.height == 0,
    {
        Self::new(LayoutPoint::zero(), LayoutSize::zero())
    }

    pub fn max_x(&self) -> (r: isize)
        requires
            fits_isize(self.right()),
        ensures
            r == self.right(),
    {
        self.origin.x + self.size.width
    }

    pub fn min_x(&self) -> (r: isize)
        ensures
            r == self.origin.x,
    {
        self.origin.x
    }

    pub fn max_y(&self) -> (r: isize)
        requires
            fits_isize(self.bottom()),
        ensures
            r == self.bottom(),
    {
        self.origin.y + self.size.height
    }

    pub fn min_y(&self) -> (r: isize)
        ensures
            r == self.origin.y,
    {
        self.origin.y
    }

    /// The rectangle as `WxH @ (x, y)`.
    pub fn to_string(&self) -> (r: String)
        ensures
            r@ == rect_text(*self),
    {
        let mut s = String::new();
        self.size.write_to(&mut s);
        push_chars(&mut s, &[' ', '@', ' ']);
        self.origin.write_to(&mut s);
        proof {
            assert(s@ =~= rect_text(*self));
        }
        s
    }

    /// Half-open containment: `min <= p < max` on both axes.
    pub fn contains(&self, other: &LayoutPoint) -> (r: bool)
        ensures
            r == (self.origin.x <= other.x && other.x < self.right() && self.origin.y <= other.y
                && other.y < self.bottom()),
    {
        let max_x = self.origin.x as i128 + self.size.width as i128;
        let max_y = self.origin.y as i128 + self.size.height as i128;
        self.origin.x <= other.x && (other.x as i128) < max_x && self.origin.y <= other.y
            && (other.y as i128) < max_y
    }

    /// Same as `contains()` with strict margins on all four sides; on a hit,
    /// returns the offset of the point from the near edges.
    pub fn hit_test(&self, other: &LayoutPoint) -> (r: Option<LayoutPoint>)
        ensures
            r.is_some() == (self.origin.x < other.x && other.x < self.right() && self.origin.y
                < other.y && other.y < self.bottom()),
            r.is_some() ==> r.unwrap().x == other.x - self.origin.x && r.unwrap().y == other.y
                - self.origin.y,
    {
        let dx_left_edge = other.x as i128 - self.origin.x as i128;
        let dx_right_edge = self.origin.x as i128 + self.size.width as i128 - other.x as i128;
        let dy_top_edge = other.y as i128 - self.origin.y as i128;
        let dy_bottom_edge = self.origin.y as i128 + self.size.height as i128 - other.y as i128;
        if dx_left_edge > 0 && dx_right_edge > 0 && dy_top_edge > 0 && dy_bottom_edge > 0 {
            Some(LayoutPoint::new(dx_left_edge as isize, dy_top_edge as isize))
        } else {
            None
        }
    }

    /// Whether `b` lies inside `self`, inclusive on all edges.
    pub fn contains_rect(&self, b: &LayoutRect) -> (r: bool)
        ensures
            r == (b.origin.x >= self.origin.x && b.origin.y >= self.origin.y && b.right()
                <= self.right() && b.bottom() <= self.bottom()),
    {
        let a = self;
        let a_x = a.origin.x as i128;
        let a_y = a.origin.y as i128;
        let a_width = a.size.width as i128;
        let a_height = a.size.height as i128;
        let b_x = b.origin.x as i128;
        let b_y = b.origin.y as i128;
        let b_width = b.size.width as i128;
        let b_height = b.size.height as i128;
        b_x >= a_x && b_y >= a_y && b_x + b_width <= a_x + a_width && b_y + b_height <= a_y
            + a_height
    }

    /// Minimal rectangle enclosing all of `rects`, or `None` when there is none.
    pub fn union(rects: &[LayoutRect]) -> (r: Option<LayoutRect>)
        requires
            union_fits(rects@),
        ensures
            r.is_none() == (rects@.len() == 0),
            r.is_some() ==> is_bounding_rect(rects@, r.unwrap()),
    {
        if rects.len() == 0 {
            return None;
        }
        let first = rects[0];
        let mut min_x: isize = first.origin.x;
        let mut min_y: isize = first.origin.y;
        let mut max_right: i128 = first.origin.x as i128 + first.size.width as i128;
        let mut max_bottom: i128 = first.origin.y as i128 + first.size.height as i128;
        let ghost mut ix: int = 0;
        let ghost mut iy: int = 0;
        let ghost mut ir: int = 0;
        let ghost mut ib: int = 0;
        let mut i: usize = 1;
        while i < rects.len()
            invariant
                1 <= i <= rects@.len(),
                0 <= ix < i && 0 <= iy < i && 0 <= ir < i && 0 <= ib < i,
                min_x == rects@[ix].origin.x,
                min_y == rects@[iy].origin.y,
                max_right == rects@[ir].right(),
                max_bottom == rects@[ib].bottom(),
                forall|k: int| 0 <= k < i ==> min_x <= #[trigger] rects@[k].origin.x,
                forall|k: int| 0 <= k < i ==> min_y <= #[trigger] rects@[k].origin.y,
                forall|k: int| 0 <= k < i ==> #[trigger] rects@[k].right() <= max_right,
                forall|k: int| 0 <= k < i ==> #[trigger] rects@[k].bottom() <= max_bottom,
            decreases rects@.len() - i,
        {
            let LayoutRect { origin: LayoutPoint { x, y }, size: LayoutSize { width, height } } =
                rects[i];
            let cur_lower_right_x = x as i128 + width as i128;
            let cur_lower_right_y = y as i128 + height as i128;
            if cur_lower_right_x > max_right {
                max_right = cur_lower_right_x;
                proof {
                    ir = i as int;
                }
            }
            if cur_lower_right_y > max_bottom {
                max_bottom = cur_lower_right_y;
                proof {
                    ib = i as int;
                }
            }
            if x < min_x {
                min_x = x;
                proof {
                    ix = i as int;
                }
            }
            if y < min_y {
                min_y = y;
                proof {
                    iy = i as int;
                }
            }
            i = i + 1;
        }
        assert(rects@[ir].right() - rects@[ix].origin.x <= isize::MAX);
        assert(rects@[ib].bottom() - rects@[iy].origin.y <= isize::MAX);
        assert(rects@[0].right() <= max_right && min_x <= rects@[0].origin.x);
        assert(rects@[0].bottom() <= max_bottom && min_y <= rects@[0].origin.y);
        let width = (max_right - min_x as i128) as isize;
        let height = (max_bottom - min_y as i128) as isize;
        Some(LayoutRect { origin: LayoutPoint { x: min_x, y: min_y }, size: LayoutSize { width, height } })
    }

    /// Scroll rectangle of `self` and its children: the union of `self` with the
    /// union of `children`, or `None` when there are no children.
    pub fn get_scroll_rect(&self, children: &[LayoutRect]) -> (r: Option<LayoutRect>)
        requires
            union_fits(seq![*self] + children@),
        ensures
            r.is_none() == (children@.len() == 0),
            r.is_some() ==> is_bounding_rect(seq![*self] + children@, r.unwrap()),
    {
        let ghost all = seq![*self] + children@;
        assert forall|i: int, j: int| 0 <= i < children@.len() && 0 <= j < children@.len() implies
            children@[i].right() - children@[j].origin.x <= isize::MAX
            && children@[i].bottom() - children@[j].origin.y <= isize::MAX by {
            assert(all[i + 1] == children@[i] && all[j + 1] == children@[j]);
        }
        let children_union = match Self::union(children) {
            Some(u) => u,
            None => return None,
        };
        let pair = [*self, children_union];
        proof {
            let cu = children_union;
            let p = pair@;
            assert(p[0] == *self && p[1] == cu);
            let ghost jx = choose|k: int| 0 <= k < children@.len() && cu.origin.x == children@[k].origin.x;
            let ghost jy = choose|k: int| 0 <= k < children@.len() && cu.origin.y == children@[k].origin.y;
            let ghost jr = choose|k: int| 0 <= k < children@.len() && cu.right() == children@[k].right();
            let ghost jb = choose|k: int| 0 <= k < children@.len() && cu.bottom() == children@[k].bottom();
            assert(all[jx + 1] == children@[jx] && all[jy + 1] == children@[jy]);
            assert(all[jr + 1] == children@[jr] && all[jb + 1] == children@[jb]);
            assert(all[0] == *self);
            assert forall|i: int, j: int| 0 <= i < p.len() && 0 <= j < p.len() implies
                p[i].right() - p[j].origin.x <= isize::MAX && p[i].bottom() - p[j].origin.y
                <= isize::MAX by {
                if i == 1 && j == 1 {
                    assert(all[jr + 1].right() - all[jx + 1].origin.x <= isize::MAX);
                    assert(all[jb + 1].bottom() - all[jy + 1].origin.y <= isize::MAX);
                } else if i == 1 {
                    assert(all[jr + 1].right() - all[0].origin.x <= isize::MAX);
                    assert(all[jb + 1].bottom() - all[0].origin.y <= isize::MAX);
                } else if j == 1 {
                    assert(all[0].right() - all[jx + 1].origin.x <= isize::MAX);
                    assert(all[0].bottom() - all[jy + 1].origin.y <= isize::MAX);
                } else {
                    assert(all[0].right() - all[0].origin.x <= isize::MAX);
                    assert(all[0].bottom() - all[0].origin.y <= isize::MAX);
                }
            }
        }
        let r = Self::union(&pair);
        proof {
            let u = r.unwrap();
            let p = pair@;
            assert(p[0] == *self && p[1] == children_union);
            assert forall|k: int| 0 <= k < all.len() implies u.origin.x <= #[trigger] all[k].origin.x
                && u.origin.y <= all[k].origin.y && all[k].right() <= u.right() && all[k].bottom()
                <= u.bottom() by {
                if k > 0 {
                    assert(all[k] == children@[k - 1]);
                }
            }
            let ghost jx = choose|k: int| 0 <= k < p.len() && u.origin.x == p[k].origin.x;
            let ghost jy = choose|k: int| 0 <= k < p.len() && u.origin.y == p[k].origin.y;
            let ghost jr = choose|k: int| 0 <= k < p.len() && u.right() == p[k].right();
            let ghost jb = choose|k: int| 0 <= k < p.len() && u.bottom() == p[k].bottom();
            let cu = children_union;
            let ghost kx = choose|k: int| 0 <= k < children@.len() && cu.origin.x == children@[k].origin.x;
            let ghost ky = choose|k: int| 0 <= k < children@.len() && cu.origin.y == children@[k].origin.y;
            let ghost kr = choose|k: int| 0 <= k < children@.len() && cu.right() == children@[k].right();
            let ghost kb = choose|k: int| 0 <= k < children@.len() && cu.bottom() == children@[k].bottom();
            assert(all[kx + 1] == children@[kx] && all[ky + 1] == children@[ky]);
            assert(all[kr + 1] == children@[kr] && all[kb + 1] == children@[kb]);
            assert(all[0] == *self);
            if jx == 0 { assert(u.origin.x == all[0].origin.x); } else { assert(u.origin.x == all[kx + 1].origin.x); }
            if jy == 0 { assert(u.origin.y == all[0].origin.y); } else { assert(u.origin.y == all[ky + 1].origin.y); }
            if jr == 0 { assert(u.right() == all[0].right()); } else { assert(u.right() == all[kr + 1].right()); }
            if jb == 0 { assert(u.bottom() == all[0].bottom()); } else { assert(u.bottom() == all[kb + 1].bottom()); }
        }
        r
    }
}

/// The bounding rectangle of `rects` can be stored: no far edge lies more than
/// `isize::MAX` beyond any near edge.
pub open spec fn union_fits(rects: Seq<LayoutRect>) -> bool {
    &&& forall|i: int, j: int|
        0 <= i < rects.len() && 0 <= j < rects.len() ==> #[trigger] rects[i].right()
            - #[trigger] rects[j].origin.x <= isize::MAX
    &&& forall|i: int, j: int|
        0 <= i < rects.len() && 0 <= j < rects.len() ==> #[trigger] rects[i].bottom()
            - #[trigger] rects[j].origin.y <= isize::MAX
}

/// `r` is the minimal rectangle enclosing every rectangle of `rects`: its near
/// edges are the smallest near edges and its far edges the largest far edges.
pub open spec fn is_bounding_rect(rects: Seq<LayoutRect>, r: LayoutRect) -> bool {
    &&& forall|k: int|
        0 <= k < rects.len() ==> r.origin.x <= #[trigger] rects[k].origin.x && r.origin.y
            <= rects[k].origin.y && rects[k].right() <= r.right() && rects[k].bottom() <= r.bottom()
    &&& exists|k: int| 0 <= k < rects.len() && r.origin.x == rects[k].origin.x
    &&& exists|k: int| 0 <= k < rects.len() && r.origin.y == rects[k].origin.y
    &&& exists|k: int| 0 <= k < rects.len() && r.right() == rects[k].right()
    &&& exists|k: int| 0 <= k < rects.len() && r.bottom() == rects[k].bottom()
}

} // verus!
