use vstd::prelude::*;

verus! {

/// A cell coordinate on the integer lattice of the drawing surface. Pointer
/// positions just off the grid give coordinates outside it, so both axes are
/// signed.
#[derive(Clone, Copy, Debug, Eq, PartialEq, Structural)]
pub struct Coord {
    pub x: i32,
    pub y: i32,
}

/// The distance between `a` and `b` on one axis.
pub open spec fn axis_gap(a: int, b: int) -> int {
    if a >= b {
        a - b
    } else {
        b - a
    }
}

/// Chebyshev distance: how many king moves separate two lattice points.
pub open spec fn chebyshev(a: Coord, b: Coord) -> int {
    if axis_gap(a.x as int, b.x as int) >= axis_gap(a.y as int, b.y as int) {
        axis_gap(a.x as int, b.x as int)
    } else {
        axis_gap(a.y as int, b.y as int)
    }
}

/// Two distinct points within one step of each other on both axes, so that
/// painting both leaves no visual gap.
pub open spec fn king_adjacent(a: Coord, b: Coord) -> bool {
    a != b && axis_gap(a.x as int, b.x as int) <= 1 && axis_gap(a.y as int, b.y as int) <= 1
}

/// `c` lies within the axis-aligned bounding box of `a` and `b`.
pub open spec fn within_box(c: Coord, a: Coord, b: Coord) -> bool {
    &&& axis_gap(a.x as int, c.x as int) + axis_gap(c.x as int, b.x as int) == axis_gap(
        a.x as int,
        b.x as int,
    )
    &&& axis_gap(a.y as int, c.y as int) + axis_gap(c.y as int, b.y as int) == axis_gap(
        a.y as int,
        b.y as int,
    )
}

/// The ordered points to paint between two consecutive pointer samples, so
/// that a fast drag still paints a continuous stroke. With no previous
/// sample the stroke is the single point `curr`; otherwise it is a shortest
/// 8-connected walk from `prev` to `curr`, each step moving one cell toward
/// the target on every axis that still differs, and every point staying
/// within the bounding box of the two samples.
pub fn interpolate(prev: Option<Coord>, curr: Coord) -> (r: Vec<Coord>)
    ensures
        r@.len() >= 1,
        r@[r@.len() - 1] == curr,
        prev is None ==> r@.len() == 1,
        prev matches Some(p) ==> r@[0] == p && r@.len() == chebyshev(p, curr) + 1,
        prev matches Some(p) ==> forall|i: int| 0 <= i < r@.len() ==> within_box(#[trigger] r@[i], p, curr),
        forall|i: int| 0 <= i < r@.len() - 1 ==> king_adjacent(#[trigger] r@[i], r@[i + 1]),
{
    let mut r: Vec<Coord> = Vec::new();
    match prev {
        None => {
            r.push(curr);
        },
        Some(p) => {
            let mut pos = p;
            while pos.x != curr.x || pos.y != curr.y
                invariant
                    r@.len() + chebyshev(pos, curr) == chebyshev(p, curr),
                    r@.len() == 0 ==> pos == p,
                    r@.len() > 0 ==> r@[0] == p,
                    r@.len() > 0 ==> king_adjacent(r@[r@.len() - 1], pos),
                    within_box(pos, p, curr),
                    forall|i: int| 0 <= i < r@.len() ==> within_box(#[trigger] r@[i], p, curr),
                    forall|i: int|
                        0 <= i < r@.len() - 1 ==> king_adjacent(#[trigger] r@[i], r@[i + 1]),
                decreases chebyshev(pos, curr),
            {
                r.push(pos);
                let nx: i32 = if pos.x < curr.x {
                    pos.x + 1
                } else if pos.x > curr.x {
                    pos.x - 1
                } else {
                    pos.x
                };
                let ny: i32 = if pos.y < curr.y {
                    pos.y + 1
                } else if pos.y > curr.y {
                    pos.y - 1
                } else {
                    pos.y
                };
                pos = Coord { x: nx, y: ny };
            }
            r.push(pos);
        },
    }
    r
}

} // verus!
