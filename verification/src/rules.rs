use vstd::prelude::*;

verus! {

/// Index `i` moved by offset `d` along an axis of length `n`, wrapping at both
/// edges, so that the first and last positions of the axis are adjacent.
pub open spec fn wrap_add(i: int, d: int, n: int) -> int {
    if i + d < 0 {
        i + d + n
    } else if i + d >= n {
        i + d - n
    } else {
        i + d
    }
}

/// A row-major field of cells: `h` rows, each of width `w`.
pub open spec fn grid_wf(g: Seq<Seq<bool>>, w: int, h: int) -> bool {
    &&& 1 <= w
    &&& 1 <= h
    &&& g.len() == h
    &&& forall|y: int| 0 <= y < h ==> (#[trigger] g[y]).len() == w
}

/// 1 if the cell at column `x` of row `y` is alive, else 0.
pub open spec fn alive_at(g: Seq<Seq<bool>>, x: int, y: int) -> int {
    if g[y][x] {
        1int
    } else {
        0int
    }
}

/// 1 if the toroidal neighbor of (x, y) at offset (dx, dy) is alive, else 0.
pub open spec fn neighbor_at(
    g: Seq<Seq<bool>>,
    w: int,
    h: int,
    x: int,
    y: int,
    dx: int,
    dy: int,
) -> int {
    alive_at(g, wrap_add(x, dx, w), wrap_add(y, dy, h))
}

/// How many of the 8 Moore neighbors of (x, y) are alive, counting across the
/// wrapped edges; on a small axis distinct offsets may reach the same cell,
/// and each offset still contributes on its own.
pub open spec fn neighbor_count(g: Seq<Seq<bool>>, w: int, h: int, x: int, y: int) -> int {
    neighbor_at(g, w, h, x, y, -1, -1) + neighbor_at(g, w, h, x, y, 0, -1) + neighbor_at(
        g,
        w,
        h,
        x,
        y,
        1,
        -1,
    ) + neighbor_at(g, w, h, x, y, -1, 0) + neighbor_at(g, w, h, x, y, 1, 0) + neighbor_at(
        g,
        w,
        h,
        x,
        y,
        -1,
        1,
    ) + neighbor_at(g, w, h, x, y, 0, 1) + neighbor_at(g, w, h, x, y, 1, 1)
}

/// The life rule as a count-based table: a cell is alive in the next
/// generation iff its alive-neighbor count is 3, or it is alive now and the
/// count is 2.
pub open spec fn next_cell(g: Seq<Seq<bool>>, w: int, h: int, x: int, y: int) -> bool {
    neighbor_count(g, w, h, x, y) == 3 || (g[y][x] && neighbor_count(g, w, h, x, y) == 2)
}

/// Row `y` of the next generation.
pub open spec fn next_row(g: Seq<Seq<bool>>, w: int, h: int, y: int) -> Seq<bool> {
    Seq::new(w as nat, |x: int| next_cell(g, w, h, x, y))
}

/// The whole next generation: every cell follows the count-based rule applied
/// to the previous generation alone.
pub open spec fn next_grid(g: Seq<Seq<bool>>, w: int, h: int) -> Seq<Seq<bool>> {
    Seq::new(h as nat, |y: int| next_row(g, w, h, y))
}

/// The all-dead field of the given dimensions.
pub open spec fn dead_grid(w: int, h: int) -> Seq<Seq<bool>> {
    Seq::new(h as nat, |y: int| Seq::new(w as nat, |x: int| false))
}

/// No cell of `g` is alive.
pub open spec fn all_dead(g: Seq<Seq<bool>>) -> bool {
    forall|y: int, x: int| 0 <= y < g.len() && 0 <= x < g[y].len() ==> !(#[trigger] g[y][x])
}

/// Every cell of `g` is alive.
pub open spec fn all_alive(g: Seq<Seq<bool>>) -> bool {
    forall|y: int, x: int| 0 <= y < g.len() && 0 <= x < g[y].len() ==> #[trigger] g[y][x]
}

/// Wrapped indices stay on the axis.
pub proof fn lemma_wrap_add_in_bounds(i: int, d: int, n: int)
    requires
        0 <= i < n,
        -1 <= d <= 1,
    ensures
        0 <= wrap_add(i, d, n) < n,
{
}

} // verus!
