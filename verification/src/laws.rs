use vstd::prelude::*;

use crate::rules::{
    all_dead, dead_grid, grid_wf, lemma_wrap_add_in_bounds, neighbor_at, neighbor_count,
    next_grid, wrap_add,
};

verus! {

/// In an all-dead grid every cell's alive-neighbor count is zero.
pub proof fn lemma_all_dead_count_zero(g: Seq<Seq<bool>>, w: int, h: int, x: int, y: int)
    requires
        grid_wf(g, w, h),
        all_dead(g),
        0 <= x < w,
        0 <= y < h,
    ensures
        neighbor_count(g, w, h, x, y) == 0,
{
    assert forall|dx: int, dy: int|
        -1 <= dx <= 1 && -1 <= dy <= 1 implies #[trigger] neighbor_at(g, w, h, x, y, dx, dy)
        == 0 by {
        lemma_wrap_add_in_bounds(x, dx, w);
        lemma_wrap_add_in_bounds(y, dy, h);
        assert(!g[wrap_add(y, dy, h)][wrap_add(x, dx, w)]);
    };
}

/// Law: one step applied to an all-dead grid yields an all-dead grid.
pub proof fn lemma_step_all_dead(g: Seq<Seq<bool>>, w: int, h: int)
    requires
        grid_wf(g, w, h),
        all_dead(g),
    ensures
        all_dead(next_grid(g, w, h)),
{
    let n = next_grid(g, w, h);
    assert forall|y: int, x: int|
        0 <= y < n.len() && 0 <= x < n[y].len() implies !n[y][x] by {
        lemma_all_dead_count_zero(g, w, h, x, y);
    };
}

/// Law: the all-dead grid is a fixed point of the step rule.
pub proof fn lemma_dead_grid_fixed(w: int, h: int)
    requires
        1 <= w,
        1 <= h,
    ensures
        next_grid(dead_grid(w, h), w, h) == dead_grid(w, h),
{
    let d = dead_grid(w, h);
    lemma_step_all_dead(d, w, h);
    let n = next_grid(d, w, h);
    assert forall|y: int| 0 <= y < h implies #[trigger] n[y] == d[y] by {
        assert forall|x: int| 0 <= x < w implies #[trigger] n[y][x] == d[y][x] by {
            assert(!n[y][x]);
        };
        assert(n[y] =~= d[y]);
    };
    assert(n =~= d);
}

/// Law: a cell whose alive-neighbor count is exactly 3 is alive in the next
/// generation, whatever its current state.
pub proof fn lemma_birth_on_three(g: Seq<Seq<bool>>, w: int, h: int, x: int, y: int)
    requires
        grid_wf(g, w, h),
        0 <= x < w,
        0 <= y < h,
        neighbor_count(g, w, h, x, y) == 3,
    ensures
        next_grid(g, w, h)[y][x],
{
}

/// Law: a cell whose alive-neighbor count is below 2 or above 3 is dead in
/// the next generation, whatever its current state.
pub proof fn lemma_death_outside_two_three(g: Seq<Seq<bool>>, w: int, h: int, x: int, y: int)
    requires
        grid_wf(g, w, h),
        0 <= x < w,
        0 <= y < h,
        neighbor_count(g, w, h, x, y) < 2 || neighbor_count(g, w, h, x, y) > 3,
    ensures
        !next_grid(g, w, h)[y][x],
{
}

/// Law: toroidal wraparound — an alive cell at (0, 0) is counted among the
/// neighbors of (w-1, 0), of (0, h-1), and of (w-1, h-1).
pub proof fn lemma_wraparound_corner(g: Seq<Seq<bool>>, w: int, h: int)
    requires
        grid_wf(g, w, h),
        g[0][0],
    ensures
        neighbor_count(g, w, h, w - 1, 0) >= 1,
        neighbor_count(g, w, h, 0, h - 1) >= 1,
        neighbor_count(g, w, h, w - 1, h - 1) >= 1,
{
    assert(neighbor_at(g, w, h, w - 1, 0, 1, 0) == 1);
    assert(neighbor_at(g, w, h, 0, h - 1, 0, 1) == 1);
    assert(neighbor_at(g, w, h, w - 1, h - 1, 1, 1) == 1);
}

/// Law: clearing is deterministic — any two all-dead grids of the same
/// dimensions are the same grid, so clearing twice yields identical grids.
pub proof fn lemma_clear_deterministic(a: Seq<Seq<bool>>, b: Seq<Seq<bool>>, w: int, h: int)
    requires
        a == dead_grid(w, h),
        b == dead_grid(w, h),
    ensures
        a == b,
{
}

} // verus!
