use vstd::prelude::*;

use crate::rules::{
    all_alive, all_dead, dead_grid, grid_wf, neighbor_count, next_cell, next_grid, next_row,
    wrap_add,
};
use rand::Rng;
use rayon::iter::{IndexedParallelIterator, IntoParallelIterator, ParallelIterator};

verus! {

/// The index one step before `i` on an axis of length `n`, wrapping at 0.
fn dec_wrap(i: usize, n: usize) -> (r: usize)
    requires
        1 <= n,
        i < n,
    ensures
        r == wrap_add(i as int, -1, n as int),
        r < n,
{
    if i == 0 {
        n - 1
    } else {
        i - 1
    }
}

/// The index one step after `i` on an axis of length `n`, wrapping at `n - 1`.
fn inc_wrap(i: usize, n: usize) -> (r: usize)
    requires
        1 <= n,
        i < n,
    ensures
        r == wrap_add(i as int, 1, n as int),
        r < n,
{
    if i == n - 1 {
        0
    } else {
        i + 1
    }
}

/// Relies on rand's `Rng::gen_range` over `0..100`: it returns a uniformly
/// distributed value of the given range, and panics only when the range is
/// empty, which `0..100` is not. Nothing is assumed about which value of the
/// range comes back.
#[verifier::external_body]
fn random_percent() -> (r: u64)
    ensures
        r < 100,
{
    rand::thread_rng().gen_range(0..100u64)
}

/// Relies on rayon: `into_par_iter` over `0..height` with `map` and
/// `collect_into_vec` applies the closure to every index of the range and
/// collects the results in index order. The closure only calls the verified
/// `Grid::next_generation_row`, whose postcondition gives each row's value.
#[verifier::external_body]
fn par_next_rows(g: &Grid) -> (rows: Vec<Vec<bool>>)
    requires
        g.wf(),
    ensures
        rows@.len() == g.spec_height(),
        forall|y: int|
            0 <= y < g.spec_height() ==> (#[trigger] rows@[y])@ == next_row(
                g@,
                g.spec_width(),
                g.spec_height(),
                y,
            ),
{
    let mut rows: Vec<Vec<bool>> = Vec::new();
    (0..g.height).into_par_iter().map(|y| g.next_generation_row(y)).collect_into_vec(&mut rows);
    rows
}

/// The current generation of the cellular field: `height` rows of `width`
/// cells each, on a torus. A cell is addressed by its column `x` and row `y`.
pub struct Grid {
    width: usize,
    height: usize,
    rows: Vec<Vec<bool>>,
}

impl View for Grid {
    type V = Seq<Seq<bool>>;

    closed spec fn view(&self) -> Seq<Seq<bool>> {
        Seq::new(self.rows@.len(), |y: int| self.rows@[y]@)
    }
}

impl Grid {
    /// The stored rows agree with the stated dimensions, and both axes have
    /// at least one cell, so every cell has well-defined wrapped neighbors.
    pub closed spec fn wf(&self) -> bool {
        &&& 1 <= self.width
        &&& 1 <= self.height
        &&& self.rows@.len() == self.height
        &&& forall|y: int|
            0 <= y < self.height ==> (#[trigger] self.rows@[y])@.len() == self.width
    }

    pub closed spec fn spec_width(&self) -> int {
        self.width as int
    }

    pub closed spec fn spec_height(&self) -> int {
        self.height as int
    }

    pub fn width(&self) -> (r: usize)
        ensures
            r == self.spec_width(),
            self.wf() ==> 1 <= r,
    {
        self.width
    }

    pub fn height(&self) -> (r: usize)
        ensures
            r == self.spec_height(),
            self.wf() ==> 1 <= r,
    {
        self.height
    }

    /// An all-dead grid of the given dimensions.
    pub fn clear(width: usize, height: usize) -> (r: Grid)
        requires
            1 <= width,
            1 <= height,
        ensures
            r.wf(),
            r.spec_width() == width,
            r.spec_height() == height,
            grid_wf(r@, width as int, height as int),
            r@ == dead_grid(width as int, height as int),
    {
        let mut rows: Vec<Vec<bool>> = Vec::new();
        let mut y: usize = 0;
        while y < height
            invariant
                y <= height,
                rows@.len() == y,
                forall|j: int|
                    0 <= j < y ==> (#[trigger] rows@[j])@ == Seq::new(
                        width as nat,
                        |x: int| false,
                    ),
            decreases height - y,
        {
            let mut row: Vec<bool> = Vec::new();
            let mut x: usize = 0;
            while x < width
                invariant
                    x <= width,
                    row@.len() == x,
                    forall|i: int| 0 <= i < x ==> !(#[trigger] row@[i]),
                decreases width - x,
            {
                row.push(false);
                x = x + 1;
            }
            proof {
                assert(row@ =~= Seq::new(width as nat, |x: int| false));
            }
            rows.push(row);
            y = y + 1;
        }
        let r = Grid { width, height, rows };
        proof {
            assert(r@ =~~= dead_grid(width as int, height as int));
        }
        r
    }

    /// Whether the cell at (x, y) is alive.
    pub fn get_cell(&self, x: usize, y: usize) -> (r: bool)
        requires
            self.wf(),
            x < self.spec_width(),
            y < self.spec_height(),
        ensures
            r == self@[y as int][x as int],
    {
        self.rows[y][x]
    }

    /// Set the cell at (x, y); an out-of-range coordinate leaves the grid
    /// unchanged, so a click just past the edge is absorbed as a no-op.
    pub fn set_cell(&mut self, x: usize, y: usize, alive: bool)
        requires
            old(self).wf(),
        ensures
            final(self).wf(),
            final(self).spec_width() == old(self).spec_width(),
            final(self).spec_height() == old(self).spec_height(),
            x < old(self).spec_width() && y < old(self).spec_height() ==> final(self)@ == old(
                self,
            )@.update(y as int, old(self)@[y as int].update(x as int, alive)),
            !(x < old(self).spec_width() && y < old(self).spec_height()) ==> final(self)@ == old(
                self,
            )@,
    {
        if x < self.width && y < self.height {
            self.rows[y].set(x, alive);
            proof {
                assert(self@ =~~= old(self)@.update(
                    y as int,
                    old(self)@[y as int].update(x as int, alive),
                ));
            }
        }
    }

    /// How many of the 8 Moore neighbors of (x, y) are alive, counting
    /// across the wrapped edges.
    pub fn alive_neighbors(&self, x: usize, y: usize) -> (r: u8)
        requires
            self.wf(),
            x < self.spec_width(),
            y < self.spec_height(),
        ensures
            r == neighbor_count(self@, self.spec_width(), self.spec_height(), x as int, y as int),
            r <= 8,
    {
        let xl = dec_wrap(x, self.width);
        let xr = inc_wrap(x, self.width);
        let yu = dec_wrap(y, self.height);
        let yd = inc_wrap(y, self.height);
        let mut count: u8 = 0;
        if self.rows[yu][xl] {
            count = count + 1;
        }
        if self.rows[yu][x] {
            count = count + 1;
        }
        if self.rows[yu][xr] {
            count = count + 1;
        }
        if self.rows[y][xl] {
            count = count + 1;
        }
        if self.rows[y][xr] {
            count = count + 1;
        }
        if self.rows[yd][xl] {
            count = count + 1;
        }
        if self.rows[yd][x] {
            count = count + 1;
        }
        if self.rows[yd][xr] {
            count = count + 1;
        }
        count
    }

    /// The state of the cell at (x, y) in the next generation: alive iff its
    /// alive-neighbor count is 3, or it is alive now and the count is 2.
    pub fn next_state(&self, x: usize, y: usize) -> (r: bool)
        requires
            self.wf(),
            x < self.spec_width(),
            y < self.spec_height(),
        ensures
            r == next_cell(self@, self.spec_width(), self.spec_height(), x as int, y as int),
    {
        let n = self.alive_neighbors(x, y);
        n == 3 || (self.rows[y][x] && n == 2)
    }

    /// Row `y` of the next generation, computed from this generation alone.
    pub fn next_generation_row(&self, y: usize) -> (r: Vec<bool>)
        requires
            self.wf(),
            y < self.spec_height(),
        ensures
            r@ == next_row(self@, self.spec_width(), self.spec_height(), y as int),
    {
        let mut row: Vec<bool> = Vec::new();
        let mut x: usize = 0;
        while x < self.width
            invariant
                self.wf(),
                y < self.spec_height(),
                x <= self.spec_width(),
                row@.len() == x,
                forall|i: int|
                    0 <= i < x ==> #[trigger] row@[i] == next_cell(
                        self@,
                        self.spec_width(),
                        self.spec_height(),
                        i,
                        y as int,
                    ),
            decreases self.spec_width() - x,
        {
            let alive = self.next_state(x, y);
            row.push(alive);
            x = x + 1;
        }
        proof {
            assert(row@ =~= next_row(self@, self.spec_width(), self.spec_height(), y as int));
        }
        row
    }

    /// The next generation of the whole grid. Every cell depends only on the
    /// read-only snapshot `self`, so the rows are computed in parallel over
    /// disjoint output partitions.
    pub fn step(&self) -> (r: Grid)
        requires
            self.wf(),
        ensures
            r.wf(),
            r.spec_width() == self.spec_width(),
            r.spec_height() == self.spec_height(),
            grid_wf(r@, self.spec_width(), self.spec_height()),
            r@ == next_grid(self@, self.spec_width(), self.spec_height()),
    {
        let rows = par_next_rows(self);
        let r = Grid { width: self.width, height: self.height, rows };
        proof {
            assert(r@ =~~= next_grid(self@, self.spec_width(), self.spec_height()));
        }
        r
    }

    /// A fresh grid of the given dimensions in which each cell was set alive
    /// independently with probability `density` percent.
    pub fn seed_random(width: usize, height: usize, density: u64) -> (r: Grid)
        requires
            1 <= width,
            1 <= height,
            density <= 100,
        ensures
            r.wf(),
            r.spec_width() == width,
            r.spec_height() == height,
            grid_wf(r@, width as int, height as int),
            density == 0 ==> all_dead(r@),
            density == 100 ==> all_alive(r@),
    {
        let mut rows: Vec<Vec<bool>> = Vec::new();
        let mut y: usize = 0;
        while y < height
            invariant
                y <= height,
                density <= 100,
                rows@.len() == y,
                forall|j: int| 0 <= j < y ==> (#[trigger] rows@[j])@.len() == width,
                forall|j: int, i: int|
                    #![trigger rows@[j]@[i]]
                    0 <= j < y && 0 <= i < width ==> (density == 0 ==> !rows@[j]@[i]) && (density
                        == 100 ==> rows@[j]@[i]),
            decreases height - y,
        {
            let mut row: Vec<bool> = Vec::new();
            let mut x: usize = 0;
            while x < width
                invariant
                    x <= width,
                    density <= 100,
                    row@.len() == x,
                    forall|i: int|
                        #![trigger row@[i]]
                        0 <= i < x ==> (density == 0 ==> !row@[i]) && (density == 100
                            ==> row@[i]),
                decreases width - x,
            {
                let draw = random_percent();
                row.push(draw < density);
                x = x + 1;
            }
            rows.push(row);
            y = y + 1;
        }
        let r = Grid { width, height, rows };
        proof {
            if density == 0 {
                assert forall|yy: int, xx: int|
                    0 <= yy < r@.len() && 0 <= xx < r@[yy].len() implies !r@[yy][xx] by {
                    assert(r@[yy] == rows@[yy]@);
                    assert(!rows@[yy]@[xx]);
                };
            }
            if density == 100 {
                assert forall|yy: int, xx: int|
                    0 <= yy < r@.len() && 0 <= xx < r@[yy].len() implies r@[yy][xx] by {
                    assert(r@[yy] == rows@[yy]@);
                    assert(rows@[yy]@[xx]);
                };
            }
        }
        r
    }

    /// Structural equality of two grids: same dimensions and the same state
    /// in every cell.
    #[verifier::loop_isolation(false)]
    pub fn equals(&self, other: &Grid) -> (r: bool)
        requires
            self.wf(),
            other.wf(),
        ensures
            r <==> self@ == other@,
    {
        if self.height != other.height {
            return false;
        }
        if self.width != other.width {
            proof {
                assert(self@[0].len() != other@[0].len());
            }
            return false;
        }
        let mut y: usize = 0;
        while y < self.height
            invariant
                y <= self.height,
                forall|j: int, i: int|
                    0 <= j < y && 0 <= i < self.spec_width() ==> self@[j][i] == #[trigger] other@[j][i],
            decreases self.height - y,
        {
            let mut x: usize = 0;
            while x < self.width
                invariant
                    x <= self.width,
                    forall|i: int| 0 <= i < x ==> self@[y as int][i] == #[trigger] other@[y as int][i],
                decreases self.width - x,
            {
                if self.rows[y][x] != other.rows[y][x] {
                    proof {
                        assert(self@[y as int][x as int] != other@[y as int][x as int]);
                    }
                    return false;
                }
                x = x + 1;
            }
            y = y + 1;
        }
        proof {
            assert(self@ =~~= other@);
        }
        true
    }
}

} // verus!
