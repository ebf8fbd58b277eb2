//! Walking the cells and the sites of a lattice in the order of their
//! numbers.

use vstd::prelude::*;
use crate::lattice::{Grid, Lattice, Site};

verus! {

/// Walks the cells of a lattice, `x` fastest and `z` slowest.
#[derive(Clone, Copy)]
pub struct CellIterator {
    cur: (u32, u32, u32),
    max: (u32, u32, u32),
}

impl CellIterator {
    #[verifier::type_invariant]
    spec fn inv(&self) -> bool {
        self.max.0 == 0 || self.max.1 == 0 || self.max.2 == 0 || {
            &&& self.cur.0 < self.max.0
            &&& self.cur.1 < self.max.1
            &&& self.cur.2 <= self.max.2
            &&& self.cur.2 == self.max.2 ==> self.cur.0 == 0 && self.cur.1 == 0
        }
    }

    /// The frame whose cells are walked, taken with one atom to the cell.
    pub closed spec fn grid(&self) -> Grid {
        Grid { shape: self.max, natoms: 1 }
    }

    /// The number of cells handed out so far.
    pub closed spec fn emitted(&self) -> nat {
        if self.max.0 == 0 || self.max.1 == 0 || self.max.2 == 0 {
            0
        } else {
            self.grid().cell_index(self.cur.0 as int, self.cur.1 as int, self.cur.2 as int) as nat
        }
    }

    /// An iterator standing before the first cell of `lattice`.
    pub fn new(lattice: &Lattice) -> (it: CellIterator)
        ensures
            it.grid().shape == lattice@.shape,
            it.emitted() == 0,
    {
        let it = CellIterator { cur: (0, 0, 0), max: lattice.shape() };
        assert(it.grid().cell_index(0, 0, 0) == 0) by (nonlinear_arith)
            requires
                it.grid().cell_index(0, 0, 0) == it.max.0 * (it.max.1 * 0 + 0) + 0,
        ;
        it
    }

    /// Hands out the next cell, or `None` once every cell has been handed
    /// out.
    pub fn next(&mut self) -> (r: Option<(u32, u32, u32)>)
        ensures
            final(self).grid() == old(self).grid(),
            old(self).emitted() < old(self).grid().ncells() ==> {
                &&& r matches Some(c)
                &&& (c.0 as int, c.1 as int, c.2 as int) == old(self).grid().cell_at(
                    old(self).emitted() as int,
                )
                &&& final(self).emitted() == old(self).emitted() + 1
            },
            old(self).emitted() >= old(self).grid().ncells() ==> {
                &&& r.is_none()
                &&& final(self).emitted() == old(self).emitted()
            },
    {
        proof {
            use_type_invariant(&*self);
        }
        let (sx, sy, sz) = self.max;
        let (x, y, z) = self.cur;
        if sx == 0 || sy == 0 || sz == 0 {
            proof {
                lemma_no_cells(sx as int, sy as int, sz as int);
            }
            return None;
        }
        if z == sz {
            proof {
                lemma_all_cells(sx as int, sy as int, sz as int);
            }
            return None;
        }
        proof {
            self.grid().lemma_cell_index_bound(x as int, y as int, z as int);
            self.grid().lemma_cell_at_index(x as int, y as int, z as int);
            lemma_next_cell(sx as int, sy as int, x as int, y as int, z as int);
        }
        if x + 1 < sx {
            self.cur = (x + 1, y, z);
        } else if y + 1 < sy {
            self.cur = (0, y + 1, z);
        } else {
            self.cur = (0, 0, z + 1);
        }
        Some((x, y, z))
    }
}

/// Walks the sites of a lattice in the order of their numbers: the atoms of
/// a cell one after the other, cell by cell.
pub struct SiteIterator {
    cell_it: CellIterator,
    cur_cell: Option<(u32, u32, u32)>,
    cur_at: u32,
    max_at: u32,
}

impl SiteIterator {
    #[verifier::type_invariant]
    spec fn inv(&self) -> bool {
        &&& self.cur_at <= self.max_at
        &&& match self.cur_cell {
            Some(c) => {
                &&& 1 <= self.cell_it.emitted() <= self.cell_it.grid().ncells()
                &&& (c.0 as int, c.1 as int, c.2 as int) == self.cell_it.grid().cell_at(
                    self.cell_it.emitted() - 1,
                )
            },
            None => self.cell_it.emitted() >= self.cell_it.grid().ncells(),
        }
    }

    /// The frame whose sites are walked.
    pub closed spec fn grid(&self) -> Grid {
        Grid { shape: self.cell_it.grid().shape, natoms: self.max_at }
    }

    /// The number of sites handed out so far; it stays at the site count
    /// once all have been handed out.
    pub closed spec fn pos(&self) -> nat {
        match self.cur_cell {
            Some(c) => ((self.cell_it.emitted() - 1) * self.max_at + self.cur_at) as nat,
            None => self.grid().nsites(),
        }
    }

    /// An iterator standing before the first site of `lattice`.
    pub fn new(lattice: &Lattice) -> (it: SiteIterator)
        ensures
            it.grid() == lattice@.grid(),
            it.pos() == 0,
    {
        let natoms: u32 = lattice.natoms();
        let mut iter = CellIterator::new(lattice);
        let first = iter.next();
        proof {
            lemma_site_position(
                iter.emitted() as int,
                natoms as int,
                0,
                iter.grid().ncells() as int,
            );
        }
        SiteIterator { cur_cell: first, cell_it: iter, cur_at: 0, max_at: natoms }
    }

    /// Hands out the next site, or `None` once every site has been handed
    /// out.
    pub fn next(&mut self) -> (r: Option<Site>)
        ensures
            final(self).grid() == old(self).grid(),
            old(self).pos() < old(self).grid().nsites() ==> {
                &&& r == Some(old(self).grid().site_at(old(self).pos() as int))
                &&& final(self).pos() == old(self).pos() + 1
            },
            old(self).pos() >= old(self).grid().nsites() ==> {
                &&& r.is_none()
                &&& final(self).pos() == old(self).pos()
            },
    {
        proof {
            use_type_invariant(&*self);
            lemma_site_position(
                self.cell_it.emitted() as int,
                self.max_at as int,
                self.cur_at as int,
                self.cell_it.grid().ncells() as int,
            );
        }
        if self.max_at == 0 {
            return None;
        }
        if self.cur_at == self.max_at {
            let mut cells: CellIterator = self.cell_it;
            let cell: Option<(u32, u32, u32)> = cells.next();
            *self = SiteIterator { cell_it: cells, cur_cell: cell, cur_at: 0, max_at: self.max_at };
        }
        let at: u32 = self.cur_at;
        self.cur_at = self.cur_at + 1;
        match self.cur_cell {
            None => None,
            Some((x, y, z)) => Some(Site { cell: (x as i64, y as i64, z as i64), atom: at }),
        }
    }
}

/// Where the iterator stands after `e` cells were taken up and `at` atoms
/// of the last of them handed out, among `cells` cells of `n` atoms.
proof fn lemma_site_position(e: int, n: int, at: int, cells: int)
    requires
        0 <= at <= n,
        0 <= e,
    ensures
        n * 0 == 0,
        n == 0 ==> n * cells == 0,
        (1 - 1) * n + 0 == 0,
        (e - 1) * n + n == e * n,
        e >= cells && cells >= 0 ==> n * cells <= e * n,
        1 <= e <= cells ==> 0 <= (e - 1) * n + at <= e * n <= n * cells,
        1 <= e && at < n ==> ((e - 1) * n + at) / n == e - 1 && ((e - 1) * n + at) % n == at,
        0 < n ==> (e * n) / n == e && (e * n) % n == 0,
        (e + 1 - 1) * n + 1 == e * n + 1,
        e < cells ==> e * n + n <= n * cells,
{
    assert(n == 0 ==> n * cells == 0) by (nonlinear_arith);
    assert((e - 1) * n + n == e * n) by (nonlinear_arith);
    assert(e >= cells && cells >= 0 ==> n * cells <= e * n) by (nonlinear_arith)
        requires
            0 <= n,
    ;
    assert(1 <= e <= cells ==> 0 <= (e - 1) * n + at <= e * n <= n * cells) by (nonlinear_arith)
        requires
            0 <= at <= n,
    ;
    assert(e < cells ==> e * n + n <= n * cells) by (nonlinear_arith)
        requires
            0 <= n,
    ;
    if 1 <= e && at < n {
        vstd::arithmetic::div_mod::lemma_fundamental_div_mod_converse(
            (e - 1) * n + at,
            n,
            e - 1,
            at,
        );
    }
    if 0 < n {
        vstd::arithmetic::div_mod::lemma_fundamental_div_mod_converse(e * n, n, e, 0);
    }
}

impl Lattice {
    /// The sites of the lattice in the order of their numbers, from the
    /// first; every call starts afresh.
    pub fn sites(&self) -> (it: SiteIterator)
        ensures
            it.grid() == self@.grid(),
            it.pos() == 0,
    {
        SiteIterator::new(self)
    }

    /// Applies `op` to every site of the lattice, in the order of their
    /// numbers, and collects what it gives.
    pub fn map_for_sites<T, F: Fn(&Site) -> T>(&self, op: F) -> (data: Vec<T>)
        requires
            forall|k: int| 0 <= k < self@.nsites() ==> call_requires(op, (&self@.site_at(k),)),
        ensures
            data.len() == self@.nsites(),
            forall|k: int|
                0 <= k < self@.nsites() ==> call_ensures(
                    op,
                    (&self@.site_at(k),),
                    #[trigger] data[k],
                ),
    {
        let mut data: Vec<T> = Vec::new();
        let mut it = self.sites();
        loop
            invariant
                it.grid() == self@.grid(),
                it.pos() == data.len(),
                it.pos() <= self@.nsites(),
                forall|k: int| 0 <= k < self@.nsites() ==> call_requires(op, (&self@.site_at(k),)),
                forall|k: int|
                    0 <= k < data.len() ==> call_ensures(
                        op,
                        (&self@.site_at(k),),
                        #[trigger] data[k],
                    ),
            ensures
                data.len() == self@.nsites(),
            decreases self@.nsites() - it.pos(),
        {
            let ghost k: int = it.pos() as int;
            match it.next() {
                None => {
                    break ;
                },
                Some(site) => {
                    assert(site == self@.site_at(k));
                    data.push(op(&site));
                },
            }
        }
        data
    }
}

/// A shape with an empty axis has no cells.
proof fn lemma_no_cells(sx: int, sy: int, sz: int)
    requires
        sx == 0 || sy == 0 || sz == 0,
    ensures
        sx * sy * sz == 0,
{
    assert(sx * sy * sz == 0) by (nonlinear_arith)
        requires
            sx == 0 || sy == 0 || sz == 0,
    ;
}

/// The cell after the last one carries the cell count as its number.
proof fn lemma_all_cells(sx: int, sy: int, sz: int)
    ensures
        sx * (sy * sz + 0) + 0 == sx * sy * sz,
{
    assert(sx * (sy * sz + 0) + 0 == sx * sy * sz) by (nonlinear_arith);
}

/// Stepping `x` first, then `y`, then `z` raises the number of a cell by
/// one.
proof fn lemma_next_cell(sx: int, sy: int, x: int, y: int, z: int)
    ensures
        sx * (sy * z + y) + (x + 1) == sx * (sy * z + y) + x + 1,
        x + 1 == sx ==> sx * (sy * z + (y + 1)) + 0 == sx * (sy * z + y) + x + 1,
        x + 1 == sx && y + 1 == sy ==> sx * (sy * (z + 1) + 0) + 0 == sx * (sy * z + y) + x + 1,
{
    assert(sx * (sy * z + (y + 1)) == sx * (sy * z + y) + sx) by (nonlinear_arith);
    assert(y + 1 == sy ==> sx * (sy * (z + 1) + 0) == sx * (sy * z + y) + sx) by (nonlinear_arith);
}

} // verus!
