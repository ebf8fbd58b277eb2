//! The numbering of sites is a bijection between the sites of the first
//! image and `[0, nsites)`.

use vstd::prelude::*;
use vstd::arithmetic::div_mod::{
    lemma_fundamental_div_mod,
    lemma_fundamental_div_mod_converse,
    lemma_mod_bound,
};
use crate::lattice::{Grid, LatticeView, Site, Vertex, wrap};

verus! {

/// A digit `r` below the radix `d` on top of `d * q` stays below `d * n`
/// whenever `q` is below `n`.
pub proof fn lemma_radix_bound(d: int, q: int, r: int, n: int)
    requires
        0 <= r < d,
        0 <= q < n,
    ensures
        0 <= d * q + r < d * n,
        0 <= d * q,
{
    assert(0 <= d * q && d * q + d <= d * n) by (nonlinear_arith)
        requires
            0 < d,
            0 <= q < n,
    ;
}

/// Putting a digit on top of `d * q` does not make a number smaller.
pub proof fn lemma_radix_grows(d: int, q: int, r: int)
    requires
        0 <= r < d,
        0 <= q,
    ensures
        q <= d * q <= d * q + r,
{
    assert(q <= d * q) by (nonlinear_arith)
        requires
            1 <= d,
            0 <= q,
    ;
}

/// Quotient and digit are determined by the number they make up.
pub proof fn lemma_radix_unique(d: int, q1: int, r1: int, q2: int, r2: int)
    requires
        0 <= r1 < d,
        0 <= r2 < d,
        d * q1 + r1 == d * q2 + r2,
    ensures
        q1 == q2,
        r1 == r2,
{
    let x: int = d * q1 + r1;
    assert(x == q1 * d + r1 && x == q2 * d + r2) by (nonlinear_arith)
        requires
            x == d * q1 + r1,
            x == d * q2 + r2,
    ;
    lemma_fundamental_div_mod_converse(x, d, q1, r1);
    lemma_fundamental_div_mod_converse(x, d, q2, r2);
}

/// A number below `d * n` splits into a quotient below `n` and a digit below
/// `d`.
pub proof fn lemma_radix_split(d: int, n: int, k: int)
    requires
        0 < d,
        0 <= k < d * n,
    ensures
        0 <= k / d < n,
        0 <= k % d < d,
        d * (k / d) + k % d == k,
{
    lemma_fundamental_div_mod(k, d);
    lemma_mod_bound(k, d);
    let q: int = k / d;
    let r: int = k % d;
    assert(0 <= q < n) by (nonlinear_arith)
        requires
            0 < d,
            0 <= r < d,
            0 <= k < d * n,
            k == d * q + r,
    ;
}

impl Grid {
    /// The cells of the first image are numbered below the cell count.
    pub proof fn lemma_cell_index_bound(self, x: int, y: int, z: int)
        requires
            0 <= x < self.shape.0,
            0 <= y < self.shape.1,
            0 <= z < self.shape.2,
        ensures
            0 <= self.cell_index(x, y, z) < self.ncells(),
    {
        let sx: int = self.shape.0 as int;
        let sy: int = self.shape.1 as int;
        let sz: int = self.shape.2 as int;
        lemma_radix_bound(sy, z, y, sz);
        lemma_radix_bound(sx, sy * z + y, x, sy * sz);
        assert(sx * (sy * sz) == sx * sy * sz) by (nonlinear_arith);
    }

    /// Every site of the first image has a number in `[0, nsites)`.
    pub proof fn lemma_index_bound(self, site: Site)
        requires
            self.contains(site),
        ensures
            0 <= self.index(site) < self.nsites(),
    {
        let c: int = self.cell_index(site.cell.0 as int, site.cell.1 as int, site.cell.2 as int);
        self.lemma_cell_index_bound(site.cell.0 as int, site.cell.1 as int, site.cell.2 as int);
        lemma_radix_bound(self.natoms as int, c, site.atom as int, self.ncells() as int);
    }

    /// On the way to the number of a site of the first image, no partial
    /// result exceeds the number itself.
    pub proof fn lemma_index_steps(self, site: Site)
        requires
            self.contains(site),
        ensures
            0 <= self.shape.1 * site.cell.2 <= self.shape.1 * site.cell.2 + site.cell.1,
            self.shape.1 * site.cell.2 + site.cell.1 <= self.shape.0 * (self.shape.1
                * site.cell.2 + site.cell.1),
            self.shape.0 * (self.shape.1 * site.cell.2 + site.cell.1) <= self.cell_index(
                site.cell.0 as int,
                site.cell.1 as int,
                site.cell.2 as int,
            ),
            self.cell_index(site.cell.0 as int, site.cell.1 as int, site.cell.2 as int)
                <= self.natoms * self.cell_index(
                site.cell.0 as int,
                site.cell.1 as int,
                site.cell.2 as int,
            ) <= self.index(site),
    {
        let row: int = self.shape.1 * site.cell.2 + site.cell.1;
        lemma_radix_bound(
            self.shape.1 as int,
            site.cell.2 as int,
            site.cell.1 as int,
            self.shape.2 as int,
        );
        lemma_radix_grows(self.shape.0 as int, row, site.cell.0 as int);
        lemma_radix_grows(
            self.natoms as int,
            self.cell_index(site.cell.0 as int, site.cell.1 as int, site.cell.2 as int),
            site.atom as int,
        );
    }

    /// No two distinct sites of the first image share a number.
    pub proof fn lemma_index_injective(self, a: Site, b: Site)
        requires
            self.contains(a),
            self.contains(b),
            self.index(a) == self.index(b),
        ensures
            a == b,
    {
        let sx: int = self.shape.0 as int;
        let sy: int = self.shape.1 as int;
        let ca: int = self.cell_index(a.cell.0 as int, a.cell.1 as int, a.cell.2 as int);
        let cb: int = self.cell_index(b.cell.0 as int, b.cell.1 as int, b.cell.2 as int);
        lemma_radix_unique(self.natoms as int, ca, a.atom as int, cb, b.atom as int);
        lemma_radix_unique(
            sx,
            sy * a.cell.2 + a.cell.1,
            a.cell.0 as int,
            sy * b.cell.2 + b.cell.1,
            b.cell.0 as int,
        );
        lemma_radix_unique(sy, a.cell.2 as int, a.cell.1 as int, b.cell.2 as int, b.cell.1 as int);
    }

    /// Every number below the cell count is the number of a cell of the
    /// first image, namely of `cell_at(c)`.
    pub proof fn lemma_cell_at(self, c: int)
        requires
            0 <= c < self.ncells(),
        ensures
            0 <= self.cell_at(c).0 < self.shape.0,
            0 <= self.cell_at(c).1 < self.shape.1,
            0 <= self.cell_at(c).2 < self.shape.2,
            self.cell_index(self.cell_at(c).0, self.cell_at(c).1, self.cell_at(c).2) == c,
    {
        let sx: int = self.shape.0 as int;
        let sy: int = self.shape.1 as int;
        let sz: int = self.shape.2 as int;
        assert(sx > 0 && sy > 0 && sz > 0) by (nonlinear_arith)
            requires
                0 <= c < sx * sy * sz,
                sx >= 0,
                sy >= 0,
                sz >= 0,
        ;
        assert(sx * sy * sz == sx * (sy * sz)) by (nonlinear_arith);
        lemma_radix_split(sx, sy * sz, c);
        lemma_radix_split(sy, sz, c / sx);
    }

    /// `cell_at` undoes `cell_index` on the first image.
    pub proof fn lemma_cell_at_index(self, x: int, y: int, z: int)
        requires
            0 <= x < self.shape.0,
            0 <= y < self.shape.1,
            0 <= z < self.shape.2,
        ensures
            self.cell_at(self.cell_index(x, y, z)) == (x, y, z),
    {
        let c: int = self.cell_index(x, y, z);
        self.lemma_cell_index_bound(x, y, z);
        self.lemma_cell_at(c);
        let at: (int, int, int) = self.cell_at(c);
        lemma_radix_unique(
            self.shape.0 as int,
            self.shape.1 * at.2 + at.1,
            at.0,
            self.shape.1 * z + y,
            x,
        );
        lemma_radix_unique(self.shape.1 as int, at.2, at.1, z, y);
    }

    /// Every number below the site count is the number of a site of the
    /// first image, namely of `site_at(k)`.
    pub proof fn lemma_site_at(self, k: int)
        requires
            0 <= k < self.nsites(),
        ensures
            self.contains(self.site_at(k)),
            self.index(self.site_at(k)) == k,
    {
        let n: int = self.natoms as int;
        let cells: int = self.ncells() as int;
        assert(n > 0) by (nonlinear_arith)
            requires
                0 <= k < n * cells,
                n >= 0,
                cells >= 0,
        ;
        lemma_radix_split(n, cells, k);
        self.lemma_cell_at(k / n);
    }

    /// `site_at` undoes `index` on the first image.
    pub proof fn lemma_site_at_index(self, site: Site)
        requires
            self.contains(site),
        ensures
            self.site_at(self.index(site)) == site,
    {
        self.lemma_index_bound(site);
        self.lemma_site_at(self.index(site));
        self.lemma_index_injective(self.site_at(self.index(site)), site);
    }
}

impl LatticeView {
    /// What `inside` accepts lies in the first image, and `inside` leaves
    /// the sites of the first image as they are.
    pub proof fn lemma_inside_contains(self, site: Site)
        ensures
            self.inside(site) matches Some(s) ==> self.contains(s) && self.inside(s) == Some(s),
            self.contains(site) ==> self.inside(site) == Some(site),
    {
        lemma_wrap_in_range(site.cell.0 as int, self.shape.0 as int, self.pbc.0);
        lemma_wrap_in_range(site.cell.1 as int, self.shape.1 as int, self.pbc.1);
        lemma_wrap_in_range(site.cell.2 as int, self.shape.2 as int, self.pbc.2);
    }

    /// Every site that `inside` accepts is numbered in `[0, nsites)`.
    pub proof fn lemma_index_in_range(self, site: Site)
        requires
            self.inside(site).is_some(),
        ensures
            0 <= self.index(self.inside(site).unwrap()) < self.nsites(),
    {
        self.lemma_inside_contains(site);
        self.grid().lemma_index_bound(self.inside(site).unwrap());
    }

    /// Two sites that `inside` accepts share a number only where `inside`
    /// makes them the same site.
    pub proof fn lemma_index_distinct(self, a: Site, b: Site)
        requires
            self.inside(a).is_some(),
            self.inside(b).is_some(),
            self.index(self.inside(a).unwrap()) == self.index(self.inside(b).unwrap()),
        ensures
            self.inside(a) == self.inside(b),
    {
        self.lemma_inside_contains(a);
        self.lemma_inside_contains(b);
        self.grid().lemma_index_injective(self.inside(a).unwrap(), self.inside(b).unwrap());
    }

    /// Every bond of a site leads to a site of the first image.
    pub proof fn lemma_bonds_inside(self, site: Site, i: int)
        requires
            0 <= i < self.bonds(site).len(),
        ensures
            self.contains(self.bonds(site)[i].0),
            self.inside(self.bonds(site)[i].0) == Some(self.bonds(site)[i].0),
    {
        let f = |v: Vertex| self.bond(v, site);
        let b: (Site, Option<u64>) = self.bonds(site)[i];
        assert(self.vertices.filter_map(f).contains(b));
        self.vertices.lemma_filter_map_contains(f, b);
        let v: Vertex = choose|v: Vertex| #[trigger] self.vertices.contains(v) && f(v) == Some(b);
        let t: Site = self.canon(v.target_cell(site), v.tgt as int).unwrap();
        lemma_wrap_in_range(v.target_cell(site).0, self.shape.0 as int, self.pbc.0);
        lemma_wrap_in_range(v.target_cell(site).1, self.shape.1 as int, self.pbc.1);
        lemma_wrap_in_range(v.target_cell(site).2, self.shape.2 as int, self.pbc.2);
        self.lemma_inside_contains(t);
    }

    /// Every number below the site count belongs to exactly one site that
    /// `inside` accepts as it is: `site_at(k)`.
    pub proof fn lemma_index_onto(self, k: int)
        requires
            0 <= k < self.nsites(),
        ensures
            self.inside(self.site_at(k)) == Some(self.site_at(k)),
            self.index(self.site_at(k)) == k,
    {
        self.grid().lemma_site_at(k);
        self.lemma_inside_contains(self.site_at(k));
    }
}

/// A wrapped coordinate lies on the axis, and a coordinate on the axis wraps
/// to itself.
pub proof fn lemma_wrap_in_range(c: int, size: int, periodic: bool)
    ensures
        wrap(c, size, periodic) matches Some(v) ==> 0 <= v < size && wrap(v, size, periodic)
            == Some(v),
        0 <= c < size ==> wrap(c, size, periodic) == Some(c),
{
    if size > 0 {
        lemma_mod_bound(c, size);
    }
}

} // verus!
