//! Lattices of unit cells, their sites, and the dense numbering of sites.

use vstd::prelude::*;
use crate::util::super_mod;

pub use crate::adjacency::{Adjacency, AdjacencyView};
pub use crate::sites::{CellIterator, SiteIterator};

verus! {

/// A location in a lattice: the unit cell it lies in and which atom of the
/// unit cell it is.
#[derive(Debug, Clone, Copy, PartialEq, Eq)]
pub struct Site {
    pub cell: (i64, i64, i64),
    pub atom: u32,
}

impl Site {
    /// The atom of the unit cell that this site stands for.
    pub fn atom(&self) -> (a: u32)
        ensures
            a == self.atom,
    {
        self.atom
    }
}

/// A bond template: every site whose atom is `src` is bonded to the atom
/// `tgt` of the cell `delta` cells away.
///
/// `exch` is the coupling constant of the bond, kept as the bit pattern of
/// its IEEE 754 double-precision value, or `None` where the template names
/// no coupling.
#[derive(Debug, Clone, Copy)]
pub struct Vertex {
    pub src: u32,
    pub tgt: u32,
    pub delta: (i64, i64, i64),
    pub exch: Option<u64>,
}

impl Vertex {
    /// The cell that the template points at from `site`.
    pub open spec fn target_cell(self, site: Site) -> (int, int, int) {
        (site.cell.0 + self.delta.0, site.cell.1 + self.delta.1, site.cell.2 + self.delta.2)
    }

    /// The site that the template points at from `site`, before it is
    /// brought into the first image; `None` where `site` is not of the
    /// template's source atom.
    fn tgt_for(&self, site: &Site) -> (r: Option<Site>)
        requires
            site.atom == self.src ==> {
                &&& i64::MIN <= site.cell.0 + self.delta.0 <= i64::MAX
                &&& i64::MIN <= site.cell.1 + self.delta.1 <= i64::MAX
                &&& i64::MIN <= site.cell.2 + self.delta.2 <= i64::MAX
            },
        ensures
            r.is_some() <==> site.atom == self.src,
            r matches Some(t) ==> t.atom == self.tgt && (
                t.cell.0 as int,
                t.cell.1 as int,
                t.cell.2 as int,
            ) == self.target_cell(*site),
    {
        if site.atom != self.src {
            return None;
        }
        Some(
            Site {
                cell: (
                    site.cell.0 + self.delta.0,
                    site.cell.1 + self.delta.1,
                    site.cell.2 + self.delta.2,
                ),
                atom: self.tgt,
            },
        )
    }
}

/// Where the coordinate `c` lands on an axis of `size` cells: itself when it
/// is in range, its remainder by `size` on a periodic axis, nowhere on an
/// open one.
pub open spec fn wrap(c: int, size: int, periodic: bool) -> Option<int> {
    if 0 <= c < size {
        Some(c)
    } else if periodic && size > 0 {
        Some(c % size)
    } else {
        None
    }
}

/// The coupling of a bond, zero where its template names none.
pub open spec fn coupling_or_zero(exch: Option<u64>) -> u64 {
    match exch {
        Some(bits) => bits,
        None => 0,
    }
}

/// The frame in which sites are numbered: the number of cells along each
/// axis and the number of atoms in a unit cell.
pub struct Grid {
    pub shape: (u32, u32, u32),
    pub natoms: u32,
}

impl Grid {
    /// Number of unit cells.
    pub open spec fn ncells(self) -> nat {
        (self.shape.0 as nat) * (self.shape.1 as nat) * (self.shape.2 as nat)
    }

    /// Number of sites: one per atom of each unit cell.
    pub open spec fn nsites(self) -> nat {
        (self.natoms as nat) * self.ncells()
    }

    /// `site` lies in the first image: every coordinate is within the shape
    /// and the atom is one of the unit cell's.
    pub open spec fn contains(self, site: Site) -> bool {
        &&& 0 <= site.cell.0 < self.shape.0
        &&& 0 <= site.cell.1 < self.shape.1
        &&& 0 <= site.cell.2 < self.shape.2
        &&& site.atom < self.natoms
    }

    /// The number of the cell `(x, y, z)`: `x` runs fastest, `z` slowest.
    pub open spec fn cell_index(self, x: int, y: int, z: int) -> int {
        self.shape.0 * (self.shape.1 * z + y) + x
    }

    /// The cell numbered `c`.
    pub open spec fn cell_at(self, c: int) -> (int, int, int) {
        (
            c % (self.shape.0 as int),
            (c / (self.shape.0 as int)) % (self.shape.1 as int),
            c / (self.shape.0 as int) / (self.shape.1 as int),
        )
    }

    /// The number of a site of the first image: atoms run fastest, then `x`,
    /// `y` and `z`.
    pub open spec fn index(self, site: Site) -> int {
        self.natoms * self.cell_index(site.cell.0 as int, site.cell.1 as int, site.cell.2 as int)
            + site.atom
    }

    /// The site numbered `k`.
    pub open spec fn site_at(self, k: int) -> Site {
        let cell: (int, int, int) = self.cell_at(k / (self.natoms as int));
        Site {
            cell: (cell.0 as i64, cell.1 as i64, cell.2 as i64),
            atom: (k % (self.natoms as int)) as u32,
        }
    }
}

/// The mathematical content of a [`Lattice`].
pub struct LatticeView {
    pub pbc: (bool, bool, bool),
    pub shape: (u32, u32, u32),
    pub natoms: u32,
    pub vertices: Seq<Vertex>,
}

impl LatticeView {
    /// The frame in which the lattice numbers its sites.
    pub open spec fn grid(self) -> Grid {
        Grid { shape: self.shape, natoms: self.natoms }
    }

    /// Number of sites: one per atom of each unit cell.
    pub open spec fn nsites(self) -> nat {
        self.grid().nsites()
    }

    /// The site of the first image that the cell `cell` and the atom `atom`
    /// stand for, if there is one.
    pub open spec fn canon(self, cell: (int, int, int), atom: int) -> Option<Site> {
        if 0 <= atom < self.natoms {
            match (
                wrap(cell.0, self.shape.0 as int, self.pbc.0),
                wrap(cell.1, self.shape.1 as int, self.pbc.1),
                wrap(cell.2, self.shape.2 as int, self.pbc.2),
            ) {
                (Some(x), Some(y), Some(z)) => Some(
                    Site { cell: (x as i64, y as i64, z as i64), atom: atom as u32 },
                ),
                _ => None,
            }
        } else {
            None
        }
    }

    /// The image of `site` in the first image of the lattice.
    pub open spec fn inside(self, site: Site) -> Option<Site> {
        self.canon((site.cell.0 as int, site.cell.1 as int, site.cell.2 as int), site.atom as int)
    }

    /// `site` lies in the first image.
    pub open spec fn contains(self, site: Site) -> bool {
        self.grid().contains(site)
    }

    /// The number of a site of the first image.
    pub open spec fn index(self, site: Site) -> int {
        self.grid().index(site)
    }

    /// The site numbered `k`.
    pub open spec fn site_at(self, k: int) -> Site {
        self.grid().site_at(k)
    }

    /// The site count can be held in a `usize`.
    pub open spec fn countable(self) -> bool {
        self.nsites() <= usize::MAX
    }

    /// The bond that the template `v` gives the site `site` of the first
    /// image: the target site with the template's coupling, if `site` is of
    /// the template's source atom and the target lies inside the lattice.
    pub open spec fn bond(self, v: Vertex, site: Site) -> Option<(Site, Option<u64>)> {
        if v.src == site.atom {
            match self.canon(v.target_cell(site), v.tgt as int) {
                Some(t) => Some((t, v.exch)),
                None => None,
            }
        } else {
            None
        }
    }

    /// The bonds of a site of the first image, in the order of the templates.
    pub open spec fn bonds(self, site: Site) -> Seq<(Site, Option<u64>)> {
        self.vertices.filter_map(|v: Vertex| self.bond(v, site))
    }

    /// The bonds of the site that `site` stands for, if it stands for one.
    pub open spec fn tgts(self, site: Site) -> Option<Seq<(Site, Option<u64>)>> {
        match self.inside(site) {
            Some(s) => Some(self.bonds(s)),
            None => None,
        }
    }

    /// The numbers of the sites that the site numbered `k` is bonded to, in
    /// the order of the templates.
    pub open spec fn nbhs_of(self, k: int) -> Seq<usize> {
        self.bonds(self.site_at(k)).map_values(|b: (Site, Option<u64>)| self.index(b.0) as usize)
    }

    /// The couplings of the bonds of the site numbered `k`, in the order of
    /// the templates; a bond without a coupling counts as zero.
    pub open spec fn exch_of(self, k: int) -> Seq<u64> {
        self.bonds(self.site_at(k)).map_values(|b: (Site, Option<u64>)| coupling_or_zero(b.1))
    }

    /// Applying the template `v` to a site of the first image stays within
    /// the range of a cell coordinate.
    pub open spec fn reaches(self, v: Vertex) -> bool {
        &&& v.delta.0 + self.shape.0 <= i64::MAX + 1
        &&& v.delta.1 + self.shape.1 <= i64::MAX + 1
        &&& v.delta.2 + self.shape.2 <= i64::MAX + 1
    }

    /// Every template can be applied to every site of the first image.
    pub open spec fn bonds_fit(self) -> bool {
        forall|i: int| 0 <= i < self.vertices.len() ==> self.reaches(#[trigger] self.vertices[i])
    }

    /// The lattice is within the limits of the machine: its sites can be
    /// counted and its bonds followed.
    pub open spec fn wf(self) -> bool {
        self.countable() && self.bonds_fit()
    }
}

/// A lattice: which axes are periodic, how many cells it has along each
/// axis, how many atoms a unit cell holds, and the bond templates.
pub struct Lattice {
    pbc: (bool, bool, bool),
    shape: (u32, u32, u32),
    natoms: u32,
    vertices: Vec<Vertex>,
}

impl View for Lattice {
    type V = LatticeView;

    closed spec fn view(&self) -> LatticeView {
        LatticeView {
            pbc: self.pbc,
            shape: self.shape,
            natoms: self.natoms,
            vertices: self.vertices@,
        }
    }
}

/// One coordinate brought into `[0, size)`, or `None` where it falls off an
/// open axis or the axis has no cells.
fn wrap_axis(c: i64, size: u32, periodic: bool) -> (r: Option<i64>)
    ensures
        match r {
            Some(v) => wrap(c as int, size as int, periodic) == Some(v as int),
            None => wrap(c as int, size as int, periodic).is_none(),
        },
{
    let s: i64 = size as i64;
    if !periodic && (c < 0 || s <= c) {
        None
    } else if s == 0 {
        None
    } else {
        let v: i64 = super_mod(c, s);
        proof {
            if 0 <= c < s {
                vstd::arithmetic::div_mod::lemma_small_mod(c as nat, s as nat);
            }
        }
        Some(v)
    }
}

impl Lattice {
    /// The number of cells along each axis.
    pub fn shape(&self) -> (shape: (u32, u32, u32))
        ensures
            shape == self@.shape,
    {
        self.shape
    }

    /// The number of atoms in a unit cell.
    pub fn natoms(&self) -> (natoms: u32)
        ensures
            natoms == self@.natoms,
    {
        self.natoms
    }

    /// Returns the site of the first image that `site` stands for under the
    /// lattice's periodicity, or `None` where `site` lies outside the lattice.
    pub fn inside(&self, site: &Site) -> (r: Option<Site>)
        ensures
            r == self@.inside(*site),
    {
        if !(site.atom < self.natoms) {
            return None;
        }
        let x: i64 = match wrap_axis(site.cell.0, self.shape.0, self.pbc.0) {
            Some(v) => v,
            None => {
                return None;
            },
        };
        let y: i64 = match wrap_axis(site.cell.1, self.shape.1, self.pbc.1) {
            Some(v) => v,
            None => {
                return None;
            },
        };
        let z: i64 = match wrap_axis(site.cell.2, self.shape.2, self.pbc.2) {
            Some(v) => v,
            None => {
                return None;
            },
        };
        Some(Site { cell: (x, y, z), atom: site.atom })
    }

    /// Returns the number of the site that `site` stands for, or `None`
    /// where `site` lies outside the lattice.
    ///
    /// Atoms run fastest, then `x`, then `y`, then `z`.
    pub fn index(&self, site: &Site) -> (r: Option<usize>)
        requires
            self@.countable(),
        ensures
            match r {
                Some(k) => self@.inside(*site) matches Some(s) && k == self@.index(s) && k
                    < self@.nsites(),
                None => self@.inside(*site).is_none(),
            },
    {
        match self.inside(site) {
            None => None,
            Some(s) => {
                proof {
                    self@.lemma_inside_contains(*site);
                    self@.grid().lemma_index_bound(s);
                    self@.grid().lemma_index_steps(s);
                }
                let atom: usize = s.atom as usize;
                let natm: usize = self.natoms as usize;
                let sx: usize = self.shape.0 as usize;
                let sy: usize = self.shape.1 as usize;
                let cx: usize = s.cell.0 as usize;
                let cy: usize = s.cell.1 as usize;
                let cz: usize = s.cell.2 as usize;
                Some(natm * (sx * (sy * cz + cy) + cx) + atom)
            },
        }
    }

    /// Returns the bonds of the site that `site` stands for, each as the
    /// target site and the coupling of its template, in the order of the
    /// templates; `None` where `site` lies outside the lattice.
    ///
    /// Templates of another source atom, and those whose target falls
    /// outside the lattice, give no bond.
    pub fn tgts(&self, site: &Site) -> (r: Option<Vec<(Site, Option<u64>)>>)
        requires
            self@.bonds_fit(),
        ensures
            match r {
                Some(v) => self@.tgts(*site) == Some(v@),
                None => self@.tgts(*site).is_none(),
            },
            r matches Some(v) ==> forall|i: int|
                0 <= i < v@.len() ==> self@.contains(#[trigger] v@[i].0),
    {
        match self.inside(site) {
            None => None,
            Some(s) => {
                proof {
                    self@.lemma_inside_contains(*site);
                    assert forall|i: int| 0 <= i < self@.bonds(s).len() implies self@.contains(
                        #[trigger] self@.bonds(s)[i].0,
                    ) by {
                        self@.lemma_bonds_inside(s, i);
                    }
                }
                let ghost f = |v: Vertex| self@.bond(v, s);
                let mut tgts: Vec<(Site, Option<u64>)> = Vec::new();
                let mut i: usize = 0;
                while i < self.vertices.len()
                    invariant
                        i <= self.vertices.len(),
                        self@.bonds_fit(),
                        self@.contains(s),
                        f == |v: Vertex| self@.bond(v, s),
                        tgts@ == self.vertices@.take(i as int).filter_map(f),
                    decreases self.vertices.len() - i,
                {
                    let vx: &Vertex = &self.vertices[i];
                    proof {
                        assert(self@.reaches(self@.vertices[i as int]));
                        self.vertices@.lemma_filter_map_take_succ(f, i as int);
                    }
                    match vx.tgt_for(&s) {
                        None => {},
                        Some(tgt) => {
                            match self.inside(&tgt) {
                                None => {},
                                Some(tgt) => {
                                    tgts.push((tgt, vx.exch));
                                },
                            }
                        },
                    }
                    i += 1;
                }
                proof {
                    assert(self.vertices@.take(self.vertices@.len() as int) == self.vertices@);
                }
                Some(tgts)
            },
        }
    }

    /// The number of sites: atoms per cell times the number of cells.
    pub fn nsites(&self) -> (n: usize)
        requires
            self@.countable(),
        ensures
            n == self@.nsites(),
    {
        if self.natoms == 0 || self.shape.0 == 0 || self.shape.1 == 0 || self.shape.2 == 0 {
            proof {
                lemma_product_zero(
                    self.natoms as int,
                    self.shape.0 as int,
                    self.shape.1 as int,
                    self.shape.2 as int,
                );
            }
            return 0;
        }
        proof {
            lemma_product_steps(
                self.natoms as int,
                self.shape.0 as int,
                self.shape.1 as int,
                self.shape.2 as int,
            );
        }
        self.natoms as usize * self.shape.0 as usize * self.shape.1 as usize
            * self.shape.2 as usize
    }

    /// Whether the lattice is within the limits of the machine, as
    /// [`Adjacency::new`](crate::lattice::Adjacency::new) needs it to be.
    pub fn is_wf(&self) -> (b: bool)
        ensures
            b == self@.wf(),
    {
        proof {
            lemma_product_below(
                self.natoms as int,
                self.shape.0 as int,
                self.shape.1 as int,
                self.shape.2 as int,
            );
        }
        let total: u128 = self.natoms as u128 * (self.shape.0 as u128 * self.shape.1 as u128
            * self.shape.2 as u128);
        if total > usize::MAX as u128 {
            return false;
        }
        let mut i: usize = 0;
        while i < self.vertices.len()
            invariant
                i <= self.vertices.len(),
                forall|j: int| 0 <= j < i ==> self@.reaches(#[trigger] self@.vertices[j]),
            decreases self.vertices.len() - i,
        {
            let vx: &Vertex = &self.vertices[i];
            let fits: bool = reaches_axis(vx.delta.0, self.shape.0) && reaches_axis(
                vx.delta.1,
                self.shape.1,
            ) && reaches_axis(vx.delta.2, self.shape.2);
            if !fits {
                assert(!self@.reaches(self@.vertices[i as int]));
                return false;
            }
            i += 1;
        }
        true
    }
}

/// Whether a step of `delta` cells from any cell of an axis of `size` cells
/// stays within the range of a cell coordinate.
fn reaches_axis(delta: i64, size: u32) -> (b: bool)
    ensures
        b == (delta + size <= i64::MAX + 1),
{
    size == 0 || delta <= i64::MAX - (size as i64 - 1)
}

/// A product of four 32-bit factors is below `2^128`, and so are its parts.
proof fn lemma_product_below(n: int, a: int, b: int, c: int)
    requires
        0 <= n <= u32::MAX,
        0 <= a <= u32::MAX,
        0 <= b <= u32::MAX,
        0 <= c <= u32::MAX,
    ensures
        0 <= a * b <= u128::MAX,
        0 <= a * b * c <= u128::MAX,
        0 <= n * (a * b * c) <= u128::MAX,
{
    assert(0 <= a * b <= 0xffff_ffff * 0xffff_ffff) by (nonlinear_arith)
        requires
            0 <= a <= 0xffff_ffff,
            0 <= b <= 0xffff_ffff,
    ;
    let ab: int = a * b;
    assert(0 <= ab * c <= 0xffff_fffe_0000_0001 * 0xffff_ffff) by (nonlinear_arith)
        requires
            0 <= ab <= 0xffff_fffe_0000_0001,
            0 <= c <= 0xffff_ffff,
    ;
    let abc: int = ab * c;
    assert(0 <= n * abc <= 0xffff_ffff * 0xffff_fffd_0000_0002_ffff_ffff) by (nonlinear_arith)
        requires
            0 <= abc <= 0xffff_fffd_0000_0002_ffff_ffff,
            0 <= n <= 0xffff_ffff,
    ;
}

/// A product with a zero factor is zero.
proof fn lemma_product_zero(n: int, a: int, b: int, c: int)
    requires
        n == 0 || a == 0 || b == 0 || c == 0,
    ensures
        n * (a * b * c) == 0,
{
    assert(n * (a * b * c) == 0) by (nonlinear_arith)
        requires
            n == 0 || a == 0 || b == 0 || c == 0,
    ;
}

/// Among positive factors, each partial product is at most the whole.
proof fn lemma_product_steps(n: int, a: int, b: int, c: int)
    requires
        n > 0,
        a > 0,
        b > 0,
        c > 0,
    ensures
        0 < n * a <= n * a * b <= n * a * b * c,
        n * a * b * c == n * (a * b * c),
{
    assert(0 < n * a <= n * a * b <= n * a * b * c && n * a * b * c == n * (a * b * c))
        by (nonlinear_arith)
        requires
            n > 0,
            a > 0,
            b > 0,
            c > 0,
    ;
}

/// Collects the parts of a [`Lattice`]; what is not set keeps its default:
/// periodic along every axis, ten cells along each, one atom per cell, no
/// bond templates.
pub struct LatticeBuilder {
    pbc: (bool, bool, bool),
    shape: (u32, u32, u32),
    natoms: u32,
    vertices: Vec<Vertex>,
}

impl View for LatticeBuilder {
    type V = LatticeView;

    closed spec fn view(&self) -> LatticeView {
        LatticeView {
            pbc: self.pbc,
            shape: self.shape,
            natoms: self.natoms,
            vertices: self.vertices@,
        }
    }
}

impl LatticeBuilder {
    /// A builder holding the defaults.
    pub fn new() -> (b: LatticeBuilder)
        ensures
            b@ == (LatticeView {
                pbc: (true, true, true),
                shape: (10u32, 10u32, 10u32),
                natoms: 1u32,
                vertices: Seq::empty(),
            }),
    {
        LatticeBuilder {
            pbc: (true, true, true),
            shape: (10u32, 10u32, 10u32),
            natoms: 1u32,
            vertices: Vec::new(),
        }
    }

    /// Sets which axes are periodic.
    pub fn pbc(self, pbc: (bool, bool, bool)) -> (b: LatticeBuilder)
        ensures
            b@ == (LatticeView { pbc: pbc, ..self@ }),
    {
        let mut b = self;
        b.pbc = pbc;
        b
    }

    /// Sets the number of cells along each axis.
    pub fn shape(self, shape: (u32, u32, u32)) -> (b: LatticeBuilder)
        ensures
            b@ == (LatticeView { shape: shape, ..self@ }),
    {
        let mut b = self;
        b.shape = shape;
        b
    }

    /// Sets the number of atoms in a unit cell.
    pub fn natoms(self, natoms: u32) -> (b: LatticeBuilder)
        ensures
            b@ == (LatticeView { natoms: natoms, ..self@ }),
    {
        let mut b = self;
        b.natoms = natoms;
        b
    }

    /// Sets the bond templates.
    pub fn vertices(self, vertices: Vec<Vertex>) -> (b: LatticeBuilder)
        ensures
            b@ == (LatticeView { vertices: vertices@, ..self@ }),
    {
        let mut b = self;
        b.vertices = vertices;
        b
    }

    /// The lattice made of what the builder holds.
    pub fn finalize(self) -> (l: Lattice)
        ensures
            l@ == self@,
    {
        Lattice {
            pbc: self.pbc,
            shape: self.shape,
            natoms: self.natoms,
            vertices: self.vertices,
        }
    }
}

} // verus!
