//! The neighbour table of a lattice: for every site, the numbers of the
//! sites it is bonded to and the couplings of those bonds, stored flat.

use vstd::prelude::*;
use vstd::slice::slice_subrange;
use crate::lattice::{Lattice, LatticeView, Site};

verus! {

/// The mathematical content of an [`Adjacency`]: the bonds of the site
/// numbered `i` are the entries `lims[i] .. lims[i + 1]` of `nbhs` and
/// `exch`.
pub struct AdjacencyView {
    pub lims: Seq<usize>,
    pub nbhs: Seq<usize>,
    pub exch: Seq<u64>,
}

impl AdjacencyView {
    /// The offsets start at zero, never decrease and end at the number of
    /// bonds; every bond has a coupling and leads to a site of the table.
    pub open spec fn wf(self) -> bool {
        &&& self.lims.len() >= 1
        &&& self.lims[0] == 0
        &&& forall|i: int, j: int|
            0 <= i <= j < self.lims.len() ==> self.lims[i] <= self.lims[j]
        &&& self.lims.last() == self.nbhs.len()
        &&& self.exch.len() == self.nbhs.len()
        &&& forall|k: int| 0 <= k < self.nbhs.len() ==> self.nbhs[k] < self.lims.len() - 1
    }

    /// The number of sites that the table covers.
    pub open spec fn nsites(self) -> nat {
        (self.lims.len() - 1) as nat
    }

    /// The numbers of the sites that the site numbered `i` is bonded to.
    pub open spec fn nbhs_of(self, i: int) -> Seq<usize> {
        self.nbhs.subrange(self.lims[i] as int, self.lims[i + 1] as int)
    }

    /// The couplings of the bonds of the site numbered `i`.
    pub open spec fn exch_of(self, i: int) -> Seq<u64> {
        self.exch.subrange(self.lims[i] as int, self.lims[i + 1] as int)
    }

    /// The table holds, site by site, the bonds of `lattice`.
    pub open spec fn describes(self, lattice: LatticeView) -> bool {
        &&& self.wf()
        &&& self.nsites() == lattice.nsites()
        &&& forall|i: int|
            0 <= i < lattice.nsites() ==> #[trigger] self.nbhs_of(i) == lattice.nbhs_of(i)
        &&& forall|i: int|
            0 <= i < lattice.nsites() ==> #[trigger] self.exch_of(i) == lattice.exch_of(i)
    }
}

impl AdjacencyView {
    /// The bonds of a site end where those of the next site start, so each
    /// offset is the one before it plus the number of bonds in between.
    pub proof fn lemma_offset_step(self, i: int)
        requires
            self.wf(),
            0 <= i < self.nsites(),
        ensures
            self.lims[i] <= self.lims[i + 1] <= self.nbhs.len(),
            self.nbhs_of(i).len() == self.lims[i + 1] - self.lims[i],
            self.exch_of(i).len() == self.lims[i + 1] - self.lims[i],
    {
        assert(self.lims[i] <= self.lims[i + 1]);
        assert(self.lims[i + 1] <= self.lims[self.lims.len() - 1]);
    }

    /// Every bond belongs to a site: an entry `k` of the flat arrays lies
    /// between the offsets of some site below `hi`, given that it lies
    /// below the offset of `hi`.
    pub proof fn lemma_site_of_bond(self, k: int, hi: int) -> (i: int)
        requires
            self.wf(),
            0 <= hi <= self.nsites(),
            0 <= k < self.lims[hi],
        ensures
            0 <= i < hi,
            self.lims[i] <= k < self.lims[i + 1],
        decreases hi,
    {
        if self.lims[hi - 1] <= k {
            hi - 1
        } else {
            self.lemma_site_of_bond(k, hi - 1)
        }
    }

    /// Two tables of one lattice have the same offsets.
    proof fn lemma_same_offsets(self, other: AdjacencyView, lattice: LatticeView, i: int)
        requires
            self.describes(lattice),
            other.describes(lattice),
            0 <= i <= lattice.nsites(),
        ensures
            self.lims[i] == other.lims[i],
        decreases i,
    {
        if i > 0 {
            self.lemma_same_offsets(other, lattice, i - 1);
            self.lemma_offset_step(i - 1);
            other.lemma_offset_step(i - 1);
            assert(self.nbhs_of(i - 1) == lattice.nbhs_of(i - 1));
            assert(other.nbhs_of(i - 1) == lattice.nbhs_of(i - 1));
        }
    }

    /// A lattice has one neighbour table: what `describes` says of a table
    /// leaves nothing of it open.
    pub proof fn lemma_describes_unique(self, other: AdjacencyView, lattice: LatticeView)
        requires
            self.describes(lattice),
            other.describes(lattice),
        ensures
            self == other,
    {
        let n: int = lattice.nsites() as int;
        assert forall|i: int| 0 <= i < self.lims.len() implies self.lims[i] == other.lims[i] by {
            self.lemma_same_offsets(other, lattice, i);
        }
        assert(self.lims =~= other.lims);
        assert(self.nbhs.len() == other.nbhs.len());
        assert forall|k: int| 0 <= k < self.nbhs.len() implies self.nbhs[k] == other.nbhs[k]
            && self.exch[k] == other.exch[k] by {
            let i: int = self.lemma_site_of_bond(k, n);
            self.lemma_offset_step(i);
            other.lemma_offset_step(i);
            assert(self.nbhs_of(i) == lattice.nbhs_of(i));
            assert(other.nbhs_of(i) == lattice.nbhs_of(i));
            assert(self.exch_of(i) == lattice.exch_of(i));
            assert(other.exch_of(i) == lattice.exch_of(i));
            assert(self.nbhs[k] == self.nbhs_of(i)[k - self.lims[i]]);
            assert(other.nbhs[k] == other.nbhs_of(i)[k - other.lims[i]]);
            assert(self.exch[k] == self.exch_of(i)[k - self.lims[i]]);
            assert(other.exch[k] == other.exch_of(i)[k - other.lims[i]]);
        }
        assert(self.nbhs =~= other.nbhs);
        assert(self.exch =~= other.exch);
    }
}

/// The neighbour table of a lattice, built once and read from then on.
pub struct Adjacency {
    lims: Vec<usize>,
    nbhs: Vec<usize>,
    exch: Vec<u64>,
}

impl View for Adjacency {
    type V = AdjacencyView;

    closed spec fn view(&self) -> AdjacencyView {
        AdjacencyView { lims: self.lims@, nbhs: self.nbhs@, exch: self.exch@ }
    }
}

impl Adjacency {
    #[verifier::type_invariant]
    spec fn inv(&self) -> bool {
        self@.wf()
    }

    /// Builds the table of `lattice`: for each site in the order of the
    /// numbers, the numbers of its bonds' targets and their couplings, a
    /// missing coupling counting as zero.
    pub fn new(lattice: &Lattice) -> (adj: Adjacency)
        requires
            lattice@.wf(),
        ensures
            adj@.describes(lattice@),
    {
        let mut lims: Vec<usize> = Vec::new();
        lims.push(0);
        let mut nbhs: Vec<usize> = Vec::new();
        let mut exch: Vec<u64> = Vec::new();
        let ghost nsites: nat = lattice@.nsites();
        let mut it = lattice.sites();
        loop
            invariant
                lattice@.wf(),
                nsites == lattice@.nsites(),
                it.grid() == lattice@.grid(),
                it.pos() <= nsites,
                lims.len() == it.pos() + 1,
                lims[0] == 0,
                forall|i: int, j: int| 0 <= i <= j < lims.len() ==> lims[i] <= lims[j],
                lims[lims.len() - 1] == nbhs.len(),
                exch.len() == nbhs.len(),
                forall|k: int| 0 <= k < nbhs.len() ==> nbhs[k] < nsites,
                forall|i: int|
                    0 <= i < it.pos() ==> #[trigger] nbhs@.subrange(
                        lims[i] as int,
                        lims[i + 1] as int,
                    ) == lattice@.nbhs_of(i),
                forall|i: int|
                    0 <= i < it.pos() ==> #[trigger] exch@.subrange(
                        lims[i] as int,
                        lims[i + 1] as int,
                    ) == lattice@.exch_of(i),
            ensures
                it.pos() == nsites,
            decreases nsites - it.pos(),
        {
            let ghost k: int = it.pos() as int;
            let site: Site = match it.next() {
                None => {
                    break ;
                },
                Some(site) => site,
            };
            proof {
                lattice@.lemma_index_onto(k);
            }
            let targets: Vec<(Site, Option<u64>)> = lattice.tgts(&site).unwrap();
            let mut pnbhs: Vec<usize> = Vec::new();
            let mut pexch: Vec<u64> = Vec::new();
            let mut j: usize = 0;
            while j < targets.len()
                invariant
                    j <= targets.len(),
                    lattice@.countable(),
                    nsites == lattice@.nsites(),
                    targets@ == lattice@.bonds(site),
                    pnbhs.len() == j,
                    pexch.len() == j,
                    forall|m: int|
                        0 <= m < j ==> pnbhs[m] == lattice@.index(targets[m].0) && pnbhs[m]
                            < nsites,
                    forall|m: int| 0 <= m < j ==> pexch[m] == crate::lattice::coupling_or_zero(
                        targets[m].1,
                    ),
                decreases targets.len() - j,
            {
                let (tgt, exchange) = targets[j];
                proof {
                    lattice@.lemma_bonds_inside(site, j as int);
                }
                pnbhs.push(lattice.index(&tgt).unwrap());
                pexch.push(
                    match exchange {
                        Some(bits) => bits,
                        None => 0,
                    },
                );
                j += 1;
            }
            proof {
                assert(pnbhs@ =~= lattice@.nbhs_of(k));
                assert(pexch@ =~= lattice@.exch_of(k));
            }
            let ghost old_lims = lims@;
            let ghost old_nbhs = nbhs@;
            let ghost old_exch = exch@;
            let ghost pn = pnbhs@;
            let ghost pe = pexch@;
            nbhs.append(&mut pnbhs);
            exch.append(&mut pexch);
            lims.push(nbhs.len());
            proof {
                assert forall|i: int| 0 <= i < k + 1 implies #[trigger] nbhs@.subrange(
                    lims[i] as int,
                    lims[i + 1] as int,
                ) == lattice@.nbhs_of(i) by {
                    if i < k {
                        assert(old_lims[i] <= old_lims[i + 1] <= old_lims[k]);
                        assert(nbhs@.subrange(lims[i] as int, lims[i + 1] as int)
                            =~= old_nbhs.subrange(old_lims[i] as int, old_lims[i + 1] as int));
                    } else {
                        assert(nbhs@.subrange(lims[i] as int, lims[i + 1] as int) =~= pn);
                    }
                }
                assert forall|i: int| 0 <= i < k + 1 implies #[trigger] exch@.subrange(
                    lims[i] as int,
                    lims[i + 1] as int,
                ) == lattice@.exch_of(i) by {
                    if i < k {
                        assert(old_lims[i] <= old_lims[i + 1] <= old_lims[k]);
                        assert(exch@.subrange(lims[i] as int, lims[i + 1] as int)
                            =~= old_exch.subrange(old_lims[i] as int, old_lims[i + 1] as int));
                    } else {
                        assert(exch@.subrange(lims[i] as int, lims[i + 1] as int) =~= pe);
                    }
                }
            }
        }
        Adjacency { lims: lims, nbhs: nbhs, exch: exch }
    }

    /// The numbers of the sites that the site numbered `item` is bonded to,
    /// or `None` where the table has no such site.
    pub fn nbhs_of<'a>(&'a self, item: usize) -> (r: Option<&'a [usize]>)
        ensures
            match r {
                Some(s) => {
                    &&& item < self@.nsites()
                    &&& s@ == self@.nbhs_of(item as int)
                    &&& forall|j: int| 0 <= j < s@.len() ==> s@[j] < self@.nsites()
                },
                None => item >= self@.nsites(),
            },
    {
        proof {
            use_type_invariant(self);
        }
        if item >= self.lims.len() - 1 {
            return None;
        }
        let low: usize = self.lims[item];
        let hi: usize = self.lims[item + 1];
        Some(slice_subrange(self.nbhs.as_slice(), low, hi))
    }

    /// The couplings of the bonds of the site numbered `item`, one for each
    /// entry of `nbhs_of(item)`, or `None` where the table has no such site.
    pub fn exch_of<'a>(&'a self, item: usize) -> (r: Option<&'a [u64]>)
        ensures
            match r {
                Some(s) => {
                    &&& item < self@.nsites()
                    &&& s@ == self@.exch_of(item as int)
                    &&& s@.len() == self@.nbhs_of(item as int).len()
                },
                None => item >= self@.nsites(),
            },
    {
        proof {
            use_type_invariant(self);
        }
        if item >= self.lims.len() - 1 {
            return None;
        }
        let low: usize = self.lims[item];
        let hi: usize = self.lims[item + 1];
        Some(slice_subrange(self.exch.as_slice(), low, hi))
    }

    /// The offsets: the bonds of the site numbered `i` start at entry `i`
    /// and end before entry `i + 1`.
    pub fn lims(&self) -> (s: &[usize])
        ensures
            s@ == self@.lims,
            self@.wf(),
    {
        proof {
            use_type_invariant(self);
        }
        self.lims.as_slice()
    }

    /// The bond targets of all sites, one site after the other.
    pub fn nbhs(&self) -> (s: &[usize])
        ensures
            s@ == self@.nbhs,
            self@.wf(),
    {
        proof {
            use_type_invariant(self);
        }
        self.nbhs.as_slice()
    }

    /// The couplings of all bonds, in the order of `nbhs`.
    pub fn exch(&self) -> (s: &[u64])
        ensures
            s@ == self@.exch,
            self@.wf(),
    {
        proof {
            use_type_invariant(self);
        }
        self.exch.as_slice()
    }
}

} // verus!
