//! How many bonds a lattice has when no bond is lost at a boundary.

use vstd::prelude::*;
use vstd::arithmetic::div_mod::{lemma_fundamental_div_mod, lemma_fundamental_div_mod_converse, lemma_mod_bound};
use crate::adjacency::AdjacencyView;
use crate::lattice::{LatticeView, Site, Vertex};
use crate::tables::{all_within, within};

verus! {

/// The number of templates of `list` whose source atom is `atom`.
pub open spec fn degree(list: Seq<Vertex>, atom: int) -> nat
    decreases list.len(),
{
    if list.len() == 0 {
        0
    } else {
        degree(list.drop_last(), atom) + if list.last().src == atom {
            1nat
        } else {
            0nat
        }
    }
}

/// The number of templates of `list` whose source atom is below `n`.
pub open spec fn degree_below(list: Seq<Vertex>, n: int) -> nat
    decreases n,
{
    if n <= 0 {
        0
    } else {
        degree_below(list, n - 1) + degree(list, n - 1)
    }
}

/// The lattice is periodic along every axis and has cells along each.
pub open spec fn closed_on_itself(lattice: LatticeView) -> bool {
    &&& lattice.pbc == (true, true, true)
    &&& lattice.shape.0 > 0
    &&& lattice.shape.1 > 0
    &&& lattice.shape.2 > 0
}

/// One more template adds one to the count below `n` if it starts at an
/// atom below `n`, and nothing otherwise.
proof fn lemma_degree_below_last(list: Seq<Vertex>, n: int)
    requires
        list.len() > 0,
    ensures
        degree_below(list, n) == degree_below(list.drop_last(), n) + if list.last().src < n {
            1nat
        } else {
            0nat
        },
    decreases n,
{
    if n > 0 {
        lemma_degree_below_last(list, n - 1);
    }
}

/// Templates that all start below `n` are all counted below `n`.
pub proof fn lemma_degree_below_all(list: Seq<Vertex>, n: int)
    requires
        forall|i: int| 0 <= i < list.len() ==> (#[trigger] list[i]).src < n,
    ensures
        degree_below(list, n) == list.len(),
    decreases list.len(),
{
    if list.len() == 0 {
        assert(list =~= Seq::<Vertex>::empty());
        lemma_degree_below_none(n);
    } else {
        assert forall|i: int| 0 <= i < list.drop_last().len() implies (
        #[trigger] list.drop_last()[i]).src < n by {
            assert(list.drop_last()[i] == list[i]);
        }
        lemma_degree_below_all(list.drop_last(), n);
        lemma_degree_below_last(list, n);
        assert(list.last() == list[list.len() - 1]);
    }
}

/// Of no templates, none start anywhere.
proof fn lemma_degree_below_none(n: int)
    ensures
        degree_below(Seq::<Vertex>::empty(), n) == 0,
    decreases n,
{
    if n > 0 {
        lemma_degree_below_none(n - 1);
    }
}

/// In a lattice closed on itself every template of a site's atom gives the
/// site a bond, provided its target atom exists.
proof fn lemma_bonds_of_templates(lattice: LatticeView, list: Seq<Vertex>, site: Site)
    requires
        closed_on_itself(lattice),
        lattice.contains(site),
        forall|i: int| 0 <= i < list.len() ==> (#[trigger] list[i]).tgt < lattice.natoms,
    ensures
        list.filter_map(|v: Vertex| lattice.bond(v, site)).len() == degree(
            list,
            site.atom as int,
        ),
    decreases list.len(),
{
    if list.len() > 0 {
        lemma_bonds_of_templates(lattice, list.drop_last(), site);
        let v: Vertex = list.last();
        assert(v == list[list.len() - 1]);
        assert(lattice.bond(v, site).is_some() <==> v.src == site.atom);
    }
}

/// In a lattice closed on itself a site has as many bonds as there are
/// templates of its atom.
pub proof fn lemma_bonds_len(lattice: LatticeView, natoms: u32, site: Site)
    requires
        closed_on_itself(lattice),
        natoms <= lattice.natoms,
        all_within(lattice.vertices, natoms),
        lattice.contains(site),
    ensures
        lattice.bonds(site).len() == degree(lattice.vertices, site.atom as int),
{
    assert forall|i: int| 0 <= i < lattice.vertices.len() implies (
    #[trigger] lattice.vertices[i]).tgt < lattice.natoms by {
        assert(within(lattice.vertices[i], natoms));
    }
    lemma_bonds_of_templates(lattice, lattice.vertices, site);
}

/// From one site number to the next the atom steps up, or starts over in
/// the next cell.
proof fn lemma_next_number(k: int, n: int)
    requires
        0 <= k,
        0 < n,
    ensures
        0 <= k % n < n,
        k % n + 1 < n ==> (k + 1) / n == k / n && (k + 1) % n == k % n + 1,
        k % n + 1 == n ==> (k + 1) / n == k / n + 1 && (k + 1) % n == 0,
{
    lemma_fundamental_div_mod(k, n);
    lemma_mod_bound(k, n);
    let q: int = k / n;
    let r: int = k % n;
    if r + 1 < n {
        assert(k + 1 == q * n + (r + 1)) by (nonlinear_arith)
            requires
                k == n * q + r,
        ;
        lemma_fundamental_div_mod_converse(k + 1, n, q, r + 1);
    } else {
        assert(k + 1 == (q + 1) * n + 0) by (nonlinear_arith)
            requires
                k == n * q + r,
                r + 1 == n,
        ;
        lemma_fundamental_div_mod_converse(k + 1, n, q + 1, 0);
    }
}

/// In the table of a lattice closed on itself the bonds of a site start
/// after those of the cells before its cell and of the atoms before its
/// atom.
proof fn lemma_offset(table: AdjacencyView, lattice: LatticeView, natoms: u32, k: int)
    requires
        table.describes(lattice),
        closed_on_itself(lattice),
        natoms <= lattice.natoms,
        all_within(lattice.vertices, natoms),
        0 <= k <= lattice.nsites(),
        lattice.natoms > 0,
    ensures
        table.lims[k] == (k / (lattice.natoms as int)) * lattice.vertices.len() + degree_below(
            lattice.vertices,
            k % (lattice.natoms as int),
        ),
    decreases k,
{
    let n: int = lattice.natoms as int;
    let len: int = lattice.vertices.len() as int;
    if k == 0 {
        assert(0int / n == 0 && 0int % n == 0) by {
            lemma_fundamental_div_mod_converse(0, n, 0, 0);
        }
        assert(0 * len == 0) by (nonlinear_arith);
    } else {
        let j: int = k - 1;
        lemma_offset(table, lattice, natoms, j);
        table.lemma_offset_step(j);
        assert(table.nbhs_of(j) == lattice.nbhs_of(j));
        lattice.grid().lemma_site_at(j);
        lemma_bonds_len(lattice, natoms, lattice.site_at(j));
        lemma_next_number(j, n);
        if j % n + 1 == n {
            assert forall|i: int| 0 <= i < lattice.vertices.len() implies (
            #[trigger] lattice.vertices[i]).src < n by {
                assert(within(lattice.vertices[i], natoms));
            }
            lemma_degree_below_all(lattice.vertices, n);
            assert((j / n + 1) * len == (j / n) * len + len) by (nonlinear_arith);
        }
    }
}

/// A lattice that is periodic along every axis loses no bond: where every
/// template joins atoms of the unit cell its neighbour table holds one bond
/// for each template in each cell.
pub proof fn lemma_bond_count(table: AdjacencyView, lattice: LatticeView, natoms: u32)
    requires
        table.describes(lattice),
        lattice.pbc == (true, true, true),
        natoms <= lattice.natoms,
        all_within(lattice.vertices, natoms),
    ensures
        table.lims.len() == lattice.nsites() + 1,
        table.nbhs.len() == lattice.grid().ncells() * lattice.vertices.len(),
        table.exch.len() == lattice.grid().ncells() * lattice.vertices.len(),
{
    let n: int = lattice.natoms as int;
    let cells: int = lattice.grid().ncells() as int;
    let len: int = lattice.vertices.len() as int;
    if n == 0 {
        if len > 0 {
            assert(within(lattice.vertices[0], natoms));
        }
        assert(n * cells == 0 && cells * len == 0) by (nonlinear_arith)
            requires
                n == 0,
                len == 0,
        ;
    } else if lattice.shape.0 == 0 || lattice.shape.1 == 0 || lattice.shape.2 == 0 {
        let sx: int = lattice.shape.0 as int;
        let sy: int = lattice.shape.1 as int;
        let sz: int = lattice.shape.2 as int;
        assert(sx * sy * sz == 0) by (nonlinear_arith)
            requires
                sx == 0 || sy == 0 || sz == 0,
        ;
        assert(n * cells == 0 && cells * len == 0) by (nonlinear_arith)
            requires
                cells == 0,
        ;
    } else {
        lemma_offset(table, lattice, natoms, n * cells);
        assert((n * cells) / n == cells && (n * cells) % n == 0) by {
            assert(n * cells == cells * n + 0) by (nonlinear_arith);
            lemma_fundamental_div_mod_converse(n * cells, n, cells, 0);
        }
    }
}

} // verus!
