//! Bond templates of some crystal structures.
//!
//! Each structure is a table of rows `(src, tgt, dx, dy, dz)`, with the
//! coupling of the bond as a sixth entry where the structure names one. A
//! coupling is held as the bit pattern of its IEEE 754 double-precision
//! value.

use vstd::prelude::*;
use crate::lattice::{LatticeView, Vertex};

verus! {

/// A bond template without a coupling: source atom, target atom, offset.
pub type BareRow = (u32, u32, i64, i64, i64);

/// A bond template with its coupling as the last entry.
pub type CoupledRow = (u32, u32, i64, i64, i64, u64);

/// The template that a row without a coupling stands for.
pub open spec fn bare(row: BareRow) -> Vertex {
    Vertex { src: row.0, tgt: row.1, delta: (row.2, row.3, row.4), exch: None }
}

/// The template that a row with a coupling stands for.
pub open spec fn coupled(row: CoupledRow) -> Vertex {
    Vertex { src: row.0, tgt: row.1, delta: (row.2, row.3, row.4), exch: Some(row.5) }
}

/// The templates of a table without couplings, row by row.
pub open spec fn bare_list(rows: Seq<BareRow>) -> Seq<Vertex> {
    rows.map_values(|row: BareRow| bare(row))
}

/// The templates of a table with couplings, row by row.
pub open spec fn coupled_list(rows: Seq<CoupledRow>) -> Seq<Vertex> {
    rows.map_values(|row: CoupledRow| coupled(row))
}

/// The template joins two atoms of a unit cell of `natoms` atoms, in the
/// same cell or in cells next to each other.
pub open spec fn within(v: Vertex, natoms: u32) -> bool {
    &&& v.src < natoms
    &&& v.tgt < natoms
    &&& -1 <= v.delta.0 <= 1
    &&& -1 <= v.delta.1 <= 1
    &&& -1 <= v.delta.2 <= 1
}

/// Every template of the list is `within` a unit cell of `natoms` atoms.
pub open spec fn all_within(list: Seq<Vertex>, natoms: u32) -> bool {
    forall|i: int| 0 <= i < list.len() ==> within(#[trigger] list[i], natoms)
}

/// Templates that reach no further than the next cell can be followed in a
/// lattice of any shape.
pub proof fn lemma_within_bonds_fit(lattice: LatticeView, natoms: u32)
    requires
        all_within(lattice.vertices, natoms),
    ensures
        lattice.bonds_fit(),
{
    assert forall|i: int| 0 <= i < lattice.vertices.len() implies lattice.reaches(
        #[trigger] lattice.vertices[i],
    ) by {
        assert(within(lattice.vertices[i], natoms));
    }
}

/// Simple cubic: one atom, bonded to its six nearest neighbours.
pub const CUBIC: [BareRow; 6] = [
    (0, 0, 1, 0, 0),
    (0, 0, 0, 1, 0),
    (0, 0, 0, 0, 1),
    (0, 0, -1, 0, 0),
    (0, 0, 0, -1, 0),
    (0, 0, 0, 0, -1),
];

/// Hexagonal close packing: two atoms, each bonded to six atoms of its own
/// kind in its plane and to six of the other kind in the planes next to it.
pub const HCP: [BareRow; 24] = [
    // atom 0 within its plane, forwards
    (0, 0, 1, 0, 0),
    (0, 0, 0, 1, 0),
    (0, 0, 1, 1, 0),
    // atom 0 within its plane, backwards
    (0, 0, -1, 0, 0),
    (0, 0, 0, -1, 0),
    (0, 0, -1, -1, 0),
    // atom 1 within its plane, forwards
    (1, 1, 1, 0, 0),
    (1, 1, 0, 1, 0),
    (1, 1, 1, 1, 0),
    // atom 1 within its plane, backwards
    (1, 1, -1, 0, 0),
    (1, 1, 0, -1, 0),
    (1, 1, -1, -1, 0),
    // atom 0 to atom 1, same layer of cells
    (0, 1, 0, 0, 0),
    (0, 1, -1, 0, 0),
    (0, 1, -1, -1, 0),
    // atom 0 to atom 1, layer of cells below
    (0, 1, 0, 0, -1),
    (0, 1, -1, 0, -1),
    (0, 1, -1, -1, -1),
    // atom 1 to atom 0, same layer of cells
    (1, 0, 0, 0, 0),
    (1, 0, 1, 0, 0),
    (1, 0, 1, 1, 0),
    // atom 1 to atom 0, layer of cells above
    (1, 0, 0, 0, 1),
    (1, 0, 1, 0, 1),
    (1, 0, 1, 1, 1),
];

/// Honeycomb layers stacked along `z`: two atoms, each bonded to atoms of
/// the other kind in its layer and to its own kind in the layers next to
/// it.
pub const HONEYCOMB: [BareRow; 10] = [
    // within a layer
    (0, 1, 0, 0, 0),
    (1, 0, 0, 0, 0),
    (0, 1, 1, 0, 0),
    (1, 0, 0, 1, 0),
    (0, 1, -1, 0, 0),
    (1, 0, 0, -1, 0),
    // between layers
    (0, 0, 0, 0, 1),
    (1, 1, 0, 0, 1),
    (0, 0, 0, 0, -1),
    (1, 1, 0, 0, -1),
];

/// The coupling `1.35`.
pub const J_1_35: u64 = 0x3ff5_9999_9999_999a;

/// The coupling `4.65`.
pub const J_4_65: u64 = 0x4012_9999_9999_999a;

/// The coupling `7.77`.
pub const J_7_77: u64 = 0x401f_147a_e147_ae14;

/// Manganite: 27 atoms, six bonds from each.
pub const MANGANITE: [CoupledRow; 162] = [
    (0, 2, -1, 0, 0, J_4_65),
    (0, 6, 0, -1, 0, J_4_65),
    (0, 18, 0, 0, -1, J_4_65),
    (0, 1, 0, 0, 0, J_1_35),
    (0, 3, 0, 0, 0, J_1_35),
    (0, 9, 0, 0, 0, J_1_35),
    (1, 7, 0, -1, 0, J_1_35),
    (1, 19, 0, 0, -1, J_1_35),
    (1, 0, 0, 0, 0, J_1_35),
    (1, 2, 0, 0, 0, J_7_77),
    (1, 4, 0, 0, 0, J_7_77),
    (1, 10, 0, 0, 0, J_7_77),
    (2, 8, 0, -1, 0, J_7_77),
    (2, 20, 0, 0, -1, J_7_77),
    (2, 1, 0, 0, 0, J_7_77),
    (2, 5, 0, 0, 0, J_4_65),
    (2, 11, 0, 0, 0, J_4_65),
    (2, 0, 1, 0, 0, J_4_65),
    (3, 5, -1, 0, 0, J_1_35),
    (3, 21, 0, 0, -1, J_1_35),
    (3, 0, 0, 0, 0, J_1_35),
    (3, 4, 0, 0, 0, J_7_77),
    (3, 6, 0, 0, 0, J_7_77),
    (3, 12, 0, 0, 0, J_7_77),
    (4, 22, 0, 0, -1, J_7_77),
    (4, 1, 0, 0, 0, J_7_77),
    (4, 3, 0, 0, 0, J_7_77),
    (4, 5, 0, 0, 0, J_4_65),
    (4, 7, 0, 0, 0, J_4_65),
    (4, 13, 0, 0, 0, J_4_65),
    (5, 23, 0, 0, -1, J_4_65),
    (5, 2, 0, 0, 0, J_4_65),
    (5, 4, 0, 0, 0, J_4_65),
    (5, 8, 0, 0, 0, J_1_35),
    (5, 14, 0, 0, 0, J_1_35),
    (5, 3, 1, 0, 0, J_1_35),
    (6, 8, -1, 0, 0, J_7_77),
    (6, 24, 0, 0, -1, J_7_77),
    (6, 3, 0, 0, 0, J_7_77),
    (6, 7, 0, 0, 0, J_4_65),
    (6, 15, 0, 0, 0, J_4_65),
    (6, 0, 0, 1, 0, J_4_65),
    (7, 25, 0, 0, -1, J_4_65),
    (7, 4, 0, 0, 0, J_4_65),
    (7, 6, 0, 0, 0, J_4_65),
    (7, 8, 0, 0, 0, J_1_35),
    (7, 16, 0, 0, 0, J_1_35),
    (7, 1, 0, 1, 0, J_1_35),
    (8, 26, 0, 0, -1, J_1_35),
    (8, 5, 0, 0, 0, J_1_35),
    (8, 7, 0, 0, 0, J_1_35),
    (8, 17, 0, 0, 0, J_7_77),
    (8, 2, 0, 1, 0, J_7_77),
    (8, 6, 1, 0, 0, J_7_77),
    (9, 11, -1, 0, 0, J_1_35),
    (9, 15, 0, -1, 0, J_1_35),
    (9, 0, 0, 0, 0, J_1_35),
    (9, 10, 0, 0, 0, J_7_77),
    (9, 12, 0, 0, 0, J_7_77),
    (9, 18, 0, 0, 0, J_7_77),
    (10, 16, 0, -1, 0, J_7_77),
    (10, 1, 0, 0, 0, J_7_77),
    (10, 9, 0, 0, 0, J_7_77),
    (10, 11, 0, 0, 0, J_4_65),
    (10, 13, 0, 0, 0, J_4_65),
    (10, 19, 0, 0, 0, J_4_65),
    (11, 17, 0, -1, 0, J_4_65),
    (11, 2, 0, 0, 0, J_4_65),
    (11, 10, 0, 0, 0, J_4_65),
    (11, 14, 0, 0, 0, J_1_35),
    (11, 20, 0, 0, 0, J_1_35),
    (11, 9, 1, 0, 0, J_1_35),
    (12, 14, -1, 0, 0, J_7_77),
    (12, 3, 0, 0, 0, J_7_77),
    (12, 9, 0, 0, 0, J_7_77),
    (12, 13, 0, 0, 0, J_4_65),
    (12, 15, 0, 0, 0, J_4_65),
    (12, 21, 0, 0, 0, J_4_65),
    (13, 4, 0, 0, 0, J_4_65),
    (13, 10, 0, 0, 0, J_4_65),
    (13, 12, 0, 0, 0, J_4_65),
    (13, 14, 0, 0, 0, J_1_35),
    (13, 16, 0, 0, 0, J_1_35),
    (13, 22, 0, 0, 0, J_1_35),
    (14, 5, 0, 0, 0, J_1_35),
    (14, 11, 0, 0, 0, J_1_35),
    (14, 13, 0, 0, 0, J_1_35),
    (14, 17, 0, 0, 0, J_7_77),
    (14, 23, 0, 0, 0, J_7_77),
    (14, 12, 1, 0, 0, J_7_77),
    (15, 17, -1, 0, 0, J_4_65),
    (15, 6, 0, 0, 0, J_4_65),
    (15, 12, 0, 0, 0, J_4_65),
    (15, 16, 0, 0, 0, J_1_35),
    (15, 24, 0, 0, 0, J_1_35),
    (15, 9, 0, 1, 0, J_1_35),
    (16, 7, 0, 0, 0, J_1_35),
    (16, 13, 0, 0, 0, J_1_35),
    (16, 15, 0, 0, 0, J_1_35),
    (16, 17, 0, 0, 0, J_7_77),
    (16, 25, 0, 0, 0, J_7_77),
    (16, 10, 0, 1, 0, J_7_77),
    (17, 8, 0, 0, 0, J_7_77),
    (17, 14, 0, 0, 0, J_7_77),
    (17, 16, 0, 0, 0, J_7_77),
    (17, 26, 0, 0, 0, J_4_65),
    (17, 11, 0, 1, 0, J_4_65),
    (17, 15, 1, 0, 0, J_4_65),
    (18, 20, -1, 0, 0, J_7_77),
    (18, 24, 0, -1, 0, J_7_77),
    (18, 9, 0, 0, 0, J_7_77),
    (18, 19, 0, 0, 0, J_4_65),
    (18, 21, 0, 0, 0, J_4_65),
    (18, 0, 0, 0, 1, J_4_65),
    (19, 25, 0, -1, 0, J_4_65),
    (19, 10, 0, 0, 0, J_4_65),
    (19, 18, 0, 0, 0, J_4_65),
    (19, 20, 0, 0, 0, J_1_35),
    (19, 22, 0, 0, 0, J_1_35),
    (19, 1, 0, 0, 1, J_1_35),
    (20, 26, 0, -1, 0, J_1_35),
    (20, 11, 0, 0, 0, J_1_35),
    (20, 19, 0, 0, 0, J_1_35),
    (20, 23, 0, 0, 0, J_7_77),
    (20, 2, 0, 0, 1, J_7_77),
    (20, 18, 1, 0, 0, J_7_77),
    (21, 23, -1, 0, 0, J_4_65),
    (21, 12, 0, 0, 0, J_4_65),
    (21, 18, 0, 0, 0, J_4_65),
    (21, 22, 0, 0, 0, J_1_35),
    (21, 24, 0, 0, 0, J_1_35),
    (21, 3, 0, 0, 1, J_1_35),
    (22, 13, 0, 0, 0, J_1_35),
    (22, 19, 0, 0, 0, J_1_35),
    (22, 21, 0, 0, 0, J_1_35),
    (22, 23, 0, 0, 0, J_7_77),
    (22, 25, 0, 0, 0, J_7_77),
    (22, 4, 0, 0, 1, J_7_77),
    (23, 14, 0, 0, 0, J_7_77),
    (23, 20, 0, 0, 0, J_7_77),
    (23, 22, 0, 0, 0, J_7_77),
    (23, 26, 0, 0, 0, J_4_65),
    (23, 5, 0, 0, 1, J_4_65),
    (23, 21, 1, 0, 0, J_4_65),
    (24, 26, -1, 0, 0, J_1_35),
    (24, 15, 0, 0, 0, J_1_35),
    (24, 21, 0, 0, 0, J_1_35),
    (24, 25, 0, 0, 0, J_7_77),
    (24, 6, 0, 0, 1, J_7_77),
    (24, 18, 0, 1, 0, J_7_77),
    (25, 16, 0, 0, 0, J_7_77),
    (25, 22, 0, 0, 0, J_7_77),
    (25, 24, 0, 0, 0, J_7_77),
    (25, 26, 0, 0, 0, J_4_65),
    (25, 7, 0, 0, 1, J_4_65),
    (25, 19, 0, 1, 0, J_4_65),
    (26, 17, 0, 0, 0, J_4_65),
    (26, 23, 0, 0, 0, J_4_65),
    (26, 25, 0, 0, 0, J_4_65),
    (26, 8, 0, 0, 1, J_1_35),
    (26, 20, 0, 1, 0, J_1_35),
    (26, 24, 1, 0, 0, J_1_35),
];

/// The coupling `0.11`.
pub const J_0_11: u64 = 0x3fbc_28f5_c28f_5c29;

/// The coupling `2.92`.
pub const J_2_92: u64 = 0x4007_5c28_f5c2_8f5c;

/// The coupling `-0.63`.
pub const J_NEG_0_63: u64 = 0xbfe4_28f5_c28f_5c29;

/// Magnetite: 24 atoms, twelve or sixteen bonds from each.
pub const MAGNETITE: [CoupledRow; 320] = [
    (0, 19, -1, -1, -1, J_0_11),
    (0, 4, -1, -1, 0, J_2_92),
    (0, 5, -1, -1, 0, J_2_92),
    (0, 11, -1, -1, 0, J_2_92),
    (0, 17, -1, 0, -1, J_2_92),
    (0, 22, -1, 0, -1, J_2_92),
    (0, 23, -1, 0, -1, J_2_92),
    (0, 7, -1, 0, 0, J_0_11),
    (0, 14, 0, -1, -1, J_2_92),
    (0, 20, 0, -1, -1, J_2_92),
    (0, 21, 0, -1, -1, J_2_92),
    (0, 6, 0, -1, 0, J_0_11),
    (0, 18, 0, 0, -1, J_0_11),
    (0, 2, 0, 0, 0, J_2_92),
    (0, 3, 0, 0, 0, J_2_92),
    (0, 8, 0, 0, 0, J_2_92),
    (1, 15, 0, 0, -1, J_2_92),
    (1, 16, 0, 0, -1, J_2_92),
    (1, 18, 0, 0, -1, J_0_11),
    (1, 19, 0, 0, -1, J_0_11),
    (1, 20, 0, 0, -1, J_2_92),
    (1, 21, 0, 0, -1, J_2_92),
    (1, 22, 0, 0, -1, J_2_92),
    (1, 23, 0, 0, -1, J_2_92),
    (1, 2, 0, 0, 0, J_2_92),
    (1, 3, 0, 0, 0, J_2_92),
    (1, 4, 0, 0, 0, J_2_92),
    (1, 5, 0, 0, 0, J_2_92),
    (1, 6, 0, 0, 0, J_0_11),
    (1, 7, 0, 0, 0, J_0_11),
    (1, 9, 0, 0, 0, J_2_92),
    (1, 10, 0, 0, 0, J_2_92),
    (2, 23, -1, 0, -1, J_NEG_0_63),
    (2, 5, -1, 0, 0, J_NEG_0_63),
    (2, 7, -1, 0, 0, J_2_92),
    (2, 18, 0, 0, -1, J_2_92),
    (2, 20, 0, 0, -1, J_NEG_0_63),
    (2, 0, 0, 0, 0, J_2_92),
    (2, 1, 0, 0, 0, J_2_92),
    (2, 3, 0, 0, 0, J_NEG_0_63),
    (2, 6, 0, 0, 0, J_2_92),
    (2, 8, 0, 0, 0, J_NEG_0_63),
    (2, 9, 0, 0, 0, J_NEG_0_63),
    (2, 12, 0, 0, 0, J_2_92),
    (3, 21, 0, -1, -1, J_NEG_0_63),
    (3, 4, 0, -1, 0, J_NEG_0_63),
    (3, 6, 0, -1, 0, J_2_92),
    (3, 18, 0, 0, -1, J_2_92),
    (3, 22, 0, 0, -1, J_NEG_0_63),
    (3, 0, 0, 0, 0, J_2_92),
    (3, 1, 0, 0, 0, J_2_92),
    (3, 2, 0, 0, 0, J_NEG_0_63),
    (3, 7, 0, 0, 0, J_2_92),
    (3, 8, 0, 0, 0, J_NEG_0_63),
    (3, 9, 0, 0, 0, J_NEG_0_63),
    (3, 13, 0, 0, 0, J_2_92),
    (4, 19, 0, 0, -1, J_2_92),
    (4, 21, 0, 0, -1, J_NEG_0_63),
    (4, 1, 0, 0, 0, J_2_92),
    (4, 5, 0, 0, 0, J_NEG_0_63),
    (4, 6, 0, 0, 0, J_2_92),
    (4, 10, 0, 0, 0, J_NEG_0_63),
    (4, 11, 0, 0, 0, J_NEG_0_63),
    (4, 22, 0, 1, -1, J_NEG_0_63),
    (4, 3, 0, 1, 0, J_NEG_0_63),
    (4, 7, 0, 1, 0, J_2_92),
    (4, 13, 0, 1, 0, J_2_92),
    (4, 0, 1, 1, 0, J_2_92),
    (5, 19, 0, 0, -1, J_2_92),
    (5, 23, 0, 0, -1, J_NEG_0_63),
    (5, 1, 0, 0, 0, J_2_92),
    (5, 4, 0, 0, 0, J_NEG_0_63),
    (5, 7, 0, 0, 0, J_2_92),
    (5, 10, 0, 0, 0, J_NEG_0_63),
    (5, 11, 0, 0, 0, J_NEG_0_63),
    (5, 20, 1, 0, -1, J_NEG_0_63),
    (5, 2, 1, 0, 0, J_NEG_0_63),
    (5, 6, 1, 0, 0, J_2_92),
    (5, 12, 1, 0, 0, J_2_92),
    (5, 0, 1, 1, 0, J_2_92),
    (6, 5, -1, 0, 0, J_2_92),
    (6, 11, -1, 0, 0, J_2_92),
    (6, 20, 0, 0, -1, J_2_92),
    (6, 21, 0, 0, -1, J_2_92),
    (6, 1, 0, 0, 0, J_0_11),
    (6, 2, 0, 0, 0, J_2_92),
    (6, 4, 0, 0, 0, J_2_92),
    (6, 9, 0, 0, 0, J_2_92),
    (6, 10, 0, 0, 0, J_2_92),
    (6, 12, 0, 0, 0, J_0_11),
    (6, 14, 0, 0, 0, J_2_92),
    (6, 15, 0, 0, 0, J_2_92),
    (6, 0, 0, 1, 0, J_0_11),
    (6, 3, 0, 1, 0, J_2_92),
    (6, 8, 0, 1, 0, J_2_92),
    (6, 13, 0, 1, 0, J_0_11),
    (7, 4, 0, -1, 0, J_2_92),
    (7, 11, 0, -1, 0, J_2_92),
    (7, 22, 0, 0, -1, J_2_92),
    (7, 23, 0, 0, -1, J_2_92),
    (7, 1, 0, 0, 0, J_0_11),
    (7, 3, 0, 0, 0, J_2_92),
    (7, 5, 0, 0, 0, J_2_92),
    (7, 9, 0, 0, 0, J_2_92),
    (7, 10, 0, 0, 0, J_2_92),
    (7, 13, 0, 0, 0, J_0_11),
    (7, 16, 0, 0, 0, J_2_92),
    (7, 17, 0, 0, 0, J_2_92),
    (7, 0, 1, 0, 0, J_0_11),
    (7, 2, 1, 0, 0, J_2_92),
    (7, 8, 1, 0, 0, J_2_92),
    (7, 12, 1, 0, 0, J_0_11),
    (8, 11, -1, -1, 0, J_NEG_0_63),
    (8, 7, -1, 0, 0, J_2_92),
    (8, 17, -1, 0, 0, J_NEG_0_63),
    (8, 6, 0, -1, 0, J_2_92),
    (8, 14, 0, -1, 0, J_NEG_0_63),
    (8, 0, 0, 0, 0, J_2_92),
    (8, 2, 0, 0, 0, J_NEG_0_63),
    (8, 3, 0, 0, 0, J_NEG_0_63),
    (8, 9, 0, 0, 0, J_NEG_0_63),
    (8, 12, 0, 0, 0, J_2_92),
    (8, 13, 0, 0, 0, J_2_92),
    (8, 18, 0, 0, 0, J_2_92),
    (9, 1, 0, 0, 0, J_2_92),
    (9, 2, 0, 0, 0, J_NEG_0_63),
    (9, 3, 0, 0, 0, J_NEG_0_63),
    (9, 6, 0, 0, 0, J_2_92),
    (9, 7, 0, 0, 0, J_2_92),
    (9, 8, 0, 0, 0, J_NEG_0_63),
    (9, 10, 0, 0, 0, J_NEG_0_63),
    (9, 12, 0, 0, 0, J_2_92),
    (9, 13, 0, 0, 0, J_2_92),
    (9, 15, 0, 0, 0, J_NEG_0_63),
    (9, 16, 0, 0, 0, J_NEG_0_63),
    (9, 18, 0, 0, 0, J_2_92),
    (10, 1, 0, 0, 0, J_2_92),
    (10, 4, 0, 0, 0, J_NEG_0_63),
    (10, 5, 0, 0, 0, J_NEG_0_63),
    (10, 6, 0, 0, 0, J_2_92),
    (10, 7, 0, 0, 0, J_2_92),
    (10, 9, 0, 0, 0, J_NEG_0_63),
    (10, 11, 0, 0, 0, J_NEG_0_63),
    (10, 15, 0, 0, 0, J_NEG_0_63),
    (10, 16, 0, 0, 0, J_NEG_0_63),
    (10, 19, 0, 0, 0, J_2_92),
    (10, 13, 0, 1, 0, J_2_92),
    (10, 12, 1, 0, 0, J_2_92),
    (11, 4, 0, 0, 0, J_NEG_0_63),
    (11, 5, 0, 0, 0, J_NEG_0_63),
    (11, 10, 0, 0, 0, J_NEG_0_63),
    (11, 19, 0, 0, 0, J_2_92),
    (11, 7, 0, 1, 0, J_2_92),
    (11, 13, 0, 1, 0, J_2_92),
    (11, 17, 0, 1, 0, J_NEG_0_63),
    (11, 6, 1, 0, 0, J_2_92),
    (11, 12, 1, 0, 0, J_2_92),
    (11, 14, 1, 0, 0, J_NEG_0_63),
    (11, 0, 1, 1, 0, J_2_92),
    (11, 8, 1, 1, 0, J_NEG_0_63),
    (12, 5, -1, 0, 0, J_2_92),
    (12, 7, -1, 0, 0, J_0_11),
    (12, 10, -1, 0, 0, J_2_92),
    (12, 11, -1, 0, 0, J_2_92),
    (12, 16, -1, 0, 0, J_2_92),
    (12, 17, -1, 0, 0, J_2_92),
    (12, 19, -1, 0, 0, J_0_11),
    (12, 23, -1, 0, 0, J_2_92),
    (12, 2, 0, 0, 0, J_2_92),
    (12, 6, 0, 0, 0, J_0_11),
    (12, 8, 0, 0, 0, J_2_92),
    (12, 9, 0, 0, 0, J_2_92),
    (12, 14, 0, 0, 0, J_2_92),
    (12, 15, 0, 0, 0, J_2_92),
    (12, 18, 0, 0, 0, J_0_11),
    (12, 20, 0, 0, 0, J_2_92),
    (13, 4, 0, -1, 0, J_2_92),
    (13, 6, 0, -1, 0, J_0_11),
    (13, 10, 0, -1, 0, J_2_92),
    (13, 11, 0, -1, 0, J_2_92),
    (13, 14, 0, -1, 0, J_2_92),
    (13, 15, 0, -1, 0, J_2_92),
    (13, 19, 0, -1, 0, J_0_11),
    (13, 21, 0, -1, 0, J_2_92),
    (13, 3, 0, 0, 0, J_2_92),
    (13, 7, 0, 0, 0, J_0_11),
    (13, 8, 0, 0, 0, J_2_92),
    (13, 9, 0, 0, 0, J_2_92),
    (13, 16, 0, 0, 0, J_2_92),
    (13, 17, 0, 0, 0, J_2_92),
    (13, 18, 0, 0, 0, J_0_11),
    (13, 22, 0, 0, 0, J_2_92),
    (14, 11, -1, 0, 0, J_NEG_0_63),
    (14, 19, -1, 0, 0, J_2_92),
    (14, 17, -1, 1, 0, J_NEG_0_63),
    (14, 6, 0, 0, 0, J_2_92),
    (14, 12, 0, 0, 0, J_2_92),
    (14, 15, 0, 0, 0, J_NEG_0_63),
    (14, 20, 0, 0, 0, J_NEG_0_63),
    (14, 21, 0, 0, 0, J_NEG_0_63),
    (14, 8, 0, 1, 0, J_NEG_0_63),
    (14, 13, 0, 1, 0, J_2_92),
    (14, 18, 0, 1, 0, J_2_92),
    (14, 0, 0, 1, 1, J_2_92),
    (15, 6, 0, 0, 0, J_2_92),
    (15, 9, 0, 0, 0, J_NEG_0_63),
    (15, 10, 0, 0, 0, J_NEG_0_63),
    (15, 12, 0, 0, 0, J_2_92),
    (15, 14, 0, 0, 0, J_NEG_0_63),
    (15, 16, 0, 0, 0, J_NEG_0_63),
    (15, 18, 0, 0, 0, J_2_92),
    (15, 19, 0, 0, 0, J_2_92),
    (15, 20, 0, 0, 0, J_NEG_0_63),
    (15, 21, 0, 0, 0, J_NEG_0_63),
    (15, 1, 0, 0, 1, J_2_92),
    (15, 13, 0, 1, 0, J_2_92),
    (16, 7, 0, 0, 0, J_2_92),
    (16, 9, 0, 0, 0, J_NEG_0_63),
    (16, 10, 0, 0, 0, J_NEG_0_63),
    (16, 13, 0, 0, 0, J_2_92),
    (16, 15, 0, 0, 0, J_NEG_0_63),
    (16, 17, 0, 0, 0, J_NEG_0_63),
    (16, 18, 0, 0, 0, J_2_92),
    (16, 19, 0, 0, 0, J_2_92),
    (16, 22, 0, 0, 0, J_NEG_0_63),
    (16, 23, 0, 0, 0, J_NEG_0_63),
    (16, 1, 0, 0, 1, J_2_92),
    (16, 12, 1, 0, 0, J_2_92),
    (17, 11, 0, -1, 0, J_NEG_0_63),
    (17, 19, 0, -1, 0, J_2_92),
    (17, 7, 0, 0, 0, J_2_92),
    (17, 13, 0, 0, 0, J_2_92),
    (17, 16, 0, 0, 0, J_NEG_0_63),
    (17, 22, 0, 0, 0, J_NEG_0_63),
    (17, 23, 0, 0, 0, J_NEG_0_63),
    (17, 14, 1, -1, 0, J_NEG_0_63),
    (17, 8, 1, 0, 0, J_NEG_0_63),
    (17, 12, 1, 0, 0, J_2_92),
    (17, 18, 1, 0, 0, J_2_92),
    (17, 0, 1, 0, 1, J_2_92),
    (18, 17, -1, 0, 0, J_2_92),
    (18, 23, -1, 0, 0, J_2_92),
    (18, 14, 0, -1, 0, J_2_92),
    (18, 21, 0, -1, 0, J_2_92),
    (18, 8, 0, 0, 0, J_2_92),
    (18, 9, 0, 0, 0, J_2_92),
    (18, 12, 0, 0, 0, J_0_11),
    (18, 13, 0, 0, 0, J_0_11),
    (18, 15, 0, 0, 0, J_2_92),
    (18, 16, 0, 0, 0, J_2_92),
    (18, 20, 0, 0, 0, J_2_92),
    (18, 22, 0, 0, 0, J_2_92),
    (18, 0, 0, 0, 1, J_0_11),
    (18, 1, 0, 0, 1, J_0_11),
    (18, 2, 0, 0, 1, J_2_92),
    (18, 3, 0, 0, 1, J_2_92),
    (19, 10, 0, 0, 0, J_2_92),
    (19, 11, 0, 0, 0, J_2_92),
    (19, 15, 0, 0, 0, J_2_92),
    (19, 16, 0, 0, 0, J_2_92),
    (19, 21, 0, 0, 0, J_2_92),
    (19, 23, 0, 0, 0, J_2_92),
    (19, 1, 0, 0, 1, J_0_11),
    (19, 4, 0, 0, 1, J_2_92),
    (19, 5, 0, 0, 1, J_2_92),
    (19, 13, 0, 1, 0, J_0_11),
    (19, 17, 0, 1, 0, J_2_92),
    (19, 22, 0, 1, 0, J_2_92),
    (19, 12, 1, 0, 0, J_0_11),
    (19, 14, 1, 0, 0, J_2_92),
    (19, 20, 1, 0, 0, J_2_92),
    (19, 0, 1, 1, 1, J_0_11),
    (20, 19, -1, 0, 0, J_2_92),
    (20, 23, -1, 0, 0, J_NEG_0_63),
    (20, 5, -1, 0, 1, J_NEG_0_63),
    (20, 12, 0, 0, 0, J_2_92),
    (20, 14, 0, 0, 0, J_NEG_0_63),
    (20, 15, 0, 0, 0, J_NEG_0_63),
    (20, 18, 0, 0, 0, J_2_92),
    (20, 21, 0, 0, 0, J_NEG_0_63),
    (20, 1, 0, 0, 1, J_2_92),
    (20, 2, 0, 0, 1, J_NEG_0_63),
    (20, 6, 0, 0, 1, J_2_92),
    (20, 0, 0, 1, 1, J_2_92),
    (21, 14, 0, 0, 0, J_NEG_0_63),
    (21, 15, 0, 0, 0, J_NEG_0_63),
    (21, 19, 0, 0, 0, J_2_92),
    (21, 20, 0, 0, 0, J_NEG_0_63),
    (21, 1, 0, 0, 1, J_2_92),
    (21, 4, 0, 0, 1, J_NEG_0_63),
    (21, 6, 0, 0, 1, J_2_92),
    (21, 13, 0, 1, 0, J_2_92),
    (21, 18, 0, 1, 0, J_2_92),
    (21, 22, 0, 1, 0, J_NEG_0_63),
    (21, 0, 0, 1, 1, J_2_92),
    (21, 3, 0, 1, 1, J_NEG_0_63),
    (22, 19, 0, -1, 0, J_2_92),
    (22, 21, 0, -1, 0, J_NEG_0_63),
    (22, 4, 0, -1, 1, J_NEG_0_63),
    (22, 13, 0, 0, 0, J_2_92),
    (22, 16, 0, 0, 0, J_NEG_0_63),
    (22, 17, 0, 0, 0, J_NEG_0_63),
    (22, 18, 0, 0, 0, J_2_92),
    (22, 23, 0, 0, 0, J_NEG_0_63),
    (22, 1, 0, 0, 1, J_2_92),
    (22, 3, 0, 0, 1, J_NEG_0_63),
    (22, 7, 0, 0, 1, J_2_92),
    (22, 0, 1, 0, 1, J_2_92),
    (23, 16, 0, 0, 0, J_NEG_0_63),
    (23, 17, 0, 0, 0, J_NEG_0_63),
    (23, 19, 0, 0, 0, J_2_92),
    (23, 22, 0, 0, 0, J_NEG_0_63),
    (23, 1, 0, 0, 1, J_2_92),
    (23, 5, 0, 0, 1, J_NEG_0_63),
    (23, 7, 0, 0, 1, J_2_92),
    (23, 12, 1, 0, 0, J_2_92),
    (23, 18, 1, 0, 0, J_2_92),
    (23, 20, 1, 0, 0, J_NEG_0_63),
    (23, 0, 1, 0, 1, J_2_92),
    (23, 2, 1, 0, 1, J_NEG_0_63),
];

/// The templates of a table without couplings.
fn from_bare_rows(rows: &[BareRow]) -> (list: Vec<Vertex>)
    ensures
        list@ == bare_list(rows@),
{
    let mut list: Vec<Vertex> = Vec::new();
    let mut i: usize = 0;
    while i < rows.len()
        invariant
            i <= rows.len(),
            list@ == bare_list(rows@.take(i as int)),
        decreases rows.len() - i,
    {
        let row: BareRow = rows[i];
        list.push(Vertex { src: row.0, tgt: row.1, delta: (row.2, row.3, row.4), exch: None });
        proof {
            assert(bare_list(rows@.take(i + 1)) =~= bare_list(rows@.take(i as int)).push(
                bare(rows@[i as int]),
            ));
        }
        i += 1;
    }
    proof {
        assert(rows@.take(rows@.len() as int) == rows@);
    }
    list
}

/// The templates of a table with couplings.
fn from_coupled_rows(rows: &[CoupledRow]) -> (list: Vec<Vertex>)
    ensures
        list@ == coupled_list(rows@),
{
    let mut list: Vec<Vertex> = Vec::new();
    let mut i: usize = 0;
    while i < rows.len()
        invariant
            i <= rows.len(),
            list@ == coupled_list(rows@.take(i as int)),
        decreases rows.len() - i,
    {
        let row: CoupledRow = rows[i];
        list.push(
            Vertex { src: row.0, tgt: row.1, delta: (row.2, row.3, row.4), exch: Some(row.5) },
        );
        proof {
            assert(coupled_list(rows@.take(i + 1)) =~= coupled_list(rows@.take(i as int)).push(
                coupled(rows@[i as int]),
            ));
        }
        i += 1;
    }
    proof {
        assert(rows@.take(rows@.len() as int) == rows@);
    }
    list
}

impl Vertex {
    /// The bond templates of a simple cubic lattice of one atom.
    pub fn list_for_cubic() -> (list: Vec<Vertex>)
        ensures
            list@ == bare_list(CUBIC@),
            list@.len() == 6,
            all_within(list@, 1),
    {
        from_bare_rows(&CUBIC)
    }

    /// The bond templates of a hexagonal close-packed lattice of two atoms.
    pub fn list_for_hcp() -> (list: Vec<Vertex>)
        ensures
            list@ == bare_list(HCP@),
            list@.len() == 24,
            all_within(list@, 2),
    {
        from_bare_rows(&HCP)
    }

    /// The bond templates of stacked honeycomb layers of two atoms.
    pub fn list_for_honeycomb() -> (list: Vec<Vertex>)
        ensures
            list@ == bare_list(HONEYCOMB@),
            list@.len() == 10,
            all_within(list@, 2),
    {
        from_bare_rows(&HONEYCOMB)
    }

    /// The bond templates of manganite, 27 atoms to the unit cell, with
    /// their couplings.
    pub fn list_for_manganite() -> (list: Vec<Vertex>)
        ensures
            list@ == coupled_list(MANGANITE@),
            list@.len() == 162,
            all_within(list@, 27),
    {
        from_coupled_rows(&MANGANITE)
    }

    /// The bond templates of magnetite, 24 atoms to the unit cell, with
    /// their couplings.
    pub fn list_for_magnetite() -> (list: Vec<Vertex>)
        ensures
            list@ == coupled_list(MAGNETITE@),
            list@.len() == 320,
            all_within(list@, 24),
    {
        from_coupled_rows(&MAGNETITE)
    }
}

} // verus!
