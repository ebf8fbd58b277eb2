//! Lattices for simulations of classical spin systems.
//!
//! A [`lattice::Lattice`] is a grid of unit cells, periodic or open along
//! each axis, with a number of atoms in every cell and a list of bond
//! templates. The crate numbers the sites of a lattice, finds the bonds of
//! each site, and lays them out in a flat neighbour table,
//! [`lattice::Adjacency`], for energy evaluation to read.
//!
//! Every function is verified against a mathematical model of the lattice:
//! [`lattice::LatticeView`] and [`lattice::Grid`]. The modules `indexing`
//! and `counting` hold what is proved of the model itself: that the
//! numbering of sites is a bijection, and how many bonds a lattice without
//! boundaries has.
//!
//! Couplings are carried as the bit patterns of double-precision values;
//! the crate never computes with them.

pub mod adjacency;
pub mod counting;
pub mod indexing;
pub mod lattice;
pub mod sites;
pub mod tables;
pub mod util;
