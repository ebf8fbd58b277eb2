use vegas::lattice::{Adjacency, Lattice, LatticeBuilder, Site, Vertex};
use vegas::util::super_mod;

fn cubic(pbc: (bool, bool, bool), shape: (u32, u32, u32)) -> Lattice {
    LatticeBuilder::new()
        .pbc(pbc)
        .shape(shape)
        .vertices(Vertex::list_for_cubic())
        .finalize()
}

fn all_sites(latt: &Lattice) -> Vec<Site> {
    let mut out = Vec::new();
    let mut it = latt.sites();
    while let Some(site) = it.next() {
        out.push(site);
    }
    out
}

#[test]
fn testing_the_inside() {
    let latt = LatticeBuilder::new()
        .pbc((true, true, false))
        .vertices(Vertex::list_for_cubic())
        .finalize();
    assert!(latt.inside(&Site { cell: (10, 10, 9), atom: 0 }).is_some());
    assert!(latt.inside(&Site { cell: (10, -1, 9), atom: 0 }).is_some());
    assert!(latt.inside(&Site { cell: (10, 10, 10), atom: 0 }).is_none());
    assert!(latt.inside(&Site { cell: (10, 10, 9), atom: 2 }).is_none());
}

#[test]
fn test_big_magnetite() {
    let latt = LatticeBuilder::new()
        .pbc((true, true, true))
        .shape((4, 4, 4))
        .natoms(27)
        .vertices(Vertex::list_for_manganite())
        .finalize();
    let adj = Adjacency::new(&latt);
    assert_eq!(1729, adj.lims().len());
    assert_eq!(10368, adj.nbhs().len());
}

#[test]
fn super_mod_rounds_towards_negative_infinity() {
    assert_eq!(super_mod(-1, 10), 9);
    assert_eq!(super_mod(-10, 10), 0);
    assert_eq!(super_mod(-11, 10), 9);
    assert_eq!(super_mod(0, 10), 0);
    assert_eq!(super_mod(7, 10), 7);
    assert_eq!(super_mod(10, 10), 0);
    assert_eq!(super_mod(23, 10), 3);
    assert_eq!(super_mod(i64::MIN, 10), 2);
    assert_eq!(super_mod(i64::MAX, i64::MAX), 0);
    assert_eq!(super_mod(-1, i64::MAX), i64::MAX - 1);
}

#[test]
fn inside_wraps_periodic_axes_into_the_first_image() {
    let latt = cubic((true, true, false), (10, 10, 10));
    assert_eq!(
        latt.inside(&Site { cell: (10, 10, 9), atom: 0 }),
        Some(Site { cell: (0, 0, 9), atom: 0 })
    );
    assert_eq!(
        latt.inside(&Site { cell: (10, -1, 9), atom: 0 }),
        Some(Site { cell: (0, 9, 9), atom: 0 })
    );
    assert_eq!(
        latt.inside(&Site { cell: (-21, 35, 0), atom: 0 }),
        Some(Site { cell: (9, 5, 0), atom: 0 })
    );
    assert_eq!(
        latt.inside(&Site { cell: (3, 4, 5), atom: 0 }),
        Some(Site { cell: (3, 4, 5), atom: 0 })
    );
    assert_eq!(latt.inside(&Site { cell: (3, 4, -1), atom: 0 }), None);
    assert_eq!(latt.inside(&Site { cell: (3, 4, 10), atom: 0 }), None);
    assert_eq!(latt.inside(&Site { cell: (3, 4, 5), atom: 1 }), None);
}

#[test]
fn inside_rejects_an_atom_out_of_range_on_a_periodic_lattice() {
    let latt = cubic((true, true, true), (10, 10, 10));
    assert_eq!(latt.inside(&Site { cell: (0, 0, 0), atom: 1 }), None);
    assert_eq!(latt.inside(&Site { cell: (0, 0, 0), atom: u32::MAX }), None);
}

#[test]
fn inside_handles_the_ends_of_the_coordinate_range() {
    let latt = cubic((true, true, true), (10, 7, 3));
    assert_eq!(
        latt.inside(&Site { cell: (i64::MIN, i64::MAX, i64::MIN), atom: 0 }),
        Some(Site { cell: (2, 0, 1), atom: 0 })
    );
}

#[test]
fn inside_finds_nothing_in_a_lattice_without_cells() {
    let periodic = cubic((true, true, true), (0, 4, 4));
    assert_eq!(periodic.inside(&Site { cell: (0, 0, 0), atom: 0 }), None);
    let open = cubic((false, false, false), (4, 0, 4));
    assert_eq!(open.inside(&Site { cell: (0, 0, 0), atom: 0 }), None);
    assert_eq!(periodic.nsites(), 0);
    assert!(all_sites(&periodic).is_empty());
    assert!(all_sites(&open).is_empty());
}

#[test]
fn index_flattens_atom_then_x_then_y_then_z() {
    let latt = LatticeBuilder::new()
        .pbc((false, false, false))
        .shape((3, 4, 5))
        .natoms(2)
        .finalize();
    assert_eq!(latt.index(&Site { cell: (0, 0, 0), atom: 0 }), Some(0));
    assert_eq!(latt.index(&Site { cell: (0, 0, 0), atom: 1 }), Some(1));
    assert_eq!(latt.index(&Site { cell: (1, 0, 0), atom: 0 }), Some(2));
    assert_eq!(latt.index(&Site { cell: (0, 1, 0), atom: 0 }), Some(6));
    assert_eq!(latt.index(&Site { cell: (0, 0, 1), atom: 0 }), Some(24));
    // 2 * (3 * (4 * 4 + 3) + 2) + 1
    assert_eq!(latt.index(&Site { cell: (2, 3, 4), atom: 1 }), Some(119));
    assert_eq!(latt.index(&Site { cell: (3, 0, 0), atom: 0 }), None);
    assert_eq!(latt.index(&Site { cell: (0, 0, 0), atom: 2 }), None);
    assert_eq!(latt.nsites(), 120);
}

#[test]
fn index_of_a_wrapped_site_is_that_of_its_image() {
    let latt = LatticeBuilder::new()
        .pbc((true, true, true))
        .shape((3, 4, 5))
        .natoms(2)
        .finalize();
    assert_eq!(
        latt.index(&Site { cell: (-1, 4, 9), atom: 1 }),
        latt.index(&Site { cell: (2, 0, 4), atom: 1 })
    );
    assert_eq!(latt.index(&Site { cell: (-1, 4, 9), atom: 1 }), Some(101));
}

#[test]
fn index_is_a_bijection_onto_the_site_numbers() {
    let latt = LatticeBuilder::new()
        .pbc((true, false, true))
        .shape((3, 2, 4))
        .natoms(3)
        .finalize();
    let n = latt.nsites();
    assert_eq!(n, 72);
    let mut seen = vec![false; n];
    for x in 0..3 {
        for y in 0..2 {
            for z in 0..4 {
                for atom in 0..3 {
                    let k = latt.index(&Site { cell: (x, y, z), atom }).unwrap();
                    assert!(k < n);
                    assert!(!seen[k]);
                    seen[k] = true;
                }
            }
        }
    }
    assert!(seen.iter().all(|&s| s));
}

#[test]
fn sites_come_in_the_order_of_their_numbers() {
    let latt = LatticeBuilder::new()
        .pbc((true, true, true))
        .shape((2, 3, 2))
        .natoms(2)
        .finalize();
    let sites = all_sites(&latt);
    assert_eq!(sites.len(), latt.nsites());
    assert_eq!(sites[0], Site { cell: (0, 0, 0), atom: 0 });
    assert_eq!(sites[1], Site { cell: (0, 0, 0), atom: 1 });
    assert_eq!(sites[2], Site { cell: (1, 0, 0), atom: 0 });
    assert_eq!(sites[4], Site { cell: (0, 1, 0), atom: 0 });
    assert_eq!(sites[12], Site { cell: (0, 0, 1), atom: 0 });
    assert_eq!(sites[23], Site { cell: (1, 2, 1), atom: 1 });
    for (k, site) in sites.iter().enumerate() {
        assert_eq!(latt.index(site), Some(k));
        assert_eq!(site.atom(), (k % 2) as u32);
    }
}

#[test]
fn sites_can_be_walked_again_from_the_start() {
    let latt = cubic((true, true, true), (3, 3, 3));
    let first = all_sites(&latt);
    let second = all_sites(&latt);
    assert_eq!(first.len(), 27);
    assert_eq!(first, second);
}

#[test]
fn site_iterator_stays_exhausted() {
    let latt = LatticeBuilder::new().shape((1, 1, 2)).natoms(3).finalize();
    let mut it = latt.sites();
    for _ in 0..6 {
        assert!(it.next().is_some());
    }
    for _ in 0..10 {
        assert!(it.next().is_none());
    }
}

#[test]
fn site_iterator_of_a_lattice_without_atoms_is_empty() {
    let latt = LatticeBuilder::new().natoms(0).finalize();
    assert!(latt.sites().next().is_none());
    assert_eq!(latt.nsites(), 0);
}

#[test]
fn builder_defaults() {
    let latt = LatticeBuilder::new().finalize();
    assert_eq!(latt.shape(), (10, 10, 10));
    assert_eq!(latt.natoms(), 1);
    assert_eq!(latt.nsites(), 1000);
    // periodic along every axis
    assert_eq!(
        latt.inside(&Site { cell: (-1, -1, -1), atom: 0 }),
        Some(Site { cell: (9, 9, 9), atom: 0 })
    );
    // no bond templates
    assert_eq!(latt.tgts(&Site { cell: (0, 0, 0), atom: 0 }), Some(vec![]));
}

#[test]
fn tgts_follow_the_order_of_the_templates() {
    let latt = cubic((true, true, true), (4, 4, 4));
    let tgts = latt.tgts(&Site { cell: (0, 0, 0), atom: 0 }).unwrap();
    let cells: Vec<(i64, i64, i64)> = tgts.iter().map(|t| t.0.cell).collect();
    assert_eq!(
        cells,
        vec![(1, 0, 0), (0, 1, 0), (0, 0, 1), (3, 0, 0), (0, 3, 0), (0, 0, 3)]
    );
    assert!(tgts.iter().all(|t| t.0.atom == 0 && t.1.is_none()));
}

#[test]
fn tgts_drop_bonds_across_an_open_boundary() {
    let latt = cubic((false, false, false), (4, 4, 4));
    let corner = latt.tgts(&Site { cell: (0, 0, 0), atom: 0 }).unwrap();
    let cells: Vec<(i64, i64, i64)> = corner.iter().map(|t| t.0.cell).collect();
    assert_eq!(cells, vec![(1, 0, 0), (0, 1, 0), (0, 0, 1)]);
    let far = latt.tgts(&Site { cell: (3, 3, 3), atom: 0 }).unwrap();
    let cells: Vec<(i64, i64, i64)> = far.iter().map(|t| t.0.cell).collect();
    assert_eq!(cells, vec![(2, 3, 3), (3, 2, 3), (3, 3, 2)]);
    let middle = latt.tgts(&Site { cell: (1, 2, 1), atom: 0 }).unwrap();
    assert_eq!(middle.len(), 6);
}

#[test]
fn tgts_of_a_site_outside_the_lattice_are_absent() {
    let latt = cubic((false, false, false), (4, 4, 4));
    assert!(latt.tgts(&Site { cell: (4, 0, 0), atom: 0 }).is_none());
    assert!(latt.tgts(&Site { cell: (0, 0, 0), atom: 1 }).is_none());
}

#[test]
fn tgts_start_from_the_image_of_the_site() {
    let latt = cubic((true, true, true), (4, 4, 4));
    let a = latt.tgts(&Site { cell: (4, -4, 8), atom: 0 }).unwrap();
    let b = latt.tgts(&Site { cell: (0, 0, 0), atom: 0 }).unwrap();
    assert_eq!(a, b);
}

#[test]
fn tgts_skip_templates_of_another_source_atom() {
    let latt = LatticeBuilder::new()
        .shape((3, 3, 3))
        .natoms(2)
        .vertices(vec![
            Vertex { src: 0, tgt: 1, delta: (0, 0, 0), exch: Some(7) },
            Vertex { src: 1, tgt: 0, delta: (1, 0, 0), exch: None },
            Vertex { src: 0, tgt: 0, delta: (0, 0, -1), exch: Some(9) },
            Vertex { src: 0, tgt: 2, delta: (0, 0, 0), exch: Some(11) },
        ])
        .finalize();
    assert_eq!(
        latt.tgts(&Site { cell: (2, 1, 0), atom: 0 }),
        Some(vec![
            (Site { cell: (2, 1, 0), atom: 1 }, Some(7)),
            (Site { cell: (2, 1, 2), atom: 0 }, Some(9)),
        ])
    );
    assert_eq!(
        latt.tgts(&Site { cell: (2, 1, 0), atom: 1 }),
        Some(vec![(Site { cell: (0, 1, 0), atom: 0 }, None)])
    );
}

#[test]
fn map_for_sites_visits_every_site_in_order() {
    let latt = LatticeBuilder::new().shape((2, 2, 1)).natoms(3).finalize();
    let atoms = latt.map_for_sites(|site: &Site| site.atom());
    assert_eq!(atoms, vec![0, 1, 2, 0, 1, 2, 0, 1, 2, 0, 1, 2]);
    let xs = latt.map_for_sites(|site: &Site| site.cell.0);
    assert_eq!(xs, vec![0, 0, 0, 1, 1, 1, 0, 0, 0, 1, 1, 1]);
}

#[test]
fn is_wf_accepts_the_usual_lattices() {
    assert!(cubic((true, true, true), (10, 10, 10)).is_wf());
    assert!(cubic((false, true, false), (1, 1, 1)).is_wf());
    assert!(cubic((true, true, true), (0, 0, 0)).is_wf());
}

#[test]
fn is_wf_rejects_more_sites_than_can_be_counted() {
    let latt = LatticeBuilder::new()
        .shape((u32::MAX, u32::MAX, u32::MAX))
        .natoms(u32::MAX)
        .finalize();
    assert!(!latt.is_wf());
}

#[test]
fn is_wf_rejects_a_bond_that_leaves_the_coordinate_range() {
    let far = LatticeBuilder::new()
        .shape((2, 2, 2))
        .vertices(vec![Vertex { src: 0, tgt: 0, delta: (i64::MAX, 0, 0), exch: None }])
        .finalize();
    assert!(!far.is_wf());
    let just = LatticeBuilder::new()
        .shape((2, 2, 2))
        .vertices(vec![Vertex { src: 0, tgt: 0, delta: (i64::MAX - 1, i64::MIN, 0), exch: None }])
        .finalize();
    assert!(just.is_wf());
    // (1 + (2^63 - 2)) mod 2 = 1 and (0 - 2^63) mod 2 = 0
    assert_eq!(
        just.tgts(&Site { cell: (1, 0, 0), atom: 0 }),
        Some(vec![(Site { cell: (1, 0, 0), atom: 0 }, None)])
    );
}
