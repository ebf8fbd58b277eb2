use vegas::lattice::{Adjacency, Lattice, LatticeBuilder, Site, Vertex};

fn cubic(pbc: (bool, bool, bool), shape: (u32, u32, u32)) -> Lattice {
    LatticeBuilder::new()
        .pbc(pbc)
        .shape(shape)
        .vertices(Vertex::list_for_cubic())
        .finalize()
}

#[test]
fn adjacency_of_a_periodic_cubic_lattice() {
    let latt = cubic((true, true, true), (3, 3, 3));
    let adj = Adjacency::new(&latt);
    assert_eq!(adj.lims().len(), 28);
    assert_eq!(adj.nbhs().len(), 27 * 6);
    assert_eq!(adj.exch().len(), 27 * 6);
    for i in 0..27 {
        assert_eq!(adj.lims()[i], 6 * i);
        assert_eq!(adj.nbhs_of(i).unwrap().len(), 6);
    }
    // site 0 is the cell (0, 0, 0): +x, +y, +z, -x, -y, -z
    assert_eq!(adj.nbhs_of(0).unwrap(), &[1, 3, 9, 2, 6, 18]);
    // site 13 is the cell (1, 1, 1)
    assert_eq!(adj.nbhs_of(13).unwrap(), &[14, 16, 22, 12, 10, 4]);
    // site 26 is the cell (2, 2, 2)
    assert_eq!(adj.nbhs_of(26).unwrap(), &[24, 20, 8, 25, 23, 17]);
}

#[test]
fn adjacency_of_an_open_chain() {
    let latt = cubic((false, false, false), (4, 1, 1));
    let adj = Adjacency::new(&latt);
    assert_eq!(adj.lims(), &[0, 1, 3, 5, 6]);
    assert_eq!(adj.nbhs(), &[1, 2, 0, 3, 1, 2]);
    assert_eq!(adj.nbhs_of(0).unwrap(), &[1]);
    assert_eq!(adj.nbhs_of(1).unwrap(), &[2, 0]);
    assert_eq!(adj.nbhs_of(2).unwrap(), &[3, 1]);
    assert_eq!(adj.nbhs_of(3).unwrap(), &[2]);
}

#[test]
fn adjacency_lookups_past_the_last_site_are_absent() {
    let latt = cubic((true, true, true), (2, 2, 2));
    let adj = Adjacency::new(&latt);
    assert!(adj.nbhs_of(7).is_some());
    assert!(adj.exch_of(7).is_some());
    assert!(adj.nbhs_of(8).is_none());
    assert!(adj.exch_of(8).is_none());
    assert!(adj.nbhs_of(usize::MAX).is_none());
    assert!(adj.exch_of(usize::MAX).is_none());
}

#[test]
fn adjacency_of_a_lattice_without_sites() {
    let latt = cubic((true, true, true), (0, 3, 3));
    let adj = Adjacency::new(&latt);
    assert_eq!(adj.lims(), &[0]);
    assert!(adj.nbhs().is_empty());
    assert!(adj.exch().is_empty());
    assert!(adj.nbhs_of(0).is_none());
}

#[test]
fn adjacency_counts_a_missing_coupling_as_zero() {
    let latt = cubic((true, true, true), (2, 2, 2));
    let adj = Adjacency::new(&latt);
    assert!(adj.exch().iter().all(|&bits| bits == 0));
    assert_eq!(f64::from_bits(adj.exch()[0]), 0.0);
}

#[test]
fn adjacency_keeps_couplings_beside_their_bonds() {
    let j = 1.5f64.to_bits();
    let k = (-0.25f64).to_bits();
    let latt = LatticeBuilder::new()
        .pbc((true, false, false))
        .shape((3, 1, 1))
        .natoms(2)
        .vertices(vec![
            Vertex { src: 0, tgt: 1, delta: (0, 0, 0), exch: Some(j) },
            Vertex { src: 1, tgt: 0, delta: (0, 0, 0), exch: Some(j) },
            Vertex { src: 1, tgt: 0, delta: (1, 0, 0), exch: Some(k) },
            Vertex { src: 0, tgt: 1, delta: (-1, 0, 0), exch: Some(k) },
            Vertex { src: 0, tgt: 0, delta: (0, 1, 0), exch: None },
        ])
        .finalize();
    let adj = Adjacency::new(&latt);
    assert_eq!(adj.lims(), &[0, 2, 4, 6, 8, 10, 12]);
    assert_eq!(adj.nbhs_of(0).unwrap(), &[1, 5]);
    assert_eq!(adj.exch_of(0).unwrap(), &[j, k]);
    assert_eq!(adj.nbhs_of(1).unwrap(), &[0, 2]);
    assert_eq!(adj.exch_of(1).unwrap(), &[j, k]);
    assert_eq!(adj.nbhs_of(5).unwrap(), &[4, 0]);
    assert_eq!(adj.exch_of(5).unwrap(), &[j, k]);
    let values: Vec<f64> = adj.exch_of(2).unwrap().iter().map(|&b| f64::from_bits(b)).collect();
    assert_eq!(values, vec![1.5, -0.25]);
}

#[test]
fn adjacency_agrees_with_tgts_and_index() {
    let latt = LatticeBuilder::new()
        .pbc((true, false, true))
        .shape((3, 2, 2))
        .natoms(2)
        .vertices(Vertex::list_for_hcp())
        .finalize();
    let adj = Adjacency::new(&latt);
    let mut it = latt.sites();
    let mut i = 0;
    while let Some(site) = it.next() {
        let expected: Vec<usize> = latt
            .tgts(&site)
            .unwrap()
            .iter()
            .map(|t| latt.index(&t.0).unwrap())
            .collect();
        assert_eq!(adj.nbhs_of(i).unwrap(), expected.as_slice());
        assert_eq!(adj.exch_of(i).unwrap().len(), expected.len());
        i += 1;
    }
    assert_eq!(i, latt.nsites());
    assert_eq!(adj.lims().len(), i + 1);
    assert!(adj.nbhs().iter().all(|&n| n < i));
}

#[test]
fn adjacency_of_magnetite() {
    let latt = LatticeBuilder::new()
        .pbc((true, true, true))
        .shape((2, 2, 2))
        .natoms(24)
        .vertices(Vertex::list_for_magnetite())
        .finalize();
    assert!(latt.is_wf());
    let adj = Adjacency::new(&latt);
    assert_eq!(adj.lims().len(), 8 * 24 + 1);
    assert_eq!(adj.nbhs().len(), 8 * 320);
}

#[test]
fn manganite_bonds_come_in_opposite_pairs() {
    let latt = LatticeBuilder::new()
        .pbc((true, true, true))
        .shape((3, 3, 3))
        .natoms(27)
        .vertices(Vertex::list_for_manganite())
        .finalize();
    let adj = Adjacency::new(&latt);
    for i in 0..latt.nsites() {
        let nbhs = adj.nbhs_of(i).unwrap();
        let exch = adj.exch_of(i).unwrap();
        for (n, e) in nbhs.iter().zip(exch) {
            let back = adj.nbhs_of(*n).unwrap();
            let back_exch = adj.exch_of(*n).unwrap();
            assert!(back.iter().zip(back_exch).any(|(m, f)| *m == i && f == e));
        }
    }
    let _ = Site { cell: (0, 0, 0), atom: 0 };
}
