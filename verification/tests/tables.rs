use vegas::lattice::Vertex;
use vegas::tables::{
    CUBIC, HCP, HONEYCOMB, J_0_11, J_1_35, J_2_92, J_4_65, J_7_77, J_NEG_0_63, MAGNETITE,
    MANGANITE,
};

fn assert_within(list: &[Vertex], natoms: u32) {
    for v in list {
        assert!(v.src < natoms);
        assert!(v.tgt < natoms);
        assert!(-1 <= v.delta.0 && v.delta.0 <= 1);
        assert!(-1 <= v.delta.1 && v.delta.1 <= 1);
        assert!(-1 <= v.delta.2 && v.delta.2 <= 1);
    }
}

#[test]
fn couplings_are_the_bits_of_their_values() {
    assert_eq!(f64::from_bits(J_1_35), 1.35);
    assert_eq!(f64::from_bits(J_4_65), 4.65);
    assert_eq!(f64::from_bits(J_7_77), 7.77);
    assert_eq!(f64::from_bits(J_0_11), 0.11);
    assert_eq!(f64::from_bits(J_2_92), 2.92);
    assert_eq!(f64::from_bits(J_NEG_0_63), -0.63);
}

#[test]
fn cubic_list() {
    let list = Vertex::list_for_cubic();
    assert_eq!(list.len(), 6);
    assert_eq!(list.len(), CUBIC.len());
    assert_within(&list, 1);
    let deltas: Vec<(i64, i64, i64)> = list.iter().map(|v| v.delta).collect();
    assert_eq!(
        deltas,
        vec![(1, 0, 0), (0, 1, 0), (0, 0, 1), (-1, 0, 0), (0, -1, 0), (0, 0, -1)]
    );
    assert!(list.iter().all(|v| v.src == 0 && v.tgt == 0 && v.exch.is_none()));
}

#[test]
fn hcp_list() {
    let list = Vertex::list_for_hcp();
    assert_eq!(list.len(), 24);
    assert_eq!(list.len(), HCP.len());
    assert_within(&list, 2);
    assert!(list.iter().all(|v| v.exch.is_none()));
    assert_eq!(list.iter().filter(|v| v.src == 0).count(), 12);
    assert_eq!(list.iter().filter(|v| v.src == 1).count(), 12);
    assert_eq!((list[2].src, list[2].tgt, list[2].delta), (0, 0, (1, 1, 0)));
    assert_eq!((list[17].src, list[17].tgt, list[17].delta), (0, 1, (-1, -1, -1)));
    assert_eq!((list[23].src, list[23].tgt, list[23].delta), (1, 0, (1, 1, 1)));
}

#[test]
fn honeycomb_list() {
    let list = Vertex::list_for_honeycomb();
    assert_eq!(list.len(), 10);
    assert_eq!(list.len(), HONEYCOMB.len());
    assert_within(&list, 2);
    assert!(list.iter().all(|v| v.exch.is_none()));
    assert_eq!((list[0].src, list[0].tgt, list[0].delta), (0, 1, (0, 0, 0)));
    assert_eq!((list[3].src, list[3].tgt, list[3].delta), (1, 0, (0, 1, 0)));
    assert_eq!((list[9].src, list[9].tgt, list[9].delta), (1, 1, (0, 0, -1)));
}

#[test]
fn manganite_list() {
    let list = Vertex::list_for_manganite();
    assert_eq!(list.len(), 162);
    assert_eq!(list.len(), MANGANITE.len());
    assert_within(&list, 27);
    for atom in 0..27 {
        assert_eq!(list.iter().filter(|v| v.src == atom).count(), 6);
    }
    assert!(list.iter().all(|v| {
        let j = f64::from_bits(v.exch.unwrap());
        j == 1.35 || j == 4.65 || j == 7.77
    }));
    assert_eq!((list[0].src, list[0].tgt, list[0].delta), (0, 2, (-1, 0, 0)));
    assert_eq!(f64::from_bits(list[0].exch.unwrap()), 4.65);
    assert_eq!((list[3].src, list[3].tgt, list[3].delta), (0, 1, (0, 0, 0)));
    assert_eq!(f64::from_bits(list[3].exch.unwrap()), 1.35);
    assert_eq!((list[9].src, list[9].tgt, list[9].delta), (1, 2, (0, 0, 0)));
    assert_eq!(f64::from_bits(list[9].exch.unwrap()), 7.77);
}

#[test]
fn magnetite_list() {
    let list = Vertex::list_for_magnetite();
    assert_eq!(list.len(), 320);
    assert_eq!(list.len(), MAGNETITE.len());
    assert_within(&list, 24);
    assert!(list.iter().all(|v| {
        let j = f64::from_bits(v.exch.unwrap());
        j == 0.11 || j == 2.92 || j == -0.63
    }));
    assert_eq!((list[0].src, list[0].tgt, list[0].delta), (0, 19, (-1, -1, -1)));
    assert_eq!(f64::from_bits(list[0].exch.unwrap()), 0.11);
    assert_eq!((list[1].src, list[1].tgt, list[1].delta), (0, 4, (-1, -1, 0)));
    assert_eq!(f64::from_bits(list[1].exch.unwrap()), 2.92);
    assert_eq!((list[319].src, list[319].tgt, list[319].delta), (23, 2, (1, 0, 1)));
    assert_eq!(f64::from_bits(list[319].exch.unwrap()), -0.63);
}

#[test]
fn coupled_lists_hold_every_bond_in_both_directions() {
    for list in [
        Vertex::list_for_cubic(),
        Vertex::list_for_hcp(),
        Vertex::list_for_manganite(),
        Vertex::list_for_magnetite(),
    ] {
        for v in &list {
            assert!(list.iter().any(|w| {
                w.src == v.tgt
                    && w.tgt == v.src
                    && w.delta == (-v.delta.0, -v.delta.1, -v.delta.2)
                    && w.exch == v.exch
            }));
        }
    }
}
