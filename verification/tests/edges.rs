use runex::edge::EdgeDef;
use runex::edge_set::EdgeSet;
use std::cmp::Ordering;

const ORDER: [EdgeDef; 4] = [EdgeDef::Left, EdgeDef::Right, EdgeDef::Top, EdgeDef::Bottom];

#[test]
fn edges_are_ordered_left_right_top_bottom() {
    assert!(EdgeDef::Left < EdgeDef::Right);
    assert!(EdgeDef::Right < EdgeDef::Top);
    assert!(EdgeDef::Top < EdgeDef::Bottom);
    assert!(EdgeDef::Left < EdgeDef::Bottom);
    assert!(EdgeDef::Bottom > EdgeDef::Left);
    assert!(EdgeDef::Top >= EdgeDef::Top);
    assert!(EdgeDef::Top <= EdgeDef::Top);
    assert!(!(EdgeDef::Right < EdgeDef::Left));
}

#[test]
fn partial_cmp_follows_the_position() {
    for (i, a) in ORDER.iter().enumerate() {
        for (j, b) in ORDER.iter().enumerate() {
            assert_eq!(a.partial_cmp(b), Some(i.cmp(&j)));
            assert_eq!(a == b, i == j);
        }
    }
}

#[test]
fn partial_cmp_agrees_with_cmp() {
    for a in ORDER {
        for b in ORDER {
            assert_eq!(a.partial_cmp(&b), Some(a.cmp(&b)));
        }
    }
    assert_eq!(EdgeDef::Left.cmp(&EdgeDef::Bottom), Ordering::Less);
    assert_eq!(EdgeDef::Top.cmp(&EdgeDef::Right), Ordering::Greater);
    assert_eq!(EdgeDef::Top.cmp(&EdgeDef::Top), Ordering::Equal);
}

#[test]
fn sorting_edges_gives_the_fixed_order() {
    let mut edges = vec![EdgeDef::Bottom, EdgeDef::Top, EdgeDef::Left, EdgeDef::Right];
    edges.sort();
    assert_eq!(edges, ORDER.to_vec());
}

#[test]
fn new_set_is_empty() {
    let s = EdgeSet::new();
    for e in ORDER {
        assert!(!s.contains(e));
    }
    assert_eq!(s.to_vec(), Vec::<EdgeDef>::new());
}

#[test]
fn insert_reports_whether_the_edge_was_new() {
    let mut s = EdgeSet::new();
    assert!(s.insert(EdgeDef::Top));
    assert!(!s.insert(EdgeDef::Top));
    assert!(s.insert(EdgeDef::Left));
    assert!(s.contains(EdgeDef::Top));
    assert!(s.contains(EdgeDef::Left));
    assert!(!s.contains(EdgeDef::Right));
    assert!(!s.contains(EdgeDef::Bottom));
    assert_eq!(s.to_vec(), vec![EdgeDef::Left, EdgeDef::Top]);
}

#[test]
fn extend_takes_any_order_and_repeats() {
    let mut s = EdgeSet::new();
    s.extend(&[EdgeDef::Bottom, EdgeDef::Right, EdgeDef::Bottom, EdgeDef::Bottom]);
    assert_eq!(s.to_vec(), vec![EdgeDef::Right, EdgeDef::Bottom]);
    s.extend(&[]);
    assert_eq!(s.to_vec(), vec![EdgeDef::Right, EdgeDef::Bottom]);
    s.extend(&[EdgeDef::Left, EdgeDef::Right]);
    assert_eq!(s.to_vec(), vec![EdgeDef::Left, EdgeDef::Right, EdgeDef::Bottom]);
    s.extend(&[EdgeDef::Top]);
    assert_eq!(s.to_vec(), ORDER.to_vec());
}

#[test]
fn to_vec_lists_every_subset_in_order() {
    for bits in 0u8..16 {
        let mut s = EdgeSet::new();
        let mut want: Vec<EdgeDef> = Vec::new();
        // Insert from the back, so that the order of insertion is not the order wanted.
        for (i, e) in ORDER.iter().enumerate().rev() {
            if bits & (1 << i) != 0 {
                s.insert(*e);
            }
        }
        for (i, e) in ORDER.iter().enumerate() {
            if bits & (1 << i) != 0 {
                want.push(*e);
            }
        }
        assert_eq!(s.to_vec(), want);
    }
}
