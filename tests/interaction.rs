use nbody_sim::interaction::interaction_partners;

#[test]
fn single_body_has_no_partners() {
    assert_eq!(interaction_partners(1, 0), Vec::<usize>::new());
}

#[test]
fn partners_skip_self_in_collection_order() {
    assert_eq!(interaction_partners(4, 2), vec![0, 1, 3]);
    assert_eq!(interaction_partners(3, 0), vec![1, 2]);
    assert_eq!(interaction_partners(3, 2), vec![0, 1]);
    assert_eq!(interaction_partners(2, 1), vec![0]);
}

#[test]
fn every_pair_is_visited_once_per_direction() {
    let n = 5;
    let mut pairs = Vec::new();
    for i in 0..n {
        for j in interaction_partners(n, i) {
            assert_ne!(i, j);
            pairs.push((i, j));
        }
    }
    assert_eq!(pairs.len(), n * (n - 1));
    for i in 0..n {
        for j in 0..n {
            if i != j {
                assert_eq!(pairs.iter().filter(|p| **p == (i, j)).count(), 1);
            }
        }
    }
}
