use palette_anneal::{cross, pairwise};

#[test]
fn pairwise_upper_triangle_row_major() {
    assert_eq!(
        pairwise(&[1, 2, 3, 4]),
        vec![(1, 2), (1, 3), (1, 4), (2, 3), (2, 4), (3, 4)]
    );
}

#[test]
fn pairwise_of_fewer_than_two() {
    assert_eq!(pairwise::<u8>(&[]), vec![]);
    assert_eq!(pairwise(&[7]), vec![]);
}

#[test]
fn cross_row_major() {
    assert_eq!(
        cross(&[1, 2], &[10, 20, 30]),
        vec![(1, 10), (1, 20), (1, 30), (2, 10), (2, 20), (2, 30)]
    );
    assert_eq!(cross::<u8>(&[1], &[]), vec![]);
}
