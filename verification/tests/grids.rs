use depth_anything_rs::errors::DepthError;
use depth_anything_rs::shape::normalize_shape;

fn words(n: usize) -> Vec<u32> {
    (0..n as u32).collect()
}

#[test]
fn rank3_strips_batch_axis() {
    let shape: Vec<usize> = vec![1, 4, 5];
    let g = normalize_shape(&shape, words(20)).unwrap();
    assert_eq!(g.height, 4);
    assert_eq!(g.width, 5);
    assert_eq!(g.data, words(20));
}

#[test]
fn rank4_strips_batch_and_channel_axes() {
    let shape: Vec<usize> = vec![1, 1, 4, 5];
    let g = normalize_shape(&shape, words(20)).unwrap();
    assert_eq!(g.height, 4);
    assert_eq!(g.width, 5);
    assert_eq!(g.data, words(20));
}

#[test]
fn rank3_and_rank4_agree() {
    let g3 = normalize_shape(&vec![1, 4, 5], words(20)).unwrap();
    let g4 = normalize_shape(&vec![1, 1, 4, 5], words(20)).unwrap();
    assert_eq!(g3.height, g4.height);
    assert_eq!(g3.width, g4.width);
    assert_eq!(g3.data, g4.data);
}

#[test]
fn rank3_rejects_wrong_batch() {
    let r = normalize_shape(&vec![2, 4, 5], words(40));
    assert_eq!(r.unwrap_err(), DepthError::UnexpectedBatchSize(2));
}

#[test]
fn rank4_rejects_wrong_leading_dims() {
    let r = normalize_shape(&vec![1, 2, 4, 5], words(40));
    assert_eq!(r.unwrap_err(), DepthError::UnexpectedShape(1, 2));
    let r = normalize_shape(&vec![3, 1, 4, 5], words(60));
    assert_eq!(r.unwrap_err(), DepthError::UnexpectedShape(3, 1));
}

#[test]
fn other_ranks_are_unsupported() {
    let r = normalize_shape(&vec![4, 5], words(20));
    assert_eq!(r.unwrap_err(), DepthError::UnsupportedRank(2));
    let r = normalize_shape(&vec![20], words(20));
    assert_eq!(r.unwrap_err(), DepthError::UnsupportedRank(1));
    let r = normalize_shape(&vec![1, 1, 1, 4, 5], words(20));
    assert_eq!(r.unwrap_err(), DepthError::UnsupportedRank(5));
}

#[test]
fn mismatched_buffer_is_an_invariant_violation() {
    let r = normalize_shape(&vec![1, 4, 5], words(19));
    assert_eq!(r.unwrap_err(), DepthError::InvariantViolation);
    let r = normalize_shape(&vec![1, 1, 4, 5], words(21));
    assert_eq!(r.unwrap_err(), DepthError::InvariantViolation);
}

#[test]
fn zero_sized_grid_is_accepted_with_empty_buffer() {
    let g = normalize_shape(&vec![1, 0, 5], words(0)).unwrap();
    assert_eq!(g.height, 0);
    assert_eq!(g.width, 5);
    assert_eq!(g.data.len(), 0);
}
