use libmf::{Float32, Matrix};

fn value(x: f32) -> Float32 {
    Float32 { bits: x.to_bits() }
}

#[test]
fn test_new() {
    let mut data = Matrix::new();
    data.push(0, 0, value(1.0));
}

#[test]
fn test_with_capacity() {
    let mut data = Matrix::with_capacity(1);
    data.push(0, 0, value(1.0));
}

#[test]
fn empty_matrix_has_no_dimensions() {
    let data = Matrix::new();
    let prob = data.to_problem();
    assert_eq!(prob.m, 0);
    assert_eq!(prob.n, 0);
    assert_eq!(prob.nnz, 0);
    assert!(data.entries().is_empty());
}

#[test]
fn default_matrix_is_empty() {
    let data = Matrix::default();
    assert_eq!(data.to_problem().nnz, 0);
}

#[test]
fn dimensions_are_one_more_than_largest_index() {
    let mut data = Matrix::new();
    data.push(0, 0, value(1.0));
    data.push(1, 0, value(2.0));
    data.push(1, 1, value(1.0));
    let prob = data.to_problem();
    assert_eq!(prob.m, 2);
    assert_eq!(prob.n, 2);
    assert_eq!(prob.nnz, 3);
}

#[test]
fn dimensions_follow_the_largest_index_not_the_last() {
    let mut data = Matrix::with_capacity(4);
    data.push(7, 2, value(1.0));
    data.push(3, 9, value(2.0));
    data.push(0, 0, value(3.0));
    let prob = data.to_problem();
    assert_eq!(prob.m, 8);
    assert_eq!(prob.n, 10);
    assert_eq!(prob.nnz, 3);
}

#[test]
fn dimensions_of_a_single_far_entry() {
    let mut data = Matrix::new();
    data.push(i32::MAX - 1, 5, value(0.5));
    let prob = data.to_problem();
    assert_eq!(prob.m, i32::MAX);
    assert_eq!(prob.n, 6);
}

#[test]
fn repeated_cells_count_as_entries() {
    let mut data = Matrix::new();
    data.push(1, 1, value(1.0));
    data.push(1, 1, value(2.0));
    let prob = data.to_problem();
    assert_eq!(prob.m, 2);
    assert_eq!(prob.n, 2);
    assert_eq!(prob.nnz, 2);
}

#[test]
fn entries_keep_push_order_and_values() {
    let mut data = Matrix::new();
    data.push(2, 1, value(1.5));
    data.push(0, 3, value(-2.25));
    let entries = data.entries();
    assert_eq!(entries.len(), 2);
    assert_eq!((entries[0].u, entries[0].v), (2, 1));
    assert_eq!(f32::from_bits(entries[0].r.bits), 1.5);
    assert_eq!((entries[1].u, entries[1].v), (0, 3));
    assert_eq!(f32::from_bits(entries[1].r.bits), -2.25);
}
