use ceres_solver::error::ParameterBlockStorageError;
use ceres_solver::parameter_block::{ParameterBlock, ParameterBlockOrIndex, ParameterBlockStorage};

fn block(values: Vec<f64>) -> ParameterBlockOrIndex<f64> {
    ParameterBlockOrIndex::Block(ParameterBlock::new(values))
}

#[test]
fn new_block_has_values_and_no_bounds() {
    let b = ParameterBlock::new(vec![1.0, 2.0, 3.0]);
    assert_eq!(b.len(), 3);
    assert_eq!(b.values(), &[1.0, 2.0, 3.0]);
    assert!(b.lower_bounds().is_none());
    assert!(b.upper_bounds().is_none());
    assert_eq!(b.to_values(), vec![1.0, 2.0, 3.0]);
}

#[test]
fn bounds_are_set_per_component() {
    let mut b = ParameterBlock::new(vec![1.0, 2.0]);
    b.with_lower_bounds(vec![Some(0.0), None])
        .with_upper_bounds(vec![None, Some(3.0)]);
    assert_eq!(b.lower_bounds(), Some(&[Some(0.0), None][..]));
    assert_eq!(b.upper_bounds(), Some(&[None, Some(3.0)][..]));
    assert_eq!(b.values(), &[1.0, 2.0]);
}

#[test]
fn all_bounds_bound_every_component() {
    let mut b = ParameterBlock::new(vec![1.0, 2.0]);
    b.with_all_lower_bounds(vec![-1.0, -2.0])
        .with_all_upper_bounds(vec![5.0, 6.0]);
    assert_eq!(b.lower_bounds(), Some(&[Some(-1.0), Some(-2.0)][..]));
    assert_eq!(b.upper_bounds(), Some(&[Some(5.0), Some(6.0)][..]));
}

#[test]
fn extend_assigns_next_indices_and_resolves_existing_ones() {
    let mut storage = ParameterBlockStorage::new();
    let indices = storage
        .extend(vec![block(vec![1.0]), block(vec![2.0, 3.0]), ParameterBlockOrIndex::Index(0)])
        .unwrap();
    assert_eq!(indices, vec![0, 1, 0]);
    assert_eq!(storage.blocks().len(), 2);
    let more = storage
        .extend(vec![ParameterBlockOrIndex::Index(1), block(vec![4.0])])
        .unwrap();
    assert_eq!(more, vec![1, 2]);
    assert_eq!(
        storage.to_values(),
        vec![vec![1.0], vec![2.0, 3.0], vec![4.0]]
    );
}

#[test]
fn extend_rejects_index_before_it_is_registered() {
    let mut storage: ParameterBlockStorage<f64> = ParameterBlockStorage::new();
    let err = storage
        .extend(vec![ParameterBlockOrIndex::Index(0)])
        .unwrap_err();
    assert_eq!(err, ParameterBlockStorageError::IndexOutOfBounds { index: 0, len: 0 });

    let mut storage = ParameterBlockStorage::new();
    let err = storage
        .extend(vec![block(vec![1.0]), ParameterBlockOrIndex::Index(1), block(vec![2.0])])
        .unwrap_err();
    assert_eq!(err, ParameterBlockStorageError::IndexOutOfBounds { index: 1, len: 1 });
    // the block met before the bad index stays stored, the one after it does not
    assert_eq!(storage.blocks().len(), 1);
}

#[test]
fn later_block_does_not_validate_earlier_index() {
    let mut storage = ParameterBlockStorage::new();
    let err = storage
        .extend(vec![ParameterBlockOrIndex::Index(0), block(vec![1.0])])
        .unwrap_err();
    assert_eq!(err, ParameterBlockStorageError::IndexOutOfBounds { index: 0, len: 0 });
}

#[test]
fn get_block_reports_index_and_length() {
    let mut storage = ParameterBlockStorage::new();
    storage.extend(vec![block(vec![7.0, 8.0])]).unwrap();
    assert_eq!(storage.get_block(0).unwrap().values(), &[7.0, 8.0]);
    assert_eq!(
        storage.get_block(3).err(),
        Some(ParameterBlockStorageError::IndexOutOfBounds { index: 3, len: 1 })
    );
}

#[test]
fn block_or_index_from_conversions() {
    let from_index: ParameterBlockOrIndex<f64> = 4usize.into();
    assert!(matches!(from_index, ParameterBlockOrIndex::Index(4)));
    let from_block: ParameterBlockOrIndex<f64> = ParameterBlock::new(vec![1.0]).into();
    assert!(matches!(from_block, ParameterBlockOrIndex::Block(_)));
}
