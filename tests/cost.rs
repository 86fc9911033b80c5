use ceres_solver::cost::{derivative_rows, flatten_rows, jacobian_rows, CostFunction};

#[test]
fn cost_function_keeps_sizes_and_residuals() {
    let cost = CostFunction::new(7u8, vec![2, 3], 4);
    assert_eq!(cost.parameter_sizes(), &[2, 3]);
    assert_eq!(cost.num_residuals(), 4);
    assert_eq!(cost.into_inner(), 7u8);
}

#[test]
fn derivative_rows_are_row_major() {
    // 2 residuals x 3 parameter components
    let flat = [1.0, 2.0, 3.0, 4.0, 5.0, 6.0];
    let rows = derivative_rows(&flat, 3, 2);
    assert_eq!(rows, vec![vec![1.0, 2.0, 3.0], vec![4.0, 5.0, 6.0]]);
    assert_eq!(flatten_rows(&rows, 3), flat.to_vec());
}

#[test]
fn derivative_rows_of_one_component() {
    let flat = [1.5, 2.5, 3.5];
    let rows = derivative_rows(&flat, 1, 3);
    assert_eq!(rows, vec![vec![1.5], vec![2.5], vec![3.5]]);
}

#[test]
fn jacobian_shape_follows_parameter_sizes() {
    let sizes = [1usize, 2, 3];
    let r = 2;
    let jacobians = Some(vec![
        Some(vec![0.0; r * 1]),
        Some(vec![0.0; r * 2]),
        Some(vec![0.0; r * 3]),
    ]);
    let views = jacobian_rows(&jacobians, &sizes, r).unwrap();
    assert_eq!(views.len(), 3);
    for (k, view) in views.iter().enumerate() {
        let rows = view.as_ref().unwrap();
        assert_eq!(rows.len(), r);
        for row in rows {
            assert_eq!(row.len(), sizes[k]);
        }
    }
}

#[test]
fn null_jacobian_array_gives_none() {
    let jacobians: Option<Vec<Option<Vec<f64>>>> = None;
    assert!(jacobian_rows(&jacobians, &[2, 1], 3).is_none());
}

#[test]
fn null_jacobian_components_give_none_at_their_positions() {
    let jacobians = Some(vec![None, Some(vec![1.0, 2.0, 3.0, 4.0]), None]);
    let views = jacobian_rows(&jacobians, &[3, 2, 1], 2).unwrap();
    assert!(views[0].is_none());
    assert_eq!(views[1], Some(vec![vec![1.0, 2.0], vec![3.0, 4.0]]));
    assert!(views[2].is_none());
}
