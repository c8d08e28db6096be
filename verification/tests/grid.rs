use fluid::grid::{
    apply_bcs, apply_bcs_force, cell_neighbours, dof_count, element_dofs, grid_index, node_count,
    push_capped,
};

#[test]
fn grid_indices_are_x_fastest() {
    assert_eq!(grid_index(4, 4, 0, 0, 0), 0);
    assert_eq!(grid_index(4, 4, 1, 0, 0), 1);
    assert_eq!(grid_index(4, 4, 0, 1, 0), 4);
    assert_eq!(grid_index(4, 4, 0, 0, 1), 16);
    assert_eq!(grid_index(4, 4, 3, 3, 3), 63);
    // x-faces of a 4-cell-wide grid are 5 wide
    assert_eq!(grid_index(5, 4, 2, 1, 1), 2 + 5 * (1 + 4));
}

#[test]
fn interior_cell_has_six_neighbours() {
    let n = cell_neighbours(4, 4, 4, 1, 1, 1);
    let c = |i, j, k| grid_index(4, 4, i, j, k);
    assert_eq!(
        n,
        vec![c(0, 1, 1), c(2, 1, 1), c(1, 0, 1), c(1, 2, 1), c(1, 1, 0), c(1, 1, 2)]
    );
}

#[test]
fn corner_cell_has_three_neighbours() {
    let c = |i, j, k| grid_index(3, 2, i, j, k);
    assert_eq!(cell_neighbours(3, 2, 2, 0, 0, 0), vec![c(1, 0, 0), c(0, 1, 0), c(0, 0, 1)]);
    assert_eq!(cell_neighbours(3, 2, 2, 2, 1, 1), vec![c(1, 1, 1), c(2, 0, 1), c(2, 1, 0)]);
    assert!(cell_neighbours(1, 1, 1, 0, 0, 0).is_empty());
}

#[test]
fn beam_counts_and_element_dofs() {
    assert_eq!(node_count(2), 3);
    assert_eq!(dof_count(2), 6);
    assert_eq!(dof_count(0), 2);
    assert_eq!(element_dofs(0), [0, 1, 2, 3]);
    assert_eq!(element_dofs(3), [6, 7, 8, 9]);
}

#[test]
fn boundary_conditions_zero_rows_and_columns() {
    let mut m: Vec<i32> = (1..=9).collect();
    apply_bcs(&mut m, 3, &[0], 0, 1);
    assert_eq!(m, vec![1, 0, 0, 0, 5, 6, 0, 8, 9]);

    let mut m: Vec<i32> = (1..=16).collect();
    apply_bcs(&mut m, 4, &[1, 3], 0, 1);
    assert_eq!(m, vec![1, 0, 3, 0, 0, 1, 0, 0, 9, 0, 11, 0, 0, 0, 0, 1]);

    let mut m: Vec<i32> = (1..=4).collect();
    apply_bcs(&mut m, 2, &[], 0, 1);
    assert_eq!(m, vec![1, 2, 3, 4]);
}

#[test]
fn boundary_conditions_on_loads() {
    let mut f = vec![5.0_f64, 6.0, 7.0, 8.0];
    apply_bcs_force(&mut f, &[0, 1], 0.0);
    assert_eq!(f, vec![0.0, 0.0, 7.0, 8.0]);
}

#[test]
fn capped_sets_refuse_past_the_cap() {
    let mut v: Vec<u32> = Vec::new();
    assert!(push_capped(&mut v, Some(2), 1));
    assert!(push_capped(&mut v, Some(2), 2));
    assert!(!push_capped(&mut v, Some(2), 3));
    assert_eq!(v, vec![1, 2]);
    assert!(push_capped(&mut v, None, 3));
    assert_eq!(v, vec![1, 2, 3]);
    let mut w: Vec<u32> = Vec::new();
    assert!(!push_capped(&mut w, Some(0), 1));
    assert!(w.is_empty());
}
