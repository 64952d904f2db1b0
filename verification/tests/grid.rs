use blockhop::Array2D;
use std::cell::Cell;

fn sample_grid() -> Array2D<usize> {
    // 4 columns, 3 rows; cell (i, j) holds i + 10 * j
    Array2D::from_closure(4, 3, |i, j| i + 10 * j)
}

#[test]
fn from_closure_dimensions() {
    let g = sample_grid();
    assert_eq!(g.get_width(), 4);
    assert_eq!(g.get_height(), 3);
}

#[test]
fn coord_get_matches_linear_get() {
    // 2-D lookup agrees with linear lookup at i + j * width, for every cell
    let g = sample_grid();
    for j in 0..3 {
        for i in 0..4 {
            assert_eq!(g.coord_get(i, j), g.index_get(i + j * 4));
            assert_eq!(g.coord_get(i, j), Some(&(i + 10 * j)));
        }
    }
}

#[test]
fn out_of_range_reads_absence() {
    let g = sample_grid();
    assert_eq!(g.index_get(12), None);
    assert_eq!(g.coord_get(4, 0), None);
    assert_eq!(g.coord_get(0, 3), None);
    assert_eq!(g.coord_get(100, 100), None);
}

#[test]
fn from_box_adopts_buffer() {
    let g = Array2D::from_box(2, 2, vec![1, 2, 3, 4]);
    assert_eq!(g.index_get(0), Some(&1));
    assert_eq!(g.coord_get(1, 1), Some(&4));
}

#[test]
fn index_set_in_range() {
    let mut g = sample_grid();
    assert!(g.index_set(5, 99));
    assert_eq!(g.index_get(5), Some(&99));
}

#[test]
fn index_set_out_of_range_changes_nothing() {
    let mut g = sample_grid();
    assert!(!g.index_set(12, 99));
    for k in 0..12 {
        assert_eq!(g.index_get(k), sample_grid().index_get(k));
    }
}

#[test]
fn coord_set_in_and_out_of_range() {
    let mut g = sample_grid();
    assert!(g.coord_set(2, 1, 77));
    assert_eq!(g.coord_get(2, 1), Some(&77));
    assert!(!g.coord_set(4, 1, 55));
    assert!(!g.coord_set(1, 3, 55));
    assert_eq!(g.coord_get(3, 2), Some(&23));
}

#[test]
fn clone_copies_every_cell() {
    let g = sample_grid();
    let c = g.clone();
    assert_eq!(c.get_width(), 4);
    assert_eq!(c.get_height(), 3);
    for j in 0..3 {
        for i in 0..4 {
            assert_eq!(c.coord_get(i, j), g.coord_get(i, j));
        }
    }
}

#[test]
fn clone_sub_rebases_origin() {
    // the [1, 3) x [1, 2) sub-rectangle: 2 x 1, cell (0, 0) == source (1, 1)
    let g = sample_grid();
    let s = g.clone_sub(1..3, 1..2);
    assert_eq!(s.get_width(), 2);
    assert_eq!(s.get_height(), 1);
    assert_eq!(s.coord_get(0, 0), g.coord_get(1, 1));
    assert_eq!(s.coord_get(1, 0), g.coord_get(2, 1));
}

#[test]
fn clone_sub_clamps_to_bounds() {
    // [2, 10) x [1, 10) clamps to [2, 4) x [1, 3): 2 x 2
    let g = sample_grid();
    let s = g.clone_sub(2..10, 1..10);
    assert_eq!(s.get_width(), 2);
    assert_eq!(s.get_height(), 2);
    assert_eq!(s.coord_get(0, 0), Some(&12));
    assert_eq!(s.coord_get(1, 1), Some(&23));
}

#[test]
fn clone_sub_empty_when_start_past_end() {
    let g = sample_grid();
    let s = g.clone_sub(3..1, 0..3);
    assert_eq!(s.get_width(), 0);
}

#[test]
fn for_each_visits_every_cell_in_row_major_order() {
    let g = sample_grid();
    let count = Cell::new(0usize);
    let order_ok = Cell::new(true);
    let last = Cell::new(None::<(usize, usize)>);
    g.for_each(|i, j, v| {
        if v != i + 10 * j {
            order_ok.set(false);
        }
        if let Some((pi, pj)) = last.get() {
            if !(pj < j || (pj == j && pi < i)) {
                order_ok.set(false);
            }
        }
        last.set(Some((i, j)));
        count.set(count.get() + 1);
    });
    assert_eq!(count.get(), 12);
    assert!(order_ok.get());
}

#[test]
fn for_each_sub_visits_clamped_range_only() {
    let g = sample_grid();
    let count = Cell::new(0usize);
    let inside = Cell::new(true);
    g.for_each_sub(1..10, 2..10, |i, j, _| {
        if !(1 <= i && i < 4 && j == 2) {
            inside.set(false);
        }
        count.set(count.get() + 1);
    });
    assert_eq!(count.get(), 3);
    assert!(inside.get());
}

#[test]
fn for_each_mut_rewrites_every_cell() {
    let mut g = sample_grid();
    g.for_each_mut(|_, _, v| v + 1);
    for j in 0..3 {
        for i in 0..4 {
            assert_eq!(g.coord_get(i, j), Some(&(i + 10 * j + 1)));
        }
    }
}

#[test]
fn for_each_sub_mut_keeps_outside_cells() {
    let mut g = sample_grid();
    g.for_each_sub_mut(0..2, 1..2, |_, _, v| v + 100);
    assert_eq!(g.coord_get(0, 1), Some(&110));
    assert_eq!(g.coord_get(1, 1), Some(&111));
    assert_eq!(g.coord_get(2, 1), Some(&12));
    assert_eq!(g.coord_get(0, 0), Some(&0));
    assert_eq!(g.coord_get(3, 2), Some(&23));
}

#[test]
fn clamp_usize_range_clamps_end_only() {
    let r = blockhop::clamp_usize_range(2..9, 5);
    assert_eq!(r.start, 2);
    assert_eq!(r.end, 5);
    let r = blockhop::clamp_usize_range(1..4, 5);
    assert_eq!(r.start, 1);
    assert_eq!(r.end, 4);
}
