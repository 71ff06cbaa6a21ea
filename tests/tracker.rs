use ratzilla::bits::FlagSet;
use ratzilla::cell::{Cell, Color, MOD_BOLD};
use ratzilla::grid::{resolve_changed_cells, Grid};

#[test]
fn change_tracker_flags_differing_cells() {
    let previous = Grid::new(3, 2);
    let mut current = Grid::new(3, 2);
    current.set_cell(1, Cell::new("x", Color::Reset, Color::Reset, 0));
    current.set_cell(5, Cell::new(" ", Color::Reset, Color::Reset, MOD_BOLD));
    let mut changed = FlagSet::new(6);
    resolve_changed_cells(&current, &previous, true, &mut changed);
    resolve_changed_cells(&current, &previous, false, &mut changed);
    let flags: Vec<bool> = (0..6).map(|i| changed.is_set(i)).collect();
    assert_eq!(flags, vec![false, true, false, false, false, true]);
}

#[test]
fn change_tracker_force_flags_every_cell() {
    let previous = Grid::new(2, 2);
    let current = Grid::new(2, 2);
    let mut changed = FlagSet::new(4);
    resolve_changed_cells(&current, &previous, true, &mut changed);
    assert!((0..4).all(|i| changed.is_set(i)));
    resolve_changed_cells(&current, &previous, false, &mut changed);
    assert!((0..4).all(|i| !changed.is_set(i)));
}

#[test]
fn equal_grids_compare_same() {
    let a = Grid::new(2, 1);
    let mut b = a.copy();
    assert!(a.same(&b));
    b.set_cell(0, Cell::new(" ", Color::Red, Color::Reset, 0));
    assert!(!a.same(&b));
}
