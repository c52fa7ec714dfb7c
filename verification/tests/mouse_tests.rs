use gomoku::mouse::Mouse;

#[test]
fn clamp_maps_pixels_to_cells() {
    // 760 pixels over 19 cells: 40 pixels per cell.
    let m = Mouse::new((760, 760));
    assert_eq!(m.check_inside_window((85, 40), 19), Some((2, 1)));
    assert_eq!(m.check_inside_window((0, 0), 19), Some((0, 0)));
    assert_eq!(m.check_inside_window((759, 759), 19), Some((18, 18)));
}

#[test]
fn clamp_rejects_positions_past_the_board() {
    let m = Mouse::new((760, 760));
    assert_eq!(m.check_inside_window((760, 10), 19), None);
    assert_eq!(m.check_inside_window((10, 1000), 19), None);
}

#[test]
fn clamp_rejects_viewport_narrower_than_board() {
    let m = Mouse::new((10, 10));
    assert_eq!(m.check_inside_window((0, 0), 19), None);
}

#[test]
fn set_coordinate_marks_hover() {
    let mut m = Mouse::new((760, 760));
    assert!(!m.get_over());
    m.set_coordinate((3, 4));
    assert!(m.get_over());
    assert_eq!(m.get_coordinate(), (3, 4));
}

#[test]
fn set_dimension_keeps_tracked_cell() {
    let mut m = Mouse::new((760, 760));
    m.set_coordinate((3, 4));
    m.set_dimension((380, 380));
    assert_eq!(m.get_dimension(), (380, 380));
    assert_eq!(m.get_coordinate(), (3, 4));
    // 20 pixels per cell after the resize
    assert_eq!(m.check_inside_window((85, 40), 19), Some((4, 2)));
}
