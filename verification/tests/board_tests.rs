use gomoku::board::GoBoard;
use gomoku::board::Team;
use gomoku::board::Tile;

#[test]
fn new_board_is_free() {
    let b = GoBoard::new(19);
    assert_eq!(b.get_size(), 19);
    assert_eq!(b.get((0, 0)), Tile::Free);
    assert_eq!(b.get((18, 18)), Tile::Free);
    assert_eq!(b.get((7, 11)), Tile::Free);
}

#[test]
fn default_board_is_nineteen_wide() {
    let b: GoBoard = Default::default();
    assert_eq!(b.get_size(), 19);
    assert_eq!(b.get((9, 9)), Tile::Free);
}

#[test]
fn new_teams_are_distinct() {
    let (a, b) = Team::new_teams();
    assert_ne!(a, b);
    assert_ne!(a.get_tile(), b.get_tile());
    assert_ne!(a.get_tile(), Tile::Free);
    assert_ne!(b.get_tile(), Tile::Free);
}

#[test]
fn set_places_on_free_cell() {
    let mut b = GoBoard::new(19);
    let (a, _) = Team::new_teams();
    assert!(b.set((3, 3), &a));
    assert_eq!(b.get((3, 3)), a.get_tile());
}

#[test]
fn set_rejects_occupied_cell() {
    let mut b = GoBoard::new(19);
    let (a, w) = Team::new_teams();
    assert!(b.set((3, 3), &a));
    assert!(!b.set((3, 3), &w));
    // the cell is not overwritten
    assert_eq!(b.get((3, 3)), a.get_tile());
}

#[test]
fn set_raw_overwrites_unconditionally() {
    let mut b = GoBoard::new(19);
    b.set_raw((5, 5), Tile::Black);
    assert_eq!(b.get((5, 5)), Tile::Black);
    b.set_raw((5, 5), Tile::White);
    assert_eq!(b.get((5, 5)), Tile::White);
}

#[test]
fn has_free_goes_false_on_full_board() {
    let mut b = GoBoard::new(1);
    assert!(b.has_free());
    let (a, _) = Team::new_teams();
    assert!(b.set((0, 0), &a));
    assert!(!b.has_free());
}

#[test]
fn is_win_detects_horizontal_five() {
    let mut b = GoBoard::new(19);
    for x in 2..7 {
        b.set_raw((x, 3), Tile::Black);
    }
    assert_eq!(b.is_win(4, 3), Some(Tile::Black));
    assert_eq!(b.is_win(2, 3), Some(Tile::Black));
    assert_eq!(b.is_win(6, 3), Some(Tile::Black));
}

#[test]
fn is_win_detects_vertical_five() {
    let mut b = GoBoard::new(19);
    for y in 10..15 {
        b.set_raw((8, y), Tile::White);
    }
    assert_eq!(b.is_win(8, 12), Some(Tile::White));
}

#[test]
fn is_win_detects_diagonal_five() {
    let mut b = GoBoard::new(19);
    for i in 0..5 {
        b.set_raw((i, i), Tile::Black);
    }
    assert_eq!(b.is_win(0, 0), Some(Tile::Black));
    assert_eq!(b.is_win(4, 4), Some(Tile::Black));
}

#[test]
fn is_win_detects_antidiagonal_five() {
    let mut b = GoBoard::new(19);
    for i in 0..5 {
        b.set_raw((i, 4 - i), Tile::White);
    }
    assert_eq!(b.is_win(2, 2), Some(Tile::White));
    assert_eq!(b.is_win(0, 4), Some(Tile::White));
    assert_eq!(b.is_win(4, 0), Some(Tile::White));
}

#[test]
fn is_win_none_on_four_in_a_row() {
    let mut b = GoBoard::new(19);
    for x in 2..6 {
        b.set_raw((x, 3), Tile::Black);
    }
    assert_eq!(b.is_win(3, 3), None);
}

#[test]
fn is_win_none_on_free_cell() {
    let b = GoBoard::new(19);
    assert_eq!(b.is_win(9, 9), None);
}

#[test]
fn is_win_ignores_broken_line() {
    let mut b = GoBoard::new(19);
    for x in 2..7 {
        b.set_raw((x, 3), Tile::Black);
    }
    b.set_raw((4, 3), Tile::White);
    assert_eq!(b.is_win(2, 3), None);
    assert_eq!(b.is_win(6, 3), None);
}
