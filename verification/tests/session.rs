use gomoku::board::GoBoard;
use gomoku::board::Team;
use gomoku::board::Tile;
use gomoku::ia::Decision;
use gomoku::console::Console;
use gomoku::console::GameEvent;
use gomoku::console::Player;

/// Moves the pointer over cell (x, y) of a 40-pixels-per-cell viewport and
/// presses; returns what the press reported.
fn press_cell(c: &mut Console, x: u32, y: u32) -> Option<Tile> {
    let moved = c.handle_event(GameEvent::MouseMove(x * 40 + 5, y * 40 + 5));
    assert_eq!(moved, None);
    c.handle_event(GameEvent::Press)
}

#[test]
fn default_session_is_ready_to_play() {
    let c: Console = Default::default();
    assert_eq!(c.board.get_size(), 19);
    assert_eq!(c.player.1, Player::Human);
    assert_eq!(c.friend.1, Player::Ia);
    assert_eq!(c.layer, 3);
    assert!(c.turn);
    assert!(!c.win);
    assert!(!c.help);
    assert_eq!(c.event.get_dimension(), (760, 760));
}

#[test]
fn engine_takes_first_free_cell() {
    let mut b = GoBoard::new(19);
    let teams = Team::new_teams();
    assert_eq!(Decision::get_optimal_move(&b, &(teams.0, teams.1), teams.1, 3), (0, 0));
    b.set_raw((0, 0), Tile::Black);
    assert_eq!(Decision::get_optimal_move(&b, &(teams.0, teams.1), teams.1, 3), (0, 1));
}

#[test]
fn human_press_then_automated_reply() {
    // 19 by 19 board, first side human, second automated, depth 3.
    let mut c: Console = Default::default();
    let player_tile = c.player.0.get_tile();
    let friend_tile = c.friend.0.get_tile();

    // the human presses the free cell (3, 3): accepted, turn passes on
    assert_eq!(press_cell(&mut c, 3, 3), None);
    assert_eq!(c.board.get((3, 3)), player_tile);
    assert!(!c.turn);

    // the automated side then moves once, before any further human input
    assert_eq!(c.handle_event(GameEvent::Tick), None);
    assert!(c.turn);
    // its engine picked the first free cell
    assert_eq!(c.board.get((0, 0)), friend_tile);
}

#[test]
fn press_on_occupied_cell_keeps_turn() {
    let board = GoBoard::new(19);
    let mut c = Console::new(board, 3, (Player::Human, Player::Human), false);
    let first_tile = c.player.0.get_tile();

    assert_eq!(press_cell(&mut c, 3, 3), None);
    assert!(!c.turn);

    // the second human presses the occupied cell (3, 3): rejected, the
    // turn does not change hands and the cell is not overwritten
    assert_eq!(press_cell(&mut c, 3, 3), None);
    assert!(!c.turn);
    assert_eq!(c.board.get((3, 3)), first_tile);

    // the same side may try again elsewhere and succeed
    assert_eq!(press_cell(&mut c, 4, 4), None);
    assert!(c.turn);
}

#[test]
fn both_automated_alternate_without_input() {
    let board = GoBoard::new(19);
    let mut c = Console::new(board, 1, (Player::Ia, Player::Ia), false);
    let first_tile = c.player.0.get_tile();
    let second_tile = c.friend.0.get_tile();

    // every tick fires the moving side's automated branch, never a human one
    assert_eq!(c.handle_event(GameEvent::Tick), None);
    assert!(!c.turn);
    assert_eq!(c.board.get((0, 0)), first_tile);

    assert_eq!(c.handle_event(GameEvent::Tick), None);
    assert!(c.turn);
    assert_eq!(c.board.get((0, 1)), second_tile);

    assert_eq!(c.handle_event(GameEvent::Tick), None);
    assert!(!c.turn);
    assert_eq!(c.board.get((0, 2)), first_tile);
}

#[test]
fn non_press_events_do_not_move_for_a_human() {
    let mut c: Console = Default::default();
    assert_eq!(c.handle_event(GameEvent::Tick), None);
    assert_eq!(c.handle_event(GameEvent::MouseMove(130, 130)), None);
    assert!(c.turn);
    assert_eq!(c.board.get((3, 3)), Tile::Free);
}

#[test]
fn dispatch_is_keyed_by_the_moving_side_only() {
    // all four mode pairs, first with the first side to move, then with
    // the second: the branch taken is the moving side's own mode
    for first_mode in [Player::Human, Player::Ia] {
        for second_mode in [Player::Human, Player::Ia] {
            let board = GoBoard::new(19);
            let mut c = Console::new(board, 1, (first_mode, second_mode), false);

            // the first side is to move
            c.handle_event(GameEvent::Tick);
            if first_mode == Player::Ia {
                assert!(!c.turn, "automated first side must move on a tick");
            } else {
                assert!(c.turn, "human first side must ignore a tick");
                assert_eq!(press_cell(&mut c, 9, 9), None);
                assert!(!c.turn);
            }

            // the second side is to move
            c.handle_event(GameEvent::Tick);
            if second_mode == Player::Ia {
                assert!(c.turn, "automated second side must move on a tick");
            } else {
                assert!(!c.turn, "human second side must ignore a tick");
                assert_eq!(press_cell(&mut c, 10, 10), None);
                assert!(c.turn);
            }
        }
    }
}

#[test]
fn fifth_stone_wins_and_freezes_the_session() {
    let board = GoBoard::new(19);
    let mut c = Console::new(board, 3, (Player::Human, Player::Human), false);
    let first_tile = c.player.0.get_tile();

    // the first side builds a horizontal row at y = 0, the second plays
    // far away at y = 10
    for x in 0..4 {
        assert_eq!(press_cell(&mut c, x, 0), None);
        assert_eq!(press_cell(&mut c, x, 10), None);
    }
    // the fifth stone of the row is reported as a win and latches it
    assert_eq!(press_cell(&mut c, 4, 0), Some(first_tile));
    assert!(c.win);

    // frozen: further presses place nothing and move no turn
    let turn_after_win = c.turn;
    assert_eq!(press_cell(&mut c, 9, 9), None);
    assert_eq!(c.board.get((9, 9)), Tile::Free);
    assert_eq!(c.turn, turn_after_win);
    assert!(c.win);
}

#[test]
fn resize_applies_even_after_a_win() {
    let board = GoBoard::new(19);
    let mut c = Console::new(board, 3, (Player::Human, Player::Human), false);
    for x in 0..4 {
        assert_eq!(press_cell(&mut c, x, 0), None);
        assert_eq!(press_cell(&mut c, x, 10), None);
    }
    assert!(press_cell(&mut c, 4, 0).is_some());
    assert!(c.win);

    // the viewport dimension still follows resize events
    assert_eq!(c.handle_event(GameEvent::Resize(380, 380)), None);
    assert_eq!(c.event.get_dimension(), (380, 380));

    // and render composition still runs: 20 pixels per cell now
    let plan = c.render_plan();
    assert_eq!(plan.cell_size, (20, 20));
}

#[test]
fn render_plan_composes_layers_in_order() {
    let mut c: Console = Default::default();
    let plan = c.render_plan();
    assert_eq!(plan.cell_size, (40, 40));
    assert!(!plan.help);
    assert_eq!(plan.hover, None);

    // once the pointer has tracked a cell, the hover layer appears
    assert_eq!(c.handle_event(GameEvent::MouseMove(130, 130)), None);
    let plan = c.render_plan();
    assert_eq!(plan.hover, Some((3, 3)));

    // the help overlay follows the construction flag
    let with_help = Console::new(GoBoard::new(19), 3, (Player::Human, Player::Ia), true);
    assert!(with_help.render_plan().help);
}

#[test]
fn pointer_outside_board_never_places() {
    let mut c: Console = Default::default();
    // (800, 800) is past the 760-pixel viewport: the tracked cell stays
    // (0, 0) and a press lands there instead of anywhere illegal
    assert_eq!(c.handle_event(GameEvent::MouseMove(800, 800)), None);
    assert_eq!(c.handle_event(GameEvent::Press), None);
    let player_tile = c.player.0.get_tile();
    assert_eq!(c.board.get((0, 0)), player_tile);
    assert!(!c.turn);
}
