//! The session controller: configuration parsing, the turn-alternation
//! state machine, win latching, pointer re-anchoring and render
//! composition.

use vstd::prelude::*;
use crate::board::GoBoard;
use crate::board::GO_WIDTH;
use crate::board::Team;
use crate::board::Tile;
use crate::board::placed;
use crate::board::win_result;
use crate::ia::Decision;
use crate::ia::is_first_free;
use crate::mouse::Mouse;

verus! {

/// Pixel width of one board cell at the initial window size.
pub const CASE_WIDTH: u32 = 40;

/// How a side's moves are supplied: by a human operator or by the
/// automated decision engine.
#[derive(Debug, PartialEq, Eq, Structural, Clone, Copy)]
pub enum Player {
    Human,
    Ia,
}

/// Startup configuration failure: the control-mode token was not
/// recognized.
#[derive(Debug, PartialEq, Eq, Structural, Clone, Copy)]
pub enum ConfigError {
    UnknownControlToken,
}

impl Player {
    /// Parses a control-mode token: exactly "ia" and "human" are
    /// recognized; anything else is a fatal configuration error for the
    /// caller to act on.
    pub fn from_str(s: &str) -> (r: Result<Player, ConfigError>)
        ensures
            (r == Ok::<Player, ConfigError>(Player::Ia)) <==> s@ == "ia"@,
            (r == Ok::<Player, ConfigError>(Player::Human)) <==> s@ == "human"@,
            (r is Err) <==> (s@ != "ia"@ && s@ != "human"@),
    {
        proof {
            reveal_strlit("ia");
            reveal_strlit("human");
        }
        let n = s.unicode_len();
        if n == 2 && s.get_char(0) == 'i' && s.get_char(1) == 'a' {
            proof {
                assert(s@ =~= "ia"@);
            }
            Ok(Player::Ia)
        } else if n == 5 && s.get_char(0) == 'h' && s.get_char(1) == 'u' && s.get_char(2) == 'm'
            && s.get_char(3) == 'a' && s.get_char(4) == 'n' {
            proof {
                assert(s@ =~= "human"@);
            }
            Ok(Player::Human)
        } else {
            Err(ConfigError::UnknownControlToken)
        }
    }
}

/// The session controller: it owns the board and the pointer state, knows
/// which side is which, whose turn it is, and whether the session is
/// frozen by a win.
pub struct Console {
    pub board: GoBoard,
    pub event: Mouse,
    pub player: (Team, Player),
    pub friend: (Team, Player),
    pub layer: u32,
    pub turn: bool,
    pub win: bool,
    pub help: bool,
}

impl Console {
    /// A well-formed session: a well-formed board whose width fits the
    /// pixel arithmetic, two distinct sides, and a tracked pointer cell
    /// that lies on the board.
    pub open spec fn wf(self) -> bool {
        &&& self.board.wf()
        &&& self.board.size <= u32::MAX
        &&& self.player.0 != self.friend.0
        &&& (self.event.coordinate.0 as int) < self.board.size
        &&& (self.event.coordinate.1 as int) < self.board.size
    }

    /// The side whose move is expected now.
    pub open spec fn mover_team(self) -> Team {
        if self.turn {
            self.player.0
        } else {
            self.friend.0
        }
    }

    /// The control mode consulted for the next move: the moving side's
    /// own mode, never the opponent's.
    pub open spec fn mover_mode(self) -> Player {
        if self.turn {
            self.player.1
        } else {
            self.friend.1
        }
    }

    /// Builds a session around the given board: the first side moves
    /// first, nothing is won, and the pointer mapping starts from a
    /// viewport of `CASE_WIDTH` pixels per cell.
    pub fn new(board: GoBoard, layer: u32, players: (Player, Player), help: bool) -> (r: Console)
        requires
            board.wf(),
            40 * board.size <= u32::MAX,
        ensures
            r.wf(),
            r.board == board,
            r.player.1 == players.0,
            r.friend.1 == players.1,
            r.layer == layer,
            r.turn == true,
            r.win == false,
            r.help == help,
            r.event.dimension.0 == 40 * board.size,
            r.event.dimension.1 == 40 * board.size,
            r.event.coordinate == ((0u32, 0u32)),
            r.event.over == false,
    {
        let (player, friend) = players;
        let size: u32 = board.get_size() as u32;
        let teams = Team::new_teams();
        Console {
            board,
            event: Mouse::new((CASE_WIDTH * size, CASE_WIDTH * size)),
            player: (teams.0, player),
            friend: (teams.1, friend),
            turn: true,
            layer,
            win: false,
            help,
        }
    }
}

/// One human-move attempt: a press while the tracked cell is on the board
/// and free places the mover's marker there and flips the turn; any other
/// event leaves board and turn unchanged.
pub open spec fn human_rel(
    pre: Console,
    press: bool,
    team: Team,
    post_board: GoBoard,
    post_turn: bool,
) -> bool {
    let cx = pre.event.coordinate.0 as int;
    let cy = pre.event.coordinate.1 as int;
    if cx < pre.board.size && cy < pre.board.size && press {
        if pre.board.at(cx, cy) == Tile::Free {
            &&& placed(pre.board, post_board, cx, cy, team.spec_tile())
            &&& post_turn == !pre.turn
        } else {
            post_board == pre.board && post_turn == pre.turn
        }
    } else {
        post_board == pre.board && post_turn == pre.turn
    }
}

/// One automated move: the engine's cell (the first free one) receives the
/// mover's marker, unconditionally.
pub open spec fn engine_rel(
    pre_board: GoBoard,
    team: Team,
    post_board: GoBoard,
    x: int,
    y: int,
) -> bool {
    &&& is_first_free(pre_board, x, y)
    &&& placed(pre_board, post_board, x, y, team.spec_tile())
}

/// The turn dispatch: when the moving side is automated its move is always
/// applied and the turn always flips; otherwise the human attempt runs.
/// Either way the terminal check at the decided cell is reported.
pub open spec fn play_rel(
    pre: Console,
    press: bool,
    post_board: GoBoard,
    post_turn: bool,
    r: Option<Tile>,
) -> bool {
    if pre.mover_mode() == Player::Ia {
        exists|x: int, y: int|
            engine_rel(pre.board, pre.mover_team(), post_board, x, y) && post_turn == !pre.turn
                && r == win_result(post_board, x, y)
    } else {
        &&& human_rel(pre, press, pre.mover_team(), post_board, post_turn)
        &&& r == win_result(
            post_board,
            pre.event.coordinate.0 as int,
            pre.event.coordinate.1 as int,
        )
    }
}

impl Console {
    /// Applies a pre-validated placement for `team` and flips the turn:
    /// the trusted path for engine moves, with no legality re-check.
    fn set_raw(&mut self, coordinate: (u32, u32), team: &Team) -> (r: (u32, u32))
        requires
            old(self).wf(),
            old(self).board.in_bounds(coordinate.0 as int, coordinate.1 as int),
        ensures
            final(self).wf(),
            placed(
                old(self).board,
                final(self).board,
                coordinate.0 as int,
                coordinate.1 as int,
                team.spec_tile(),
            ),
            final(self).turn == !old(self).turn,
            final(self).event == old(self).event,
            final(self).player == old(self).player,
            final(self).friend == old(self).friend,
            final(self).layer == old(self).layer,
            final(self).win == old(self).win,
            final(self).help == old(self).help,
            r == coordinate,
    {
        let tile = team.get_tile();
        self.board.set_raw((coordinate.0 as usize, coordinate.1 as usize), tile);
        self.turn = !self.turn;
        coordinate
    }

    /// One human-move attempt from the tracked pointer cell: the turn
    /// flips only when a press landed on a free, on-board cell.
    fn set(&mut self, press: bool, team: &Team) -> (r: (u32, u32))
        requires
            old(self).wf(),
        ensures
            final(self).wf(),
            human_rel(*old(self), press, *team, final(self).board, final(self).turn),
            r == old(self).event.coordinate,
            final(self).event == old(self).event,
            final(self).player == old(self).player,
            final(self).friend == old(self).friend,
            final(self).layer == old(self).layer,
            final(self).win == old(self).win,
            final(self).help == old(self).help,
    {
        let (x, y) = self.event.get_coordinate();
        if (x as usize) < self.board.get_size() && (y as usize) < self.board.get_size() {
            if press {
                let accepted = self.board.set((x as usize, y as usize), team);
                if accepted {
                    self.turn = !self.turn;
                }
            }
        }
        (x, y)
    }

    /// Turn dispatch and move application: exactly one of the four
    /// (turn, mover-mode) actions runs, then the terminal check at the
    /// decided cell is reported.
    fn play(&mut self, press: bool) -> (r: Option<Tile>)
        requires
            old(self).wf(),
            old(self).mover_mode() == Player::Ia ==> old(self).board.spec_has_free(),
        ensures
            final(self).wf(),
            play_rel(*old(self), press, final(self).board, final(self).turn, r),
            final(self).event == old(self).event,
            final(self).player == old(self).player,
            final(self).friend == old(self).friend,
            final(self).layer == old(self).layer,
            final(self).win == old(self).win,
            final(self).help == old(self).help,
    {
        let (x, y): (u32, u32) = if self.turn && self.player.1 == Player::Ia {
            let team = self.player.0;
            let mv = Decision::get_optimal_move(
                &self.board,
                &(self.player.0, self.friend.0),
                self.player.0,
                self.layer,
            );
            self.set_raw((mv.0 as u32, mv.1 as u32), &team)
        } else if !self.turn && self.friend.1 == Player::Ia {
            let team = self.friend.0;
            let mv = Decision::get_optimal_move(
                &self.board,
                &(self.friend.0, self.player.0),
                self.friend.0,
                self.layer,
            );
            self.set_raw((mv.0 as u32, mv.1 as u32), &team)
        } else if self.turn {
            let team = self.player.0;
            self.set(press, &team)
        } else {
            let team = self.friend.0;
            self.set(press, &team)
        };
        let result = self.board.is_win(x as usize, y as usize);
        proof {
            if old(self).mover_mode() == Player::Ia {
                assert(engine_rel(
                    old(self).board,
                    old(self).mover_team(),
                    self.board,
                    x as int,
                    y as int,
                ));
            }
        }
        result
    }
}

/// One observable event of the windowing substrate, reduced to what the
/// controller reads from it.
#[derive(Clone, Copy, Debug, PartialEq, Eq, Structural)]
pub enum GameEvent {
    /// The viewport was resized to the given pixel dimensions.
    Resize(u32, u32),
    /// The pointer moved to the given raw pixel position.
    MouseMove(u32, u32),
    /// A pointer button was pressed.
    Press,
    /// Any other tick (render, update, keyboard): it carries no input of
    /// its own but still drives the dispatch.
    Tick,
}

/// The pointer state after one event: a resize re-anchors the viewport
/// unconditionally; pointer motion updates the tracked cell, but only
/// while nothing is won and only when the clamp accepts the position.
pub open spec fn mouse_after(pre: Console, e: GameEvent) -> Mouse {
    let m1 = match e {
        GameEvent::Resize(w, h) => Mouse {
            dimension: (w, h),
            coordinate: pre.event.coordinate,
            over: pre.event.over,
        },
        _ => pre.event,
    };
    if pre.win {
        m1
    } else {
        match e {
            GameEvent::MouseMove(px, py) => match m1.spec_clamp(
                (px, py),
                pre.board.size as u32,
            ) {
                Some(c) => Mouse { dimension: m1.dimension, coordinate: c, over: true },
                None => m1,
            },
            _ => m1,
        }
    }
}

/// The full controller step for one event: the pointer state advances as
/// `mouse_after` says; while nothing is won the turn dispatch runs and a
/// reported winner latches the win flag; once won, board and turn are
/// frozen. The result is the winner detected by this very step, if any.
pub open spec fn step_rel(pre: Console, e: GameEvent, post: Console, r: Option<Tile>) -> bool {
    let m = mouse_after(pre, e);
    &&& post.event == m
    &&& post.player == pre.player
    &&& post.friend == pre.friend
    &&& post.layer == pre.layer
    &&& post.help == pre.help
    &&& if pre.win {
        &&& post.board == pre.board
        &&& post.turn == pre.turn
        &&& post.win == true
        &&& r == None::<Tile>
    } else {
        let pre2 = (Console {
            board: pre.board,
            event: m,
            player: pre.player,
            friend: pre.friend,
            layer: pre.layer,
            turn: pre.turn,
            win: pre.win,
            help: pre.help,
        });
        &&& play_rel(pre2, e is Press, post.board, post.turn, r)
        &&& post.win == (r is Some)
    }
}

/// One frame's composition, in draw order: the board scaled to
/// `cell_size` first, then the help overlay when `help` is set, then the
/// hover marker at `hover` when the pointer has tracked a cell. Later
/// layers draw over earlier ones.
pub struct RenderPlan {
    pub cell_size: (u32, u32),
    pub help: bool,
    pub hover: Option<(u32, u32)>,
}

impl Console {
    /// Pixel size of one cell under the current viewport.
    fn get_size(&self) -> (r: (u32, u32))
        requires
            self.wf(),
        ensures
            r.0 == self.event.dimension.0 as int / self.board.size as int,
            r.1 == self.event.dimension.1 as int / self.board.size as int,
    {
        let size: u32 = self.board.get_size() as u32;
        let dimension = self.event.get_dimension();
        (dimension.0 / size, dimension.1 / size)
    }

    /// Drives one event through the controller: resize always re-anchors
    /// the pointer mapping; while nothing is won, pointer motion updates
    /// the tracked cell and the turn dispatch runs; a winner reported by
    /// the terminal check latches the session and is returned.
    pub fn handle_event(&mut self, e: GameEvent) -> (r: Option<Tile>)
        requires
            old(self).wf(),
            !old(self).win && old(self).mover_mode() == Player::Ia ==> old(
                self,
            ).board.spec_has_free(),
        ensures
            final(self).wf(),
            step_rel(*old(self), e, *final(self), r),
    {
        match e {
            GameEvent::Resize(w, h) => {
                self.event.set_dimension((w, h));
            },
            _ => {},
        }
        if !self.win {
            match e {
                GameEvent::MouseMove(px, py) => {
                    let limit: u32 = self.board.get_size() as u32;
                    match self.event.check_inside_window((px, py), limit) {
                        Some(c) => {
                            self.event.set_coordinate(c);
                        },
                        None => {},
                    }
                },
                _ => {},
            }
            let press = match e {
                GameEvent::Press => true,
                _ => false,
            };
            let result = self.play(press);
            match result {
                Some(t) => {
                    self.win = true;
                    Some(t)
                },
                None => None,
            }
        } else {
            None
        }
    }

    /// Read-only composition of the next frame; available in every state,
    /// won or not.
    pub fn render_plan(&self) -> (r: RenderPlan)
        requires
            self.wf(),
        ensures
            r.cell_size.0 == self.event.dimension.0 as int / self.board.size as int,
            r.cell_size.1 == self.event.dimension.1 as int / self.board.size as int,
            r.help == self.help,
            r.hover == (if self.event.over {
                Some(self.event.coordinate)
            } else {
                None::<(u32, u32)>
            }),
    {
        let cell_size = self.get_size();
        let hover = if self.event.get_over() {
            Some(self.event.get_coordinate())
        } else {
            None
        };
        RenderPlan { cell_size, help: self.help, hover }
    }
}

/// Turn alternation for a human mover: the turn flips exactly when a
/// press landed on a free, on-board tracked cell; a rejected or ignored
/// attempt changes neither the turn nor the board.
pub proof fn lemma_human_turn_alternation(
    pre: Console,
    press: bool,
    post_board: GoBoard,
    post_turn: bool,
    r: Option<Tile>,
)
    requires
        play_rel(pre, press, post_board, post_turn, r),
        pre.mover_mode() == Player::Human,
    ensures
        ({
            let cx = pre.event.coordinate.0 as int;
            let cy = pre.event.coordinate.1 as int;
            let accepted = press && cx < pre.board.size && cy < pre.board.size && pre.board.at(
                cx,
                cy,
            ) == Tile::Free;
            &&& accepted ==> post_turn == !pre.turn
            &&& !accepted ==> post_turn == pre.turn && post_board == pre.board
        }),
{
}

/// An automated mover always gets its move applied: the engine's cell is
/// placed and the turn flips, whatever the event was — never rejected.
pub proof fn lemma_automated_always_moves(
    pre: Console,
    press: bool,
    post_board: GoBoard,
    post_turn: bool,
    r: Option<Tile>,
)
    requires
        play_rel(pre, press, post_board, post_turn, r),
        pre.mover_mode() == Player::Ia,
    ensures
        post_turn == !pre.turn,
        exists|x: int, y: int| engine_rel(pre.board, pre.mover_team(), post_board, x, y),
{
    let (x, y): (int, int) = choose|x: int, y: int|
        engine_rel(pre.board, pre.mover_team(), post_board, x, y) && post_turn == !pre.turn
            && r == win_result(post_board, x, y);
    assert(engine_rel(pre.board, pre.mover_team(), post_board, x, y));
}

/// A step taken after a win is frozen: the board, the turn and the
/// latched flag are all unchanged and no new winner is reported; and any
/// step that reports a winner latches the flag.
pub proof fn lemma_win_freezes_step(pre: Console, e: GameEvent, post: Console, r: Option<Tile>)
    requires
        step_rel(pre, e, post, r),
    ensures
        pre.win ==> post.win && post.board == pre.board && post.turn == pre.turn && r == None::<
            Tile,
        >,
        r is Some ==> post.win,
{
}

/// A tracked pointer cell outside the board never reaches placement: the
/// human path leaves board and turn untouched on such a cell.
pub proof fn lemma_outside_pointer_ignored(
    pre: Console,
    press: bool,
    post_board: GoBoard,
    post_turn: bool,
    r: Option<Tile>,
)
    requires
        play_rel(pre, press, post_board, post_turn, r),
        pre.mover_mode() == Player::Human,
        pre.event.coordinate.0 as int >= pre.board.size || pre.event.coordinate.1 as int
            >= pre.board.size,
    ensures
        post_board == pre.board,
        post_turn == pre.turn,
{
}

/// A resize event re-anchors the pointer mapping to the new viewport in
/// every state — also after a win.
pub proof fn lemma_resize_always_applies(
    pre: Console,
    w: u32,
    h: u32,
    post: Console,
    r: Option<Tile>,
)
    requires
        step_rel(pre, GameEvent::Resize(w, h), post, r),
    ensures
        post.event.dimension == ((w, h)),
{
}

/// With both sides automated, the moving side's automated branch fires on
/// every step and the human path is never reached: the engine's cell is
/// placed and the turn flips each time.
pub proof fn lemma_both_automated(pre: Console, e: GameEvent, post: Console, r: Option<Tile>)
    requires
        step_rel(pre, e, post, r),
        !pre.win,
        pre.player.1 == Player::Ia,
        pre.friend.1 == Player::Ia,
    ensures
        post.turn == !pre.turn,
        exists|x: int, y: int| engine_rel(pre.board, pre.mover_team(), post.board, x, y),
{
    let m = mouse_after(pre, e);
    let pre2 = (Console {
        board: pre.board,
        event: m,
        player: pre.player,
        friend: pre.friend,
        layer: pre.layer,
        turn: pre.turn,
        win: pre.win,
        help: pre.help,
    });
    lemma_automated_always_moves(pre2, e is Press, post.board, post.turn, r);
    let (x, y): (int, int) = choose|x: int, y: int|
        engine_rel(pre2.board, pre2.mover_team(), post.board, x, y);
    assert(engine_rel(pre.board, pre.mover_team(), post.board, x, y));
}

/// Step k of a recorded session trace obeys the step relation.
pub open spec fn step_at(
    states: Seq<Console>,
    events: Seq<GameEvent>,
    results: Seq<Option<Tile>>,
    k: int,
) -> bool {
    step_rel(states[k], events[k], states[k + 1], results[k])
}

/// A chain of controller steps: one state more than events, one reported
/// result per event, every consecutive pair related by the step relation.
pub open spec fn trace_ok(
    states: Seq<Console>,
    events: Seq<GameEvent>,
    results: Seq<Option<Tile>>,
) -> bool {
    &&& states.len() == events.len() + 1
    &&& results.len() == events.len()
    &&& forall|k: int| 0 <= k < events.len() ==> step_at(states, events, results, k)
}

/// The event of step k is an accepted human move: a press while the cell
/// the pointer tracks (after this very event's own pointer update) is on
/// the board and free.
pub open spec fn human_accepts(pre: Console, e: GameEvent) -> bool {
    let m = mouse_after(pre, e);
    let cx = m.coordinate.0 as int;
    let cy = m.coordinate.1 as int;
    &&& e is Press
    &&& cx < pre.board.size
    &&& cy < pre.board.size
    &&& pre.board.at(cx, cy) == Tile::Free
}

/// How many of the steps i, ..., j - 1 of a trace accepted a human move.
pub open spec fn accepted_count(
    states: Seq<Console>,
    events: Seq<GameEvent>,
    i: int,
    j: int,
) -> int
    decreases j - i,
{
    if i >= j {
        0
    } else {
        accepted_count(states, events, i, j - 1) + if human_accepts(
            states[j - 1],
            events[j - 1],
        ) {
            1int
        } else {
            0int
        }
    }
}

/// Over any stretch of a session in which the moving side is always
/// human-controlled and nothing is won yet, the turn alternates exactly
/// once per accepted move and never changes on a rejected or ignored one:
/// after the stretch it stands where the parity of the accepted moves
/// puts it.
pub proof fn lemma_turn_alternates_per_accepted_move(
    states: Seq<Console>,
    events: Seq<GameEvent>,
    results: Seq<Option<Tile>>,
    i: int,
    j: int,
)
    requires
        trace_ok(states, events, results),
        0 <= i <= j < states.len(),
        forall|k: int|
            i <= k < j ==> !states[k].win && #[trigger] states[k].mover_mode() == Player::Human,
    ensures
        states[j].turn == (if accepted_count(states, events, i, j) % 2 == 0 {
            states[i].turn
        } else {
            !states[i].turn
        }),
    decreases j - i,
{
    if i < j {
        lemma_turn_alternates_per_accepted_move(states, events, results, i, j - 1);
        assert(step_at(states, events, results, j - 1));
        let pre = states[j - 1];
        let e = events[j - 1];
        let m = mouse_after(pre, e);
        let pre2 = (Console {
            board: pre.board,
            event: m,
            player: pre.player,
            friend: pre.friend,
            layer: pre.layer,
            turn: pre.turn,
            win: pre.win,
            help: pre.help,
        });
        assert(states[j - 1].mover_mode() == Player::Human);
        assert(pre2.mover_mode() == pre.mover_mode());
        lemma_human_turn_alternation(
            pre2,
            e is Press,
            states[j].board,
            states[j].turn,
            results[j - 1],
        );
    }
}

/// Once the win flag is set it stays set for the whole rest of a session
/// trace, and neither the board nor the turn ever changes again: no
/// further placement occurs after a win.
pub proof fn lemma_win_latched(
    states: Seq<Console>,
    events: Seq<GameEvent>,
    results: Seq<Option<Tile>>,
    i: int,
    j: int,
)
    requires
        trace_ok(states, events, results),
        0 <= i <= j < states.len(),
        states[i].win,
    ensures
        states[j].win,
        states[j].board == states[i].board,
        states[j].turn == states[i].turn,
    decreases j - i,
{
    if i < j {
        lemma_win_latched(states, events, results, i, j - 1);
        assert(step_at(states, events, results, j - 1));
        lemma_win_freezes_step(states[j - 1], events[j - 1], states[j], results[j - 1]);
    }
}

impl Default for Console {
    /// A ready-to-play session: the default board, a human first side, an
    /// automated second side, search depth three, help off.
    fn default() -> (r: Console)
        ensures
            r.wf(),
            r.board.size == GO_WIDTH,
            forall|x: int, y: int| r.board.in_bounds(x, y) ==> r.board.at(x, y) == Tile::Free,
            r.player.1 == Player::Human,
            r.friend.1 == Player::Ia,
            r.layer == 3,
            r.turn == true,
            r.win == false,
            r.help == false,
            r.event.dimension == ((760u32, 760u32)),
            r.event.coordinate == ((0u32, 0u32)),
            r.event.over == false,
    {
        let board: GoBoard = Default::default();
        let teams = Team::new_teams();
        let size: u32 = board.get_size() as u32;
        Console {
            board,
            event: Mouse::new((CASE_WIDTH * size, CASE_WIDTH * size)),
            player: (teams.0, Player::Human),
            friend: (teams.1, Player::Ia),
            layer: 3,
            turn: true,
            win: false,
            help: false,
        }
    }
}

} // verus!
