//! The session: a state machine that drives turns between a human and the
//! engine's search.
//!
//! The engine owns the board, decides legality and runs the search. A host
//! asks the session what to hand the engine (`computer_search`,
//! `human_move_request`), lets the engine work, and hands its report back
//! (`computer_play_turn`, `player_play_turn`). The session counts moves,
//! alternates players, adapts the search depth and detects the end of the
//! game.
use vstd::prelude::*;
use crate::coord::{Action, Dim, JsCoordPair};
use crate::heuristic::{Heuristic, Heuristics};
use crate::options::GameOptions;
use crate::render::{board_html, board_text, render_html_board, render_text_board, render_unit_table, table_html};
use crate::text::{coord_text, decimal, push_decimal};

verus! {

/// Shallowest depth the adaptive policy lowers the search to.
pub const MIN_ADAPTIVE_DEPTH: usize = 1;

/// Consecutive quick decisions after which the adaptive policy searches one
/// ply deeper.
pub const QUICK_TURNS_TO_DEEPEN: usize = 2;

#[derive(Debug, Clone, Copy, PartialEq, Eq, Structural)]
pub enum Player {
    Attacker,
    Defender,
}

/// Why a game is over.
#[derive(Debug, Clone, Copy, PartialEq, Eq, Structural)]
pub enum Outcome {
    Winner(Player),
    /// The side to move had no action.
    Deadlock,
    /// The move cap was reached.
    MoveLimitReached,
}

impl Player {
    /// The first player to move in a new session.
    pub open spec fn first() -> Player {
        Player::Attacker
    }

    pub open spec fn other(self) -> Player {
        match self {
            Player::Attacker => Player::Defender,
            Player::Defender => Player::Attacker,
        }
    }

    pub open spec fn name(self) -> Seq<char> {
        match self {
            Player::Attacker => "Attacker"@,
            Player::Defender => "Defender"@,
        }
    }

    pub fn next(self) -> (r: Player)
        ensures
            r == self.other(),
    {
        match self {
            Player::Attacker => Player::Defender,
            Player::Defender => Player::Attacker,
        }
    }

    pub fn name_string(self) -> (r: String)
        ensures
            r@ == self.name(),
    {
        match self {
            Player::Attacker => String::from_str("Attacker"),
            Player::Defender => String::from_str("Defender"),
        }
    }
}

/// What the host hands the engine for one computer decision.
#[derive(Debug, PartialEq, Eq)]
pub struct SearchRequest {
    pub player: Player,
    pub max_depth: Option<usize>,
    pub max_millis: Option<u64>,
    pub pruning: bool,
    pub rand_traversal: bool,
    pub heuristic: Heuristic,
}

/// What the engine reports after it applied a move.
#[derive(Debug, Clone, PartialEq, Eq)]
pub struct EngineReport {
    /// The engine's description of the turn.
    pub description: String,
    /// The winner, where the move ended the game.
    pub winner: Option<Player>,
}

/// The result of a computer turn: the cells involved, for highlighting, and
/// the description of the turn.
#[derive(Debug, Clone, PartialEq, Eq)]
pub struct MoveResult {
    pub coords: Option<JsCoordPair>,
    pub string: String,
}

/// One game session.
#[derive(Debug, PartialEq, Eq)]
pub struct JsGame {
    options: GameOptions,
    player: Player,
    moves: usize,
    outcome: Option<Outcome>,
    depth: Option<usize>,
    quick_turns: usize,
}

/// What a session holds, as mathematical values.
pub ghost struct SessionState {
    /// The active options.
    pub options: GameOptions,
    /// The side to move.
    pub player: Player,
    /// Moves played so far.
    pub moves: nat,
    /// Why the game is over; `None` while it goes on.
    pub outcome: Option<Outcome>,
    /// The depth bound of the next computer decision.
    pub depth: Option<usize>,
    /// Consecutive quick decisions since the depth last changed.
    pub quick_turns: nat,
}

impl View for JsGame {
    type V = SessionState;

    closed spec fn view(&self) -> SessionState {
        SessionState {
            options: self.options,
            player: self.player,
            moves: self.moves as nat,
            outcome: self.outcome,
            depth: self.depth,
            quick_turns: self.quick_turns as nat,
        }
    }
}

/// The game state after a move has been played at move count `moves`, given
/// the winner that the engine reports.
pub open spec fn end_check(winner: Option<Player>, moves: nat, max_moves: Option<usize>) -> Option<Outcome> {
    match winner {
        Some(p) => Some(Outcome::Winner(p)),
        None => match max_moves {
            Some(m) if moves >= m => Some(Outcome::MoveLimitReached),
            _ => None,
        },
    }
}

/// `elapsed` took more than nine tenths of the budget.
pub open spec fn is_slow(elapsed: u64, budget: u64) -> bool {
    elapsed * 10 > budget * 9
}

/// `elapsed` took at most half of the budget.
pub open spec fn is_quick(elapsed: u64, budget: u64) -> bool {
    elapsed * 2 <= budget
}

impl SessionState {
    /// The options are valid and the search depth lies between the adaptive
    /// minimum and the configured bound.
    pub open spec fn wf(self) -> bool {
        &&& self.options.wf()
        &&& match self.options.max_depth {
            None => self.depth is None,
            Some(m) => self.depth matches Some(d) && MIN_ADAPTIVE_DEPTH <= d <= m,
        }
    }

    /// A new session over `options`.
    pub open spec fn initial(options: GameOptions) -> SessionState {
        SessionState {
            options,
            player: Player::first(),
            moves: 0,
            outcome: None,
            depth: options.max_depth,
            quick_turns: 0,
        }
    }

    /// The session with its options replaced by `options`; the adaptive depth
    /// starts again from the new bound.
    pub open spec fn with_options(self, options: GameOptions) -> SessionState {
        SessionState { options, depth: options.max_depth, quick_turns: 0, ..self }
    }

    /// The session after one move was applied, with the winner the engine
    /// reports.
    pub open spec fn record_move(self, winner: Option<Player>) -> SessionState {
        SessionState {
            moves: self.moves + 1,
            player: self.player.other(),
            outcome: end_check(winner, self.moves + 1, self.options.max_moves),
            ..self
        }
    }

    /// The session after a computer decision that took `elapsed`
    /// milliseconds: the depth is lowered after a slow decision and raised
    /// after a run of quick ones.
    pub open spec fn adapt(self, elapsed: u64) -> SessionState {
        match (self.options.adjust_max_depth, self.options.max_depth, self.options.max_millis, self.depth) {
            (true, Some(m), Some(t), Some(d)) => if is_slow(elapsed, t) {
                SessionState {
                    depth: Some(if d > MIN_ADAPTIVE_DEPTH { (d - 1) as usize } else { d }),
                    quick_turns: 0,
                    ..self
                }
            } else if is_quick(elapsed, t) && d < m {
                if self.quick_turns + 1 >= QUICK_TURNS_TO_DEEPEN {
                    SessionState { depth: Some((d + 1) as usize), quick_turns: 0, ..self }
                } else {
                    SessionState { quick_turns: self.quick_turns + 1, ..self }
                }
            } else {
                SessionState { quick_turns: 0, ..self }
            },
            _ => self,
        }
    }

    /// The session after the engine's search proposed `action` in `elapsed`
    /// milliseconds and, where there was one, applied it with the reported
    /// `winner`. No action means a deadlock. A finished game stays as it is.
    pub open spec fn after_computer_turn(self, action: Option<Action>, elapsed: u64, winner: Option<Player>) -> SessionState {
        if self.outcome is Some {
            self
        } else {
            let s = self.adapt(elapsed);
            match action {
                None => SessionState { outcome: Some(Outcome::Deadlock), ..s },
                Some(_) => s.record_move(winner),
            }
        }
    }

    /// The session after the engine judged a human move: accepted with a
    /// report, or rejected. A rejected move, or a move in a finished game,
    /// changes nothing.
    pub open spec fn after_human_turn(self, verdict: Option<EngineReport>) -> SessionState {
        match verdict {
            Some(r) if self.outcome is None => self.record_move(r.winner),
            _ => self,
        }
    }

    /// The line that tells how the game stands.
    pub open spec fn status_text(self) -> Seq<char> {
        match self.outcome {
            None => "Next player: "@ + self.player.name() + "\n"@,
            Some(Outcome::Winner(p)) => winner_text(p, self.moves) + "\n"@,
            Some(Outcome::Deadlock) => "Game over: no action available\n"@,
            Some(Outcome::MoveLimitReached) => "Game over: move limit reached\n"@,
        }
    }

    /// The information panel: moves played, then how the game stands.
    pub open spec fn info_text(self) -> Seq<char> {
        "Moves played: "@ + decimal(self.moves) + "\n"@ + self.status_text()
    }
}

impl JsGame {
    /// A new session over the baseline profile, with debug output on.
    pub fn new() -> (r: JsGame)
        ensures
            r@ == SessionState::initial(GameOptions { debug: true, ..GameOptions::baseline() }),
            r@.wf(),
    {
        let mut options = GameOptions::baseline_profile();
        options.debug = true;
        JsGame::from_options(options)
    }

    /// A new session over `options`: the attacker moves first, no move has
    /// been played, and the game is not over.
    pub fn from_options(options: GameOptions) -> (r: JsGame)
        requires
            options.wf(),
        ensures
            r@ == SessionState::initial(options),
            r@.wf(),
            r@.options == options,
            r@.player == Player::first(),
            r@.moves == 0,
            r@.outcome is None,
    {
        let depth = options.max_depth;
        JsGame { options, player: Player::Attacker, moves: 0, outcome: None, depth, quick_turns: 0 }
    }

    /// A copy of the active options.
    pub fn options(&self) -> (r: GameOptions)
        ensures
            r == self@.options,
    {
        self.options.duplicate()
    }

    /// Replaces the options as a whole; they govern the next turn on.
    pub fn set_options(&mut self, options: GameOptions)
        requires
            old(self)@.wf(),
            options.wf(),
        ensures
            final(self)@ == old(self)@.with_options(options),
            final(self)@.wf(),
    {
        self.depth = options.max_depth;
        self.quick_turns = 0;
        self.options = options;
    }

    /// Moves played so far.
    pub fn moves_played(&self) -> (r: usize)
        ensures
            r == self@.moves,
    {
        self.moves
    }

    /// The side to move.
    pub fn next_player(&self) -> (r: Player)
        ensures
            r == self@.player,
    {
        self.player
    }

    /// Why the game is over; `None` while it goes on.
    pub fn end_result(&self) -> (r: Option<Outcome>)
        ensures
            r == self@.outcome,
    {
        self.outcome
    }

    /// The depth bound of the next computer decision.
    pub fn current_depth(&self) -> (r: Option<usize>)
        ensures
            r == self@.depth,
    {
        self.depth
    }
}

impl JsGame {
    /// Turns the adaptive depth policy on or off.
    pub fn auto_adjust_max_depth(&mut self, auto: bool)
        requires
            old(self)@.wf(),
        ensures
            final(self)@ == old(self)@.with_options(GameOptions { adjust_max_depth: auto, ..old(self)@.options }),
            final(self)@.wf(),
    {
        let mut options = self.options();
        options.adjust_max_depth = auto;
        self.set_options(options);
    }

    /// Bounds the search depth to `max_depth` plies.
    pub fn set_max_depth(&mut self, max_depth: usize)
        requires
            old(self)@.wf(),
            max_depth > 0,
        ensures
            final(self)@ == old(self)@.with_options(GameOptions { max_depth: Some(max_depth), ..old(self)@.options }),
            final(self)@.wf(),
    {
        let mut options = self.options();
        options.max_depth = Some(max_depth);
        self.set_options(options);
    }

    /// Ends the game after `max_moves` moves.
    pub fn set_max_moves(&mut self, max_moves: usize)
        requires
            old(self)@.wf(),
            max_moves > 0,
        ensures
            final(self)@ == old(self)@.with_options(GameOptions { max_moves: Some(max_moves), ..old(self)@.options }),
            final(self)@.wf(),
    {
        let mut options = self.options();
        options.max_moves = Some(max_moves);
        self.set_options(options);
    }

    /// Gives each computer decision a budget of `max_millis` milliseconds.
    pub fn set_max_seconds(&mut self, max_millis: u64)
        requires
            old(self)@.wf(),
            max_millis > 0,
        ensures
            final(self)@ == old(self)@.with_options(GameOptions { max_millis: Some(max_millis), ..old(self)@.options }),
            final(self)@.wf(),
    {
        let mut options = self.options();
        options.max_millis = Some(max_millis);
        self.set_options(options);
    }

    /// Turns random move ordering on or off.
    pub fn set_rand_traversal(&mut self, rand_traversal: bool)
        requires
            old(self)@.wf(),
        ensures
            final(self)@ == old(self)@.with_options(GameOptions { rand_traversal: rand_traversal, ..old(self)@.options }),
            final(self)@.wf(),
    {
        let mut options = self.options();
        options.rand_traversal = rand_traversal;
        self.set_options(options);
    }

    /// Turns alpha-beta pruning on or off.
    pub fn set_alpha_beta(&mut self, alpha_beta: bool)
        requires
            old(self)@.wf(),
        ensures
            final(self)@ == old(self)@.with_options(GameOptions { pruning: alpha_beta, ..old(self)@.options }),
            final(self)@.wf(),
    {
        let mut options = self.options();
        options.pruning = alpha_beta;
        self.set_options(options);
    }

    /// Selects the `e1` preset for both sides.
    pub fn set_heuristics_e1(&mut self)
        requires
            old(self)@.wf(),
        ensures
            final(self)@ == old(self)@.with_options(GameOptions { heuristics: Heuristics::e1(), ..old(self)@.options }),
            final(self)@.wf(),
    {
        let mut options = self.options();
        options.heuristics.set_e1();
        self.set_options(options);
    }

    /// Selects the `e2` preset for both sides.
    pub fn set_heuristics_e2(&mut self)
        requires
            old(self)@.wf(),
        ensures
            final(self)@ == old(self)@.with_options(GameOptions { heuristics: Heuristics::e2(), ..old(self)@.options }),
            final(self)@.wf(),
    {
        let mut options = self.options();
        options.heuristics.set_e2();
        self.set_options(options);
    }

    /// Selects the `e3e4` preset for both sides.
    pub fn set_heuristics_e3e4(&mut self)
        requires
            old(self)@.wf(),
        ensures
            final(self)@ == old(self)@.with_options(GameOptions { heuristics: Heuristics::e3e4(), ..old(self)@.options }),
            final(self)@.wf(),
    {
        let mut options = self.options();
        options.heuristics.set_e3e4();
        self.set_options(options);
    }
}

/// The announcement of a win by `p` after `moves` moves.
pub open spec fn winner_text(p: Player, moves: nat) -> Seq<char> {
    p.name() + " wins in "@ + decimal(moves) + " moves!"@
}

impl JsGame {
    /// What to hand the engine for the next computer decision; `None` once
    /// the game is over.
    pub fn computer_search(&self) -> (r: Option<SearchRequest>)
        ensures
            r is None <==> self@.outcome is Some,
            r matches Some(q) ==> {
                &&& q.player == self@.player
                &&& q.max_depth == self@.depth
                &&& q.max_millis == self@.options.max_millis
                &&& q.pruning == self@.options.pruning
                &&& q.rand_traversal == self@.options.rand_traversal
                &&& q.heuristic == match self@.player {
                    Player::Attacker => self@.options.heuristics.attacker,
                    Player::Defender => self@.options.heuristics.defender,
                }
            },
    {
        if self.outcome.is_some() {
            return None;
        }
        let heuristic = match self.player {
            Player::Attacker => self.options.heuristics.attacker.duplicate(),
            Player::Defender => self.options.heuristics.defender.duplicate(),
        };
        Some(
            SearchRequest {
                player: self.player,
                max_depth: self.depth,
                max_millis: self.options.max_millis,
                pruning: self.options.pruning,
                rand_traversal: self.options.rand_traversal,
                heuristic,
            },
        )
    }

    fn adapt_depth(&mut self, elapsed: u64)
        requires
            old(self)@.wf(),
        ensures
            final(self)@ == old(self)@.adapt(elapsed),
            final(self)@.wf(),
    {
        if !self.options.adjust_max_depth {
            return;
        }
        match (self.options.max_depth, self.options.max_millis, self.depth) {
            (Some(m), Some(t), Some(d)) => {
                let slow = (elapsed as u128) * 10 > (t as u128) * 9;
                let quick = (elapsed as u128) * 2 <= t as u128;
                if slow {
                    if d > MIN_ADAPTIVE_DEPTH {
                        self.depth = Some(d - 1);
                    }
                    self.quick_turns = 0;
                } else if quick && d < m {
                    if self.quick_turns >= QUICK_TURNS_TO_DEEPEN - 1 {
                        self.depth = Some(d + 1);
                        self.quick_turns = 0;
                    } else {
                        self.quick_turns = self.quick_turns + 1;
                    }
                } else {
                    self.quick_turns = 0;
                }
            },
            _ => {},
        }
    }

    fn record(&mut self, winner: Option<Player>)
        requires
            old(self)@.wf(),
            old(self)@.moves < usize::MAX,
        ensures
            final(self)@ == old(self)@.record_move(winner),
            final(self)@.wf(),
    {
        let moves = self.moves + 1;
        self.moves = moves;
        self.player = self.player.next();
        self.outcome = match winner {
            Some(p) => Some(Outcome::Winner(p)),
            None => match self.options.max_moves {
                Some(m) => if moves >= m {
                    Some(Outcome::MoveLimitReached)
                } else {
                    None
                },
                None => None,
            },
        };
    }

    /// Records a computer decision: the engine's search proposed `suggested`
    /// in `elapsed_millis` milliseconds and, where it proposed an action,
    /// applied it and reported on it in `report`.
    ///
    /// With no action the game ends in a deadlock and no move is counted.
    /// With one, the move is counted, the turn passes and the end of the game
    /// is checked. A finished game stays as it is, and the result then holds
    /// neither cells nor text.
    pub fn computer_play_turn(&mut self, suggested: Option<Action>, elapsed_millis: u64, report: EngineReport) -> (r: MoveResult)
        requires
            old(self)@.wf(),
            old(self)@.moves < usize::MAX,
        ensures
            final(self)@ == old(self)@.after_computer_turn(suggested, elapsed_millis, report.winner),
            final(self)@.wf(),
            r.coords == (if old(self)@.outcome is None {
                match suggested {
                    Some(a) => a.coord_pair(),
                    None => None,
                }
            } else {
                None
            }),
            r.string@ == (if old(self)@.outcome is None { report.description@ } else { Seq::empty() }),
    {
        if self.outcome.is_some() {
            return MoveResult { coords: None, string: String::new() };
        }
        self.adapt_depth(elapsed_millis);
        match suggested {
            None => {
                self.outcome = Some(Outcome::Deadlock);
                MoveResult { coords: None, string: report.description }
            },
            Some(action) => {
                self.record(report.winner);
                MoveResult { coords: action.into_coord_pair(), string: report.description }
            },
        }
    }

    /// The cells of a human move to hand the engine; `None` once the game is
    /// over.
    pub fn human_move_request(&self, from_row: Dim, from_col: Dim, to_row: Dim, to_col: Dim) -> (r: Option<JsCoordPair>)
        ensures
            r is None <==> self@.outcome is Some,
            r matches Some(p) ==> p == JsCoordPair::from_dims_spec(from_row, from_col, to_row, to_col),
    {
        if self.outcome.is_some() {
            None
        } else {
            Some(JsCoordPair::from_dims(from_row, from_col, to_row, to_col))
        }
    }

    /// Records the engine's verdict on a human move: `Some` with its report
    /// where it accepted and applied the move, `None` where it rejected it.
    ///
    /// An accepted move is counted, the turn passes and the end of the game is
    /// checked; the result is the engine's description. A rejected move, or
    /// one in a finished game, changes nothing and yields `None`.
    pub fn player_play_turn(&mut self, verdict: Option<EngineReport>) -> (r: Option<String>)
        requires
            old(self)@.wf(),
            old(self)@.moves < usize::MAX,
        ensures
            final(self)@ == old(self)@.after_human_turn(verdict),
            final(self)@.wf(),
            r is Some <==> (verdict is Some && old(self)@.outcome is None),
            r matches Some(d) ==> d@ == verdict->Some_0.description@,
    {
        if self.outcome.is_some() {
            return None;
        }
        match verdict {
            None => None,
            Some(report) => {
                self.record(report.winner);
                Some(report.description)
            },
        }
    }

    /// The announcement of the winner, once there is one.
    pub fn has_winner(&self) -> (r: Option<String>)
        ensures
            r is Some <==> self@.outcome matches Some(Outcome::Winner(_)),
            r matches Some(t) ==> t@ == winner_text(self@.outcome->Some_0->Winner_0, self@.moves),
    {
        match self.outcome {
            Some(Outcome::Winner(p)) => {
                let mut s = p.name_string();
                s.append(" wins in ");
                push_decimal(&mut s, self.moves);
                s.append(" moves!");
                Some(s)
            },
            _ => None,
        }
    }

    /// Writes a cell as the host shows it: row letter, then column number.
    pub fn display_coord(from_row: Dim, from_col: Dim) -> (r: String)
        ensures
            r@ == coord_text(crate::coord::JsCoord { row: from_row, col: from_col }),
    {
        crate::text::coord_string(from_row, from_col)
    }
}

impl JsGame {
    /// Renders the information panel.
    pub fn info_string(&self) -> (r: String)
        ensures
            r@ == self@.info_text(),
    {
        let mut s = String::from_str("Moves played: ");
        push_decimal(&mut s, self.moves);
        s.append("\n");
        match self.outcome {
            None => {
                s.append("Next player: ");
                s.append(self.player.name_string().as_str());
                s.append("\n");
            },
            Some(Outcome::Winner(p)) => {
                s.append(p.name_string().as_str());
                s.append(" wins in ");
                push_decimal(&mut s, self.moves);
                s.append(" moves!");
                s.append("\n");
            },
            Some(Outcome::Deadlock) => s.append("Game over: no action available\n"),
            Some(Outcome::MoveLimitReached) => s.append("Game over: move limit reached\n"),
        }
        assert(s@ =~= self@.info_text());
        s
    }
}

impl JsGame {
    /// Renders the engine's board as text, one line per row.
    pub fn text_board_string(board: &Vec<Vec<String>>) -> (r: String)
        ensures
            r@ == board_text(board@, board@.len()),
    {
        render_text_board(board)
    }

    /// Renders the engine's board as an HTML table with the caller's class,
    /// id and click handler, embedded as given.
    pub fn html_board_string(board: &Vec<Vec<String>>, css_class: &str, id: &str, fn_click: &str) -> (r: String)
        ensures
            r@ == board_html(board@, css_class@, id@, fn_click@),
    {
        render_html_board(board, css_class, id, fn_click)
    }

    /// Renders the engine's damage table: what each unit type inflicts on
    /// each other one.
    pub fn damage_table_string(legend: &str, unit_names: &Vec<String>, damage: &Vec<Vec<usize>>) -> (r: String)
        ensures
            r@ == table_html(legend@, unit_names@, damage@),
    {
        render_unit_table(legend, unit_names, damage)
    }

    /// Renders the engine's repair table: what each unit type restores to
    /// each other one.
    pub fn repair_table_string(legend: &str, unit_names: &Vec<String>, repair: &Vec<Vec<usize>>) -> (r: String)
        ensures
            r@ == table_html(legend@, unit_names@, repair@),
    {
        render_unit_table(legend, unit_names, repair)
    }
}

impl Default for JsGame {
    fn default() -> (r: JsGame)
        ensures
            r@ == SessionState::initial(GameOptions { debug: true, ..GameOptions::baseline() }),
            r@.wf(),
    {
        JsGame::new()
    }
}

/// Options written with `set_options` are exactly the options read back by
/// `options`, and the session stays well formed.
pub proof fn lemma_options_round_trip(s: SessionState, o: GameOptions)
    requires
        s.wf(),
        o.wf(),
    ensures
        s.with_options(o).options == o,
        s.with_options(o).wf(),
{
}

/// When the search finds no action, the game ends in a deadlock and the move
/// count stays as it was.
pub proof fn lemma_no_action_is_deadlock(s: SessionState, elapsed: u64, winner: Option<Player>)
    requires
        s.outcome is None,
    ensures
        s.after_computer_turn(None, elapsed, winner).outcome == Some(Outcome::Deadlock),
        s.after_computer_turn(None, elapsed, winner).moves == s.moves,
{
}

/// A human move that the engine rejects changes nothing: the move count, the
/// side to move and the outcome are kept.
pub proof fn lemma_rejected_move_changes_nothing(s: SessionState)
    ensures
        s.after_human_turn(None) == s,
        s.after_human_turn(None).moves == s.moves,
{
}

/// Every applied move, computer or human, adds exactly one to the move count
/// and passes the turn.
pub proof fn lemma_applied_move_counts_one(s: SessionState, a: Action, elapsed: u64, report: EngineReport)
    requires
        s.outcome is None,
    ensures
        s.after_computer_turn(Some(a), elapsed, report.winner).moves == s.moves + 1,
        s.after_computer_turn(Some(a), elapsed, report.winner).player == s.player.other(),
        s.after_human_turn(Some(report)).moves == s.moves + 1,
        s.after_human_turn(Some(report)).player == s.player.other(),
{
}

/// A finished game stays finished: no later turn changes the session.
pub proof fn lemma_outcome_is_final(
    s: SessionState,
    action: Option<Action>,
    elapsed: u64,
    winner: Option<Player>,
    verdict: Option<EngineReport>,
)
    requires
        s.outcome is Some,
    ensures
        s.after_computer_turn(action, elapsed, winner) == s,
        s.after_human_turn(verdict) == s,
{
}

/// The move count never decreases, and no turn adds more than one to it.
pub proof fn lemma_move_count_monotone(
    s: SessionState,
    action: Option<Action>,
    elapsed: u64,
    winner: Option<Player>,
    verdict: Option<EngineReport>,
)
    ensures
        s.moves <= s.after_computer_turn(action, elapsed, winner).moves <= s.moves + 1,
        s.moves <= s.after_human_turn(verdict).moves <= s.moves + 1,
{
}

/// Every turn keeps the session well formed: the search depth stays between
/// the adaptive minimum and the configured bound.
pub proof fn lemma_turns_keep_wf(
    s: SessionState,
    action: Option<Action>,
    elapsed: u64,
    winner: Option<Player>,
    verdict: Option<EngineReport>,
)
    requires
        s.wf(),
    ensures
        s.after_computer_turn(action, elapsed, winner).wf(),
        s.after_human_turn(verdict).wf(),
{
}

/// With the adaptive policy on, a decision that takes over nine tenths of the
/// budget lowers the depth by one, down to the minimum.
pub proof fn lemma_slow_decision_lowers_depth(s: SessionState, elapsed: u64)
    requires
        s.wf(),
        s.options.adjust_max_depth,
        s.options.max_millis matches Some(t) && is_slow(elapsed, t),
        s.depth matches Some(d) && d > MIN_ADAPTIVE_DEPTH,
    ensures
        s.adapt(elapsed).depth == Some((s.depth->Some_0 - 1) as usize),
{
}

/// After any change of depth, the next decision leaves the depth where it is
/// or lowers it: the depth never rises on two turns in a row, nor right after
/// it fell.
pub proof fn lemma_no_raise_right_after_change(s: SessionState, first: u64, second: u64)
    requires
        s.wf(),
        s.adapt(first).depth != s.depth,
    ensures
        s.adapt(first).adapt(second).depth->Some_0 <= s.adapt(first).depth->Some_0,
{
}

/// The information panel depends on the session's state alone, so rendering
/// it twice without a move in between yields the same text.
pub proof fn lemma_rendering_is_deterministic(g: JsGame, h: JsGame)
    requires
        g@ == h@,
    ensures
        g@.info_text() == h@.info_text(),
{
}

} // verus!
