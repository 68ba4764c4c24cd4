//! The configuration of a session: search budgets, rule toggles and the
//! evaluation formulas of both sides.
use vstd::prelude::*;
use crate::heuristic::{Heuristic, Heuristics, Term};

verus! {

/// Depth bound of the baseline profile, in plies.
pub const DEFAULT_MAX_DEPTH: usize = 6;

/// Move cap of the baseline profile.
pub const DEFAULT_MAX_MOVES: usize = 150;

/// Time budget of the baseline profile per computer decision, in milliseconds.
pub const DEFAULT_MAX_MILLIS: u64 = 5000;

/// Search and rule parameters of a session. A session's options are replaced
/// as a whole: read them, change a copy, write the copy back.
#[derive(Debug, PartialEq, Eq)]
pub struct GameOptions {
    /// Bound on the search depth, in plies.
    pub max_depth: Option<usize>,
    /// Number of moves after which the game ends.
    pub max_moves: Option<usize>,
    /// Wall-clock budget of one computer decision, in milliseconds.
    pub max_millis: Option<u64>,
    /// Lower and raise the search depth to keep within the time budget.
    pub adjust_max_depth: bool,
    /// Visit candidate moves in random order.
    pub rand_traversal: bool,
    /// Cut off branches that cannot change the decision.
    pub pruning: bool,
    /// Rule toggle forwarded to the engine.
    pub mutual_damage: bool,
    /// Rule toggle forwarded to the engine.
    pub move_only_forward: bool,
    /// Ask the engine for its diagnostic output.
    pub debug: bool,
    pub heuristics: Heuristics,
}

/// Ten times the weighted health balance, plus the distance term, minus the
/// number of moves played.
pub open spec fn weighted_formula() -> Heuristic {
    Heuristic::Sub(
        Box::new(Heuristic::Add(
            Box::new(Heuristic::Scale(10, Box::new(Heuristic::Leaf(Term::UnitsHealthWeightBias(10, 10, 100))))),
            Box::new(Heuristic::Leaf(Term::AiDistance(2, 1))),
        )),
        Box::new(Heuristic::Leaf(Term::GameMoves)),
    )
}

/// The weighted formula, built from its terms.
pub fn weighted_heuristic() -> (r: Heuristic)
    ensures
        r == weighted_formula(),
{
    Heuristic::units_health_weight_bias(10, 10, 100).scaled(10).plus(Heuristic::ai_distance(2, 1)).minus(
        Heuristic::game_moves(),
    )
}

impl Heuristics {
    /// Both sides use `h`.
    pub open spec fn both(h: Heuristic) -> Heuristics {
        Heuristics { attacker: h, defender: h }
    }

    /// The first preset: the health balance alone, for both sides.
    pub open spec fn e1() -> Heuristics {
        Heuristics::both(Heuristic::Leaf(Term::UnitsHealthWeightBias(10, 10, 100)))
    }

    /// The second preset: the distance term alone, for both sides.
    pub open spec fn e2() -> Heuristics {
        Heuristics::both(Heuristic::Leaf(Term::AiDistance(2, 1)))
    }

    /// The combined preset: the weighted formula for both sides.
    pub open spec fn e3e4() -> Heuristics {
        Heuristics::both(weighted_formula())
    }

    /// A copy, equal to the original.
    pub fn duplicate(&self) -> (r: Heuristics)
        ensures
            r == *self,
    {
        Heuristics { attacker: self.attacker.duplicate(), defender: self.defender.duplicate() }
    }

    pub fn set_e1(&mut self)
        ensures
            *final(self) == Heuristics::e1(),
    {
        self.attacker = Heuristic::units_health_weight_bias(10, 10, 100);
        self.defender = Heuristic::units_health_weight_bias(10, 10, 100);
    }

    pub fn set_e2(&mut self)
        ensures
            *final(self) == Heuristics::e2(),
    {
        self.attacker = Heuristic::ai_distance(2, 1);
        self.defender = Heuristic::ai_distance(2, 1);
    }

    pub fn set_e3e4(&mut self)
        ensures
            *final(self) == Heuristics::e3e4(),
    {
        self.attacker = weighted_heuristic();
        self.defender = weighted_heuristic();
    }
}

impl GameOptions {
    /// Every bound that is set is positive.
    pub open spec fn wf(self) -> bool {
        &&& (self.max_depth matches Some(d) ==> d > 0)
        &&& (self.max_moves matches Some(m) ==> m > 0)
        &&& (self.max_millis matches Some(t) ==> t > 0)
    }

    /// The baseline profile.
    pub open spec fn baseline() -> GameOptions {
        GameOptions {
            max_depth: Some(DEFAULT_MAX_DEPTH),
            max_moves: Some(DEFAULT_MAX_MOVES),
            max_millis: Some(DEFAULT_MAX_MILLIS),
            adjust_max_depth: false,
            rand_traversal: false,
            pruning: true,
            mutual_damage: false,
            move_only_forward: false,
            debug: false,
            heuristics: Heuristics::e3e4(),
        }
    }

    /// The baseline profile: depth 6, 150 moves, five seconds per decision,
    /// pruning on, and the weighted formula for both sides.
    pub fn baseline_profile() -> (r: GameOptions)
        ensures
            r == GameOptions::baseline(),
            r.wf(),
    {
        GameOptions {
            max_depth: Some(DEFAULT_MAX_DEPTH),
            max_moves: Some(DEFAULT_MAX_MOVES),
            max_millis: Some(DEFAULT_MAX_MILLIS),
            adjust_max_depth: false,
            rand_traversal: false,
            pruning: true,
            mutual_damage: false,
            move_only_forward: false,
            debug: false,
            heuristics: Heuristics { attacker: weighted_heuristic(), defender: weighted_heuristic() },
        }
    }

    /// A copy, equal to the original field for field.
    pub fn duplicate(&self) -> (r: GameOptions)
        ensures
            r == *self,
    {
        GameOptions {
            max_depth: self.max_depth,
            max_moves: self.max_moves,
            max_millis: self.max_millis,
            adjust_max_depth: self.adjust_max_depth,
            rand_traversal: self.rand_traversal,
            pruning: self.pruning,
            mutual_damage: self.mutual_damage,
            move_only_forward: self.move_only_forward,
            debug: self.debug,
            heuristics: self.heuristics.duplicate(),
        }
    }
}

impl Default for GameOptions {
    fn default() -> (r: GameOptions)
        ensures
            r == GameOptions::baseline(),
    {
        GameOptions::baseline_profile()
    }
}

} // verus!
