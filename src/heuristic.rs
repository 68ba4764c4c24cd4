//! Evaluation formulas for the search, built from named terms.
//!
//! A formula is a tree whose leaves are the engine's primitive terms and whose
//! inner nodes add, subtract or scale. The engine computes the value of each
//! leaf at a search node; `evaluate` then combines those values, with every
//! step checked against the range of `i64`.
use vstd::prelude::*;

verus! {

/// A primitive evaluation term, computed by the engine at a search node.
#[derive(Debug, Clone, Copy, PartialEq, Eq, Structural)]
pub enum Term {
    /// Unit health, weighted per unit type and biased toward one side.
    UnitsHealthWeightBias(i64, i64, i64),
    /// Distance of each side's units to its objective.
    AiDistance(i64, i64),
    /// The number of moves played so far.
    GameMoves,
}

/// A formula over terms, closed under `+`, `-` and scaling by a constant.
#[derive(Debug, PartialEq, Eq)]
pub enum Heuristic {
    Leaf(Term),
    Add(Box<Heuristic>, Box<Heuristic>),
    Sub(Box<Heuristic>, Box<Heuristic>),
    Scale(i64, Box<Heuristic>),
}

/// The formula used by each side.
#[derive(Debug, PartialEq, Eq)]
pub struct Heuristics {
    pub attacker: Heuristic,
    pub defender: Heuristic,
}

/// `v` as a checked `i64` result.
pub open spec fn checked(v: int) -> Option<int> {
    if i64::MIN <= v <= i64::MAX { Some(v) } else { None }
}

impl Heuristic {
    /// The leaves of the formula, left to right.
    pub open spec fn terms(self) -> Seq<Term>
        decreases self,
    {
        match self {
            Heuristic::Leaf(t) => seq![t],
            Heuristic::Add(a, b) => a.terms() + b.terms(),
            Heuristic::Sub(a, b) => a.terms() + b.terms(),
            Heuristic::Scale(_, a) => a.terms(),
        }
    }

    /// The value of the formula when its leaves, left to right, are worth
    /// `vals`; `None` where a step leaves the range of `i64`.
    pub open spec fn value(self, vals: Seq<i64>) -> Option<int>
        decreases self,
    {
        match self {
            Heuristic::Leaf(_) => Some(vals[0] as int),
            Heuristic::Add(a, b) => {
                let n = a.terms().len() as int;
                match (a.value(vals.take(n)), b.value(vals.skip(n))) {
                    (Some(x), Some(y)) => checked(x + y),
                    _ => None,
                }
            },
            Heuristic::Sub(a, b) => {
                let n = a.terms().len() as int;
                match (a.value(vals.take(n)), b.value(vals.skip(n))) {
                    (Some(x), Some(y)) => checked(x - y),
                    _ => None,
                }
            },
            Heuristic::Scale(k, a) => match a.value(vals) {
                Some(x) => checked(k * x),
                None => None,
            },
        }
    }

    pub fn units_health_weight_bias(health: i64, weight: i64, bias: i64) -> (r: Heuristic)
        ensures
            r == Heuristic::Leaf(Term::UnitsHealthWeightBias(health, weight, bias)),
    {
        Heuristic::Leaf(Term::UnitsHealthWeightBias(health, weight, bias))
    }

    pub fn ai_distance(near: i64, far: i64) -> (r: Heuristic)
        ensures
            r == Heuristic::Leaf(Term::AiDistance(near, far)),
    {
        Heuristic::Leaf(Term::AiDistance(near, far))
    }

    pub fn game_moves() -> (r: Heuristic)
        ensures
            r == Heuristic::Leaf(Term::GameMoves),
    {
        Heuristic::Leaf(Term::GameMoves)
    }

    pub fn plus(self, other: Heuristic) -> (r: Heuristic)
        ensures
            r == Heuristic::Add(Box::new(self), Box::new(other)),
    {
        Heuristic::Add(Box::new(self), Box::new(other))
    }

    pub fn minus(self, other: Heuristic) -> (r: Heuristic)
        ensures
            r == Heuristic::Sub(Box::new(self), Box::new(other)),
    {
        Heuristic::Sub(Box::new(self), Box::new(other))
    }

    pub fn scaled(self, k: i64) -> (r: Heuristic)
        ensures
            r == Heuristic::Scale(k, Box::new(self)),
    {
        Heuristic::Scale(k, Box::new(self))
    }

    /// A copy of the formula, equal to it node for node.
    pub fn duplicate(&self) -> (r: Heuristic)
        ensures
            r == *self,
        decreases self,
    {
        match self {
            Heuristic::Leaf(t) => Heuristic::Leaf(*t),
            Heuristic::Add(a, b) => Heuristic::Add(Box::new(a.duplicate()), Box::new(b.duplicate())),
            Heuristic::Sub(a, b) => Heuristic::Sub(Box::new(a.duplicate()), Box::new(b.duplicate())),
            Heuristic::Scale(k, a) => Heuristic::Scale(*k, Box::new(a.duplicate())),
        }
    }

    /// Appends the leaves of the formula, left to right, to `out`: the terms
    /// whose values `evaluate` expects.
    pub fn collect_terms(&self, out: &mut Vec<Term>)
        ensures
            final(out)@ == old(out)@ + self.terms(),
        decreases self,
    {
        match self {
            Heuristic::Leaf(t) => {
                out.push(*t);
                assert(final(out)@ =~= old(out)@ + self.terms());
            },
            Heuristic::Add(a, b) | Heuristic::Sub(a, b) => {
                a.collect_terms(out);
                b.collect_terms(out);
                assert(final(out)@ =~= old(out)@ + self.terms());
            },
            Heuristic::Scale(_, a) => a.collect_terms(out),
        }
    }

    /// The terms of the formula, left to right.
    pub fn term_list(&self) -> (r: Vec<Term>)
        ensures
            r@ == self.terms(),
    {
        let mut out: Vec<Term> = Vec::new();
        self.collect_terms(&mut out);
        assert(out@ =~= self.terms());
        out
    }
    /// Evaluates the formula on the leaf values `vals[start..]`, left to right.
    /// Returns the value (`None` where a step leaves the range of `i64`) and
    /// the index just past the last value used.
    pub fn evaluate_from(&self, vals: &Vec<i64>, start: usize) -> (r: (Option<i64>, usize))
        requires
            start + self.terms().len() <= vals@.len(),
        ensures
            r.1 == start + self.terms().len(),
            r.0.is_some() == self.value(vals@.subrange(start as int, r.1 as int)).is_some(),
            r.0.is_some() ==> self.value(vals@.subrange(start as int, r.1 as int)) == Some(
                r.0.unwrap() as int,
            ),
        decreases self,
    {
        match self {
            Heuristic::Leaf(t) => {
                assert(self.terms() == seq![*t]);
                let v = vals[start];
                assert(start < vals.len());
                (Some(v), start + 1)
            },
            Heuristic::Add(a, b) | Heuristic::Sub(a, b) => {
                let ghost sub = vals@.subrange(start as int, start + self.terms().len());
                let (x, mid) = a.evaluate_from(vals, start);
                let (y, end) = b.evaluate_from(vals, mid);
                proof {
                    let n = a.terms().len() as int;
                    assert(sub.take(n) =~= vals@.subrange(start as int, mid as int));
                    assert(sub.skip(n) =~= vals@.subrange(mid as int, end as int));
                }
                match (x, y) {
                    (Some(x), Some(y)) => {
                        let v = match self {
                            Heuristic::Add(_, _) => x.checked_add(y),
                            _ => x.checked_sub(y),
                        };
                        (v, end)
                    },
                    _ => (None, end),
                }
            },
            Heuristic::Scale(k, a) => {
                let (x, end) = a.evaluate_from(vals, start);
                match x {
                    Some(x) => (k.checked_mul(x), end),
                    None => (None, end),
                }
            },
        }
    }

    /// The value of the formula when its leaves are worth `vals`, in the order
    /// of `term_list`; `None` where a step leaves the range of `i64`.
    pub fn evaluate(&self, vals: &Vec<i64>) -> (r: Option<i64>)
        requires
            vals@.len() == self.terms().len(),
        ensures
            r.is_some() == self.value(vals@).is_some(),
            r.is_some() ==> self.value(vals@) == Some(r.unwrap() as int),
    {
        let (v, _) = self.evaluate_from(vals, 0);
        assert(vals@.subrange(0, vals@.len() as int) =~= vals@);
        v
    }
}

} // verus!
