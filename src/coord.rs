//! Board addresses and the actions that the engine issues.
use vstd::prelude::*;

verus! {

/// One board dimension: a row or a column index.
pub type Dim = u8;

/// A cell of the board, as a (row, column) pair.
#[derive(Debug, Clone, Copy, PartialEq, Eq, Structural)]
pub struct JsCoord {
    pub row: Dim,
    pub col: Dim,
}

/// A movement candidate: the cell a unit leaves and the cell it reaches.
#[derive(Debug, Clone, Copy, PartialEq, Eq, Structural)]
pub struct JsCoordPair {
    pub from: JsCoord,
    pub to: JsCoord,
}

/// A move chosen by the engine's search.
///
/// Most actions name the two cells involved; an action that touches no pair of
/// cells (a pass) is possible too and must be tolerated.
#[derive(Debug, Clone, Copy, PartialEq, Eq, Structural)]
pub enum Action {
    Move(JsCoordPair),
    Pass,
}

impl JsCoordPair {
    pub open spec fn from_dims_spec(from_row: Dim, from_col: Dim, to_row: Dim, to_col: Dim) -> JsCoordPair {
        JsCoordPair { from: JsCoord { row: from_row, col: from_col }, to: JsCoord { row: to_row, col: to_col } }
    }

    /// The pair built from four raw indices, as a host hands them over.
    pub fn from_dims(from_row: Dim, from_col: Dim, to_row: Dim, to_col: Dim) -> (r: JsCoordPair)
        ensures
            r == JsCoordPair::from_dims_spec(from_row, from_col, to_row, to_col),
    {
        JsCoordPair { from: JsCoord { row: from_row, col: from_col }, to: JsCoord { row: to_row, col: to_col } }
    }
}

impl Action {
    /// The cells that an action involves, where it involves a pair of them.
    pub open spec fn coord_pair(self) -> Option<JsCoordPair> {
        match self {
            Action::Move(p) => Some(p),
            Action::Pass => None,
        }
    }

    /// Decomposes the action into the cells it involves, for highlighting.
    pub fn into_coord_pair(self) -> (r: Option<JsCoordPair>)
        ensures
            r == self.coord_pair(),
    {
        match self {
            Action::Move(p) => Some(p),
            Action::Pass => None,
        }
    }
}

} // verus!
