//! Turn orchestration for a two-player grid wargame.
//!
//! The board, its legality rules and the adversarial search belong to an
//! engine that lives outside this library. The session here decides what the
//! engine is asked to do, records what it reports, counts moves and detects the
//! end of the game. Every transition is a plain function of the session and of
//! the engine's report, so each one carries an exact contract.
pub mod coord;
pub mod text;
pub mod heuristic;
pub mod options;
pub mod session;
pub mod render;

pub use coord::{Action, Dim, JsCoord, JsCoordPair};
pub use heuristic::{Heuristic, Heuristics, Term};
pub use options::GameOptions;
pub use session::{EngineReport, JsGame, MoveResult, Outcome, Player, SearchRequest};
