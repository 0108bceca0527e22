//! Game rules of a four-lane rhythm game: lanes and their keys, the scoreboard
//! with its combo, the playfield where notes fall toward the hit line, and the
//! flow between the start menu and play.

pub mod field;
pub mod flow;
pub mod lane;
pub mod score;

pub use field::{Playfield, Target};
pub use flow::{FlowAction, FlowEvent, GameState, Interaction};
pub use lane::Column;
pub use score::Scoreboard;
