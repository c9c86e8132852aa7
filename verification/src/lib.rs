//! Scoring for ten-pin bowling: shot and frame values, cumulative scores with
//! strike and spare bonuses, and the best score a partly played game can reach.

pub mod frame;
pub mod game;
pub mod parse;
pub mod rules;
pub mod score;
pub mod score_provider;
pub mod text;
pub mod theorems;

pub use frame::Frame;
pub use game::{Game, GameView};
pub use parse::{parse_raw_score, parse_score};
pub use score::Score;
pub use score_provider::{ScoreProvider, TenPinScoreProvider};
