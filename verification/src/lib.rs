//! A verified model of the Skewb twisty puzzle: its state representation,
//! the group of legal moves, and an iterative-deepening solver that finds a
//! move sequence from a scrambled state back to the solved state.

pub mod cube;
pub mod cycles;
pub mod normalized;
pub mod skewb;
pub mod solver;
pub mod unordered_pair;

pub use cube::Color;
pub use cube::Corner;
pub use cube::CornerPiece;
pub use cube::Center;
pub use cube::Orientation;
pub use normalized::Direction;
pub use normalized::Move;
pub use normalized::NormalizedSkewb;
pub use skewb::Skewb;
pub use unordered_pair::UnorderedPair;
