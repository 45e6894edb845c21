//! Rules engine of a falling-block puzzle played in a three-dimensional well.
//!
//! The crate has three layers: the algebra of the 24 attitudes a piece can
//! take, the catalog of spatial shapes (one per piece variant and attitude),
//! and the playfield engine that moves, turns, drops and locks pieces and
//! clears full layers. Around them stand the queue that supplies the pieces,
//! with its notation, and one step of a search over game states.

pub mod axis;
pub mod bits;
pub mod polarity;
pub mod direction;
pub mod rotation;
pub mod orientation;
pub mod rotations;
pub mod tetromino;
pub mod bounding_box;
pub mod bitfield;
pub mod shape;
pub mod shape_id;
pub mod catalog;
pub mod turns;
pub mod layer;
pub mod action;
pub mod piece;
pub mod pattern;
pub mod queue;
pub mod parsing;
pub mod game_state;
pub mod brute_forcing;

pub use axis::Axis;
pub use direction::Direction;
pub use orientation::Orientation;
pub use polarity::Polarity;
pub use rotation::Rotation;
pub use rotations::{generate_rotations, rotate};
pub use bitfield::Bitfield;
pub use bounding_box::BoundingBox;
pub use tetromino::Tetromino;
pub use catalog::{generate_shapes, Catalog};
pub use shape::Shape;
pub use shape_id::ShapeId;
pub use action::Action;
pub use layer::Layer;
pub use pattern::Pattern;
pub use piece::Piece;
pub use queue::Queue;
pub use game_state::GameState;
pub use parsing::Parsing;
pub use brute_forcing::{children, should_explore};
