//! Navigation meshes for platform levels.
//!
//! A [`Graph`] holds the standing positions of a level and, for every ordered
//! pair of them, the motion that leads from the first to the second, with
//! `Stop` for a pair that is not connected. [`get_level_mesh`] gives the
//! graph of a level of the game.
//!
//! Positions are fixed-point: a coordinate counts steps of which
//! [`STEPS_PER_UNIT`] make one world unit.
//!
//! The contracts speak of a graph through its view, the [`GraphView`] of
//! [`model`], where the laws of graphs are stated and proved.

pub mod error;
pub mod graph;
pub mod levels;
pub mod model;
pub mod motion;
pub mod vertex;

pub use error::GraphError;
pub use graph::Graph;
pub use levels::get_level_mesh;
pub use model::{GraphView, Link, MAX_VERT};
pub use motion::{Edge, Motion};
pub use vertex::{Vertex, STEPS_PER_UNIT, TILE_SIZE};
