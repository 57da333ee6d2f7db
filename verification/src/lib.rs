//! Movement core of a 2D side-scrolling platformer.
//!
//! The crate holds the simulation-side logic of the game: classifying ground
//! contact from shape-cast hits, turning the horizontal input axis into
//! velocity, the charge-based jump state machine (the "juice meter"),
//! fall-speed-dependent elasticity, and the one-shot conversion of level-grid
//! tile markers into static collision rectangles.
//!
//! Rendering, input devices, asset loading and the rigid-body solver are
//! external collaborators.  They hand this crate plain values (an axis sample,
//! jump edge events, shape-cast hits, tile grid coordinates) and consume the
//! position, velocity, facing and ground facts it produces.  All continuous
//! quantities are carried in signed fixed-point thousandths; see [`units`].

pub mod movement;
pub mod player;
pub mod tiles;
pub mod units;
