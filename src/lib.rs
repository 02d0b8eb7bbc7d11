//! A population of bubbles drifting inside a rectangular viewport centred at
//! the origin: they move at constant velocity, bounce off the border, and a
//! bubble that touches another one is respawned with fresh random state.
//!
//! All lengths are integer units (the caller picks the scale, for instance
//! hundredths of a pixel); velocities are units per time unit.
pub mod model;
pub mod overlap;
pub mod spawn;
pub mod world;

pub use model::{BubbleBundle, Config, OverlapTest, Point, Velocity, Viewport};
pub use overlap::{boxes_overlap, circles_overlap, lemma_overlap_symmetric, overlaps};
pub use spawn::{centre_bounds, placement_bounds, respawn_bubble, spawn_bubble};
pub use world::{lemma_marks_depend_on_geometry, lemma_population_conserved, respawn_marks, TickError, World};
