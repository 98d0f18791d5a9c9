//! Core of a live-avatar display application: a hot-swappable display slot
//! with a generation counter, a tracking-snapshot service with a
//! connect/disconnect lifecycle, and the binding configuration that maps
//! tracking channels onto avatar parameters.

pub mod bindings;
pub mod displayed_model;
pub mod keyed;
pub mod load;
pub mod snapshot;
pub mod system;
pub mod tracker;
