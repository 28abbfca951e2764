//! Multi-directional decision analysis: compass directions read as decision
//! strategies, and progress tracking along a plan of waypoints.

pub mod cardinal;
pub mod navigation;
pub mod ordinal;

pub use cardinal::Cardinal;
pub use navigation::{NavigationPlan, Waypoint};
pub use ordinal::{CompassDirection, Ordinal};
