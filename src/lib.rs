//! Edge snapping for top-level windows: the geometry of a snap, the filter that
//! decides which windows take part, the per-window decision procedure that drives
//! the OS queries, and the registry that routes event subscriptions to handlers.

pub mod eligibility;
pub mod engine;
pub mod geometry;
pub mod hooks;
