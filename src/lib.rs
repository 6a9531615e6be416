//! Deferred asset handles: a cheap, cloneable handle to a resource that is
//! loaded in the background, and a tracker that reports how many of a set of
//! handles have finished loading and whether any of them failed.

pub mod asset;
pub mod tracker;

pub use asset::{Asset, AssetState, Metadata, Outcome, Progress, SharedError, Status};
pub use tracker::AssetLoadTracker;
