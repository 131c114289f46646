//! Frame pacing and render hand-off for a single interactive view: a
//! compositor asks for frames, a render worker draws them, and the view
//! corrects the compositor's timing hints before publishing each frame.
//! Beside it stand a few decisions of the shells around such views: a
//! socket adapter, the hub's realm directory, and story and module names.

pub mod frame_tracker;
pub mod geometry;
pub mod hub;
pub mod input;
pub mod naming;
pub mod render;
pub mod scene;
pub mod socket;
pub mod view;
