//! A drawing backend for a plotting engine that records every primitive into a
//! retained scene, and a displayable surface that keeps and repaints it.
pub mod common;
pub mod paintable;
pub mod scene;
pub mod snapshot;
pub mod text;

pub use self::paintable::{Paintable, PaintableBackend};
pub use self::snapshot::SnapshotBackend;
