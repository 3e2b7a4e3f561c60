//! Portals: surfaces that show a live view of the world as seen from another
//! vantage point.
//!
//! The library keeps the table of portals with their secondary viewpoints,
//! render targets and pass-through pointers, and decides for every stage of a
//! frame what has to be done. Poses, projections and pixels stay with the
//! host: it says which entities are resolved and carries out the jobs that
//! the stages hand back.

pub mod entity;
pub mod picking;
pub mod portal;
pub mod schedule;
pub mod stages;
pub mod target;
pub mod viewport;
pub mod world;

pub use entity::EntityId;
pub use picking::{Location, PointerHits, PointerId, PointerInput, PortalHit, ProjectedHit};
pub use portal::{CullFace, Portal, PortalCamera, PortalImage};
pub use schedule::{PortalCameraSystems, PortalPickingPlugin, PortalPlugin};
pub use stages::{ClipJob, SyncJob};
pub use target::{Extent, ImageId, PixelFormat, RenderTargetBuffer, RenderTargets};
pub use viewport::{CameraView, RenderTarget, ViewportSize, WindowRef, WindowSize};
pub use world::{
    PortalEntry, PortalWorld, PrimaryCamera, SecondaryViewpoint, Setup, SetupError, SetupPlan,
};
