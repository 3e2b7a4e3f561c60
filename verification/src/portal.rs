//! The portal record and the markers that tie it to its secondary viewpoint.

use crate::entity::EntityId;
use crate::target::ImageId;
use vstd::prelude::*;

verus! {

/// A side of the portal's surface that can be left out when it is drawn.
#[derive(Clone, Copy, Debug, PartialEq, Eq, Structural, Hash)]
pub enum CullFace {
    Front,
    Back,
}

/// Makes an entity a portal: a surface that shows what `primary_camera` would
/// see if it stood at `target` instead of at the surface.
#[derive(Clone, Copy, Debug, PartialEq, Eq)]
pub struct Portal {
    /// The viewpoint that looks at this portal.
    pub primary_camera: EntityId,
    /// The anchor at which the view through the portal comes out.
    pub target: EntityId,
    /// The side of the surface that is culled; `None` draws both sides.
    pub cull_mode: Option<CullFace>,
    /// The secondary viewpoint of this portal, once setup has completed.
    ///
    /// Set by the lifecycle handlers only.
    pub linked_camera: Option<EntityId>,
}

impl Portal {
    /// A portal seen from `primary_camera` that looks out from `target`. Its
    /// back side is culled and it has no secondary viewpoint yet.
    #[inline]
    #[must_use]
    pub fn new(primary_camera: EntityId, target: EntityId) -> (portal: Self)
        ensures
            portal.primary_camera == primary_camera,
            portal.target == target,
            portal.cull_mode == Some(CullFace::Back),
            portal.linked_camera.is_none(),
    {
        Portal { primary_camera, target, cull_mode: Some(CullFace::Back), linked_camera: None }
    }

    /// The same portal with `cull_mode` as its culling policy.
    #[inline]
    #[must_use]
    pub fn with_cull_mode(self, cull_mode: Option<CullFace>) -> (portal: Self)
        ensures
            portal.cull_mode == cull_mode,
            portal.primary_camera == self.primary_camera,
            portal.target == self.target,
            portal.linked_camera == self.linked_camera,
    {
        Portal {
            primary_camera: self.primary_camera,
            target: self.target,
            cull_mode,
            linked_camera: self.linked_camera,
        }
    }

    /// Whether setup has given this portal its secondary viewpoint.
    pub fn is_linked(&self) -> (linked: bool)
        ensures
            linked == self.linked_camera.is_some(),
    {
        self.linked_camera.is_some()
    }
}

/// Marks a secondary viewpoint and names the portal that owns it.
///
/// The reference is for looking the owner up; the viewpoint never changes its
/// portal through it.
#[derive(Clone, Copy, Debug, PartialEq, Eq, Structural, Hash)]
pub struct PortalCamera(pub EntityId);

/// A portal's non-owning reference to the render target of its secondary
/// viewpoint, kept for resizing.
#[derive(Clone, Copy, Debug, PartialEq, Eq, Structural, Hash)]
pub struct PortalImage(pub ImageId);

} // verus!
