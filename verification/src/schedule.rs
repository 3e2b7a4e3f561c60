//! Where the portal systems stand in a frame.

use vstd::prelude::*;

verus! {

/// Provides what makes portals work: the three camera systems and the
/// lifecycle handlers.
#[derive(Clone, Copy, Debug, Default, PartialEq, Eq)]
pub struct PortalPlugin;

/// Enables picking through portals.
#[derive(Clone, Copy, Debug, Default, PartialEq, Eq)]
pub struct PortalPickingPlugin;

/// Labels of the systems that update the cameras of portals.
#[derive(Clone, Copy, Debug, PartialEq, Eq, Structural, Hash)]
pub enum PortalCameraSystems {
    /// Resizes the render targets of portals when the output surface was
    /// resized.
    ResizeImage,
    /// Recomputes the poses of the secondary viewpoints.
    UpdateTransform,
    /// Clips the frusta of the secondary viewpoints.
    UpdateFrusta,
}

/// A schedule of the host's frame.
#[derive(Clone, Copy, Debug, PartialEq, Eq, Structural, Hash)]
pub enum Schedule {
    PreUpdate,
    PostUpdate,
}

/// A system set of the host by which a portal system is placed.
#[derive(Clone, Copy, Debug, PartialEq, Eq, Structural, Hash)]
pub enum HostSet {
    /// The propagation of world transforms.
    TransformPropagate,
    /// The update of the view frusta.
    UpdateFrusta,
    /// The picking backends.
    PickingBackend,
}

/// Where a system runs: in `schedule`, after the host's set `after` and as a
/// member of the host's set `within`, where these are given.
#[derive(Clone, Copy, Debug, PartialEq, Eq, Structural, Hash)]
pub struct Placement {
    pub schedule: Schedule,
    pub after: Option<HostSet>,
    pub within: Option<HostSet>,
}

/// A stage of the frame, from the propagation of world transforms to the
/// propagation of picks.
#[derive(Clone, Copy, Debug, PartialEq, Eq, Structural, Hash)]
pub enum Stage {
    TransformPropagation,
    TransformSync,
    FrustumCulling,
    FrustumClip,
    RenderSubmission,
    PickingBackend,
    PickingPropagation,
}

impl Stage {
    /// The place of the stage in the frame.
    pub open spec fn rank(self) -> nat {
        match self {
            Stage::TransformPropagation => 0,
            Stage::TransformSync => 1,
            Stage::FrustumCulling => 2,
            Stage::FrustumClip => 3,
            Stage::RenderSubmission => 4,
            Stage::PickingBackend => 5,
            Stage::PickingPropagation => 6,
        }
    }

    /// The place of the stage in the frame.
    pub fn position(self) -> (place: u8)
        ensures
            place == self.rank(),
    {
        match self {
            Stage::TransformPropagation => 0,
            Stage::TransformSync => 1,
            Stage::FrustumCulling => 2,
            Stage::FrustumClip => 3,
            Stage::RenderSubmission => 4,
            Stage::PickingBackend => 5,
            Stage::PickingPropagation => 6,
        }
    }

    /// Whether this stage has to be over before `other` begins.
    pub fn precedes(self, other: Stage) -> (before: bool)
        ensures
            before == (self.rank() < other.rank()),
    {
        self.position() < other.position()
    }
}

impl PortalCameraSystems {
    /// The stage of the frame that the system is, for the two that have their
    /// place in the order of stages. Resizing has none: it has to be over
    /// before `deadline`.
    pub open spec fn spec_stage(self) -> Option<Stage> {
        match self {
            PortalCameraSystems::ResizeImage => None,
            PortalCameraSystems::UpdateTransform => Some(Stage::TransformSync),
            PortalCameraSystems::UpdateFrusta => Some(Stage::FrustumClip),
        }
    }

    /// The stage of the frame that the system is.
    pub fn stage(self) -> (stage: Option<Stage>)
        ensures
            stage == self.spec_stage(),
    {
        match self {
            PortalCameraSystems::ResizeImage => None,
            PortalCameraSystems::UpdateTransform => Some(Stage::TransformSync),
            PortalCameraSystems::UpdateFrusta => Some(Stage::FrustumClip),
        }
    }

    /// The stage before which the system has to be over: render submission,
    /// for all three.
    pub fn deadline(self) -> (stage: Stage)
        ensures
            stage == Stage::RenderSubmission,
            self.spec_stage().is_some() ==> self.spec_stage().unwrap().rank() < stage.rank(),
    {
        Stage::RenderSubmission
    }

    /// Where the system runs in the host's frame. Resizing runs before the
    /// update; the pose is recomputed after the update, once world transforms
    /// are propagated; the frustum is clipped after the update, once the host
    /// has updated the frusta.
    pub open spec fn spec_placement(self) -> Placement {
        match self {
            PortalCameraSystems::ResizeImage => Placement {
                schedule: Schedule::PreUpdate,
                after: None,
                within: None,
            },
            PortalCameraSystems::UpdateTransform => Placement {
                schedule: Schedule::PostUpdate,
                after: Some(HostSet::TransformPropagate),
                within: None,
            },
            PortalCameraSystems::UpdateFrusta => Placement {
                schedule: Schedule::PostUpdate,
                after: Some(HostSet::UpdateFrusta),
                within: None,
            },
        }
    }

    /// Where the system runs in the host's frame.
    pub fn placement(self) -> (placement: Placement)
        ensures
            placement == self.spec_placement(),
    {
        match self {
            PortalCameraSystems::ResizeImage => Placement {
                schedule: Schedule::PreUpdate,
                after: None,
                within: None,
            },
            PortalCameraSystems::UpdateTransform => Placement {
                schedule: Schedule::PostUpdate,
                after: Some(HostSet::TransformPropagate),
                within: None,
            },
            PortalCameraSystems::UpdateFrusta => Placement {
                schedule: Schedule::PostUpdate,
                after: Some(HostSet::UpdateFrusta),
                within: None,
            },
        }
    }
}

impl PortalPlugin {
    /// The camera systems that the plugin registers, in the order in which
    /// they run in a frame.
    pub fn systems(&self) -> (systems: Vec<PortalCameraSystems>)
        ensures
            systems@ == seq![
                PortalCameraSystems::ResizeImage,
                PortalCameraSystems::UpdateTransform,
                PortalCameraSystems::UpdateFrusta,
            ],
    {
        let mut systems: Vec<PortalCameraSystems> = Vec::new();
        systems.push(PortalCameraSystems::ResizeImage);
        systems.push(PortalCameraSystems::UpdateTransform);
        systems.push(PortalCameraSystems::UpdateFrusta);
        assert(systems@ =~= seq![
            PortalCameraSystems::ResizeImage,
            PortalCameraSystems::UpdateTransform,
            PortalCameraSystems::UpdateFrusta,
        ]);
        systems
    }
}

impl PortalPickingPlugin {
    /// Where the propagation of picks runs: before the update, among the
    /// picking backends, so that what it sends is read in the same pass.
    pub fn placement(&self) -> (placement: Placement)
        ensures
            placement == (Placement {
                schedule: Schedule::PreUpdate,
                after: None,
                within: Some(HostSet::PickingBackend),
            }),
    {
        Placement { schedule: Schedule::PreUpdate, after: None, within: Some(HostSet::PickingBackend) }
    }
}

/// The stages are in a strict total order: of two different stages exactly
/// one comes before the other, and none comes before itself.
pub proof fn lemma_stage_order_total(a: Stage, b: Stage)
    ensures
        a == b <==> a.rank() == b.rank(),
        a != b ==> (a.rank() < b.rank()) != (b.rank() < a.rank()),
{
}

/// A pose is recomputed before the frustum is clipped, and the frustum is
/// clipped before anything is drawn or picked.
pub proof fn lemma_sync_before_clip_before_render()
    ensures
        Stage::TransformPropagation.rank() < Stage::TransformSync.rank(),
        Stage::TransformSync.rank() < Stage::FrustumClip.rank(),
        Stage::FrustumCulling.rank() < Stage::FrustumClip.rank(),
        Stage::FrustumClip.rank() < Stage::RenderSubmission.rank(),
        Stage::RenderSubmission.rank() < Stage::PickingBackend.rank(),
        Stage::PickingBackend.rank() < Stage::PickingPropagation.rank(),
{
}

} // verus!
