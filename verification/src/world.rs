//! The portal table: every portal with its secondary viewpoint, render
//! target and pass-through pointer, the handlers that set a portal up and
//! tear it down, and the stages of a frame.

use crate::entity::EntityId;
use crate::picking::{lemma_portal_pointer_injective, portal_pointer, portal_pointer_id, PointerId};
use crate::portal::{Portal, PortalCamera, PortalImage};
use crate::target::{Extent, ImageId, PixelFormat, RenderTargetBuffer, RenderTargets};
use crate::viewport::{CameraView, ViewportSize};
use vstd::prelude::*;

verus! {

broadcast use vstd::seq_lib::group_seq_properties;

/// Why a portal could not be set up. The portal then stays without a
/// secondary viewpoint, and every stage passes it over.
#[derive(Clone, Copy, Debug, PartialEq, Eq, Structural, Hash)]
pub enum SetupError {
    /// The primary viewpoint has no camera.
    NoCamera,
    /// The camera has no viewport rectangle and draws to no window whose size
    /// is known.
    NoViewportSize,
    /// The target anchor has no world transform.
    NoTargetTransform,
}

/// What setup decides for the secondary viewpoint of a portal.
#[derive(Clone, Copy, Debug, PartialEq, Eq, Structural, Hash)]
pub struct SetupPlan {
    /// The size of the render target: that of the primary viewport.
    pub size: Extent,
    /// The format of the render target.
    pub format: PixelFormat,
    /// The render priority of the secondary viewpoint.
    pub order: isize,
}

/// A secondary viewpoint: the camera that draws what a portal shows.
#[derive(Clone, Copy, Debug, PartialEq, Eq, Structural, Hash)]
pub struct SecondaryViewpoint {
    /// The entity of the viewpoint.
    pub entity: EntityId,
    /// The portal that owns the viewpoint.
    pub owner: PortalCamera,
    /// The render target that the viewpoint draws into, and the place of its
    /// pass-through pointer.
    pub target: ImageId,
    /// The render priority of the viewpoint.
    pub order: isize,
    /// The pass-through pointer that is bound to the viewpoint.
    pub pointer: PointerId,
}

/// A row of the portal table.
#[derive(Clone, Copy, Debug, PartialEq, Eq)]
pub struct PortalEntry {
    /// The entity of the portal, whose surface shows the view.
    pub entity: EntityId,
    /// The portal record.
    pub portal: Portal,
    /// The portal's reference to its render target.
    pub image: Option<PortalImage>,
    /// The secondary viewpoint of the portal.
    pub viewpoint: Option<SecondaryViewpoint>,
}

/// The render priority just before `primary`: one less, as far as there is
/// one less.
pub open spec fn order_before(primary: isize) -> isize {
    if primary > isize::MIN {
        (primary - 1) as isize
    } else {
        isize::MIN
    }
}

/// What setup comes to. It fails where the primary viewpoint has no camera,
/// else where no viewport size can be had, else where the target anchor has
/// no world transform. Otherwise the render target takes the viewport's size
/// and the secondary viewpoint draws before the primary one.
pub open spec fn setup_outcome(
    camera: Option<CameraView>,
    viewport: ViewportSize,
    target_posed: bool,
) -> Result<SetupPlan, SetupError> {
    match camera {
        None => Err(SetupError::NoCamera),
        Some(camera) => match viewport.viewport_size(camera) {
            None => Err(SetupError::NoViewportSize),
            Some(size) => if target_posed {
                Ok(
                    SetupPlan {
                        size,
                        format: PixelFormat::Bgra8UnormSrgb,
                        order: order_before(camera.order),
                    },
                )
            } else {
                Err(SetupError::NoTargetTransform)
            },
        },
    }
}

/// Decides the setup of a portal from what the host resolved: the camera of
/// the primary viewpoint, if it has one, the windows, and whether the target
/// anchor has a world transform.
pub fn plan_setup(camera: Option<&CameraView>, viewport: &ViewportSize, target_posed: bool) -> (plan:
    Result<SetupPlan, SetupError>)
    ensures
        plan == setup_outcome(
            match camera {
                Some(camera) => Some(*camera),
                None => None,
            },
            *viewport,
            target_posed,
        ),
{
    let camera = match camera {
        Some(camera) => camera,
        None => {
            return Err(SetupError::NoCamera);
        },
    };
    let size = match viewport.get_viewport_size(camera) {
        Some(size) => size,
        None => {
            return Err(SetupError::NoViewportSize);
        },
    };
    if !target_posed {
        return Err(SetupError::NoTargetTransform);
    }
    let order: isize = if camera.order > isize::MIN {
        camera.order - 1
    } else {
        isize::MIN
    };
    Ok(SetupPlan { size, format: PixelFormat::Bgra8UnormSrgb, order })
}

/// Setup succeeds exactly when the primary viewpoint has a camera, a
/// viewport size can be had for it, and the target anchor has a world
/// transform. The secondary viewpoint then draws before the primary one,
/// unless the primary one already has the lowest priority there is.
pub proof fn lemma_setup_succeeds_iff(
    camera: Option<CameraView>,
    viewport: ViewportSize,
    target_posed: bool,
)
    ensures
        setup_outcome(camera, viewport, target_posed).is_ok() <==> (camera.is_some()
            && viewport.viewport_size(camera.unwrap()).is_some() && target_posed),
        setup_outcome(camera, viewport, target_posed) matches Ok(plan) ==> {
            &&& Some(plan.size) == viewport.viewport_size(camera.unwrap())
            &&& plan.order <= camera.unwrap().order
            &&& camera.unwrap().order > isize::MIN ==> plan.order < camera.unwrap().order
        },
{
}

/// The row of a portal on `entity` after setup: linked to `viewpoint` where
/// there is one, inert where there is none.
pub open spec fn entry_of(entity: EntityId, portal: Portal, viewpoint: Option<SecondaryViewpoint>)
    -> PortalEntry {
    PortalEntry {
        entity,
        portal: Portal {
            primary_camera: portal.primary_camera,
            target: portal.target,
            cull_mode: portal.cull_mode,
            linked_camera: match viewpoint {
                Some(viewpoint) => Some(viewpoint.entity),
                None => None,
            },
        },
        image: match viewpoint {
            Some(viewpoint) => Some(PortalImage(viewpoint.target)),
            None => None,
        },
        viewpoint,
    }
}

/// The secondary viewpoint that setup makes for the portal on `entity` from
/// `plan`, on the entity and with the render target that the host reserved.
pub open spec fn viewpoint_of(entity: EntityId, plan: SetupPlan, spawned: EntityId, image: ImageId)
    -> SecondaryViewpoint {
    SecondaryViewpoint {
        entity: spawned,
        owner: PortalCamera(entity),
        target: image,
        order: plan.order,
        pointer: portal_pointer(entity),
    }
}

/// The portal table and the store of render targets.
pub struct PortalWorld {
    pub(crate) entries: Vec<PortalEntry>,
    pub(crate) images: RenderTargets,
}

impl PortalWorld {
    /// The rows of the table, in the order in which the portals were made.
    pub open(crate) spec fn entries(&self) -> Seq<PortalEntry> {
        self.entries@
    }

    /// The render targets, by identity.
    pub open(crate) spec fn images(&self) -> Map<ImageId, RenderTargetBuffer> {
        self.images@
    }

    /// Whether a row is consistent in itself: a portal is linked exactly when
    /// it has a secondary viewpoint, and then the viewpoint names the portal
    /// as its owner, the portal refers to the viewpoint's render target, and
    /// the viewpoint holds the pointer that is bound to the portal.
    pub open spec fn entry_wf(entry: PortalEntry) -> bool {
        match entry.viewpoint {
            Some(viewpoint) => {
                &&& entry.portal.linked_camera == Some(viewpoint.entity)
                &&& entry.image == Some(PortalImage(viewpoint.target))
                &&& viewpoint.owner == PortalCamera(entry.entity)
                &&& viewpoint.pointer == portal_pointer(entry.entity)
            },
            None => entry.portal.linked_camera.is_none() && entry.image.is_none(),
        }
    }

    /// The invariant of the table. Every row is consistent; no entity has two rows;
    /// no two portals share a secondary viewpoint or a render target; no
    /// secondary viewpoint is itself a portal; every linked portal's render
    /// target is in the store, and the store holds no other target.
    pub open spec fn wf(&self) -> bool {
        let entries = self.entries();
        &&& forall|i: int| 0 <= i < entries.len() ==> Self::entry_wf(#[trigger] entries[i])
        &&& forall|i: int, j: int|
            0 <= i < entries.len() && 0 <= j < entries.len() && i != j ==> (
            #[trigger] entries[i]).entity != (#[trigger] entries[j]).entity
        &&& forall|i: int, j: int|
            0 <= i < entries.len() && 0 <= j < entries.len() && i != j && (
            #[trigger] entries[i]).viewpoint.is_some() && (#[trigger] entries[j]).viewpoint.is_some()
                ==> {
                &&& entries[i].viewpoint.unwrap().entity != entries[j].viewpoint.unwrap().entity
                &&& entries[i].viewpoint.unwrap().target != entries[j].viewpoint.unwrap().target
            }
        &&& forall|i: int, j: int|
            0 <= i < entries.len() && 0 <= j < entries.len() && (
            #[trigger] entries[i]).viewpoint.is_some() ==> entries[i].viewpoint.unwrap().entity != (
            #[trigger] entries[j]).entity
        &&& forall|i: int|
            0 <= i < entries.len() && (#[trigger] entries[i]).viewpoint.is_some()
                ==> self.images().contains_key(entries[i].viewpoint.unwrap().target)
        &&& forall|id: ImageId| #[trigger]
            self.images().contains_key(id) ==> self.targets(id)
    }

    /// Whether `id` is the render target of a secondary viewpoint.
    pub open spec fn targets(&self, id: ImageId) -> bool {
        exists|i: int|
            0 <= i < self.entries().len() && (#[trigger] self.entries()[i]).viewpoint.is_some()
                && self.entries()[i].viewpoint.unwrap().target == id
    }

    /// Whether `i` is the row of the portal on `entity`.
    pub open spec fn row_of(&self, entity: EntityId, i: int) -> bool {
        0 <= i < self.entries().len() && self.entries()[i].entity == entity
    }

    /// The row of the portal on `entity`, `None` where `entity` is no portal.
    pub open spec fn index_of(&self, entity: EntityId) -> Option<int> {
        if exists|i: int| self.row_of(entity, i) {
            Some(choose|i: int| self.row_of(entity, i))
        } else {
            None
        }
    }

    /// Whether `entity` is neither a portal nor a secondary viewpoint.
    pub open spec fn fresh_entity(&self, entity: EntityId) -> bool {
        forall|i: int|
            0 <= i < self.entries().len() ==> {
                &&& (#[trigger] self.entries()[i]).entity != entity
                &&& self.entries()[i].viewpoint.is_some()
                    ==> self.entries()[i].viewpoint.unwrap().entity != entity
            }
    }

    /// A table without portals and a store without render targets.
    pub fn new() -> (world: Self)
        ensures
            world.wf(),
            world.entries() == Seq::<PortalEntry>::empty(),
            world.images() == Map::<ImageId, RenderTargetBuffer>::empty(),
    {
        PortalWorld { entries: Vec::new(), images: RenderTargets::new() }
    }

    /// The number of portals.
    pub fn len(&self) -> (count: usize)
        ensures
            count == self.entries().len(),
    {
        self.entries.len()
    }

    /// The row at place `i` of the table.
    pub fn entry(&self, i: usize) -> (entry: Option<PortalEntry>)
        ensures
            entry == (if i < self.entries().len() {
                Some(self.entries()[i as int])
            } else {
                None
            }),
    {
        if i < self.entries.len() {
            Some(self.entries[i])
        } else {
            None
        }
    }

    /// Finds the row of the portal on `entity`.
    pub fn find(&self, entity: EntityId) -> (row: Option<usize>)
        requires
            self.wf(),
        ensures
            match row {
                Some(i) => self.index_of(entity) == Some(i as int) && self.row_of(entity, i as int),
                None => self.index_of(entity).is_none(),
            },
    {
        let mut i: usize = 0;
        while i < self.entries.len()
            invariant
                self.wf(),
                i <= self.entries.len(),
                forall|k: int| 0 <= k < i ==> self.entries@[k].entity != entity,
            decreases self.entries.len() - i,
        {
            if self.entries[i].entity == entity {
                proof {
                    assert(self.row_of(entity, i as int));
                    let c = choose|c: int| self.row_of(entity, c);
                    assert(self.entries()[c].entity == self.entries()[i as int].entity);
                }
                return Some(i);
            }
            i += 1;
        }
        assert(forall|k: int| !self.row_of(entity, k));
        None
    }

    /// The row of the portal on `entity`, if `entity` is a portal.
    pub fn get(&self, entity: EntityId) -> (entry: Option<PortalEntry>)
        requires
            self.wf(),
        ensures
            entry == (match self.index_of(entity) {
                Some(i) => Some(self.entries()[i]),
                None => None,
            }),
    {
        match self.find(entity) {
            Some(i) => Some(self.entries[i]),
            None => None,
        }
    }

    /// Whether `entity` is a portal.
    pub fn contains_portal(&self, entity: EntityId) -> (found: bool)
        requires
            self.wf(),
        ensures
            found == self.index_of(entity).is_some(),
    {
        self.find(entity).is_some()
    }

    /// Whether `entity` is neither a portal nor a secondary viewpoint.
    pub fn is_fresh_entity(&self, entity: EntityId) -> (fresh: bool)
        ensures
            fresh == self.fresh_entity(entity),
    {
        let mut i: usize = 0;
        while i < self.entries.len()
            invariant
                i <= self.entries.len(),
                forall|k: int|
                    0 <= k < i ==> {
                        &&& (#[trigger] self.entries@[k]).entity != entity
                        &&& self.entries@[k].viewpoint.is_some()
                            ==> self.entries@[k].viewpoint.unwrap().entity != entity
                    },
            decreases self.entries.len() - i,
        {
            let entry = self.entries[i];
            if entry.entity == entity {
                return false;
            }
            match entry.viewpoint {
                Some(viewpoint) => {
                    if viewpoint.entity == entity {
                        return false;
                    }
                },
                None => {},
            }
            i += 1;
        }
        true
    }

    /// Whether the store holds no render target under `id`.
    pub fn is_fresh_image(&self, id: ImageId) -> (fresh: bool)
        ensures
            fresh == !self.images().contains_key(id),
    {
        !self.images.contains(id)
    }

    /// The render target under `id`, if the store holds one.
    pub fn image(&self, id: ImageId) -> (buffer: Option<RenderTargetBuffer>)
        ensures
            buffer == (if self.images().contains_key(id) {
                Some(self.images()[id])
            } else {
                None
            }),
    {
        self.images.get(id)
    }
}

/// The camera of a primary viewpoint: what setup reads of it, and the
/// rendering parameters that a secondary viewpoint inherits from it. `C` is
/// the host's type of those parameters.
#[derive(Clone, Debug, PartialEq)]
pub struct PrimaryCamera<C> {
    pub view: CameraView,
    pub parameters: C,
}

/// What setup made. `C` is the host's type of a camera's rendering
/// parameters, `T` its type of a world transform.
#[derive(Clone, Debug, PartialEq)]
pub struct Setup<C, T> {
    /// The secondary viewpoint.
    pub viewpoint: SecondaryViewpoint,
    /// The render target of the secondary viewpoint as it is in the store.
    pub buffer: RenderTargetBuffer,
    /// The rendering parameters of the secondary viewpoint: those of the
    /// primary viewpoint at the time of setup.
    pub parameters: C,
    /// The pose of the secondary viewpoint: the world transform of the target
    /// anchor at the time of setup.
    pub pose: T,
}

/// What the camera of a primary viewpoint shows to setup.
pub open spec fn view_of<C>(camera: Option<PrimaryCamera<C>>) -> Option<CameraView> {
    match camera {
        Some(camera) => Some(camera.view),
        None => None,
    }
}

/// What the creation of a portal on `entity` comes to. Setup fails as
/// `setup_outcome` says. Where it succeeds, the secondary viewpoint stands on
/// `spawned`, is owned by the portal, draws into `image` before the primary
/// viewpoint, holds the portal's pointer, has the render parameters of the
/// primary viewpoint, and is placed at the target anchor's world transform.
pub open spec fn setup_of<C, T>(
    entity: EntityId,
    camera: Option<PrimaryCamera<C>>,
    viewport: ViewportSize,
    target: Option<T>,
    spawned: EntityId,
    image: ImageId,
) -> Result<Setup<C, T>, SetupError> {
    match setup_outcome(view_of(camera), viewport, target.is_some()) {
        Ok(plan) => Ok(
            Setup {
                viewpoint: viewpoint_of(entity, plan, spawned, image),
                buffer: RenderTargetBuffer { size: plan.size, format: plan.format },
                parameters: camera.unwrap().parameters,
                pose: target.unwrap(),
            },
        ),
        Err(error) => Err(error),
    }
}

/// The secondary viewpoint that setup made, if it made one.
pub open spec fn made<C, T>(linked: Result<Setup<C, T>, SetupError>) -> Option<SecondaryViewpoint> {
    match linked {
        Ok(setup) => Some(setup.viewpoint),
        Err(_) => None,
    }
}

impl PortalWorld {
    /// Whether some secondary viewpoint holds `pointer`.
    pub open spec fn pointer_bound(&self, pointer: PointerId) -> bool {
        exists|i: int|
            0 <= i < self.entries().len() && (#[trigger] self.entries()[i]).viewpoint.is_some()
                && self.entries()[i].viewpoint.unwrap().pointer == pointer
    }

    /// Whether a portal can be created on `entity` with `spawned` and `image`
    /// reserved for its secondary viewpoint: the two entities differ and are
    /// neither portals nor secondary viewpoints, and the store holds no
    /// render target under `image`.
    pub open spec fn can_create(&self, entity: EntityId, spawned: EntityId, image: ImageId) -> bool {
        &&& self.fresh_entity(entity)
        &&& self.fresh_entity(spawned)
        &&& entity != spawned
        &&& !self.images().contains_key(image)
    }

    /// Handles the creation of a portal on `entity`.
    ///
    /// `camera` is the camera of the portal's primary viewpoint, if it has
    /// one, and `target` the world transform of its target anchor, if it has
    /// one. `spawned` and `image` are the entity and the render target that
    /// the host reserved for the secondary viewpoint; both are used only if
    /// setup succeeds.
    ///
    /// On success the portal gets its row, linked to a secondary viewpoint on
    /// `spawned` that draws before the primary one into a new render target
    /// of the viewport's size; what was made is returned. On failure the
    /// portal gets an inert row, nothing else changes, and the reason is
    /// returned.
    pub fn on_portal_created<C, T>(
        &mut self,
        entity: EntityId,
        portal: Portal,
        camera: Option<PrimaryCamera<C>>,
        viewport: &ViewportSize,
        target: Option<T>,
        spawned: EntityId,
        image: ImageId,
    ) -> (linked: Result<Setup<C, T>, SetupError>)
        requires
            old(self).wf(),
            old(self).can_create(entity, spawned, image),
        ensures
            final(self).wf(),
            linked == setup_of(entity, camera, *viewport, target, spawned, image),
            final(self).entries() == old(self).entries().push(
                entry_of(entity, portal, made(linked)),
            ),
            final(self).images() == (match linked {
                Ok(setup) => old(self).images().insert(image, setup.buffer),
                Err(_) => old(self).images(),
            }),
    {
        let ghost before = *self;
        let planned = match &camera {
            Some(camera) => plan_setup(Some(&camera.view), viewport, target.is_some()),
            None => plan_setup(None, viewport, target.is_some()),
        };
        let planned = match planned {
            Ok(plan) => match (camera, target) {
                (Some(camera), Some(pose)) => Ok((plan, camera.parameters, pose)),
                (None, _) => Err(SetupError::NoCamera),
                (_, None) => Err(SetupError::NoTargetTransform),
            },
            Err(error) => Err(error),
        };
        match planned {
            Ok((plan, parameters, pose)) => {
                let viewpoint = SecondaryViewpoint {
                    entity: spawned,
                    owner: PortalCamera(entity),
                    target: image,
                    order: plan.order,
                    pointer: portal_pointer_id(entity),
                };
                let entry = PortalEntry {
                    entity,
                    portal: Portal {
                        primary_camera: portal.primary_camera,
                        target: portal.target,
                        cull_mode: portal.cull_mode,
                        linked_camera: Some(spawned),
                    },
                    image: Some(PortalImage(image)),
                    viewpoint: Some(viewpoint),
                };
                self.images.insert(image, plan.size);
                self.entries.push(entry);
                proof {
                    let entries = self.entries();
                    let last = entries.len() - 1;
                    assert(entries[last] == entry);
                    assert forall|i: int| 0 <= i < last implies entries[i] == before.entries()[i] by {}
                    assert forall|i: int|
                        0 <= i < last && (#[trigger] entries[i]).viewpoint.is_some()
                            implies entries[i].viewpoint.unwrap().target != image by {
                        assert(before.images().contains_key(
                            before.entries()[i].viewpoint.unwrap().target,
                        ));
                    }
                    assert forall|id: ImageId| #[trigger]
                        self.images().contains_key(id) implies self.targets(id) by {
                        if id == image {
                            assert(entries[last].viewpoint.unwrap().target == id);
                        } else {
                            assert(before.targets(id));
                            let k = choose|k: int|
                                0 <= k < before.entries().len() && (
                                #[trigger] before.entries()[k]).viewpoint.is_some()
                                    && before.entries()[k].viewpoint.unwrap().target == id;
                            assert(entries[k] == before.entries()[k]);
                        }
                    }
                }
                Ok(
                    Setup {
                        viewpoint,
                        buffer: RenderTargetBuffer { size: plan.size, format: plan.format },
                        parameters,
                        pose,
                    },
                )
            },
            Err(error) => {
                let entry = PortalEntry {
                    entity,
                    portal: Portal {
                        primary_camera: portal.primary_camera,
                        target: portal.target,
                        cull_mode: portal.cull_mode,
                        linked_camera: None,
                    },
                    image: None,
                    viewpoint: None,
                };
                self.entries.push(entry);
                proof {
                    let entries = self.entries();
                    let last = entries.len() - 1;
                    assert(entries[last] == entry);
                    assert forall|i: int| 0 <= i < last implies entries[i] == before.entries()[i] by {}
                    assert forall|id: ImageId| #[trigger]
                        self.images().contains_key(id) implies self.targets(id) by {
                        assert(before.targets(id));
                        let k = choose|k: int|
                            0 <= k < before.entries().len() && (
                            #[trigger] before.entries()[k]).viewpoint.is_some()
                                && before.entries()[k].viewpoint.unwrap().target == id;
                        assert(entries[k] == before.entries()[k]);
                    }
                }
                Err(error)
            },
        }
    }

    /// Handles the creation of a portal on `entity` where the host cannot
    /// vouch for what it reserved: tests `can_create` first. Where it does
    /// not hold nothing changes and `None` is returned; where it holds this
    /// is `on_portal_created`.
    pub fn try_on_portal_created<C, T>(
        &mut self,
        entity: EntityId,
        portal: Portal,
        camera: Option<PrimaryCamera<C>>,
        viewport: &ViewportSize,
        target: Option<T>,
        spawned: EntityId,
        image: ImageId,
    ) -> (linked: Option<Result<Setup<C, T>, SetupError>>)
        requires
            old(self).wf(),
        ensures
            final(self).wf(),
            linked.is_some() == old(self).can_create(entity, spawned, image),
            linked matches Some(linked) ==> {
                &&& linked == setup_of(entity, camera, *viewport, target, spawned, image)
                &&& final(self).entries() == old(self).entries().push(
                    entry_of(entity, portal, made(linked)),
                )
                &&& final(self).images() == (match linked {
                    Ok(setup) => old(self).images().insert(image, setup.buffer),
                    Err(_) => old(self).images(),
                })
            },
            linked.is_none() ==> {
                &&& final(self).entries() == old(self).entries()
                &&& final(self).images() == old(self).images()
            },
    {
        if entity != spawned && self.is_fresh_entity(entity) && self.is_fresh_entity(spawned)
            && self.is_fresh_image(image) {
            Some(self.on_portal_created(entity, portal, camera, viewport, target, spawned, image))
        } else {
            None
        }
    }

    /// Handles the destruction of the portal on `entity`.
    ///
    /// The portal's row leaves the table, and with it the secondary
    /// viewpoint, its render target and its pass-through pointer, where the
    /// portal was linked. The viewpoint that was removed is returned, so that
    /// the host can destroy its entity. Nothing happens where `entity` is no
    /// portal, and nothing but the row leaves where the portal was never
    /// linked.
    ///
    /// Afterwards nothing in the table refers to what was removed: `entity`
    /// and the viewpoint's entity are free again, the store holds no target
    /// under the viewpoint's, and no viewpoint holds its pointer.
    pub fn on_portal_destroyed(&mut self, entity: EntityId) -> (removed: Option<
        SecondaryViewpoint,
    >)
        requires
            old(self).wf(),
        ensures
            final(self).wf(),
            match old(self).index_of(entity) {
                Some(i) => {
                    &&& final(self).entries() == old(self).entries().remove(i)
                    &&& removed == old(self).entries()[i].viewpoint
                    &&& final(self).images() == (match removed {
                        Some(viewpoint) => old(self).images().remove(viewpoint.target),
                        None => old(self).images(),
                    })
                },
                None => {
                    &&& final(self).entries() == old(self).entries()
                    &&& final(self).images() == old(self).images()
                    &&& removed.is_none()
                },
            },
            final(self).index_of(entity).is_none(),
            old(self).index_of(entity).is_some() ==> final(self).fresh_entity(entity),
            match removed {
                Some(viewpoint) => {
                    &&& final(self).fresh_entity(viewpoint.entity)
                    &&& !final(self).images().contains_key(viewpoint.target)
                    &&& !final(self).targets(viewpoint.target)
                    &&& !final(self).pointer_bound(viewpoint.pointer)
                },
                None => true,
            },
    {
        let ghost before = *self;
        let row = match self.find(entity) {
            Some(row) => row,
            None => {
                assert(forall|k: int| !self.row_of(entity, k));
                return None;
            },
        };
        let entry = self.entries.remove(row);
        match entry.viewpoint {
            Some(viewpoint) => {
                self.images.remove(viewpoint.target);
            },
            None => {},
        }
        proof {
            let old_entries = before.entries();
            let entries = self.entries();
            let r = row as int;
            assert(Self::entry_wf(old_entries[r]));
            assert forall|i: int| 0 <= i < entries.len() implies #[trigger] entries[i] == old_entries[if i
                < r {
                i
            } else {
                i + 1
            }] by {}
            assert forall|i: int| 0 <= i < entries.len() implies Self::entry_wf(
                #[trigger] entries[i],
            ) by {
                assert(Self::entry_wf(old_entries[if i < r { i } else { i + 1 }]));
            }
            assert forall|id: ImageId| #[trigger]
                self.images().contains_key(id) implies self.targets(id) by {
                assert(before.images().contains_key(id));
                assert(before.targets(id));
                let k = choose|k: int|
                    0 <= k < old_entries.len() && (#[trigger] old_entries[k]).viewpoint.is_some()
                        && old_entries[k].viewpoint.unwrap().target == id;
                assert(k != r);
                let n = if k < r { k } else { k - 1 };
                assert(entries[n] == old_entries[k]);
            }
            assert(forall|k: int| !self.row_of(entity, k));
            if entry.viewpoint.is_some() {
                let viewpoint = entry.viewpoint.unwrap();
                assert forall|i: int|
                    0 <= i < entries.len() && (
                    #[trigger] entries[i]).viewpoint.is_some()
                        implies entries[i].viewpoint.unwrap().pointer != viewpoint.pointer by {
                    let k = if i < r { i } else { i + 1 };
                    assert(Self::entry_wf(old_entries[k]));
                    assert(old_entries[k].entity != old_entries[r].entity);
                    if entries[i].viewpoint.unwrap().pointer == viewpoint.pointer {
                        lemma_portal_pointer_injective(old_entries[k].entity, old_entries[r].entity);
                    }
                }
            }
        }
        entry.viewpoint
    }
}

} // verus!
