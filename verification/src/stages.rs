//! The stages of a frame. Each one reads the portal table and what the host
//! resolved for this frame, and hands back the work that is left to the
//! host: the poses to recompute, the frusta to clip, the hits to project.

use crate::entity::{contains_entity, EntityId};
use crate::picking::{PointerHits, PointerId, PortalHit};
use crate::portal::PortalImage;
use crate::target::{resize_portal_images, resized_targets, Extent, ImageId};
use crate::world::{PortalEntry, PortalWorld};
use vstd::prelude::*;

verus! {

broadcast use vstd::seq_lib::group_seq_properties;

/// The place of the half-space of a view frustum that is replaced by the
/// plane of the portal's exit.
pub const CLIPPED_HALF_SPACE: usize = 4;

/// A secondary viewpoint whose pose is to be recomputed: from the pose of
/// `primary_camera`, that of the portal's surface on `portal`, and that of
/// `target`.
#[derive(Clone, Copy, Debug, PartialEq, Eq, Structural, Hash)]
pub struct SyncJob {
    pub portal: EntityId,
    pub primary_camera: EntityId,
    pub target: EntityId,
    pub linked_camera: EntityId,
}

/// A secondary viewpoint whose frustum is to be clipped: its half-space at
/// `half_space` becomes the plane through `target` that faces the way
/// `target` looks.
#[derive(Clone, Copy, Debug, PartialEq, Eq, Structural, Hash)]
pub struct ClipJob {
    pub linked_camera: EntityId,
    pub target: EntityId,
    pub half_space: usize,
}

/// The pose to recompute for a row, given the entities whose world pose is
/// resolved this frame: one for a linked portal whose primary viewpoint,
/// surface and target anchor are all resolved, none otherwise.
pub open spec fn sync_job(entry: PortalEntry, posed: Seq<EntityId>) -> Option<SyncJob> {
    match entry.viewpoint {
        Some(viewpoint) => if posed.contains(entry.portal.primary_camera) && posed.contains(
            entry.entity,
        ) && posed.contains(entry.portal.target) {
            Some(
                SyncJob {
                    portal: entry.entity,
                    primary_camera: entry.portal.primary_camera,
                    target: entry.portal.target,
                    linked_camera: viewpoint.entity,
                },
            )
        } else {
            None
        },
        None => None,
    }
}

/// The frustum to clip for a row: one for a linked portal whose target
/// anchor is resolved, none otherwise.
pub open spec fn clip_job(entry: PortalEntry, posed: Seq<EntityId>) -> Option<ClipJob> {
    match entry.viewpoint {
        Some(viewpoint) => if posed.contains(entry.portal.target) {
            Some(
                ClipJob {
                    linked_camera: viewpoint.entity,
                    target: entry.portal.target,
                    half_space: CLIPPED_HALF_SPACE,
                },
            )
        } else {
            None
        },
        None => None,
    }
}

/// An element that `f` keeps is among what `filter_map` hands out.
proof fn lemma_filter_map_keeps<A, B>(s: Seq<A>, f: spec_fn(A) -> Option<B>, i: int)
    requires
        0 <= i < s.len(),
        f(s[i]).is_some(),
    ensures
        s.filter_map(f).contains(f(s[i]).unwrap()),
    decreases s.len(),
{
    let rest = s.drop_last();
    let kept = rest.filter_map(f);
    if i == s.len() - 1 {
        let all = kept + seq![f(s[i]).unwrap()];
        assert(all[kept.len() as int] == f(s[i]).unwrap());
    } else {
        lemma_filter_map_keeps(rest, f, i);
        let k = choose|k: int| 0 <= k < kept.len() && kept[k] == f(s[i]).unwrap();
        assert(s.filter_map(f)[k] == kept[k]);
    }
}

impl PortalWorld {
    /// The portals' references to their render targets, in the order of the
    /// table.
    pub open spec fn image_refs(&self) -> Seq<PortalImage> {
        self.entries().filter_map(|entry: PortalEntry| entry.image)
    }

    /// The poses to recompute in a frame: one for each row that has one, in
    /// the order of the table.
    pub open spec fn poses_to_sync(&self, posed: Seq<EntityId>) -> Seq<SyncJob> {
        self.entries().filter_map(|entry: PortalEntry| sync_job(entry, posed))
    }

    /// The frusta to clip in a frame: one for each row that has one, in the
    /// order of the table.
    pub open spec fn frusta_to_clip(&self, posed: Seq<EntityId>) -> Seq<ClipJob> {
        self.entries().filter_map(|entry: PortalEntry| clip_job(entry, posed))
    }

    /// The portal hit that a pick makes: one where the struck entity is a
    /// linked portal whose primary viewpoint is resolved, none otherwise.
    /// `hit` and `pick` say where the pick stands among the frame's hits.
    pub open spec fn portal_hit(
        &self,
        posed: Seq<EntityId>,
        pointer: PointerId,
        hit: int,
        pick: int,
        entity: EntityId,
    ) -> Option<PortalHit> {
        match self.index_of(entity) {
            Some(i) => match self.entries()[i].viewpoint {
                Some(viewpoint) => if posed.contains(self.entries()[i].portal.primary_camera) {
                    Some(
                        PortalHit {
                            pointer,
                            hit: hit as usize,
                            pick: pick as usize,
                            portal: entity,
                            primary_camera: self.entries()[i].portal.primary_camera,
                            linked_camera: viewpoint.entity,
                            pointer_id: viewpoint.pointer,
                            target: viewpoint.target,
                        },
                    )
                } else {
                    None
                },
                None => None,
            },
            None => None,
        }
    }

    /// The portal hits of the hit list at place `h`, in the order of its
    /// picks.
    pub open spec fn hits_of(&self, posed: Seq<EntityId>, hits: Seq<PointerHits>, h: int) -> Seq<
        PortalHit,
    > {
        Seq::new(hits[h].picks@.len(), |k: int| k).filter_map(
            |k: int| self.portal_hit(posed, hits[h].pointer, h, k, hits[h].picks@[k]),
        )
    }

    /// The portal hits of a frame: those of each hit list, list after list.
    pub open spec fn struck_portals(&self, posed: Seq<EntityId>, hits: Seq<PointerHits>) -> Seq<
        PortalHit,
    > {
        Seq::new(hits.len(), |h: int| self.hits_of(posed, hits, h)).flatten()
    }

    /// The portals' references to their render targets.
    pub fn portal_images(&self) -> (refs: Vec<PortalImage>)
        ensures
            refs@ == self.image_refs(),
    {
        let ghost f = |entry: PortalEntry| entry.image;
        let mut refs: Vec<PortalImage> = Vec::new();
        let mut i: usize = 0;
        assert(self.entries().take(0).filter_map(f) =~= Seq::<PortalImage>::empty());
        while i < self.entries.len()
            invariant
                i <= self.entries.len(),
                f == |entry: PortalEntry| entry.image,
                refs@ == self.entries().take(i as int).filter_map(f),
            decreases self.entries.len() - i,
        {
            proof {
                self.entries().lemma_filter_map_take_succ(f, i as int);
            }
            match self.entries[i].image {
                Some(image) => {
                    refs.push(image);
                },
                None => {},
            }
            assert(refs@ =~= self.entries().take(i + 1).filter_map(f));
            i += 1;
        }
        assert(self.entries().take(i as int) == self.entries());
        refs
    }

    /// The resize stage. `events` holds the new physical size of the output
    /// surface for each resize event of the frame. After the stage every
    /// render target of a portal has the size of the last event; without an
    /// event nothing changes. The table itself is not touched.
    pub fn resize(&mut self, events: &Vec<Extent>)
        requires
            old(self).wf(),
        ensures
            final(self).wf(),
            final(self).entries() == old(self).entries(),
            events@.len() == 0 ==> final(self).images() == old(self).images(),
            events@.len() > 0 ==> final(self).images() == resized_targets(
                old(self).images(),
                events@.last(),
                old(self).image_refs(),
            ),
            events@.len() > 0 ==> forall|id: ImageId| #[trigger]
                final(self).images().contains_key(id) ==> final(self).images()[id].size
                    == events@.last(),
    {
        let refs = self.portal_images();
        resize_portal_images(events, &refs, &mut self.images);
        proof {
            let ghost before = *old(self);
            assert(self.images().dom() =~= before.images().dom());
            assert forall|id: ImageId| #[trigger]
                self.images().contains_key(id) implies self.targets(id) by {
                assert(before.images().contains_key(id));
                assert(before.targets(id));
            }
            if events@.len() > 0 {
                assert forall|id: ImageId| #[trigger]
                    self.images().contains_key(id) implies self.images()[id].size
                    == events@.last() by {
                    assert(before.images().contains_key(id));
                    assert(before.targets(id));
                    let k = choose|k: int|
                        0 <= k < before.entries().len() && (
                        #[trigger] before.entries()[k]).viewpoint.is_some()
                            && before.entries()[k].viewpoint.unwrap().target == id;
                    assert(Self::entry_wf(before.entries()[k]));
                    lemma_filter_map_keeps(
                        before.entries(),
                        |entry: PortalEntry| entry.image,
                        k,
                    );
                }
            }
        }
    }

    /// The transform stage: the secondary viewpoints whose pose is to be
    /// recomputed this frame, in the order of the table. `posed` holds the
    /// entities whose world pose is resolved. A portal that is not linked, or
    /// one of whose three poses is not resolved, is passed over for this
    /// frame.
    pub fn sync_jobs(&self, posed: &Vec<EntityId>) -> (jobs: Vec<SyncJob>)
        ensures
            jobs@ == self.poses_to_sync(posed@),
    {
        let ghost f = |entry: PortalEntry| sync_job(entry, posed@);
        let mut jobs: Vec<SyncJob> = Vec::new();
        let mut i: usize = 0;
        assert(self.entries().take(0).filter_map(f) =~= Seq::<SyncJob>::empty());
        while i < self.entries.len()
            invariant
                i <= self.entries.len(),
                f == |entry: PortalEntry| sync_job(entry, posed@),
                jobs@ == self.entries().take(i as int).filter_map(f),
            decreases self.entries.len() - i,
        {
            proof {
                self.entries().lemma_filter_map_take_succ(f, i as int);
            }
            let entry = self.entries[i];
            match entry.viewpoint {
                Some(viewpoint) => {
                    if contains_entity(posed, entry.portal.primary_camera) && contains_entity(
                        posed,
                        entry.entity,
                    ) && contains_entity(posed, entry.portal.target) {
                        jobs.push(
                            SyncJob {
                                portal: entry.entity,
                                primary_camera: entry.portal.primary_camera,
                                target: entry.portal.target,
                                linked_camera: viewpoint.entity,
                            },
                        );
                    }
                },
                None => {},
            }
            assert(jobs@ =~= self.entries().take(i + 1).filter_map(f));
            i += 1;
        }
        assert(self.entries().take(i as int) == self.entries());
        jobs
    }

    /// The frustum stage: the secondary viewpoints whose frustum is to be
    /// clipped this frame, in the order of the table. A portal that is not
    /// linked, or whose target anchor is not resolved, is passed over for
    /// this frame.
    pub fn frustum_jobs(&self, posed: &Vec<EntityId>) -> (jobs: Vec<ClipJob>)
        ensures
            jobs@ == self.frusta_to_clip(posed@),
    {
        let ghost f = |entry: PortalEntry| clip_job(entry, posed@);
        let mut jobs: Vec<ClipJob> = Vec::new();
        let mut i: usize = 0;
        assert(self.entries().take(0).filter_map(f) =~= Seq::<ClipJob>::empty());
        while i < self.entries.len()
            invariant
                i <= self.entries.len(),
                f == |entry: PortalEntry| clip_job(entry, posed@),
                jobs@ == self.entries().take(i as int).filter_map(f),
            decreases self.entries.len() - i,
        {
            proof {
                self.entries().lemma_filter_map_take_succ(f, i as int);
            }
            let entry = self.entries[i];
            match entry.viewpoint {
                Some(viewpoint) => {
                    if contains_entity(posed, entry.portal.target) {
                        jobs.push(
                            ClipJob {
                                linked_camera: viewpoint.entity,
                                target: entry.portal.target,
                                half_space: CLIPPED_HALF_SPACE,
                            },
                        );
                    }
                },
                None => {},
            }
            assert(jobs@ =~= self.entries().take(i + 1).filter_map(f));
            i += 1;
        }
        assert(self.entries().take(i as int) == self.entries());
        jobs
    }

    /// The first half of the picking stage: the picks of the frame's hit
    /// lists that struck a linked portal whose primary viewpoint is resolved,
    /// in the order of the lists and of their picks. The host projects each
    /// of them through the portal's secondary viewpoint.
    pub fn hit_portals(&self, hits: &Vec<PointerHits>, posed: &Vec<EntityId>) -> (struck: Vec<
        PortalHit,
    >)
        requires
            self.wf(),
        ensures
            struck@ == self.struck_portals(posed@, hits@),
    {
        let ghost each = |h: int| self.hits_of(posed@, hits@, h);
        let ghost lists = Seq::new(hits@.len(), each);
        let mut struck: Vec<PortalHit> = Vec::new();
        let mut h: usize = 0;
        assert(lists.take(0) =~= Seq::<Seq<PortalHit>>::empty());
        while h < hits.len()
            invariant
                self.wf(),
                h <= hits.len(),
                each == |h: int| self.hits_of(posed@, hits@, h),
                lists == Seq::new(hits@.len(), each),
                struck@ == lists.take(h as int).flatten(),
            decreases hits.len() - h,
        {
            let list = &hits[h];
            let ghost done = struck@;
            let ghost places = Seq::new(list.picks@.len(), |k: int| k);
            let ghost f = |k: int|
                self.portal_hit(posed@, hits@[h as int].pointer, h as int, k, hits@[h as int].picks@[k]);
            let mut k: usize = 0;
            assert(places.take(0).filter_map(f) =~= Seq::<PortalHit>::empty());
            while k < list.picks.len()
                invariant
                    self.wf(),
                    h < hits.len(),
                    *list == hits@[h as int],
                    k <= list.picks.len(),
                    places == Seq::new(list.picks@.len(), |k: int| k),
                    f == |k: int|
                        self.portal_hit(
                            posed@,
                            hits@[h as int].pointer,
                            h as int,
                            k,
                            hits@[h as int].picks@[k],
                        ),
                    struck@ == done + places.take(k as int).filter_map(f),
                decreases list.picks.len() - k,
            {
                proof {
                    places.lemma_filter_map_take_succ(f, k as int);
                    assert(places[k as int] == k);
                }
                let entity = list.picks[k];
                match self.get(entity) {
                    Some(entry) => match entry.viewpoint {
                        Some(viewpoint) => {
                            if contains_entity(posed, entry.portal.primary_camera) {
                                struck.push(
                                    PortalHit {
                                        pointer: list.pointer,
                                        hit: h,
                                        pick: k,
                                        portal: entity,
                                        primary_camera: entry.portal.primary_camera,
                                        linked_camera: viewpoint.entity,
                                        pointer_id: viewpoint.pointer,
                                        target: viewpoint.target,
                                    },
                                );
                            }
                        },
                        None => {},
                    },
                    None => {},
                }
                assert(struck@ =~= done + places.take(k + 1).filter_map(f));
                k += 1;
            }
            proof {
                assert(places.take(k as int) == places);
                assert(places.filter_map(f) == each(h as int));
                lists.take(h as int).lemma_flatten_push(each(h as int));
                assert(lists.take(h + 1) =~= lists.take(h as int).push(each(h as int)));
            }
            h += 1;
        }
        assert(lists.take(h as int) == lists);
        struck
    }
}

/// The stages hand out work for live portals only. Every pose to recompute
/// and every frustum to clip belongs to a row of the table and to its
/// secondary viewpoint, so an entity that is neither a portal nor a secondary
/// viewpoint, such as one that was destroyed, occurs in no job as the portal
/// or as the viewpoint.
pub proof fn lemma_jobs_name_live_portals(world: &PortalWorld, posed: Seq<EntityId>, gone: EntityId)
    requires
        world.wf(),
        world.fresh_entity(gone),
    ensures
        forall|job: SyncJob| #[trigger]
            world.poses_to_sync(posed).contains(job) ==> job.portal != gone && job.linked_camera
                != gone,
        forall|job: ClipJob| #[trigger]
            world.frusta_to_clip(posed).contains(job) ==> job.linked_camera != gone,
{
    let entries = world.entries();
    let sync = |entry: PortalEntry| sync_job(entry, posed);
    let clip = |entry: PortalEntry| clip_job(entry, posed);
    assert forall|job: SyncJob| #[trigger] world.poses_to_sync(posed).contains(job) implies job.portal
        != gone && job.linked_camera != gone by {
        entries.lemma_filter_map_contains(sync, job);
        let entry = choose|entry: PortalEntry| #[trigger]
            entries.contains(entry) && sync(entry) == Some(job);
        let i = choose|i: int| 0 <= i < entries.len() && entries[i] == entry;
        assert(entries[i].viewpoint.is_some());
    }
    assert forall|job: ClipJob| #[trigger]
        world.frusta_to_clip(posed).contains(job) implies job.linked_camera != gone by {
        entries.lemma_filter_map_contains(clip, job);
        let entry = choose|entry: PortalEntry| #[trigger]
            entries.contains(entry) && clip(entry) == Some(job);
        let i = choose|i: int| 0 <= i < entries.len() && entries[i] == entry;
        assert(entries[i].viewpoint.is_some());
    }
}

/// A pick passes through a live portal only: a portal hit names a row of the
/// table, that row's secondary viewpoint and pointer, and a render target
/// that is in the store.
pub proof fn lemma_portal_hit_is_live(
    world: &PortalWorld,
    posed: Seq<EntityId>,
    pointer: PointerId,
    hit: int,
    pick: int,
    entity: EntityId,
)
    requires
        world.wf(),
        world.portal_hit(posed, pointer, hit, pick, entity).is_some(),
    ensures
        ({
            let struck = world.portal_hit(posed, pointer, hit, pick, entity).unwrap();
            &&& world.index_of(entity).is_some()
            &&& struck.portal == entity
            &&& struck.pointer == pointer
            &&& !world.fresh_entity(struck.linked_camera)
            &&& world.images().contains_key(struck.target)
            &&& struck.pointer_id == crate::picking::portal_pointer(entity)
        }),
{
    let i = world.index_of(entity).unwrap();
    assert(world.row_of(entity, i));
    assert(PortalWorld::entry_wf(world.entries()[i]));
    assert(world.entries()[i].viewpoint.is_some());
}

} // verus!
