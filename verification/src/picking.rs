//! Picking through portals: pointer input that strikes a portal's surface is
//! passed on, under the portal's own pointer, at the place where the ray
//! comes out in the secondary viewpoint's render target.

use crate::entity::EntityId;
use crate::target::ImageId;
use vstd::prelude::*;

verus! {

broadcast use vstd::seq_lib::group_seq_properties;

/// Identifies a pointer.
#[derive(Clone, Copy, Debug, PartialEq, Eq, Structural, Hash)]
pub enum PointerId {
    /// The mouse.
    Mouse,
    /// A touch, by its number.
    Touch(u64),
    /// A pointer of the application, by the 128 bits of its identifier.
    Custom(u128),
}

/// The identifier from which the pointers of portals are counted.
pub const POINTER_UUID: u128 = 258147812461431762807769092258103654760;

/// The pointer that is bound to the portal on `portal`: one for each portal,
/// and for a given portal always the same.
pub open spec fn portal_pointer(portal: EntityId) -> PointerId {
    PointerId::Custom((POINTER_UUID + portal.bits) as u128)
}

/// The pointer that is bound to the portal on `portal`.
pub fn portal_pointer_id(portal: EntityId) -> (id: PointerId)
    ensures
        id == portal_pointer(portal),
{
    let offset: u128 = portal.bits as u128;
    PointerId::Custom(POINTER_UUID + offset)
}

/// No two portals share a pointer.
pub proof fn lemma_portal_pointer_injective(a: EntityId, b: EntityId)
    requires
        portal_pointer(a) == portal_pointer(b),
    ensures
        a == b,
{
    assert(POINTER_UUID + a.bits <= u128::MAX);
    assert(POINTER_UUID + b.bits <= u128::MAX);
    assert(a.bits == b.bits);
}

/// Where a pointer is: a place in a render target. `P` is the host's type of
/// a position in pixels.
#[derive(Clone, Copy, Debug, PartialEq)]
pub struct Location<P> {
    pub target: ImageId,
    pub position: P,
}

/// A pointer input event: `action` happened to `pointer_id` at `location`.
/// `A` is the host's type of an action with its payload, `L` the type of the
/// place: for events that the library sends a `Location`.
#[derive(Clone, Copy, Debug, PartialEq)]
pub struct PointerInput<A, L> {
    pub pointer_id: PointerId,
    pub location: L,
    pub action: A,
}

/// The entities that the ray of one pointer struck.
#[derive(Clone, Debug, PartialEq, Eq)]
pub struct PointerHits {
    /// The pointer whose ray it was.
    pub pointer: PointerId,
    /// The entities that were struck.
    pub picks: Vec<EntityId>,
}

/// A pick that struck a portal whose secondary viewpoint can be looked
/// through this frame.
#[derive(Clone, Copy, Debug, PartialEq, Eq, Structural)]
pub struct PortalHit {
    /// The pointer whose ray struck the portal.
    pub pointer: PointerId,
    /// The place of the hit list among the frame's hit lists.
    pub hit: usize,
    /// The place of the pick in its hit list.
    pub pick: usize,
    /// The portal that was struck.
    pub portal: EntityId,
    /// The primary viewpoint of that portal.
    pub primary_camera: EntityId,
    /// The secondary viewpoint of that portal.
    pub linked_camera: EntityId,
    /// The pointer that is bound to the portal.
    pub pointer_id: PointerId,
    /// The render target of the secondary viewpoint.
    pub target: ImageId,
}

/// A portal hit with the place where it falls in the secondary viewpoint's
/// render target; `None` where the struck point could not be projected.
#[derive(Clone, Copy, Debug, PartialEq)]
pub struct ProjectedHit<P> {
    pub hit: PortalHit,
    pub position: Option<P>,
}

/// What one buffered action becomes behind a portal hit: nothing if it came
/// from another pointer than the one that struck; else the same action,
/// under the portal's pointer, at the projected position.
pub open spec fn redirect<A, P>(input: (PointerId, A), hit: PortalHit, position: P) -> Option<
    PointerInput<A, Location<P>>,
> {
    if input.0 == hit.pointer {
        Some(
            PointerInput {
                pointer_id: hit.pointer_id,
                location: Location { target: hit.target, position },
                action: input.1,
            },
        )
    } else {
        None
    }
}

/// The events that one hit passes on: for a projected hit the redirected
/// actions of its pointer in the order in which they were buffered, for one
/// that could not be projected none.
pub open spec fn redirected<A, P>(inputs: Seq<(PointerId, A)>, hit: ProjectedHit<P>) -> Seq<
    PointerInput<A, Location<P>>,
> {
    match hit.position {
        Some(position) => inputs.filter_map(
            |input: (PointerId, A)| redirect(input, hit.hit, position),
        ),
        None => Seq::empty(),
    }
}

/// The events that a frame's hits pass on: those of each hit, hit after hit.
pub open spec fn propagated<A, P>(inputs: Seq<(PointerId, A)>, hits: Seq<ProjectedHit<P>>) -> Seq<
    PointerInput<A, Location<P>>,
> {
    hits.map_values(|hit: ProjectedHit<P>| redirected(inputs, hit)).flatten()
}

/// Buffers the frame's pointer actions, each under the pointer it came from,
/// in the order of the events.
pub fn pointer_inputs<A: Copy, L>(events: &Vec<PointerInput<A, L>>) -> (inputs: Vec<
    (PointerId, A),
>)
    ensures
        inputs@ == events@.map_values(|event: PointerInput<A, L>| (event.pointer_id, event.action)),
{
    let ghost pair = |event: PointerInput<A, L>| (event.pointer_id, event.action);
    let mut inputs: Vec<(PointerId, A)> = Vec::new();
    let mut i: usize = 0;
    while i < events.len()
        invariant
            i <= events.len(),
            pair == |event: PointerInput<A, L>| (event.pointer_id, event.action),
            inputs@ == events@.take(i as int).map_values(pair),
        decreases events.len() - i,
    {
        let event = &events[i];
        inputs.push((event.pointer_id, event.action));
        assert(events@.take(i + 1) == events@.take(i as int).push(events@[i as int]));
        assert(inputs@ =~= events@.take(i + 1).map_values(pair));
        i += 1;
    }
    assert(events@.take(i as int) == events@);
    inputs
}

/// Appends to `output` the events that `hit` passes on.
pub fn redirect_actions<A: Copy, P: Copy>(
    inputs: &Vec<(PointerId, A)>,
    hit: &ProjectedHit<P>,
    output: &mut Vec<PointerInput<A, Location<P>>>,
)
    ensures
        final(output)@ == old(output)@ + redirected(inputs@, *hit),
{
    let position = match hit.position {
        Some(position) => position,
        None => {
            assert(output@ =~= old(output)@ + redirected(inputs@, *hit));
            return ;
        },
    };
    let ghost f = |input: (PointerId, A)| redirect(input, hit.hit, position);
    let mut i: usize = 0;
    assert(inputs@.take(0).filter_map(f) =~= Seq::<PointerInput<A, Location<P>>>::empty());
    while i < inputs.len()
        invariant
            i <= inputs.len(),
            hit.position == Some(position),
            f == |input: (PointerId, A)| redirect(input, hit.hit, position),
            output@ == old(output)@ + inputs@.take(i as int).filter_map(f),
        decreases inputs.len() - i,
    {
        let input = inputs[i];
        proof {
            inputs@.lemma_filter_map_take_succ(f, i as int);
        }
        if input.0 == hit.hit.pointer {
            output.push(
                PointerInput {
                    pointer_id: hit.hit.pointer_id,
                    location: Location { target: hit.hit.target, position },
                    action: input.1,
                },
            );
        }
        assert(output@ =~= old(output)@ + inputs@.take(i + 1).filter_map(f));
        i += 1;
    }
    assert(inputs@.take(i as int) == inputs@);
}

/// Passes the frame's buffered pointer actions through the portals that
/// were struck: for every projected hit, in the order of `hits`, each action
/// of the pointer that struck is sent again under the portal's pointer at the
/// projected position, in the order in which the actions were buffered. The
/// action itself is passed on as it is.
pub fn propagate_hits<A: Copy, P: Copy>(
    inputs: &Vec<(PointerId, A)>,
    hits: &Vec<ProjectedHit<P>>,
) -> (output: Vec<PointerInput<A, Location<P>>>)
    ensures
        output@ == propagated(inputs@, hits@),
{
    let ghost each = |hit: ProjectedHit<P>| redirected(inputs@, hit);
    let mut output: Vec<PointerInput<A, Location<P>>> = Vec::new();
    let mut h: usize = 0;
    assert(hits@.take(0).map_values(each) =~= Seq::<Seq<PointerInput<A, Location<P>>>>::empty());
    while h < hits.len()
        invariant
            h <= hits.len(),
            each == |hit: ProjectedHit<P>| redirected(inputs@, hit),
            output@ == hits@.take(h as int).map_values(each).flatten(),
        decreases hits.len() - h,
    {
        let ghost done = hits@.take(h as int).map_values(each);
        redirect_actions(inputs, &hits[h], &mut output);
        proof {
            done.lemma_flatten_push(each(hits@[h as int]));
            assert(hits@.take(h + 1).map_values(each) =~= done.push(each(hits@[h as int])));
        }
        h += 1;
    }
    assert(hits@.take(h as int) == hits@);
    output
}

/// Where every buffered action comes from the pointer that struck, a
/// projected hit passes on every action: as many events as actions, the same
/// actions in the same order, each under the portal's pointer and at the
/// projected position in the portal's render target.
pub proof fn lemma_redirect_passes_all<A, P>(inputs: Seq<(PointerId, A)>, hit: ProjectedHit<P>)
    requires
        hit.position.is_some(),
        forall|i: int| 0 <= i < inputs.len() ==> (#[trigger] inputs[i]).0 == hit.hit.pointer,
    ensures
        redirected(inputs, hit).len() == inputs.len(),
        forall|i: int|
            0 <= i < inputs.len() ==> #[trigger] redirected(inputs, hit)[i] == (PointerInput {
                pointer_id: hit.hit.pointer_id,
                location: Location { target: hit.hit.target, position: hit.position.unwrap() },
                action: inputs[i].1,
            }),
    decreases inputs.len(),
{
    let position = hit.position.unwrap();
    let f = |input: (PointerId, A)| redirect(input, hit.hit, position);
    if inputs.len() > 0 {
        let rest = inputs.drop_last();
        lemma_redirect_passes_all(rest, hit);
        assert(inputs.last().0 == hit.hit.pointer);
        assert(inputs.filter_map(f) == rest.filter_map(f) + seq![f(inputs.last()).unwrap()]);
        assert forall|i: int| 0 <= i < inputs.len() implies #[trigger] redirected(inputs, hit)[i]
            == (PointerInput {
            pointer_id: hit.hit.pointer_id,
            location: Location { target: hit.hit.target, position },
            action: inputs[i].1,
        }) by {
            if i < rest.len() {
                assert(redirected(rest, hit)[i] == redirected(inputs, hit)[i]);
                assert(rest[i] == inputs[i]);
            }
        }
    }
}

/// Actions of other pointers than the one that struck are not passed on.
pub proof fn lemma_redirect_drops_others<A, P>(inputs: Seq<(PointerId, A)>, hit: ProjectedHit<P>)
    requires
        forall|i: int| 0 <= i < inputs.len() ==> (#[trigger] inputs[i]).0 != hit.hit.pointer,
    ensures
        redirected(inputs, hit).len() == 0,
    decreases inputs.len(),
{
    if hit.position.is_some() && inputs.len() > 0 {
        lemma_redirect_drops_others(inputs.drop_last(), hit);
        assert(inputs.last().0 != hit.hit.pointer);
    }
}

} // verus!
