//! Render targets: the off-screen colour buffers that secondary viewpoints
//! draw into, their sizes, and the store that keeps track of them.

use crate::portal::PortalImage;
use bevy::image::{TextureFormatPixelInfo, Volume};
use bevy::render::render_resource::{Extent3d, TextureFormat};
use std::collections::HashMap;
use vstd::prelude::*;

verus! {

broadcast use vstd::std_specs::hash::group_hash_axioms;

/// A size in physical pixels.
#[derive(Clone, Copy, Debug, PartialEq, Eq, Structural, Hash)]
pub struct Extent {
    pub width: u32,
    pub height: u32,
}

/// The pixel format of a render target. Every target has the one format that
/// is fit for presentation: four channels of eight bits.
#[derive(Clone, Copy, Debug, PartialEq, Eq, Structural, Hash)]
pub enum PixelFormat {
    Bgra8UnormSrgb,
}

/// Identifies a render target in the store.
#[derive(Clone, Copy, Debug, PartialEq, Eq, Structural, Hash)]
pub struct ImageId {
    pub bits: u64,
}

/// What the library knows of one render target: its size and its format.
#[derive(Clone, Copy, Debug, PartialEq, Eq, Structural, Hash)]
pub struct RenderTargetBuffer {
    pub size: Extent,
    pub format: PixelFormat,
}

impl PixelFormat {
    /// The number of bytes that one pixel takes.
    pub open spec fn bytes_per_pixel(self) -> int {
        4
    }
}

impl Extent {
    /// The number of pixels of a surface of this size.
    pub open spec fn pixels(self) -> int {
        self.width * self.height
    }

    /// The number of bytes of a buffer of this size in `format`.
    pub open spec fn byte_len(self, format: PixelFormat) -> int {
        self.pixels() * format.bytes_per_pixel()
    }

    /// Whether a buffer of this size can be had on this machine: the pixel
    /// count fits 32 bits and the byte count fits an address.
    pub open spec fn allocatable(self, format: PixelFormat) -> bool {
        &&& self.pixels() <= u32::MAX
        &&& self.byte_len(format) <= usize::MAX
    }

    /// Tests `allocatable`.
    pub fn is_allocatable(self, format: PixelFormat) -> (fits: bool)
        ensures
            fits == self.allocatable(format),
    {
        assert(self.width * self.height <= 0xffff_ffff * 0xffff_ffff) by (nonlinear_arith)
            requires
                self.width <= 0xffff_ffff,
                self.height <= 0xffff_ffff,
        ;
        let pixels: u64 = (self.width as u64) * (self.height as u64);
        if pixels > 0xffff_ffff {
            return false;
        }
        let bytes: u64 = pixels * 4;
        bytes <= usize::MAX as u64
    }

    /// The number of bytes of a buffer of this size in `format`.
    pub fn data_len(self, format: PixelFormat) -> (len: usize)
        requires
            self.allocatable(format),
        ensures
            len == self.byte_len(format),
    {
        let pixels: usize = extent_volume(self.width, self.height);
        let pixel: usize = format_pixel_size(format);
        pixels * pixel
    }

    /// A buffer of zeros for a target of this size in `format`.
    pub fn zeroed_pixels(self, format: PixelFormat) -> (data: Vec<u8>)
        requires
            self.allocatable(format),
        ensures
            data@.len() == self.byte_len(format),
            forall|i: int| 0 <= i < data@.len() ==> data@[i] == 0,
    {
        let len: usize = self.data_len(format);
        let data: Vec<u8> = vec![0u8; len];
        data
    }
}

/// `Volume::volume` of bevy on an `Extent3d` of the given width and height and
/// of the default depth, one layer: the product of the three as `u32`, then
/// widened. The product has to fit 32 bits.
#[verifier::external_body]
fn extent_volume(width: u32, height: u32) -> (volume: usize)
    requires
        width * height <= u32::MAX,
    ensures
        volume == width * height,
{
    Extent3d { width, height, ..Default::default() }.volume()
}

/// `TextureFormatPixelInfo::pixel_size` of bevy on the texture format that
/// stands behind `format`: the bytes that one pixel of it takes.
#[verifier::external_body]
fn format_pixel_size(format: PixelFormat) -> (bytes: usize)
    ensures
        bytes == format.bytes_per_pixel(),
{
    match format {
        PixelFormat::Bgra8UnormSrgb => TextureFormat::Bgra8UnormSrgb,
    }.pixel_size()
}

/// The store of render targets, each under its identity.
pub struct RenderTargets {
    buffers: HashMap<u64, RenderTargetBuffer>,
}

impl View for RenderTargets {
    type V = Map<ImageId, RenderTargetBuffer>;

    /// The targets in the store, by identity.
    closed spec fn view(&self) -> Map<ImageId, RenderTargetBuffer> {
        Map::new(
            |id: ImageId| self.buffers@.contains_key(id.bits),
            |id: ImageId| self.buffers@[id.bits],
        )
    }
}

impl RenderTargets {
    /// A store without targets.
    pub fn new() -> (store: Self)
        ensures
            store@ == Map::<ImageId, RenderTargetBuffer>::empty(),
    {
        let store = RenderTargets { buffers: HashMap::new() };
        assert(store@ =~= Map::<ImageId, RenderTargetBuffer>::empty());
        store
    }

    /// Whether the store holds a target under `id`.
    pub fn contains(&self, id: ImageId) -> (found: bool)
        ensures
            found == self@.contains_key(id),
    {
        self.buffers.contains_key(&id.bits)
    }

    /// The target under `id`, if the store holds one.
    pub fn get(&self, id: ImageId) -> (buffer: Option<RenderTargetBuffer>)
        ensures
            buffer == (if self@.contains_key(id) {
                Some(self@[id])
            } else {
                None
            }),
    {
        match self.buffers.get(&id.bits) {
            Some(buffer) => Some(*buffer),
            None => None,
        }
    }

    /// Puts a target of the given size under `id`, in place of any that was
    /// there. Returns whether `id` was free.
    pub fn insert(&mut self, id: ImageId, size: Extent) -> (fresh: bool)
        ensures
            fresh == !old(self)@.contains_key(id),
            final(self)@ == old(self)@.insert(
                id,
                RenderTargetBuffer { size, format: PixelFormat::Bgra8UnormSrgb },
            ),
    {
        let buffer = RenderTargetBuffer { size, format: PixelFormat::Bgra8UnormSrgb };
        let before = self.buffers.insert(id.bits, buffer);
        assert(self@ =~= old(self)@.insert(id, buffer));
        before.is_none()
    }

    /// Gives the target under `id` a new size and keeps its format. What it
    /// held before is not kept. Returns whether there was such a target;
    /// without one the store stays as it is.
    pub fn resize(&mut self, id: ImageId, size: Extent) -> (resized: bool)
        ensures
            resized == old(self)@.contains_key(id),
            resized ==> final(self)@ == old(self)@.insert(
                id,
                RenderTargetBuffer { size, format: old(self)@[id].format },
            ),
            !resized ==> final(self)@ == old(self)@,
    {
        let format = match self.buffers.get(&id.bits) {
            Some(buffer) => buffer.format,
            None => {
                return false;
            },
        };
        let buffer = RenderTargetBuffer { size, format };
        self.buffers.insert(id.bits, buffer);
        assert(self@ =~= old(self)@.insert(id, buffer));
        true
    }

    /// Takes the target under `id` out of the store and returns it.
    pub fn remove(&mut self, id: ImageId) -> (buffer: Option<RenderTargetBuffer>)
        ensures
            buffer == (if old(self)@.contains_key(id) {
                Some(old(self)@[id])
            } else {
                None
            }),
            final(self)@ == old(self)@.remove(id),
    {
        let buffer = self.buffers.remove(&id.bits);
        assert(self@ =~= old(self)@.remove(id));
        buffer
    }

    /// The number of targets in the store.
    pub fn len(&self) -> (count: usize)
        ensures
            count == self@.dom().len(),
    {
        proof {
            self.lemma_len();
        }
        self.buffers.len()
    }

    proof fn lemma_len(&self)
        ensures
            self@.dom().len() == self.buffers@.dom().len(),
            self@.dom().finite(),
    {
        let keys = self.buffers@.dom();
        let ids = keys.map(|bits: u64| ImageId { bits });
        assert(ids =~= self@.dom()) by {
            assert forall|id: ImageId| ids.contains(id) == self@.dom().contains(id) by {
                if self@.dom().contains(id) {
                    assert(keys.contains(id.bits));
                    assert(ImageId { bits: id.bits } == id);
                }
            }
        }
        vstd::set_lib::lemma_map_size(keys, ids, |bits: u64| ImageId { bits });
    }
}

/// The store after every target of `before` that `portal_images` refers to
/// has taken `size`: the others, and all formats, are as they were.
pub open spec fn resized_targets(
    before: Map<ImageId, RenderTargetBuffer>,
    size: Extent,
    portal_images: Seq<PortalImage>,
) -> Map<ImageId, RenderTargetBuffer> {
    Map::new(
        |id: ImageId| before.contains_key(id),
        |id: ImageId|
            if portal_images.contains(PortalImage(id)) {
                RenderTargetBuffer { size, format: before[id].format }
            } else {
                before[id]
            },
    )
}

/// Answers resize events of the output surface: after each event every
/// target that a portal refers to, and that is still in the store, has the
/// event's size. Targets that no portal refers to are left as they are, and a
/// reference to a target that is gone is passed over.
pub fn resize_portal_images(
    events: &Vec<Extent>,
    portal_images: &Vec<PortalImage>,
    images: &mut RenderTargets,
)
    ensures
        events@.len() == 0 ==> final(images)@ == old(images)@,
        events@.len() > 0 ==> final(images)@ == resized_targets(
            old(images)@,
            events@.last(),
            portal_images@,
        ),
{
    let ghost initial = images@;
    let mut e: usize = 0;
    while e < events.len()
        invariant
            e <= events.len(),
            e == 0 ==> images@ == initial,
            e > 0 ==> images@ == resized_targets(initial, events@[e - 1], portal_images@),
        decreases events.len() - e,
    {
        let size = events[e];
        let ghost start = images@;
        let mut j: usize = 0;
        assert(images@ =~= resized_targets(start, size, portal_images@.take(0)));
        while j < portal_images.len()
            invariant
                j <= portal_images.len(),
                images@ == resized_targets(start, size, portal_images@.take(j as int)),
            decreases portal_images.len() - j,
        {
            let id = portal_images[j].0;
            images.resize(id, size);
            proof {
                let done = portal_images@.take(j as int);
                let next = portal_images@.take(j + 1);
                assert(next =~= done.push(portal_images@[j as int]));
                assert forall|other: ImageId|
                    next.contains(PortalImage(other)) == (done.contains(PortalImage(other))
                        || other == id) by {
                    if next.contains(PortalImage(other)) {
                        let k = choose|k: int| 0 <= k < next.len() && next[k] == PortalImage(other);
                        if k < j {
                            assert(done[k] == PortalImage(other));
                        }
                    }
                    if done.contains(PortalImage(other)) {
                        let k = choose|k: int| 0 <= k < done.len() && done[k] == PortalImage(other);
                        assert(next[k] == PortalImage(other));
                    }
                    if other == id {
                        assert(next[j as int] == PortalImage(other));
                    }
                }
                assert(images@ =~= resized_targets(start, size, next));
            }
            j += 1;
        }
        assert(portal_images@.take(j as int) =~= portal_images@);
        assert(resized_targets(start, size, portal_images@) =~= resized_targets(
            initial,
            size,
            portal_images@,
        ));
        e += 1;
    }
}

/// What resizing does to the store: it holds the same targets as before;
/// each one that a portal refers to has the new size and its old format; each
/// one that no portal refers to is as it was.
pub proof fn lemma_resize_touches_live_targets_only(
    before: Map<ImageId, RenderTargetBuffer>,
    size: Extent,
    portal_images: Seq<PortalImage>,
    id: ImageId,
)
    ensures
        resized_targets(before, size, portal_images).contains_key(id) == before.contains_key(id),
        before.contains_key(id) && portal_images.contains(PortalImage(id)) ==> {
            &&& resized_targets(before, size, portal_images)[id].size == size
            &&& resized_targets(before, size, portal_images)[id].format == before[id].format
        },
        before.contains_key(id) && !portal_images.contains(PortalImage(id)) ==> resized_targets(
            before,
            size,
            portal_images,
        )[id] == before[id],
{
}

/// Resizing twice is resizing to the second size: of a run of resize events
/// only the last one shows.
pub proof fn lemma_last_resize_wins(
    before: Map<ImageId, RenderTargetBuffer>,
    first: Extent,
    second: Extent,
    portal_images: Seq<PortalImage>,
)
    ensures
        resized_targets(resized_targets(before, first, portal_images), second, portal_images)
            == resized_targets(before, second, portal_images),
{
    assert(resized_targets(resized_targets(before, first, portal_images), second, portal_images)
        =~= resized_targets(before, second, portal_images));
}

} // verus!
