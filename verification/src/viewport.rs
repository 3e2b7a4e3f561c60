//! The size of the viewport that a camera draws to.

use crate::entity::EntityId;
use crate::target::{Extent, ImageId};
use vstd::prelude::*;

verus! {

/// Names a window: the primary one, or the one on a given entity.
#[derive(Clone, Copy, Debug, PartialEq, Eq, Structural, Hash)]
pub enum WindowRef {
    Primary,
    Entity(EntityId),
}

/// What a camera draws to.
#[derive(Clone, Copy, Debug, PartialEq, Eq, Structural, Hash)]
pub enum RenderTarget {
    /// A window's surface.
    Window(WindowRef),
    /// A render target of the store.
    Image(ImageId),
    /// A texture view that the host made itself.
    TextureView,
}

/// What setup reads of the primary viewpoint's camera.
#[derive(Clone, Copy, Debug, PartialEq, Eq, Structural, Hash)]
pub struct CameraView {
    /// The physical size of the camera's explicit viewport rectangle, if it
    /// has one.
    pub viewport: Option<Extent>,
    /// What the camera draws to.
    pub target: RenderTarget,
    /// The camera's render priority: cameras of lower order draw first.
    pub order: isize,
}

/// A window and the physical size of its surface.
#[derive(Clone, Copy, Debug, PartialEq, Eq, Structural, Hash)]
pub struct WindowSize {
    pub window: EntityId,
    pub size: Extent,
}

/// The windows that viewport sizes are taken from.
#[derive(Clone, Debug, PartialEq, Eq)]
pub struct ViewportSize {
    /// The physical size of the primary window, where there is exactly one.
    pub primary_window: Option<Extent>,
    /// The windows of the host, each with its physical size.
    pub windows: Vec<WindowSize>,
}

impl ViewportSize {
    /// Whether `i` is the first place in `windows` that holds `window`.
    pub open spec fn first_at(&self, window: EntityId, i: int) -> bool {
        &&& 0 <= i < self.windows@.len()
        &&& self.windows@[i].window == window
        &&& forall|k: int| 0 <= k < i ==> self.windows@[k].window != window
    }

    /// The physical size of the window on `window`: that of its first entry
    /// in `windows`, `None` where it has no entry.
    pub open spec fn window_size(&self, window: EntityId) -> Option<Extent> {
        if exists|i: int| self.first_at(window, i) {
            Some(self.windows@[choose|i: int| self.first_at(window, i)].size)
        } else {
            None
        }
    }

    /// The size of the viewport of `camera`: its explicit viewport rectangle
    /// where it has one; else the physical size of the window it draws to;
    /// else nothing.
    pub open spec fn viewport_size(&self, camera: CameraView) -> Option<Extent> {
        match camera.viewport {
            Some(size) => Some(size),
            None => match camera.target {
                RenderTarget::Window(WindowRef::Primary) => self.primary_window,
                RenderTarget::Window(WindowRef::Entity(window)) => self.window_size(window),
                _ => None,
            },
        }
    }

    /// Looks up the physical size of the window on `window`.
    pub fn get_window_size(&self, window: EntityId) -> (size: Option<Extent>)
        ensures
            size == self.window_size(window),
    {
        let mut i: usize = 0;
        while i < self.windows.len()
            invariant
                i <= self.windows.len(),
                forall|k: int| 0 <= k < i ==> self.windows@[k].window != window,
            decreases self.windows.len() - i,
        {
            if self.windows[i].window == window {
                proof {
                    assert(self.first_at(window, i as int));
                    let c = choose|c: int| self.first_at(window, c);
                    assert(c == i);
                }
                return Some(self.windows[i].size);
            }
            i += 1;
        }
        None
    }

    /// Retrieves the size of the viewport of `camera`, `None` if no sizing
    /// could be obtained.
    pub fn get_viewport_size(&self, camera: &CameraView) -> (size: Option<Extent>)
        ensures
            size == self.viewport_size(*camera),
    {
        match camera.viewport {
            Some(size) => Some(size),
            None => match camera.target {
                RenderTarget::Window(WindowRef::Primary) => self.primary_window,
                RenderTarget::Window(WindowRef::Entity(window)) => self.get_window_size(window),
                _ => None,
            },
        }
    }
}

} // verus!
