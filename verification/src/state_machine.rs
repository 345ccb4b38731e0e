//! Decisions of the window and surface state: what the event loop does with
//! each window event, when the surface is reconfigured on a resize, and which
//! of the surface's formats is picked.
use vstd::prelude::*;

verus! {

/// Width and height of the drawing surface configured before the window
/// reports its own size.
pub const INITIAL_CONFIG_EXTENT: u32 = 400;

/// A size in physical pixels.
#[derive(Clone, Copy, Debug)]
pub struct PhysicalSize {
    pub width: u32,
    pub height: u32,
}

/// The window size the renderer knows and the extent its surface is
/// configured with.
#[derive(Clone, Copy, Debug)]
pub struct SurfaceState {
    pub size: PhysicalSize,
    pub config_width: u32,
    pub config_height: u32,
}

/// Whether a size can be configured: neither side is zero.
pub open spec fn is_drawable(s: PhysicalSize) -> bool {
    s.width != 0 && s.height != 0
}

/// The state after a resize request for `desired`: taken when drawable,
/// ignored otherwise.
pub open spec fn resized(st: SurfaceState, desired: PhysicalSize) -> SurfaceState {
    if is_drawable(desired) {
        SurfaceState { size: desired, config_width: desired.width, config_height: desired.height }
    } else {
        st
    }
}

/// The surface is configured with the window's size.
pub open spec fn config_matches(st: SurfaceState) -> bool {
    st.config_width == st.size.width && st.config_height == st.size.height
}

impl SurfaceState {
    /// The state of a new window of `size`, before the surface is configured
    /// for it.
    pub fn new(size: PhysicalSize) -> (st: Self)
        ensures
            st.size == size,
            st.config_width == INITIAL_CONFIG_EXTENT,
            st.config_height == INITIAL_CONFIG_EXTENT,
    {
        SurfaceState {
            size,
            config_width: INITIAL_CONFIG_EXTENT,
            config_height: INITIAL_CONFIG_EXTENT,
        }
    }

    /// Records that the surface was configured with `width` by `height`.
    pub fn config(&mut self, width: u32, height: u32)
        ensures
            final(self).size == old(self).size,
            final(self).config_width == width,
            final(self).config_height == height,
    {
        self.config_width = width;
        self.config_height = height;
    }

    /// Takes a resize request. Returns whether the surface must be
    /// reconfigured, which is exactly when the request was taken.
    pub fn resize(&mut self, desired: PhysicalSize) -> (reconfigure: bool)
        ensures
            reconfigure == is_drawable(desired),
            *final(self) == resized(*old(self), desired),
            reconfigure ==> final(self).size.width == desired.width && final(self).size.height
                == desired.height && final(self).config_width == desired.width
                && final(self).config_height == desired.height,
            !reconfigure ==> final(self).size.width == old(self).size.width
                && final(self).size.height == old(self).size.height && final(self).config_width
                == old(self).config_width && final(self).config_height == old(self).config_height,
    {
        if desired.height != 0 && desired.width != 0 {
            self.size = desired;
            self.config_width = desired.width;
            self.config_height = desired.height;
            true
        } else {
            false
        }
    }
}

/// A resize to a drawable size takes that size as it is, width as width and
/// height as height, for the window and for the surface; a resize to a size
/// with a zero side changes nothing.
pub proof fn lemma_resize_takes_desired_size(st: SurfaceState, desired: PhysicalSize)
    ensures
        desired.width != 0 && desired.height != 0 ==> resized(st, desired).size.width
            == desired.width && resized(st, desired).size.height == desired.height && resized(
            st,
            desired,
        ).config_width == desired.width && resized(st, desired).config_height == desired.height,
        desired.width == 0 || desired.height == 0 ==> resized(st, desired).size.width
            == st.size.width && resized(st, desired).size.height == st.size.height && resized(
            st,
            desired,
        ).config_width == st.config_width && resized(st, desired).config_height
            == st.config_height,
{
}

/// Resizing twice to the same size is resizing once.
pub proof fn lemma_resize_idempotent(st: SurfaceState, desired: PhysicalSize)
    ensures
        resized(resized(st, desired), desired) == resized(st, desired),
{
}

/// A taken resize leaves the surface configured with the window's size, and
/// no resize request breaks that once it holds.
pub proof fn lemma_resize_keeps_config_matching(st: SurfaceState, desired: PhysicalSize)
    ensures
        is_drawable(desired) ==> config_matches(resized(st, desired)),
        config_matches(st) ==> config_matches(resized(st, desired)),
{
}

/// The window events the event loop reacts to.
#[derive(Clone, Copy, Debug)]
pub enum LoopEvent {
    CloseRequested,
    Resized(PhysicalSize),
    RedrawRequested,
    AboutToWait,
    Other,
}

/// What the event loop does in answer to an event.
#[derive(Clone, Copy, Debug)]
pub enum LoopAction {
    Exit,
    Resize(PhysicalSize),
    Render,
    RequestRedraw,
    Nothing,
}

/// The answer to each event.
pub open spec fn action_for(event: LoopEvent) -> LoopAction {
    match event {
        LoopEvent::CloseRequested => LoopAction::Exit,
        LoopEvent::Resized(size) => LoopAction::Resize(size),
        LoopEvent::RedrawRequested => LoopAction::Render,
        LoopEvent::AboutToWait => LoopAction::RequestRedraw,
        LoopEvent::Other => LoopAction::Nothing,
    }
}

/// A resize event is answered by a resize to the reported size, width as
/// width and height as height; a close request by exiting, a redraw request by
/// rendering, the end of a batch of events by asking for a redraw, and
/// anything else by nothing.
pub proof fn lemma_action_for_events(width: u32, height: u32)
    ensures
        action_for(LoopEvent::Resized(PhysicalSize { width, height })) matches LoopAction::Resize(r)
            && r.width == width && r.height == height,
        action_for(LoopEvent::CloseRequested) matches LoopAction::Exit,
        action_for(LoopEvent::RedrawRequested) matches LoopAction::Render,
        action_for(LoopEvent::AboutToWait) matches LoopAction::RequestRedraw,
        action_for(LoopEvent::Other) matches LoopAction::Nothing,
{
}

/// Decides what the event loop does with `event`.
pub fn next_action(event: LoopEvent) -> (action: LoopAction)
    ensures
        action == action_for(event),
        event matches LoopEvent::Resized(s) ==> (action matches LoopAction::Resize(r) && r.width
            == s.width && r.height == s.height),
        event matches LoopEvent::CloseRequested ==> action matches LoopAction::Exit,
        event matches LoopEvent::RedrawRequested ==> action matches LoopAction::Render,
        event matches LoopEvent::AboutToWait ==> action matches LoopAction::RequestRedraw,
        event matches LoopEvent::Other ==> action matches LoopAction::Nothing,
{
    match event {
        LoopEvent::CloseRequested => LoopAction::Exit,
        LoopEvent::Resized(size) => LoopAction::Resize(size),
        LoopEvent::RedrawRequested => LoopAction::Render,
        LoopEvent::AboutToWait => LoopAction::RequestRedraw,
        LoopEvent::Other => LoopAction::Nothing,
    }
}

/// Picks the surface format: the first sRGB one, or the first of all when
/// none is sRGB. `is_srgb[i]` says whether format `i` is sRGB.
pub fn surface_format_index(is_srgb: &Vec<bool>) -> (index: usize)
    requires
        is_srgb@.len() > 0,
    ensures
        index < is_srgb@.len(),
        forall|j: int| 0 <= j < index ==> !is_srgb@[j],
        is_srgb@[index as int] || (index == 0 && forall|j: int|
            0 <= j < is_srgb@.len() ==> !is_srgb@[j]),
{
    let mut i: usize = 0;
    while i < is_srgb.len()
        invariant
            0 <= i <= is_srgb@.len(),
            forall|j: int| 0 <= j < i ==> !is_srgb@[j],
        decreases is_srgb@.len() - i,
    {
        if is_srgb[i] {
            return i;
        }
        i = i + 1;
    }
    0
}

} // verus!
