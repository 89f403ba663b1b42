use vstd::prelude::*;

verus! {

/// A drawable size in physical pixels, as reported by the platform window.
#[derive(Clone, Copy, Debug, PartialEq, Eq, Structural)]
pub struct DrawableSize {
    pub width: u32,
    pub height: u32,
}

impl DrawableSize {
    pub fn new(width: u32, height: u32) -> (size: DrawableSize)
        ensures
            size.width == width,
            size.height == height,
    {
        DrawableSize { width, height }
    }
}

/// The bundle of host-side objects needed to render into a window. Each field
/// holds the identity of an object that lives on the host side of the
/// boundary; the library reasons about which objects exist and how they are
/// tied together, while the host owns the objects themselves.
///
/// The surface is bound 1:1 to the window it was created from, so the context
/// records the window as well: the window must outlive the surface, which
/// must outlive every use of the device and queue against that surface.
#[derive(Clone, Copy, Debug, PartialEq, Eq, Structural)]
pub struct GraphicsContext {
    pub window: u64,
    pub surface: u64,
    pub adapter: u64,
    pub device: u64,
    pub queue: u64,
    pub size: DrawableSize,
}

/// The transient value produced by a completed bootstrap: window, graphics
/// context fields, and the drawable size captured at surface creation. It is
/// consumed exactly once by the step that starts the event dispatch loop.
#[derive(Clone, Copy, Debug, PartialEq, Eq, Structural)]
pub struct BootstrapResult {
    pub window: u64,
    pub instance: u64,
    pub surface: u64,
    pub adapter: u64,
    pub device: u64,
    pub queue: u64,
    pub size: DrawableSize,
}

impl BootstrapResult {
    /// The graphics context carried by this result.
    pub open spec fn context_spec(self) -> GraphicsContext {
        GraphicsContext {
            window: self.window,
            surface: self.surface,
            adapter: self.adapter,
            device: self.device,
            queue: self.queue,
            size: self.size,
        }
    }

    /// Extract the graphics context. The window is co-owned: the same window
    /// identity stays available in the result for the application handle, so
    /// the window outlives the surface bound to it.
    pub fn context(&self) -> (ctx: GraphicsContext)
        ensures
            ctx == self.context_spec(),
            ctx.window == self.window,
            ctx.size == self.size,
    {
        GraphicsContext {
            window: self.window,
            surface: self.surface,
            adapter: self.adapter,
            device: self.device,
            queue: self.queue,
            size: self.size,
        }
    }
}

} // verus!
