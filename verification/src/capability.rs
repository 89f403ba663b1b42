use vstd::prelude::*;
use crate::context::BootstrapResult;
use crate::context::GraphicsContext;
use crate::dispatch::DispatchLoop;

verus! {

/// Placeholder scene object handed to the application alongside the window.
#[derive(Clone, Copy, Debug, PartialEq, Eq, Structural)]
pub struct Scene;

/// The composed handle an application is constructed from: it exposes at
/// least the window, so the application can query monitors and fullscreen
/// state and set its own title after construction. The window identity here
/// is shared with the graphics context: both may hold it, and the window is
/// kept alive for at least as long as the context.
#[derive(Clone, Copy, Debug, PartialEq, Eq, Structural)]
pub struct Ember {
    pub window: u64,
    pub scene: Scene,
}

impl Ember {
    pub fn new(window: u64) -> (ember: Ember)
        ensures
            ember.window == window,
    {
        Ember { window, scene: Scene }
    }
}

/// The contract a user type satisfies to receive control after bootstrap: a
/// construction from a ready handle into the windowing world. No further
/// contract is required post-construction at this layer.
pub trait App: Sized {
    fn new(ember: Ember) -> Self;
}

/// The application handle derived from a bootstrap result: it carries the
/// same window the presentation surface was created from.
pub fn handle_for_app(result: &BootstrapResult) -> (ember: Ember)
    ensures
        ember.window == result.window,
{
    Ember::new(result.window)
}

/// Construct the application capability instance from a completed bootstrap.
/// The handle it receives shares the result's window, so the window stays
/// alive for as long as either the context or the application holds it.
pub fn construct_app<A: App>(result: &BootstrapResult) -> A {
    A::new(handle_for_app(result))
}

/// The live state of a started run: the application handle, the graphics
/// context the loop owns exclusively, and the dispatch loop itself.
#[derive(Clone, Copy, Debug, PartialEq, Eq, Structural)]
pub struct LoopHandoff {
    pub ember: Ember,
    pub context: GraphicsContext,
    pub dispatch: DispatchLoop,
}

/// Consume the bootstrap result — there is exactly one per run, and this is
/// the one step that consumes it — and start the event dispatch loop. The
/// window is the one co-owned resource: the application handle and the
/// graphics context carry the same window, and every other context field is
/// owned exclusively by the loop state. The loop starts running.
pub fn start_dispatch(result: BootstrapResult) -> (handoff: LoopHandoff)
    ensures
        handoff.ember.window == result.window,
        handoff.context == result.context_spec(),
        handoff.context.window == handoff.ember.window,
        handoff.context.size == result.size,
        handoff.dispatch.state is Running,
{
    let context = result.context();
    LoopHandoff { ember: Ember::new(result.window), context, dispatch: DispatchLoop::new() }
}

} // verus!
