use vstd::prelude::*;

verus! {

/// The deployment target, fixed at build/deploy configuration time: either a
/// native process or a web page embedding.
#[derive(Clone, Copy, Debug, PartialEq, Eq, Structural)]
pub enum DeploymentTarget {
    /// An ordinary native process that owns its calling thread.
    Native,
    /// An embedded web page whose host owns the event loop.
    Web,
}

/// How the asynchronous bootstrap pipeline and the subsequent event loop are
/// driven. Exactly one strategy is active per process run.
#[derive(Clone, Copy, Debug, PartialEq, Eq, Structural)]
pub enum ExecutionStrategy {
    /// A single-threaded blocking executor drives the bootstrap to completion,
    /// then the event loop takes over the calling thread and never returns.
    Blocking,
    /// The bootstrap is scheduled onto the host's non-blocking scheduler; the
    /// entry point returns immediately and the pipeline continues under the
    /// host's own event loop.
    Cooperative,
}

/// The strategy that drives a run on the given deployment target.
pub open spec fn strategy_for(target: DeploymentTarget) -> ExecutionStrategy {
    match target {
        DeploymentTarget::Native => ExecutionStrategy::Blocking,
        DeploymentTarget::Web => ExecutionStrategy::Cooperative,
    }
}

/// Choose the execution strategy for a run. The choice is made once, at the
/// single entry point, and never revisited within the run.
pub fn select_strategy(target: DeploymentTarget) -> (strategy: ExecutionStrategy)
    ensures
        strategy == strategy_for(target),
{
    match target {
        DeploymentTarget::Native => ExecutionStrategy::Blocking,
        DeploymentTarget::Web => ExecutionStrategy::Cooperative,
    }
}

impl ExecutionStrategy {
    /// Whether this strategy blocks the calling thread until the event loop
    /// terminates.
    pub fn blocks_caller(&self) -> (blocks: bool)
        ensures
            blocks == (*self is Blocking),
    {
        match self {
            ExecutionStrategy::Blocking => true,
            ExecutionStrategy::Cooperative => false,
        }
    }

    /// Whether this strategy returns to the host immediately, leaving the
    /// pipeline to continue under the host's own scheduler.
    pub fn returns_immediately(&self) -> (immediate: bool)
        ensures
            immediate == (*self is Cooperative),
    {
        match self {
            ExecutionStrategy::Blocking => false,
            ExecutionStrategy::Cooperative => true,
        }
    }
}

/// On every deployment target exactly one execution strategy is active: the
/// selected strategy is blocking or cooperative, never both and never
/// neither, so a run can never attempt both drivers at once.
pub proof fn lemma_one_strategy_per_run(target: DeploymentTarget)
    ensures
        (strategy_for(target) is Blocking) != (strategy_for(target) is Cooperative),
{
}

} // verus!
