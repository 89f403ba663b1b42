use vstd::prelude::*;
use crate::config::AdapterOptions;
use crate::config::BackendFamily;
use crate::config::DeviceOptions;
use crate::config::FeatureLimitSet;
use crate::config::adapter_options;
use crate::config::default_adapter_options;
use crate::context::BootstrapResult;
use crate::context::DrawableSize;
use crate::diagnostics::DiagnosticsConfig;

verus! {

/// Why a bootstrap run aborted. Every one of these is a fatal startup error:
/// no retry, no fallback backend, no partial degradation.
#[derive(Clone, Copy, Debug, PartialEq, Eq, Structural)]
pub enum BootstrapError {
    WindowCreationFailed,
    NoCompatibleAdapter,
    DeviceRequestRejected,
}

/// The five ordered bootstrap steps. Each depends on the previous step's
/// output, so they run strictly sequentially.
#[derive(Clone, Copy, Debug, PartialEq, Eq, Structural)]
pub enum BootstrapStep {
    Window,
    Instance,
    Surface,
    Adapter,
    Device,
}

/// What the host must do next on the sequencer's behalf. The two request
/// actions may suspend pending asynchronous negotiation with the GPU driver;
/// they are the only suspension points of the whole pipeline.
#[derive(Clone, Debug, PartialEq, Eq)]
pub enum BootstrapAction {
    /// Create the platform window, with the fixed default title.
    CreateWindow,
    /// Create a graphics instance scoped to the given backend family.
    CreateInstance { backends: BackendFamily },
    /// Create a presentation surface bound to the given window, and read the
    /// window's inner size at that instant.
    CreateSurface { window: u64 },
    /// Ask the driver for an adapter compatible with the given surface.
    RequestAdapter { options: AdapterOptions, surface: u64 },
    /// Ask the chosen adapter for a logical device and command queue.
    RequestDevice { options: DeviceOptions, adapter: u64 },
    /// Bootstrap is complete: take the result and start the dispatch loop.
    Deliver,
    /// Bootstrap failed: abort the entire run.
    Abort { error: BootstrapError },
}

/// What the host reports back after performing an action.
#[derive(Clone, Copy, Debug, PartialEq, Eq, Structural)]
pub enum BootstrapEvent {
    WindowCreated { window: u64 },
    WindowFailed,
    InstanceCreated { instance: u64 },
    SurfaceCreated { surface: u64, size: DrawableSize },
    AdapterFound { adapter: u64 },
    NoAdapterFound,
    DeviceGranted { device: u64, queue: u64 },
    DeviceRejected,
}

/// Where the sequence stands: which step's outcome it is waiting for, or
/// that it has finished, successfully or not.
#[derive(Clone, Copy, Debug, PartialEq, Eq, Structural)]
pub enum BootstrapPhase {
    AwaitingWindow,
    AwaitingInstance,
    AwaitingSurface,
    AwaitingAdapter,
    AwaitingDevice,
    Complete,
    Failed,
}

/// How far along the successful path a phase stands: the number of steps
/// whose action has been issued.
pub open spec fn phase_rank(phase: BootstrapPhase) -> int {
    match phase {
        BootstrapPhase::AwaitingWindow => 1,
        BootstrapPhase::AwaitingInstance => 2,
        BootstrapPhase::AwaitingSurface => 3,
        BootstrapPhase::AwaitingAdapter => 4,
        BootstrapPhase::AwaitingDevice => 5,
        BootstrapPhase::Complete => 5,
        BootstrapPhase::Failed => 0,
    }
}

/// The mandatory order of the bootstrap steps.
pub open spec fn canonical_steps() -> Seq<BootstrapStep> {
    seq![
        BootstrapStep::Window,
        BootstrapStep::Instance,
        BootstrapStep::Surface,
        BootstrapStep::Adapter,
        BootstrapStep::Device,
    ]
}

/// The bootstrap sequencer: the decision side of the one-time asynchronous
/// sequence that yields a usable graphics context. The host repeatedly asks
/// for the pending action, performs it, and reports the outcome; the
/// sequencer decides every next step. Handles are the host's identities for
/// the objects it created; the sequencer records them and hands each one to
/// exactly the step that needs it.
pub struct BootstrapSequencer {
    pub phase: BootstrapPhase,
    pub diagnostics: DiagnosticsConfig,
    pub window: Option<u64>,
    pub instance: Option<u64>,
    pub surface: Option<u64>,
    pub size: Option<DrawableSize>,
    pub adapter: Option<u64>,
    pub device: Option<u64>,
    pub queue: Option<u64>,
    pub error: Option<BootstrapError>,
}

impl BootstrapSequencer {
    /// Well-formedness: exactly the outputs of the steps already taken are
    /// recorded, and an error is recorded exactly when the sequence failed.
    pub open spec fn wf(self) -> bool {
        &&& (self.error is Some <==> self.phase is Failed)
        &&& self.phase !is Failed ==> {
            &&& (self.window is Some <==> phase_rank(self.phase) >= 2)
            &&& (self.instance is Some <==> phase_rank(self.phase) >= 3)
            &&& (self.surface is Some <==> phase_rank(self.phase) >= 4)
            &&& (self.size is Some <==> phase_rank(self.phase) >= 4)
            &&& (self.adapter is Some <==> phase_rank(self.phase) >= 5)
            &&& (self.device is Some <==> self.phase is Complete)
            &&& (self.queue is Some <==> self.phase is Complete)
        }
    }

    /// The steps whose action has been issued so far, in the order they were
    /// issued. On a failure nothing further is ever issued, so the sequence
    /// is cut at the failed step.
    pub open spec fn steps_issued(self) -> Seq<BootstrapStep> {
        match self.phase {
            BootstrapPhase::Failed => match self.error {
                Some(BootstrapError::WindowCreationFailed) => canonical_steps().take(1),
                Some(BootstrapError::NoCompatibleAdapter) => canonical_steps().take(4),
                Some(BootstrapError::DeviceRequestRejected) => canonical_steps().take(5),
                None => Seq::empty(),
            },
            _ => canonical_steps().take(phase_rank(self.phase)),
        }
    }

    /// Which events the sequencer accepts in its current phase: exactly the
    /// outcomes of the action it is waiting on. Terminal phases accept
    /// nothing.
    pub open spec fn accepts(self, event: BootstrapEvent) -> bool {
        match self.phase {
            BootstrapPhase::AwaitingWindow => event is WindowCreated || event is WindowFailed,
            BootstrapPhase::AwaitingInstance => event is InstanceCreated,
            BootstrapPhase::AwaitingSurface => event is SurfaceCreated,
            BootstrapPhase::AwaitingAdapter => event is AdapterFound || event is NoAdapterFound,
            BootstrapPhase::AwaitingDevice => event is DeviceGranted || event is DeviceRejected,
            BootstrapPhase::Complete => false,
            BootstrapPhase::Failed => false,
        }
    }

    /// The transition relation of the sequence: how one reported outcome
    /// advances the state. Success outcomes move to the next step in the
    /// mandatory order; failure outcomes end the run.
    pub open spec fn step_spec(self, event: BootstrapEvent) -> BootstrapSequencer
        recommends
            self.accepts(event),
    {
        match event {
            BootstrapEvent::WindowCreated { window } => BootstrapSequencer {
                phase: BootstrapPhase::AwaitingInstance,
                window: Some(window),
                ..self
            },
            BootstrapEvent::WindowFailed => BootstrapSequencer {
                phase: BootstrapPhase::Failed,
                error: Some(BootstrapError::WindowCreationFailed),
                ..self
            },
            BootstrapEvent::InstanceCreated { instance } => BootstrapSequencer {
                phase: BootstrapPhase::AwaitingSurface,
                instance: Some(instance),
                ..self
            },
            BootstrapEvent::SurfaceCreated { surface, size } => BootstrapSequencer {
                phase: BootstrapPhase::AwaitingAdapter,
                surface: Some(surface),
                size: Some(size),
                ..self
            },
            BootstrapEvent::AdapterFound { adapter } => BootstrapSequencer {
                phase: BootstrapPhase::AwaitingDevice,
                adapter: Some(adapter),
                ..self
            },
            BootstrapEvent::NoAdapterFound => BootstrapSequencer {
                phase: BootstrapPhase::Failed,
                error: Some(BootstrapError::NoCompatibleAdapter),
                ..self
            },
            BootstrapEvent::DeviceGranted { device, queue } => BootstrapSequencer {
                phase: BootstrapPhase::Complete,
                device: Some(device),
                queue: Some(queue),
                ..self
            },
            BootstrapEvent::DeviceRejected => BootstrapSequencer {
                phase: BootstrapPhase::Failed,
                error: Some(BootstrapError::DeviceRequestRejected),
                ..self
            },
        }
    }

    /// The action pending in a state: what the host must perform next.
    pub open spec fn action_spec(self) -> BootstrapAction
        recommends
            self.wf(),
    {
        match self.phase {
            BootstrapPhase::AwaitingWindow => BootstrapAction::CreateWindow,
            BootstrapPhase::AwaitingInstance => BootstrapAction::CreateInstance {
                backends: BackendFamily::Primary,
            },
            BootstrapPhase::AwaitingSurface => BootstrapAction::CreateSurface {
                window: self.window.unwrap(),
            },
            BootstrapPhase::AwaitingAdapter => BootstrapAction::RequestAdapter {
                options: default_adapter_options(),
                surface: self.surface.unwrap(),
            },
            BootstrapPhase::AwaitingDevice => BootstrapAction::RequestDevice {
                options: DeviceOptions {
                    feature_limits: FeatureLimitSet::Defaults,
                    trace_dir: self.diagnostics.gpu_trace_dir,
                },
                adapter: self.adapter.unwrap(),
            },
            BootstrapPhase::Complete => BootstrapAction::Deliver,
            BootstrapPhase::Failed => BootstrapAction::Abort { error: self.error.unwrap() },
        }
    }

    /// Begin the one bootstrap of this run, with the given diagnostics
    /// configuration. The first pending action is the window creation.
    pub fn new(diagnostics: DiagnosticsConfig) -> (sequencer: BootstrapSequencer)
        ensures
            sequencer.wf(),
            sequencer.phase is AwaitingWindow,
            sequencer.diagnostics == diagnostics,
            sequencer.steps_issued() == canonical_steps().take(1),
    {
        BootstrapSequencer {
            phase: BootstrapPhase::AwaitingWindow,
            diagnostics,
            window: None,
            instance: None,
            surface: None,
            size: None,
            adapter: None,
            device: None,
            queue: None,
            error: None,
        }
    }

    /// Whether the sequence has ended, successfully or not.
    pub fn is_finished(&self) -> (finished: bool)
        ensures
            finished == (self.phase is Complete || self.phase is Failed),
    {
        match self.phase {
            BootstrapPhase::Complete => true,
            BootstrapPhase::Failed => true,
            _ => false,
        }
    }

    /// The action the host must perform next.
    pub fn pending_action(&self) -> (action: BootstrapAction)
        requires
            self.wf(),
        ensures
            action == self.action_spec(),
    {
        match self.phase {
            BootstrapPhase::AwaitingWindow => BootstrapAction::CreateWindow,
            BootstrapPhase::AwaitingInstance => BootstrapAction::CreateInstance {
                backends: BackendFamily::Primary,
            },
            BootstrapPhase::AwaitingSurface => BootstrapAction::CreateSurface {
                window: self.window.unwrap(),
            },
            BootstrapPhase::AwaitingAdapter => BootstrapAction::RequestAdapter {
                options: adapter_options(),
                surface: self.surface.unwrap(),
            },
            BootstrapPhase::AwaitingDevice => {
                let trace_dir = match &self.diagnostics.gpu_trace_dir {
                    Some(dir) => Some(dir.clone()),
                    None => None,
                };
                BootstrapAction::RequestDevice {
                    options: DeviceOptions {
                        feature_limits: FeatureLimitSet::Defaults,
                        trace_dir,
                    },
                    adapter: self.adapter.unwrap(),
                }
            },
            BootstrapPhase::Complete => BootstrapAction::Deliver,
            BootstrapPhase::Failed => BootstrapAction::Abort { error: self.error.unwrap() },
        }
    }

    /// Record the outcome the host reported for the pending action, and move
    /// to the next step of the mandatory order — or end the run on a failure
    /// outcome.
    pub fn on_event(&mut self, event: BootstrapEvent)
        requires
            old(self).wf(),
            old(self).accepts(event),
        ensures
            *final(self) == old(self).step_spec(event),
            final(self).wf(),
    {
        match event {
            BootstrapEvent::WindowCreated { window } => {
                self.phase = BootstrapPhase::AwaitingInstance;
                self.window = Some(window);
            },
            BootstrapEvent::WindowFailed => {
                self.phase = BootstrapPhase::Failed;
                self.error = Some(BootstrapError::WindowCreationFailed);
            },
            BootstrapEvent::InstanceCreated { instance } => {
                self.phase = BootstrapPhase::AwaitingSurface;
                self.instance = Some(instance);
            },
            BootstrapEvent::SurfaceCreated { surface, size } => {
                self.phase = BootstrapPhase::AwaitingAdapter;
                self.surface = Some(surface);
                self.size = Some(size);
            },
            BootstrapEvent::AdapterFound { adapter } => {
                self.phase = BootstrapPhase::AwaitingDevice;
                self.adapter = Some(adapter);
            },
            BootstrapEvent::NoAdapterFound => {
                self.phase = BootstrapPhase::Failed;
                self.error = Some(BootstrapError::NoCompatibleAdapter);
            },
            BootstrapEvent::DeviceGranted { device, queue } => {
                self.phase = BootstrapPhase::Complete;
                self.device = Some(device);
                self.queue = Some(queue);
            },
            BootstrapEvent::DeviceRejected => {
                self.phase = BootstrapPhase::Failed;
                self.error = Some(BootstrapError::DeviceRequestRejected);
            },
        }
    }

    /// Package the outputs of the completed sequence into the bootstrap
    /// result. The result is consumed exactly once, by the step that starts
    /// the event dispatch loop; taking the sequencer by value means the one
    /// bootstrap of this run cannot be resumed or re-read afterwards.
    pub fn into_result(self) -> (result: BootstrapResult)
        requires
            self.wf(),
            self.phase is Complete,
        ensures
            result.window == self.window.unwrap(),
            result.instance == self.instance.unwrap(),
            result.surface == self.surface.unwrap(),
            result.adapter == self.adapter.unwrap(),
            result.device == self.device.unwrap(),
            result.queue == self.queue.unwrap(),
            result.size == self.size.unwrap(),
    {
        BootstrapResult {
            window: self.window.unwrap(),
            instance: self.instance.unwrap(),
            surface: self.surface.unwrap(),
            adapter: self.adapter.unwrap(),
            device: self.device.unwrap(),
            queue: self.queue.unwrap(),
            size: self.size.unwrap(),
        }
    }
}

/// The steps a well-formed sequencer has issued are always a prefix of the
/// mandatory order window → instance → surface → adapter → device, and no
/// step is ever issued twice.
pub proof fn lemma_steps_in_order(sequencer: BootstrapSequencer)
    requires
        sequencer.wf(),
    ensures
        sequencer.steps_issued().len() <= canonical_steps().len(),
        sequencer.steps_issued() == canonical_steps().take(sequencer.steps_issued().len() as int),
        forall|i: int, j: int|
            0 <= i < j < sequencer.steps_issued().len() ==> sequencer.steps_issued()[i]
                != sequencer.steps_issued()[j],
{
}

/// A completed bootstrap has issued every step of the mandatory order,
/// exactly once each, in exactly that order.
pub proof fn lemma_complete_issues_each_step_once(sequencer: BootstrapSequencer)
    requires
        sequencer.wf(),
        sequencer.phase is Complete,
    ensures
        sequencer.steps_issued() == canonical_steps(),
        forall|i: int, j: int|
            0 <= i < j < canonical_steps().len() ==> canonical_steps()[i] != canonical_steps()[j],
{
    assert(sequencer.steps_issued() =~= canonical_steps());
}

/// Taking one accepted event preserves well-formedness, and issues either
/// the single next step of the mandatory order (on a success outcome) or
/// nothing at all (on a failure outcome).
pub proof fn lemma_step_preserves_order(sequencer: BootstrapSequencer, event: BootstrapEvent)
    requires
        sequencer.wf(),
        sequencer.accepts(event),
    ensures
        sequencer.step_spec(event).wf(),
        sequencer.step_spec(event).steps_issued() == canonical_steps().take(
            sequencer.step_spec(event).steps_issued().len() as int,
        ),
        sequencer.steps_issued().len() <= sequencer.step_spec(event).steps_issued().len(),
        (event is WindowFailed || event is NoAdapterFound || event is DeviceRejected)
            ==> sequencer.step_spec(event).steps_issued() == sequencer.steps_issued(),
{
    lemma_steps_in_order(sequencer.step_spec(event));
    if event is WindowFailed || event is NoAdapterFound || event is DeviceRejected {
        assert(sequencer.step_spec(event).steps_issued() =~= sequencer.steps_issued());
    }
}

/// A terminal sequencer — complete or failed — accepts no further event:
/// once the run has ended, nothing can advance or restart it.
pub proof fn lemma_terminal_accepts_nothing(sequencer: BootstrapSequencer)
    requires
        sequencer.phase is Complete || sequencer.phase is Failed,
    ensures
        forall|event: BootstrapEvent| !sequencer.accepts(event),
{
}

/// When the adapter negotiation reports that no compatible adapter exists,
/// the run ends at once: the sequencer records the fatal error, never issues
/// the device request, and directs the host to abort.
pub proof fn lemma_no_adapter_aborts_before_device(sequencer: BootstrapSequencer)
    requires
        sequencer.wf(),
        sequencer.phase is AwaitingAdapter,
    ensures
        sequencer.step_spec(BootstrapEvent::NoAdapterFound).phase is Failed,
        sequencer.step_spec(BootstrapEvent::NoAdapterFound).error == Some(
            BootstrapError::NoCompatibleAdapter,
        ),
        sequencer.step_spec(BootstrapEvent::NoAdapterFound).action_spec() == (
        BootstrapAction::Abort { error: BootstrapError::NoCompatibleAdapter }),
        !sequencer.step_spec(BootstrapEvent::NoAdapterFound).steps_issued().contains(
            BootstrapStep::Device,
        ),
        forall|event: BootstrapEvent|
            !sequencer.step_spec(BootstrapEvent::NoAdapterFound).accepts(event),
{
    let failed = sequencer.step_spec(BootstrapEvent::NoAdapterFound);
    assert forall|i: int| 0 <= i < failed.steps_issued().len() implies failed.steps_issued()[i]
        != BootstrapStep::Device by {}
}

/// When the device request is rejected, the run ends without ever reaching
/// the complete phase, so the event dispatch loop — which starts only from a
/// result of a complete sequence — is never started.
pub proof fn lemma_device_rejection_aborts_before_loop(sequencer: BootstrapSequencer)
    requires
        sequencer.wf(),
        sequencer.phase is AwaitingDevice,
    ensures
        sequencer.step_spec(BootstrapEvent::DeviceRejected).phase is Failed,
        sequencer.step_spec(BootstrapEvent::DeviceRejected).phase !is Complete,
        sequencer.step_spec(BootstrapEvent::DeviceRejected).error == Some(
            BootstrapError::DeviceRequestRejected,
        ),
        sequencer.step_spec(BootstrapEvent::DeviceRejected).action_spec() == (
        BootstrapAction::Abort { error: BootstrapError::DeviceRequestRejected }),
        forall|event: BootstrapEvent|
            !sequencer.step_spec(BootstrapEvent::DeviceRejected).accepts(event),
{
}

/// The drawable size is captured exactly once, at surface creation: the
/// surface step records the size reported in its outcome, and no later
/// transition re-queries or alters it. Together with the contract of
/// `into_result`, the size in the bootstrap result is the window's inner
/// size at the moment the surface was created.
pub proof fn lemma_size_captured_at_surface_creation(
    sequencer: BootstrapSequencer,
    event: BootstrapEvent,
)
    requires
        sequencer.wf(),
        sequencer.accepts(event),
    ensures
        event matches BootstrapEvent::SurfaceCreated { size, .. } ==> sequencer.step_spec(
            event,
        ).size == Some(size),
        !(event is SurfaceCreated) ==> sequencer.step_spec(event).size == sequencer.size,
        phase_rank(sequencer.phase) >= 4 ==> sequencer.step_spec(event).size == sequencer.size,
{
}

/// The diagnostic trace directory the sequencer was constructed with flows
/// unchanged into the device negotiation step: the device request is invoked
/// with exactly the configured directory, and with no directory exactly when
/// tracing is disabled.
pub proof fn lemma_trace_dir_reaches_device_request(sequencer: BootstrapSequencer)
    requires
        sequencer.wf(),
        sequencer.phase is AwaitingDevice,
    ensures
        sequencer.action_spec() matches BootstrapAction::RequestDevice { options, adapter }
            && options.trace_dir == sequencer.diagnostics.gpu_trace_dir && options.feature_limits
            is Defaults && adapter == sequencer.adapter.unwrap(),
{
}

/// The diagnostics configuration itself is fixed for the whole run: no
/// transition alters it.
pub proof fn lemma_diagnostics_fixed(sequencer: BootstrapSequencer, event: BootstrapEvent)
    requires
        sequencer.wf(),
        sequencer.accepts(event),
    ensures
        sequencer.step_spec(event).diagnostics == sequencer.diagnostics,
{
}

} // verus!
