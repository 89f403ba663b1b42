//! Bootstrap-and-dispatch lifecycle for GPU-accelerated windowed applications.
//!
//! This library owns the sequence that turns a bare process into a running
//! render loop: creating a platform window, negotiating a graphics device and
//! presentation surface with the host GPU driver, and handing control to a
//! user-supplied application object. The decisions of that sequence — which
//! step comes next, what options each step is invoked with, how the event
//! loop reacts to each platform event — are verified here; the host-facing
//! side (windowing, GPU driver calls, executors) performs the actions this
//! library prescribes and feeds the outcomes back in.

mod bootstrap;
mod capability;
mod config;
mod context;
mod diagnostics;
mod dispatch;
mod strategy;

pub use bootstrap::BootstrapAction;
pub use bootstrap::BootstrapError;
pub use bootstrap::BootstrapEvent;
pub use bootstrap::BootstrapPhase;
pub use bootstrap::BootstrapSequencer;
pub use bootstrap::BootstrapStep;
pub use bootstrap::canonical_steps;
pub use bootstrap::phase_rank;
pub use capability::App;
pub use capability::Ember;
pub use capability::Scene;
pub use capability::LoopHandoff;
pub use capability::construct_app;
pub use capability::handle_for_app;
pub use capability::start_dispatch;
pub use config::AdapterOptions;
pub use config::BackendFamily;
pub use config::DeviceOptions;
pub use config::FeatureLimitSet;
pub use config::PowerPreference;
pub use config::PresentMode;
pub use config::PresentationConfig;
pub use config::SurfaceFormat;
pub use config::adapter_options;
pub use config::default_adapter_options;
pub use config::presentation_config;
pub use config::surface_format_for;
pub use context::BootstrapResult;
pub use context::DrawableSize;
pub use context::GraphicsContext;
pub use diagnostics::DiagnosticsConfig;
pub use dispatch::DispatchAction;
pub use dispatch::DispatchLoop;
pub use dispatch::LoopState;
pub use dispatch::PlatformEvent;
pub use dispatch::WindowEvent;
pub use dispatch::action_for;
pub use dispatch::actions_after;
pub use dispatch::is_close_request;
pub use dispatch::lemma_close_reported_exactly_once;
pub use dispatch::lemma_dispatch_snoc;
pub use dispatch::lemma_terminating_ignores_all;
pub use dispatch::lemma_terminating_iff_close_observed;
pub use dispatch::next_state;
pub use dispatch::state_after;
pub use bootstrap::lemma_complete_issues_each_step_once;
pub use bootstrap::lemma_device_rejection_aborts_before_loop;
pub use bootstrap::lemma_diagnostics_fixed;
pub use bootstrap::lemma_no_adapter_aborts_before_device;
pub use bootstrap::lemma_size_captured_at_surface_creation;
pub use bootstrap::lemma_step_preserves_order;
pub use bootstrap::lemma_steps_in_order;
pub use bootstrap::lemma_terminal_accepts_nothing;
pub use bootstrap::lemma_trace_dir_reaches_device_request;
pub use strategy::DeploymentTarget;
pub use strategy::ExecutionStrategy;
pub use strategy::select_strategy;
pub use strategy::strategy_for;
pub use strategy::lemma_one_strategy_per_run;
