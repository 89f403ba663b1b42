use ember::App;
use ember::BootstrapEvent;
use ember::BootstrapSequencer;
use ember::DeploymentTarget;
use ember::DiagnosticsConfig;
use ember::DrawableSize;
use ember::Ember;
use ember::ExecutionStrategy;
use ember::LoopState;
use ember::PresentMode;
use ember::SurfaceFormat;
use ember::adapter_options;
use ember::construct_app;
use ember::presentation_config;
use ember::select_strategy;
use ember::start_dispatch;

fn completed_sequencer() -> BootstrapSequencer {
    let mut sequencer = BootstrapSequencer::new(DiagnosticsConfig::disabled());
    sequencer.on_event(BootstrapEvent::WindowCreated { window: 21 });
    sequencer.on_event(BootstrapEvent::InstanceCreated { instance: 22 });
    sequencer.on_event(BootstrapEvent::SurfaceCreated {
        surface: 23,
        size: DrawableSize { width: 1280, height: 720 },
    });
    sequencer.on_event(BootstrapEvent::AdapterFound { adapter: 24 });
    sequencer.on_event(BootstrapEvent::DeviceGranted { device: 25, queue: 26 });
    sequencer
}

#[test]
fn native_target_selects_the_blocking_strategy() {
    let strategy = select_strategy(DeploymentTarget::Native);
    assert_eq!(strategy, ExecutionStrategy::Blocking);
    assert!(strategy.blocks_caller());
    assert!(!strategy.returns_immediately());
}

#[test]
fn web_target_selects_the_cooperative_strategy() {
    let strategy = select_strategy(DeploymentTarget::Web);
    assert_eq!(strategy, ExecutionStrategy::Cooperative);
    assert!(!strategy.blocks_caller());
    assert!(strategy.returns_immediately());
}

#[test]
fn exactly_one_driver_is_active_per_target() {
    for target in [DeploymentTarget::Native, DeploymentTarget::Web] {
        let strategy = select_strategy(target);
        assert_ne!(strategy.blocks_caller(), strategy.returns_immediately());
    }
}

#[test]
fn adapter_options_prefer_high_performance() {
    let options = adapter_options();
    assert!(matches!(options.power, ember::PowerPreference::HighPerformance));
    assert!(options.surface_compatible);
}

#[test]
fn presentation_format_depends_on_target() {
    let size = DrawableSize { width: 640, height: 480 };
    let native = presentation_config(DeploymentTarget::Native, size);
    assert_eq!(native.format, SurfaceFormat::Bgra8UnormSrgb);
    assert_eq!(native.width, 640);
    assert_eq!(native.height, 480);
    assert_eq!(native.present_mode, PresentMode::Mailbox);
    let web = presentation_config(DeploymentTarget::Web, size);
    assert_eq!(web.format, SurfaceFormat::Bgra8Unorm);
}

#[test]
fn handoff_shares_the_window_between_context_and_application() {
    let result = completed_sequencer().into_result();
    let handoff = start_dispatch(result);
    assert_eq!(handoff.ember.window, 21);
    assert_eq!(handoff.context.window, handoff.ember.window);
    assert_eq!(handoff.context.surface, 23);
    assert_eq!(handoff.context.device, 25);
    assert_eq!(handoff.context.queue, 26);
    assert_eq!(handoff.context.size, DrawableSize { width: 1280, height: 720 });
    assert_eq!(handoff.dispatch.state, LoopState::Running);
}

struct RecordingApp {
    window: u64,
}

impl App for RecordingApp {
    fn new(ember: Ember) -> Self {
        RecordingApp { window: ember.window }
    }
}

#[test]
fn application_is_constructed_from_the_result_window() {
    let result = completed_sequencer().into_result();
    let app: RecordingApp = construct_app(&result);
    assert_eq!(app.window, result.window);
}
