use ember::BootstrapAction;
use ember::BootstrapError;
use ember::BootstrapEvent;
use ember::BootstrapSequencer;
use ember::BootstrapStep;
use ember::DiagnosticsConfig;
use ember::DrawableSize;
use ember::PowerPreference;

/// A fake host: performs each pending action by inventing handles, records
/// which step was invoked, and reports the scripted outcome for the adapter
/// and device negotiations.
fn drive(
    sequencer: &mut BootstrapSequencer,
    adapter_available: bool,
    device_granted: bool,
    observed: &mut Vec<BootstrapStep>,
    captured_trace: &mut Option<Option<String>>,
) -> Option<BootstrapError> {
    loop {
        match sequencer.pending_action() {
            BootstrapAction::CreateWindow => {
                observed.push(BootstrapStep::Window);
                sequencer.on_event(BootstrapEvent::WindowCreated { window: 1 });
            }
            BootstrapAction::CreateInstance { .. } => {
                observed.push(BootstrapStep::Instance);
                sequencer.on_event(BootstrapEvent::InstanceCreated { instance: 2 });
            }
            BootstrapAction::CreateSurface { window } => {
                assert_eq!(window, 1);
                observed.push(BootstrapStep::Surface);
                sequencer.on_event(BootstrapEvent::SurfaceCreated {
                    surface: 3,
                    size: DrawableSize { width: 800, height: 600 },
                });
            }
            BootstrapAction::RequestAdapter { options, surface } => {
                assert_eq!(surface, 3);
                assert!(matches!(options.power, PowerPreference::HighPerformance));
                assert!(options.surface_compatible);
                observed.push(BootstrapStep::Adapter);
                if adapter_available {
                    sequencer.on_event(BootstrapEvent::AdapterFound { adapter: 4 });
                } else {
                    sequencer.on_event(BootstrapEvent::NoAdapterFound);
                }
            }
            BootstrapAction::RequestDevice { options, adapter } => {
                assert_eq!(adapter, 4);
                *captured_trace = Some(options.trace_dir.clone());
                observed.push(BootstrapStep::Device);
                if device_granted {
                    sequencer.on_event(BootstrapEvent::DeviceGranted { device: 5, queue: 6 });
                } else {
                    sequencer.on_event(BootstrapEvent::DeviceRejected);
                }
            }
            BootstrapAction::Deliver => return None,
            BootstrapAction::Abort { error } => return Some(error),
        }
    }
}

#[test]
fn bootstrap_steps_in_order_and_once() {
    let mut sequencer = BootstrapSequencer::new(DiagnosticsConfig::disabled());
    let mut observed = Vec::new();
    let mut captured = None;
    let outcome = drive(&mut sequencer, true, true, &mut observed, &mut captured);
    assert!(outcome.is_none());
    assert_eq!(
        observed,
        vec![
            BootstrapStep::Window,
            BootstrapStep::Instance,
            BootstrapStep::Surface,
            BootstrapStep::Adapter,
            BootstrapStep::Device,
        ]
    );
}

#[test]
fn no_adapter_aborts_without_device_request() {
    let mut sequencer = BootstrapSequencer::new(DiagnosticsConfig::disabled());
    let mut observed = Vec::new();
    let mut captured = None;
    let outcome = drive(&mut sequencer, false, true, &mut observed, &mut captured);
    assert_eq!(outcome, Some(BootstrapError::NoCompatibleAdapter));
    assert!(!observed.contains(&BootstrapStep::Device));
    assert_eq!(
        observed,
        vec![
            BootstrapStep::Window,
            BootstrapStep::Instance,
            BootstrapStep::Surface,
            BootstrapStep::Adapter,
        ]
    );
    assert!(sequencer.is_finished());
}

#[test]
fn device_rejection_stops_before_loop() {
    let mut sequencer = BootstrapSequencer::new(DiagnosticsConfig::disabled());
    let mut observed = Vec::new();
    let mut captured = None;
    let outcome = drive(&mut sequencer, true, false, &mut observed, &mut captured);
    assert_eq!(outcome, Some(BootstrapError::DeviceRequestRejected));
    assert!(sequencer.is_finished());
    assert!(matches!(
        sequencer.pending_action(),
        BootstrapAction::Abort { error: BootstrapError::DeviceRequestRejected }
    ));
}

#[test]
fn window_failure_aborts_at_first_step() {
    let mut sequencer = BootstrapSequencer::new(DiagnosticsConfig::disabled());
    assert!(matches!(sequencer.pending_action(), BootstrapAction::CreateWindow));
    sequencer.on_event(BootstrapEvent::WindowFailed);
    assert!(sequencer.is_finished());
    assert!(matches!(
        sequencer.pending_action(),
        BootstrapAction::Abort { error: BootstrapError::WindowCreationFailed }
    ));
}

#[test]
fn result_size_matches_surface_capture() {
    let mut sequencer = BootstrapSequencer::new(DiagnosticsConfig::disabled());
    let mut observed = Vec::new();
    let mut captured = None;
    let outcome = drive(&mut sequencer, true, true, &mut observed, &mut captured);
    assert!(outcome.is_none());
    let result = sequencer.into_result();
    assert_eq!(result.size, DrawableSize { width: 800, height: 600 });
    assert_eq!(result.window, 1);
    assert_eq!(result.instance, 2);
    assert_eq!(result.surface, 3);
    assert_eq!(result.adapter, 4);
    assert_eq!(result.device, 5);
    assert_eq!(result.queue, 6);
}

#[test]
fn trace_disabled_when_environment_unset() {
    let config = DiagnosticsConfig::disabled();
    assert!(!config.gpu_tracing_enabled());
    let mut sequencer = BootstrapSequencer::new(config);
    let mut observed = Vec::new();
    let mut captured = None;
    let outcome = drive(&mut sequencer, true, true, &mut observed, &mut captured);
    assert!(outcome.is_none());
    assert_eq!(captured, Some(None));
}

#[test]
fn trace_dir_recorded_when_set() {
    let config = DiagnosticsConfig::from_environment_values(
        Some("/tmp/gpu-trace".to_string()),
        None,
    );
    assert!(config.gpu_tracing_enabled());
    let mut sequencer = BootstrapSequencer::new(config);
    let mut observed = Vec::new();
    let mut captured = None;
    let outcome = drive(&mut sequencer, true, true, &mut observed, &mut captured);
    assert!(outcome.is_none());
    assert_eq!(captured, Some(Some("/tmp/gpu-trace".to_string())));
}
