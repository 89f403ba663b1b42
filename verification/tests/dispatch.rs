use ember::DispatchAction;
use ember::DispatchLoop;
use ember::DrawableSize;
use ember::LoopState;
use ember::PlatformEvent;
use ember::WindowEvent;

#[test]
fn close_fires_once_for_second_event_only() {
    let mut dispatch_loop = DispatchLoop::new();
    let events = vec![
        PlatformEvent::Window(WindowEvent::Resized(DrawableSize { width: 100, height: 100 })),
        PlatformEvent::Window(WindowEvent::CloseRequested),
        PlatformEvent::Window(WindowEvent::KeyPress),
    ];
    let actions = dispatch_loop.dispatch_all(&events);
    assert_eq!(
        actions,
        vec![DispatchAction::Ignore, DispatchAction::ReportClose, DispatchAction::Ignore]
    );
    assert_eq!(dispatch_loop.state, LoopState::Terminating);
}

#[test]
fn unrelated_events_never_fire_the_close_handler() {
    let mut dispatch_loop = DispatchLoop::new();
    let events = vec![
        PlatformEvent::Window(WindowEvent::Resized(DrawableSize { width: 5, height: 5 })),
        PlatformEvent::Window(WindowEvent::KeyPress),
        PlatformEvent::Window(WindowEvent::Other),
        PlatformEvent::NonWindow,
    ];
    let actions = dispatch_loop.dispatch_all(&events);
    assert_eq!(actions.len(), 4);
    assert!(actions.iter().all(|action| matches!(action, DispatchAction::Ignore)));
    assert_eq!(dispatch_loop.state, LoopState::Running);
}

#[test]
fn second_close_request_is_ignored() {
    let mut dispatch_loop = DispatchLoop::new();
    let events = vec![
        PlatformEvent::Window(WindowEvent::CloseRequested),
        PlatformEvent::Window(WindowEvent::CloseRequested),
    ];
    let actions = dispatch_loop.dispatch_all(&events);
    assert_eq!(actions, vec![DispatchAction::ReportClose, DispatchAction::Ignore]);
    assert_eq!(dispatch_loop.state, LoopState::Terminating);
}

#[test]
fn empty_event_sequence_leaves_the_loop_running() {
    let mut dispatch_loop = DispatchLoop::new();
    let events: Vec<PlatformEvent> = Vec::new();
    let actions = dispatch_loop.dispatch_all(&events);
    assert!(actions.is_empty());
    assert_eq!(dispatch_loop.state, LoopState::Running);
}

#[test]
fn events_are_processed_in_delivery_order() {
    let mut dispatch_loop = DispatchLoop::new();
    let first = dispatch_loop.dispatch(PlatformEvent::NonWindow);
    let second = dispatch_loop.dispatch(PlatformEvent::Window(WindowEvent::CloseRequested));
    let third = dispatch_loop.dispatch(PlatformEvent::Window(WindowEvent::CloseRequested));
    assert_eq!(first, DispatchAction::Ignore);
    assert_eq!(second, DispatchAction::ReportClose);
    assert_eq!(third, DispatchAction::Ignore);
}
