use vstd::prelude::*;
use crate::context::DrawableSize;

verus! {

/// A window-scoped event as delivered by the host. Only the close request is
/// handled by this layer; every other window event is left to the
/// application in a fuller design and ignored here.
#[derive(Clone, Copy, Debug, PartialEq, Eq, Structural)]
pub enum WindowEvent {
    CloseRequested,
    Resized(DrawableSize),
    KeyPress,
    Other,
}

/// An event from the host's delivery callback. Only window-scoped events are
/// inspected; device and other host events pass through unexamined.
#[derive(Clone, Copy, Debug, PartialEq, Eq, Structural)]
pub enum PlatformEvent {
    Window(WindowEvent),
    NonWindow,
}

/// The two states of the dispatch loop: running from the moment bootstrap
/// hands over, terminating once a close request has been observed.
#[derive(Clone, Copy, Debug, PartialEq, Eq, Structural)]
pub enum LoopState {
    Running,
    Terminating,
}

/// What the loop tells the host to do with one event.
#[derive(Clone, Copy, Debug, PartialEq, Eq, Structural)]
pub enum DispatchAction {
    /// Report the close request and stop delivering: the host exits its
    /// loop, and teardown happens by dropping the loop state.
    ReportClose,
    /// Nothing to do for this event.
    Ignore,
}

/// Whether an event is a window close request — the one event this layer
/// reacts to.
pub open spec fn is_close_request(event: PlatformEvent) -> bool {
    event matches PlatformEvent::Window(WindowEvent::CloseRequested)
}

/// The action for one event in one state: the close request is reported
/// exactly when the loop is still running; everything else is ignored.
pub open spec fn action_for(state: LoopState, event: PlatformEvent) -> DispatchAction {
    if state is Running && is_close_request(event) {
        DispatchAction::ReportClose
    } else {
        DispatchAction::Ignore
    }
}

/// The state after one event: the first close request observed while running
/// completes the transition to terminating; no other event changes state.
pub open spec fn next_state(state: LoopState, event: PlatformEvent) -> LoopState {
    if state is Running && is_close_request(event) {
        LoopState::Terminating
    } else {
        state
    }
}

/// The state after a whole sequence of events, processed strictly in the
/// order delivered.
pub open spec fn state_after(state: LoopState, events: Seq<PlatformEvent>) -> LoopState
    decreases events.len(),
{
    if events.len() == 0 {
        state
    } else {
        state_after(next_state(state, events[0]), events.skip(1))
    }
}

/// The actions for a whole sequence of events, one per event, in delivery
/// order — no reordering, no batching.
pub open spec fn actions_after(state: LoopState, events: Seq<PlatformEvent>) -> Seq<DispatchAction>
    decreases events.len(),
{
    if events.len() == 0 {
        Seq::empty()
    } else {
        seq![action_for(state, events[0])] + actions_after(
            next_state(state, events[0]),
            events.skip(1),
        )
    }
}

/// The event dispatch loop's decision state. The host pumps platform events
/// into `dispatch` indefinitely after bootstrap; the loop forwards the
/// lifecycle-relevant outcome for each one.
#[derive(Clone, Copy, Debug, PartialEq, Eq, Structural)]
pub struct DispatchLoop {
    pub state: LoopState,
}

impl DispatchLoop {
    /// The loop as entered immediately after bootstrap: running.
    pub fn new() -> (dispatch_loop: DispatchLoop)
        ensures
            dispatch_loop.state is Running,
    {
        DispatchLoop { state: LoopState::Running }
    }

    /// Decide what to do with one delivered event.
    pub fn dispatch(&mut self, event: PlatformEvent) -> (action: DispatchAction)
        ensures
            action == action_for(old(self).state, event),
            final(self).state == next_state(old(self).state, event),
    {
        let close = match event {
            PlatformEvent::Window(WindowEvent::CloseRequested) => true,
            _ => false,
        };
        match self.state {
            LoopState::Running => {
                if close {
                    self.state = LoopState::Terminating;
                    DispatchAction::ReportClose
                } else {
                    DispatchAction::Ignore
                }
            },
            LoopState::Terminating => DispatchAction::Ignore,
        }
    }

    /// Dispatch a whole sequence of events in delivery order, returning the
    /// action taken for each.
    pub fn dispatch_all(&mut self, events: &Vec<PlatformEvent>) -> (actions: Vec<DispatchAction>)
        ensures
            actions@ == actions_after(old(self).state, events@),
            final(self).state == state_after(old(self).state, events@),
    {
        let ghost initial = self.state;
        let mut actions: Vec<DispatchAction> = Vec::new();
        let mut i: usize = 0;
        while i < events.len()
            invariant
                i <= events.len(),
                actions@ == actions_after(initial, events@.take(i as int)),
                self.state == state_after(initial, events@.take(i as int)),
            decreases events.len() - i,
        {
            let ghost prefix = events@.take(i as int);
            let event = events[i];
            let action = self.dispatch(event);
            actions.push(action);
            proof {
                lemma_dispatch_snoc(initial, prefix, events@[i as int]);
                assert(events@.take(i as int + 1) =~= prefix.push(events@[i as int]));
            }
            i = i + 1;
        }
        proof {
            assert(events@.take(events@.len() as int) =~= events@);
        }
        actions
    }
}

/// Appending one event to a sequence extends the fold by exactly that
/// event's action, taken in the state reached after the earlier events.
pub proof fn lemma_dispatch_snoc(state: LoopState, events: Seq<PlatformEvent>, event: PlatformEvent)
    ensures
        state_after(state, events.push(event)) == next_state(state_after(state, events), event),
        actions_after(state, events.push(event)) == actions_after(state, events).push(
            action_for(state_after(state, events), event),
        ),
    decreases events.len(),
{
    if events.len() == 0 {
        reveal_with_fuel(state_after, 2);
        reveal_with_fuel(actions_after, 2);
        assert(events.push(event)[0] == event);
        assert(events.push(event).skip(1) =~= Seq::<PlatformEvent>::empty());
        assert(actions_after(state, events.push(event)) =~= actions_after(state, events).push(
            action_for(state_after(state, events), event),
        ));
    } else {
        assert(events.push(event)[0] == events[0]);
        assert(events.push(event).skip(1) =~= events.skip(1).push(event));
        lemma_dispatch_snoc(next_state(state, events[0]), events.skip(1), event);
        assert(actions_after(state, events.push(event)) =~= actions_after(state, events).push(
            action_for(state_after(state, events), event),
        ));
    }
}

/// Once the loop is terminating it stays terminating, and every further
/// event is ignored.
pub proof fn lemma_terminating_ignores_all(events: Seq<PlatformEvent>)
    ensures
        state_after(LoopState::Terminating, events) is Terminating,
        actions_after(LoopState::Terminating, events).len() == events.len(),
        forall|i: int|
            0 <= i < events.len() ==> actions_after(LoopState::Terminating, events)[i] is Ignore,
    decreases events.len(),
{
    if events.len() > 0 {
        lemma_terminating_ignores_all(events.skip(1));
        let acts = actions_after(LoopState::Terminating, events);
        let rest = actions_after(LoopState::Terminating, events.skip(1));
        assert forall|i: int| 0 <= i < events.len() implies acts[i] is Ignore by {
            if i > 0 {
                assert(acts[i] == rest[i - 1]);
            }
        }
    }
}

/// A freshly started loop is terminating after a sequence of events exactly
/// when some event of the sequence was a close request: the transition out
/// of the running state is completed by the close request and by nothing
/// else.
pub proof fn lemma_terminating_iff_close_observed(events: Seq<PlatformEvent>)
    ensures
        (state_after(LoopState::Running, events) is Terminating) <==> (exists|i: int|
            0 <= i < events.len() && is_close_request(events[i])),
    decreases events.len(),
{
    if events.len() > 0 {
        let rest = events.skip(1);
        if is_close_request(events[0]) {
            lemma_terminating_ignores_all(rest);
            assert(0 <= 0 < events.len() && is_close_request(events[0]));
        } else {
            lemma_terminating_iff_close_observed(rest);
            if exists|i: int| 0 <= i < rest.len() && is_close_request(rest[i]) {
                let i = choose|i: int| 0 <= i < rest.len() && is_close_request(rest[i]);
                assert(events[i + 1] == rest[i]);
            }
            if exists|i: int| 0 <= i < events.len() && is_close_request(events[i]) {
                let i = choose|i: int| 0 <= i < events.len() && is_close_request(events[i]);
                assert(i != 0);
                assert(rest[i - 1] == events[i]);
            }
        }
    }
}

/// For any sequence of events fed to a freshly started loop, the close
/// handler fires exactly at the first close request and nowhere else: the
/// action at position `i` is the close report exactly when event `i` is a
/// close request and no earlier event was one. In particular, surrounding
/// unrelated events never trigger it, and a second close request never
/// fires it again.
pub proof fn lemma_close_reported_exactly_once(events: Seq<PlatformEvent>)
    ensures
        actions_after(LoopState::Running, events).len() == events.len(),
        forall|i: int|
            0 <= i < events.len() ==> ((actions_after(LoopState::Running, events)[i]
                is ReportClose) <==> (is_close_request(events[i]) && (forall|j: int|
                0 <= j < i ==> !is_close_request(events[j])))),
    decreases events.len(),
{
    if events.len() > 0 {
        let acts = actions_after(LoopState::Running, events);
        let rest = events.skip(1);
        if is_close_request(events[0]) {
            lemma_terminating_ignores_all(rest);
            let rest_acts = actions_after(LoopState::Terminating, rest);
            assert forall|i: int| 0 <= i < events.len() implies ((acts[i] is ReportClose) <==> (
            is_close_request(events[i]) && (forall|j: int|
                0 <= j < i ==> !is_close_request(events[j])))) by {
                if i == 0 {
                    assert(acts[0] == action_for(LoopState::Running, events[0]));
                    assert(acts[0] is ReportClose);
                } else {
                    assert(acts[i] == rest_acts[i - 1]);
                    assert(acts[i] is Ignore);
                    assert(is_close_request(events[0]) && 0 < i);
                    assert(!(forall|j: int| 0 <= j < i ==> !is_close_request(events[j])));
                }
            }
        } else {
            lemma_close_reported_exactly_once(rest);
            let rest_acts = actions_after(LoopState::Running, rest);
            assert forall|i: int| 0 <= i < events.len() implies ((acts[i] is ReportClose) <==> (
            is_close_request(events[i]) && (forall|j: int|
                0 <= j < i ==> !is_close_request(events[j])))) by {
                if i == 0 {
                    assert(acts[0] == action_for(LoopState::Running, events[0]));
                    assert(acts[0] is Ignore);
                    assert(!is_close_request(events[0]));
                } else {
                    assert(acts[i] == rest_acts[i - 1]);
                    assert(events[i] == rest[i - 1]);
                    assert((rest_acts[i - 1] is ReportClose) <==> (is_close_request(rest[i - 1])
                        && (forall|j: int| 0 <= j < i - 1 ==> !is_close_request(rest[j]))));
                    if acts[i] is ReportClose {
                        assert forall|j: int| 0 <= j < i implies !is_close_request(events[j]) by {
                            if j > 0 {
                                assert(events[j] == rest[j - 1]);
                            }
                        }
                    }
                    if is_close_request(events[i]) && (forall|j: int|
                        0 <= j < i ==> !is_close_request(events[j])) {
                        assert forall|j: int| 0 <= j < i - 1 implies !is_close_request(
                            rest[j],
                        ) by {
                            assert(rest[j] == events[j + 1]);
                        }
                    }
                }
            }
        }
    }
}

} // verus!
