use vstd::prelude::*;

use crate::window::WM_QUIT;

verus! {

/// The state that the main loop carries from one iteration to the next.
#[derive(PartialEq, Eq, Structural, Clone, Copy, Debug)]
pub struct LoopState {
    /// Set once a quit message has been taken from the queue; the loop
    /// stops before its next iteration.
    pub should_quit: bool,
}

/// What one poll of the message queue (`PeekMessageW` with `PM_REMOVE`) found.
#[derive(PartialEq, Eq, Structural, Clone, Copy, Debug)]
pub enum LoopEvent {
    /// A message with this identifier was removed from the queue.
    Message(u32),
    /// The queue was empty.
    NoMessage,
}

/// What the loop does in one iteration.
#[derive(PartialEq, Eq, Structural, Clone, Copy, Debug)]
pub enum LoopAction {
    /// Pass the message through `TranslateMessage` and `DispatchMessageW`.
    TranslateAndDispatch,
    /// Clear the render target and depth buffer, draw and present a frame.
    RenderFrame,
}

/// The state after one iteration: a quit message sets the quit flag, and
/// nothing ever clears it.
pub open spec fn next_loop_state(state: LoopState, event: LoopEvent) -> LoopState {
    match event {
        LoopEvent::Message(msg) => LoopState { should_quit: state.should_quit || msg == WM_QUIT },
        LoopEvent::NoMessage => state,
    }
}

/// The action of one iteration: messages are dispatched, an empty queue
/// renders a frame.
pub open spec fn loop_action(event: LoopEvent) -> LoopAction {
    match event {
        LoopEvent::Message(_) => LoopAction::TranslateAndDispatch,
        LoopEvent::NoMessage => LoopAction::RenderFrame,
    }
}

/// The state after a whole run of iterations, one per event, in order.
pub open spec fn run_loop(state: LoopState, events: Seq<LoopEvent>) -> LoopState
    decreases events.len(),
{
    if events.len() == 0 {
        state
    } else {
        next_loop_state(run_loop(state, events.drop_last()), events.last())
    }
}

/// The state in which the loop starts: not quitting.
pub fn initial_loop_state() -> (state: LoopState)
    ensures
        !state.should_quit,
{
    LoopState { should_quit: false }
}

/// Whether the loop runs another iteration from `state`.
pub fn keeps_running(state: &LoopState) -> (running: bool)
    ensures
        running == !state.should_quit,
{
    !state.should_quit
}

/// One iteration of the main loop: given what the queue poll found,
/// the next state and the action to carry out.
pub fn loop_step(state: LoopState, event: LoopEvent) -> (out: (LoopState, LoopAction))
    ensures
        out.0 == next_loop_state(state, event),
        out.1 == loop_action(event),
        event matches LoopEvent::Message(msg) ==> out.0.should_quit == (state.should_quit || msg == 0x0012)
            && out.1 == LoopAction::TranslateAndDispatch,
        event == LoopEvent::NoMessage ==> out.0 == state && out.1 == LoopAction::RenderFrame,
{
    match event {
        LoopEvent::Message(msg) => {
            let quit = state.should_quit || msg == WM_QUIT;
            (LoopState { should_quit: quit }, LoopAction::TranslateAndDispatch)
        },
        LoopEvent::NoMessage => (state, LoopAction::RenderFrame),
    }
}

/// One iteration, stated on the message number: only message 0x0012
/// (`WM_QUIT`) sets the quit flag, nothing clears it, every message is
/// dispatched, and an empty queue renders without changing the state.
pub proof fn lemma_loop_step_on_messages(state: LoopState, msg: u32)
    ensures
        next_loop_state(state, LoopEvent::Message(msg)).should_quit == (state.should_quit || msg == 0x0012),
        loop_action(LoopEvent::Message(msg)) == LoopAction::TranslateAndDispatch,
        next_loop_state(state, LoopEvent::NoMessage) == state,
        loop_action(LoopEvent::NoMessage) == LoopAction::RenderFrame,
{
}

/// Once the loop has decided to quit, no event makes it run on.
pub proof fn lemma_quit_is_sticky(state: LoopState, events: Seq<LoopEvent>)
    requires
        state.should_quit,
    ensures
        run_loop(state, events).should_quit,
    decreases events.len(),
{
    if events.len() > 0 {
        lemma_quit_is_sticky(state, events.drop_last());
    }
}

/// Starting from a running loop, a run of events ends in the quitting
/// state exactly when one of the events is a `WM_QUIT` message.
pub proof fn lemma_quits_iff_quit_message(events: Seq<LoopEvent>)
    ensures
        run_loop(LoopState { should_quit: false }, events).should_quit
            <==> exists|i: int| 0 <= i < events.len() && events[i] == LoopEvent::Message(WM_QUIT),
    decreases events.len(),
{
    let start = LoopState { should_quit: false };
    if events.len() > 0 {
        let init = events.drop_last();
        lemma_quits_iff_quit_message(init);
        if exists|i: int| 0 <= i < init.len() && init[i] == LoopEvent::Message(WM_QUIT) {
            let i = choose|i: int| 0 <= i < init.len() && init[i] == LoopEvent::Message(WM_QUIT);
            assert(events[i] == init[i]);
        }
        if exists|i: int| 0 <= i < events.len() && events[i] == LoopEvent::Message(WM_QUIT) {
            let i = choose|i: int| 0 <= i < events.len() && events[i] == LoopEvent::Message(WM_QUIT);
            if i < init.len() {
                assert(init[i] == events[i]);
            }
        }
    }
}

/// A frame is rendered exactly when the queue was empty, and then the
/// state does not change.
pub proof fn lemma_render_only_when_idle(state: LoopState, event: LoopEvent)
    ensures
        (loop_action(event) == LoopAction::RenderFrame) <==> (event == LoopEvent::NoMessage),
        loop_action(event) == LoopAction::RenderFrame ==> next_loop_state(state, event) == state,
{
}

} // verus!
