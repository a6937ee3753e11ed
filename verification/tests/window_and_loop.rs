use rusty_beagle::{
    initial_loop_state, keeps_running, loop_step, window_proc_action, LoopAction, LoopEvent, LoopState,
    WindowProcAction, WM_CLOSE, WM_DESTROY, WM_QUIT,
};

const WM_PAINT: u32 = 0x000F;
const WM_KEYDOWN: u32 = 0x0100;

#[test]
fn window_proc_posts_quit_on_quit_destroy_and_close() {
    for msg in [WM_QUIT, WM_DESTROY, WM_CLOSE] {
        assert_eq!(
            window_proc_action(msg),
            WindowProcAction::PostQuit { exit_code: 0, result: 0 }
        );
    }
}

#[test]
fn window_proc_defers_other_messages() {
    for msg in [0u32, WM_PAINT, WM_KEYDOWN, 0x0011, 0x0013, u32::MAX] {
        assert_eq!(window_proc_action(msg), WindowProcAction::DefaultProcedure);
    }
}

#[test]
fn message_constants_are_the_win32_values() {
    assert_eq!(WM_DESTROY, 2);
    assert_eq!(WM_CLOSE, 16);
    assert_eq!(WM_QUIT, 18);
}

#[test]
fn loop_starts_running() {
    let state = initial_loop_state();
    assert!(!state.should_quit);
    assert!(keeps_running(&state));
}

#[test]
fn quit_message_stops_loop_after_dispatch() {
    let (next, action) = loop_step(initial_loop_state(), LoopEvent::Message(WM_QUIT));
    assert!(next.should_quit);
    assert!(!keeps_running(&next));
    assert_eq!(action, LoopAction::TranslateAndDispatch);
}

#[test]
fn other_messages_are_dispatched_and_keep_running() {
    for msg in [WM_CLOSE, WM_DESTROY, WM_PAINT] {
        let (next, action) = loop_step(initial_loop_state(), LoopEvent::Message(msg));
        assert!(!next.should_quit);
        assert_eq!(action, LoopAction::TranslateAndDispatch);
    }
}

#[test]
fn empty_queue_renders_a_frame() {
    let state = initial_loop_state();
    let (next, action) = loop_step(state, LoopEvent::NoMessage);
    assert_eq!(next, state);
    assert_eq!(action, LoopAction::RenderFrame);
}

#[test]
fn quit_flag_is_sticky() {
    let quitting = LoopState { should_quit: true };
    for event in [LoopEvent::NoMessage, LoopEvent::Message(WM_PAINT), LoopEvent::Message(WM_QUIT)] {
        let (next, _) = loop_step(quitting, event);
        assert!(next.should_quit);
    }
}

#[test]
fn a_run_quits_exactly_when_a_quit_message_came() {
    let events = [
        LoopEvent::NoMessage,
        LoopEvent::Message(WM_PAINT),
        LoopEvent::NoMessage,
        LoopEvent::Message(WM_QUIT),
        LoopEvent::NoMessage,
    ];
    let mut state = initial_loop_state();
    let mut renders = 0;
    for (i, event) in events.iter().enumerate() {
        let (next, action) = loop_step(state, *event);
        if action == LoopAction::RenderFrame {
            renders += 1;
        }
        state = next;
        assert_eq!(state.should_quit, i >= 3);
    }
    assert_eq!(renders, 3);

    let mut state = initial_loop_state();
    for event in [LoopEvent::Message(WM_CLOSE), LoopEvent::Message(WM_DESTROY), LoopEvent::NoMessage] {
        state = loop_step(state, event).0;
    }
    assert!(!state.should_quit);
}
