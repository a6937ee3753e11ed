use vstd::prelude::*;

verus! {

/// The name under which the main window's class is registered.
pub const WINDOW_CLASS_NAME: &'static str = "mainwindow";

/// The main window's title.
pub const WINDOW_TITLE: &'static str = "Rusty Beagle!";

/// The class style `CS_HREDRAW | CS_VREDRAW`: redraw the whole window when
/// its width or height changes.
pub const WINDOW_CLASS_STYLE: u32 = 0x0003;

/// The window style `WS_OVERLAPPEDWINDOW`: caption, system menu, sizing
/// border, minimize and maximize boxes.
pub const WINDOW_STYLE: u32 = 0x00CF_0000;

/// `WM_DESTROY`: the window is being destroyed.
pub const WM_DESTROY: u32 = 0x0002;

/// `WM_CLOSE`: the user asked the window to close.
pub const WM_CLOSE: u32 = 0x0010;

/// `WM_QUIT`: the application is asked to terminate.
pub const WM_QUIT: u32 = 0x0012;

/// The messages on which the window procedure ends the session.
pub open spec fn ends_session(msg: u32) -> bool {
    msg == WM_QUIT || msg == WM_DESTROY || msg == WM_CLOSE
}

/// What the window procedure does with one message.
#[derive(PartialEq, Eq, Structural, Clone, Copy, Debug)]
pub enum WindowProcAction {
    /// Call `PostQuitMessage(exit_code)` and return `result` to Windows.
    PostQuit { exit_code: i32, result: isize },
    /// Hand the message to `DefWindowProcW` and return what it returns.
    DefaultProcedure,
}

/// Decides how the main window's procedure answers message `u_msg`:
/// a quit, destroy or close message posts a quit message with exit code 0
/// and is answered with 0; every other message goes to the default
/// window procedure.
pub fn window_proc_action(u_msg: u32) -> (action: WindowProcAction)
    ensures
        ends_session(u_msg) ==> action == (WindowProcAction::PostQuit { exit_code: 0, result: 0 }),
        !ends_session(u_msg) ==> action == WindowProcAction::DefaultProcedure,
        (u_msg == 0x0012 || u_msg == 0x0002 || u_msg == 0x0010) ==> action == (
        WindowProcAction::PostQuit { exit_code: 0, result: 0 }),
        !(u_msg == 0x0012 || u_msg == 0x0002 || u_msg == 0x0010) ==> action
            == WindowProcAction::DefaultProcedure,
{
    if u_msg == WM_QUIT || u_msg == WM_DESTROY || u_msg == WM_CLOSE {
        WindowProcAction::PostQuit { exit_code: 0, result: 0 }
    } else {
        WindowProcAction::DefaultProcedure
    }
}

/// The session ends on exactly three messages, `WM_QUIT` (0x0012),
/// `WM_DESTROY` (0x0002) and `WM_CLOSE` (0x0010); every other message,
/// such as `WM_SIZE` (0x0005) or `WM_PAINT` (0x000F), is left to the
/// default window procedure.
pub proof fn lemma_session_ends_on_exactly_three_messages(msg: u32)
    ensures
        ends_session(msg) <==> (msg == 0x0012 || msg == 0x0002 || msg == 0x0010),
        !ends_session(0x0005),
        !ends_session(0x000F),
{
}

} // verus!
