//! Event routing: menu activations and tray clicks become window
//! actions.
//!
//! Both routers are total, panic-free dispatches over closed
//! enumerations. A routed action is turned into a `DispatchPlan`: the
//! exact window calls to make, the exit request if any, and the
//! lookup miss that was swallowed if the main window is absent.

use vstd::prelude::*;
use crate::errors::ShellError;

verus! {

/// What a routed event asks the host to do.
#[derive(Clone, Copy, Debug, PartialEq, Eq, Structural)]
pub enum ShellAction {
    /// Bring the main window to the foreground: show it, then focus it.
    ShowAndFocusMain,
    /// Terminate the process with exit code zero.
    ExitProcess,
    /// Nothing; unknown ids and uninteresting clicks land here.
    NoAction,
}

/// One call into the window registry.
#[derive(Clone, Copy, Debug, PartialEq, Eq, Structural)]
pub enum WindowOp {
    /// Make the window visible.
    Show,
    /// Give the window keyboard focus.
    Focus,
}

/// The mouse button of a tray click.
#[derive(Clone, Copy, Debug, PartialEq, Eq, Structural)]
pub enum TrayButton {
    LeftButton,
    RightButton,
    MiddleButton,
}

/// The phase of a tray click: button going down or coming up.
#[derive(Clone, Copy, Debug, PartialEq, Eq, Structural)]
pub enum ClickPhase {
    Pressed,
    Released,
}

/// Menu routing: "show" brings the window to the front, "quit" exits,
/// every other id is ignored.
pub open spec fn menu_route_spec(id: Seq<char>) -> ShellAction {
    if id == "show"@ {
        ShellAction::ShowAndFocusMain
    } else if id == "quit"@ {
        ShellAction::ExitProcess
    } else {
        ShellAction::NoAction
    }
}

/// Tray-click routing: only a left button released on the icon brings
/// the window to the front; every other click shape is ignored.
pub open spec fn click_route_spec(button: TrayButton, phase: ClickPhase) -> ShellAction {
    if button is LeftButton && phase is Released {
        ShellAction::ShowAndFocusMain
    } else {
        ShellAction::NoAction
    }
}

/// Routes one activated menu item by its id.
pub fn route_menu_event(id: &str) -> (a: ShellAction)
    ensures
        a == menu_route_spec(id@),
{
    let id_owned: String = id.to_owned();
    if id_owned == "show".to_owned() {
        ShellAction::ShowAndFocusMain
    } else if id_owned == "quit".to_owned() {
        ShellAction::ExitProcess
    } else {
        ShellAction::NoAction
    }
}

/// Routes one tray-icon click by button and phase.
pub fn route_tray_click(button: TrayButton, phase: ClickPhase) -> (a: ShellAction)
    ensures
        a == click_route_spec(button, phase),
{
    match (button, phase) {
        (TrayButton::LeftButton, ClickPhase::Released) => ShellAction::ShowAndFocusMain,
        _ => ShellAction::NoAction,
    }
}

/// The window calls an action demands: show then focus, exactly once
/// each, when the window is there to receive them; nothing otherwise.
pub open spec fn window_ops_spec(action: ShellAction, window_present: bool) -> Seq<WindowOp> {
    if action is ShowAndFocusMain && window_present {
        seq![WindowOp::Show, WindowOp::Focus]
    } else {
        Seq::empty()
    }
}

/// The exit request an action carries: code zero for `ExitProcess`.
pub open spec fn exit_code_spec(action: ShellAction) -> Option<i32> {
    if action is ExitProcess {
        Some(0)
    } else {
        None
    }
}

/// The failure an action swallows: a lookup miss when the window is
/// wanted but absent. It is recorded here, never surfaced.
pub open spec fn swallowed_spec(action: ShellAction, window_present: bool) -> Option<ShellError> {
    if action is ShowAndFocusMain && !window_present {
        Some(ShellError::WindowLookupMiss)
    } else {
        None
    }
}

/// Everything the host must do for one routed event.
pub struct DispatchPlan {
    /// The identifier of the window the calls are aimed at.
    pub window_target: String,
    /// The window-registry calls to make, in order.
    pub ops: Vec<WindowOp>,
    /// The exit code to terminate with, if the event asks for that.
    pub exit_code: Option<i32>,
    /// The failure swallowed on a best-effort path, if any.
    pub swallowed: Option<ShellError>,
}

/// Turns a routed action into the plan the host carries out against
/// the main window.
pub fn dispatch(action: ShellAction, window_present: bool) -> (p: DispatchPlan)
    ensures
        p.window_target@ == "main"@,
        p.ops@ == window_ops_spec(action, window_present),
        p.exit_code == exit_code_spec(action),
        p.swallowed == swallowed_spec(action, window_present),
{
    let mut ops: Vec<WindowOp> = Vec::new();
    let mut exit_code: Option<i32> = None;
    let mut swallowed: Option<ShellError> = None;
    match action {
        ShellAction::ShowAndFocusMain => {
            if window_present {
                ops.push(WindowOp::Show);
                ops.push(WindowOp::Focus);
            } else {
                swallowed = Some(ShellError::WindowLookupMiss);
            }
        },
        ShellAction::ExitProcess => {
            exit_code = Some(0);
        },
        ShellAction::NoAction => {},
    }
    assert(ops@ =~= window_ops_spec(action, window_present));
    DispatchPlan { window_target: "main".to_owned(), ops, exit_code, swallowed }
}

/// Menu dispatch, end to end: "show" makes exactly one show call and
/// one focus call on the main window and no exit; "quit" makes no
/// window calls and exits with code zero; any other id does nothing.
pub proof fn lemma_menu_event_dispatch(id: Seq<char>, window_present: bool)
    ensures
        id == "show"@ && window_present ==> window_ops_spec(menu_route_spec(id), window_present)
            == seq![WindowOp::Show, WindowOp::Focus],
        id == "show"@ ==> exit_code_spec(menu_route_spec(id)) is None,
        id == "quit"@ ==> window_ops_spec(menu_route_spec(id), window_present)
            == Seq::<WindowOp>::empty() && exit_code_spec(menu_route_spec(id)) == Some(0i32),
        id != "show"@ && id != "quit"@ ==> window_ops_spec(menu_route_spec(id), window_present)
            == Seq::<WindowOp>::empty() && exit_code_spec(menu_route_spec(id)) is None,
{
    assert("show"@ != "quit"@) by {
        reveal_strlit("show");
        reveal_strlit("quit");
        assert("show"@[0] == 's' && "quit"@[0] == 'q');
    }
}

/// Tray-click dispatch: the window is brought to the front exactly for
/// a released left button; no click shape ever exits the process.
pub proof fn lemma_tray_click_routing(button: TrayButton, phase: ClickPhase)
    ensures
        click_route_spec(button, phase) == ShellAction::ShowAndFocusMain <==> (button
            is LeftButton && phase is Released),
        click_route_spec(button, phase) != ShellAction::ExitProcess,
{
}

} // verus!
