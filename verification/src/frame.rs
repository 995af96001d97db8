//! What both ways of painting decide alike about an event and a frame.

use crate::event::{Duration, EventResult, PhysicalSize, ViewportId, WindowId};
use crate::options::Theme;
use vstd::prelude::*;

verus! {

/// What the application needs to start to run.
pub struct RunState<C> {
    pub system_theme: Option<Theme>,
    pub theme: Theme,
    /// Whether the mouse is to reach what lies behind the window.
    pub mouse_passthrough: bool,
    /// Whether the root viewport can take input of accessibility clients.
    pub accessible: bool,
    pub app_creator: C,
}

/// A step of the end of a run.
#[derive(Clone, Copy, Debug, PartialEq, Eq, Structural)]
pub enum ShutdownStep {
    /// Save the state of the application, with the window of the root viewport.
    Save,
    /// Tell the application that it ends.
    ExitApp,
    /// Destroy the painter.
    DestroyPainter,
}

/// A run that ends.
pub struct Shutdown<S> {
    /// What is left of the run.
    pub running: S,
    /// What is to be done, in this order.
    pub steps: Vec<ShutdownStep>,
}

/// The steps of the end of a run, whose state is saved or not.
pub open spec fn shutdown_steps_of(saves: bool) -> Seq<ShutdownStep> {
    if saves {
        seq![ShutdownStep::Save, ShutdownStep::ExitApp, ShutdownStep::DestroyPainter]
    } else {
        seq![ShutdownStep::ExitApp, ShutdownStep::DestroyPainter]
    }
}

/// The steps of the end of a run, whose state is saved or not.
pub fn shutdown_steps(saves: bool) -> (steps: Vec<ShutdownStep>)
    ensures
        steps@ == shutdown_steps_of(saves),
{
    let mut steps: Vec<ShutdownStep> = Vec::new();
    if saves {
        steps.push(ShutdownStep::Save);
    }
    steps.push(ShutdownStep::ExitApp);
    steps.push(ShutdownStep::DestroyPainter);
    steps
}

/// What is to be done about an event of a window, before the event is over.
#[derive(Clone, Copy, Debug, PartialEq, Eq)]
pub struct WindowPlan {
    /// The viewport to resize, and its new size.
    pub resize: Option<(ViewportId, PhysicalSize)>,
    /// The viewport whose input the event is.
    pub deliver_to: Option<ViewportId>,
    /// Whether a repaint, if there is one, cannot wait for the next redraw.
    pub repaint_asap: bool,
}

/// What an event of the window `window_id` results in. `repaint` says whether the ui, which has got
/// the event as its input, wants a repaint.
pub open spec fn window_event_result_of(
    window_id: WindowId,
    repaint_asap: bool,
    should_close: bool,
    repaint: bool,
) -> EventResult {
    if should_close {
        EventResult::Exit
    } else if repaint {
        if repaint_asap {
            EventResult::RepaintNow(window_id)
        } else {
            EventResult::RepaintNext(window_id)
        }
    } else {
        EventResult::Wait
    }
}

/// What an event of the window `window_id` results in. `repaint` says whether the ui, which has got
/// the event as its input, wants a repaint; it is `false` when no viewport got it.
pub fn window_event_result(
    window_id: WindowId,
    repaint_asap: bool,
    should_close: bool,
    repaint: bool,
) -> (result: EventResult)
    ensures
        result == window_event_result_of(window_id, repaint_asap, should_close, repaint),
{
    if should_close {
        EventResult::Exit
    } else if repaint {
        if repaint_asap {
            EventResult::RepaintNow(window_id)
        } else {
            EventResult::RepaintNext(window_id)
        }
    } else {
        EventResult::Wait
    }
}

/// How painting a window begins.
#[derive(Clone, Copy, Debug, PartialEq, Eq, Structural)]
pub enum PaintStart {
    /// Nothing is painted.
    Done(EventResult),
    /// The ui of this viewport is run and painted.
    Paint(ViewportId),
}

/// What a frame results in when it is over, where `is_open` says whether its window is still open.
pub open spec fn frame_result_of(is_open: bool, should_close: bool) -> EventResult {
    if is_open && should_close {
        EventResult::Exit
    } else {
        EventResult::Wait
    }
}

/// How long to pause after a frame of a window that says whether it is minimized.
pub open spec fn pause_of(is_minimized: Option<bool>) -> Option<Duration> {
    if is_minimized == Some(true) {
        Some(10_000_000u128)
    } else {
        None
    }
}

/// What painting results in when the frame is over.
pub fn paint_result(should_close: bool) -> (result: EventResult)
    ensures
        result == frame_result_of(true, should_close),
        result == (if should_close {
            EventResult::Exit
        } else {
            EventResult::Wait
        }),
{
    if should_close {
        EventResult::Exit
    } else {
        EventResult::Wait
    }
}

/// What a frame results in when it is over, where `is_open` says whether its window is still open. A
/// window that closed during its frame does not end the application.
pub fn frame_result(is_open: bool, should_close: bool) -> (result: EventResult)
    ensures
        result == frame_result_of(is_open, should_close),
        result == (if is_open && should_close {
            EventResult::Exit
        } else {
            EventResult::Wait
        }),
{
    if is_open {
        paint_result(should_close)
    } else {
        EventResult::Wait
    }
}

/// How long to pause after a frame. A minimized window uses up all of the processor on some
/// systems if it does not pause.
pub fn pause_after_frame(is_minimized: Option<bool>) -> (pause: Option<Duration>)
    ensures
        pause == pause_of(is_minimized),
        pause == (if is_minimized == Some(true) {
            Some(10_000_000u128)
        } else {
            None
        }),
{
    match is_minimized {
        Some(true) => Some(10_000_000),
        _ => None,
    }
}

/// A command of the ui for the window of a viewport.
pub struct ViewportCommandTo {
    pub viewport_id: ViewportId,
    pub command: egui::ViewportCommand,
}

/// A command on its way to an open window.
pub struct RoutedCommand {
    pub window_id: WindowId,
    pub command: egui::ViewportCommand,
    /// Whether the window shows the viewport with the keyboard focus.
    pub is_viewport_focused: bool,
}

/// The command `to` on its way, where `windows` are the windows that viewports are shown in. One for a
/// viewport without a window is dropped.
pub open spec fn route(
    windows: Map<ViewportId, WindowId>,
    focused_viewport: Option<ViewportId>,
    to: ViewportCommandTo,
) -> Option<RoutedCommand> {
    if windows.contains_key(to.viewport_id) {
        Some(
            RoutedCommand {
                window_id: windows[to.viewport_id],
                command: to.command,
                is_viewport_focused: focused_viewport == Some(to.viewport_id),
            },
        )
    } else {
        None
    }
}

/// The commands on their way, in the order in which they were given.
pub open spec fn routed(
    windows: Map<ViewportId, WindowId>,
    focused_viewport: Option<ViewportId>,
    commands: Seq<ViewportCommandTo>,
) -> Seq<RoutedCommand> {
    commands.filter_map(|to: ViewportCommandTo| route(windows, focused_viewport, to))
}

/// Input of a window ends the application exactly if it wants to end. Else it leads to a repaint exactly
/// if the ui wants one, of that window and no other, and one that cannot wait exactly if it is asked for.
pub proof fn law_what_window_input_leads_to(
    window_id: WindowId,
    repaint_asap: bool,
    should_close: bool,
    repaint: bool,
    other: WindowId,
)
    ensures
        ({
            let result = window_event_result_of(window_id, repaint_asap, should_close, repaint);
            &&& result == EventResult::Exit <==> should_close
            &&& result == EventResult::Wait <==> !should_close && !repaint
            &&& result == EventResult::RepaintNow(other) <==> other == window_id && !should_close
                && repaint && repaint_asap
            &&& result == EventResult::RepaintNext(other) <==> other == window_id && !should_close
                && repaint && !repaint_asap
        }),
{
}

/// The state is saved at most once, before the application is told that it ends. The application is told
/// once and the painter is destroyed once, in this order, whether or not the state is saved.
pub proof fn law_how_a_run_ends(saves: bool)
    ensures
        ({
            let steps = shutdown_steps_of(saves);
            let n = steps.len();
            &&& steps.contains(ShutdownStep::Save) <==> saves
            &&& steps.no_duplicates()
            &&& n >= 2 && steps[n - 1] == ShutdownStep::DestroyPainter && steps[n - 2]
                == ShutdownStep::ExitApp
        }),
{
    let steps = shutdown_steps_of(saves);
    assert(saves ==> steps[0] == ShutdownStep::Save);
}

/// Each command for a viewport that is shown in a window reaches that window once, in the order in which
/// the commands were given, and no other command reaches any window. Which viewport has the focus decides
/// only what the window is told of it: the commands are the same. `from` tells which of the commands each
/// that is on its way was.
pub proof fn law_commands_reach_their_windows(
    windows: Map<ViewportId, WindowId>,
    focused_viewport: Option<ViewportId>,
    commands: Seq<ViewportCommandTo>,
) -> (from: Seq<int>)
    ensures
        ({
            let on_their_way = routed(windows, focused_viewport, commands);
            &&& from.len() == on_their_way.len()
            &&& forall|k: int, m: int| 0 <= k < m < from.len() ==> from[k] < from[m]
            &&& forall|k: int|
                0 <= k < from.len() ==> {
                    let to = commands[#[trigger] from[k]];
                    &&& 0 <= from[k] < commands.len()
                    &&& windows.contains_key(to.viewport_id)
                    &&& on_their_way[k].window_id == windows[to.viewport_id]
                    &&& on_their_way[k].command == to.command
                    &&& on_their_way[k].is_viewport_focused <==> focused_viewport == Some(
                        to.viewport_id,
                    )
                }
            &&& forall|i: int|
                0 <= i < commands.len() && windows.contains_key((#[trigger] commands[i]).viewport_id)
                    ==> from.contains(i)
        }),
    decreases commands.len(),
{
    if commands.len() == 0 {
        Seq::empty()
    } else {
        let rest = commands.drop_last();
        let before = law_commands_reach_their_windows(windows, focused_viewport, rest);
        let last = commands.len() - 1;
        let so_far = routed(windows, focused_viewport, rest);
        let on_their_way = routed(windows, focused_viewport, commands);
        let from = if windows.contains_key(commands.last().viewport_id) {
            before.push(last)
        } else {
            before
        };
        assert forall|i: int|
            0 <= i < commands.len() && windows.contains_key(
                (#[trigger] commands[i]).viewport_id,
            ) implies from.contains(i) by {
            if i == last {
                assert(from[from.len() - 1] == last);
            } else {
                assert(rest[i] == commands[i]);
                assert(before.contains(i));
                let k = choose|k: int| 0 <= k < before.len() && before[k] == i;
                assert(from[k] == i);
            }
        }
        assert forall|k: int| 0 <= k < from.len() implies {
            let to = commands[#[trigger] from[k]];
            &&& 0 <= from[k] < commands.len()
            &&& windows.contains_key(to.viewport_id)
            &&& on_their_way[k].window_id == windows[to.viewport_id]
            &&& on_their_way[k].command == to.command
            &&& on_their_way[k].is_viewport_focused <==> focused_viewport == Some(to.viewport_id)
        } by {
            if k < before.len() {
                assert(from[k] == before[k]);
                assert(rest[before[k]] == commands[before[k]]);
                assert(on_their_way[k] == so_far[k]);
            }
        }
        from
    }
}

/// What reaches the windows, apart from what they are told of the focus, does not depend on which
/// viewport has it.
pub proof fn law_focus_does_not_hold_commands_back(
    windows: Map<ViewportId, WindowId>,
    focused_viewport: Option<ViewportId>,
    other: Option<ViewportId>,
    commands: Seq<ViewportCommandTo>,
)
    ensures
        ({
            let one = routed(windows, focused_viewport, commands);
            let two = routed(windows, other, commands);
            &&& one.len() == two.len()
            &&& forall|k: int|
                0 <= k < one.len() ==> (#[trigger] one[k]).window_id == two[k].window_id
                    && one[k].command == two[k].command
        }),
    decreases commands.len(),
{
    if commands.len() > 0 {
        law_focus_does_not_hold_commands_back(
            windows,
            focused_viewport,
            other,
            commands.drop_last(),
        );
    }
}

/// A frame ends the application exactly if it wants to end and the window is still open, and else leads to
/// nothing.
pub proof fn law_what_a_frame_leads_to(is_open: bool, should_close: bool)
    ensures
        frame_result_of(is_open, should_close) == EventResult::Exit <==> is_open && should_close,
        frame_result_of(is_open, should_close) == EventResult::Wait <==> !(is_open && should_close),
{
}

/// There is a pause, of ten milliseconds, exactly after a frame of a window that is known to be minimized.
pub proof fn law_when_there_is_a_pause(is_minimized: Option<bool>)
    ensures
        pause_of(is_minimized) is Some <==> is_minimized is Some && is_minimized->0,
        pause_of(is_minimized) matches Some(pause) ==> pause == 10 * 1_000_000,
{
}

} // verus!
