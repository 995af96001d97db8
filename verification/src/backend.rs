//! The native resources that a windowing backend supplies. This crate moves them around and never
//! looks inside.

use crate::event::{ViewportId, ViewportIdPair, WindowId, ROOT};
use vstd::prelude::*;

verus! {

/// The resources that every backend has.
pub trait Backend {
    /// A handle to an open native window.
    type Window;

    /// What turns the native input of one window into input of the ui.
    type InputState;

    /// The user-code that shows the ui of a viewport.
    type UiCallback;

    /// What creates the application once there is a window.
    type AppCreator;
}

/// The resources of a backend that paints with OpenGL.
pub trait GlBackend: Backend {
    /// The surface of a window that OpenGL paints on.
    type Surface;

    /// An OpenGL context that is current on this thread.
    type CurrentContext;

    /// An OpenGL context that is not current.
    type NotCurrentContext;
}

/// The resources of a backend that paints with wgpu.
pub trait WgpuBackend: Backend {
    /// What paints all the windows.
    type Painter;
}

/// An open native window.
pub struct NativeWindow<W> {
    pub id: WindowId,
    pub handle: W,
}

/// A viewport that the ui wants to be shown in a native window of its own.
pub struct ViewportOutput<R: Backend> {
    /// The attributes of the window.
    pub builder: egui::ViewportBuilder,
    pub id_pair: ViewportIdPair,
    /// `None` for viewports that are painted together with their parent.
    pub viewport_ui_cb: Option<R::UiCallback>,
}

/// The viewport ids that stay: those that the ui asked for, and the root viewport.
pub open spec fn active_ids<R: Backend>(outputs: Seq<ViewportOutput<R>>) -> Set<ViewportId> {
    Set::new(
        |id: ViewportId|
            id == ROOT || exists|i: int|
                0 <= i < outputs.len() && (#[trigger] outputs[i]).id_pair.this == id,
    )
}

/// Whether `outputs` ask for no viewport twice.
pub open spec fn ids_are_distinct<R: Backend>(outputs: Seq<ViewportOutput<R>>) -> bool {
    forall|i: int, j: int|
        0 <= i < j < outputs.len() ==> (#[trigger] outputs[i]).id_pair.this != (
        #[trigger] outputs[j]).id_pair.this
}

/// Whether a window that shows the viewport `shown`, if any, has the keyboard focus, which the viewport
/// `focus` has, if any.
pub open spec fn has_focus(focus: Option<ViewportId>, shown: Option<ViewportId>) -> bool {
    focus is Some && shown == focus
}

/// A viewport stays exactly if it is the root or the ui asked for it.
pub proof fn law_who_is_active<R: Backend>(outputs: Seq<ViewportOutput<R>>, id: ViewportId, j: int)
    requires
        0 <= j < outputs.len(),
    ensures
        active_ids(outputs).contains(ROOT),
        active_ids(outputs).contains(outputs[j].id_pair.this),
        active_ids(outputs).contains(id) && id != ROOT ==> exists|i: int|
            0 <= i < outputs.len() && (#[trigger] outputs[i]).id_pair.this == id,
{
}

/// Without any output only the root stays.
pub proof fn law_the_root_stays<R: Backend>(outputs: Seq<ViewportOutput<R>>, id: ViewportId)
    requires
        outputs.len() == 0,
    ensures
        active_ids(outputs).contains(id) <==> id == ROOT,
{
}

/// No viewport is asked for twice exactly if any two outputs that ask for the same are one.
pub proof fn law_outputs_are_told_apart<R: Backend>(
    outputs: Seq<ViewportOutput<R>>,
    i: int,
    j: int,
)
    requires
        ids_are_distinct(outputs),
        0 <= i < outputs.len(),
        0 <= j < outputs.len(),
    ensures
        outputs[i].id_pair.this == outputs[j].id_pair.this <==> i == j,
{
}

/// A window has the focus exactly if it shows the viewport that has it.
pub proof fn law_who_has_the_focus(
    focus: Option<ViewportId>,
    shown: Option<ViewportId>,
    viewport_id: ViewportId,
)
    ensures
        focus == Some(viewport_id) ==> (has_focus(focus, shown) <==> shown == Some(viewport_id)),
        focus is None || shown is None ==> !has_focus(focus, shown),
{
}

/// What the event loop asks of the application that it drives.
pub trait WinitApp {
    type Window;

    /// The open window with the id `window_id`.
    spec fn window_of(&self, window_id: WindowId) -> Option<NativeWindow<Self::Window>>;

    /// The id of the window that shows the viewport `id`.
    spec fn window_id_of(&self, id: ViewportId) -> Option<WindowId>;

    /// The viewport that is shown in the window `id`.
    spec fn viewport_id_of(&self, id: WindowId) -> Option<ViewportId>;

    /// The viewport with the keyboard focus.
    spec fn focus(&self) -> Option<ViewportId>;

    /// Whether the window `window_id` shows the viewport with the keyboard focus.
    fn is_focused(&self, window_id: WindowId) -> (focused: bool)
        ensures
            focused == has_focus(self.focus(), self.viewport_id_of(window_id)),
            focused == (self.focus() is Some && self.viewport_id_of(window_id) == self.focus()),
    ;

    /// The open window with the id `window_id`.
    fn window(&self, window_id: WindowId) -> (window: Option<&NativeWindow<Self::Window>>)
        ensures
            match window {
                Some(window) => self.window_of(window_id) == Some(*window),
                None => self.window_of(window_id) is None,
            },
    ;

    /// The id of the window that shows the viewport `id`.
    fn window_id_from_viewport_id(&self, id: ViewportId) -> (window_id: Option<WindowId>)
        ensures
            window_id == self.window_id_of(id),
    ;

    /// The viewport that is shown in the window `id`.
    fn viewport_id_from_window_id(&self, id: WindowId) -> (viewport_id: Option<ViewportId>)
        ensures
            viewport_id == self.viewport_id_of(id),
    ;
}

} // verus!
