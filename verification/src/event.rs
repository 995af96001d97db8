//! Events of the native event loop, and what handling one of them can ask for.

use vstd::prelude::*;

verus! {

/// Identifies a viewport, i.e. a region of the screen that the ui is shown in.
pub type ViewportId = u64;

/// Identifies a native window.
pub type WindowId = u64;

/// A point in time: nanoseconds on a monotonic clock.
pub type Instant = u128;

/// A length of time in nanoseconds.
pub type Duration = u128;

/// The viewport that every application has from its start to its end.
pub const ROOT: ViewportId = 0;

/// A viewport together with the viewport it was opened from.
#[derive(Clone, Copy, Debug, PartialEq, Eq, Structural)]
pub struct ViewportIdPair {
    pub this: ViewportId,
    pub parent: ViewportId,
}

impl ViewportIdPair {
    /// The root viewport, which is its own parent.
    pub fn root() -> (pair: ViewportIdPair)
        ensures
            pair == (ViewportIdPair { this: ROOT, parent: ROOT }),
    {
        ViewportIdPair { this: ROOT, parent: ROOT }
    }
}

/// A size in physical pixels.
#[derive(Clone, Copy, Debug, PartialEq, Eq, Structural)]
pub struct PhysicalSize {
    pub width: u32,
    pub height: u32,
}

/// The number that a request of an accessibility client is kept under until it is delivered.
pub type ActionRequest = u64;

/// An accessibility client asks for an action in a window.
#[derive(Clone, Copy, Debug, PartialEq, Eq, Structural)]
pub struct ActionRequestEvent {
    pub request: ActionRequest,
    pub window_id: WindowId,
}

/// What the ui says when it asks for a repaint.
#[derive(Clone, Copy, Debug, PartialEq, Eq, Structural)]
pub struct RequestRepaintInfo {
    /// What to repaint.
    pub viewport_id: ViewportId,
    /// How long to wait before the repaint.
    pub after: Duration,
    /// The number of the frame that asked.
    pub current_frame_nr: u64,
}

/// The events that the integration sends to its own event loop.
#[derive(Clone, Copy, Debug, PartialEq, Eq, Structural)]
pub enum UserEvent {
    /// A repaint is requested.
    RequestRepaint {
        /// What to repaint.
        viewport_id: ViewportId,
        /// When to repaint.
        when: Instant,
        /// What the frame number was when the repaint was _requested_.
        frame_nr: u64,
    },
    /// A request of an accessibility client.
    AccessKitActionRequest(ActionRequestEvent),
}

impl UserEvent {
    /// The event that a repaint request of the ui, made at `now`, turns into.
    pub open spec fn requested_at(now: Instant, info: RequestRepaintInfo) -> UserEvent {
        UserEvent::RequestRepaint {
            viewport_id: info.viewport_id,
            when: (now + info.after) as u128,
            frame_nr: info.current_frame_nr,
        }
    }

    /// The event that a repaint request of the ui, made at `now`, turns into.
    pub fn request_repaint(now: Instant, info: RequestRepaintInfo) -> (event: UserEvent)
        requires
            now + info.after <= u128::MAX,
        ensures
            event == Self::requested_at(now, info),
            event == (UserEvent::RequestRepaint {
                viewport_id: info.viewport_id,
                when: (now + info.after) as u128,
                frame_nr: info.current_frame_nr,
            }),
    {
        UserEvent::RequestRepaint {
            viewport_id: info.viewport_id,
            when: now + info.after,
            frame_nr: info.current_frame_nr,
        }
    }
}

impl From<ActionRequestEvent> for UserEvent {
    fn from(inner: ActionRequestEvent) -> (event: UserEvent) {
        UserEvent::AccessKitActionRequest(inner)
    }
}

impl vstd::std_specs::convert::FromSpecImpl<ActionRequestEvent> for UserEvent {
    open spec fn obeys_from_spec() -> bool {
        true
    }

    open spec fn from_spec(inner: ActionRequestEvent) -> UserEvent {
        UserEvent::AccessKitActionRequest(inner)
    }
}

/// Why a new batch of events begins.
#[derive(Clone, Copy, Debug, PartialEq, Eq, Structural)]
pub enum StartCause {
    ResumeTimeReached,
    WaitCancelled,
    Poll,
    Init,
}

/// An event of an input device, of which only the kind matters here.
#[derive(Clone, Copy, Debug, PartialEq, Eq, Structural)]
pub enum DeviceEvent {
    Added,
    Removed,
    MouseMotion,
    MouseWheel,
    Motion,
    Button,
    Key,
    Text,
}

/// An event of one window. Kinds that are handled alike whatever they carry carry nothing.
#[derive(Clone, Copy, Debug, PartialEq, Eq, Structural)]
pub enum WindowEvent {
    Resized(PhysicalSize),
    Moved,
    CloseRequested,
    Destroyed,
    DroppedFile,
    HoveredFile,
    HoveredFileCancelled,
    ReceivedCharacter,
    Focused(bool),
    KeyboardInput,
    ModifiersChanged,
    Ime,
    CursorMoved,
    CursorEntered,
    CursorLeft,
    MouseWheel,
    MouseInput,
    TouchpadMagnify,
    SmartMagnify,
    TouchpadRotate,
    TouchpadPressure,
    AxisMotion,
    Touch,
    ScaleFactorChanged { new_inner_size: PhysicalSize },
    ThemeChanged,
    Occluded,
}

/// An event of the native event loop.
#[derive(Clone, Copy, Debug, PartialEq, Eq, Structural)]
pub enum Event {
    NewEvents(StartCause),
    WindowEvent { window_id: WindowId, event: WindowEvent },
    DeviceEvent(DeviceEvent),
    UserEvent(UserEvent),
    Suspended,
    Resumed,
    MainEventsCleared,
    RedrawRequested(WindowId),
    RedrawEventsCleared,
    LoopDestroyed,
}

/// What is to be done once an event has been handled.
#[derive(Clone, Copy, Debug, PartialEq, Eq, Structural)]
pub enum EventResult {
    /// Nothing.
    Wait,
    /// A repaint that cannot wait. On Windows it is made inside the event handler, since a window
    /// that is resized flickers there if it is not painted at once. Elsewhere the window is put on
    /// the schedule, to be repainted now.
    RepaintNow(WindowId),
    /// A repaint once the event loop handles its next redraw, so that several input events can
    /// be handled in one frame.
    RepaintNext(WindowId),
    /// A repaint at the given time.
    RepaintAt(WindowId, Instant),
    /// The end of the application.
    Exit,
}

/// What the event loop does when it has no event left.
#[derive(Clone, Copy, Debug, PartialEq, Eq, Structural)]
pub enum ControlFlow {
    Poll,
    Wait,
    WaitUntil(Instant),
    Exit,
}

/// The operating system the application runs on.
#[derive(Clone, Copy, Debug, PartialEq, Eq, Structural)]
pub enum TargetOs {
    FreeBsd,
    Linux,
    MacOs,
    OpenBsd,
    Windows,
    Ios,
    Android,
    Other,
}

impl TargetOs {
    /// Whether this is a system for desktop computers.
    pub open spec fn is_for_desktops(self) -> bool {
        self is FreeBsd || self is Linux || self is MacOs || self is OpenBsd || self is Windows
    }

    /// Whether this is a system for desktop computers.
    pub fn is_desktop(self) -> (desktop: bool)
        ensures
            desktop == self.is_for_desktops(),
            desktop == (self is FreeBsd || self is Linux || self is MacOs || self is OpenBsd
                || self is Windows),
    {
        match self {
            TargetOs::FreeBsd
            | TargetOs::Linux
            | TargetOs::MacOs
            | TargetOs::OpenBsd
            | TargetOs::Windows => true,
            TargetOs::Ios | TargetOs::Android | TargetOs::Other => false,
        }
    }
}

/// The event that a repaint request turns into is about the viewport and the frame that asked, and the
/// repaint comes exactly as long after the present as was asked for.
pub proof fn law_repaint_requests_keep_their_delay(now: Instant, info: RequestRepaintInfo)
    requires
        now + info.after <= u128::MAX,
    ensures
        UserEvent::requested_at(now, info) matches UserEvent::RequestRepaint {
            viewport_id,
            when,
            frame_nr,
        } && when - now == info.after && viewport_id == info.viewport_id && frame_nr
            == info.current_frame_nr,
{
}

/// A request of an accessibility client goes through the loop as it is.
pub proof fn law_action_requests_are_wrapped(request: ActionRequestEvent)
    ensures
        <UserEvent as vstd::std_specs::convert::FromSpec<ActionRequestEvent>>::from_spec(request)
            matches UserEvent::AccessKitActionRequest(inner) && inner.window_id == request.window_id
            && inner.request == request.request,
{
}

/// Every system is for desktop computers but those for phones and those that are not known.
pub proof fn law_which_systems_are_for_desktops(target_os: TargetOs)
    ensures
        !target_os.is_for_desktops() <==> target_os == TargetOs::Ios || target_os == TargetOs::Android
            || target_os == TargetOs::Other,
{
}

} // verus!
