//! A short name for each kind of event, for profilers.

use crate::event::{DeviceEvent, Event, StartCause, UserEvent, WindowEvent};
use vstd::prelude::*;

verus! {

/// The name of the kind of `event`.
pub open spec fn device_event_name(event: DeviceEvent) -> Seq<char> {
    match event {
        DeviceEvent::Added => "DeviceEvent::Added"@,
        DeviceEvent::Removed => "DeviceEvent::Removed"@,
        DeviceEvent::MouseMotion => "DeviceEvent::MouseMotion"@,
        DeviceEvent::MouseWheel => "DeviceEvent::MouseWheel"@,
        DeviceEvent::Motion => "DeviceEvent::Motion"@,
        DeviceEvent::Button => "DeviceEvent::Button"@,
        DeviceEvent::Key => "DeviceEvent::Key"@,
        DeviceEvent::Text => "DeviceEvent::Text"@,
    }
}

/// The name of `cause`.
pub open spec fn start_cause_name(cause: StartCause) -> Seq<char> {
    match cause {
        StartCause::ResumeTimeReached => "NewEvents::ResumeTimeReached"@,
        StartCause::WaitCancelled => "NewEvents::WaitCancelled"@,
        StartCause::Poll => "NewEvents::Poll"@,
        StartCause::Init => "NewEvents::Init"@,
    }
}

/// The name of the kind of `event`.
pub open spec fn window_event_name(event: WindowEvent) -> Seq<char> {
    match event {
        WindowEvent::Resized(_) => "WindowEvent::Resized"@,
        WindowEvent::Moved => "WindowEvent::Moved"@,
        WindowEvent::CloseRequested => "WindowEvent::CloseRequested"@,
        WindowEvent::Destroyed => "WindowEvent::Destroyed"@,
        WindowEvent::DroppedFile => "WindowEvent::DroppedFile"@,
        WindowEvent::HoveredFile => "WindowEvent::HoveredFile"@,
        WindowEvent::HoveredFileCancelled => "WindowEvent::HoveredFileCancelled"@,
        WindowEvent::ReceivedCharacter => "WindowEvent::ReceivedCharacter"@,
        WindowEvent::Focused(_) => "WindowEvent::Focused"@,
        WindowEvent::KeyboardInput => "WindowEvent::KeyboardInput"@,
        WindowEvent::ModifiersChanged => "WindowEvent::ModifiersChanged"@,
        WindowEvent::Ime => "WindowEvent::Ime"@,
        WindowEvent::CursorMoved => "WindowEvent::CursorMoved"@,
        WindowEvent::CursorEntered => "WindowEvent::CursorEntered"@,
        WindowEvent::CursorLeft => "WindowEvent::CursorLeft"@,
        WindowEvent::MouseWheel => "WindowEvent::MouseWheel"@,
        WindowEvent::MouseInput => "WindowEvent::MouseInput"@,
        WindowEvent::TouchpadMagnify => "WindowEvent::TouchpadMagnify"@,
        WindowEvent::SmartMagnify => "WindowEvent::SmartMagnify"@,
        WindowEvent::TouchpadRotate => "WindowEvent::TouchpadRotate"@,
        WindowEvent::TouchpadPressure => "WindowEvent::TouchpadPressure"@,
        WindowEvent::AxisMotion => "WindowEvent::AxisMotion"@,
        WindowEvent::Touch => "WindowEvent::Touch"@,
        WindowEvent::ScaleFactorChanged { .. } => "WindowEvent::ScaleFactorChanged"@,
        WindowEvent::ThemeChanged => "WindowEvent::ThemeChanged"@,
        WindowEvent::Occluded => "WindowEvent::Occluded"@,
    }
}

/// The name of the kind of `event`.
pub open spec fn event_name(event: Event) -> Seq<char> {
    match event {
        Event::Suspended => "Event::Suspended"@,
        Event::Resumed => "Event::Resumed"@,
        Event::MainEventsCleared => "Event::MainEventsCleared"@,
        Event::RedrawRequested(_) => "Event::RedrawRequested"@,
        Event::RedrawEventsCleared => "Event::RedrawEventsCleared"@,
        Event::LoopDestroyed => "Event::LoopDestroyed"@,
        Event::UserEvent(UserEvent::RequestRepaint { .. }) => "UserEvent::RequestRepaint"@,
        Event::UserEvent(
            UserEvent::AccessKitActionRequest(_),
        ) => "UserEvent::AccessKitActionRequest"@,
        Event::DeviceEvent(event) => device_event_name(event),
        Event::NewEvents(cause) => start_cause_name(cause),
        Event::WindowEvent { event, .. } => window_event_name(event),
    }
}

/// A short description of `event`: the name of its kind.
pub fn short_event_description(event: &Event) -> (description: &'static str)
    ensures
        description@ == event_name(*event),
{
    match event {
        Event::Suspended => "Event::Suspended",
        Event::Resumed => "Event::Resumed",
        Event::MainEventsCleared => "Event::MainEventsCleared",
        Event::RedrawRequested(_) => "Event::RedrawRequested",
        Event::RedrawEventsCleared => "Event::RedrawEventsCleared",
        Event::LoopDestroyed => "Event::LoopDestroyed",
        Event::UserEvent(user_event) => match user_event {
            UserEvent::RequestRepaint { .. } => "UserEvent::RequestRepaint",
            UserEvent::AccessKitActionRequest(_) => "UserEvent::AccessKitActionRequest",
        },
        Event::DeviceEvent(event) => match event {
            DeviceEvent::Added => "DeviceEvent::Added",
            DeviceEvent::Removed => "DeviceEvent::Removed",
            DeviceEvent::MouseMotion => "DeviceEvent::MouseMotion",
            DeviceEvent::MouseWheel => "DeviceEvent::MouseWheel",
            DeviceEvent::Motion => "DeviceEvent::Motion",
            DeviceEvent::Button => "DeviceEvent::Button",
            DeviceEvent::Key => "DeviceEvent::Key",
            DeviceEvent::Text => "DeviceEvent::Text",
        },
        Event::NewEvents(start_cause) => match start_cause {
            StartCause::ResumeTimeReached => "NewEvents::ResumeTimeReached",
            StartCause::WaitCancelled => "NewEvents::WaitCancelled",
            StartCause::Poll => "NewEvents::Poll",
            StartCause::Init => "NewEvents::Init",
        },
        Event::WindowEvent { event, .. } => match event {
            WindowEvent::Resized(_) => "WindowEvent::Resized",
            WindowEvent::Moved => "WindowEvent::Moved",
            WindowEvent::CloseRequested => "WindowEvent::CloseRequested",
            WindowEvent::Destroyed => "WindowEvent::Destroyed",
            WindowEvent::DroppedFile => "WindowEvent::DroppedFile",
            WindowEvent::HoveredFile => "WindowEvent::HoveredFile",
            WindowEvent::HoveredFileCancelled => "WindowEvent::HoveredFileCancelled",
            WindowEvent::ReceivedCharacter => "WindowEvent::ReceivedCharacter",
            WindowEvent::Focused(_) => "WindowEvent::Focused",
            WindowEvent::KeyboardInput => "WindowEvent::KeyboardInput",
            WindowEvent::ModifiersChanged => "WindowEvent::ModifiersChanged",
            WindowEvent::Ime => "WindowEvent::Ime",
            WindowEvent::CursorMoved => "WindowEvent::CursorMoved",
            WindowEvent::CursorEntered => "WindowEvent::CursorEntered",
            WindowEvent::CursorLeft => "WindowEvent::CursorLeft",
            WindowEvent::MouseWheel => "WindowEvent::MouseWheel",
            WindowEvent::MouseInput => "WindowEvent::MouseInput",
            WindowEvent::TouchpadMagnify => "WindowEvent::TouchpadMagnify",
            WindowEvent::SmartMagnify => "WindowEvent::SmartMagnify",
            WindowEvent::TouchpadRotate => "WindowEvent::TouchpadRotate",
            WindowEvent::TouchpadPressure => "WindowEvent::TouchpadPressure",
            WindowEvent::AxisMotion => "WindowEvent::AxisMotion",
            WindowEvent::Touch => "WindowEvent::Touch",
            WindowEvent::ScaleFactorChanged { .. } => "WindowEvent::ScaleFactorChanged",
            WindowEvent::ThemeChanged => "WindowEvent::ThemeChanged",
            WindowEvent::Occluded => "WindowEvent::Occluded",
        },
    }
}

/// What each name is told apart by: its length and a few of its characters.
proof fn lemma_names_differ()
    ensures
        "Event::Suspended"@.len() == 16 && "Event::Suspended"@[0] == 'E',
        "Event::Resumed"@.len() == 14,
        "Event::MainEventsCleared"@.len() == 24 && "Event::MainEventsCleared"@[13] == 'e',
        "Event::RedrawRequested"@.len() == 22 && "Event::RedrawRequested"@[0] == 'E',
        "Event::RedrawEventsCleared"@.len() == 26 && "Event::RedrawEventsCleared"@[13] == 'E',
        "Event::LoopDestroyed"@.len() == 20 && "Event::LoopDestroyed"@[15] == 'r',
        "UserEvent::RequestRepaint"@.len() == 25 && "UserEvent::RequestRepaint"@[13] == 'q',
        "UserEvent::AccessKitActionRequest"@.len() == 33
            && "UserEvent::AccessKitActionRequest"@[0] == 'U',
        "DeviceEvent::Added"@.len() == 18 && "DeviceEvent::Added"@[13] == 'A',
        "DeviceEvent::Removed"@.len() == 20 && "DeviceEvent::Removed"@[15] == 'm',
        "DeviceEvent::MouseMotion"@.len() == 24 && "DeviceEvent::MouseMotion"@[13] == 'M',
        "DeviceEvent::MouseWheel"@.len() == 23
            && "DeviceEvent::MouseWheel"@[0] == 'D'
            && "DeviceEvent::MouseWheel"@[18] == 'W',
        "DeviceEvent::Motion"@.len() == 19 && "DeviceEvent::Motion"@[13] == 'M',
        "DeviceEvent::Button"@.len() == 19 && "DeviceEvent::Button"@[13] == 'B',
        "DeviceEvent::Key"@.len() == 16 && "DeviceEvent::Key"@[0] == 'D',
        "DeviceEvent::Text"@.len() == 17,
        "NewEvents::ResumeTimeReached"@.len() == 28 && "NewEvents::ResumeTimeReached"@[0] == 'N',
        "NewEvents::WaitCancelled"@.len() == 24 && "NewEvents::WaitCancelled"@[13] == 'i',
        "NewEvents::Poll"@.len() == 15 && "NewEvents::Poll"@[11] == 'P',
        "NewEvents::Init"@.len() == 15 && "NewEvents::Init"@[11] == 'I',
        "WindowEvent::Resized"@.len() == 20 && "WindowEvent::Resized"@[15] == 's',
        "WindowEvent::Moved"@.len() == 18 && "WindowEvent::Moved"@[13] == 'M',
        "WindowEvent::CloseRequested"@.len() == 27 && "WindowEvent::CloseRequested"@[13] == 'C',
        "WindowEvent::Destroyed"@.len() == 22 && "WindowEvent::Destroyed"@[0] == 'W',
        "WindowEvent::DroppedFile"@.len() == 24 && "WindowEvent::DroppedFile"@[13] == 'D',
        "WindowEvent::HoveredFile"@.len() == 24 && "WindowEvent::HoveredFile"@[13] == 'H',
        "WindowEvent::HoveredFileCancelled"@.len() == 33
            && "WindowEvent::HoveredFileCancelled"@[0] == 'W',
        "WindowEvent::ReceivedCharacter"@.len() == 30,
        "WindowEvent::Focused"@.len() == 20 && "WindowEvent::Focused"@[15] == 'c',
        "WindowEvent::KeyboardInput"@.len() == 26 && "WindowEvent::KeyboardInput"@[13] == 'K',
        "WindowEvent::ModifiersChanged"@.len() == 29 && "WindowEvent::ModifiersChanged"@[13] == 'M',
        "WindowEvent::Ime"@.len() == 16 && "WindowEvent::Ime"@[0] == 'W',
        "WindowEvent::CursorMoved"@.len() == 24 && "WindowEvent::CursorMoved"@[13] == 'C',
        "WindowEvent::CursorEntered"@.len() == 26 && "WindowEvent::CursorEntered"@[13] == 'C',
        "WindowEvent::CursorLeft"@.len() == 23
            && "WindowEvent::CursorLeft"@[0] == 'W'
            && "WindowEvent::CursorLeft"@[18] == 'r',
        "WindowEvent::MouseWheel"@.len() == 23
            && "WindowEvent::MouseWheel"@[0] == 'W'
            && "WindowEvent::MouseWheel"@[18] == 'W',
        "WindowEvent::MouseInput"@.len() == 23
            && "WindowEvent::MouseInput"@[0] == 'W'
            && "WindowEvent::MouseInput"@[18] == 'I',
        "WindowEvent::TouchpadMagnify"@.len() == 28 && "WindowEvent::TouchpadMagnify"@[0] == 'W',
        "WindowEvent::SmartMagnify"@.len() == 25 && "WindowEvent::SmartMagnify"@[13] == 'S',
        "WindowEvent::TouchpadRotate"@.len() == 27 && "WindowEvent::TouchpadRotate"@[13] == 'T',
        "WindowEvent::TouchpadPressure"@.len() == 29 && "WindowEvent::TouchpadPressure"@[13] == 'T',
        "WindowEvent::AxisMotion"@.len() == 23
            && "WindowEvent::AxisMotion"@[0] == 'W'
            && "WindowEvent::AxisMotion"@[18] == 'o',
        "WindowEvent::Touch"@.len() == 18 && "WindowEvent::Touch"@[13] == 'T',
        "WindowEvent::ScaleFactorChanged"@.len() == 31,
        "WindowEvent::ThemeChanged"@.len() == 25 && "WindowEvent::ThemeChanged"@[13] == 'T',
        "WindowEvent::Occluded"@.len() == 21,
{
    reveal_strlit("Event::Suspended");
    reveal_strlit("Event::Resumed");
    reveal_strlit("Event::MainEventsCleared");
    reveal_strlit("Event::RedrawRequested");
    reveal_strlit("Event::RedrawEventsCleared");
    reveal_strlit("Event::LoopDestroyed");
    reveal_strlit("UserEvent::RequestRepaint");
    reveal_strlit("UserEvent::AccessKitActionRequest");
    reveal_strlit("DeviceEvent::Added");
    reveal_strlit("DeviceEvent::Removed");
    reveal_strlit("DeviceEvent::MouseMotion");
    reveal_strlit("DeviceEvent::MouseWheel");
    reveal_strlit("DeviceEvent::Motion");
    reveal_strlit("DeviceEvent::Button");
    reveal_strlit("DeviceEvent::Key");
    reveal_strlit("DeviceEvent::Text");
    reveal_strlit("NewEvents::ResumeTimeReached");
    reveal_strlit("NewEvents::WaitCancelled");
    reveal_strlit("NewEvents::Poll");
    reveal_strlit("NewEvents::Init");
    reveal_strlit("WindowEvent::Resized");
    reveal_strlit("WindowEvent::Moved");
    reveal_strlit("WindowEvent::CloseRequested");
    reveal_strlit("WindowEvent::Destroyed");
    reveal_strlit("WindowEvent::DroppedFile");
    reveal_strlit("WindowEvent::HoveredFile");
    reveal_strlit("WindowEvent::HoveredFileCancelled");
    reveal_strlit("WindowEvent::ReceivedCharacter");
    reveal_strlit("WindowEvent::Focused");
    reveal_strlit("WindowEvent::KeyboardInput");
    reveal_strlit("WindowEvent::ModifiersChanged");
    reveal_strlit("WindowEvent::Ime");
    reveal_strlit("WindowEvent::CursorMoved");
    reveal_strlit("WindowEvent::CursorEntered");
    reveal_strlit("WindowEvent::CursorLeft");
    reveal_strlit("WindowEvent::MouseWheel");
    reveal_strlit("WindowEvent::MouseInput");
    reveal_strlit("WindowEvent::TouchpadMagnify");
    reveal_strlit("WindowEvent::SmartMagnify");
    reveal_strlit("WindowEvent::TouchpadRotate");
    reveal_strlit("WindowEvent::TouchpadPressure");
    reveal_strlit("WindowEvent::AxisMotion");
    reveal_strlit("WindowEvent::Touch");
    reveal_strlit("WindowEvent::ScaleFactorChanged");
    reveal_strlit("WindowEvent::ThemeChanged");
    reveal_strlit("WindowEvent::Occluded");
}

/// A name tells the kind of the event: each name is given to every event of one kind, whatever it carries,
/// and to no other event.
pub proof fn law_names_tell_the_kind(event: Event)
    ensures
        event_name(event) == "Event::Suspended"@ <==> event matches Event::Suspended,
        event_name(event) == "Event::Resumed"@ <==> event matches Event::Resumed,
        event_name(event) == "Event::MainEventsCleared"@ <==> event
            matches Event::MainEventsCleared,
        event_name(event) == "Event::RedrawRequested"@ <==> event matches Event::RedrawRequested(_),
        event_name(event) == "Event::RedrawEventsCleared"@ <==> event
            matches Event::RedrawEventsCleared,
        event_name(event) == "Event::LoopDestroyed"@ <==> event matches Event::LoopDestroyed,
        event_name(event) == "UserEvent::RequestRepaint"@ <==> event
            matches Event::UserEvent(UserEvent::RequestRepaint { .. }),
        event_name(event) == "UserEvent::AccessKitActionRequest"@ <==> event
            matches Event::UserEvent(UserEvent::AccessKitActionRequest(_)),
        event_name(event) == "DeviceEvent::Added"@ <==> event
            matches Event::DeviceEvent(DeviceEvent::Added),
        event_name(event) == "DeviceEvent::Removed"@ <==> event
            matches Event::DeviceEvent(DeviceEvent::Removed),
        event_name(event) == "DeviceEvent::MouseMotion"@ <==> event
            matches Event::DeviceEvent(DeviceEvent::MouseMotion),
        event_name(event) == "DeviceEvent::MouseWheel"@ <==> event
            matches Event::DeviceEvent(DeviceEvent::MouseWheel),
        event_name(event) == "DeviceEvent::Motion"@ <==> event
            matches Event::DeviceEvent(DeviceEvent::Motion),
        event_name(event) == "DeviceEvent::Button"@ <==> event
            matches Event::DeviceEvent(DeviceEvent::Button),
        event_name(event) == "DeviceEvent::Key"@ <==> event
            matches Event::DeviceEvent(DeviceEvent::Key),
        event_name(event) == "DeviceEvent::Text"@ <==> event
            matches Event::DeviceEvent(DeviceEvent::Text),
        event_name(event) == "NewEvents::ResumeTimeReached"@ <==> event
            matches Event::NewEvents(StartCause::ResumeTimeReached),
        event_name(event) == "NewEvents::WaitCancelled"@ <==> event
            matches Event::NewEvents(StartCause::WaitCancelled),
        event_name(event) == "NewEvents::Poll"@ <==> event
            matches Event::NewEvents(StartCause::Poll),
        event_name(event) == "NewEvents::Init"@ <==> event
            matches Event::NewEvents(StartCause::Init),
        event_name(event) == "WindowEvent::Resized"@ <==> event
            matches Event::WindowEvent { event: WindowEvent::Resized(_), .. },
        event_name(event) == "WindowEvent::Moved"@ <==> event
            matches Event::WindowEvent { event: WindowEvent::Moved, .. },
        event_name(event) == "WindowEvent::CloseRequested"@ <==> event
            matches Event::WindowEvent { event: WindowEvent::CloseRequested, .. },
        event_name(event) == "WindowEvent::Destroyed"@ <==> event
            matches Event::WindowEvent { event: WindowEvent::Destroyed, .. },
        event_name(event) == "WindowEvent::DroppedFile"@ <==> event
            matches Event::WindowEvent { event: WindowEvent::DroppedFile, .. },
        event_name(event) == "WindowEvent::HoveredFile"@ <==> event
            matches Event::WindowEvent { event: WindowEvent::HoveredFile, .. },
        event_name(event) == "WindowEvent::HoveredFileCancelled"@ <==> event
            matches Event::WindowEvent { event: WindowEvent::HoveredFileCancelled, .. },
        event_name(event) == "WindowEvent::ReceivedCharacter"@ <==> event
            matches Event::WindowEvent { event: WindowEvent::ReceivedCharacter, .. },
        event_name(event) == "WindowEvent::Focused"@ <==> event
            matches Event::WindowEvent { event: WindowEvent::Focused(_), .. },
        event_name(event) == "WindowEvent::KeyboardInput"@ <==> event
            matches Event::WindowEvent { event: WindowEvent::KeyboardInput, .. },
        event_name(event) == "WindowEvent::ModifiersChanged"@ <==> event
            matches Event::WindowEvent { event: WindowEvent::ModifiersChanged, .. },
        event_name(event) == "WindowEvent::Ime"@ <==> event
            matches Event::WindowEvent { event: WindowEvent::Ime, .. },
        event_name(event) == "WindowEvent::CursorMoved"@ <==> event
            matches Event::WindowEvent { event: WindowEvent::CursorMoved, .. },
        event_name(event) == "WindowEvent::CursorEntered"@ <==> event
            matches Event::WindowEvent { event: WindowEvent::CursorEntered, .. },
        event_name(event) == "WindowEvent::CursorLeft"@ <==> event
            matches Event::WindowEvent { event: WindowEvent::CursorLeft, .. },
        event_name(event) == "WindowEvent::MouseWheel"@ <==> event
            matches Event::WindowEvent { event: WindowEvent::MouseWheel, .. },
        event_name(event) == "WindowEvent::MouseInput"@ <==> event
            matches Event::WindowEvent { event: WindowEvent::MouseInput, .. },
        event_name(event) == "WindowEvent::TouchpadMagnify"@ <==> event
            matches Event::WindowEvent { event: WindowEvent::TouchpadMagnify, .. },
        event_name(event) == "WindowEvent::SmartMagnify"@ <==> event
            matches Event::WindowEvent { event: WindowEvent::SmartMagnify, .. },
        event_name(event) == "WindowEvent::TouchpadRotate"@ <==> event
            matches Event::WindowEvent { event: WindowEvent::TouchpadRotate, .. },
        event_name(event) == "WindowEvent::TouchpadPressure"@ <==> event
            matches Event::WindowEvent { event: WindowEvent::TouchpadPressure, .. },
        event_name(event) == "WindowEvent::AxisMotion"@ <==> event
            matches Event::WindowEvent { event: WindowEvent::AxisMotion, .. },
        event_name(event) == "WindowEvent::Touch"@ <==> event
            matches Event::WindowEvent { event: WindowEvent::Touch, .. },
        event_name(event) == "WindowEvent::ScaleFactorChanged"@ <==> event
            matches Event::WindowEvent { event: WindowEvent::ScaleFactorChanged { .. }, .. },
        event_name(event) == "WindowEvent::ThemeChanged"@ <==> event
            matches Event::WindowEvent { event: WindowEvent::ThemeChanged, .. },
        event_name(event) == "WindowEvent::Occluded"@ <==> event
            matches Event::WindowEvent { event: WindowEvent::Occluded, .. },
{
    lemma_names_differ();
}

} // verus!
