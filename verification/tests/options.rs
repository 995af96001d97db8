use eframe_native::description::short_event_description;
use eframe_native::event::{
    ActionRequestEvent, DeviceEvent, Event, EventResult, PhysicalSize, StartCause, TargetOs,
    UserEvent, ViewportIdPair, WindowEvent,
};
use eframe_native::frame::{frame_result, paint_result, pause_after_frame, window_event_result};
use eframe_native::glow_integration::context::surface_size;
use eframe_native::options::{
    system_theme, ContextAttempt, GlConfigRequest, HardwareAcceleration, NativeOptions,
    PainterConfig, SwapInterval, Theme,
};

fn options() -> NativeOptions {
    NativeOptions {
        run_and_return: true,
        vsync: true,
        multisampling: 4,
        depth_buffer: 24,
        stencil_buffer: 8,
        hardware_acceleration: HardwareAcceleration::Required,
        transparent: true,
        follow_system_theme: true,
        default_theme: Theme::Light,
        mouse_passthrough: false,
        app_id: None,
    }
}

#[test]
fn the_gl_config_follows_the_options() {
    assert_eq!(
        options().gl_config(),
        GlConfigRequest {
            hardware_acceleration: Some(true),
            depth_size: 24,
            stencil_size: 8,
            transparency: true,
            multisampling: Some(4),
        }
    );
    let preferred = NativeOptions {
        hardware_acceleration: HardwareAcceleration::Preferred,
        multisampling: 0,
        ..options()
    };
    assert_eq!(preferred.gl_config().hardware_acceleration, None);
    assert_eq!(preferred.gl_config().multisampling, None);
    let off = NativeOptions {
        hardware_acceleration: HardwareAcceleration::Off,
        multisampling: 255,
        ..options()
    };
    assert_eq!(off.gl_config().hardware_acceleration, Some(false));
    assert_eq!(off.gl_config().multisampling, Some(255));
}

#[test]
fn vsync_waits_for_one_refresh() {
    assert_eq!(options().swap_interval(), SwapInterval::Wait(1));
    let free = NativeOptions { vsync: false, ..options() };
    assert_eq!(free.swap_interval(), SwapInterval::DontWait);
}

#[test]
fn the_painter_takes_at_least_one_sample() {
    assert_eq!(
        options().painter_config(),
        PainterConfig { msaa_samples: 4, depth_buffer: 24, stencil_buffer: 8, transparent: true }
    );
    let none = NativeOptions { multisampling: 0, transparent: false, ..options() };
    assert_eq!(
        none.painter_config(),
        PainterConfig { msaa_samples: 1, depth_buffer: 24, stencil_buffer: 8, transparent: false }
    );
}

#[test]
fn the_theme_of_the_system_counts_if_it_is_followed() {
    let follows = options();
    assert_eq!(system_theme(Some(Theme::Dark), &follows), Some(Theme::Dark));
    assert_eq!(system_theme(None, &follows), None);
    assert_eq!(follows.initial_theme(Some(Theme::Dark)), Theme::Dark);
    assert_eq!(follows.initial_theme(None), Theme::Light);
    let ignores = NativeOptions { follow_system_theme: false, ..options() };
    assert_eq!(system_theme(Some(Theme::Dark), &ignores), None);
    assert_eq!(ignores.initial_theme(Some(Theme::Dark)), Theme::Light);
}

#[test]
fn the_state_is_stored_under_the_app_id_if_there_is_one() {
    let name = "My App".to_owned();
    assert_eq!(options().storage_name(&name), "My App");
    let with_id = NativeOptions { app_id: Some("my_app".to_owned()), ..options() };
    assert_eq!(with_id.storage_name(&name), "my_app");
}

#[test]
fn opengl_es_is_the_fallback() {
    assert_eq!(ContextAttempt::Default.after_failure(), Some(ContextAttempt::Gles));
    assert_eq!(ContextAttempt::Gles.after_failure(), None);
}

#[test]
fn desktop_systems() {
    for desktop in [
        TargetOs::FreeBsd,
        TargetOs::Linux,
        TargetOs::MacOs,
        TargetOs::OpenBsd,
        TargetOs::Windows,
    ] {
        assert!(desktop.is_desktop());
    }
    for other in [TargetOs::Ios, TargetOs::Android, TargetOs::Other] {
        assert!(!other.is_desktop());
    }
}

#[test]
fn the_root_is_its_own_parent() {
    assert_eq!(ViewportIdPair::root(), ViewportIdPair { this: 0, parent: 0 });
}

#[test]
fn surfaces_have_no_empty_side() {
    let size = |width, height| PhysicalSize { width, height };
    assert_eq!(surface_size(size(640, 480)), size(640, 480));
    assert_eq!(surface_size(size(0, 480)), size(1, 480));
    assert_eq!(surface_size(size(640, 0)), size(640, 1));
    assert_eq!(surface_size(size(0, 0)), size(1, 1));
}

#[test]
fn what_an_event_of_a_window_results_in() {
    assert_eq!(window_event_result(5, true, true, true), EventResult::Exit);
    assert_eq!(window_event_result(5, true, false, true), EventResult::RepaintNow(5));
    assert_eq!(window_event_result(5, false, false, true), EventResult::RepaintNext(5));
    assert_eq!(window_event_result(5, true, false, false), EventResult::Wait);
    assert_eq!(window_event_result(5, false, true, false), EventResult::Exit);
}

#[test]
fn a_frame_ends_the_application_or_waits() {
    assert_eq!(paint_result(true), EventResult::Exit);
    assert_eq!(paint_result(false), EventResult::Wait);
}

#[test]
fn a_window_that_closed_during_its_frame_does_not_end_the_application() {
    assert_eq!(frame_result(true, true), EventResult::Exit);
    assert_eq!(frame_result(true, false), EventResult::Wait);
    assert_eq!(frame_result(false, true), EventResult::Wait);
    assert_eq!(frame_result(false, false), EventResult::Wait);
}

#[test]
fn minimized_windows_pause_for_ten_milliseconds() {
    assert_eq!(pause_after_frame(Some(true)), Some(10_000_000));
    assert_eq!(pause_after_frame(Some(false)), None);
    assert_eq!(pause_after_frame(None), None);
}

#[test]
fn events_have_short_descriptions() {
    let window = |event| Event::WindowEvent { window_id: 1, event };
    let size = PhysicalSize { width: 1, height: 1 };
    for (event, name) in [
        (Event::Suspended, "Event::Suspended"),
        (Event::Resumed, "Event::Resumed"),
        (Event::MainEventsCleared, "Event::MainEventsCleared"),
        (Event::RedrawRequested(1), "Event::RedrawRequested"),
        (Event::RedrawEventsCleared, "Event::RedrawEventsCleared"),
        (Event::LoopDestroyed, "Event::LoopDestroyed"),
        (
            Event::UserEvent(UserEvent::RequestRepaint { viewport_id: 0, when: 0, frame_nr: 0 }),
            "UserEvent::RequestRepaint",
        ),
        (
            Event::UserEvent(UserEvent::AccessKitActionRequest(ActionRequestEvent {
                request: 2,
                window_id: 1,
            })),
            "UserEvent::AccessKitActionRequest",
        ),
        (Event::DeviceEvent(DeviceEvent::Added), "DeviceEvent::Added"),
        (Event::DeviceEvent(DeviceEvent::Text), "DeviceEvent::Text"),
        (Event::NewEvents(StartCause::ResumeTimeReached), "NewEvents::ResumeTimeReached"),
        (Event::NewEvents(StartCause::Init), "NewEvents::Init"),
        (window(WindowEvent::Resized(size)), "WindowEvent::Resized"),
        (window(WindowEvent::Focused(true)), "WindowEvent::Focused"),
        (
            window(WindowEvent::ScaleFactorChanged { new_inner_size: size }),
            "WindowEvent::ScaleFactorChanged",
        ),
        (window(WindowEvent::CloseRequested), "WindowEvent::CloseRequested"),
        (window(WindowEvent::Occluded), "WindowEvent::Occluded"),
    ] {
        assert_eq!(short_event_description(&event), name);
    }
}
