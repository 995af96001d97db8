use eframe_native::backend::{Backend, GlBackend, NativeWindow};
use eframe_native::event::{
    ActionRequestEvent, ControlFlow, Event, EventResult, RequestRepaintInfo, StartCause, TargetOs,
    UserEvent, WindowEvent, ROOT,
};
use eframe_native::glow_integration::app::GlowWinitApp;
use eframe_native::glow_integration::context::GlutinWindowContext;
use eframe_native::options::{HardwareAcceleration, NativeOptions, Theme};
use eframe_native::run_loop::{Dispatch, FollowUp, RunLoop, RunMode};

struct Fake;

impl Backend for Fake {
    type Window = &'static str;
    type InputState = u8;
    type UiCallback = u8;
    type AppCreator = u8;
}

impl GlBackend for Fake {
    type Surface = u8;
    type CurrentContext = u8;
    type NotCurrentContext = u8;
}

fn options() -> NativeOptions {
    NativeOptions {
        run_and_return: true,
        vsync: true,
        multisampling: 0,
        depth_buffer: 0,
        stencil_buffer: 0,
        hardware_acceleration: HardwareAcceleration::Preferred,
        transparent: false,
        follow_system_theme: false,
        default_theme: Theme::Dark,
        mouse_passthrough: false,
        app_id: None,
    }
}

/// An application whose root viewport is shown in the window 10.
fn running() -> GlowWinitApp<Fake> {
    let mut app = GlowWinitApp::new("app".to_owned(), options(), 0);
    let window = NativeWindow { id: 10, handle: "root" };
    let mut context = GlutinWindowContext::new(
        egui::ViewportBuilder::default(),
        &app.native_options,
        1,
        Some(window),
    );
    let window = context.begin_init_viewport(ROOT).unwrap();
    context.take_gl_context();
    context.finish_init_viewport(ROOT, window, 1, 2, Some(3));
    app.finish_run_state(context);
    app
}

fn run_loop(mode: RunMode, target_os: TargetOs) -> RunLoop<String> {
    RunLoop::new(mode, target_os, ControlFlow::Wait)
}

fn request(frame_nr: u64) -> Event {
    Event::UserEvent(UserEvent::RequestRepaint { viewport_id: ROOT, when: 500, frame_nr })
}

#[test]
fn ios_never_returns() {
    assert_eq!(RunMode::select(TargetOs::Linux, true), RunMode::Return);
    assert_eq!(RunMode::select(TargetOs::Linux, false), RunMode::Exit);
    assert_eq!(RunMode::select(TargetOs::Ios, true), RunMode::Exit);
    assert_eq!(RunMode::select(TargetOs::Ios, false), RunMode::Exit);
}

#[test]
fn a_new_loop_has_nothing_scheduled() {
    let run_loop = run_loop(RunMode::Return, TargetOs::Linux);
    assert!(run_loop.windows_next_repaint_times.is_empty());
    assert_eq!(run_loop.control_flow, ControlFlow::Wait);
    assert_eq!(run_loop.into_result(), Ok(()));
}

#[test]
fn the_end_of_the_loop_saves() {
    let mut run_loop = run_loop(RunMode::Return, TargetOs::MacOs);
    let dispatch = run_loop.dispatch(&running(), &Event::LoopDestroyed, 0);
    assert_eq!(dispatch, Dispatch::Done(EventResult::Exit));
    assert_eq!(run_loop.heed(EventResult::Exit, 0), FollowUp::SaveAndExit);
    assert_eq!(run_loop.control_flow, ControlFlow::Exit);
}

#[test]
fn a_loop_that_exits_leaves_the_flow_alone() {
    let mut run_loop = run_loop(RunMode::Exit, TargetOs::Linux);
    run_loop.control_flow = ControlFlow::Poll;
    assert_eq!(run_loop.heed(EventResult::Wait, 0), FollowUp::Continue);
    assert_eq!(run_loop.control_flow, ControlFlow::Poll);
    assert_eq!(run_loop.heed(EventResult::Exit, 0), FollowUp::SaveAndExit);
    assert_eq!(run_loop.control_flow, ControlFlow::Poll);
}

#[test]
fn waiting_sets_the_flow_of_a_loop_that_returns() {
    let mut run_loop = run_loop(RunMode::Return, TargetOs::Linux);
    run_loop.control_flow = ControlFlow::Poll;
    assert_eq!(run_loop.heed(EventResult::Wait, 0), FollowUp::Continue);
    assert_eq!(run_loop.control_flow, ControlFlow::Wait);
}

#[test]
fn a_redraw_leaves_the_schedule() {
    let mut run_loop = run_loop(RunMode::Return, TargetOs::Linux);
    run_loop.windows_next_repaint_times.insert(10, 5);
    run_loop.windows_next_repaint_times.insert(11, 6);
    let dispatch = run_loop.dispatch(&running(), &Event::RedrawRequested(10), 0);
    assert_eq!(dispatch, Dispatch::RunUiAndPaint(10));
    assert_eq!(run_loop.windows_next_repaint_times.get(&10), None);
    assert_eq!(run_loop.windows_next_repaint_times.get(&11), Some(&6));
}

#[test]
fn only_recent_repaint_requests_count() {
    let app = running();
    let mut run_loop = run_loop(RunMode::Return, TargetOs::Linux);
    let repaint = Dispatch::Done(EventResult::RepaintAt(10, 500));
    let wait = Dispatch::Done(EventResult::Wait);
    assert_eq!(run_loop.dispatch(&app, &request(7), 7), repaint);
    assert_eq!(run_loop.dispatch(&app, &request(7), 8), repaint);
    assert_eq!(run_loop.dispatch(&app, &request(7), 9), wait);
    assert_eq!(run_loop.dispatch(&app, &request(7), 6), wait);
    assert_eq!(run_loop.dispatch(&app, &request(u64::MAX), u64::MAX), repaint);
    assert!(run_loop.windows_next_repaint_times.is_empty());
}

#[test]
fn a_repaint_request_for_an_unknown_viewport_waits() {
    let mut run_loop = run_loop(RunMode::Return, TargetOs::Linux);
    let event =
        Event::UserEvent(UserEvent::RequestRepaint { viewport_id: 77, when: 500, frame_nr: 1 });
    assert_eq!(run_loop.dispatch(&running(), &event, 1), Dispatch::Done(EventResult::Wait));
}

#[test]
fn waking_up_does_nothing() {
    let mut run_loop = run_loop(RunMode::Exit, TargetOs::Linux);
    let woken = Event::NewEvents(StartCause::ResumeTimeReached);
    assert_eq!(run_loop.dispatch(&running(), &woken, 0), Dispatch::Done(EventResult::Wait));
    let polled = Event::NewEvents(StartCause::Poll);
    assert_eq!(run_loop.dispatch(&running(), &polled, 0), Dispatch::OnEvent);
}

#[test]
fn the_modes_differ_on_unknown_windows_only() {
    let app = running();
    let known = Event::WindowEvent { window_id: 10, event: WindowEvent::Moved };
    let unknown = Event::WindowEvent { window_id: 99, event: WindowEvent::Moved };
    let mut returning = run_loop(RunMode::Return, TargetOs::Linux);
    let mut exiting = run_loop(RunMode::Exit, TargetOs::Linux);
    assert_eq!(returning.dispatch(&app, &known, 0), Dispatch::OnEvent);
    assert_eq!(exiting.dispatch(&app, &known, 0), Dispatch::OnEvent);
    assert_eq!(
        returning.dispatch(&app, &unknown, 0),
        Dispatch::Done(EventResult::RepaintNext(99))
    );
    assert_eq!(exiting.dispatch(&app, &unknown, 0), Dispatch::OnEvent);
    assert_eq!(returning.dispatch(&app, &Event::Resumed, 0), Dispatch::OnEvent);
    assert_eq!(exiting.dispatch(&app, &Event::Resumed, 0), Dispatch::OnEvent);
}

#[test]
fn an_error_ends_the_loop_that_returns_it() {
    let mut run_loop = run_loop(RunMode::Return, TargetOs::Linux);
    assert_eq!(run_loop.handled(Ok(EventResult::RepaintNext(3))), EventResult::RepaintNext(3));
    assert_eq!(run_loop.handled(Err("no display".to_owned())), EventResult::Exit);
    assert_eq!(run_loop.into_result(), Err("no display".to_owned()));
}

#[test]
fn a_later_repaint_never_postpones_an_earlier_one() {
    let mut run_loop = run_loop(RunMode::Return, TargetOs::Linux);
    run_loop.heed(EventResult::RepaintAt(1, 300), 0);
    assert_eq!(run_loop.windows_next_repaint_times.get(&1), Some(&300));
    run_loop.heed(EventResult::RepaintAt(1, 400), 0);
    assert_eq!(run_loop.windows_next_repaint_times.get(&1), Some(&300));
    run_loop.heed(EventResult::RepaintAt(1, 200), 0);
    assert_eq!(run_loop.windows_next_repaint_times.get(&1), Some(&200));
}

#[test]
fn repaint_requests_commute() {
    let mut one_way = run_loop(RunMode::Return, TargetOs::Linux);
    one_way.heed(EventResult::RepaintAt(1, 300), 0);
    one_way.heed(EventResult::RepaintAt(1, 200), 0);
    one_way.heed(EventResult::RepaintAt(2, 100), 0);
    let mut other_way = run_loop(RunMode::Return, TargetOs::Linux);
    other_way.heed(EventResult::RepaintAt(2, 100), 0);
    other_way.heed(EventResult::RepaintAt(1, 200), 0);
    other_way.heed(EventResult::RepaintAt(1, 300), 0);
    other_way.heed(EventResult::RepaintAt(1, 300), 0);
    assert_eq!(one_way.windows_next_repaint_times, other_way.windows_next_repaint_times);
}

#[test]
fn a_repaint_now_is_painted_at_once_on_windows_only() {
    let mut on_windows = run_loop(RunMode::Return, TargetOs::Windows);
    on_windows.windows_next_repaint_times.insert(10, 5);
    assert_eq!(on_windows.heed(EventResult::RepaintNow(10), 42), FollowUp::PaintNow(10));
    assert!(on_windows.windows_next_repaint_times.is_empty());

    let mut on_linux = run_loop(RunMode::Return, TargetOs::Linux);
    on_linux.windows_next_repaint_times.insert(10, 5);
    assert_eq!(on_linux.heed(EventResult::RepaintNow(10), 42), FollowUp::Continue);
    assert_eq!(on_linux.windows_next_repaint_times.get(&10), Some(&42));
}

#[test]
fn a_repaint_next_is_due_at_once() {
    let mut run_loop = run_loop(RunMode::Exit, TargetOs::Windows);
    assert_eq!(run_loop.heed(EventResult::RepaintNext(10), 42), FollowUp::Continue);
    assert_eq!(run_loop.windows_next_repaint_times.get(&10), Some(&42));
}

#[test]
fn due_windows_are_redrawn_or_forgotten() {
    let mut run_loop = run_loop(RunMode::Return, TargetOs::Linux);
    run_loop.windows_next_repaint_times.insert(10, 100); // open and due
    run_loop.windows_next_repaint_times.insert(11, 100); // due and not open
    run_loop.windows_next_repaint_times.insert(12, 101); // not due
    let settled = run_loop.settle(&running(), &Event::RedrawEventsCleared, 100);
    assert_eq!(settled.redraws, vec![10]);
    assert_eq!(settled.redraw_root, None);
    assert_eq!(run_loop.control_flow, ControlFlow::Poll);
    assert_eq!(run_loop.windows_next_repaint_times.get(&10), Some(&100));
    assert_eq!(run_loop.windows_next_repaint_times.get(&11), None);
    assert_eq!(run_loop.windows_next_repaint_times.get(&12), Some(&101));
}

#[test]
fn redraws_are_requested_at_redraw_events_only() {
    for event in [Event::RedrawRequested(1), Event::Resumed, Event::RedrawEventsCleared] {
        let mut run_loop = run_loop(RunMode::Return, TargetOs::Linux);
        run_loop.windows_next_repaint_times.insert(10, 100);
        assert_eq!(run_loop.settle(&running(), &event, 100).redraws, vec![10]);
        assert_eq!(run_loop.control_flow, ControlFlow::Poll);
    }
    let mut run_loop = run_loop(RunMode::Return, TargetOs::Linux);
    run_loop.windows_next_repaint_times.insert(10, 100);
    let settled = run_loop.settle(&running(), &Event::MainEventsCleared, 100);
    assert!(settled.redraws.is_empty());
    assert_eq!(run_loop.control_flow, ControlFlow::WaitUntil(100));
}

#[test]
fn the_loop_sleeps_until_the_earliest_repaint() {
    let mut run_loop = run_loop(RunMode::Return, TargetOs::Linux);
    run_loop.windows_next_repaint_times.insert(10, 300);
    run_loop.windows_next_repaint_times.insert(11, 200);
    run_loop.windows_next_repaint_times.insert(12, 400);
    let settled = run_loop.settle(&running(), &Event::RedrawEventsCleared, 100);
    assert!(settled.redraws.is_empty());
    assert_eq!(run_loop.control_flow, ControlFlow::WaitUntil(200));
}

#[test]
fn the_flow_stays_when_nothing_is_scheduled() {
    let mut run_loop = run_loop(RunMode::Exit, TargetOs::Linux);
    run_loop.control_flow = ControlFlow::Poll;
    run_loop.settle(&running(), &Event::RedrawEventsCleared, 100);
    assert_eq!(run_loop.control_flow, ControlFlow::Poll);
}

#[test]
fn ios_redraws_the_root_window_instead_of_sleeping() {
    let mut on_ios = run_loop(RunMode::Exit, TargetOs::Ios);
    on_ios.windows_next_repaint_times.insert(10, 300);
    let settled = on_ios.settle(&running(), &Event::MainEventsCleared, 100);
    assert_eq!(settled.redraw_root, Some(10));
    assert_eq!(on_ios.control_flow, ControlFlow::WaitUntil(300));
    // There is nothing to wait for once a window is due.
    let settled = on_ios.settle(&running(), &Event::RedrawEventsCleared, 300);
    assert_eq!(settled.redraw_root, None);
    assert_eq!(settled.redraws, vec![10]);

    let mut on_linux = run_loop(RunMode::Exit, TargetOs::Linux);
    on_linux.windows_next_repaint_times.insert(10, 300);
    let settled = on_linux.settle(&running(), &Event::MainEventsCleared, 100);
    assert_eq!(settled.redraw_root, None);
}

#[test]
fn events_are_cleared_on_windows() {
    assert!(run_loop(RunMode::Return, TargetOs::Windows).clears_events_after());
    assert!(!run_loop(RunMode::Return, TargetOs::MacOs).clears_events_after());
}

#[test]
fn a_request_of_the_ui_becomes_an_event() {
    let info = RequestRepaintInfo { viewport_id: 4, after: 25, current_frame_nr: 9 };
    assert_eq!(
        UserEvent::request_repaint(100, info),
        UserEvent::RequestRepaint { viewport_id: 4, when: 125, frame_nr: 9 }
    );
}

#[test]
fn an_accessibility_request_becomes_an_event() {
    let request = ActionRequestEvent { request: 8, window_id: 6 };
    assert_eq!(UserEvent::from(request), UserEvent::AccessKitActionRequest(request));
}
