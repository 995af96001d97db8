use eframe_native::backend::{Backend, NativeWindow, ViewportOutput, WgpuBackend, WinitApp};
use eframe_native::event::{
    ActionRequestEvent, Event, EventResult, PhysicalSize, TargetOs, UserEvent, ViewportIdPair,
    WindowEvent, ROOT,
};
use eframe_native::frame::{PaintStart, ShutdownStep, ViewportCommandTo, WindowPlan};
use eframe_native::options::{HardwareAcceleration, NativeOptions, Theme};
use eframe_native::wgpu_integration::app::{WgpuWinitApp, WgpuWork};
use eframe_native::wgpu_integration::shared::SharedState;

struct FakeGpu;

impl Backend for FakeGpu {
    type Window = &'static str;
    type InputState = u8;
    type UiCallback = &'static str;
    type AppCreator = &'static str;
}

impl WgpuBackend for FakeGpu {
    type Painter = &'static str;
}

fn options() -> NativeOptions {
    NativeOptions {
        run_and_return: true,
        vsync: false,
        multisampling: 0,
        depth_buffer: 0,
        stencil_buffer: 0,
        hardware_acceleration: HardwareAcceleration::Preferred,
        transparent: false,
        follow_system_theme: true,
        default_theme: Theme::Dark,
        mouse_passthrough: true,
        app_id: None,
    }
}

fn titled(title: &str) -> egui::ViewportBuilder {
    egui::ViewportBuilder::default().with_title(title)
}

fn output(this: u64, parent: u64, builder: egui::ViewportBuilder) -> ViewportOutput<FakeGpu> {
    ViewportOutput { builder, id_pair: ViewportIdPair { this, parent }, viewport_ui_cb: Some("ui") }
}

fn window(id: u64) -> NativeWindow<&'static str> {
    NativeWindow { id, handle: "window" }
}

fn shared() -> SharedState<FakeGpu> {
    SharedState::new(titled("root"), window(10), 9, "painter")
}

/// The root viewport in the window 10, and the viewport 1, which has a callback, in the window 11.
fn wgpu_app() -> WgpuWinitApp<FakeGpu> {
    let mut app = WgpuWinitApp::new("app".to_owned(), options(), "creator");
    app.finish_run_state(titled("root"), window(10), 9, "painter");
    let changes = app.process_outputs(vec![output(1, ROOT, titled("one"))], Vec::new());
    assert!(app.finish_frame(10, &changes.active));
    assert_eq!(app.windows_to_build(), vec![1]);
    app.running.as_mut().unwrap().init_window(1, window(11), 8);
    app
}

fn window_event(window_id: u64, event: WindowEvent) -> Event {
    Event::WindowEvent { window_id, event }
}

fn size(width: u32, height: u32) -> PhysicalSize {
    PhysicalSize { width, height }
}

#[test]
fn a_new_state_shows_the_root_viewport() {
    let shared = shared();
    assert!(shared.is_ready(ROOT));
    assert_eq!(shared.painter, "painter");
    assert_eq!(shared.viewport_maps.get(&10), Some(&ROOT));
    assert_eq!(shared.builders.get(&ROOT), Some(&titled("root")));
    let root = shared.viewports.get(&ROOT).unwrap();
    assert_eq!(root.egui_winit, Some(9));
    assert_eq!(root.parent_id, ROOT);
    assert!(root.viewport_ui_cb.is_none());
    assert!(shared.windows_to_build().is_empty());
}

#[test]
fn a_window_is_opened_for_each_new_viewport() {
    let mut shared = shared();
    shared.reconcile(vec![output(1, ROOT, titled("one")), output(2, 1, titled("two"))]);
    let mut ids = shared.windows_to_build();
    ids.sort();
    assert_eq!(ids, vec![1, 2]);
    shared.init_window(2, window(12), 7);
    assert!(shared.is_ready(2));
    assert!(!shared.is_ready(1));
    assert_eq!(shared.viewport_maps.get(&12), Some(&2));
    assert_eq!(shared.windows_to_build(), vec![1]);
}

#[test]
fn wgpu_viewports_are_those_asked_for() {
    let mut app = wgpu_app();
    let changes = app.process_outputs(vec![output(2, 1, titled("two"))], Vec::new());
    assert_eq!(changes.active.len(), 2);
    assert!(changes.active.contains(&ROOT) && changes.active.contains(&2));
    // The viewport 1 is still there until the frame ends.
    assert!(app.window(11).is_some());
    assert!(app.finish_frame(10, &changes.active));
    let running = app.running.as_ref().unwrap();
    assert_eq!(running.viewports.len(), 2);
    assert_eq!(running.viewports.get(&2).unwrap().parent_id, 1);
    assert_eq!(running.builders.len(), 2);
    assert_eq!(running.viewport_maps.get(&11), None);
    assert!(app.window(11).is_none());
}

#[test]
fn the_root_viewport_stays_in_wgpu_too() {
    let mut app = wgpu_app();
    let changes = app.process_outputs(Vec::new(), Vec::new());
    assert!(app.finish_frame(10, &changes.active));
    let running = app.running.as_ref().unwrap();
    assert!(running.is_ready(ROOT));
    assert_eq!(running.viewports.get(&ROOT).unwrap().window.as_ref().unwrap().id, 10);
    assert_eq!(running.builders.get(&ROOT), Some(&titled("root")));
}

#[test]
fn the_frame_of_a_window_that_closes_is_over() {
    let mut app = wgpu_app();
    let changes = app.process_outputs(Vec::new(), Vec::new());
    assert!(!app.finish_frame(11, &changes.active));
    assert!(app.finish_frame(10, &changes.active));
}

#[test]
fn an_open_viewport_gets_the_latest_callback_and_parent() {
    let mut shared = shared();
    shared.reconcile(vec![output(1, ROOT, titled("one")), output(2, ROOT, titled("two"))]);
    shared.init_window(1, window(11), 8);
    let again = ViewportOutput {
        builder: titled("uno"),
        id_pair: ViewportIdPair { this: 1, parent: 2 },
        viewport_ui_cb: None,
    };
    shared.reconcile(vec![again]);
    let viewport = shared.viewports.get(&1).unwrap();
    assert_eq!(viewport.parent_id, 2);
    assert!(viewport.viewport_ui_cb.is_none());
    assert_eq!(viewport.window.as_ref().unwrap().id, 11);
    // The attributes of an open window stay.
    assert_eq!(shared.builders.get(&1), Some(&titled("one")));
}

#[test]
fn a_viewport_that_is_asked_for_twice_is_patched() {
    let mut shared = shared();
    shared.reconcile(vec![output(1, ROOT, titled("one")), output(1, ROOT, titled("uno"))]);
    assert_eq!(shared.builders.get(&1), Some(&titled("uno")));
    assert!(shared.viewports.get(&1).unwrap().window.is_none());
}

#[test]
fn icons_are_inherited() {
    let icon = std::sync::Arc::new(egui::IconData { rgba: Vec::new(), width: 4, height: 4 });
    let mut shared = SharedState::<FakeGpu>::new(
        titled("root").with_icon(icon.clone()),
        window(10),
        9,
        "painter",
    );
    shared.reconcile(vec![output(1, ROOT, titled("one"))]);
    assert_eq!(shared.builders.get(&1), Some(&titled("one").with_icon(icon.clone())));
    let id_pair = ViewportIdPair { this: 2, parent: 1 };
    let to_build = shared.ensure_immediate_viewport(titled("two"), id_pair);
    assert_eq!(to_build, Some(titled("two").with_icon(icon)));
}

#[test]
fn a_dropped_root_viewport_keeps_its_builder() {
    let mut shared = shared();
    shared.drop_window();
    assert!(!shared.is_ready(ROOT));
    assert!(shared.viewports.is_empty());
    assert_eq!(shared.builders.get(&ROOT), Some(&titled("root")));
    // A viewport whose builder is known opens with what is asked for now.
    let to_build = shared.ensure_immediate_viewport(titled("new"), ViewportIdPair::root());
    assert_eq!(to_build, Some(titled("new")));
    assert_eq!(shared.builders.get(&ROOT), Some(&titled("root")));
}

#[test]
fn an_immediate_viewport_is_opened_once() {
    let mut shared = shared();
    let id_pair = ViewportIdPair { this: 5, parent: ROOT };
    assert_eq!(shared.ensure_immediate_viewport(titled("five"), id_pair), Some(titled("five")));
    assert_eq!(shared.builders.get(&5), Some(&titled("five")));
    assert!(!shared.is_ready(5));
    shared.init_window(5, window(15), 6);
    assert!(shared.is_ready(5));
    assert_eq!(shared.ensure_immediate_viewport(titled("other"), id_pair), None);
}

#[test]
fn a_wgpu_application_starts_to_run() {
    let mut app = WgpuWinitApp::<FakeGpu>::new("app".to_owned(), options(), "creator");
    assert_eq!(app.frame_nr(12), 0);
    assert!(app.windows_to_build().is_empty());
    let run_state = app.begin_run_state(None);
    assert_eq!(run_state.system_theme, None);
    assert_eq!(run_state.theme, Theme::Dark);
    assert!(!run_state.mouse_passthrough);
    assert!(run_state.accessible);
    assert_eq!(run_state.app_creator, "creator");
    assert!(app.app_creator.is_none());
    app.finish_run_state(titled("root"), window(10), 9, "painter");
    assert_eq!(app.frame_nr(12), 12);
    assert_eq!(app.resumed(), EventResult::RepaintNow(10));
    let shutdown = app.save_and_destroy().unwrap();
    assert_eq!(shutdown.running.painter, "painter");
    assert_eq!(
        shutdown.steps,
        vec![ShutdownStep::Save, ShutdownStep::ExitApp, ShutdownStep::DestroyPainter]
    );
    assert!(app.running.is_none());
    assert!(app.save_and_destroy().is_none());
}

#[test]
fn wgpu_windows_and_viewports_find_each_other() {
    let app = wgpu_app();
    assert_eq!(app.window(11).unwrap().id, 11);
    assert_eq!(app.window_id_from_viewport_id(1), Some(11));
    assert_eq!(app.viewport_id_from_window_id(11), Some(1));
    assert!(app.window(99).is_none());
    assert_eq!(app.window_id_from_viewport_id(99), None);
    assert_eq!(app.viewport_id_from_window_id(99), None);
}

#[test]
fn painting_needs_a_window() {
    let mut app = wgpu_app();
    assert_eq!(app.begin_paint(10), PaintStart::Paint(ROOT));
    assert_eq!(app.begin_paint(11), PaintStart::Paint(1));
    assert_eq!(app.viewport_to_paint(11), PaintStart::Paint(1));
    assert_eq!(app.begin_paint(99), PaintStart::Done(EventResult::Wait));
    assert_eq!(app.viewport_to_paint(99), PaintStart::Done(EventResult::Wait));
    app.running.as_mut().unwrap().viewports.get_mut(&1).unwrap().window = None;
    assert_eq!(app.begin_paint(11), PaintStart::Done(EventResult::Wait));
    assert_eq!(app.viewport_to_paint(11), PaintStart::Done(EventResult::Wait));
    app.running.as_mut().unwrap().viewports.remove(&1);
    assert_eq!(app.begin_paint(11), PaintStart::Done(EventResult::Wait));
}

#[test]
fn wgpu_immediate_viewports_are_left_to_their_parents() {
    let mut app = wgpu_app();
    let running = app.running.as_mut().unwrap();
    running.ensure_immediate_viewport(titled("five"), ViewportIdPair { this: 5, parent: 1 });
    running.init_window(5, window(15), 6);
    assert_eq!(app.begin_paint(15), PaintStart::Done(EventResult::RepaintNext(11)));
    app.running.as_mut().unwrap().viewports.get_mut(&1).unwrap().window = None;
    assert_eq!(app.begin_paint(15), PaintStart::Done(EventResult::Wait));
}

#[test]
fn commands_reach_windows_that_close() {
    let mut app = wgpu_app();
    let command = |viewport_id, command| ViewportCommandTo { viewport_id, command };
    let changes = app.process_outputs(
        Vec::new(),
        vec![
            command(1, egui::ViewportCommand::Close),
            command(ROOT, egui::ViewportCommand::Focus),
            command(99, egui::ViewportCommand::Close),
        ],
    );
    assert_eq!(changes.commands.len(), 2);
    assert_eq!(changes.commands[0].window_id, 11);
    assert_eq!(changes.commands[0].command, egui::ViewportCommand::Close);
    assert!(!changes.commands[0].is_viewport_focused);
    assert_eq!(changes.commands[1].window_id, 10);
    assert!(changes.commands[1].is_viewport_focused);
}

#[test]
fn the_wgpu_focus_follows_the_windows() {
    let mut app = wgpu_app();
    assert!(app.is_focused(10));
    app.on_event(&window_event(11, WindowEvent::Focused(true)), TargetOs::Linux, false);
    assert!(app.is_focused(11));
    assert!(!app.is_focused(10));
    app.on_event(&window_event(11, WindowEvent::Focused(false)), TargetOs::Linux, false);
    assert!(!app.is_focused(11));
    assert_eq!(app.focused_viewport, None);
}

#[test]
fn minimizing_a_window_does_not_resize_it() {
    let mut app = wgpu_app();
    let mut plan = |event| match app.on_event(&window_event(11, event), TargetOs::Linux, false) {
        WgpuWork::Window(11, plan) => plan,
        _ => unreachable!(),
    };
    let resized = WindowPlan {
        resize: Some((1, size(30, 40))),
        deliver_to: Some(1),
        repaint_asap: true,
    };
    assert_eq!(plan(WindowEvent::Resized(size(30, 40))), resized);
    assert_eq!(plan(WindowEvent::ScaleFactorChanged { new_inner_size: size(30, 40) }), resized);
    assert_eq!(
        plan(WindowEvent::Resized(size(0, 40))),
        WindowPlan { resize: None, deliver_to: Some(1), repaint_asap: true }
    );
    assert_eq!(
        plan(WindowEvent::ScaleFactorChanged { new_inner_size: size(30, 0) }),
        WindowPlan { resize: None, deliver_to: Some(1), repaint_asap: false }
    );
}

#[test]
fn any_window_closes_a_wgpu_application_that_wants_to_end() {
    let mut app = wgpu_app();
    let close = window_event(11, WindowEvent::CloseRequested);
    assert_eq!(app.on_event(&close, TargetOs::Linux, true), WgpuWork::Done(EventResult::Exit));
    assert_eq!(
        app.on_event(&close, TargetOs::Linux, false),
        WgpuWork::Window(
            11,
            WindowPlan { resize: None, deliver_to: Some(1), repaint_asap: false }
        )
    );
}

#[test]
fn events_go_to_viewports_with_an_input_state() {
    let mut app = wgpu_app();
    let moved = window_event(11, WindowEvent::Moved);
    let plan = |deliver_to| {
        WgpuWork::Window(11, WindowPlan { resize: None, deliver_to, repaint_asap: false })
    };
    assert_eq!(app.on_event(&moved, TargetOs::Linux, false), plan(Some(1)));
    app.running.as_mut().unwrap().viewports.get_mut(&1).unwrap().window = None;
    app.running.as_mut().unwrap().viewports.get_mut(&1).unwrap().egui_winit = None;
    assert_eq!(app.on_event(&moved, TargetOs::Linux, false), plan(None));
    let request = Event::UserEvent(UserEvent::AccessKitActionRequest(ActionRequestEvent {
        request: 5,
        window_id: 11,
    }));
    let work = app.on_event(&request, TargetOs::Linux, false);
    assert_eq!(work, WgpuWork::AccessKit { window_id: 11, request: 5, deliver_to: None });
    let done: Result<(), &str> = Ok(());
    assert_eq!(app.result_after(work, done, false, false), Ok(EventResult::RepaintNext(11)));
    app.running = None;
    assert_eq!(
        app.on_event(&request, TargetOs::Linux, false),
        WgpuWork::Done(EventResult::Wait)
    );
    assert_eq!(app.on_event(&moved, TargetOs::Linux, false), WgpuWork::Done(EventResult::Wait));
}

#[test]
fn a_wgpu_application_resumes_and_suspends() {
    let mut idle = WgpuWinitApp::<FakeGpu>::new("app".to_owned(), options(), "creator");
    assert_eq!(idle.on_event(&Event::Resumed, TargetOs::Linux, false), WgpuWork::InitRunState);
    let wait = WgpuWork::Done(EventResult::Wait);
    assert_eq!(idle.on_event(&Event::Suspended, TargetOs::Android, false), wait);
    let mut app = wgpu_app();
    assert_eq!(
        app.on_event(&Event::Resumed, TargetOs::Linux, false),
        WgpuWork::Done(EventResult::RepaintNow(10))
    );
    assert_eq!(app.on_event(&Event::Suspended, TargetOs::Linux, false), wait);
    assert_eq!(
        app.on_event(&Event::Suspended, TargetOs::Android, false),
        WgpuWork::DropWindow
    );
    assert_eq!(app.on_event(&Event::MainEventsCleared, TargetOs::Linux, false), wait);
}

#[test]
fn a_dropped_root_viewport_is_restored() {
    let mut app = wgpu_app();
    app.running.as_mut().unwrap().drop_window();
    assert_eq!(
        app.on_event(&Event::Resumed, TargetOs::Android, false),
        WgpuWork::RestoreRoot
    );
    assert!(!app.running.as_ref().unwrap().saves());
    app.running.as_mut().unwrap().restore_root(titled("again"), window(20), 4);
    let done: Result<(), &str> = Ok(());
    assert_eq!(
        app.result_after(WgpuWork::RestoreRoot, done, false, false),
        Ok(EventResult::RepaintNow(20))
    );
    let running = app.running.as_ref().unwrap();
    assert!(running.is_ready(ROOT));
    assert!(running.is_ready(1));
    assert!(running.saves());
    assert_eq!(running.viewports.get(&ROOT).unwrap().egui_winit, Some(4));
    assert_eq!(running.builders.get(&ROOT), Some(&titled("again")));
    assert_eq!(app.viewport_id_from_window_id(20), Some(ROOT));
    assert_eq!(
        app.on_event(&Event::Resumed, TargetOs::Android, false),
        WgpuWork::Done(EventResult::RepaintNow(20))
    );
}

#[test]
fn nothing_is_saved_without_the_root_viewport() {
    let mut app = wgpu_app();
    app.running.as_mut().unwrap().drop_window();
    let shutdown = app.save_and_destroy().unwrap();
    assert_eq!(shutdown.steps, vec![ShutdownStep::ExitApp, ShutdownStep::DestroyPainter]);
}

#[test]
fn wgpu_failures_are_handed_on() {
    let app = wgpu_app();
    let result = |work, outcome: Result<(), &'static str>| app.result_after(work, outcome, false, false);
    for work in [WgpuWork::InitRunState, WgpuWork::RestoreRoot] {
        assert_eq!(result(work, Ok(())), Ok(EventResult::RepaintNow(10)));
        assert_eq!(result(work, Err("no window")), Err("no window"));
    }
    assert_eq!(result(WgpuWork::DropWindow, Ok(())), Ok(EventResult::Wait));
    assert_eq!(result(WgpuWork::DropWindow, Err("lost")), Err("lost"));
    let plan = WindowPlan { resize: None, deliver_to: Some(1), repaint_asap: false };
    let done: Result<(), &str> = Ok(());
    assert_eq!(
        app.result_after(WgpuWork::Window(11, plan), done, false, true),
        Ok(EventResult::RepaintNext(11))
    );
}

#[test]
fn viewports_that_are_not_open_inherit_icons() {
    let icon = std::sync::Arc::new(egui::IconData { rgba: Vec::new(), width: 4, height: 4 });
    let root = titled("root").with_icon(icon.clone());
    let mut shared = SharedState::<FakeGpu>::new(root, window(10), 9, "painter");
    shared.reconcile(vec![
        output(3, 2, titled("three")),
        output(1, ROOT, titled("one")),
        output(2, 1, titled("two")),
    ]);
    assert_eq!(shared.builders.get(&1).unwrap().icon, Some(icon.clone()));
    assert_eq!(shared.builders.get(&2).unwrap().icon, Some(icon.clone()));
    assert_eq!(shared.builders.get(&3).unwrap().icon, None);
    // A builder that is known of a viewport keeps its icon where none is asked for or inherited.
    shared.drop_window();
    shared.reconcile(vec![output(ROOT, 77, titled("new"))]);
    assert_eq!(shared.builders.get(&ROOT).unwrap().icon, Some(icon));
    assert!(!shared.viewports.contains_key(&ROOT));
}
