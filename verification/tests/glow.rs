use eframe_native::backend::{Backend, GlBackend, NativeWindow, ViewportOutput, WinitApp};
use eframe_native::event::{
    ActionRequestEvent, Event, EventResult, PhysicalSize, UserEvent, ViewportIdPair, WindowEvent,
    ROOT,
};
use eframe_native::frame::{PaintStart, ShutdownStep, ViewportCommandTo, WindowPlan};
use eframe_native::glow_integration::app::{GlowWinitApp, GlowWork};
use eframe_native::glow_integration::context::{GlContext, GlutinWindowContext, Viewport};
use eframe_native::options::{HardwareAcceleration, NativeOptions, SwapInterval, Theme};

struct Fake;

impl Backend for Fake {
    type Window = &'static str;
    type InputState = u8;
    type UiCallback = &'static str;
    type AppCreator = &'static str;
}

impl GlBackend for Fake {
    type Surface = &'static str;
    type CurrentContext = &'static str;
    type NotCurrentContext = &'static str;
}

fn options() -> NativeOptions {
    NativeOptions {
        run_and_return: true,
        vsync: false,
        multisampling: 0,
        depth_buffer: 0,
        stencil_buffer: 0,
        hardware_acceleration: HardwareAcceleration::Preferred,
        transparent: false,
        follow_system_theme: true,
        default_theme: Theme::Dark,
        mouse_passthrough: true,
        app_id: None,
    }
}

fn titled(title: &str) -> egui::ViewportBuilder {
    egui::ViewportBuilder::default().with_title(title)
}

fn output(this: u64, parent: u64, builder: egui::ViewportBuilder) -> ViewportOutput<Fake> {
    ViewportOutput { builder, id_pair: ViewportIdPair { this, parent }, viewport_ui_cb: Some("ui") }
}

/// Opens the window `window_id` for the viewport `id`.
fn init_viewport(context: &mut GlutinWindowContext<Fake>, id: u64, window_id: u64) {
    let window = context
        .begin_init_viewport(id)
        .unwrap_or(NativeWindow { id: window_id, handle: "opened" });
    context.take_gl_context();
    let input_state = context.needs_input_state(id).then_some(9);
    context.finish_init_viewport(id, window, "surface", "current", input_state);
}

fn context() -> GlutinWindowContext<Fake> {
    let mut context = GlutinWindowContext::new(
        titled("root"),
        &options(),
        "not current",
        Some(NativeWindow { id: 10, handle: "given" }),
    );
    init_viewport(&mut context, ROOT, 10);
    context
}

/// The root viewport in the window 10, and the viewport 1, which has a callback, in the window 11.
fn app() -> GlowWinitApp<Fake> {
    let mut app = GlowWinitApp::new("app".to_owned(), options(), "creator");
    app.finish_run_state(context());
    app.finish_frame(vec![output(1, ROOT, titled("one"))], Vec::new());
    init_viewport(app.running.as_mut().unwrap(), 1, 11);
    app
}

fn window_event(window_id: u64, event: WindowEvent) -> Event {
    Event::WindowEvent { window_id, event }
}

fn size(width: u32, height: u32) -> PhysicalSize {
    PhysicalSize { width, height }
}

#[test]
fn a_new_viewport_has_nothing() {
    let viewport = Viewport::<Fake>::new(ViewportIdPair { this: 3, parent: 2 });
    assert!(viewport.gl_surface.is_none());
    assert!(viewport.window.is_none());
    assert!(viewport.viewport_ui_cb.is_none());
    assert!(viewport.egui_winit.is_none());
    assert_eq!(viewport.id_pair, ViewportIdPair { this: 3, parent: 2 });
}

#[test]
fn a_new_context_knows_the_root_viewport() {
    let context = GlutinWindowContext::<Fake>::new(
        titled("root"),
        &options(),
        "not current",
        Some(NativeWindow { id: 10, handle: "given" }),
    );
    assert_eq!(context.swap_interval, SwapInterval::DontWait);
    assert_eq!(context.not_current_gl_context, Some("not current"));
    assert_eq!(context.current_gl_context, None);
    assert_eq!(context.viewport_maps.get(&10), Some(&ROOT));
    assert_eq!(context.window_maps.get(&ROOT), Some(&10));
    assert_eq!(context.builders.get(&ROOT), Some(&titled("root")));
    assert_eq!(context.window(ROOT).handle, "given");
    assert_eq!(context.viewports_to_init(), vec![ROOT]);
}

#[test]
fn a_context_may_start_without_a_window() {
    let context =
        GlutinWindowContext::<Fake>::new(titled("root"), &options(), "not current", None);
    assert!(context.viewport_maps.is_empty());
    assert!(context.window_maps.is_empty());
    assert!(!context.is_ready(ROOT));
}

#[test]
fn an_initialized_viewport_is_found() {
    let context = context();
    assert!(context.is_ready(ROOT));
    assert!(context.viewports_to_init().is_empty());
    assert_eq!(context.viewport(ROOT).gl_surface, Some("surface"));
    assert_eq!(context.viewport(ROOT).egui_winit, Some(9));
    assert_eq!(context.window(ROOT).handle, "given");
    assert_eq!(context.current_gl_context, Some("current"));
    assert_eq!(context.not_current_gl_context, None);
}

#[test]
fn the_context_moves_from_window_to_window() {
    let mut context = GlutinWindowContext::<Fake>::new(titled("root"), &options(), "first", None);
    match context.take_gl_context() {
        GlContext::NotCurrent(gl_context) => assert_eq!(gl_context, "first"),
        GlContext::Current(_) => unreachable!(),
    }
    context.put_context("second");
    match context.take_gl_context() {
        GlContext::Current(gl_context) => assert_eq!(gl_context, "second"),
        GlContext::NotCurrent(_) => unreachable!(),
    }
    assert_eq!(context.current_gl_context, None);
}

#[test]
fn an_input_state_survives_a_new_window() {
    let mut context = context();
    context.viewport_mut(ROOT).egui_winit = Some(7);
    context.begin_suspend();
    context.finish_suspend("suspended");
    assert!(!context.needs_input_state(ROOT));
    init_viewport(&mut context, ROOT, 20);
    assert_eq!(context.viewport(ROOT).egui_winit, Some(7));
    assert_eq!(context.window(ROOT).id, 20);
    assert_eq!(context.window_maps.get(&ROOT), Some(&20));
    assert_eq!(context.viewport_maps.get(&20), Some(&ROOT));
}

#[test]
fn suspended_viewports_start_over() {
    let mut app = app();
    let context = app.running.as_mut().unwrap();
    assert!(context.viewports_to_init().is_empty());
    assert_eq!(context.begin_suspend(), Some("current"));
    context.finish_suspend("suspended");
    assert_eq!(context.not_current_gl_context, Some("suspended"));
    for id in [ROOT, 1] {
        assert!(context.viewport(id).window.is_none());
        assert!(context.viewport(id).gl_surface.is_none());
        assert!(context.viewport(id).egui_winit.is_some());
    }
    let mut ids = context.viewports_to_init();
    ids.sort();
    assert_eq!(ids, vec![ROOT, 1]);
    // A second suspend in a row finds no current context.
    assert_eq!(context.begin_suspend(), None);
}

#[test]
fn resizing_makes_the_context_current_on_the_surface() {
    let mut context = context();
    assert_eq!(context.resize(ROOT, size(30, 0)), Some(("current", size(30, 1))));
    context.put_context("again");
    assert_eq!(context.take_context_for(ROOT), Some("again"));
    context.put_context("again");
    assert_eq!(context.resize(77, size(30, 40)), None);
    context.viewport_mut(ROOT).gl_surface = None;
    assert_eq!(context.resize(ROOT, size(30, 40)), None);
    assert_eq!(context.current_gl_context, Some("again"));
}

#[test]
fn an_immediate_viewport_is_added_once() {
    let mut context = context();
    let id_pair = ViewportIdPair { this: 5, parent: ROOT };
    assert!(context.ensure_immediate_viewport(titled("five"), id_pair));
    assert!(!context.is_ready(5));
    assert!(context.viewport(5).viewport_ui_cb.is_none());
    assert_eq!(context.builders.get(&5), Some(&titled("five")));
    init_viewport(&mut context, 5, 15);
    assert!(context.is_ready(5));
    assert!(!context.ensure_immediate_viewport(titled("other"), id_pair));
    assert_eq!(context.builders.get(&5), Some(&titled("five")));
    assert!(!context.is_ready(77));
}

#[test]
fn viewports_are_those_asked_for() {
    let mut context = context();
    let commands = context.process_viewport_builders(vec![
        output(1, ROOT, titled("one")),
        output(2, 1, titled("two")),
    ]);
    assert!(commands.is_empty());
    assert_eq!(context.viewports.len(), 3);
    assert_eq!(context.viewport(2).id_pair, ViewportIdPair { this: 2, parent: 1 });
    assert_eq!(context.viewport(2).viewport_ui_cb, Some("ui"));
    init_viewport(&mut context, 1, 11);
    init_viewport(&mut context, 2, 12);

    // The viewport 1 is not asked for any more, and the viewport 2 has a new parent and title.
    let commands = context.process_viewport_builders(vec![output(2, ROOT, titled("zwei"))]);
    assert_eq!(commands.len(), 1);
    assert_eq!(commands[0].window_id, 12);
    assert_eq!(commands[0].commands, vec![egui::ViewportCommand::Title("zwei".to_owned())]);
    assert_eq!(context.viewports.len(), 2);
    assert!(context.viewports.contains_key(&ROOT));
    assert_eq!(context.viewport(2).id_pair, ViewportIdPair { this: 2, parent: ROOT });
    assert_eq!(context.builders.len(), 2);
    assert_eq!(context.builders.get(&2), Some(&titled("zwei")));
    assert_eq!(context.viewport_maps.get(&11), None);
    assert_eq!(context.viewport_maps.get(&12), Some(&2));
    assert_eq!(context.window_maps.get(&1), None);
    assert_eq!(context.window_maps.get(&2), Some(&12));
}

#[test]
fn the_root_viewport_stays_though_the_ui_does_not_ask_for_it() {
    let mut context = context();
    context.process_viewport_builders(Vec::new());
    assert!(context.is_ready(ROOT));
    assert_eq!(context.builders.get(&ROOT), Some(&titled("root")));
}

#[test]
fn a_window_that_has_to_be_opened_anew_is_dropped() {
    let mut context = context();
    context.process_viewport_builders(vec![output(1, ROOT, titled("one"))]);
    init_viewport(&mut context, 1, 11);
    let commands = context
        .process_viewport_builders(vec![output(1, ROOT, titled("one").with_close_button(false))]);
    assert!(commands.is_empty());
    assert!(context.viewport(1).window.is_none());
    assert!(context.viewport(1).gl_surface.is_none());
    assert_eq!(context.viewport(1).egui_winit, Some(9));
    assert_eq!(context.viewports_to_init(), vec![1]);
}

#[test]
fn an_application_starts_to_run() {
    let mut app = GlowWinitApp::<Fake>::new("app".to_owned(), options(), "creator");
    assert!(app.running.is_none());
    assert_eq!(app.focused_viewport, Some(ROOT));
    assert_eq!(app.frame_nr(12), 0);
    let mut context = context();
    let run_state = app.begin_run_state(&mut context, 4096, Some(Theme::Light));
    assert_eq!(run_state.system_theme, Some(Theme::Light));
    assert_eq!(run_state.theme, Theme::Light);
    assert!(run_state.mouse_passthrough);
    assert!(run_state.accessible);
    assert_eq!(run_state.app_creator, "creator");
    assert_eq!(context.max_texture_side, Some(4096));
    assert!(app.app_creator.is_none());
    app.finish_run_state(context);
    assert_eq!(app.frame_nr(12), 12);
    assert_eq!(app.resumed(), EventResult::RepaintNow(10));
}

#[test]
fn the_default_theme_is_used_where_the_system_tells_none() {
    let mut app = GlowWinitApp::<Fake>::new("app".to_owned(), options(), "creator");
    let mut context =
        GlutinWindowContext::<Fake>::new(titled("root"), &options(), "not current", None);
    let run_state = app.begin_run_state(&mut context, 1, None);
    assert_eq!(run_state.system_theme, None);
    assert_eq!(run_state.theme, Theme::Dark);
    assert!(!run_state.accessible);
}

#[test]
fn the_run_ends_once() {
    let mut app = app();
    let shutdown = app.save_and_destroy().unwrap();
    assert_eq!(shutdown.running.window(ROOT).id, 10);
    assert_eq!(
        shutdown.steps,
        vec![ShutdownStep::Save, ShutdownStep::ExitApp, ShutdownStep::DestroyPainter]
    );
    assert!(app.running.is_none());
    assert!(app.save_and_destroy().is_none());
}

#[test]
fn windows_and_viewports_find_each_other() {
    let app = app();
    assert_eq!(app.window(11).unwrap().handle, "opened");
    assert_eq!(app.window_id_from_viewport_id(1), Some(11));
    assert_eq!(app.viewport_id_from_window_id(11), Some(1));
    assert!(app.window(99).is_none());
    assert_eq!(app.window_id_from_viewport_id(99), None);
    assert_eq!(app.viewport_id_from_window_id(99), None);
}

#[test]
fn viewports_with_a_callback_are_painted() {
    let app = app();
    assert_eq!(app.begin_paint(10), PaintStart::Paint(ROOT));
    assert_eq!(app.begin_paint(11), PaintStart::Paint(1));
    assert_eq!(app.begin_paint(99), PaintStart::Done(EventResult::Wait));
    let idle = GlowWinitApp::<Fake>::new("app".to_owned(), options(), "creator");
    assert_eq!(idle.begin_paint(10), PaintStart::Done(EventResult::Wait));
}

#[test]
fn immediate_viewports_are_left_to_their_parents() {
    let mut app = app();
    let context = app.running.as_mut().unwrap();
    context.ensure_immediate_viewport(titled("five"), ViewportIdPair { this: 5, parent: 1 });
    init_viewport(context, 5, 15);
    assert_eq!(app.begin_paint(15), PaintStart::Done(EventResult::RepaintNext(11)));
    app.running.as_mut().unwrap().viewport_mut(1).window = None;
    assert_eq!(app.begin_paint(15), PaintStart::Done(EventResult::Wait));
}

#[test]
fn commands_of_the_ui_go_to_open_windows() {
    let mut app = app();
    app.focused_viewport = Some(1);
    let command = |viewport_id, command| ViewportCommandTo { viewport_id, command };
    let changes = app.finish_frame(
        vec![output(1, ROOT, titled("uno")), output(2, ROOT, titled("two"))],
        vec![
            command(1, egui::ViewportCommand::Focus),
            command(2, egui::ViewportCommand::Close),
            command(ROOT, egui::ViewportCommand::Close),
            command(99, egui::ViewportCommand::Close),
        ],
    );
    assert_eq!(changes.patches.len(), 1);
    assert_eq!(changes.patches[0].window_id, 11);
    assert_eq!(changes.commands.len(), 2);
    assert_eq!(changes.commands[0].window_id, 11);
    assert_eq!(changes.commands[0].command, egui::ViewportCommand::Focus);
    assert!(changes.commands[0].is_viewport_focused);
    assert_eq!(changes.commands[1].window_id, 10);
    assert_eq!(changes.commands[1].command, egui::ViewportCommand::Close);
    assert!(!changes.commands[1].is_viewport_focused);
}

#[test]
fn commands_to_windows_that_close_are_dropped() {
    let mut app = app();
    let close = ViewportCommandTo { viewport_id: 1, command: egui::ViewportCommand::Close };
    let changes = app.finish_frame(Vec::new(), vec![close]);
    assert!(changes.commands.is_empty());
    assert!(app.window(11).is_none());
}

#[test]
fn the_focus_follows_the_windows() {
    let mut app = app();
    assert!(app.is_focused(10));
    app.on_event(&window_event(11, WindowEvent::Focused(true)), false);
    assert!(app.is_focused(11));
    assert!(!app.is_focused(10));
    app.on_event(&window_event(11, WindowEvent::Moved), false);
    assert!(app.is_focused(11));
    app.on_event(&window_event(11, WindowEvent::Focused(false)), false);
    assert!(!app.is_focused(11));
    assert_eq!(app.focused_viewport, None);
    app.on_event(&window_event(10, WindowEvent::Focused(true)), false);
    app.on_event(&window_event(99, WindowEvent::Focused(true)), false);
    assert_eq!(app.focused_viewport, None);
}

#[test]
fn resizing_a_window_resizes_its_viewport() {
    let mut app = app();
    assert_eq!(
        app.on_event(&window_event(11, WindowEvent::Resized(size(30, 40))), false),
        GlowWork::Window(
            11,
            WindowPlan {
                resize: Some((1, size(30, 40))),
                deliver_to: Some(1),
                repaint_asap: true
            }
        )
    );
    let minimized = WindowPlan { resize: None, deliver_to: Some(1), repaint_asap: true };
    for physical_size in [size(0, 40), size(30, 0), size(0, 0)] {
        assert_eq!(
            app.on_event(&window_event(11, WindowEvent::Resized(physical_size)), false),
            GlowWork::Window(11, minimized)
        );
    }
    assert_eq!(
        app.on_event(
            &window_event(11, WindowEvent::ScaleFactorChanged { new_inner_size: size(0, 40) }),
            false
        ),
        GlowWork::Window(
            11,
            WindowPlan {
                resize: Some((1, size(0, 40))),
                deliver_to: Some(1),
                repaint_asap: true
            }
        )
    );
    assert_eq!(
        app.on_event(&window_event(99, WindowEvent::Resized(size(30, 40))), false),
        GlowWork::Window(99, WindowPlan { resize: None, deliver_to: None, repaint_asap: true })
    );
}

#[test]
fn only_the_root_window_closes_the_application() {
    let mut app = app();
    let plan = |id| WindowPlan { resize: None, deliver_to: Some(id), repaint_asap: false };
    let close = |window_id| window_event(window_id, WindowEvent::CloseRequested);
    assert_eq!(app.on_event(&close(10), true), GlowWork::Done(EventResult::Exit));
    assert_eq!(app.on_event(&close(10), false), GlowWork::Window(10, plan(ROOT)));
    assert_eq!(app.on_event(&close(11), true), GlowWork::Window(11, plan(1)));
}

#[test]
fn the_application_resumes_and_suspends() {
    let mut idle = GlowWinitApp::<Fake>::new("app".to_owned(), options(), "creator");
    assert_eq!(idle.on_event(&Event::Resumed, false), GlowWork::InitRunState);
    assert_eq!(
        idle.on_event(&Event::MainEventsCleared, false),
        GlowWork::Done(EventResult::Wait)
    );
    assert_eq!(
        idle.on_event(&window_event(10, WindowEvent::Focused(false)), false),
        GlowWork::Done(EventResult::Wait)
    );
    assert_eq!(idle.focused_viewport, Some(ROOT));
    let mut app = app();
    assert_eq!(app.on_event(&Event::Resumed, false), GlowWork::Resume);
    assert_eq!(app.on_event(&Event::Suspended, false), GlowWork::Suspend);
    assert_eq!(app.on_event(&Event::MainEventsCleared, false), GlowWork::TryResume);
    assert_eq!(
        app.on_event(&Event::RedrawEventsCleared, false),
        GlowWork::Done(EventResult::Wait)
    );
}

#[test]
fn accessibility_requests_reach_their_viewport() {
    let request = |window_id| {
        Event::UserEvent(UserEvent::AccessKitActionRequest(ActionRequestEvent {
            request: 5,
            window_id,
        }))
    };
    let mut app = app();
    let work = app.on_event(&request(11), false);
    assert_eq!(work, GlowWork::AccessKit { window_id: 11, request: 5, deliver_to: Some(1) });
    let done: Result<(), &str> = Ok(());
    assert_eq!(app.result_after(work, done, false, false), Ok(EventResult::RepaintNext(11)));
    let work = app.on_event(&request(99), false);
    assert_eq!(work, GlowWork::AccessKit { window_id: 99, request: 5, deliver_to: None });
    assert_eq!(app.result_after(work, done, false, false), Ok(EventResult::RepaintNext(99)));
    let mut idle = GlowWinitApp::<Fake>::new("app".to_owned(), options(), "creator");
    assert_eq!(idle.on_event(&request(11), false), GlowWork::Done(EventResult::Wait));
}

#[test]
fn failures_are_handed_on_or_swallowed() {
    let app = app();
    let result = |work, outcome: Result<(), &'static str>| app.result_after(work, outcome, false, false);
    let wait = Ok(EventResult::Wait);
    assert_eq!(result(GlowWork::Resume, Ok(())), Ok(EventResult::RepaintNow(10)));
    assert_eq!(result(GlowWork::Resume, Err("no surface")), Err("no surface"));
    assert_eq!(result(GlowWork::InitRunState, Ok(())), Ok(EventResult::RepaintNow(10)));
    assert_eq!(result(GlowWork::InitRunState, Err("no display")), Err("no display"));
    assert_eq!(result(GlowWork::Suspend, Ok(())), wait);
    assert_eq!(result(GlowWork::Suspend, Err("still current")), Err("still current"));
    assert_eq!(result(GlowWork::TryResume, Ok(())), wait);
    assert_eq!(result(GlowWork::TryResume, Err("no surface")), wait);
    assert_eq!(result(GlowWork::Done(EventResult::Exit), Ok(())), Ok(EventResult::Exit));
}

#[test]
fn input_of_a_window_repaints_it_or_ends_the_application() {
    let app = app();
    let done: Result<(), &str> = Ok(());
    let plan = WindowPlan { resize: None, deliver_to: Some(1), repaint_asap: true };
    let work = GlowWork::Window(11, plan);
    assert_eq!(app.result_after(work, done, false, true), Ok(EventResult::RepaintNow(11)));
    assert_eq!(app.result_after(work, done, false, false), Ok(EventResult::Wait));
    assert_eq!(app.result_after(work, done, true, true), Ok(EventResult::Exit));
}

#[test]
fn resuming_restores_every_viewport() {
    let mut app = app();
    let context = app.running.as_mut().unwrap();
    context.begin_suspend();
    context.finish_suspend("suspended");
    for (window_id, id) in (20..).zip(context.viewports_to_init()) {
        init_viewport(context, id, window_id);
    }
    for id in [ROOT, 1] {
        assert!(context.viewport(id).window.is_some());
        assert!(context.viewport(id).gl_surface.is_some());
        assert_eq!(context.viewport(id).egui_winit, Some(9));
    }
    assert_eq!(context.viewport(1).viewport_ui_cb, Some("ui"));
    assert_eq!(context.viewports.len(), 2);
    assert_eq!(context.builders.len(), 2);
    // Nothing is left to do.
    assert!(context.viewports_to_init().is_empty());
    let root_window = context.window(ROOT).id;
    assert_eq!(app.resumed(), EventResult::RepaintNow(root_window));
}

#[test]
fn new_viewports_inherit_icons() {
    let icon = std::sync::Arc::new(egui::IconData { rgba: Vec::new(), width: 4, height: 4 });
    let mut context = GlutinWindowContext::<Fake>::new(
        titled("root").with_icon(icon.clone()),
        &options(),
        "not current",
        None,
    );
    // A new viewport inherits from a new parent that comes before it, and not from one after it.
    context.process_viewport_builders(vec![
        output(3, 2, titled("three")),
        output(1, ROOT, titled("one")),
        output(2, 1, titled("two")),
    ]);
    assert_eq!(context.builders.get(&1).unwrap().icon, Some(icon.clone()));
    assert_eq!(context.builders.get(&2).unwrap().icon, Some(icon.clone()));
    assert_eq!(context.builders.get(&3).unwrap().icon, None);
    context.ensure_immediate_viewport(titled("four"), ViewportIdPair { this: 4, parent: 1 });
    assert_eq!(context.builders.get(&4).unwrap().icon, Some(icon));
}
