//! An application whose viewports are painted with OpenGL.

use crate::backend::{
    active_ids, ids_are_distinct, Backend, GlBackend, NativeWindow, ViewportOutput, WinitApp,
};
use crate::builder::WindowCommands;
use crate::event::{
    ActionRequest, Event, EventResult, PhysicalSize, UserEvent, ViewportId, WindowEvent, WindowId, ROOT,
};
use crate::frame::{
    law_commands_reach_their_windows, routed, shutdown_steps, shutdown_steps_of, window_event_result,
    window_event_result_of, PaintStart, RoutedCommand, RunState, Shutdown, ShutdownStep,
    ViewportCommandTo, WindowPlan,
};
use crate::glow_integration::context::{
    are_patches, commands_to_windows, icons_are_inherited, last_icons_count, reconciled,
    GlutinWindowContext, Viewport,
};
use crate::maps::restrict_values;
use crate::options::{system_theme, NativeOptions, Theme};
use vstd::prelude::*;

verus! {

broadcast use vstd::std_specs::hash::group_hash_axioms;

/// An application whose viewports are painted with OpenGL.
pub struct GlowWinitApp<R: GlBackend> {
    pub app_name: String,
    pub native_options: NativeOptions,
    /// The viewports, once the application runs.
    pub running: Option<GlutinWindowContext<R>>,
    /// Taken when the application starts to run.
    pub app_creator: Option<R::AppCreator>,
    pub focused_viewport: Option<ViewportId>,
}

/// What is to be done about an event; `result_after` then gives the result.
#[derive(Clone, Copy, Debug, PartialEq, Eq)]
pub enum GlowWork {
    /// Nothing more.
    Done(EventResult),
    /// Start to run.
    InitRunState,
    /// Initialize the viewports that have to be, unless one of them fails.
    Resume,
    /// Suspend the viewports.
    Suspend,
    /// Initialize the viewports that have to be, unless one of them fails.
    TryResume,
    /// Carry out the plan for the window.
    Window(WindowId, WindowPlan),
    /// Hand the request of an accessibility client in the window `window_id` to the viewport
    /// `deliver_to`, if there is one.
    AccessKit { window_id: WindowId, request: ActionRequest, deliver_to: Option<ViewportId> },
}

/// What is to be done to windows at the end of a frame.
pub struct FrameChanges {
    /// The changes that follow from what the ui asks for. They are made as if no viewport had the
    /// focus.
    pub patches: Vec<WindowCommands>,
    /// The commands of the ui, to be carried out after the changes.
    pub commands: Vec<RoutedCommand>,
}

/// The windows that viewports are shown in.
pub open spec fn open_windows<R: GlBackend>(viewports: Map<ViewportId, Viewport<R>>) -> Map<
    ViewportId,
    WindowId,
> {
    Map::new(
        |id: ViewportId| viewports.contains_key(id) && viewports[id].window is Some,
        |id: ViewportId| viewports[id].window->0.id,
    )
}

impl<R: GlBackend> GlowWinitApp<R> {
    /// What holds of every application: its viewports are in order, and none has a surface without
    /// a window.
    pub open spec fn wf(&self) -> bool {
        self.running matches Some(running) ==> running.wf() && running.surfaces_have_windows()
    }

    /// An application that does not run yet.
    pub fn new(app_name: String, native_options: NativeOptions, app_creator: R::AppCreator) -> (app:
        GlowWinitApp<R>)
        ensures
            app == (GlowWinitApp::<R> {
                app_name,
                native_options,
                running: None,
                app_creator: Some(app_creator),
                focused_viewport: Some(ROOT),
            }),
            app.wf(),
    {
        GlowWinitApp {
            app_name,
            native_options,
            running: None,
            app_creator: Some(app_creator),
            focused_viewport: Some(ROOT),
        }
    }

    /// The current frame of a viewport, where `reported` is what the ui says.
    pub open spec fn frame_nr_of(&self, reported: u64) -> u64 {
        if self.running is Some {
            reported
        } else {
            0
        }
    }

    /// The current frame of a viewport, where `reported` is what the ui says. An application that
    /// does not run has no frames.
    pub fn frame_nr(&self, reported: u64) -> (frame_nr: u64)
        ensures
            frame_nr == self.frame_nr_of(reported),
            frame_nr == (if self.running is Some {
                reported
            } else {
                0
            }),
    {
        if self.running.is_some() {
            reported
        } else {
            0
        }
    }

    /// Whether the run begins with `run_state`, with the viewports `context`.
    pub open spec fn begins_with(
        &self,
        context: GlutinWindowContext<R>,
        window_theme: Option<Theme>,
        run_state: RunState<R::AppCreator>,
    ) -> bool {
        &&& run_state.system_theme == self.native_options.system_theme_of(window_theme)
        &&& run_state.theme == self.native_options.initial_theme_of(window_theme)
        &&& run_state.mouse_passthrough == self.native_options.mouse_passthrough
        &&& run_state.accessible == context.can_show(ROOT)
        &&& Some(run_state.app_creator) == self.app_creator
    }

    /// Begins to run, with the viewports `context`. `window_theme` is the theme that the window of
    /// the root viewport tells.
    pub fn begin_run_state(
        &mut self,
        context: &mut GlutinWindowContext<R>,
        max_texture_side: usize,
        window_theme: Option<Theme>,
    ) -> (run_state: RunState<R::AppCreator>)
        requires
            old(self).app_creator is Some,
            old(context).wf(),
        ensures
            old(self).begins_with(*old(context), window_theme, run_state),
            *final(self) == (GlowWinitApp { app_creator: None, ..*old(self) }),
            final(context).wf(),
            *final(context) == (GlutinWindowContext {
                max_texture_side: Some(max_texture_side),
                ..*old(context)
            }),
            run_state.system_theme == old(self).native_options.system_theme_of(window_theme),
            run_state.theme == old(self).native_options.initial_theme_of(window_theme),
            run_state.theme == (match old(self).native_options.system_theme_of(window_theme) {
                Some(theme) => theme,
                None => old(self).native_options.default_theme,
            }),
            run_state.mouse_passthrough == old(self).native_options.mouse_passthrough,
            run_state.accessible == old(context).can_show(ROOT),
            Some(run_state.app_creator) == old(self).app_creator,
    {
        context.max_texture_side = Some(max_texture_side);
        RunState {
            system_theme: system_theme(window_theme, &self.native_options),
            theme: self.native_options.initial_theme(window_theme),
            mouse_passthrough: self.native_options.mouse_passthrough,
            accessible: context.is_ready(ROOT),
            app_creator: self.app_creator.take().unwrap(),
        }
    }

    /// Runs from now on, with the viewports `context`.
    pub fn finish_run_state(&mut self, context: GlutinWindowContext<R>)
        requires
            context.wf(),
            context.surfaces_have_windows(),
        ensures
            *final(self) == (GlowWinitApp { running: Some(context), ..*old(self) }),
            final(self).wf(),
    {
        self.running = Some(context);
    }

    /// The steps of the end of the run, if there is one.
    pub open spec fn steps_to_end(&self) -> Option<Seq<ShutdownStep>> {
        match self.running {
            Some(_) => Some(shutdown_steps_of(true)),
            None => None,
        }
    }

    /// Ends the run, if there is one: the state of the application is saved, with the window of the
    /// root viewport.
    pub fn save_and_destroy(&mut self) -> (shutdown: Option<Shutdown<GlutinWindowContext<R>>>)
        ensures
            match shutdown {
                Some(shutdown) => old(self).steps_to_end() == Some(shutdown.steps@),
                None => old(self).steps_to_end() is None,
            },
            match old(self).running {
                Some(running) => shutdown matches Some(shutdown) && shutdown.running == running
                    && shutdown.steps@ == shutdown_steps_of(true),
                None => shutdown is None,
            },
            *final(self) == (GlowWinitApp { running: None, ..*old(self) }),
    {
        match self.running.take() {
            Some(running) => Some(Shutdown { running, steps: shutdown_steps(true) }),
            None => None,
        }
    }

    /// How painting the window `window_id` begins.
    pub open spec fn paint_start_of(&self, window_id: WindowId) -> PaintStart {
        match self.viewport_id_of(window_id) {
            None => PaintStart::Done(EventResult::Wait),
            Some(viewport_id) => {
                let viewports = self.running->0.viewports@;
                let viewport = viewports[viewport_id];
                let parent = viewport.id_pair.parent;
                if viewport.viewport_ui_cb is Some || viewport_id == ROOT {
                    PaintStart::Paint(viewport_id)
                } else if viewports.contains_key(parent) && viewports[parent].window is Some {
                    PaintStart::Done(EventResult::RepaintNext(viewports[parent].window->0.id))
                } else {
                    PaintStart::Done(EventResult::Wait)
                }
            },
        }
    }

    /// How painting the window `window_id` begins. A viewport that cannot be painted by itself has its
    /// parent repainted.
    pub fn begin_paint(&self, window_id: WindowId) -> (start: PaintStart)
        requires
            self.wf(),
        ensures
            start == self.paint_start_of(window_id),
    {
        let running = match &self.running {
            Some(running) => running,
            None => return PaintStart::Done(EventResult::Wait),
        };
        let viewport_id: ViewportId = match running.viewport_maps.get(&window_id) {
            Some(viewport_id) => *viewport_id,
            None => return PaintStart::Done(EventResult::Wait),
        };
        let viewport = running.viewport(viewport_id);
        if viewport.viewport_ui_cb.is_none() && viewport_id != ROOT {
            if let Some(parent_viewport) = running.viewports.get(&viewport.id_pair.parent) {
                if let Some(window) = &parent_viewport.window {
                    return PaintStart::Done(EventResult::RepaintNext(window.id));
                }
            }
            return PaintStart::Done(EventResult::Wait);
        }
        PaintStart::Paint(viewport_id)
    }

    /// The `commands` of the ui on their way to the windows that are open.
    pub open spec fn commands_on_their_way(&self, commands: Seq<ViewportCommandTo>) -> Seq<
        RoutedCommand,
    > {
        routed(open_windows(self.running->0.viewports@), self.focused_viewport, commands)
    }

    /// Ends a frame: brings the viewports in line with `outputs`, and sends the `commands` of the ui
    /// on their way.
    pub fn finish_frame(
        &mut self,
        outputs: Vec<ViewportOutput<R>>,
        commands: Vec<ViewportCommandTo>,
    ) -> (changes: FrameChanges)
        requires
            old(self).wf(),
            old(self).running is Some,
        ensures
            final(self).wf(),
            final(self).running is Some,
            changes.commands@ == final(self).commands_on_their_way(commands@),
            ({
                let before = old(self).running->0;
                let after = final(self).running->0;
                let active = active_ids(outputs@);
                let asked = reconciled(before.viewports@, before.builders@, outputs@);
                &&& after.viewports@ == asked.viewports.restrict(active)
                &&& after.builders@ == asked.builders.restrict(active)
                &&& after.viewport_maps@ == restrict_values(before.viewport_maps@, active)
                &&& after.window_maps@ == before.window_maps@.restrict(active)
                &&& after.swap_interval == before.swap_interval
                &&& after.max_texture_side == before.max_texture_side
                &&& after.current_gl_context == before.current_gl_context
                &&& after.not_current_gl_context == before.not_current_gl_context
                &&& exists|patches: Seq<Vec<egui::ViewportCommand>>|
                    {
                        &&& patches.len() == outputs@.len()
                        &&& are_patches(before.viewports@, before.builders@, outputs@, patches)
                        &&& changes.patches@ == #[trigger] commands_to_windows(
                            before.viewports@,
                            before.builders@,
                            outputs@,
                            patches,
                        )
                    }
                &&& changes.commands@ == routed(
                    open_windows(after.viewports@),
                    old(self).focused_viewport,
                    commands@,
                )
                &&& ids_are_distinct(outputs@) ==> icons_are_inherited(
                    before.viewports@,
                    before.builders@,
                    outputs@,
                    after.builders@,
                )
                &&& last_icons_count(
                    before.viewports@,
                    before.builders@,
                    outputs@,
                    after.builders@,
                )
                &&& forall|j: int|
                    0 <= j < outputs@.len() && (forall|m: int|
                        j < m < outputs@.len() ==> (#[trigger] outputs@[m]).id_pair.this
                            != outputs@[j].id_pair.this) ==> {
                        let viewport = after.viewports@[(#[trigger] outputs@[j]).id_pair.this];
                        &&& viewport.viewport_ui_cb == outputs@[j].viewport_ui_cb
                        &&& viewport.id_pair == outputs@[j].id_pair
                    }
            }),
            *final(self) == (GlowWinitApp { running: final(self).running, ..*old(self) }),
    {
        let mut running = self.running.take().unwrap();
        let patches = running.process_viewport_builders(outputs);
        let mut routed_commands: Vec<RoutedCommand> = Vec::new();
        let ghost all = commands@;
        let ghost windows = open_windows(running.viewports@);
        for to in it: commands.into_iter()
            invariant
                it.seq() == all,
                windows == open_windows(running.viewports@),
                routed_commands@ == routed(
                    windows,
                    self.focused_viewport,
                    all.take(it.index() as int),
                ),
        {
            broadcast use vstd::seq::Seq::lemma_filter_map_take_succ;
            if let Some(viewport) = running.viewports.get(&to.viewport_id) {
                if let Some(window) = &viewport.window {
                    let is_viewport_focused = match self.focused_viewport {
                        Some(focused_viewport) => focused_viewport == to.viewport_id,
                        None => false,
                    };
                    routed_commands.push(
                        RoutedCommand {
                            window_id: window.id,
                            command: to.command,
                            is_viewport_focused,
                        },
                    );
                }
            }
        }
        assert(all.take(all.len() as int) == all);
        self.running = Some(running);
        FrameChanges { patches, commands: routed_commands }
    }

    /// The viewport that has the keyboard focus after `event`.
    pub open spec fn focus_after(&self, event: Event) -> Option<ViewportId> {
        match event {
            Event::WindowEvent { window_id, event: WindowEvent::Focused(new_focused) } => {
                if self.running is None {
                    self.focused_viewport
                } else if new_focused {
                    self.viewport_id_of(window_id)
                } else {
                    None
                }
            },
            _ => self.focused_viewport,
        }
    }

    /// The viewport that input of the window `window_id` goes to.
    pub open spec fn receiver_of(&self, window_id: WindowId) -> Option<ViewportId> {
        match self.viewport_id_of(window_id) {
            Some(viewport_id) if self.running->0.viewports@.contains_key(viewport_id) => Some(
                viewport_id,
            ),
            _ => None,
        }
    }

    /// What is to be done about `event` of the window `window_id`.
    pub open spec fn window_plan_of(&self, window_id: WindowId, event: WindowEvent) -> WindowPlan {
        WindowPlan {
            resize: match (event, self.viewport_id_of(window_id)) {
                (WindowEvent::Resized(size), Some(viewport_id)) => {
                    if 0 < size.width && 0 < size.height {
                        Some((viewport_id, size))
                    } else {
                        None
                    }
                },
                (WindowEvent::ScaleFactorChanged { new_inner_size }, Some(viewport_id)) => Some(
                    (viewport_id, new_inner_size),
                ),
                _ => None,
            },
            deliver_to: self.receiver_of(window_id),
            repaint_asap: event is Resized || event is ScaleFactorChanged,
        }
    }

    /// What is to be done about `event`, where `should_close` says whether the application wants to
    /// end.
    pub open spec fn work_of(&self, event: Event, should_close: bool) -> GlowWork {
        match event {
            Event::Resumed => if self.running is Some {
                GlowWork::Resume
            } else {
                GlowWork::InitRunState
            },
            Event::Suspended => GlowWork::Suspend,
            Event::MainEventsCleared => if self.running is Some {
                GlowWork::TryResume
            } else {
                GlowWork::Done(EventResult::Wait)
            },
            Event::WindowEvent { window_id, event } => {
                if self.running is None {
                    GlowWork::Done(EventResult::Wait)
                } else if event is CloseRequested && self.viewport_id_of(window_id) == Some(ROOT)
                    && should_close {
                    GlowWork::Done(EventResult::Exit)
                } else {
                    GlowWork::Window(window_id, self.window_plan_of(window_id, event))
                }
            },
            Event::UserEvent(UserEvent::AccessKitActionRequest(request)) => {
                if self.running is Some {
                    GlowWork::AccessKit {
                        window_id: request.window_id,
                        request: request.request,
                        deliver_to: self.receiver_of(request.window_id),
                    }
                } else {
                    GlowWork::Done(EventResult::Wait)
                }
            },
            _ => GlowWork::Done(EventResult::Wait),
        }
    }

    /// The viewport that input of the window `window_id` goes to.
    fn receiver(&self, window_id: WindowId) -> (viewport_id: Option<ViewportId>)
        ensures
            viewport_id == self.receiver_of(window_id),
    {
        match &self.running {
            Some(running) => match running.viewport_maps.get(&window_id) {
                Some(viewport_id) => if running.viewports.contains_key(viewport_id) {
                    Some(*viewport_id)
                } else {
                    None
                },
                None => None,
            },
            None => None,
        }
    }

    /// Takes up `event`, where `should_close` says whether the application wants to end.
    pub fn on_event(&mut self, event: &Event, should_close: bool) -> (work: GlowWork)
        requires
            *event is Suspended ==> old(self).running is Some,
        ensures
            work == old(self).work_of(*event, should_close),
            *final(self) == (GlowWinitApp {
                focused_viewport: old(self).focus_after(*event),
                ..*old(self)
            }),
    {
        match event {
            Event::Resumed => if self.running.is_some() {
                GlowWork::Resume
            } else {
                GlowWork::InitRunState
            },
            Event::Suspended => GlowWork::Suspend,
            Event::MainEventsCleared => if self.running.is_some() {
                GlowWork::TryResume
            } else {
                GlowWork::Done(EventResult::Wait)
            },
            Event::WindowEvent { window_id, event } => {
                if self.running.is_none() {
                    return GlowWork::Done(EventResult::Wait);
                }
                let viewport_id = self.viewport_id_from_window_id(*window_id);
                let mut repaint_asap = false;
                let mut resize: Option<(ViewportId, PhysicalSize)> = None;
                match event {
                    WindowEvent::Focused(new_focused) => {
                        self.focused_viewport = if *new_focused {
                            viewport_id
                        } else {
                            None
                        };
                    },
                    WindowEvent::Resized(physical_size) => {
                        repaint_asap = true;
                        // Zero width and height mean that the window is minimized.
                        if 0 < physical_size.width && 0 < physical_size.height {
                            if let Some(id) = viewport_id {
                                resize = Some((id, *physical_size));
                            }
                        }
                    },
                    WindowEvent::ScaleFactorChanged { new_inner_size } => {
                        repaint_asap = true;
                        if let Some(id) = viewport_id {
                            resize = Some((id, *new_inner_size));
                        }
                    },
                    WindowEvent::CloseRequested => {
                        if let Some(id) = viewport_id {
                            if id == ROOT && should_close {
                                return GlowWork::Done(EventResult::Exit);
                            }
                        }
                    },
                    _ => {},
                }
                let deliver_to = self.receiver(*window_id);
                GlowWork::Window(*window_id, WindowPlan { resize, deliver_to, repaint_asap })
            },
            Event::UserEvent(UserEvent::AccessKitActionRequest(request)) => {
                if self.running.is_some() {
                    GlowWork::AccessKit {
                        window_id: request.window_id,
                        request: request.request,
                        deliver_to: self.receiver(request.window_id),
                    }
                } else {
                    GlowWork::Done(EventResult::Wait)
                }
            },
            _ => GlowWork::Done(EventResult::Wait),
        }
    }

    /// The result of the event that the application resumes with: the window of the root viewport
    /// is repainted.
    pub fn resumed(&self) -> (result: EventResult)
        requires
            self.window_id_of(ROOT) is Some,
        ensures
            result == EventResult::RepaintNow(self.window_id_of(ROOT)->0),
    {
        EventResult::RepaintNow(self.window_id_from_viewport_id(ROOT).unwrap())
    }

    /// Whether the application runs, and all its viewports are initialized.
    pub open spec fn is_resumed(&self) -> bool {
        self.running matches Some(running) && running.is_initialized()
    }

    /// What an event results in, now that its `work` is done with this `outcome`. Of the input of a
    /// window, `should_close` says whether the application wants to end, and `repaint` whether the ui
    /// wants a repaint.
    pub open spec fn result_of<E>(
        &self,
        work: GlowWork,
        outcome: Result<(), E>,
        should_close: bool,
        repaint: bool,
    ) -> Result<EventResult, E> {
        match (work, outcome) {
            (GlowWork::Done(result), _) => Ok(result),
            (GlowWork::InitRunState | GlowWork::Resume, Ok(_)) => Ok(
                EventResult::RepaintNow(self.window_id_of(ROOT)->0),
            ),
            (GlowWork::Suspend, Ok(_)) => Ok(EventResult::Wait),
            (GlowWork::InitRunState | GlowWork::Resume | GlowWork::Suspend, Err(err)) => Err(err),
            (GlowWork::TryResume, _) => Ok(EventResult::Wait),
            (GlowWork::Window(window_id, plan), _) => Ok(
                window_event_result_of(window_id, plan.repaint_asap, should_close, repaint),
            ),
            (GlowWork::AccessKit { window_id, .. }, _) => Ok(EventResult::RepaintNext(window_id)),
        }
    }

    /// What an event results in, now that its `work` is done with this `outcome`. Of the input of a
    /// window, `should_close` says whether the application wants to end, and `repaint` whether the ui
    /// wants a repaint; it is `false` when no viewport got the input.
    pub fn result_after<E>(
        &self,
        work: GlowWork,
        outcome: Result<(), E>,
        should_close: bool,
        repaint: bool,
    ) -> (result: Result<EventResult, E>)
        requires
            (work is InitRunState || work is Resume) && outcome is Ok ==> self.window_id_of(ROOT)
                is Some,
        ensures
            result == self.result_of(work, outcome, should_close, repaint),
    {
        match work {
            GlowWork::Done(result) => Ok(result),
            GlowWork::InitRunState | GlowWork::Resume => match outcome {
                Ok(_) => Ok(self.resumed()),
                Err(err) => Err(err),
            },
            GlowWork::Suspend => match outcome {
                Ok(_) => Ok(EventResult::Wait),
                Err(err) => Err(err),
            },
            // A viewport that cannot be initialized now is tried again later.
            GlowWork::TryResume => Ok(EventResult::Wait),
            GlowWork::Window(window_id, plan) => Ok(
                window_event_result(window_id, plan.repaint_asap, should_close, repaint),
            ),
            // As a form of user input, accessibility actions should lead to a repaint.
            GlowWork::AccessKit { window_id, .. } => Ok(EventResult::RepaintNext(window_id)),
        }
    }
}

/// What the events that need work result in, where `app` is the application before the work and `after`
/// when it is done with this `outcome`. On a resume that succeeds, every viewport has a window and a
/// surface, and the window of the root viewport is repainted. A failure to start, to resume or to
/// suspend is handed on. When the main events are cleared, a failure is not, and nothing is repainted.
/// A request of an accessibility client leads to a repaint of its window, if the application runs.
pub proof fn law_what_events_result_in<R: GlBackend, E>(
    app: GlowWinitApp<R>,
    after: GlowWinitApp<R>,
    event: Event,
    outcome: Result<(), E>,
    wants_to_close: bool,
    should_close: bool,
    repaint: bool,
)
    requires
        after.wf(),
        event is Resumed && outcome is Ok ==> after.is_resumed(),
    ensures
        ({
            let work = app.work_of(event, wants_to_close);
            let result = after.result_of(work, outcome, should_close, repaint);
            match event {
                Event::Resumed => {
                    &&& work is InitRunState <==> app.running is None
                    &&& match outcome {
                        Ok(_) => {
                            let viewports = after.running->0.viewports@;
                            &&& forall|id: ViewportId| #[trigger]
                                viewports.contains_key(id) ==> viewports[id].window is Some
                                    && viewports[id].gl_surface is Some
                            &&& viewports.contains_key(ROOT)
                            &&& after.window_id_of(ROOT) == Some(viewports[ROOT].window->0.id)
                            &&& result == Ok::<_, E>(
                                EventResult::RepaintNow(viewports[ROOT].window->0.id),
                            )
                        },
                        Err(err) => result == Err::<EventResult, E>(err),
                    }
                },
                Event::Suspended => result == (match outcome {
                    Ok(_) => Ok(EventResult::Wait),
                    Err(err) => Err(err),
                }),
                Event::MainEventsCleared => result == Ok::<_, E>(EventResult::Wait),
                Event::UserEvent(UserEvent::AccessKitActionRequest(request)) => {
                    result == Ok::<_, E>(
                        if app.running is Some {
                            EventResult::RepaintNext(request.window_id)
                        } else {
                            EventResult::Wait
                        },
                    )
                },
                _ => true,
            }
        }),
{
}

impl<R: GlBackend> WinitApp for GlowWinitApp<R> {
    type Window = <R as Backend>::Window;

    open spec fn window_of(&self, window_id: WindowId) -> Option<NativeWindow<<R as Backend>::Window>> {
        match self.running {
            Some(running) => running.window_with_id(window_id),
            None => None,
        }
    }

    open spec fn window_id_of(&self, id: ViewportId) -> Option<WindowId> {
        match self.running {
            Some(running) => running.window_maps@.get(id),
            None => None,
        }
    }

    open spec fn viewport_id_of(&self, id: WindowId) -> Option<ViewportId> {
        match self.running {
            Some(running) => running.viewport_maps@.get(id),
            None => None,
        }
    }

    open spec fn focus(&self) -> Option<ViewportId> {
        self.focused_viewport
    }

    fn is_focused(&self, window_id: WindowId) -> (focused: bool) {
        if let Some(focused_viewport) = self.focused_viewport {
            if let Some(running) = &self.running {
                if let Some(viewport_id) = running.viewport_maps.get(&window_id) {
                    return focused_viewport == *viewport_id;
                }
            }
        }
        false
    }

    fn window(&self, window_id: WindowId) -> (window: Option<&NativeWindow<<R as Backend>::Window>>) {
        match &self.running {
            Some(running) => match running.viewport_maps.get(&window_id) {
                Some(viewport_id) => match running.viewports.get(viewport_id) {
                    Some(viewport) => viewport.window.as_ref(),
                    None => None,
                },
                None => None,
            },
            None => None,
        }
    }

    fn window_id_from_viewport_id(&self, id: ViewportId) -> (window_id: Option<WindowId>) {
        match &self.running {
            Some(running) => match running.window_maps.get(&id) {
                Some(window_id) => Some(*window_id),
                None => None,
            },
            None => None,
        }
    }

    fn viewport_id_from_window_id(&self, id: WindowId) -> (viewport_id: Option<ViewportId>) {
        match &self.running {
            Some(running) => match running.viewport_maps.get(&id) {
                Some(viewport_id) => Some(*viewport_id),
                None => None,
            },
            None => None,
        }
    }
}

/// The window that gains the keyboard focus is the one that has it, whichever had it before, and when
/// a window loses the focus none has it. No other event moves the focus.
pub proof fn law_focus_follows_the_windows<R: GlBackend>(app: GlowWinitApp<R>, event: Event)
    requires
        app.running is Some,
    ensures
        match event {
            Event::WindowEvent { window_id, event: WindowEvent::Focused(true) } => {
                let after = GlowWinitApp { focused_viewport: app.focus_after(event), ..app };
                &&& after.viewport_id_of(window_id) == after.focus()
                &&& app.viewport_id_of(window_id) is Some ==> after.focus() is Some
            },
            Event::WindowEvent { window_id, event: WindowEvent::Focused(false) } => app.focus_after(
                event,
            ) is None,
            _ => app.focus_after(event) == app.focused_viewport,
        },
{
}

/// An event of a window resizes no other viewport than the one in that window, and is input of no
/// other. A window that is minimized, which has no width or no height, is not resized.
pub proof fn law_window_events_stay_in_their_window<R: GlBackend>(
    app: GlowWinitApp<R>,
    window_id: WindowId,
    event: WindowEvent,
)
    ensures
        ({
            let plan = app.window_plan_of(window_id, event);
            &&& plan.resize matches Some((viewport_id, _)) ==> app.viewport_id_of(window_id) == Some(
                viewport_id,
            )
            &&& plan.deliver_to matches Some(viewport_id) ==> app.viewport_id_of(window_id) == Some(
                viewport_id,
            )
            &&& event matches WindowEvent::Resized(size) ==> size.width == 0 || size.height == 0
                ==> plan.resize is None
        }),
{
}

/// A viewport that is painted together with its parent is never painted by itself: its parent is
/// repainted instead, if that has a window.
pub proof fn law_immediate_viewports_are_left_to_their_parents<R: GlBackend>(
    app: GlowWinitApp<R>,
    window_id: WindowId,
    viewport_id: ViewportId,
)
    requires
        app.wf(),
        app.viewport_id_of(window_id) == Some(viewport_id),
        viewport_id != ROOT,
        app.running->0.viewports@.contains_key(viewport_id),
        app.running->0.viewports@[viewport_id].viewport_ui_cb is None,
    ensures
        ({
            let viewports = app.running->0.viewports@;
            let parent = viewports[viewport_id].id_pair.parent;
            app.paint_start_of(window_id) == PaintStart::Done(
                if viewports.contains_key(parent) && viewports[parent].window is Some {
                    EventResult::RepaintNext(viewports[parent].window->0.id)
                } else {
                    EventResult::Wait
                },
            )
        }),
{
}

/// A viewport that is shown in a window and the window are found by the ids of each other.
pub proof fn law_open_windows_are_found<R: GlBackend>(app: GlowWinitApp<R>, viewport_id: ViewportId)
    requires
        app.wf(),
        app.running is Some,
        app.running->0.viewports@.contains_key(viewport_id),
        app.running->0.viewports@[viewport_id].window is Some,
    ensures
        ({
            let window = app.running->0.viewports@[viewport_id].window->0;
            &&& app.window_id_of(viewport_id) == Some(window.id)
            &&& app.viewport_id_of(window.id) == Some(viewport_id)
            &&& app.window_of(window.id) == Some(window)
        }),
{
}

/// An application that does not run finds nothing. One that runs finds the viewport of a window where it
/// is listed, and a window only as the one that the viewport listed for it is shown in.
pub proof fn law_what_is_found<R: GlBackend>(
    app: GlowWinitApp<R>,
    window_id: WindowId,
    viewport_id: ViewportId,
)
    ensures
        app.focus() == app.focused_viewport,
        app.running is None ==> app.window_of(window_id) is None && app.window_id_of(viewport_id)
            is None && app.viewport_id_of(window_id) is None,
        app.running matches Some(running) ==> {
            &&& app.viewport_id_of(window_id) == Some(viewport_id)
                <==> running.viewport_maps@.contains_key(window_id)
                && running.viewport_maps@[window_id] == viewport_id
            &&& app.window_of(window_id) is Some ==> running.viewport_maps@.contains_key(window_id)
                && running.viewports@.contains_key(running.viewport_maps@[window_id])
                && app.window_of(window_id)
                == running.viewports@[running.viewport_maps@[window_id]].window
            &&& running.viewport_maps@.contains_key(window_id)
                && running.viewport_maps@[window_id] == viewport_id
                && running.viewports@.contains_key(viewport_id)
                && running.viewports@[viewport_id].window is Some ==> app.window_of(window_id)
                == running.viewports@[viewport_id].window
        },
{
}

/// A viewport counts as shown in a window exactly if it is there and has one, and the window is that.
pub proof fn law_which_windows_are_open<R: GlBackend>(
    viewports: Map<ViewportId, Viewport<R>>,
    id: ViewportId,
)
    ensures
        open_windows(viewports).contains_key(id) <==> viewports.contains_key(id)
            && viewports[id].window is Some,
        open_windows(viewports).contains_key(id) ==> (viewports[id].window matches Some(window)
            && window.id == open_windows(viewports)[id]),
{
}

/// While the application does not run, no event moves the focus.
pub proof fn law_focus_waits_for_the_run<R: GlBackend>(app: GlowWinitApp<R>, event: Event)
    requires
        app.running is None,
    ensures
        app.focus_after(event) == app.focused_viewport,
{
}

/// The window of a viewport is the one that is listed for it.
pub proof fn law_which_window_is_listed<R: GlBackend>(
    app: GlowWinitApp<R>,
    viewport_id: ViewportId,
    window_id: WindowId,
)
    requires
        app.running is Some,
    ensures
        app.window_id_of(viewport_id) == Some(window_id)
            <==> app.running->0.window_maps@.contains_key(viewport_id)
            && app.running->0.window_maps@[viewport_id] == window_id,
{
}

/// A window is painted exactly if the application runs and the viewport in it is the root or has a ui of
/// its own. Instead of a viewport without one, the window of its parent is repainted, and no other. In
/// every other case the loop waits.
pub proof fn law_who_is_painted<R: GlBackend>(
    app: GlowWinitApp<R>,
    window_id: WindowId,
    viewport_id: ViewportId,
    parent_window: WindowId,
)
    requires
        app.wf(),
    ensures
        ({
            let start = app.paint_start_of(window_id);
            let maps = app.running->0.viewport_maps@;
            let viewports = app.running->0.viewports@;
            &&& start == PaintStart::Paint(viewport_id) <==> app.running is Some
                && maps.contains_key(window_id) && maps[window_id] == viewport_id && (viewport_id
                == ROOT || viewports[viewport_id].viewport_ui_cb is Some)
            &&& start == PaintStart::Done(EventResult::RepaintNext(parent_window))
                <==> app.running is Some && maps.contains_key(window_id) && maps[window_id] != ROOT
                && viewports[maps[window_id]].viewport_ui_cb is None && viewports.contains_key(
                viewports[maps[window_id]].id_pair.parent,
            ) && (viewports[viewports[maps[window_id]].id_pair.parent].window matches Some(window)
                && window.id == parent_window)
            &&& start matches PaintStart::Done(result) ==> result == EventResult::Wait || result
                is RepaintNext
        }),
{
}

/// A viewport is resized exactly if its window gets a new size that is not empty, or a new scale: that
/// viewport, to that size. An event is input of the viewport in its window, if that is there. A repaint
/// cannot wait exactly if the size or the scale changed.
pub proof fn law_what_an_event_does_to_its_window<R: GlBackend>(
    app: GlowWinitApp<R>,
    window_id: WindowId,
    event: WindowEvent,
    viewport_id: ViewportId,
    size: PhysicalSize,
)
    requires
        app.running is Some,
    ensures
        ({
            let plan = app.window_plan_of(window_id, event);
            let maps = app.running->0.viewport_maps@;
            let is_shown = maps.contains_key(window_id) && maps[window_id] == viewport_id;
            &&& plan.resize == Some((viewport_id, size)) <==> is_shown && (event
                == WindowEvent::Resized(size) && size.width > 0 && size.height > 0 || event
                == WindowEvent::ScaleFactorChanged { new_inner_size: size })
            &&& plan.deliver_to == Some(viewport_id) <==> is_shown
                && app.running->0.viewports@.contains_key(viewport_id)
            &&& plan.repaint_asap <==> event is Resized || event is ScaleFactorChanged
        }),
{
}

/// The work that an event needs tells what the event is. The application ends at once exactly if the
/// window of the root viewport is to close and the application agrees. Every other event of a window is
/// handled by the plan for that window and that event. The viewports are initialized on a resume and when
/// the main events are cleared, and suspended on a suspend. A request of an accessibility client is
/// handed on as it is, to the viewport in its window. An application that does not run only starts.
pub proof fn law_work_tells_the_event<R: GlBackend>(
    app: GlowWinitApp<R>,
    event: Event,
    should_close: bool,
    window_id: WindowId,
    plan: WindowPlan,
    request: ActionRequest,
    deliver_to: Option<ViewportId>,
)
    ensures
        ({
            let work = app.work_of(event, should_close);
            let runs = app.running is Some;
            let maps = app.running->0.viewport_maps@;
            let closes = should_close && (event matches Event::WindowEvent {
                window_id,
                event: WindowEvent::CloseRequested,
            } && maps.contains_key(window_id) && maps[window_id] == ROOT);
            &&& work == GlowWork::Done(EventResult::Exit) <==> runs && closes
            &&& work == GlowWork::Window(window_id, plan) <==> runs && !closes && (event matches
                Event::WindowEvent { window_id: of, event } && of == window_id
                && app.window_plan_of(window_id, event) == plan)
            &&& work == GlowWork::InitRunState <==> event == Event::Resumed && !runs
            &&& work == GlowWork::Resume <==> event == Event::Resumed && runs
            &&& work == GlowWork::Suspend <==> event == Event::Suspended
            &&& work == GlowWork::TryResume <==> event == Event::MainEventsCleared && runs
            &&& work == GlowWork::AccessKit { window_id, request, deliver_to } <==> runs && (event
                matches Event::UserEvent(UserEvent::AccessKitActionRequest(asked))
                && asked.window_id == window_id && asked.request == request && deliver_to
                == app.window_plan_of(window_id, WindowEvent::Moved).deliver_to)
            &&& work matches GlowWork::Done(result) ==> result == EventResult::Exit || result
                == EventResult::Wait
        }),
{
}

/// An event fails exactly if starting, resuming or suspending does, with the same error. Else it results
/// in a repaint of the root window after a start or a resume, in what its input asks for after an event of
/// a window, in a repaint of its window after a request of an accessibility client, in what was settled
/// before where there was no work, and in waiting after anything else.
pub proof fn law_what_work_results_in<R: GlBackend, E>(
    app: GlowWinitApp<R>,
    work: GlowWork,
    outcome: Result<(), E>,
    should_close: bool,
    repaint: bool,
    err: E,
    window_id: WindowId,
    plan: WindowPlan,
    settled: EventResult,
)
    ensures
        ({
            let result = app.result_of(work, outcome, should_close, repaint);
            let may_fail = work == GlowWork::InitRunState || work == GlowWork::Resume || work
                == GlowWork::Suspend;
            &&& result == Err::<EventResult, E>(err) <==> may_fail && outcome == Err::<(), E>(err)
            &&& (work == GlowWork::InitRunState || work == GlowWork::Resume) && outcome is Ok && (
            app.window_id_of(ROOT) == Some(window_id)) ==> result == Ok::<_, E>(
                EventResult::RepaintNow(window_id),
            )
            &&& work == GlowWork::Suspend && outcome is Ok ==> result == Ok::<_, E>(
                EventResult::Wait,
            )
            &&& work == GlowWork::TryResume ==> result == Ok::<_, E>(EventResult::Wait)
            &&& work == GlowWork::Done(settled) ==> result == Ok::<_, E>(settled)
            &&& (work matches GlowWork::AccessKit { window_id: of, .. } && of == window_id)
                ==> result == Ok::<_, E>(EventResult::RepaintNext(window_id))
            &&& work == GlowWork::Window(window_id, plan) ==> {
                &&& result == Ok::<_, E>(EventResult::Exit) <==> should_close
                &&& result == Ok::<_, E>(EventResult::Wait) <==> !should_close && !repaint
                &&& result == Ok::<_, E>(EventResult::RepaintNow(window_id)) <==> !should_close
                    && repaint && plan.repaint_asap
                &&& result == Ok::<_, E>(EventResult::RepaintNext(window_id)) <==> !should_close
                    && repaint && !plan.repaint_asap
            }
        }),
{
}

/// Frames are counted by the ui, and only while the application runs.
pub proof fn law_frames_are_counted_while_it_runs<R: GlBackend>(app: GlowWinitApp<R>, reported: u64)
    ensures
        app.running is Some ==> app.frame_nr_of(reported) == reported,
        app.frame_nr_of(reported) != 0 ==> app.running is Some,
{
}

/// At the end of a frame, each command for a viewport that is shown in a window is on its way to that
/// window, once, in the order in which the commands were given, whichever viewport has the focus, if any.
/// The window is told that it has the focus exactly if its viewport has. No other command is on its way.
/// `from` tells which of the commands each of them was.
pub proof fn law_commands_reach_open_windows<R: GlBackend>(
    app: GlowWinitApp<R>,
    commands: Seq<ViewportCommandTo>,
) -> (from: Seq<int>)
    requires
        app.running is Some,
    ensures
        ({
            let on_their_way = app.commands_on_their_way(commands);
            let viewports = app.running->0.viewports@;
            let is_shown = |id: ViewportId| viewports.contains_key(id) && viewports[id].window is Some;
            &&& from.len() == on_their_way.len()
            &&& forall|k: int, m: int| 0 <= k < m < from.len() ==> from[k] < from[m]
            &&& forall|k: int|
                0 <= k < from.len() ==> {
                    let to = commands[#[trigger] from[k]];
                    &&& 0 <= from[k] < commands.len()
                    &&& is_shown(to.viewport_id)
                    &&& on_their_way[k].window_id == viewports[to.viewport_id].window->0.id
                    &&& on_their_way[k].command == to.command
                    &&& on_their_way[k].is_viewport_focused <==> app.focused_viewport == Some(
                        to.viewport_id,
                    )
                }
            &&& forall|i: int|
                0 <= i < commands.len() && is_shown((#[trigger] commands[i]).viewport_id)
                    ==> from.contains(i)
        }),
{
    law_commands_reach_their_windows(
        open_windows(app.running->0.viewports@),
        app.focused_viewport,
        commands,
    )
}

/// A run that ends has its state saved. An application that does not run has nothing to end.
pub proof fn law_when_the_state_is_saved<R: GlBackend>(app: GlowWinitApp<R>)
    ensures
        app.steps_to_end() is Some <==> app.running is Some,
        app.steps_to_end() matches Some(steps) ==> {
            &&& steps.contains(ShutdownStep::Save)
            &&& steps.contains(ShutdownStep::ExitApp)
            &&& steps.contains(ShutdownStep::DestroyPainter)
        },
{
    let saved = shutdown_steps_of(true);
    let unsaved = shutdown_steps_of(false);
    assert(saved[0] == ShutdownStep::Save);
    assert(saved[1] == ShutdownStep::ExitApp);
    assert(saved[2] == ShutdownStep::DestroyPainter);
    assert(unsaved[0] == ShutdownStep::ExitApp);
    assert(unsaved[1] == ShutdownStep::DestroyPainter);
}

/// A run begins with the theme that the window tells, if the application follows it and the window tells
/// one, and else with the default. The mouse passes exactly if that is asked for, and accessibility clients
/// are served exactly if the root viewport can be shown.
pub proof fn law_how_a_run_begins<R: GlBackend>(
    app: GlowWinitApp<R>,
    context: GlutinWindowContext<R>,
    window_theme: Option<Theme>,
    run_state: RunState<R::AppCreator>,
)
    requires
        app.begins_with(context, window_theme, run_state),
    ensures
        app.native_options.follow_system_theme ==> run_state.system_theme == window_theme,
        !app.native_options.follow_system_theme ==> run_state.system_theme is None,
        run_state.system_theme matches Some(theme) ==> run_state.theme == theme,
        run_state.system_theme is None ==> run_state.theme == app.native_options.default_theme,
        run_state.mouse_passthrough <==> app.native_options.mouse_passthrough,
        run_state.accessible <==> context.viewports@.contains_key(ROOT)
            && context.viewports@[ROOT].window is Some && context.viewports@[ROOT].egui_winit is Some,
        app.app_creator == Some(run_state.app_creator),
{
}

} // verus!
