//! An application whose viewports are painted with wgpu.

use crate::backend::{
    active_ids, ids_are_distinct, Backend, NativeWindow, ViewportOutput, WgpuBackend, WinitApp,
};
use crate::event::{
    ActionRequest, Event, EventResult, PhysicalSize, TargetOs, UserEvent, ViewportId, WindowEvent,
    WindowId, ROOT,
};
use crate::frame::{
    law_commands_reach_their_windows, routed, shutdown_steps, shutdown_steps_of, window_event_result,
    window_event_result_of, PaintStart, RoutedCommand, RunState, Shutdown, ShutdownStep,
    ViewportCommandTo, WindowPlan,
};
use crate::maps::restrict_values;
use crate::options::{system_theme, NativeOptions, Theme};
use crate::wgpu_integration::shared::{
    icons_are_inherited, last_icons_count, reconciled, SharedState, Viewport,
};
use std::collections::HashSet;
use vstd::prelude::*;

verus! {

broadcast use vstd::std_specs::hash::group_hash_axioms;

/// An application whose viewports are painted with wgpu.
pub struct WgpuWinitApp<R: WgpuBackend> {
    pub app_name: String,
    pub native_options: NativeOptions,
    /// Taken when the application starts to run.
    pub app_creator: Option<R::AppCreator>,
    /// The viewports and the painter, once the application runs.
    pub running: Option<SharedState<R>>,
    pub focused_viewport: Option<ViewportId>,
}

/// What is to be done about an event; `result_after` then gives the result.
#[derive(Clone, Copy, Debug, PartialEq, Eq)]
pub enum WgpuWork {
    /// Nothing more.
    Done(EventResult),
    /// Open the window of the root viewport and start to run.
    InitRunState,
    /// Open the window of the root viewport anew, hand it to the painter, and restore the root
    /// viewport with it.
    RestoreRoot,
    /// Drop the root viewport and take its window from the painter.
    DropWindow,
    /// Carry out the plan for the window.
    Window(WindowId, WindowPlan),
    /// Hand the request of an accessibility client in the window `window_id` to the viewport
    /// `deliver_to`, if there is one.
    AccessKit { window_id: WindowId, request: ActionRequest, deliver_to: Option<ViewportId> },
}

/// What a frame asks for, apart from what is painted.
pub struct FrameChanges {
    /// The commands of the ui.
    pub commands: Vec<RoutedCommand>,
    /// The viewports that stay when the frame ends.
    pub active: HashSet<ViewportId>,
}

/// The windows that viewports are shown in.
pub open spec fn open_windows<R: WgpuBackend>(viewports: Map<ViewportId, Viewport<R>>) -> Map<
    ViewportId,
    WindowId,
> {
    Map::new(
        |id: ViewportId| viewports.contains_key(id) && viewports[id].window is Some,
        |id: ViewportId| viewports[id].window->0.id,
    )
}

impl<R: WgpuBackend> WgpuWinitApp<R> {
    /// What holds of every application: its viewports are in order.
    pub open spec fn wf(&self) -> bool {
        self.running matches Some(running) ==> running.wf()
    }

    /// An application that does not run yet.
    pub fn new(app_name: String, native_options: NativeOptions, app_creator: R::AppCreator) -> (app:
        WgpuWinitApp<R>)
        ensures
            app == (WgpuWinitApp::<R> {
                app_name,
                native_options,
                app_creator: Some(app_creator),
                running: None,
                focused_viewport: Some(ROOT),
            }),
            app.wf(),
    {
        WgpuWinitApp {
            app_name,
            native_options,
            app_creator: Some(app_creator),
            running: None,
            focused_viewport: Some(ROOT),
        }
    }

    /// The current frame of a viewport, where `reported` is what the ui says.
    pub open spec fn frame_nr_of(&self, reported: u64) -> u64 {
        if self.running is Some {
            reported
        } else {
            0
        }
    }

    /// The current frame of a viewport, where `reported` is what the ui says. An application that
    /// does not run has no frames.
    pub fn frame_nr(&self, reported: u64) -> (frame_nr: u64)
        ensures
            frame_nr == self.frame_nr_of(reported),
            frame_nr == (if self.running is Some {
                reported
            } else {
                0
            }),
    {
        if self.running.is_some() {
            reported
        } else {
            0
        }
    }

    /// The viewports that a window is to be opened for before an event is handled: those without
    /// one. Each has a builder.
    pub fn windows_to_build(&self) -> (ids: Vec<ViewportId>)
        requires
            self.wf(),
        ensures
            ids@.no_duplicates(),
            forall|id: ViewportId| #[trigger]
                ids@.contains(id) <==> self.running is Some
                    && self.running->0.viewports@.contains_key(id)
                    && self.running->0.viewports@[id].window is None,
            forall|id: ViewportId|
                ids@.contains(id) ==> #[trigger] self.running->0.builders@.contains_key(id),
    {
        match &self.running {
            Some(running) => running.windows_to_build(),
            None => Vec::new(),
        }
    }

    /// Whether the run begins with `run_state`.
    pub open spec fn begins_with(
        &self,
        window_theme: Option<Theme>,
        run_state: RunState<R::AppCreator>,
    ) -> bool {
        &&& run_state.system_theme == self.native_options.system_theme_of(window_theme)
        &&& run_state.theme == self.native_options.initial_theme_of(window_theme)
        &&& !run_state.mouse_passthrough
        &&& run_state.accessible
        &&& Some(run_state.app_creator) == self.app_creator
    }

    /// Begins to run. `window_theme` is the theme that the window of the root viewport tells. The
    /// window keeps the mouse, whatever the options say.
    pub fn begin_run_state(&mut self, window_theme: Option<Theme>) -> (run_state: RunState<
        R::AppCreator,
    >)
        requires
            old(self).app_creator is Some,
        ensures
            old(self).begins_with(window_theme, run_state),
            *final(self) == (WgpuWinitApp { app_creator: None, ..*old(self) }),
            run_state.system_theme == old(self).native_options.system_theme_of(window_theme),
            run_state.theme == old(self).native_options.initial_theme_of(window_theme),
            run_state.theme == (match old(self).native_options.system_theme_of(window_theme) {
                Some(theme) => theme,
                None => old(self).native_options.default_theme,
            }),
            !run_state.mouse_passthrough,
            run_state.accessible,
            Some(run_state.app_creator) == old(self).app_creator,
    {
        RunState {
            system_theme: system_theme(window_theme, &self.native_options),
            theme: self.native_options.initial_theme(window_theme),
            mouse_passthrough: false,
            accessible: true,
            app_creator: self.app_creator.take().unwrap(),
        }
    }

    /// Runs from now on: the root viewport is shown in `window`, which was built with `builder`.
    pub fn finish_run_state(
        &mut self,
        builder: egui::ViewportBuilder,
        window: NativeWindow<R::Window>,
        egui_winit: R::InputState,
        painter: R::Painter,
    )
        ensures
            final(self).wf(),
            *final(self) == (WgpuWinitApp { running: final(self).running, ..*old(self) }),
            final(self).running matches Some(running) && {
                &&& running.viewports@ == map![
                    ROOT => Viewport::<R> {
                        window: Some(window),
                        egui_winit: Some(egui_winit),
                        viewport_ui_cb: None,
                        parent_id: ROOT,
                    },
                ]
                &&& running.builders@ == map![ROOT => builder]
                &&& running.viewport_maps@ == map![window.id => ROOT]
                &&& running.painter == painter
            },
    {
        self.running = Some(SharedState::new(builder, window, egui_winit, painter));
    }

    /// The steps of the end of the run, if there is one.
    pub open spec fn steps_to_end(&self) -> Option<Seq<ShutdownStep>> {
        match self.running {
            Some(running) => Some(shutdown_steps_of(running.viewports@.contains_key(ROOT))),
            None => None,
        }
    }

    /// Ends the run, if there is one: the state of the application is saved if the root viewport is
    /// there.
    pub fn save_and_destroy(&mut self) -> (shutdown: Option<Shutdown<SharedState<R>>>)
        ensures
            match shutdown {
                Some(shutdown) => old(self).steps_to_end() == Some(shutdown.steps@),
                None => old(self).steps_to_end() is None,
            },
            match old(self).running {
                Some(running) => shutdown matches Some(shutdown) && shutdown.running == running
                    && shutdown.steps@ == shutdown_steps_of(running.viewports@.contains_key(ROOT)),
                None => shutdown is None,
            },
            *final(self) == (WgpuWinitApp { running: None, ..*old(self) }),
    {
        match self.running.take() {
            Some(running) => {
                let steps = shutdown_steps(running.saves());
                Some(Shutdown { running, steps })
            },
            None => None,
        }
    }

    /// How painting the window `window_id` begins.
    pub open spec fn paint_start_of(&self, window_id: WindowId) -> PaintStart {
        match self.viewport_id_of(window_id) {
            Some(viewport_id) if self.running->0.viewports@.contains_key(viewport_id) => {
                let viewports = self.running->0.viewports@;
                let viewport = viewports[viewport_id];
                let parent = viewport.parent_id;
                if viewport.viewport_ui_cb is Some || viewport_id == ROOT {
                    if viewport.window is Some {
                        PaintStart::Paint(viewport_id)
                    } else {
                        PaintStart::Done(EventResult::Wait)
                    }
                } else if viewports.contains_key(parent) && viewports[parent].window is Some {
                    PaintStart::Done(EventResult::RepaintNext(viewports[parent].window->0.id))
                } else {
                    PaintStart::Done(EventResult::Wait)
                }
            },
            _ => PaintStart::Done(EventResult::Wait),
        }
    }

    /// How painting the window `window_id` begins. A viewport that cannot be painted by itself has its
    /// parent repainted. A viewport that is painted can be shown.
    pub fn begin_paint(&self, window_id: WindowId) -> (start: PaintStart)
        requires
            self.wf(),
        ensures
            start == self.paint_start_of(window_id),
            start matches PaintStart::Paint(viewport_id) ==> self.running->0.can_show(viewport_id),
    {
        let running = match &self.running {
            Some(running) => running,
            None => return PaintStart::Done(EventResult::Wait),
        };
        let viewport_id: ViewportId = match running.viewport_maps.get(&window_id) {
            Some(viewport_id) => *viewport_id,
            None => return PaintStart::Done(EventResult::Wait),
        };
        let viewport = match running.viewports.get(&viewport_id) {
            Some(viewport) => viewport,
            None => return PaintStart::Done(EventResult::Wait),
        };
        if viewport_id != ROOT && viewport.viewport_ui_cb.is_none() {
            if let Some(parent_viewport) = running.viewports.get(&viewport.parent_id) {
                if let Some(window) = &parent_viewport.window {
                    return PaintStart::Done(EventResult::RepaintNext(window.id));
                }
            }
            return PaintStart::Done(EventResult::Wait);
        }
        if viewport.window.is_none() {
            return PaintStart::Done(EventResult::Wait);
        }
        PaintStart::Paint(viewport_id)
    }

    /// How painting the window `window_id` goes on, now that its ui has been run.
    pub open spec fn paint_after_update_of(&self, window_id: WindowId) -> PaintStart {
        if self.window_of(window_id) is Some {
            PaintStart::Paint(self.viewport_id_of(window_id)->0)
        } else {
            PaintStart::Done(EventResult::Wait)
        }
    }

    /// How painting the window `window_id` goes on, now that its ui has been run: the ui may have
    /// changed the viewports. A viewport that is painted can be shown.
    pub fn viewport_to_paint(&self, window_id: WindowId) -> (next: PaintStart)
        requires
            self.wf(),
        ensures
            next == self.paint_after_update_of(window_id),
            next == (if self.window_of(window_id) is Some {
                PaintStart::Paint(self.viewport_id_of(window_id)->0)
            } else {
                PaintStart::Done(EventResult::Wait)
            }),
            next matches PaintStart::Paint(viewport_id) ==> self.running->0.can_show(viewport_id),
    {
        match &self.running {
            Some(running) => match running.viewport_maps.get(&window_id) {
                Some(viewport_id) => if running.is_ready(*viewport_id) {
                    PaintStart::Paint(*viewport_id)
                } else {
                    PaintStart::Done(EventResult::Wait)
                },
                None => PaintStart::Done(EventResult::Wait),
            },
            None => PaintStart::Done(EventResult::Wait),
        }
    }

    /// The `commands` of the ui on their way to the windows that are open.
    pub open spec fn commands_on_their_way(&self, commands: Seq<ViewportCommandTo>) -> Seq<
        RoutedCommand,
    > {
        routed(open_windows(self.running->0.viewports@), self.focused_viewport, commands)
    }

    /// Brings the viewports in line with `outputs`, and sends the `commands` of the ui on their way,
    /// also to windows that are closed when the frame ends.
    pub fn process_outputs(
        &mut self,
        outputs: Vec<ViewportOutput<R>>,
        commands: Vec<ViewportCommandTo>,
    ) -> (changes: FrameChanges)
        requires
            old(self).wf(),
            old(self).running is Some,
        ensures
            final(self).wf(),
            final(self).running is Some,
            changes.commands@ == final(self).commands_on_their_way(commands@),
            ({
                let before = old(self).running->0;
                let after = final(self).running->0;
                let asked = reconciled(before.viewports@, before.builders@, outputs@);
                &&& after.viewports@ == asked.viewports
                &&& after.builders@ == asked.builders
                &&& after.viewport_maps == before.viewport_maps
                &&& after.painter == before.painter
                &&& changes.active@ == active_ids(outputs@)
                &&& changes.commands@ == routed(
                    open_windows(after.viewports@),
                    old(self).focused_viewport,
                    commands@,
                )
                &&& ids_are_distinct(outputs@) ==> icons_are_inherited(
                    before.viewports@,
                    before.builders@,
                    outputs@,
                    after.builders@,
                )
                &&& last_icons_count(
                    before.viewports@,
                    before.builders@,
                    outputs@,
                    after.builders@,
                )
                &&& forall|j: int|
                    0 <= j < outputs@.len() && before.viewports@.contains_key(
                        outputs@[j].id_pair.this,
                    ) && (forall|m: int|
                        j < m < outputs@.len() ==> (#[trigger] outputs@[m]).id_pair.this
                            != outputs@[j].id_pair.this) ==> {
                        let viewport = after.viewports@[(#[trigger] outputs@[j]).id_pair.this];
                        &&& viewport.viewport_ui_cb == outputs@[j].viewport_ui_cb
                        &&& viewport.parent_id == outputs@[j].id_pair.parent
                    }
            }),
            *final(self) == (WgpuWinitApp { running: final(self).running, ..*old(self) }),
    {
        let mut running = self.running.take().unwrap();
        let active = running.reconcile(outputs);
        let mut routed_commands: Vec<RoutedCommand> = Vec::new();
        let ghost all = commands@;
        let ghost windows = open_windows(running.viewports@);
        for to in it: commands.into_iter()
            invariant
                it.seq() == all,
                windows == open_windows(running.viewports@),
                routed_commands@ == routed(
                    windows,
                    self.focused_viewport,
                    all.take(it.index() as int),
                ),
        {
            broadcast use vstd::seq::Seq::lemma_filter_map_take_succ;
            if let Some(viewport) = running.viewports.get(&to.viewport_id) {
                if let Some(window) = &viewport.window {
                    let is_viewport_focused = match self.focused_viewport {
                        Some(focused_viewport) => focused_viewport == to.viewport_id,
                        None => false,
                    };
                    routed_commands.push(
                        RoutedCommand {
                            window_id: window.id,
                            command: to.command,
                            is_viewport_focused,
                        },
                    );
                }
            }
        }
        assert(all.take(all.len() as int) == all);
        self.running = Some(running);
        FrameChanges { commands: routed_commands, active }
    }

    /// Ends the frame of the window `window_id`: drops the viewports that are not in `active`. Says
    /// whether the window is still open; `frame_result` then gives the result.
    pub fn finish_frame(&mut self, window_id: WindowId, active: &HashSet<ViewportId>) -> (is_open: bool)
        requires
            old(self).wf(),
            old(self).running is Some,
        ensures
            final(self).wf(),
            final(self).running is Some,
            ({
                let before = old(self).running->0;
                let after = final(self).running->0;
                &&& after.viewports@ == before.viewports@.restrict(active@)
                &&& after.builders@ == before.builders@.restrict(active@)
                &&& after.viewport_maps@ == restrict_values(before.viewport_maps@, active@)
                &&& after.painter == before.painter
            }),
            *final(self) == (WgpuWinitApp { running: final(self).running, ..*old(self) }),
            is_open == (final(self).window_of(window_id) is Some),
            old(self).running->0.is_cut_down_to(&final(self).running->0, active@),
    {
        let mut running = self.running.take().unwrap();
        running.collect_viewports(active);
        self.running = Some(running);
        self.window(window_id).is_some()
    }

    /// The viewport that has the keyboard focus after `event`.
    pub open spec fn focus_after(&self, event: Event) -> Option<ViewportId> {
        match event {
            Event::WindowEvent { window_id, event: WindowEvent::Focused(new_focused) } => {
                if self.running is None {
                    self.focused_viewport
                } else if new_focused {
                    self.viewport_id_of(window_id)
                } else {
                    None
                }
            },
            _ => self.focused_viewport,
        }
    }

    /// The viewport that input of the window `window_id` goes to.
    pub open spec fn receiver_of(&self, window_id: WindowId) -> Option<ViewportId> {
        match self.viewport_id_of(window_id) {
            Some(viewport_id) if self.running->0.viewports@.contains_key(viewport_id)
                && self.running->0.viewports@[viewport_id].egui_winit is Some => Some(viewport_id),
            _ => None,
        }
    }

    /// What is to be done about `event` of the window `window_id`.
    pub open spec fn window_plan_of(&self, window_id: WindowId, event: WindowEvent) -> WindowPlan {
        let resize = match (event, self.viewport_id_of(window_id)) {
            (WindowEvent::Resized(size), Some(viewport_id)) => {
                if 0 < size.width && 0 < size.height {
                    Some((viewport_id, size))
                } else {
                    None
                }
            },
            (WindowEvent::ScaleFactorChanged { new_inner_size: size }, Some(viewport_id)) => {
                if 0 < size.width && 0 < size.height {
                    Some((viewport_id, size))
                } else {
                    None
                }
            },
            _ => None,
        };
        WindowPlan {
            resize,
            deliver_to: self.receiver_of(window_id),
            repaint_asap: event is Resized || event is ScaleFactorChanged && resize is Some,
        }
    }

    /// What is to be done about `event`, where `should_close` says whether the application wants to
    /// end.
    pub open spec fn work_of(&self, event: Event, target_os: TargetOs, should_close: bool) -> WgpuWork {
        match event {
            Event::Resumed => match self.window_id_of(ROOT) {
                Some(window_id) => WgpuWork::Done(EventResult::RepaintNow(window_id)),
                None => if self.running is Some {
                    WgpuWork::RestoreRoot
                } else {
                    WgpuWork::InitRunState
                },
            },
            Event::Suspended => if target_os is Android && self.running is Some {
                WgpuWork::DropWindow
            } else {
                WgpuWork::Done(EventResult::Wait)
            },
            Event::WindowEvent { window_id, event } => {
                if self.running is None {
                    WgpuWork::Done(EventResult::Wait)
                } else if event is CloseRequested && should_close {
                    WgpuWork::Done(EventResult::Exit)
                } else {
                    WgpuWork::Window(window_id, self.window_plan_of(window_id, event))
                }
            },
            Event::UserEvent(UserEvent::AccessKitActionRequest(request)) => {
                if self.running is Some {
                    WgpuWork::AccessKit {
                        window_id: request.window_id,
                        request: request.request,
                        deliver_to: self.receiver_of(request.window_id),
                    }
                } else {
                    WgpuWork::Done(EventResult::Wait)
                }
            },
            _ => WgpuWork::Done(EventResult::Wait),
        }
    }

    /// The viewport that input of the window `window_id` goes to.
    fn receiver(&self, window_id: WindowId) -> (viewport_id: Option<ViewportId>)
        ensures
            viewport_id == self.receiver_of(window_id),
    {
        match &self.running {
            Some(running) => match running.viewport_maps.get(&window_id) {
                Some(viewport_id) => match running.viewports.get(viewport_id) {
                    Some(viewport) => if viewport.egui_winit.is_some() {
                        Some(*viewport_id)
                    } else {
                        None
                    },
                    None => None,
                },
                None => None,
            },
            None => None,
        }
    }

    /// Takes up `event`, once the windows that have to be are open. `should_close` says whether the
    /// application wants to end.
    pub fn on_event(&mut self, event: &Event, target_os: TargetOs, should_close: bool) -> (work: WgpuWork)
        ensures
            work == old(self).work_of(*event, target_os, should_close),
            *final(self) == (WgpuWinitApp {
                focused_viewport: old(self).focus_after(*event),
                ..*old(self)
            }),
    {
        match event {
            Event::Resumed => match self.window_id_from_viewport_id(ROOT) {
                Some(window_id) => WgpuWork::Done(EventResult::RepaintNow(window_id)),
                None => if self.running.is_some() {
                    WgpuWork::RestoreRoot
                } else {
                    WgpuWork::InitRunState
                },
            },
            Event::Suspended => if target_os == TargetOs::Android && self.running.is_some() {
                WgpuWork::DropWindow
            } else {
                WgpuWork::Done(EventResult::Wait)
            },
            Event::WindowEvent { window_id, event } => {
                if self.running.is_none() {
                    return WgpuWork::Done(EventResult::Wait);
                }
                let viewport_id = self.viewport_id_from_window_id(*window_id);
                let mut repaint_asap = false;
                let mut resize: Option<(ViewportId, PhysicalSize)> = None;
                match event {
                    WindowEvent::Focused(new_focused) => {
                        self.focused_viewport = if *new_focused {
                            viewport_id
                        } else {
                            None
                        };
                    },
                    WindowEvent::Resized(physical_size) => {
                        repaint_asap = true;
                        // Zero width and height mean that the window is minimized.
                        if let Some(id) = viewport_id {
                            if 0 < physical_size.width && 0 < physical_size.height {
                                resize = Some((id, *physical_size));
                            }
                        }
                    },
                    WindowEvent::ScaleFactorChanged { new_inner_size } => {
                        if let Some(id) = viewport_id {
                            if 0 < new_inner_size.width && 0 < new_inner_size.height {
                                repaint_asap = true;
                                resize = Some((id, *new_inner_size));
                            }
                        }
                    },
                    WindowEvent::CloseRequested => {
                        if should_close {
                            return WgpuWork::Done(EventResult::Exit);
                        }
                    },
                    _ => {},
                }
                let deliver_to = self.receiver(*window_id);
                WgpuWork::Window(*window_id, WindowPlan { resize, deliver_to, repaint_asap })
            },
            Event::UserEvent(UserEvent::AccessKitActionRequest(request)) => {
                if self.running.is_some() {
                    WgpuWork::AccessKit {
                        window_id: request.window_id,
                        request: request.request,
                        deliver_to: self.receiver(request.window_id),
                    }
                } else {
                    WgpuWork::Done(EventResult::Wait)
                }
            },
            _ => WgpuWork::Done(EventResult::Wait),
        }
    }

    /// The result of the event that the application resumes with: the window of the root viewport
    /// is repainted.
    pub fn resumed(&self) -> (result: EventResult)
        requires
            self.window_id_of(ROOT) is Some,
        ensures
            result == EventResult::RepaintNow(self.window_id_of(ROOT)->0),
    {
        EventResult::RepaintNow(self.window_id_from_viewport_id(ROOT).unwrap())
    }

    /// What an event results in, now that its `work` is done with this `outcome`. Of the input of a
    /// window, `should_close` says whether the application wants to end, and `repaint` whether the ui
    /// wants a repaint.
    pub open spec fn result_of<E>(
        &self,
        work: WgpuWork,
        outcome: Result<(), E>,
        should_close: bool,
        repaint: bool,
    ) -> Result<EventResult, E> {
        match (work, outcome) {
            (WgpuWork::Done(result), _) => Ok(result),
            (WgpuWork::InitRunState | WgpuWork::RestoreRoot, Ok(_)) => Ok(
                EventResult::RepaintNow(self.window_id_of(ROOT)->0),
            ),
            (WgpuWork::DropWindow, Ok(_)) => Ok(EventResult::Wait),
            (
                WgpuWork::InitRunState | WgpuWork::RestoreRoot | WgpuWork::DropWindow,
                Err(err),
            ) => Err(err),
            (WgpuWork::Window(window_id, plan), _) => Ok(
                window_event_result_of(window_id, plan.repaint_asap, should_close, repaint),
            ),
            (WgpuWork::AccessKit { window_id, .. }, _) => Ok(EventResult::RepaintNext(window_id)),
        }
    }

    /// What an event results in, now that its `work` is done with this `outcome`. Of the input of a
    /// window, `should_close` says whether the application wants to end, and `repaint` whether the ui
    /// wants a repaint; it is `false` when no viewport got the input.
    pub fn result_after<E>(
        &self,
        work: WgpuWork,
        outcome: Result<(), E>,
        should_close: bool,
        repaint: bool,
    ) -> (result: Result<EventResult, E>)
        requires
            (work is InitRunState || work is RestoreRoot) && outcome is Ok ==> self.window_id_of(ROOT)
                is Some,
        ensures
            result == self.result_of(work, outcome, should_close, repaint),
    {
        match work {
            WgpuWork::Done(result) => Ok(result),
            WgpuWork::InitRunState | WgpuWork::RestoreRoot => match outcome {
                Ok(_) => Ok(self.resumed()),
                Err(err) => Err(err),
            },
            WgpuWork::DropWindow => match outcome {
                Ok(_) => Ok(EventResult::Wait),
                Err(err) => Err(err),
            },
            WgpuWork::Window(window_id, plan) => Ok(
                window_event_result(window_id, plan.repaint_asap, should_close, repaint),
            ),
            // As a form of user input, accessibility actions should lead to a repaint.
            WgpuWork::AccessKit { window_id, .. } => Ok(EventResult::RepaintNext(window_id)),
        }
    }
}

/// What the events that need work result in, where `app` is the application before the work and `after`
/// when it is done with this `outcome`. On a resume that succeeds, the window of the root viewport is
/// repainted; it is opened before if there is none, and the application is created only if it does not
/// run. A failure to open it, or to drop it, is handed on. A request of an accessibility client leads to
/// a repaint of its window, if the application runs.
pub proof fn law_what_events_result_in<R: WgpuBackend, E>(
    app: WgpuWinitApp<R>,
    after: WgpuWinitApp<R>,
    event: Event,
    target_os: TargetOs,
    outcome: Result<(), E>,
    wants_to_close: bool,
    should_close: bool,
    repaint: bool,
)
    requires
        event is Resumed && outcome is Ok ==> after.window_id_of(ROOT) is Some,
    ensures
        ({
            let work = app.work_of(event, target_os, wants_to_close);
            let result = after.result_of(work, outcome, should_close, repaint);
            match event {
                Event::Resumed => {
                    &&& work is InitRunState <==> app.running is None
                    &&& work is RestoreRoot <==> app.running is Some && app.window_id_of(ROOT) is None
                    &&& match app.window_id_of(ROOT) {
                        Some(window_id) => result == Ok::<_, E>(EventResult::RepaintNow(window_id)),
                        None => match outcome {
                            Ok(_) => result == Ok::<_, E>(
                                EventResult::RepaintNow(after.window_id_of(ROOT)->0),
                            ),
                            Err(err) => result == Err::<EventResult, E>(err),
                        },
                    }
                },
                Event::Suspended => {
                    &&& work is DropWindow <==> target_os is Android && app.running is Some
                    &&& result == (match outcome {
                        Err(err) if work is DropWindow => Err(err),
                        _ => Ok(EventResult::Wait),
                    })
                },
                Event::MainEventsCleared => result == Ok::<_, E>(EventResult::Wait),
                Event::UserEvent(UserEvent::AccessKitActionRequest(request)) => {
                    result == Ok::<_, E>(
                        if app.running is Some {
                            EventResult::RepaintNext(request.window_id)
                        } else {
                            EventResult::Wait
                        },
                    )
                },
                _ => true,
            }
        }),
{
}

/// A root viewport that was dropped when the application was suspended is there again once it has been
/// restored on the next resume, in the new window, and that window is the one to repaint. The other
/// viewports are as they were.
pub proof fn law_dropped_root_is_restored<R: WgpuBackend>(
    app: WgpuWinitApp<R>,
    dropped: WgpuWinitApp<R>,
    restored: WgpuWinitApp<R>,
    target_os: TargetOs,
    wants_to_close: bool,
    window: NativeWindow<<R as Backend>::Window>,
    egui_winit: <R as Backend>::InputState,
)
    requires
        app.running is Some,
        dropped.running is Some,
        dropped.running->0.viewports@ == app.running->0.viewports@.remove(ROOT),
        restored.running is Some,
        restored.running->0.viewports@ == dropped.running->0.viewports@.insert(
            ROOT,
            Viewport::<R> {
                window: Some(window),
                egui_winit: Some(egui_winit),
                viewport_ui_cb: None,
                parent_id: ROOT,
            },
        ),
    ensures
        dropped.work_of(Event::Resumed, target_os, wants_to_close) == WgpuWork::RestoreRoot,
        restored.result_of(WgpuWork::RestoreRoot, Ok::<(), ()>(()), false, false) == Ok::<_, ()>(
            EventResult::RepaintNow(window.id),
        ),
        restored.running->0.can_show(ROOT),
        restored.running->0.viewports@.remove(ROOT) == app.running->0.viewports@.remove(ROOT),
{
    assert(restored.running->0.viewports@.remove(ROOT) =~= app.running->0.viewports@.remove(ROOT));
}

impl<R: WgpuBackend> WinitApp for WgpuWinitApp<R> {
    type Window = <R as Backend>::Window;

    open spec fn window_of(&self, window_id: WindowId) -> Option<NativeWindow<<R as Backend>::Window>> {
        match self.running {
            Some(running) => running.window_with_id(window_id),
            None => None,
        }
    }

    open spec fn window_id_of(&self, id: ViewportId) -> Option<WindowId> {
        match self.running {
            Some(running) => if running.viewports@.contains_key(id) && running.viewports@[id].window
                is Some {
                Some(running.viewports@[id].window->0.id)
            } else {
                None
            },
            None => None,
        }
    }

    open spec fn viewport_id_of(&self, id: WindowId) -> Option<ViewportId> {
        match self.running {
            Some(running) => running.viewport_maps@.get(id),
            None => None,
        }
    }

    open spec fn focus(&self) -> Option<ViewportId> {
        self.focused_viewport
    }

    fn is_focused(&self, window_id: WindowId) -> (focused: bool) {
        if let Some(focus) = self.focused_viewport {
            match self.viewport_id_from_window_id(window_id) {
                Some(viewport_id) => viewport_id == focus,
                None => false,
            }
        } else {
            false
        }
    }

    fn window(&self, window_id: WindowId) -> (window: Option<&NativeWindow<<R as Backend>::Window>>) {
        match &self.running {
            Some(running) => match running.viewport_maps.get(&window_id) {
                Some(viewport_id) => match running.viewports.get(viewport_id) {
                    Some(viewport) => viewport.window.as_ref(),
                    None => None,
                },
                None => None,
            },
            None => None,
        }
    }

    fn window_id_from_viewport_id(&self, id: ViewportId) -> (window_id: Option<WindowId>) {
        match &self.running {
            Some(running) => match running.viewports.get(&id) {
                Some(viewport) => match &viewport.window {
                    Some(window) => Some(window.id),
                    None => None,
                },
                None => None,
            },
            None => None,
        }
    }

    fn viewport_id_from_window_id(&self, id: WindowId) -> (viewport_id: Option<ViewportId>) {
        match &self.running {
            Some(running) => match running.viewport_maps.get(&id) {
                Some(viewport_id) => Some(*viewport_id),
                None => None,
            },
            None => None,
        }
    }
}

/// The window that gains the keyboard focus is the one that has it, whichever had it before, and when
/// a window loses the focus none has it. No other event moves the focus.
pub proof fn law_focus_follows_the_windows<R: WgpuBackend>(app: WgpuWinitApp<R>, event: Event)
    requires
        app.running is Some,
    ensures
        match event {
            Event::WindowEvent { window_id, event: WindowEvent::Focused(true) } => {
                let after = WgpuWinitApp { focused_viewport: app.focus_after(event), ..app };
                &&& after.viewport_id_of(window_id) == after.focus()
                &&& app.viewport_id_of(window_id) is Some ==> after.focus() is Some
            },
            Event::WindowEvent { window_id, event: WindowEvent::Focused(false) } => app.focus_after(
                event,
            ) is None,
            _ => app.focus_after(event) == app.focused_viewport,
        },
{
}

/// An event of a window resizes no other viewport than the one in that window, and is input of no
/// other. A window that is minimized, which has no width or no height, is not resized.
pub proof fn law_window_events_stay_in_their_window<R: WgpuBackend>(
    app: WgpuWinitApp<R>,
    window_id: WindowId,
    event: WindowEvent,
)
    ensures
        ({
            let plan = app.window_plan_of(window_id, event);
            &&& plan.resize matches Some((viewport_id, _)) ==> app.viewport_id_of(window_id) == Some(
                viewport_id,
            )
            &&& plan.deliver_to matches Some(viewport_id) ==> app.viewport_id_of(window_id) == Some(
                viewport_id,
            )
            &&& event matches WindowEvent::Resized(size) ==> size.width == 0 || size.height == 0
                ==> plan.resize is None
            &&& event matches WindowEvent::ScaleFactorChanged { new_inner_size: size } ==> size.width
                == 0 || size.height == 0 ==> plan.resize is None
        }),
{
}

/// A viewport that is painted together with its parent is never painted by itself: its parent is
/// repainted instead, if that has a window.
pub proof fn law_immediate_viewports_are_left_to_their_parents<R: WgpuBackend>(
    app: WgpuWinitApp<R>,
    window_id: WindowId,
    viewport_id: ViewportId,
)
    requires
        app.wf(),
        app.viewport_id_of(window_id) == Some(viewport_id),
        viewport_id != ROOT,
        app.running->0.viewports@.contains_key(viewport_id),
        app.running->0.viewports@[viewport_id].viewport_ui_cb is None,
    ensures
        ({
            let viewports = app.running->0.viewports@;
            let parent = viewports[viewport_id].parent_id;
            app.paint_start_of(window_id) == PaintStart::Done(
                if viewports.contains_key(parent) && viewports[parent].window is Some {
                    EventResult::RepaintNext(viewports[parent].window->0.id)
                } else {
                    EventResult::Wait
                },
            )
        }),
{
}

/// A viewport that is shown in a window and the window are found by the ids of each other.
pub proof fn law_open_windows_are_found<R: WgpuBackend>(
    app: WgpuWinitApp<R>,
    viewport_id: ViewportId,
    window_id: WindowId,
)
    requires
        app.wf(),
        app.window_id_of(viewport_id) == Some(window_id),
    ensures
        app.viewport_id_of(window_id) == Some(viewport_id),
        app.window_of(window_id) == app.running->0.viewports@[viewport_id].window,
        app.window_of(window_id) matches Some(window) && window.id == window_id,
{
}

/// An application that does not run finds nothing. One that runs finds the viewport of a window where it
/// is listed, and a window only as the one that the viewport listed for it is shown in.
pub proof fn law_what_is_found<R: WgpuBackend>(
    app: WgpuWinitApp<R>,
    window_id: WindowId,
    viewport_id: ViewportId,
)
    ensures
        app.focus() == app.focused_viewport,
        app.running is None ==> app.window_of(window_id) is None && app.window_id_of(viewport_id)
            is None && app.viewport_id_of(window_id) is None,
        app.running matches Some(running) ==> {
            &&& app.viewport_id_of(window_id) == Some(viewport_id)
                <==> running.viewport_maps@.contains_key(window_id)
                && running.viewport_maps@[window_id] == viewport_id
            &&& app.window_of(window_id) is Some ==> running.viewport_maps@.contains_key(window_id)
                && running.viewports@.contains_key(running.viewport_maps@[window_id])
                && app.window_of(window_id)
                == running.viewports@[running.viewport_maps@[window_id]].window
            &&& running.viewport_maps@.contains_key(window_id)
                && running.viewport_maps@[window_id] == viewport_id
                && running.viewports@.contains_key(viewport_id)
                && running.viewports@[viewport_id].window is Some ==> app.window_of(window_id)
                == running.viewports@[viewport_id].window
        },
{
}

/// A viewport counts as shown in a window exactly if it is there and has one, and the window is that.
pub proof fn law_which_windows_are_open<R: WgpuBackend>(
    viewports: Map<ViewportId, Viewport<R>>,
    id: ViewportId,
)
    ensures
        open_windows(viewports).contains_key(id) <==> viewports.contains_key(id)
            && viewports[id].window is Some,
        open_windows(viewports).contains_key(id) ==> (viewports[id].window matches Some(window)
            && window.id == open_windows(viewports)[id]),
{
}

/// While the application does not run, no event moves the focus.
pub proof fn law_focus_waits_for_the_run<R: WgpuBackend>(app: WgpuWinitApp<R>, event: Event)
    requires
        app.running is None,
    ensures
        app.focus_after(event) == app.focused_viewport,
{
}

/// The window of a viewport is the one that it is shown in.
pub proof fn law_which_window_shows_a_viewport<R: WgpuBackend>(
    app: WgpuWinitApp<R>,
    viewport_id: ViewportId,
    window_id: WindowId,
)
    requires
        app.running is Some,
    ensures
        app.window_id_of(viewport_id) == Some(window_id)
            <==> app.running->0.viewports@.contains_key(viewport_id)
            && (app.running->0.viewports@[viewport_id].window matches Some(window) && window.id
            == window_id),
{
}

/// A window is painted exactly if the application runs, the viewport in it is there and has a window, and
/// it is the root or has a ui of its own. Instead of a viewport without one, the window of its parent is
/// repainted, and no other. In every other case the loop waits.
pub proof fn law_who_is_painted<R: WgpuBackend>(
    app: WgpuWinitApp<R>,
    window_id: WindowId,
    viewport_id: ViewportId,
    parent_window: WindowId,
)
    ensures
        ({
            let start = app.paint_start_of(window_id);
            let maps = app.running->0.viewport_maps@;
            let viewports = app.running->0.viewports@;
            &&& start == PaintStart::Paint(viewport_id) <==> app.running is Some
                && maps.contains_key(window_id) && maps[window_id] == viewport_id
                && viewports.contains_key(viewport_id) && viewports[viewport_id].window is Some && (
            viewport_id == ROOT || viewports[viewport_id].viewport_ui_cb is Some)
            &&& start == PaintStart::Done(EventResult::RepaintNext(parent_window))
                <==> app.running is Some && maps.contains_key(window_id) && maps[window_id] != ROOT
                && viewports.contains_key(maps[window_id])
                && viewports[maps[window_id]].viewport_ui_cb is None && viewports.contains_key(
                viewports[maps[window_id]].parent_id,
            ) && (viewports[viewports[maps[window_id]].parent_id].window matches Some(window)
                && window.id == parent_window)
            &&& start matches PaintStart::Done(result) ==> result == EventResult::Wait || result
                is RepaintNext
        }),
{
}

/// A viewport is resized exactly if its window gets a new size or a new scale, and the size is not empty:
/// that viewport, to that size. An event is input of the viewport in its window, if that is there and has
/// an input state. A repaint cannot wait exactly if the size changed, or the scale did and the viewport is
/// resized.
pub proof fn law_what_an_event_does_to_its_window<R: WgpuBackend>(
    app: WgpuWinitApp<R>,
    window_id: WindowId,
    event: WindowEvent,
    viewport_id: ViewportId,
    size: PhysicalSize,
)
    requires
        app.running is Some,
    ensures
        ({
            let plan = app.window_plan_of(window_id, event);
            let maps = app.running->0.viewport_maps@;
            let is_shown = maps.contains_key(window_id) && maps[window_id] == viewport_id;
            &&& plan.resize == Some((viewport_id, size)) <==> is_shown && size.width > 0
                && size.height > 0 && (event == WindowEvent::Resized(size) || event
                == WindowEvent::ScaleFactorChanged { new_inner_size: size })
            &&& plan.deliver_to == Some(viewport_id) <==> is_shown
                && app.running->0.viewports@.contains_key(viewport_id)
                && app.running->0.viewports@[viewport_id].egui_winit is Some
            &&& event is Resized ==> plan.repaint_asap
            &&& event matches WindowEvent::ScaleFactorChanged { new_inner_size } ==> (
            plan.repaint_asap <==> maps.contains_key(window_id) && new_inner_size.width > 0
                && new_inner_size.height > 0)
            &&& plan.repaint_asap ==> event is Resized || event is ScaleFactorChanged
        }),
{
}

/// The work that an event needs tells what the event is. The application ends at once exactly if a window
/// is to close and the application agrees. Every other event of a window is handled by the plan for that
/// window and that event. On a resume the root window is repainted if it is there, and else opened, by an
/// application that runs, or the application starts. The root window is dropped exactly on a suspend on
/// Android. A request of an accessibility client is handed on as it is, to the viewport in its window. An
/// application that does not run only starts.
pub proof fn law_work_tells_the_event<R: WgpuBackend>(
    app: WgpuWinitApp<R>,
    event: Event,
    target_os: TargetOs,
    should_close: bool,
    window_id: WindowId,
    plan: WindowPlan,
    request: ActionRequest,
    deliver_to: Option<ViewportId>,
)
    ensures
        ({
            let work = app.work_of(event, target_os, should_close);
            let runs = app.running is Some;
            let viewports = app.running->0.viewports@;
            let has_root = runs && viewports.contains_key(ROOT) && viewports[ROOT].window is Some;
            let closes = should_close && (event matches Event::WindowEvent {
                event: WindowEvent::CloseRequested,
                ..
            });
            &&& work == WgpuWork::Done(EventResult::Exit) <==> runs && closes
            &&& work == WgpuWork::Window(window_id, plan) <==> runs && !closes && (event matches
                Event::WindowEvent { window_id: of, event } && of == window_id
                && app.window_plan_of(window_id, event) == plan)
            &&& work == WgpuWork::InitRunState <==> event == Event::Resumed && !runs
            &&& work == WgpuWork::RestoreRoot <==> event == Event::Resumed && runs && !has_root
            &&& work == WgpuWork::Done(EventResult::RepaintNow(window_id)) <==> event
                == Event::Resumed && has_root && viewports[ROOT].window->0.id == window_id
            &&& work == WgpuWork::DropWindow <==> event == Event::Suspended && runs && target_os
                == TargetOs::Android
            &&& work == WgpuWork::AccessKit { window_id, request, deliver_to } <==> runs && (event
                matches Event::UserEvent(UserEvent::AccessKitActionRequest(asked))
                && asked.window_id == window_id && asked.request == request && deliver_to
                == app.window_plan_of(window_id, WindowEvent::Moved).deliver_to)
            &&& work matches WgpuWork::Done(result) ==> result == EventResult::Exit || result
                == EventResult::Wait || result is RepaintNow
        }),
{
}

/// An event fails exactly if starting, opening the root window or dropping it does, with the same error.
/// Else it results in a repaint of the root window after a start or once that is opened, in what its input
/// asks for after an event of a window, in a repaint of its window after a request of an accessibility
/// client, in what was settled before where there was no work, and in waiting after anything else.
pub proof fn law_what_work_results_in<R: WgpuBackend, E>(
    app: WgpuWinitApp<R>,
    work: WgpuWork,
    outcome: Result<(), E>,
    should_close: bool,
    repaint: bool,
    err: E,
    window_id: WindowId,
    plan: WindowPlan,
    settled: EventResult,
)
    ensures
        ({
            let result = app.result_of(work, outcome, should_close, repaint);
            let may_fail = work == WgpuWork::InitRunState || work == WgpuWork::RestoreRoot || work
                == WgpuWork::DropWindow;
            &&& result == Err::<EventResult, E>(err) <==> may_fail && outcome == Err::<(), E>(err)
            &&& (work == WgpuWork::InitRunState || work == WgpuWork::RestoreRoot) && outcome is Ok
                && (app.window_id_of(ROOT) == Some(window_id)) ==> result == Ok::<_, E>(
                EventResult::RepaintNow(window_id),
            )
            &&& work == WgpuWork::DropWindow && outcome is Ok ==> result == Ok::<_, E>(
                EventResult::Wait,
            )
            &&& work == WgpuWork::Done(settled) ==> result == Ok::<_, E>(settled)
            &&& (work matches WgpuWork::AccessKit { window_id: of, .. } && of == window_id)
                ==> result == Ok::<_, E>(EventResult::RepaintNext(window_id))
            &&& work == WgpuWork::Window(window_id, plan) ==> {
                &&& result == Ok::<_, E>(EventResult::Exit) <==> should_close
                &&& result == Ok::<_, E>(EventResult::Wait) <==> !should_close && !repaint
                &&& result == Ok::<_, E>(EventResult::RepaintNow(window_id)) <==> !should_close
                    && repaint && plan.repaint_asap
                &&& result == Ok::<_, E>(EventResult::RepaintNext(window_id)) <==> !should_close
                    && repaint && !plan.repaint_asap
            }
        }),
{
}

/// Once the ui has been run, the viewport in the window is painted exactly if it is still there and still
/// has a window. Else the loop waits.
pub proof fn law_who_is_painted_after_the_update<R: WgpuBackend>(
    app: WgpuWinitApp<R>,
    window_id: WindowId,
    viewport_id: ViewportId,
)
    ensures
        ({
            let next = app.paint_after_update_of(window_id);
            let maps = app.running->0.viewport_maps@;
            let viewports = app.running->0.viewports@;
            &&& next == PaintStart::Paint(viewport_id) <==> app.running is Some && maps.contains_key(
                window_id,
            ) && maps[window_id] == viewport_id && viewports.contains_key(viewport_id)
                && viewports[viewport_id].window is Some
            &&& next matches PaintStart::Done(result) ==> result == EventResult::Wait
        }),
{
}

/// Frames are counted by the ui, and only while the application runs.
pub proof fn law_frames_are_counted_while_it_runs<R: WgpuBackend>(app: WgpuWinitApp<R>, reported: u64)
    ensures
        app.running is Some ==> app.frame_nr_of(reported) == reported,
        app.frame_nr_of(reported) != 0 ==> app.running is Some,
{
}

/// At the end of a frame, each command for a viewport that is shown in a window is on its way to that
/// window, once, in the order in which the commands were given, whichever viewport has the focus, if any.
/// The window is told that it has the focus exactly if its viewport has. No other command is on its way.
/// `from` tells which of the commands each of them was.
pub proof fn law_commands_reach_open_windows<R: WgpuBackend>(
    app: WgpuWinitApp<R>,
    commands: Seq<ViewportCommandTo>,
) -> (from: Seq<int>)
    requires
        app.running is Some,
    ensures
        ({
            let on_their_way = app.commands_on_their_way(commands);
            let viewports = app.running->0.viewports@;
            let is_shown = |id: ViewportId| viewports.contains_key(id) && viewports[id].window is Some;
            &&& from.len() == on_their_way.len()
            &&& forall|k: int, m: int| 0 <= k < m < from.len() ==> from[k] < from[m]
            &&& forall|k: int|
                0 <= k < from.len() ==> {
                    let to = commands[#[trigger] from[k]];
                    &&& 0 <= from[k] < commands.len()
                    &&& is_shown(to.viewport_id)
                    &&& on_their_way[k].window_id == viewports[to.viewport_id].window->0.id
                    &&& on_their_way[k].command == to.command
                    &&& on_their_way[k].is_viewport_focused <==> app.focused_viewport == Some(
                        to.viewport_id,
                    )
                }
            &&& forall|i: int|
                0 <= i < commands.len() && is_shown((#[trigger] commands[i]).viewport_id)
                    ==> from.contains(i)
        }),
{
    law_commands_reach_their_windows(
        open_windows(app.running->0.viewports@),
        app.focused_viewport,
        commands,
    )
}

/// A run that ends has its state saved exactly if the root viewport is there. An application that does not
/// run has nothing to end.
pub proof fn law_when_the_state_is_saved<R: WgpuBackend>(app: WgpuWinitApp<R>)
    ensures
        app.steps_to_end() is Some <==> app.running is Some,
        app.steps_to_end() matches Some(steps) ==> {
            &&& steps.contains(ShutdownStep::Save) <==> app.running->0.viewports@.contains_key(ROOT)
            &&& steps.contains(ShutdownStep::ExitApp)
            &&& steps.contains(ShutdownStep::DestroyPainter)
        },
{
    let saved = shutdown_steps_of(true);
    let unsaved = shutdown_steps_of(false);
    assert(saved[0] == ShutdownStep::Save);
    assert(saved[1] == ShutdownStep::ExitApp);
    assert(saved[2] == ShutdownStep::DestroyPainter);
    assert(unsaved[0] == ShutdownStep::ExitApp);
    assert(unsaved[1] == ShutdownStep::DestroyPainter);
}

/// A run begins with the theme that the window tells, if the application follows it and the window tells
/// one, and else with the default. The mouse never passes, and accessibility clients are always served.
pub proof fn law_how_a_run_begins<R: WgpuBackend>(
    app: WgpuWinitApp<R>,
    window_theme: Option<Theme>,
    run_state: RunState<R::AppCreator>,
)
    requires
        app.begins_with(window_theme, run_state),
    ensures
        app.native_options.follow_system_theme ==> run_state.system_theme == window_theme,
        !app.native_options.follow_system_theme ==> run_state.system_theme is None,
        run_state.system_theme matches Some(theme) ==> run_state.theme == theme,
        run_state.system_theme is None ==> run_state.theme == app.native_options.default_theme,
        !run_state.mouse_passthrough,
        run_state.accessible,
        app.app_creator == Some(run_state.app_creator),
{
}

} // verus!
