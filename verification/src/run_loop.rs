//! The event loop: which window is repainted when, and when the application ends.

use crate::backend::WinitApp;
use crate::event::{
    ControlFlow, Event, EventResult, Instant, StartCause, TargetOs, UserEvent, ViewportId, WindowId,
    ROOT,
};
use crate::maps::keys_of;
use std::collections::HashMap;
use vstd::prelude::*;

verus! {

broadcast use vstd::std_specs::hash::group_hash_axioms;

/// How the event loop ends.
#[derive(Clone, Copy, Debug, PartialEq, Eq, Structural)]
pub enum RunMode {
    /// Control goes back to the caller.
    Return,
    /// The process exits.
    Exit,
}

impl RunMode {
    /// The mode that an application runs in that asks for `run_and_return` or not.
    pub open spec fn for_options(target_os: TargetOs, run_and_return: bool) -> RunMode {
        if run_and_return && target_os != TargetOs::Ios {
            RunMode::Return
        } else {
            RunMode::Exit
        }
    }

    /// The mode that an application runs in that asks for `run_and_return` or not. On iOS the loop
    /// never returns.
    pub fn select(target_os: TargetOs, run_and_return: bool) -> (mode: RunMode)
        ensures
            mode == RunMode::for_options(target_os, run_and_return),
    {
        if run_and_return && target_os != TargetOs::Ios {
            RunMode::Return
        } else {
            RunMode::Exit
        }
    }
}

/// The first thing to do about an event.
#[derive(Clone, Copy, Debug, PartialEq, Eq, Structural)]
pub enum Dispatch {
    /// Nothing: the event is handled, with this result.
    Done(EventResult),
    /// Run the ui of the window and paint it; that gives the result.
    RunUiAndPaint(WindowId),
    /// Hand the event to the application; that gives the result.
    OnEvent,
}

/// What the result of an event asks for at once.
#[derive(Clone, Copy, Debug, PartialEq, Eq, Structural)]
pub enum FollowUp {
    /// Nothing.
    Continue,
    /// Run the ui of the window and paint it, whatever that gives, and then go on.
    PaintNow(WindowId),
    /// Save the state of the application and end.
    SaveAndExit,
}

/// What to do at the end of an event.
#[derive(Debug)]
pub struct Settled {
    /// The windows that a redraw is requested for.
    pub redraws: Vec<WindowId>,
    /// On iOS, where waiting for a point in time does not work: the window of the root viewport,
    /// when there is something to wait for.
    pub redraw_root: Option<WindowId>,
}

/// Whether a repaint request of frame `frame_nr` is still to be heeded in frame `current`: later
/// frames have repainted already.
pub open spec fn is_recent(current: u64, frame_nr: u64) -> bool {
    current == frame_nr || current == frame_nr + 1
}

/// The first thing to do about `event`.
pub open spec fn dispatch_of<A: WinitApp>(
    mode: RunMode,
    app: &A,
    event: Event,
    current_frame_nr: u64,
) -> Dispatch {
    match event {
        Event::LoopDestroyed => Dispatch::Done(EventResult::Exit),
        Event::RedrawRequested(window_id) => Dispatch::RunUiAndPaint(window_id),
        Event::UserEvent(UserEvent::RequestRepaint { viewport_id, when, frame_nr }) => {
            if !is_recent(current_frame_nr, frame_nr) {
                Dispatch::Done(EventResult::Wait)
            } else {
                match app.window_id_of(viewport_id) {
                    Some(window_id) => Dispatch::Done(EventResult::RepaintAt(window_id, when)),
                    None => Dispatch::Done(EventResult::Wait),
                }
            }
        },
        Event::NewEvents(StartCause::ResumeTimeReached) => Dispatch::Done(EventResult::Wait),
        Event::WindowEvent { window_id, .. } => {
            if mode is Return && app.window_of(window_id) is None {
                Dispatch::Done(EventResult::RepaintNext(window_id))
            } else {
                Dispatch::OnEvent
            }
        },
        _ => Dispatch::OnEvent,
    }
}

/// The repaint times once `event` has been dispatched: a redraw that has begun is not due any more.
pub open spec fn times_after_dispatch(times: Map<u64, Instant>, event: Event) -> Map<u64, Instant> {
    match event {
        Event::RedrawRequested(window_id) => times.remove(window_id),
        _ => times,
    }
}

/// The earlier of `when` and the time that `window_id` is to be repainted at anyway.
pub open spec fn sooner(times: Map<u64, Instant>, window_id: WindowId, when: Instant) -> Instant {
    if times.contains_key(window_id) && times[window_id] < when {
        times[window_id]
    } else {
        when
    }
}

/// The repaint times once `result` has been heeded at the time `now`.
pub open spec fn times_after_result(
    target_os: TargetOs,
    times: Map<u64, Instant>,
    result: EventResult,
    now: Instant,
) -> Map<u64, Instant> {
    match result {
        EventResult::Wait => times,
        EventResult::RepaintNow(window_id) => {
            if target_os is Windows {
                times.remove(window_id)
            } else {
                times.insert(window_id, now)
            }
        },
        EventResult::RepaintNext(window_id) => times.insert(window_id, now),
        EventResult::RepaintAt(window_id, when) => times.insert(
            window_id,
            sooner(times, window_id, when),
        ),
        EventResult::Exit => times,
    }
}

/// The control flow once `result` has been heeded. A loop that exits the process leaves it alone.
pub open spec fn flow_after_result(
    mode: RunMode,
    flow: ControlFlow,
    result: EventResult,
) -> ControlFlow {
    match (mode, result) {
        (RunMode::Return, EventResult::Wait) => ControlFlow::Wait,
        (RunMode::Return, EventResult::Exit) => ControlFlow::Exit,
        _ => flow,
    }
}

/// What `result` asks for at once.
pub open spec fn follow_up_of(target_os: TargetOs, result: EventResult) -> FollowUp {
    match result {
        EventResult::RepaintNow(window_id) if target_os is Windows => FollowUp::PaintNow(window_id),
        EventResult::Exit => FollowUp::SaveAndExit,
        _ => FollowUp::Continue,
    }
}

/// Whether redraws are requested at the end of `event`. Doing it after every event would duplicate
/// the requests.
pub open spec fn requests_redraws(event: Event) -> bool {
    event is RedrawEventsCleared || event is RedrawRequested || event is Resumed
}

/// Whether `window_id` is to be repainted at the time `now` or was before.
pub open spec fn is_due(times: Map<u64, Instant>, now: Instant, window_id: WindowId) -> bool {
    times.contains_key(window_id) && times[window_id] <= now
}

/// Whether any window is due.
pub open spec fn any_due(times: Map<u64, Instant>, now: Instant) -> bool {
    exists|window_id: WindowId| is_due(times, now, window_id)
}

/// Whether no repaint is scheduled.
pub open spec fn nothing_scheduled(times: Map<u64, Instant>) -> bool {
    forall|window_id: WindowId| !#[trigger] times.contains_key(window_id)
}

/// Whether `when` is the earliest of the repaint times.
pub open spec fn is_earliest(times: Map<u64, Instant>, when: Instant) -> bool {
    &&& exists|window_id: WindowId| #[trigger] times.contains_key(window_id) && times[window_id] == when
    &&& forall|window_id: WindowId| #[trigger]
        times.contains_key(window_id) ==> when <= times[window_id]
}

/// The repaint times at the end of `event`: where redraws are requested, a window that is due and
/// not open is forgotten.
pub open spec fn times_after_settle<A: WinitApp>(
    app: &A,
    times: Map<u64, Instant>,
    event: Event,
    now: Instant,
) -> Map<u64, Instant> {
    if requests_redraws(event) {
        times.restrict(
            Set::new(
                |window_id: WindowId|
                    !is_due(times, now, window_id) || app.window_of(window_id) is Some,
            ),
        )
    } else {
        times
    }
}

/// Whether `flow` is right at the end of `event`, where it was `before`: a loop with a due window
/// goes on at once, and one with a later repaint time wakes up for the earliest.
pub open spec fn flow_is_settled(
    times: Map<u64, Instant>,
    event: Event,
    now: Instant,
    before: ControlFlow,
    flow: ControlFlow,
) -> bool {
    if requests_redraws(event) && any_due(times, now) {
        flow == ControlFlow::Poll
    } else if nothing_scheduled(times) {
        flow == before
    } else {
        flow matches ControlFlow::WaitUntil(when) && is_earliest(times, when)
    }
}

/// Whether `redraws` are the windows to redraw at the end of `event`: each open window that is
/// due, once.
pub open spec fn redraws_are<A: WinitApp>(
    app: &A,
    times: Map<u64, Instant>,
    event: Event,
    now: Instant,
    redraws: Seq<WindowId>,
) -> bool {
    &&& redraws.no_duplicates()
    &&& forall|window_id: WindowId| #[trigger]
        redraws.contains(window_id) <==> requests_redraws(event) && is_due(times, now, window_id)
            && app.window_of(window_id) is Some
}

/// On iOS, the window to redraw at the end of `event` since the loop waits for a point in time.
pub open spec fn root_redraw_of<A: WinitApp>(
    mode: RunMode,
    target_os: TargetOs,
    app: &A,
    times: Map<u64, Instant>,
    event: Event,
    now: Instant,
) -> Option<WindowId> {
    if mode is Exit && target_os is Ios && !nothing_scheduled(times) && !(requests_redraws(event)
        && any_due(times, now)) {
        match app.window_id_of(ROOT) {
            Some(window_id) if app.window_of(window_id) is Some => Some(window_id),
            _ => None,
        }
    } else {
        None
    }
}

/// The state of a running event loop. `E` is the error that ends it.
pub struct RunLoop<E> {
    pub mode: RunMode,
    pub target_os: TargetOs,
    /// When each window is to be repainted next.
    pub windows_next_repaint_times: HashMap<WindowId, Instant>,
    pub control_flow: ControlFlow,
    pub returned_result: Result<(), E>,
}

impl<E> RunLoop<E> {
    /// A loop in which nothing is scheduled.
    pub fn new(mode: RunMode, target_os: TargetOs, control_flow: ControlFlow) -> (run_loop: RunLoop<E>)
        ensures
            run_loop.mode == mode,
            run_loop.target_os == target_os,
            run_loop.windows_next_repaint_times@ == Map::<u64, Instant>::empty(),
            run_loop.control_flow == control_flow,
            run_loop.returned_result == Ok::<(), E>(()),
    {
        RunLoop {
            mode,
            target_os,
            windows_next_repaint_times: HashMap::new(),
            control_flow,
            returned_result: Ok(()),
        }
    }

    /// Whether `after` is the same loop at a later time: it runs in the same mode on the same system, and
    /// has the same to return.
    pub open spec fn is_same_loop(&self, after: &RunLoop<E>) -> bool {
        &&& after.mode == self.mode
        &&& after.target_os == self.target_os
        &&& after.returned_result == self.returned_result
    }

    /// Takes up `event`. Of a repaint request, `current_frame_nr` is the frame that its viewport
    /// is in; of other events it says nothing.
    pub fn dispatch<A: WinitApp>(
        &mut self,
        app: &A,
        event: &Event,
        current_frame_nr: u64,
    ) -> (dispatch: Dispatch)
        requires
            *event matches Event::UserEvent(UserEvent::RequestRepaint { frame_nr, .. })
                ==> frame_nr == current_frame_nr || frame_nr < u64::MAX,
        ensures
            dispatch == dispatch_of(old(self).mode, app, *event, current_frame_nr),
            old(self).is_same_loop(final(self)),
            final(self).windows_next_repaint_times@ == times_after_dispatch(
                old(self).windows_next_repaint_times@,
                *event,
            ),
            final(self).mode == old(self).mode,
            final(self).target_os == old(self).target_os,
            final(self).control_flow == old(self).control_flow,
            final(self).returned_result == old(self).returned_result,
    {
        match event {
            // Some platforms do not return from the loop after this event, so the state has to be
            // saved now.
            Event::LoopDestroyed => Dispatch::Done(EventResult::Exit),
            Event::RedrawRequested(window_id) => {
                self.windows_next_repaint_times.remove(window_id);
                Dispatch::RunUiAndPaint(*window_id)
            },
            Event::UserEvent(UserEvent::RequestRepaint { viewport_id, when, frame_nr }) => {
                if current_frame_nr == *frame_nr || current_frame_nr == *frame_nr + 1 {
                    match app.window_id_from_viewport_id(*viewport_id) {
                        Some(window_id) => Dispatch::Done(EventResult::RepaintAt(window_id, *when)),
                        None => Dispatch::Done(EventResult::Wait),
                    }
                } else {
                    // An old request: there was a repaint since.
                    Dispatch::Done(EventResult::Wait)
                }
            },
            Event::NewEvents(StartCause::ResumeTimeReached) => Dispatch::Done(EventResult::Wait),
            Event::WindowEvent { window_id, .. } => {
                if self.mode == RunMode::Return && app.window(*window_id).is_none() {
                    // This can happen if a window is closed and a new one opened, or if several
                    // windows are open.
                    Dispatch::Done(EventResult::RepaintNext(*window_id))
                } else {
                    Dispatch::OnEvent
                }
            },
            _ => Dispatch::OnEvent,
        }
    }

    /// The result of an event that the application has handled with this `outcome`.
    pub open spec fn result_of_outcome(outcome: Result<EventResult, E>) -> EventResult {
        match outcome {
            Ok(result) => result,
            Err(_) => EventResult::Exit,
        }
    }

    /// What the loop has to return once an event has been handled with this `outcome`.
    pub open spec fn returned_after(
        returned_result: Result<(), E>,
        outcome: Result<EventResult, E>,
    ) -> Result<(), E> {
        match outcome {
            Ok(_) => returned_result,
            Err(err) => Err(err),
        }
    }

    /// The result of an event that the application has handled. An error ends the loop, which
    /// returns it. In a loop that exits the process there is nobody to return it to.
    pub fn handled(&mut self, outcome: Result<EventResult, E>) -> (result: EventResult)
        requires
            old(self).mode is Return || outcome is Ok,
        ensures
            result == Self::result_of_outcome(outcome),
            final(self).returned_result == Self::returned_after(
                old(self).returned_result,
                outcome,
            ),
            match outcome {
                Ok(event_result) => result == event_result && *final(self) == *old(self),
                Err(err) => {
                    &&& result == EventResult::Exit
                    &&& *final(self) == (RunLoop { returned_result: Err(err), ..*old(self) })
                },
            },
    {
        match outcome {
            Ok(event_result) => event_result,
            Err(err) => {
                self.returned_result = Err(err);
                EventResult::Exit
            },
        }
    }

    /// Heeds the result of an event.
    pub fn heed(&mut self, result: EventResult, now: Instant) -> (follow_up: FollowUp)
        ensures
            follow_up == follow_up_of(old(self).target_os, result),
            old(self).is_same_loop(final(self)),
            final(self).windows_next_repaint_times@ == times_after_result(
                old(self).target_os,
                old(self).windows_next_repaint_times@,
                result,
                now,
            ),
            final(self).control_flow == flow_after_result(
                old(self).mode,
                old(self).control_flow,
                result,
            ),
            final(self).mode == old(self).mode,
            final(self).target_os == old(self).target_os,
            final(self).returned_result == old(self).returned_result,
    {
        match result {
            EventResult::Wait => {
                if self.mode == RunMode::Return {
                    self.control_flow = ControlFlow::Wait;
                }
                FollowUp::Continue
            },
            EventResult::RepaintNow(window_id) => {
                if self.target_os == TargetOs::Windows {
                    // A window that is resized and not painted at once flickers there.
                    self.windows_next_repaint_times.remove(&window_id);
                    FollowUp::PaintNow(window_id)
                } else {
                    self.windows_next_repaint_times.insert(window_id, now);
                    FollowUp::Continue
                }
            },
            EventResult::RepaintNext(window_id) => {
                self.windows_next_repaint_times.insert(window_id, now);
                FollowUp::Continue
            },
            EventResult::RepaintAt(window_id, repaint_time) => {
                let when: Instant = match self.windows_next_repaint_times.get(&window_id) {
                    Some(last) => if *last < repaint_time {
                        *last
                    } else {
                        repaint_time
                    },
                    None => repaint_time,
                };
                self.windows_next_repaint_times.insert(window_id, when);
                FollowUp::Continue
            },
            EventResult::Exit => {
                if self.mode == RunMode::Return {
                    self.control_flow = ControlFlow::Exit;
                }
                FollowUp::SaveAndExit
            },
        }
    }

    /// The earliest repaint time.
    fn next_repaint_time(&self) -> (next: Option<Instant>)
        ensures
            match next {
                Some(when) => is_earliest(self.windows_next_repaint_times@, when),
                None => nothing_scheduled(self.windows_next_repaint_times@),
            },
    {
        let ghost times = self.windows_next_repaint_times@;
        let windows = keys_of(&self.windows_next_repaint_times);
        let mut next: Option<Instant> = None;
        for i in 0..windows.len()
            invariant
                times == self.windows_next_repaint_times@,
                forall|k: u64| windows@.contains(k) <==> times.contains_key(k),
                next is None <==> i == 0,
                next matches Some(when) ==> {
                    &&& exists|k: u64| #[trigger] times.contains_key(k) && times[k] == when
                    &&& forall|j: int| 0 <= j < i ==> when <= times[#[trigger] windows@[j]]
                },
        {
            let window_id: WindowId = windows[i];
            assert(windows@.contains(window_id));
            let when: Instant = *self.windows_next_repaint_times.get(&window_id).unwrap();
            next = match next {
                Some(earliest) => if earliest <= when {
                    Some(earliest)
                } else {
                    Some(when)
                },
                None => Some(when),
            };
        }
        proof {
            assert forall|k: u64| times.contains_key(k) implies windows@.contains(k) by {}
            if windows@.len() > 0 {
                assert forall|k: u64| #[trigger] times.contains_key(k) implies next->0 <= times[k] by {
                    let j = choose|j: int| 0 <= j < windows@.len() && windows@[j] == k;
                    assert(next->0 <= times[windows@[j]]);
                }
            }
        }
        next
    }

    /// Ends an event: says which windows to redraw, and sets the loop to go on or to wait.
    pub fn settle<A: WinitApp>(&mut self, app: &A, event: &Event, now: Instant) -> (settled: Settled)
        ensures
            old(self).is_same_loop(final(self)),
            redraws_are(
                app,
                old(self).windows_next_repaint_times@,
                *event,
                now,
                settled.redraws@,
            ),
            settled.redraw_root == root_redraw_of(
                old(self).mode,
                old(self).target_os,
                app,
                old(self).windows_next_repaint_times@,
                *event,
                now,
            ),
            final(self).windows_next_repaint_times@ == times_after_settle(
                app,
                old(self).windows_next_repaint_times@,
                *event,
                now,
            ),
            flow_is_settled(
                old(self).windows_next_repaint_times@,
                *event,
                now,
                old(self).control_flow,
                final(self).control_flow,
            ),
            final(self).mode == old(self).mode,
            final(self).target_os == old(self).target_os,
            final(self).returned_result == old(self).returned_result,
    {
        let ghost times = self.windows_next_repaint_times@;
        let mut next_repaint_time = self.next_repaint_time();
        let mut redraws: Vec<WindowId> = Vec::new();
        let at_redraw = match event {
            Event::RedrawEventsCleared | Event::RedrawRequested(_) | Event::Resumed => true,
            _ => false,
        };
        if at_redraw {
            let ghost mut dropped = Set::<u64>::empty();
            let ghost mut visited = Set::<u64>::empty();
            let windows = keys_of(&self.windows_next_repaint_times);
            let ghost earliest = next_repaint_time;
            let ghost flow = self.control_flow;
            for i in 0..windows.len()
                invariant
                    windows@.no_duplicates(),
                    forall|k: u64| windows@.contains(k) <==> times.contains_key(k),
                    self.mode == old(self).mode,
                    self.target_os == old(self).target_os,
                    self.returned_result == old(self).returned_result,
                    forall|j: int| 0 <= j < i ==> visited.contains(#[trigger] windows@[j]),
                    forall|j: int|
                        i <= j < windows@.len() ==> !visited.contains(#[trigger] windows@[j]),
                    redraws@.no_duplicates(),
                    forall|k: u64| #[trigger]
                        redraws@.contains(k) <==> visited.contains(k) && is_due(times, now, k)
                            && app.window_of(k) is Some,
                    forall|k: u64| #[trigger]
                        dropped.contains(k) <==> visited.contains(k) && is_due(times, now, k)
                            && app.window_of(k) is None,
                    self.windows_next_repaint_times@ == times.remove_keys(dropped),
                    if exists|k: u64| visited.contains(k) && is_due(times, now, k) {
                        next_repaint_time is None && self.control_flow == ControlFlow::Poll
                    } else {
                        next_repaint_time == earliest && self.control_flow == flow
                    },
            {
                let window_id: WindowId = windows[i];
                assert(windows@.contains(window_id));
                let repaint_time: Instant = *self.windows_next_repaint_times.get(&window_id).unwrap();
                let ghost visited_before = visited;
                proof {
                    assert(!redraws@.contains(window_id));
                    visited = visited.insert(window_id);
                }
                if repaint_time <= now {
                    next_repaint_time = None;
                    self.control_flow = ControlFlow::Poll;
                    assert(visited.contains(window_id) && is_due(times, now, window_id));
                    if app.window(window_id).is_some() {
                        redraws.push(window_id);
                        broadcast use vstd::seq_lib::lemma_seq_contains_after_push;
                    } else {
                        self.windows_next_repaint_times.remove(&window_id);
                        proof {
                            dropped = dropped.insert(window_id);
                        }
                    }
                } else {
                    assert forall|k: u64| visited.contains(k) && is_due(times, now, k) implies
                        visited_before.contains(k) by {}
                    assert forall|k: u64| visited_before.contains(k) && is_due(times, now, k) implies
                        visited.contains(k) by {}
                }
            }
            proof {
                assert forall|k: u64| times.contains_key(k) implies visited.contains(k) by {
                    assert(windows@.contains(k));
                }
            }
        }
        let mut redraw_root: Option<WindowId> = None;
        if let Some(when) = next_repaint_time {
            if self.mode == RunMode::Exit && self.target_os == TargetOs::Ios {
                redraw_root = match app.window_id_from_viewport_id(ROOT) {
                    Some(window_id) => if app.window(window_id).is_some() {
                        Some(window_id)
                    } else {
                        None
                    },
                    None => None,
                };
            }
            self.control_flow = ControlFlow::WaitUntil(when);
        }
        assert(self.windows_next_repaint_times@ =~= times_after_settle(app, times, *event, now));
        Settled { redraws, redraw_root }
    }

    /// Whether the events that are left when the loop has returned must be cleared out on `target_os`.
    pub open spec fn must_clear_events(target_os: TargetOs) -> bool {
        target_os is Windows
    }

    /// Whether the events that are left when the loop has returned must be cleared out, so that
    /// another window can be opened later.
    pub fn clears_events_after(&self) -> (clears: bool)
        ensures
            clears == Self::must_clear_events(self.target_os),
            clears == (self.target_os is Windows),
    {
        self.target_os == TargetOs::Windows
    }

    /// What the loop gives to its caller.
    pub fn into_result(self) -> (result: Result<(), E>)
        ensures
            result == self.returned_result,
    {
        self.returned_result
    }
}

/// The repaint times at the end of `event`, where handling it gave `result`.
pub open spec fn times_after_event<A: WinitApp>(
    target_os: TargetOs,
    app: &A,
    times: Map<u64, Instant>,
    event: Event,
    result: EventResult,
    now: Instant,
) -> Map<u64, Instant> {
    times_after_settle(
        app,
        times_after_result(target_os, times_after_dispatch(times, event), result, now),
        event,
        now,
    )
}

/// A repaint at some time never puts off a repaint that is scheduled: the window is repainted at the
/// earlier of both times. It leaves the other windows alone.
pub proof fn law_repaint_at_never_postpones(
    target_os: TargetOs,
    times: Map<u64, Instant>,
    window_id: WindowId,
    when: Instant,
    now: Instant,
)
    ensures
        ({
            let after = times_after_result(
                target_os,
                times,
                EventResult::RepaintAt(window_id, when),
                now,
            );
            &&& after.contains_key(window_id)
            &&& after[window_id] <= when
            &&& times.contains_key(window_id) ==> after[window_id] <= times[window_id]
            &&& after[window_id] == when || times.contains_key(window_id) && after[window_id]
                == times[window_id]
            &&& after.remove(window_id) == times.remove(window_id)
        }),
{
    let after = times_after_result(target_os, times, EventResult::RepaintAt(window_id, when), now);
    assert(after.remove(window_id) =~= times.remove(window_id));
}

/// The order in which two repaints are asked for does not matter, and asking twice is the same as
/// asking once.
pub proof fn law_repaint_requests_commute(
    target_os: TargetOs,
    times: Map<u64, Instant>,
    first: (WindowId, Instant),
    second: (WindowId, Instant),
    now: Instant,
)
    ensures
        ({
            let ask_first = EventResult::RepaintAt(first.0, first.1);
            let ask_second = EventResult::RepaintAt(second.0, second.1);
            let after_first = times_after_result(target_os, times, ask_first, now);
            let after_second = times_after_result(target_os, times, ask_second, now);
            &&& times_after_result(target_os, after_first, ask_second, now) == times_after_result(
                target_os,
                after_second,
                ask_first,
                now,
            )
            &&& times_after_result(target_os, after_first, ask_first, now) == after_first
        }),
{
    let ask_first = EventResult::RepaintAt(first.0, first.1);
    let ask_second = EventResult::RepaintAt(second.0, second.1);
    let after_first = times_after_result(target_os, times, ask_first, now);
    let after_second = times_after_result(target_os, times, ask_second, now);
    assert(times_after_result(target_os, after_first, ask_second, now) =~= times_after_result(
        target_os,
        after_second,
        ask_first,
        now,
    ));
    assert(times_after_result(target_os, after_first, ask_first, now) =~= after_first);
}

/// A repaint request that is older than the frame before the current one changes nothing: there was
/// a repaint since. A recent one for a viewport with a window has that window repainted, at the time
/// that was asked for or sooner.
pub proof fn law_only_recent_requests_count<A: WinitApp>(
    mode: RunMode,
    target_os: TargetOs,
    app: &A,
    times: Map<u64, Instant>,
    viewport_id: ViewportId,
    when: Instant,
    frame_nr: u64,
    current_frame_nr: u64,
    now: Instant,
)
    ensures
        ({
            let event = Event::UserEvent(UserEvent::RequestRepaint { viewport_id, when, frame_nr });
            &&& dispatch_of(mode, app, event, current_frame_nr) matches Dispatch::Done(result) && {
                let after = times_after_event(target_os, app, times, event, result, now);
                if frame_nr <= current_frame_nr <= frame_nr + 1 && app.window_id_of(viewport_id)
                    is Some {
                    let window_id = app.window_id_of(viewport_id)->0;
                    &&& after.contains_key(window_id)
                    &&& after[window_id] <= when
                    &&& after.remove(window_id) == times.remove(window_id)
                } else {
                    after == times
                }
            }
        }),
{
    let event = Event::UserEvent(UserEvent::RequestRepaint { viewport_id, when, frame_nr });
    let result = dispatch_of(mode, app, event, current_frame_nr)->Done_0;
    let after = times_after_event(target_os, app, times, event, result, now);
    if result is RepaintAt {
        let window_id = app.window_id_of(viewport_id)->0;
        assert(after.remove(window_id) =~= times.remove(window_id));
    }
}

/// A redraw that begins takes the window off the schedule, so that it is redrawn once however often
/// it was asked for. The other windows stay on it.
pub proof fn law_redraw_clears_the_schedule(times: Map<u64, Instant>, window_id: WindowId)
    ensures
        ({
            let after = times_after_dispatch(times, Event::RedrawRequested(window_id));
            &&& !after.contains_key(window_id)
            &&& forall|other: WindowId| #[trigger]
                times.contains_key(other) && other != window_id ==> after.contains_key(other)
                    && after[other] == times[other]
        }),
{
}

/// No scheduled repaint is missed: when an event ends, the loop does not sleep past the repaint time
/// of any window. Where redraws are requested it does not sleep past the present either: either a
/// window is due and the loop goes on at once, or it sleeps until a later time.
pub proof fn law_no_repaint_is_missed(
    times: Map<u64, Instant>,
    event: Event,
    now: Instant,
    before: ControlFlow,
    flow: ControlFlow,
)
    requires
        flow_is_settled(times, event, now, before, flow),
    ensures
        forall|window_id: WindowId| #[trigger]
            times.contains_key(window_id) ==> match flow {
                ControlFlow::Poll => true,
                ControlFlow::WaitUntil(when) => when <= times[window_id],
                ControlFlow::Wait => false,
                ControlFlow::Exit => false,
            },
        requests_redraws(event) && !nothing_scheduled(times) ==> {
            ||| flow is Poll && any_due(times, now)
            ||| flow matches ControlFlow::WaitUntil(when) && now < when && !any_due(times, now)
        },
{
    if requests_redraws(event) && any_due(times, now) {
    } else if !nothing_scheduled(times) {
        let when = flow->WaitUntil_0;
        let window_id = choose|window_id: WindowId| #[trigger]
            times.contains_key(window_id) && times[window_id] == when;
        assert(!(requests_redraws(event) && is_due(times, now, window_id)));
    }
}

/// Where redraws are requested, every window on the schedule is redrawn if it is due and open, is
/// forgotten if it is due and not open, and stays untouched if it is not due.
pub proof fn law_due_windows_are_redrawn_or_forgotten<A: WinitApp>(
    app: &A,
    times: Map<u64, Instant>,
    event: Event,
    now: Instant,
    redraws: Seq<WindowId>,
    window_id: WindowId,
)
    requires
        requests_redraws(event),
        redraws_are(app, times, event, now, redraws),
        times.contains_key(window_id),
    ensures
        ({
            let after = times_after_settle(app, times, event, now);
            if now < times[window_id] {
                &&& !redraws.contains(window_id)
                &&& after.contains_key(window_id) && after[window_id] == times[window_id]
            } else if app.window_of(window_id) is Some {
                &&& redraws.contains(window_id)
                &&& after.contains_key(window_id) && after[window_id] == times[window_id]
            } else {
                !redraws.contains(window_id) && !after.contains_key(window_id)
            }
        }),
{
}

/// Loops that return and loops that exit treat an event alike, except an event of a window that is
/// not open: the one asks for a repaint of it, the other hands the event to the application.
pub proof fn law_modes_differ_on_unknown_windows_only<A: WinitApp>(
    app: &A,
    event: Event,
    current_frame_nr: u64,
)
    ensures
        match event {
            Event::WindowEvent { window_id, .. } if app.window_of(window_id) is None => {
                &&& dispatch_of(RunMode::Return, app, event, current_frame_nr) == Dispatch::Done(
                    EventResult::RepaintNext(window_id),
                )
                &&& dispatch_of(RunMode::Exit, app, event, current_frame_nr) == Dispatch::OnEvent
            },
            _ => dispatch_of(RunMode::Return, app, event, current_frame_nr) == dispatch_of(
                RunMode::Exit,
                app,
                event,
                current_frame_nr,
            ),
        },
{
}

/// A window that a repaint is asked for, now or at the next redraw, is on the schedule as due when
/// the event ends, if it is open. Only on Windows is one that cannot wait painted at once instead.
pub proof fn law_asking_for_a_repaint_schedules_it<A: WinitApp>(
    target_os: TargetOs,
    app: &A,
    times: Map<u64, Instant>,
    event: Event,
    result: EventResult,
    window_id: WindowId,
    now: Instant,
)
    requires
        result == EventResult::RepaintNow(window_id) || result == EventResult::RepaintNext(window_id),
        app.window_of(window_id) is Some,
    ensures
        if follow_up_of(target_os, result) == FollowUp::PaintNow(window_id) {
            &&& target_os is Windows && result is RepaintNow
            &&& !times_after_event(target_os, app, times, event, result, now).contains_key(window_id)
        } else {
            is_due(times_after_event(target_os, app, times, event, result, now), now, window_id)
        },
{
}

/// What an event is dispatched as tells which event it is.
///
/// The ui is run and painted only because a redraw of that window was requested, and the loop ends only
/// because it is destroyed. A repaint is scheduled only for the window of a viewport that asked in this
/// frame or the one before, at the time that was asked for. A window is repainted unseen only if it is
/// not open, in a loop that returns. Every other event of a window that is open, and every event that
/// is not of a window, not a request to repaint and not a mere waking up, goes to the application,
/// whichever way the loop ends.
pub proof fn law_dispatch_tells_the_event<A: WinitApp>(
    mode: RunMode,
    app: &A,
    event: Event,
    current_frame_nr: u64,
    window_id: WindowId,
    when: Instant,
)
    ensures
        ({
            let dispatch = dispatch_of(mode, app, event, current_frame_nr);
            &&& dispatch == Dispatch::RunUiAndPaint(window_id) <==> event == Event::RedrawRequested(
                window_id,
            )
            &&& dispatch == Dispatch::Done(EventResult::Exit) <==> event == Event::LoopDestroyed
            &&& dispatch == Dispatch::Done(EventResult::RepaintAt(window_id, when)) <==> (event
                matches Event::UserEvent(
                UserEvent::RequestRepaint { viewport_id, when: asked, frame_nr },
            ) && asked == when && app.window_id_of(viewport_id) == Some(window_id) && 0
                    <= current_frame_nr - frame_nr <= 1)
            &&& dispatch == Dispatch::Done(EventResult::RepaintNext(window_id)) <==> (event
                matches Event::WindowEvent { window_id: of, .. } && of == window_id && mode
                    == RunMode::Return && app.window_of(window_id) is None)
            &&& dispatch != Dispatch::Done(EventResult::RepaintNow(window_id))
            &&& dispatch == Dispatch::OnEvent <==> match event {
                Event::WindowEvent { window_id, .. } => mode == RunMode::Exit || app.window_of(
                    window_id,
                ) is Some,
                Event::NewEvents(cause) => cause != StartCause::ResumeTimeReached,
                Event::UserEvent(user_event) => user_event is AccessKitActionRequest,
                Event::DeviceEvent(_) => true,
                Event::Suspended | Event::Resumed => true,
                Event::MainEventsCleared | Event::RedrawEventsCleared => true,
                Event::RedrawRequested(_) | Event::LoopDestroyed => false,
            }
        }),
{
}

/// Taking up an event changes the schedule of a window only if a redraw of that window begins, and then
/// the window is off the schedule.
pub proof fn law_dispatch_concerns_redrawn_windows_only(
    times: Map<u64, Instant>,
    event: Event,
    window_id: WindowId,
)
    ensures
        ({
            let after = times_after_dispatch(times, event);
            if event == Event::RedrawRequested(window_id) {
                !after.contains_key(window_id)
            } else {
                &&& after.contains_key(window_id) <==> times.contains_key(window_id)
                &&& times.contains_key(window_id) ==> after[window_id] == times[window_id]
            }
        }),
{
}

/// The result of an event changes the schedule of no window but the one that it is about, and a result
/// that asks for no repaint changes it of none.
pub proof fn law_results_concern_one_window(
    target_os: TargetOs,
    times: Map<u64, Instant>,
    result: EventResult,
    now: Instant,
    other: WindowId,
)
    requires
        result matches EventResult::RepaintNow(window_id) ==> window_id != other,
        result matches EventResult::RepaintNext(window_id) ==> window_id != other,
        result matches EventResult::RepaintAt(window_id, _) ==> window_id != other,
    ensures
        ({
            let after = times_after_result(target_os, times, result, now);
            &&& after.contains_key(other) <==> times.contains_key(other)
            &&& times.contains_key(other) ==> after[other] == times[other]
        }),
{
}

/// A window that is to be repainted now or next is due at the present moment, whatever it was scheduled
/// for. Only one that is painted at once, which happens on Windows to one that cannot wait, is off the
/// schedule. The schedules of all other windows stay as they were.
pub proof fn law_repaints_are_due_at_once(
    target_os: TargetOs,
    times: Map<u64, Instant>,
    window_id: WindowId,
    now: Instant,
)
    ensures
        ({
            let next = times_after_result(
                target_os,
                times,
                EventResult::RepaintNext(window_id),
                now,
            );
            &&& next.contains_key(window_id) && next[window_id] == now
            &&& next.remove(window_id) == times.remove(window_id)
        }),
        ({
            let result = EventResult::RepaintNow(window_id);
            let after = times_after_result(target_os, times, result, now);
            &&& after.contains_key(window_id) <==> target_os != TargetOs::Windows
            &&& after.contains_key(window_id) ==> after[window_id] == now
            &&& after.remove(window_id) == times.remove(window_id)
        }),
{
    let next = times_after_result(target_os, times, EventResult::RepaintNext(window_id), now);
    let after = times_after_result(target_os, times, EventResult::RepaintNow(window_id), now);
    assert(next.remove(window_id) =~= times.remove(window_id));
    assert(after.remove(window_id) =~= times.remove(window_id));
}

/// The application is saved and ended exactly by the result that says so. A window is painted at once
/// exactly if it cannot wait, on Windows.
pub proof fn law_follow_ups_tell_the_result(
    target_os: TargetOs,
    result: EventResult,
    window_id: WindowId,
)
    ensures
        ({
            let follow_up = follow_up_of(target_os, result);
            &&& follow_up == FollowUp::SaveAndExit <==> result == EventResult::Exit
            &&& follow_up == FollowUp::PaintNow(window_id) <==> target_os == TargetOs::Windows
                && result == EventResult::RepaintNow(window_id)
        }),
{
}

/// A result of its own never changes the flow of a loop that exits the process, and changes that of a
/// loop that returns only to wait, when there is nothing to do, or to end, when the application ends.
pub proof fn law_results_and_the_flow(mode: RunMode, flow: ControlFlow, result: EventResult)
    ensures
        ({
            let after = flow_after_result(mode, flow, result);
            &&& after != flow ==> mode == RunMode::Return && (result == EventResult::Wait || result
                == EventResult::Exit)
            &&& mode == RunMode::Return && result == EventResult::Wait ==> after
                == ControlFlow::Wait
            &&& mode == RunMode::Return && result == EventResult::Exit ==> after
                == ControlFlow::Exit
        }),
{
}

/// A loop returns to its caller exactly if that is asked for, on every system but iOS.
pub proof fn law_who_returns(target_os: TargetOs, run_and_return: bool)
    ensures
        RunMode::for_options(target_os, run_and_return) == RunMode::Return <==> run_and_return
            && target_os != TargetOs::Ios,
{
}

/// When an event ends that is about redraws, the windows to redraw are those that are open and whose
/// repaint time has come, each once. Whoever is not due stays scheduled for the same time, and whoever is
/// due is forgotten if it is not open. When another event ends, no window is redrawn and the schedule
/// stays.
pub proof fn law_who_is_redrawn<A: WinitApp>(
    app: &A,
    times: Map<u64, Instant>,
    event: Event,
    now: Instant,
    redraws: Seq<WindowId>,
    window_id: WindowId,
)
    requires
        redraws_are(app, times, event, now, redraws),
    ensures
        ({
            let after = times_after_settle(app, times, event, now);
            let about_redraws = event == Event::RedrawEventsCleared || event == Event::Resumed
                || event is RedrawRequested;
            &&& redraws.no_duplicates()
            &&& redraws.contains(window_id) <==> about_redraws && times.contains_key(window_id)
                && times[window_id] <= now && app.window_of(window_id) is Some
            &&& after.contains_key(window_id) <==> times.contains_key(window_id) && (!about_redraws
                || now < times[window_id] || app.window_of(window_id) is Some)
            &&& after.contains_key(window_id) ==> after[window_id] == times[window_id]
        }),
{
}

/// When an event ends, the loop sleeps until the earliest time on the schedule, and no longer. It goes on
/// at once if the event is about redraws and that time has come. A loop with an empty schedule sleeps as
/// it did.
pub proof fn law_how_long_the_loop_sleeps(
    times: Map<u64, Instant>,
    event: Event,
    now: Instant,
    before: ControlFlow,
    flow: ControlFlow,
)
    requires
        flow_is_settled(times, event, now, before, flow),
    ensures
        ({
            let about_redraws = event == Event::RedrawEventsCleared || event == Event::Resumed
                || event is RedrawRequested;
            let is_due = exists|window_id: WindowId| #[trigger]
                times.contains_key(window_id) && times[window_id] <= now;
            let is_scheduled = exists|window_id: WindowId| #[trigger] times.contains_key(window_id);
            &&& about_redraws && is_due ==> flow == ControlFlow::Poll
            &&& is_scheduled && !(about_redraws && is_due) ==> flow is WaitUntil
            &&& is_scheduled && !(about_redraws && is_due) ==> forall|window_id: WindowId| #[trigger]
                times.contains_key(window_id) ==> flow->WaitUntil_0 <= times[window_id]
            &&& is_scheduled && !(about_redraws && is_due) ==> exists|window_id: WindowId| #[trigger]
                times.contains_key(window_id) && flow->WaitUntil_0 == times[window_id]
            &&& !is_scheduled ==> flow == before
        }),
{
    let about_redraws = event == Event::RedrawEventsCleared || event == Event::Resumed
        || event is RedrawRequested;
    if exists|window_id: WindowId| #[trigger]
        times.contains_key(window_id) && times[window_id] <= now {
        let window_id = choose|window_id: WindowId| #[trigger]
            times.contains_key(window_id) && times[window_id] <= now;
        assert(is_due(times, now, window_id));
    }
    if any_due(times, now) {
        let window_id = choose|window_id: WindowId| is_due(times, now, window_id);
        assert(times.contains_key(window_id));
    }
}

/// Only on iOS, in a loop that exits, and while the loop sleeps for a point in time, is the window of the
/// root viewport redrawn on top, if it is open.
pub proof fn law_when_the_root_window_is_redrawn<A: WinitApp>(
    mode: RunMode,
    target_os: TargetOs,
    app: &A,
    times: Map<u64, Instant>,
    event: Event,
    now: Instant,
    window_id: WindowId,
)
    ensures
        ({
            let about_redraws = event == Event::RedrawEventsCleared || event == Event::Resumed
                || event is RedrawRequested;
            let is_due = exists|window_id: WindowId| #[trigger]
                times.contains_key(window_id) && times[window_id] <= now;
            let is_scheduled = exists|window_id: WindowId| #[trigger] times.contains_key(window_id);
            root_redraw_of(mode, target_os, app, times, event, now) == Some(window_id) <==> mode
                == RunMode::Exit && target_os == TargetOs::Ios && is_scheduled && !(about_redraws
                && is_due) && app.window_id_of(ROOT) == Some(window_id) && app.window_of(window_id)
                is Some
        }),
{
    if exists|window_id: WindowId| #[trigger]
        times.contains_key(window_id) && times[window_id] <= now {
        let due = choose|window_id: WindowId| #[trigger]
            times.contains_key(window_id) && times[window_id] <= now;
        assert(is_due(times, now, due));
    }
    if any_due(times, now) {
        let due = choose|window_id: WindowId| is_due(times, now, window_id);
        assert(times.contains_key(due));
    }
}

/// An error ends the loop and is what the loop returns. An event that was handled without one leaves
/// what the loop returns alone, and its result stands.
pub proof fn law_errors_end_the_loop<E>(
    returned_result: Result<(), E>,
    outcome: Result<EventResult, E>,
)
    ensures
        outcome matches Ok(result) ==> RunLoop::<E>::result_of_outcome(outcome) == result
            && RunLoop::<E>::returned_after(returned_result, outcome) == returned_result,
        outcome matches Err(err) ==> RunLoop::<E>::result_of_outcome(outcome) == EventResult::Exit
            && RunLoop::<E>::returned_after(returned_result, outcome) == Err::<(), E>(err),
{
}

/// On Windows, and there only, is the loop cleared out when it has returned.
pub proof fn law_where_events_are_cleared<E>(target_os: TargetOs)
    ensures
        RunLoop::<E>::must_clear_events(target_os) <==> target_os == TargetOs::Windows,
{
}

/// An error that an event was handled with is still what the loop returns once that event has been heeded
/// and settled and the next one has been taken up, and the loop is still to end in the same way.
pub proof fn law_errors_are_not_forgotten<E>(
    handled: &RunLoop<E>,
    heeded: &RunLoop<E>,
    settled: &RunLoop<E>,
    dispatched: &RunLoop<E>,
    err: E,
)
    requires
        handled.returned_result == Err::<(), E>(err),
        handled.is_same_loop(heeded),
        heeded.is_same_loop(settled),
        settled.is_same_loop(dispatched),
    ensures
        dispatched.returned_result == Err::<(), E>(err),
        dispatched.mode == handled.mode,
        dispatched.target_os == handled.target_os,
{
}

} // verus!
