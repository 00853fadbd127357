use vstd::prelude::*;

verus! {

/// Label under which the framework registers the one window of the shell.
pub const MAIN_WINDOW_LABEL: &'static str = "main";

/// Horizontal offset, in points, of the title-bar control cluster.
pub const TRAFFIC_LIGHT_X: u32 = 10;

/// Vertical offset, in points, of the title-bar control cluster.
pub const TRAFFIC_LIGHT_Y: u32 = 18;

/// A position of the control cluster within the window's title-bar region,
/// in whole points from the window's top-left corner.
#[derive(Clone, Copy, Debug, PartialEq, Eq, Structural)]
pub struct Offset {
    pub x: u32,
    pub y: u32,
}

/// The window events that the shell tells apart: a resize, and everything
/// else (moves, focus changes, close requests, ...), which it ignores.
#[derive(Clone, Copy, Debug, PartialEq, Eq, Structural)]
pub enum WindowEventKind {
    Resized,
    Other,
}

/// What the host must do after startup or after a window event.
#[derive(Clone, Copy, Debug, PartialEq, Eq, Structural)]
pub enum Step {
    /// Move the main window's control cluster to this offset, once.
    Position(Offset),
    /// Leave the window as it is.
    Nothing,
    /// The main window is missing: terminate the process.
    Abort,
}

/// The one offset the control cluster is ever moved to.
pub open spec fn traffic_light_offset_spec() -> Offset {
    Offset { x: TRAFFIC_LIGHT_X, y: TRAFFIC_LIGHT_Y }
}

/// The step taken once the framework has finished setting up.
///
/// `overlay` says whether the platform draws the controls over the window's
/// content (the only platform on which they are moved at all).
pub open spec fn startup_step_spec(overlay: bool, main_window_found: bool) -> Step {
    if !main_window_found {
        Step::Abort
    } else if overlay {
        Step::Position(traffic_light_offset_spec())
    } else {
        Step::Nothing
    }
}

/// The step taken on one window event. It depends on the event alone, never
/// on earlier events or on the window's size.
pub open spec fn event_step_spec(overlay: bool, event: WindowEventKind, main_window_found: bool) -> Step {
    match event {
        WindowEventKind::Resized => {
            if !main_window_found {
                Step::Abort
            } else if overlay {
                Step::Position(traffic_light_offset_spec())
            } else {
                Step::Nothing
            }
        },
        WindowEventKind::Other => Step::Nothing,
    }
}

/// The steps taken on a run of events, one per event.
pub open spec fn event_steps_spec(
    overlay: bool,
    events: Seq<WindowEventKind>,
    main_window_found: bool,
) -> Seq<Step> {
    events.map_values(|e: WindowEventKind| event_step_spec(overlay, e, main_window_found))
}

/// The offset the control cluster is moved to.
pub fn traffic_light_offset() -> (r: Offset)
    ensures
        r == traffic_light_offset_spec(),
{
    Offset { x: TRAFFIC_LIGHT_X, y: TRAFFIC_LIGHT_Y }
}

/// Decides what follows startup: a missing main window is fatal on every
/// platform; otherwise the controls are positioned where they are overlaid.
pub fn startup_step(overlay: bool, main_window_found: bool) -> (r: Step)
    ensures
        r == startup_step_spec(overlay, main_window_found),
        !main_window_found <==> r == Step::Abort,
{
    if !main_window_found {
        Step::Abort
    } else if overlay {
        Step::Position(traffic_light_offset())
    } else {
        Step::Nothing
    }
}

/// Decides what one window event calls for: a resize looks the main window
/// up again, which is fatal on every platform if it is missing, and then
/// re-positions the controls at the fixed offset where they are overlaid;
/// any other event is ignored.
pub fn on_window_event(overlay: bool, event: WindowEventKind, main_window_found: bool) -> (r: Step)
    ensures
        r == event_step_spec(overlay, event, main_window_found),
        r == Step::Abort <==> (event == WindowEventKind::Resized && !main_window_found),
{
    match event {
        WindowEventKind::Resized => {
            if !main_window_found {
                Step::Abort
            } else if overlay {
                Step::Position(traffic_light_offset())
            } else {
                Step::Nothing
            }
        },
        WindowEventKind::Other => Step::Nothing,
    }
}

/// Decides the steps for a run of events delivered in order, one step for
/// each event.
pub fn on_window_events(overlay: bool, events: &Vec<WindowEventKind>, main_window_found: bool) -> (r: Vec<Step>)
    ensures
        r@ == event_steps_spec(overlay, events@, main_window_found),
{
    let mut r: Vec<Step> = Vec::new();
    let mut i: usize = 0;
    while i < events.len()
        invariant
            i <= events@.len(),
            r@ == event_steps_spec(overlay, events@.take(i as int), main_window_found),
        decreases events@.len() - i,
    {
        let s = on_window_event(overlay, events[i], main_window_found);
        r.push(s);
        proof {
            assert(events@.take(i + 1) =~= events@.take(i as int).push(events@[i as int]));
        }
        i = i + 1;
        proof {
            assert(r@ =~= event_steps_spec(overlay, events@.take(i as int), main_window_found));
        }
    }
    proof {
        assert(events@.take(events@.len() as int) =~= events@);
    }
    r
}

/// Every resize delivered where the controls are overlaid, with the main
/// window present, gives exactly one positioning, always at the same fixed
/// offset, whatever came before it; every other event gives none.
pub proof fn resize_positions_at_fixed_offset(events: Seq<WindowEventKind>)
    ensures
        event_steps_spec(true, events, true).len() == events.len(),
        forall|i: int|
            0 <= i < events.len() ==> {
                &&& events[i] == WindowEventKind::Resized ==> event_steps_spec(true, events, true)[i]
                    == Step::Position(traffic_light_offset_spec())
                &&& events[i] != WindowEventKind::Resized ==> event_steps_spec(true, events, true)[i]
                    == Step::Nothing
            },
{
}

/// Where the controls are not overlaid, nothing ever positions them: neither
/// startup nor any event.
pub proof fn never_positioned_without_overlay(events: Seq<WindowEventKind>, main_window_found: bool)
    ensures
        !(startup_step_spec(false, main_window_found) is Position),
        forall|i: int|
            0 <= i < events.len() ==> !(#[trigger] event_steps_spec(false, events, main_window_found)[i] is Position),
{
}

} // verus!
