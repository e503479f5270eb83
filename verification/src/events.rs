//! Event bridge: translates host window events into the GUI library's event
//! model and accumulates them until the next frame collects its raw input.

use vstd::prelude::*;

verus! {

/// One raw event as the host's windowing layer reports it.
///
/// Positions and sizes are in physical pixels; the scale factor is carried
/// in thousandths of a point per pixel, so that a factor of one is `1000`.
#[derive(Clone, Copy, PartialEq, Eq, Structural, Debug)]
pub enum HostEvent {
    /// The cursor moved to a position inside the window.
    CursorMoved { x: u32, y: u32 },
    /// A key or pointer button changed state.
    Key { code: u32, pressed: bool },
    /// One character of text input.
    Text { ch: char },
    /// The window's scale factor changed.
    ScaleFactorChanged { pixels_per_point_milli: u32 },
    /// The window's inner size changed.
    Resized { width: u32, height: u32 },
    /// Any event kind the bridge does not recognize; a no-op.
    Other,
}

/// One event in the GUI library's input representation.
#[derive(Clone, Copy, PartialEq, Eq, Structural, Debug)]
pub enum GuiEvent {
    /// The pointer moved to a position inside the window.
    PointerMoved { x: u32, y: u32 },
    /// A key or pointer button changed state.
    Key { code: u32, pressed: bool },
    /// One character of text input.
    Text { ch: char },
}

/// How one host event translates: either one GUI input event, or none for
/// the event kinds that only adjust window state or are unrecognized.
pub open spec fn translate_spec(e: HostEvent) -> Option<GuiEvent> {
    match e {
        HostEvent::CursorMoved { x, y } => Some(GuiEvent::PointerMoved { x, y }),
        HostEvent::Key { code, pressed } => Some(GuiEvent::Key { code, pressed }),
        HostEvent::Text { ch } => Some(GuiEvent::Text { ch }),
        HostEvent::ScaleFactorChanged { .. } => None,
        HostEvent::Resized { .. } => None,
        HostEvent::Other => None,
    }
}

/// The sequence (empty or singleton) an optional translation contributes.
pub open spec fn opt_event_seq(o: Option<GuiEvent>) -> Seq<GuiEvent> {
    match o {
        Some(g) => seq![g],
        None => Seq::empty(),
    }
}

/// The order-preserving translation of a whole sequence of host events.
pub open spec fn translations(es: Seq<HostEvent>) -> Seq<GuiEvent>
    decreases es.len(),
{
    if es.len() == 0 {
        Seq::empty()
    } else {
        opt_event_seq(translate_spec(es[0])) + translations(es.drop_first())
    }
}

/// Accumulated input state between two frame ticks: the pending GUI events
/// in arrival order, and the window geometry the next raw input will carry.
pub struct PlatformState {
    /// Translated events not yet handed to a frame, oldest first.
    pub events: Vec<GuiEvent>,
    /// Current scale factor, in thousandths of a point per pixel.
    pub pixels_per_point_milli: u32,
    /// Current window inner width in physical pixels.
    pub width: u32,
    /// Current window inner height in physical pixels.
    pub height: u32,
}

/// The input a single GUI frame runs on: every event accumulated since the
/// previous frame, in arrival order, plus the current window geometry.
pub struct RawInput {
    /// Events of this frame, oldest first.
    pub events: Vec<GuiEvent>,
    /// Scale factor at frame start, in thousandths of a point per pixel.
    pub pixels_per_point_milli: u32,
    /// Window inner width in physical pixels at frame start.
    pub screen_width: u32,
    /// Window inner height in physical pixels at frame start.
    pub screen_height: u32,
}

impl PlatformState {
    /// A fresh state with no pending events and the given window geometry.
    pub fn new(pixels_per_point_milli: u32, width: u32, height: u32) -> (r: Self)
        ensures
            r.events@ == Seq::<GuiEvent>::empty(),
            r.pixels_per_point_milli == pixels_per_point_milli,
            r.width == width,
            r.height == height,
    {
        PlatformState { events: Vec::new(), pixels_per_point_milli, width, height }
    }

    /// Consumes one host event: appends its translation (if any) to the
    /// pending events, in order, and tracks scale and size changes.
    /// Unrecognized kinds are no-ops.
    pub fn feed(&mut self, e: HostEvent)
        ensures
            final(self).events@ == old(self).events@ + opt_event_seq(translate_spec(e)),
            final(self).pixels_per_point_milli == (match e {
                HostEvent::ScaleFactorChanged { pixels_per_point_milli } => pixels_per_point_milli,
                _ => old(self).pixels_per_point_milli,
            }),
            final(self).width == (match e {
                HostEvent::Resized { width, .. } => width,
                _ => old(self).width,
            }),
            final(self).height == (match e {
                HostEvent::Resized { height, .. } => height,
                _ => old(self).height,
            }),
    {
        match e {
            HostEvent::CursorMoved { x, y } => {
                self.events.push(GuiEvent::PointerMoved { x, y });
            }
            HostEvent::Key { code, pressed } => {
                self.events.push(GuiEvent::Key { code, pressed });
            }
            HostEvent::Text { ch } => {
                self.events.push(GuiEvent::Text { ch });
            }
            HostEvent::ScaleFactorChanged { pixels_per_point_milli } => {
                self.pixels_per_point_milli = pixels_per_point_milli;
            }
            HostEvent::Resized { width, height } => {
                self.width = width;
                self.height = height;
            }
            HostEvent::Other => {}
        }
        proof {
            assert(self.events@ =~= old(self).events@ + opt_event_seq(translate_spec(e)));
        }
    }

    /// Hands the accumulated input to the frame about to run and resets the
    /// pending events to empty. Scale and size persist: they are window
    /// state, not per-frame input.
    pub fn take_input(&mut self) -> (r: RawInput)
        ensures
            r.events@ == old(self).events@,
            r.pixels_per_point_milli == old(self).pixels_per_point_milli,
            r.screen_width == old(self).width,
            r.screen_height == old(self).height,
            final(self).events@ == Seq::<GuiEvent>::empty(),
            final(self).pixels_per_point_milli == old(self).pixels_per_point_milli,
            final(self).width == old(self).width,
            final(self).height == old(self).height,
    {
        let mut taken: Vec<GuiEvent> = Vec::new();
        core::mem::swap(&mut taken, &mut self.events);
        RawInput {
            events: taken,
            pixels_per_point_milli: self.pixels_per_point_milli,
            screen_width: self.width,
            screen_height: self.height,
        }
    }
}

/// The pending-event sequence after feeding a whole sequence of host
/// events, one at a time, starting from `init`.
pub open spec fn events_after_feeding(init: Seq<GuiEvent>, es: Seq<HostEvent>) -> Seq<GuiEvent>
    decreases es.len(),
{
    if es.len() == 0 {
        init
    } else {
        events_after_feeding(init + opt_event_seq(translate_spec(es[0])), es.drop_first())
    }
}

/// Feeding any sequence of host events between two frame ticks leaves the
/// platform state holding exactly the order-preserving translation of those
/// events appended to what was already pending — so the next frame's raw
/// input observes the merged, order-preserving union, and `take_input`
/// leaves the state empty.
pub proof fn lemma_feed_order_preserving(init: Seq<GuiEvent>, es: Seq<HostEvent>)
    ensures
        events_after_feeding(init, es) == init + translations(es),
    decreases es.len(),
{
    if es.len() == 0 {
        assert(events_after_feeding(init, es) =~= init + translations(es));
    } else {
        let stepped = init + opt_event_seq(translate_spec(es[0]));
        lemma_feed_order_preserving(stepped, es.drop_first());
        assert(stepped + translations(es.drop_first()) =~= init + translations(es));
    }
}

} // verus!
