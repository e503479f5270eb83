//! Event bridge behaviour: order-preserving accumulation, translation,
//! and the reset after a frame collects its input.

use blue_engine_egui::{GuiEvent, HostEvent, PlatformState};

#[test]
fn feed_accumulates_in_order() {
    let mut st = PlatformState::new(1000, 640, 480);
    st.feed(HostEvent::CursorMoved { x: 10, y: 20 });
    st.feed(HostEvent::Key { code: 7, pressed: true });
    st.feed(HostEvent::Text { ch: 'a' });
    st.feed(HostEvent::Key { code: 7, pressed: false });
    assert_eq!(st.events.len(), 4);
    assert_eq!(st.events[0], GuiEvent::PointerMoved { x: 10, y: 20 });
    assert_eq!(st.events[1], GuiEvent::Key { code: 7, pressed: true });
    assert_eq!(st.events[2], GuiEvent::Text { ch: 'a' });
    assert_eq!(st.events[3], GuiEvent::Key { code: 7, pressed: false });
}

#[test]
fn unrecognized_events_are_no_ops() {
    let mut st = PlatformState::new(1000, 640, 480);
    st.feed(HostEvent::Other);
    st.feed(HostEvent::Other);
    assert!(st.events.is_empty());
    assert_eq!(st.pixels_per_point_milli, 1000);
    assert_eq!(st.width, 640);
    assert_eq!(st.height, 480);
}

#[test]
fn window_events_update_geometry_not_input() {
    let mut st = PlatformState::new(1000, 640, 480);
    st.feed(HostEvent::ScaleFactorChanged { pixels_per_point_milli: 2000 });
    st.feed(HostEvent::Resized { width: 800, height: 600 });
    assert!(st.events.is_empty());
    assert_eq!(st.pixels_per_point_milli, 2000);
    assert_eq!(st.width, 800);
    assert_eq!(st.height, 600);
}

#[test]
fn take_input_observes_merged_union_and_empties_state() {
    let mut st = PlatformState::new(1000, 640, 480);
    st.feed(HostEvent::CursorMoved { x: 1, y: 2 });
    st.feed(HostEvent::Resized { width: 320, height: 240 });
    st.feed(HostEvent::Text { ch: 'z' });
    let raw = st.take_input();
    assert_eq!(raw.events.len(), 2);
    assert_eq!(raw.events[0], GuiEvent::PointerMoved { x: 1, y: 2 });
    assert_eq!(raw.events[1], GuiEvent::Text { ch: 'z' });
    assert_eq!(raw.pixels_per_point_milli, 1000);
    assert_eq!(raw.screen_width, 320);
    assert_eq!(raw.screen_height, 240);
    // The platform state is empty immediately after.
    assert!(st.events.is_empty());
    // A second take observes nothing.
    let raw2 = st.take_input();
    assert!(raw2.events.is_empty());
}
