//! The frame loop's decisions and its counter.

use rotating_triangle::frame::{
    angle_of, Action, Event, FrameLoop, Key, FIRST_FRAME, FRAMES_PER_RADIAN, FRAME_LIMIT,
};

fn key(key: Option<Key>, pressed: bool) -> Event {
    Event::KeyboardInput { key, pressed }
}

#[test]
fn new_loop_is_at_the_first_frame() {
    assert_eq!(FrameLoop::new().current(), FIRST_FRAME);
    assert_eq!(FIRST_FRAME, 1);
}

#[test]
fn cleared_events_ask_for_a_redraw() {
    let mut frames = FrameLoop::new();
    assert_eq!(frames.handle(Event::MainEventsCleared), Action::RequestRedraw);
    assert_eq!(frames.current(), 1);
}

#[test]
fn redraw_renders_and_counts() {
    let mut frames = FrameLoop::new();
    assert_eq!(frames.handle(Event::RedrawRequested), Action::Render { frame: 1 });
    assert_eq!(frames.current(), 2);
    assert_eq!(frames.handle(Event::RedrawRequested), Action::Render { frame: 2 });
    assert_eq!(frames.handle(Event::RedrawRequested), Action::Render { frame: 3 });
    assert_eq!(frames.current(), 4);
}

#[test]
fn close_request_exits() {
    let mut frames = FrameLoop::new();
    assert_eq!(frames.handle(Event::CloseRequested), Action::Exit);
    assert_eq!(frames.current(), 1);
}

#[test]
fn escape_going_down_exits() {
    let mut frames = FrameLoop::new();
    assert_eq!(frames.handle(key(Some(Key::Escape), true)), Action::Exit);
    assert_eq!(frames.current(), 1);
}

#[test]
fn other_keyboard_input_does_nothing() {
    let mut frames = FrameLoop::new();
    assert_eq!(frames.handle(key(Some(Key::Escape), false)), Action::Nothing);
    assert_eq!(frames.handle(key(Some(Key::Other), true)), Action::Nothing);
    assert_eq!(frames.handle(key(Some(Key::Other), false)), Action::Nothing);
    assert_eq!(frames.handle(key(None, true)), Action::Nothing);
    assert_eq!(frames.handle(key(None, false)), Action::Nothing);
    assert_eq!(frames.current(), 1);
}

#[test]
fn other_events_do_nothing() {
    let mut frames = FrameLoop::new();
    assert_eq!(frames.handle(Event::Other), Action::Nothing);
    assert_eq!(frames.current(), 1);
}

#[test]
fn only_redraws_are_counted() {
    let mut frames = FrameLoop::new();
    let events = [
        Event::MainEventsCleared,
        Event::RedrawRequested,
        Event::Other,
        key(Some(Key::Other), true),
        Event::MainEventsCleared,
        Event::RedrawRequested,
        key(Some(Key::Escape), true),
        Event::RedrawRequested,
        Event::CloseRequested,
    ];
    let actions: Vec<Action> = events.iter().map(|event| frames.handle(*event)).collect();
    assert_eq!(
        actions,
        vec![
            Action::RequestRedraw,
            Action::Render { frame: 1 },
            Action::Nothing,
            Action::Nothing,
            Action::RequestRedraw,
            Action::Render { frame: 2 },
            Action::Exit,
            Action::Render { frame: 3 },
            Action::Exit,
        ]
    );
    assert_eq!(frames.current(), 4);
}

#[test]
fn counter_stops_at_the_limit() {
    let mut frames = FrameLoop::new();
    for expected in FIRST_FRAME..FRAME_LIMIT {
        assert_eq!(frames.handle(Event::RedrawRequested), Action::Render { frame: expected });
    }
    assert_eq!(frames.current(), FRAME_LIMIT);
    assert_eq!(frames.handle(Event::RedrawRequested), Action::Render { frame: FRAME_LIMIT });
    assert_eq!(frames.current(), FRAME_LIMIT);
    assert_eq!(frames.handle(Event::RedrawRequested), Action::Render { frame: FRAME_LIMIT });
    assert_eq!(frames.current(), FRAME_LIMIT);
}

#[test]
fn limit_is_where_single_precision_stops_counting() {
    assert_eq!(FRAME_LIMIT, 16_777_216);
    let limit = FRAME_LIMIT as f32;
    assert_eq!(limit as u32, FRAME_LIMIT);
    assert_eq!(limit + 1.0, limit);
    let below = (FRAME_LIMIT - 1) as f32;
    assert_eq!(below as u32, FRAME_LIMIT - 1);
    assert_eq!(below + 1.0, limit);
}

#[test]
fn angle_is_the_frame_over_twenty() {
    assert_eq!(FRAMES_PER_RADIAN, 20);
    let angle = angle_of(7);
    assert_eq!(angle.numerator(), 7);
    assert_eq!(angle.denominator(), 20);
    let last = angle_of(FRAME_LIMIT);
    assert_eq!(last.numerator(), 16_777_216);
    assert_eq!(last.denominator(), 20);
    let none = angle_of(0);
    assert_eq!(none.numerator(), 0);
    assert_eq!(none.denominator(), 20);
}
