//! What the frame loop does on each event, and the frame counter it keeps.

use vstd::prelude::*;
use crate::ratio::Ratio;

verus! {

/// Number of the first frame drawn.
pub const FIRST_FRAME: u32 = 1;

/// The frame number at which the counter stops.
///
/// Single-precision arithmetic holds every whole number up to this one
/// exactly, and adding one to this one gives it back. A counter kept in single
/// precision therefore stays here for good, and so does this one.
pub const FRAME_LIMIT: u32 = 16_777_216;

/// Number of frames in which the triangle turns by one radian.
pub const FRAMES_PER_RADIAN: u32 = 20;

/// A key of the keyboard, as far as the loop tells keys apart.
#[derive(Clone, Copy, Debug, PartialEq, Eq)]
pub enum Key {
    Escape,
    Other,
}

/// What the window system reports to the loop.
#[derive(Clone, Copy, Debug, PartialEq, Eq)]
pub enum Event {
    /// Every pending event has been handed over.
    MainEventsCleared,
    /// The window wants its contents drawn.
    RedrawRequested,
    /// The user asked to close the window.
    CloseRequested,
    /// A key went down (`pressed`) or up. `key` is `None` where the window
    /// system could not name the key.
    KeyboardInput { key: Option<Key>, pressed: bool },
    /// Anything else.
    Other,
}

/// What the loop has to do in answer to an event.
#[derive(Clone, Copy, Debug, PartialEq, Eq)]
pub enum Action {
    /// Ask the window system for a redraw.
    RequestRedraw,
    /// Draw frame number `frame` and present it.
    Render { frame: u32 },
    /// Leave the loop.
    Exit,
    /// Nothing.
    Nothing,
}

/// Whether `event` ends the loop: the window is to close, or Escape went down.
pub open spec fn ends_loop(event: Event) -> bool {
    event is CloseRequested || event == (Event::KeyboardInput {
        key: Some(Key::Escape),
        pressed: true,
    })
}

/// The action that answers `event` while the counter stands at `frame`.
pub open spec fn action_for(frame: u32, event: Event) -> Action {
    if ends_loop(event) {
        Action::Exit
    } else if event is MainEventsCleared {
        Action::RequestRedraw
    } else if event is RedrawRequested {
        Action::Render { frame }
    } else {
        Action::Nothing
    }
}

/// Where the counter stands after `event`, having stood at `frame`: one
/// further after a redraw, unless it has reached the limit.
pub open spec fn frame_after(frame: u32, event: Event) -> u32 {
    if event is RedrawRequested && frame < FRAME_LIMIT {
        (frame + 1) as u32
    } else {
        frame
    }
}

/// Where the counter stands after `events` in turn, having stood at `frame`.
pub open spec fn frame_after_all(frame: u32, events: Seq<Event>) -> u32
    decreases events.len(),
{
    if events.len() == 0 {
        frame
    } else {
        frame_after(frame_after_all(frame, events.drop_last()), events.last())
    }
}

/// Number of redraw requests among `events`.
pub open spec fn redraws(events: Seq<Event>) -> nat
    decreases events.len(),
{
    if events.len() == 0 {
        0
    } else {
        redraws(events.drop_last()) + if events.last() is RedrawRequested {
            1nat
        } else {
            0nat
        }
    }
}

/// The frame counter of one loop.
///
/// It starts at the first frame and never passes the limit, so every frame
/// number it hands out is one that single precision holds exactly.
#[derive(Debug)]
pub struct FrameLoop {
    frame: u32,
}

impl FrameLoop {
    #[verifier::type_invariant]
    spec fn in_range(&self) -> bool {
        FIRST_FRAME <= self.frame <= FRAME_LIMIT
    }

    /// The number of the frame that the next redraw draws.
    pub closed spec fn frame(&self) -> u32 {
        self.frame
    }

    /// A loop that has drawn nothing yet.
    pub fn new() -> (fresh: Self)
        ensures
            fresh.frame() == FIRST_FRAME,
    {
        FrameLoop { frame: FIRST_FRAME }
    }

    /// The number of the frame that the next redraw draws.
    pub fn current(&self) -> (frame: u32)
        ensures
            frame == self.frame(),
            FIRST_FRAME <= frame <= FRAME_LIMIT,
    {
        proof {
            use_type_invariant(self);
        }
        self.frame
    }

    /// Answers `event`: says what to do, and counts the frame if it is drawn.
    pub fn handle(&mut self, event: Event) -> (action: Action)
        ensures
            action == action_for(old(self).frame(), event),
            final(self).frame() == frame_after(old(self).frame(), event),
            FIRST_FRAME <= old(self).frame() <= final(self).frame() <= FRAME_LIMIT,
    {
        proof {
            use_type_invariant(&*self);
        }
        match event {
            Event::MainEventsCleared => Action::RequestRedraw,
            Event::RedrawRequested => {
                let frame: u32 = self.frame;
                if frame < FRAME_LIMIT {
                    self.frame = frame + 1;
                }
                Action::Render { frame }
            },
            Event::CloseRequested => Action::Exit,
            Event::KeyboardInput { key, pressed } => {
                match key {
                    Some(Key::Escape) if pressed => Action::Exit,
                    _ => Action::Nothing,
                }
            },
            Event::Other => Action::Nothing,
        }
    }
}

/// The angle, in radians, by which the triangle is turned in frame number
/// `frame`: a twentieth of a radian for each frame.
pub fn angle_of(frame: u32) -> (angle: Ratio)
    ensures
        angle.num() == frame,
        angle.den() == FRAMES_PER_RADIAN,
{
    Ratio::new(frame, FRAMES_PER_RADIAN)
}

/// The counter never runs backwards and never leaves its range.
pub proof fn lemma_frame_after_in_range(frame: u32, event: Event)
    requires
        FIRST_FRAME <= frame <= FRAME_LIMIT,
    ensures
        frame <= frame_after(frame, event) <= FRAME_LIMIT,
        frame_after(frame, event) <= frame + 1,
{
}

/// The counter counts the redraws and nothing else, up to its limit.
pub proof fn lemma_counter_counts_redraws(frame: u32, events: Seq<Event>)
    requires
        frame <= FRAME_LIMIT,
    ensures
        frame_after_all(frame, events) == if frame + redraws(events) <= FRAME_LIMIT {
            frame + redraws(events)
        } else {
            FRAME_LIMIT as int
        },
    decreases events.len(),
{
    if events.len() > 0 {
        lemma_counter_counts_redraws(frame, events.drop_last());
    }
}

} // verus!
