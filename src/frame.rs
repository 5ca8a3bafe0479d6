use vstd::prelude::*;
use crate::input::InputState;

verus! {

/// Wall-clock budget of one frame, in nanoseconds: a sixtieth of a second.
pub const FRAME_NANOS: u64 = 1_000_000_000 / 60;

/// The keys that the loop reacts to.
#[derive(Clone, Copy, Debug, PartialEq, Eq)]
pub enum Key {
    Escape,
    Jump,
    Left,
    Right,
    /// Switches between filled and wireframe drawing.
    Wireframe,
    Other,
}

/// An event of the window and input system.
#[derive(Clone, Copy, Debug, PartialEq, Eq)]
pub enum Event {
    Quit,
    KeyDown(Key),
    KeyUp(Key),
    /// The window now has this width and height.
    Resized(i32, i32),
    Other,
}

/// The loop runs until a quit signal; there is no way back.
#[derive(Clone, Copy, Debug, PartialEq, Eq)]
pub enum LoopState {
    Running,
    Terminated,
}

/// What the caller carries out for an event.
#[derive(Clone, Copy, Debug, PartialEq, Eq)]
pub enum Effect {
    Nothing,
    /// Leave the loop before the next physics step.
    Terminate,
    /// Set the viewport to `(0, 0, width, height)` and the projection's
    /// right and bottom bounds to the width and height.
    SetViewport(i32, i32),
    /// Draw polygons as outlines (`true`) or filled (`false`).
    SetWireframe(bool),
}

/// The state the loop keeps from frame to frame.
#[derive(Clone, Copy, Debug, PartialEq, Eq)]
pub struct SimulationLoop {
    pub state: LoopState,
    pub input: InputState,
    /// Right bound of the projection and width of the viewport.
    pub width: i32,
    /// Bottom bound of the projection and height of the viewport.
    pub height: i32,
    pub wireframe: bool,
}

/// A quit signal: the window closed, or escape pressed.
pub open spec fn is_quit(e: Event) -> bool {
    e == Event::Quit || e == Event::KeyDown(Key::Escape)
}

/// The loop after one event.
pub open spec fn next_loop(s: SimulationLoop, e: Event) -> SimulationLoop {
    if s.state == LoopState::Terminated {
        s
    } else if is_quit(e) {
        SimulationLoop { state: LoopState::Terminated, ..s }
    } else {
        match e {
            Event::KeyDown(Key::Jump) => SimulationLoop {
                input: InputState { jump_down: true, ..s.input },
                ..s
            },
            Event::KeyUp(Key::Jump) => SimulationLoop {
                input: InputState { jump_down: false, ..s.input },
                ..s
            },
            Event::KeyDown(Key::Wireframe) => SimulationLoop { wireframe: !s.wireframe, ..s },
            Event::Resized(w, h) => SimulationLoop { width: w, height: h, ..s },
            _ => s,
        }
    }
}

/// What the caller does for one event.
pub open spec fn effect_of(s: SimulationLoop, e: Event) -> Effect {
    if s.state == LoopState::Terminated {
        Effect::Nothing
    } else if is_quit(e) {
        Effect::Terminate
    } else {
        match e {
            Event::KeyDown(Key::Wireframe) => Effect::SetWireframe(!s.wireframe),
            Event::Resized(w, h) => Effect::SetViewport(w, h),
            _ => Effect::Nothing,
        }
    }
}

/// The loop after the first `n` events.
pub open spec fn after_events(s: SimulationLoop, events: Seq<Event>, n: int) -> SimulationLoop
    decreases n,
{
    if n <= 0 {
        s
    } else {
        next_loop(after_events(s, events, n - 1), events[n - 1])
    }
}

/// The frame's sleep: what is left of the frame's budget after `elapsed`.
pub open spec fn spec_sleep_nanos(elapsed: u64) -> u64 {
    if elapsed >= FRAME_NANOS {
        0
    } else {
        (FRAME_NANOS - elapsed) as u64
    }
}

impl SimulationLoop {
    /// A running loop for a window of the given size, no button down.
    pub fn new(width: i32, height: i32) -> (r: SimulationLoop)
        ensures
            r.state == LoopState::Running,
            r.input == InputState::new_spec(),
            r.width == width,
            r.height == height,
            !r.wireframe,
    {
        SimulationLoop {
            state: LoopState::Running,
            input: InputState::new(),
            width,
            height,
            wireframe: false,
        }
    }

    /// True while the loop runs: the next physics step is taken only then.
    pub fn is_running(&self) -> (r: bool)
        ensures
            r == (self.state == LoopState::Running),
    {
        match self.state {
            LoopState::Running => true,
            LoopState::Terminated => false,
        }
    }

    /// Handles one event: quit or escape ends the loop, the jump key's edges
    /// move the jump button, the wireframe key toggles the drawing mode, a
    /// resize takes the window's new size. Other events change nothing, and
    /// once the loop has ended no event does.
    pub fn handle_event(&mut self, e: Event) -> (r: Effect)
        ensures
            *final(self) == next_loop(*old(self), e),
            r == effect_of(*old(self), e),
    {
        if !self.is_running() {
            return Effect::Nothing;
        }
        match e {
            Event::Quit | Event::KeyDown(Key::Escape) => {
                self.state = LoopState::Terminated;
                Effect::Terminate
            },
            Event::KeyDown(Key::Jump) => {
                self.input.set_jump_down(true);
                Effect::Nothing
            },
            Event::KeyUp(Key::Jump) => {
                self.input.set_jump_down(false);
                Effect::Nothing
            },
            Event::KeyDown(Key::Wireframe) => {
                self.wireframe = !self.wireframe;
                Effect::SetWireframe(self.wireframe)
            },
            Event::Resized(w, h) => {
                self.width = w;
                self.height = h;
                Effect::SetViewport(w, h)
            },
            _ => Effect::Nothing,
        }
    }

    /// Drains the events pending at the top of a frame, in order, and returns
    /// the effect of each. Events after a quit signal have no effect.
    pub fn drain_events(&mut self, events: &Vec<Event>) -> (r: Vec<Effect>)
        ensures
            *final(self) == after_events(*old(self), events@, events@.len() as int),
            r@.len() == events@.len(),
            forall|i: int|
                0 <= i < events@.len() ==> r@[i] == effect_of(
                    after_events(*old(self), events@, i),
                    events@[i],
                ),
    {
        let mut out: Vec<Effect> = Vec::new();
        let mut i: usize = 0;
        while i < events.len()
            invariant
                i <= events.len(),
                *self == after_events(*old(self), events@, i as int),
                out@.len() == i,
                forall|j: int|
                    0 <= j < i ==> out@[j] == effect_of(after_events(*old(self), events@, j), events@[j]),
            decreases events.len() - i,
        {
            let eff = self.handle_event(events[i]);
            out.push(eff);
            i = i + 1;
        }
        out
    }
}

/// A quit or escape event among the pending ones ends the loop before the
/// next physics step, and the loop ends only on such an event: after draining
/// the first `n` events a running loop has terminated exactly when one of them
/// was a quit signal.
pub proof fn lemma_quit_ends_loop(s: SimulationLoop, events: Seq<Event>, n: int)
    requires
        s.state == LoopState::Running,
        0 <= n <= events.len(),
    ensures
        after_events(s, events, n).state == LoopState::Terminated <==> exists|i: int|
            0 <= i < n && #[trigger] is_quit(events[i]),
    decreases n,
{
    if n > 0 {
        lemma_quit_ends_loop(s, events, n - 1);
        if is_quit(events[n - 1]) {
            assert(is_quit(events[n - 1]));
        } else {
            assert forall|i: int| 0 <= i < n && #[trigger] is_quit(events[i]) implies i < n - 1 by {}
        }
    }
}

/// How long to sleep at the end of a frame that took `elapsed` nanoseconds,
/// so that frames come at the target rate.
pub fn sleep_nanos(elapsed: u64) -> (r: u64)
    ensures
        r == spec_sleep_nanos(elapsed),
        r <= FRAME_NANOS,
{
    if elapsed >= FRAME_NANOS {
        0
    } else {
        FRAME_NANOS - elapsed
    }
}

} // verus!
