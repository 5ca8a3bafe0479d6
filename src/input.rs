use vstd::prelude::*;

verus! {

/// Difference of two held keys: `1` when only `plus` is held, `-1` when only
/// `minus` is, `0` otherwise.
pub open spec fn axis_value(plus: bool, minus: bool) -> int {
    (if plus { 1int } else { 0int }) - (if minus { 1int } else { 0int })
}

/// A button goes down between two frames.
pub open spec fn rising(current: bool, previous: bool) -> bool {
    current && !previous
}

/// Horizontal axis from the right and left keys, recomputed every frame.
pub fn horizontal_axis(right: bool, left: bool) -> (r: i8)
    ensures
        r as int == axis_value(right, left),
        -1 <= r <= 1,
{
    let p: i8 = if right { 1 } else { 0 };
    let m: i8 = if left { 1 } else { 0 };
    p - m
}

/// What the input looked like in one frame. Made fresh each frame.
#[derive(Clone, Copy, Debug, PartialEq, Eq)]
pub struct InputSnapshot {
    /// Right held minus left held.
    pub axis: i8,
    /// The jump button is down in this frame.
    pub jump_current: bool,
    /// The jump button was down at the end of the frame before.
    pub jump_previous: bool,
}

impl InputSnapshot {
    pub open spec fn wf(&self) -> bool {
        -1 <= self.axis <= 1
    }

    /// A jump is attempted on this frame.
    pub open spec fn spec_rising_edge(&self) -> bool {
        rising(self.jump_current, self.jump_previous)
    }

    /// True exactly when the jump button went down since the frame before.
    pub fn is_rising_edge(&self) -> (r: bool)
        ensures
            r == self.spec_rising_edge(),
    {
        self.jump_current && !self.jump_previous
    }
}

/// The input state kept between frames: the jump button as events last left
/// it, and the one bit persisted at the end of each frame.
#[derive(Clone, Copy, Debug, PartialEq, Eq)]
pub struct InputState {
    /// The jump button is down, as the events drained so far say.
    pub jump_down: bool,
    /// The jump button's state persisted at the end of the previous frame.
    pub jump_last_frame: bool,
}

impl InputState {
    /// The state before the first frame.
    pub open spec fn new_spec() -> InputState {
        InputState { jump_down: false, jump_last_frame: false }
    }

    /// No button down, and the first frame's previous state seeded as up.
    pub fn new() -> (r: InputState)
        ensures
            r == InputState::new_spec(),
    {
        InputState { jump_down: false, jump_last_frame: false }
    }

    /// Records a jump-button edge delivered by the event stream.
    pub fn set_jump_down(&mut self, down: bool)
        ensures
            final(self).jump_down == down,
            final(self).jump_last_frame == old(self).jump_last_frame,
    {
        self.jump_down = down;
    }

    /// The frame's snapshot, from the keys held for the horizontal axis.
    pub fn sample(&self, right: bool, left: bool) -> (r: InputSnapshot)
        ensures
            r.wf(),
            r.axis as int == axis_value(right, left),
            r.jump_current == self.jump_down,
            r.jump_previous == self.jump_last_frame,
            r.spec_rising_edge() == rising(self.jump_down, self.jump_last_frame),
    {
        InputSnapshot {
            axis: horizontal_axis(right, left),
            jump_current: self.jump_down,
            jump_previous: self.jump_last_frame,
        }
    }

    /// Persists the frame's jump state as the next frame's previous state.
    /// Runs after the frame has been drawn.
    pub fn end_frame(&mut self, snapshot: &InputSnapshot)
        ensures
            final(self).jump_last_frame == snapshot.jump_current,
            final(self).jump_down == old(self).jump_down,
    {
        self.jump_last_frame = snapshot.jump_current;
    }
}

} // verus!

verus! {

/// The frames on which a jump is attempted, for the jump button's state in
/// each frame: the first frame counts as an edge when the button is down,
/// because the previous state is seeded as up.
pub open spec fn edge_frames(presses: Seq<bool>) -> Seq<bool> {
    Seq::new(
        presses.len(),
        |i: int| presses[i] && (i == 0 || !presses[i - 1]),
    )
}

/// Runs an input state through one frame per entry of `presses` (the jump
/// button's state as the events leave it in that frame) and reports on which
/// frames a jump is attempted. A held button fires once, on the frame it went
/// down, however long it is held.
pub fn replay_jump_edges(presses: &Vec<bool>) -> (r: Vec<bool>)
    ensures
        r@ == edge_frames(presses@),
{
    let mut state = InputState::new();
    let mut out: Vec<bool> = Vec::new();
    let mut i: usize = 0;
    while i < presses.len()
        invariant
            i <= presses.len(),
            out@.len() == i,
            forall|j: int| 0 <= j < i ==> out@[j] == edge_frames(presses@)[j],
            i > 0 ==> state.jump_last_frame == presses@[i - 1],
            i == 0 ==> !state.jump_last_frame,
        decreases presses.len() - i,
    {
        state.set_jump_down(presses[i]);
        let snap = state.sample(false, false);
        out.push(snap.is_rising_edge());
        state.end_frame(&snap);
        i = i + 1;
    }
    assert(out@ =~= edge_frames(presses@));
    out
}

} // verus!
