//! The state that input changes between frames: the projection mode and the
//! two field-of-view angles.
//!
//! Angles are whole degrees. They start at 90 and every signal moves one of
//! them by one degree, so they stay whole. A renderer that turns them into
//! double-precision numbers holds every whole number up to `FOV_LIMIT` in
//! magnitude exactly, and cannot tell `FOV_LIMIT + 1` from `FOV_LIMIT`: an
//! angle that has reached the limit stays there.

use vstd::prelude::*;
use crate::projection::ProjectionMode;

verus! {

/// The largest magnitude of an angle, in degrees: two to the power of 53.
pub const FOV_LIMIT: i64 = 9007199254740992;

/// The angle, in degrees, that both fields of view start with.
pub const FOV_START: i64 = 90;

/// What the input source delivers.
#[derive(Clone, Copy, Debug, PartialEq, Eq, Structural)]
pub enum Signal {
    /// The window was closed.
    Quit,
    /// The escape key: quits as well.
    Escape,
    /// Switch between the projection modes.
    Toggle,
    /// Widen the vertical field of view by one degree.
    Up,
    /// Narrow the vertical field of view by one degree.
    Down,
    /// Widen the horizontal field of view by one degree.
    Right,
    /// Narrow the horizontal field of view by one degree.
    Left,
    /// Anything else: has no effect.
    Other,
}

/// What the caller is to do after a signal.
#[derive(Clone, Copy, Debug, PartialEq, Eq, Structural)]
pub enum Outcome {
    /// Leave the render loop.
    Exit,
    /// Go on; nothing is to be reported.
    Continue,
    /// Go on; the vertical angle was adjusted and now has this value.
    Fovy(i64),
    /// Go on; the horizontal angle was adjusted and now has this value.
    Fovx(i64),
}

/// The projection mode and the two field-of-view angles, in degrees.
#[derive(Clone, Copy, Debug, PartialEq, Eq, Structural)]
pub struct Controls {
    pub mode: ProjectionMode,
    pub fovx: i64,
    pub fovy: i64,
}

/// An angle one degree wider, but never beyond the limit.
pub open spec fn widened(angle: i64) -> i64 {
    if angle < FOV_LIMIT {
        (angle + 1) as i64
    } else {
        angle
    }
}

/// An angle one degree narrower, but never beyond the limit.
pub open spec fn narrowed(angle: i64) -> i64 {
    if angle > -FOV_LIMIT {
        (angle - 1) as i64
    } else {
        angle
    }
}

/// Whether an angle is within the limit.
pub open spec fn in_range(angle: i64) -> bool {
    -FOV_LIMIT <= angle <= FOV_LIMIT
}

impl Controls {
    /// Both angles are within the limit.
    pub open spec fn wf(self) -> bool {
        in_range(self.fovx) && in_range(self.fovy)
    }

    /// The controls a renderer starts with.
    pub open spec fn start() -> Controls {
        Controls { mode: ProjectionMode::Perspective, fovx: FOV_START, fovy: FOV_START }
    }

    /// The controls after one signal.
    pub open spec fn after(self, signal: Signal) -> Controls {
        match signal {
            Signal::Toggle => Controls { mode: self.mode.flipped(), ..self },
            Signal::Up => Controls { fovy: widened(self.fovy), ..self },
            Signal::Down => Controls { fovy: narrowed(self.fovy), ..self },
            Signal::Right => Controls { fovx: widened(self.fovx), ..self },
            Signal::Left => Controls { fovx: narrowed(self.fovx), ..self },
            _ => self,
        }
    }

    /// The controls after the same signal `n` times.
    pub open spec fn after_repeated(self, signal: Signal, n: nat) -> Controls
        decreases n,
    {
        if n == 0 {
            self
        } else {
            self.after(signal).after_repeated(signal, (n - 1) as nat)
        }
    }

    /// What the caller is to do after one signal.
    pub open spec fn outcome(self, signal: Signal) -> Outcome {
        match signal {
            Signal::Quit => Outcome::Exit,
            Signal::Escape => Outcome::Exit,
            Signal::Up => Outcome::Fovy(widened(self.fovy)),
            Signal::Down => Outcome::Fovy(narrowed(self.fovy)),
            Signal::Right => Outcome::Fovx(widened(self.fovx)),
            Signal::Left => Outcome::Fovx(narrowed(self.fovx)),
            _ => Outcome::Continue,
        }
    }

    /// The controls a renderer starts with: perspective projection and both
    /// angles at 90 degrees.
    pub fn new() -> (controls: Controls)
        ensures
            controls == Controls::start(),
            controls.wf(),
    {
        Controls { mode: ProjectionMode::initial(), fovx: FOV_START, fovy: FOV_START }
    }

    /// Controls with the given mode and angles, where both angles are within
    /// the limit; nothing otherwise.
    pub fn with_angles(mode: ProjectionMode, fovx: i64, fovy: i64) -> (made: Option<Controls>)
        ensures
            made.is_some() <==> (in_range(fovx) && in_range(fovy)),
            made.is_some() ==> made.unwrap() == (Controls { mode, fovx, fovy }),
            made.is_some() ==> made.unwrap().wf(),
    {
        if -FOV_LIMIT <= fovx && fovx <= FOV_LIMIT && -FOV_LIMIT <= fovy && fovy <= FOV_LIMIT {
            Some(Controls { mode, fovx, fovy })
        } else {
            None
        }
    }

    /// Takes one signal: changes the mode or an angle as the signal says and
    /// tells the caller how to go on. A quit, an escape and an unknown signal
    /// change nothing.
    pub fn apply(&mut self, signal: Signal) -> (outcome: Outcome)
        ensures
            *final(self) == old(self).after(signal),
            outcome == old(self).outcome(signal),
            old(self).wf() ==> final(self).wf(),
    {
        match signal {
            Signal::Quit => Outcome::Exit,
            Signal::Escape => Outcome::Exit,
            Signal::Toggle => {
                self.mode = self.mode.toggle();
                Outcome::Continue
            },
            Signal::Up => {
                if self.fovy < FOV_LIMIT {
                    self.fovy = self.fovy + 1;
                }
                Outcome::Fovy(self.fovy)
            },
            Signal::Down => {
                if self.fovy > -FOV_LIMIT {
                    self.fovy = self.fovy - 1;
                }
                Outcome::Fovy(self.fovy)
            },
            Signal::Right => {
                if self.fovx < FOV_LIMIT {
                    self.fovx = self.fovx + 1;
                }
                Outcome::Fovx(self.fovx)
            },
            Signal::Left => {
                if self.fovx > -FOV_LIMIT {
                    self.fovx = self.fovx - 1;
                }
                Outcome::Fovx(self.fovx)
            },
            Signal::Other => Outcome::Continue,
        }
    }
}

/// The larger of two whole numbers.
pub open spec fn larger(a: int, b: int) -> int {
    if a >= b {
        a
    } else {
        b
    }
}

/// The smaller of two whole numbers.
pub open spec fn smaller(a: int, b: int) -> int {
    if a <= b {
        a
    } else {
        b
    }
}

/// Two toggles in a row leave the controls as they were.
pub proof fn lemma_toggle_twice_restores(controls: Controls)
    ensures
        controls.after(Signal::Toggle).after(Signal::Toggle) == controls,
        controls.after(Signal::Toggle).mode != controls.mode,
{
}

/// `n` signals that narrow the vertical angle lower it by `n` degrees, but not
/// below the limit, and change nothing else.
pub proof fn lemma_down_repeated(controls: Controls, n: nat)
    requires
        controls.wf(),
    ensures
        controls.after_repeated(Signal::Down, n) == (Controls {
            fovy: larger(controls.fovy - n, -FOV_LIMIT) as i64,
            ..controls
        }),
        controls.after_repeated(Signal::Down, n).wf(),
    decreases n,
{
    if n > 0 {
        lemma_down_repeated(controls.after(Signal::Down), (n - 1) as nat);
    }
}

/// `n` signals that widen the vertical angle raise it by `n` degrees, but not
/// above the limit, and change nothing else.
pub proof fn lemma_up_repeated(controls: Controls, n: nat)
    requires
        controls.wf(),
    ensures
        controls.after_repeated(Signal::Up, n) == (Controls {
            fovy: smaller(controls.fovy + n, FOV_LIMIT as int) as i64,
            ..controls
        }),
        controls.after_repeated(Signal::Up, n).wf(),
    decreases n,
{
    if n > 0 {
        lemma_up_repeated(controls.after(Signal::Up), (n - 1) as nat);
    }
}

/// Narrowing the vertical angle `n` times and then widening it `n` times
/// gives the controls back, exactly when the way down did not stop at the
/// limit, or the angle started at the upper limit.
pub proof fn lemma_down_then_up_restores(controls: Controls, n: nat)
    requires
        controls.wf(),
    ensures
        controls.after_repeated(Signal::Down, n).after_repeated(Signal::Up, n) == controls <==> (
        controls.fovy - n >= -FOV_LIMIT || controls.fovy == FOV_LIMIT),
{
    lemma_down_repeated(controls, n);
    lemma_up_repeated(controls.after_repeated(Signal::Down, n), n);
}

} // verus!
