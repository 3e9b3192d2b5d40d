//! The display modes and their cyclic order.

use vstd::prelude::*;

verus! {

/// What the eyes show. Exactly one mode is live at a time; the mode button
/// moves it to its successor.
#[derive(Clone, Copy, Debug, PartialEq, Eq, Structural)]
pub enum Mode {
    Red,
    Green,
    Yellow,
    Blink,
    Fade,
}

impl Mode {
    /// The mode that follows `self` in the cycle
    /// `Red, Green, Yellow, Blink, Fade` and back to `Red`.
    pub open spec fn succ(self) -> Mode {
        match self {
            Mode::Red => Mode::Green,
            Mode::Green => Mode::Yellow,
            Mode::Yellow => Mode::Blink,
            Mode::Blink => Mode::Fade,
            Mode::Fade => Mode::Red,
        }
    }

    /// Advances to the successor mode.
    pub fn next(&mut self)
        ensures
            *final(self) == old(self).succ(),
        no_unwind
    {
        *self = match *self {
            Mode::Red => Mode::Green,
            Mode::Green => Mode::Yellow,
            Mode::Yellow => Mode::Blink,
            Mode::Blink => Mode::Fade,
            Mode::Fade => Mode::Red,
        }
    }
}

/// Five steps lead back to where they started, and no fewer do: the modes
/// form a single cycle.
pub proof fn lemma_cycle_of_five(m: Mode)
    ensures
        m.succ().succ().succ().succ().succ() == m,
        m.succ() != m,
        m.succ().succ() != m,
        m.succ().succ().succ() != m,
        m.succ().succ().succ().succ() != m,
{
}

/// Different modes have different successors, and `Fade` closes the cycle
/// by leading back to `Red`.
pub proof fn lemma_succ_distinct(a: Mode, b: Mode)
    ensures
        a != b ==> a.succ() != b.succ(),
        Mode::Fade.succ() == Mode::Red,
{
}

} // verus!
