//! What each display mode shows at a given time: the intensities of the two
//! eyes as a function of mode, uptime and the largest intensity.

use vstd::prelude::*;
use crate::mode::Mode;
use crate::timing::{BLINK_PERIOD_MS, FADE_PERIOD_MS, FADE_RAMP_MS};

verus! {

/// The intensities of the red and the green LED of one eye.
pub struct Levels {
    pub red: int,
    pub green: int,
}

impl Levels {
    /// Both intensities lie between zero and `max`.
    pub open spec fn within(self, max: int) -> bool {
        0 <= self.red <= max && 0 <= self.green <= max
    }
}

/// The intensities of both eyes.
pub struct FrameView {
    pub left: Levels,
    pub right: Levels,
}

/// How far the fade has climbed its ramp at `now`: from zero at the start of
/// a ramp to just under `max` at its end.
pub open spec fn fade_level(now: int, max: int) -> int {
    (now % (FADE_RAMP_MS as int)) * max / (FADE_RAMP_MS as int)
}

/// What `mode` shows at `now` on eyes whose largest intensity is `max`.
///
/// `Red`, `Green` and `Yellow` are steady. `Blink` gives one eye full red and
/// the other full green and swaps them every half period. `Fade` moves both
/// eyes from green to red over one ramp and back over the next.
pub open spec fn frame_at(mode: Mode, now: int, max: int) -> FrameView {
    let red = Levels { red: max, green: 0 };
    let green = Levels { red: 0, green: max };
    match mode {
        Mode::Red => FrameView { left: red, right: red },
        Mode::Green => FrameView { left: green, right: green },
        Mode::Yellow => {
            let yellow = Levels { red: max, green: max };
            FrameView { left: yellow, right: yellow }
        },
        Mode::Blink => {
            if now % (BLINK_PERIOD_MS as int) < BLINK_PERIOD_MS / 2 {
                FrameView { left: red, right: green }
            } else {
                FrameView { left: green, right: red }
            }
        },
        Mode::Fade => {
            let fade = fade_level(now, max);
            let both = if now % (FADE_PERIOD_MS as int) < FADE_RAMP_MS {
                Levels { red: fade, green: max - fade }
            } else {
                Levels { red: max - fade, green: fade }
            };
            FrameView { left: both, right: both }
        },
    }
}

/// The intensities of one eye, as handed to [`crate::eye::Eye::set_value`].
#[derive(Clone, Copy, Debug, PartialEq, Eq, Structural)]
pub struct Color {
    pub red: u16,
    pub green: u16,
}

impl View for Color {
    type V = Levels;

    open spec fn view(&self) -> Levels {
        Levels { red: self.red as int, green: self.green as int }
    }
}

/// The colours of both eyes.
#[derive(Clone, Copy, Debug, PartialEq, Eq, Structural)]
pub struct Frame {
    pub left: Color,
    pub right: Color,
}

impl View for Frame {
    type V = FrameView;

    open spec fn view(&self) -> FrameView {
        FrameView { left: self.left@, right: self.right@ }
    }
}

/// The fade level never leaves the range of intensities.
pub proof fn lemma_fade_level_within(now: int, max: int)
    requires
        0 <= now,
        0 <= max,
    ensures
        0 <= fade_level(now, max) <= max,
        now % (FADE_RAMP_MS as int) == 0 ==> fade_level(now, max) == 0,
{
    let step = now % 2000;
    assert(0 <= step * max <= 1999 * max) by (nonlinear_arith)
        requires
            0 <= step <= 1999,
            0 <= max,
    ;
    assert(step == 0 ==> step * max == 0) by (nonlinear_arith);
}

/// Every intensity that a mode asks for lies between zero and `max`.
pub proof fn lemma_frame_within(mode: Mode, now: int, max: int)
    requires
        0 <= now,
        0 <= max,
    ensures
        frame_at(mode, now, max).left.within(max),
        frame_at(mode, now, max).right.within(max),
{
    lemma_fade_level_within(now, max);
}

/// Blinking repeats with its period, and the two halves of a period show
/// the two colour assignments.
pub proof fn lemma_blink_period(now: int, max: int)
    requires
        0 <= now,
    ensures
        frame_at(Mode::Blink, now + BLINK_PERIOD_MS, max) == frame_at(Mode::Blink, now, max),
        frame_at(Mode::Blink, now + BLINK_PERIOD_MS / 2, max).left == frame_at(
            Mode::Blink,
            now,
            max,
        ).right,
        frame_at(Mode::Blink, now + BLINK_PERIOD_MS / 2, max).right == frame_at(
            Mode::Blink,
            now,
            max,
        ).left,
{
}

/// Fading repeats with its period, and the second ramp is the first one
/// with red and green exchanged.
pub proof fn lemma_fade_period(now: int, max: int)
    requires
        0 <= now,
    ensures
        frame_at(Mode::Fade, now + FADE_PERIOD_MS, max) == frame_at(Mode::Fade, now, max),
        frame_at(Mode::Fade, now + FADE_RAMP_MS, max).left.red == frame_at(
            Mode::Fade,
            now,
            max,
        ).left.green,
        frame_at(Mode::Fade, now + FADE_RAMP_MS, max).left.green == frame_at(
            Mode::Fade,
            now,
            max,
        ).left.red,
{
}

/// The fade has no jump: from one millisecond to the next each intensity
/// moves by no more than one step of the ramp, also where one ramp ends
/// and the next begins.
pub proof fn lemma_fade_smooth(now: int, max: int)
    requires
        0 <= now,
        0 <= max,
    ensures
        ({
            let here = frame_at(Mode::Fade, now, max).left;
            let next = frame_at(Mode::Fade, now + 1, max).left;
            let step = max / (FADE_RAMP_MS as int) + 1;
            &&& -step <= next.red - here.red <= step
            &&& -step <= next.green - here.green <= step
            &&& here.red + here.green == max
        }),
{
    let at = now % 2000;
    let climbed = at * max;
    assert(0 <= climbed) by (nonlinear_arith)
        requires
            climbed == at * max,
            0 <= at,
            0 <= max,
    ;
    assert(fade_level(now, max) == climbed / 2000);
    if at < 1999 {
        assert((at + 1) * max == climbed + max) by (nonlinear_arith)
            requires
                climbed == at * max,
        ;
        assert(fade_level(now + 1, max) == (climbed + max) / 2000);
    } else {
        assert(climbed == 1999 * max) by (nonlinear_arith)
            requires
                climbed == at * max,
                at == 1999,
        ;
        assert(0 * max == 0);
        assert(fade_level(now + 1, max) == 0);
    }
}

/// The colours of both eyes for `mode` at uptime `now`, on eyes whose
/// largest intensity is `max`.
pub fn frame(mode: Mode, now: u64, max: u16) -> (f: Frame)
    ensures
        f@ == frame_at(mode, now as int, max as int),
        f@.left.within(max as int),
        f@.right.within(max as int),
    no_unwind
{
    proof {
        lemma_frame_within(mode, now as int, max as int);
    }
    let red = Color { red: max, green: 0 };
    let green = Color { red: 0, green: max };
    match mode {
        Mode::Red => Frame { left: red, right: red },
        Mode::Green => Frame { left: green, right: green },
        Mode::Yellow => {
            let yellow = Color { red: max, green: max };
            Frame { left: yellow, right: yellow }
        },
        Mode::Blink => {
            if now % BLINK_PERIOD_MS < BLINK_PERIOD_MS / 2 {
                Frame { left: red, right: green }
            } else {
                Frame { left: green, right: red }
            }
        },
        Mode::Fade => {
            let millis: u64 = now % FADE_PERIOD_MS;
            let step: u64 = millis % FADE_RAMP_MS;
            assert(step * max <= 1999 * 65535) by (nonlinear_arith)
                requires
                    0 <= step <= 1999,
                    0 <= max <= 65535,
            ;
            let fade: u16 = (step * (max as u64) / FADE_RAMP_MS) as u16;
            let both = if millis < FADE_RAMP_MS {
                Color { red: fade, green: max - fade }
            } else {
                Color { red: max - fade, green: fade }
            };
            Frame { left: both, right: both }
        },
    }
}

} // verus!
