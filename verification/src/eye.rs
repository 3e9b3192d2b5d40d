//! One two-colour eye: a red and a green LED, each dimmed by a PWM channel
//! that sinks current, so that a larger duty value means less light.

use vstd::prelude::*;
use crate::timing::{RED_DIVISOR, RED_SHIFT};

verus! {

/// The duty values an [`Eye`] asks of its two channels.
pub struct EyeView {
    /// The largest duty value the channels take; it switches an LED off.
    pub max_duty: int,
    pub red_duty: int,
    pub green_duty: int,
}

impl EyeView {
    /// Both duty values lie between zero and `max_duty`.
    pub open spec fn wf(self) -> bool {
        &&& 0 <= self.red_duty <= self.max_duty
        &&& 0 <= self.green_duty <= self.max_duty
    }

    /// The eye with both LEDs switched off.
    pub open spec fn dark(self) -> EyeView {
        EyeView { max_duty: self.max_duty, red_duty: self.max_duty, green_duty: self.max_duty }
    }

    /// The eye showing the intensities `red` and `green`: each duty value is
    /// what is left of `max_duty`, for red after its intensity has been cut
    /// down to an eighth.
    pub open spec fn showing(self, red: int, green: int) -> EyeView {
        EyeView {
            max_duty: self.max_duty,
            red_duty: self.max_duty - red / (RED_DIVISOR as int),
            green_duty: self.max_duty - green,
        }
    }
}

/// A two-colour eye and the duty values last set for it.
#[derive(Debug)]
pub struct Eye {
    max_duty: u16,
    red_duty: u16,
    green_duty: u16,
}

impl View for Eye {
    type V = EyeView;

    closed spec fn view(&self) -> EyeView {
        EyeView {
            max_duty: self.max_duty as int,
            red_duty: self.red_duty as int,
            green_duty: self.green_duty as int,
        }
    }
}

/// Shifting an intensity right by `RED_SHIFT` bits divides it by
/// `RED_DIVISOR`.
pub proof fn lemma_shift_divides(red: u16)
    ensures
        red >> RED_SHIFT == red / RED_DIVISOR,
{
    assert(red >> 3u16 == red / 8u16) by (bit_vector);
}

impl Eye {
    #[verifier::type_invariant]
    spec fn in_range(self) -> bool {
        self.red_duty <= self.max_duty && self.green_duty <= self.max_duty
    }

    /// An eye on channels whose largest duty value is `max_duty`. It starts
    /// switched off.
    pub fn new(max_duty: u16) -> (eye: Eye)
        ensures
            eye@ == (EyeView {
                max_duty: max_duty as int,
                red_duty: max_duty as int,
                green_duty: max_duty as int,
            }),
        no_unwind
    {
        Eye { max_duty, red_duty: max_duty, green_duty: max_duty }
    }

    /// Switches both LEDs off.
    pub fn set_off(&mut self)
        ensures
            final(self)@ == old(self)@.dark(),
        no_unwind
    {
        proof {
            use_type_invariant(&*self);
        }
        self.red_duty = self.max_duty;
        self.green_duty = self.max_duty;
    }

    /// Full green, no red.
    pub fn set_green(&mut self)
        ensures
            final(self)@ == old(self)@.showing(0, old(self)@.max_duty),
        no_unwind
    {
        let max: u16 = self.max_value();
        self.set_value(0, max);
    }

    /// Full red, no green.
    pub fn set_red(&mut self)
        ensures
            final(self)@ == old(self)@.showing(old(self)@.max_duty, 0),
        no_unwind
    {
        let max: u16 = self.max_value();
        self.set_value(max, 0);
    }

    /// Shows the intensities `red` and `green`, each between zero and
    /// [`Eye::max_value`].
    pub fn set_value(&mut self, red: u16, green: u16)
        requires
            red <= old(self)@.max_duty,
            green <= old(self)@.max_duty,
        ensures
            final(self)@.max_duty == old(self)@.max_duty,
            final(self)@.green_duty == old(self)@.max_duty - green,
            final(self)@.red_duty == old(self)@.max_duty - (red >> RED_SHIFT),
            final(self)@ == old(self)@.showing(red as int, green as int),
            final(self)@.wf(),
        no_unwind
    {
        proof {
            use_type_invariant(&*self);
            lemma_shift_divides(red);
        }
        self.green_duty = self.max_duty - green;
        // red is much brighter than green
        self.red_duty = self.max_duty - (red >> RED_SHIFT);
    }

    /// The largest intensity, which is also the largest duty value.
    pub fn max_value(&self) -> (max: u16)
        ensures
            max == self@.max_duty,
        no_unwind
    {
        self.max_duty
    }

    /// The duty value of the red channel.
    pub fn red_duty(&self) -> (duty: u16)
        ensures
            duty == self@.red_duty,
            duty <= self@.max_duty,
        no_unwind
    {
        proof {
            use_type_invariant(self);
        }
        self.red_duty
    }

    /// The duty value of the green channel.
    pub fn green_duty(&self) -> (duty: u16)
        ensures
            duty == self@.green_duty,
            duty <= self@.max_duty,
        no_unwind
    {
        proof {
            use_type_invariant(self);
        }
        self.green_duty
    }
}

} // verus!
