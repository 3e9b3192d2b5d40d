//! Debouncing of a noisy push button into single "activated" events.

use vstd::prelude::*;
use crate::timing::DEBOUNCE_MS;

verus! {

/// One poll of a button: whether the contact was closed, and when it was read.
pub struct Sample {
    pub pressed: bool,
    pub now: nat,
}

/// What a [`Button`] remembers between polls.
pub struct ButtonView {
    /// The level recorded by the last poll that was looked at.
    pub pressed: bool,
    /// Time of the last accepted press, or of construction before the first.
    pub last_activation: nat,
}

impl ButtonView {
    /// A poll at `now` falls into the refractory window: no more than
    /// `DEBOUNCE_MS` after the last activation. A clock reading that lies
    /// before the last activation counts as inside the window.
    pub open spec fn refractory(self, now: nat) -> bool {
        now - self.last_activation <= DEBOUNCE_MS
    }

    /// A poll reports an activation exactly on a released-to-pressed edge
    /// outside the refractory window.
    pub open spec fn fires(self, pressed: bool, now: nat) -> bool {
        !self.refractory(now) && !self.pressed && pressed
    }

    /// The state after one poll. Inside the refractory window the poll is
    /// ignored altogether; outside it the level is recorded, and an
    /// activation restarts the window.
    pub open spec fn after(self, pressed: bool, now: nat) -> ButtonView {
        if self.refractory(now) {
            self
        } else {
            ButtonView {
                pressed,
                last_activation: if self.fires(pressed, now) {
                    now
                } else {
                    self.last_activation
                },
            }
        }
    }

    /// The state after a whole sequence of polls, first to last.
    pub open spec fn after_all(self, samples: Seq<Sample>) -> ButtonView
        decreases samples.len(),
    {
        if samples.len() == 0 {
            self
        } else {
            let last = samples.last();
            self.after_all(samples.drop_last()).after(last.pressed, last.now)
        }
    }

    /// Whether poll number `i` of `samples` reports an activation.
    pub open spec fn fires_at(self, samples: Seq<Sample>, i: int) -> bool
        recommends
            0 <= i < samples.len(),
    {
        self.after_all(samples.take(i)).fires(samples[i].pressed, samples[i].now)
    }
}

/// A push button with its debounce state.
#[derive(Debug)]
pub struct Button {
    last_state: bool,
    last_activation: u64,
}

impl View for Button {
    type V = ButtonView;

    closed spec fn view(&self) -> ButtonView {
        ButtonView { pressed: self.last_state, last_activation: self.last_activation as nat }
    }
}

impl Button {
    /// A button whose contact reads `pressed` at time `now`. The level is
    /// remembered, so a button that is held down while the badge starts
    /// does not count as a press.
    pub fn new(pressed: bool, now: u64) -> (button: Button)
        ensures
            button@ == (ButtonView { pressed, last_activation: now as nat }),
        no_unwind
    {
        Button { last_state: pressed, last_activation: now }
    }

    /// Feeds one poll of the contact into the debouncer and tells whether it
    /// is an activation: a press seen more than `DEBOUNCE_MS` after the
    /// previous activation.
    pub fn is_activated(&mut self, pressed: bool, now: u64) -> (activated: bool)
        ensures
            activated == old(self)@.fires(pressed, now as nat),
            final(self)@ == old(self)@.after(pressed, now as nat),
        no_unwind
    {
        if now > self.last_activation && now - self.last_activation > DEBOUNCE_MS {
            if self.last_state && !pressed {
                self.last_state = false;
                false
            } else if !self.last_state && pressed {
                self.last_state = true;
                self.last_activation = now;
                true
            } else {
                false
            }
        } else {
            false
        }
    }
}

/// One poll never moves the time of the last activation backwards.
pub proof fn lemma_after_keeps_order(b: ButtonView, pressed: bool, now: nat)
    ensures
        b.after(pressed, now).last_activation >= b.last_activation,
        b.fires(pressed, now) ==> b.after(pressed, now).last_activation == now,
{
}

/// Polling one more sample extends the run by one step.
pub proof fn lemma_after_all_step(b: ButtonView, samples: Seq<Sample>, k: int)
    requires
        0 <= k < samples.len(),
    ensures
        b.after_all(samples.take(k + 1)) == b.after_all(samples.take(k)).after(
            samples[k].pressed,
            samples[k].now,
        ),
{
    let longer = samples.take(k + 1);
    assert(longer.drop_last() =~= samples.take(k));
    assert(longer.last() == samples[k]);
}

/// Once poll `i` has fired, the recorded activation time never falls
/// below the time of that poll.
proof fn lemma_activation_time_kept(b: ButtonView, samples: Seq<Sample>, i: int, k: int)
    requires
        0 <= i < k <= samples.len(),
        b.fires_at(samples, i),
    ensures
        b.after_all(samples.take(k)).last_activation >= samples[i].now,
    decreases k,
{
    lemma_after_all_step(b, samples, k - 1);
    let before = b.after_all(samples.take(k - 1));
    lemma_after_keeps_order(before, samples[k - 1].pressed, samples[k - 1].now);
    if k - 1 > i {
        lemma_activation_time_kept(b, samples, i, k - 1);
    }
}

/// Whatever the sequence of polls, any two that report an activation lie
/// more than `DEBOUNCE_MS` apart.
pub proof fn lemma_activations_spaced(b: ButtonView, samples: Seq<Sample>, i: int, j: int)
    requires
        0 <= i < j < samples.len(),
        b.fires_at(samples, i),
        b.fires_at(samples, j),
    ensures
        samples[j].now - samples[i].now > DEBOUNCE_MS,
{
    lemma_activation_time_kept(b, samples, i, j);
}

/// A button that is recorded as pressed and keeps reading pressed stays
/// recorded as pressed.
proof fn lemma_held_stays_pressed(b: ButtonView, samples: Seq<Sample>)
    requires
        b.pressed,
        forall|k: int| 0 <= k < samples.len() ==> samples[k].pressed,
    ensures
        b.after_all(samples).pressed,
    decreases samples.len(),
{
    if samples.len() > 0 {
        lemma_held_stays_pressed(b, samples.drop_last());
    }
}

/// A button that was pressed when it was constructed and is held down
/// ever since never reports an activation.
pub proof fn lemma_held_never_fires(b: ButtonView, samples: Seq<Sample>, i: int)
    requires
        b.pressed,
        forall|k: int| 0 <= k < samples.len() ==> samples[k].pressed,
        0 <= i < samples.len(),
    ensures
        !b.fires_at(samples, i),
{
    lemma_held_stays_pressed(b, samples.take(i));
}

} // verus!
