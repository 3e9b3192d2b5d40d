//! The watchdog as the control loop sees it: a countdown that a pet
//! restarts and that resets the badge when it runs out.

use vstd::prelude::*;

verus! {

/// The countdown of a [`Watchdog`].
pub struct WatchdogView {
    /// Longest silence that is tolerated, in microseconds.
    pub timeout_us: nat,
    /// Uptime in milliseconds at which the countdown was last restarted.
    pub last_pet: nat,
}

impl WatchdogView {
    /// At `now` more than the timeout has passed since the last pet.
    pub open spec fn starved(self, now: nat) -> bool {
        (now - self.last_pet) * 1000 > self.timeout_us
    }
}

/// Record of when the watchdog was last petted.
#[derive(Debug)]
pub struct Watchdog {
    timeout_us: u32,
    last_pet: u64,
}

impl View for Watchdog {
    type V = WatchdogView;

    closed spec fn view(&self) -> WatchdogView {
        WatchdogView { timeout_us: self.timeout_us as nat, last_pet: self.last_pet as nat }
    }
}

impl Watchdog {
    /// A watchdog armed at `now` with a timeout of `timeout_us` microseconds.
    pub fn new(timeout_us: u32, now: u64) -> (dog: Watchdog)
        ensures
            dog@ == (WatchdogView { timeout_us: timeout_us as nat, last_pet: now as nat }),
        no_unwind
    {
        Watchdog { timeout_us, last_pet: now }
    }

    /// Restarts the countdown at `now`.
    pub fn pet(&mut self, now: u64)
        ensures
            final(self)@ == (WatchdogView {
                timeout_us: old(self)@.timeout_us,
                last_pet: now as nat,
            }),
        no_unwind
    {
        self.last_pet = now;
    }

    /// Tells whether the countdown has run out at `now`.
    pub fn is_starved(&self, now: u64) -> (starved: bool)
        ensures
            starved == self@.starved(now as nat),
        no_unwind
    {
        now > self.last_pet && now - self.last_pet > (self.timeout_us / 1000) as u64
    }
}

} // verus!
