//! The control loop, one tick at a time. A tick takes what was read from the
//! two buttons and the clock, updates the badge, and answers with what has
//! to happen before the next tick: whether the eyes' duty values are to be
//! written out, whether the watchdog is to be petted, and how long to sleep.
//!
//! The loop is either active (it renders the display mode and pets the
//! watchdog once per tick) or idle (it only waits for the "on" button). The
//! idle loop never pets the watchdog: where the watchdog keeps counting
//! while the badge sleeps, an idle time longer than its timeout ends in a
//! reset. [`crate::watchdog::Watchdog::is_starved`] tells when that is due.

use vstd::prelude::*;
use crate::button::{Button, ButtonView};
use crate::eye::{Eye, EyeView};
use crate::frame::{frame, frame_at, Frame};
use crate::mode::Mode;
use crate::timing::{ACTIVE_TICK_MS, IDLE_TICK_MS};
use crate::watchdog::{Watchdog, WatchdogView};

verus! {

/// Which of the two loops is running.
#[derive(Clone, Copy, Debug, PartialEq, Eq, Structural)]
pub enum Phase {
    /// The eyes are lit and follow the display mode.
    Active,
    /// The eyes are off; only the "on" button is watched.
    Idle,
}

/// What is to be done after a tick, before the next one.
#[derive(Clone, Copy, Debug, PartialEq, Eq, Structural)]
pub struct Step {
    /// The loop that runs the next tick.
    pub phase: Phase,
    /// The duty values of both eyes are to be written to their channels.
    pub refresh_eyes: bool,
    /// The watchdog is to be petted.
    pub pet_watchdog: bool,
    /// How long to sleep before the next tick, in milliseconds.
    pub sleep_ms: u64,
}

/// Everything the control loop owns: both eyes, both buttons and the
/// watchdog.
#[derive(Debug)]
pub struct BadgePeripherals {
    pub eye_left: Eye,
    pub eye_right: Eye,
    pub btn_on: Button,
    pub btn_mode: Button,
    pub good_boy: Watchdog,
}

/// The state of all of a badge's peripherals.
pub struct BadgeView {
    pub eye_left: EyeView,
    pub eye_right: EyeView,
    pub btn_on: ButtonView,
    pub btn_mode: ButtonView,
    pub good_boy: WatchdogView,
}

impl View for BadgePeripherals {
    type V = BadgeView;

    open spec fn view(&self) -> BadgeView {
        BadgeView {
            eye_left: self.eye_left@,
            eye_right: self.eye_right@,
            btn_on: self.btn_on@,
            btn_mode: self.btn_mode@,
            good_boy: self.good_boy@,
        }
    }
}

impl BadgeView {
    /// Both eyes have the same largest intensity, so that one frame fits
    /// both.
    pub open spec fn matched(self) -> bool {
        self.eye_left.max_duty == self.eye_right.max_duty
    }

    /// The badge with both eyes switched off.
    pub open spec fn dark(self) -> BadgeView {
        BadgeView { eye_left: self.eye_left.dark(), eye_right: self.eye_right.dark(), ..self }
    }

    /// The badge with both eyes showing `mode` as it looks at `now`.
    pub open spec fn rendered(self, mode: Mode, now: nat) -> BadgeView {
        let f = frame_at(mode, now as int, self.eye_left.max_duty);
        BadgeView {
            eye_left: self.eye_left.showing(f.left.red, f.left.green),
            eye_right: self.eye_right.showing(f.right.red, f.right.green),
            ..self
        }
    }

    /// One tick of the active loop. A press of the "on" button ends the
    /// loop: the eyes go dark and nothing else is looked at. Otherwise a
    /// press of the mode button advances the mode, the mode is rendered and
    /// the watchdog is petted.
    pub open spec fn active_tick(
        self,
        mode: Mode,
        on_pressed: bool,
        mode_pressed: bool,
        now: nat,
    ) -> (BadgeView, Mode, Step) {
        let polled = BadgeView { btn_on: self.btn_on.after(on_pressed, now), ..self };
        if self.btn_on.fires(on_pressed, now) {
            (
                polled.dark(),
                mode,
                Step { phase: Phase::Idle, refresh_eyes: true, pet_watchdog: false, sleep_ms: 0 },
            )
        } else {
            let shown = if self.btn_mode.fires(mode_pressed, now) {
                mode.succ()
            } else {
                mode
            };
            let petted = BadgeView {
                btn_mode: self.btn_mode.after(mode_pressed, now),
                good_boy: WatchdogView { timeout_us: self.good_boy.timeout_us, last_pet: now },
                ..polled
            };
            (
                petted.rendered(shown, now),
                shown,
                Step {
                    phase: Phase::Active,
                    refresh_eyes: true,
                    pet_watchdog: true,
                    sleep_ms: ACTIVE_TICK_MS,
                },
            )
        }
    }

    /// One tick of the idle loop: only the "on" button is polled, and a
    /// press of it wakes the badge.
    pub open spec fn idle_tick(self, on_pressed: bool, now: nat) -> (BadgeView, Step) {
        let polled = BadgeView { btn_on: self.btn_on.after(on_pressed, now), ..self };
        if self.btn_on.fires(on_pressed, now) {
            (
                polled,
                Step {
                    phase: Phase::Active,
                    refresh_eyes: false,
                    pet_watchdog: false,
                    sleep_ms: 0,
                },
            )
        } else {
            (
                polled,
                Step {
                    phase: Phase::Idle,
                    refresh_eyes: false,
                    pet_watchdog: false,
                    sleep_ms: IDLE_TICK_MS,
                },
            )
        }
    }
}

/// Sets both eyes to what `mode` shows at `now`. The frame is made for the
/// largest intensity of the left eye, so the right eye must have the same.
pub fn render(p: &mut BadgePeripherals, mode: Mode, now: u64)
    requires
        old(p)@.matched(),
    ensures
        final(p)@ == old(p)@.rendered(mode, now as nat),
    no_unwind
{
    let max: u16 = p.eye_left.max_value();
    let f: Frame = frame(mode, now, max);
    p.eye_left.set_value(f.left.red, f.left.green);
    p.eye_right.set_value(f.right.red, f.right.green);
}

/// Runs one tick of the active loop on what was read from the buttons at
/// `now`. Both eyes must have the same largest intensity; [`ControlLoop`]
/// sees to that by itself.
pub fn active_tick(
    p: &mut BadgePeripherals,
    mode: &mut Mode,
    on_pressed: bool,
    mode_pressed: bool,
    now: u64,
) -> (step: Step)
    requires
        old(p)@.matched(),
    ensures
        (final(p)@, *final(mode), step) == old(p)@.active_tick(
            *old(mode),
            on_pressed,
            mode_pressed,
            now as nat,
        ),
        final(p)@.matched(),
        step.pet_watchdog <==> step.phase == Phase::Active,
        step.pet_watchdog ==> final(p).good_boy@.last_pet == now,
    no_unwind
{
    if p.btn_on.is_activated(on_pressed, now) {
        p.eye_left.set_off();
        p.eye_right.set_off();
        Step { phase: Phase::Idle, refresh_eyes: true, pet_watchdog: false, sleep_ms: 0 }
    } else {
        if p.btn_mode.is_activated(mode_pressed, now) {
            mode.next();
        }
        render(p, *mode, now);
        p.good_boy.pet(now);
        Step {
            phase: Phase::Active,
            refresh_eyes: true,
            pet_watchdog: true,
            sleep_ms: ACTIVE_TICK_MS,
        }
    }
}

/// Runs one tick of the idle loop on what was read from the "on" button at
/// `now`. It touches neither the eyes nor the watchdog.
pub fn idle_tick(p: &mut BadgePeripherals, on_pressed: bool, now: u64) -> (step: Step)
    ensures
        (final(p)@, step) == old(p)@.idle_tick(on_pressed, now as nat),
        !step.pet_watchdog,
        !step.refresh_eyes,
        final(p).good_boy@ == old(p).good_boy@,
        final(p).eye_left@ == old(p).eye_left@,
        final(p).eye_right@ == old(p).eye_right@,
    no_unwind
{
    if p.btn_on.is_activated(on_pressed, now) {
        Step { phase: Phase::Active, refresh_eyes: false, pet_watchdog: false, sleep_ms: 0 }
    } else {
        Step {
            phase: Phase::Idle,
            refresh_eyes: false,
            pet_watchdog: false,
            sleep_ms: IDLE_TICK_MS,
        }
    }
}

/// The state of a [`ControlLoop`].
pub struct ControlView {
    pub badge: BadgeView,
    pub mode: Mode,
    pub phase: Phase,
}

impl ControlView {
    /// One tick of whichever loop is running. The idle loop does not look
    /// at the mode button.
    pub open spec fn tick(self, on_pressed: bool, mode_pressed: bool, now: nat) -> (
        ControlView,
        Step,
    ) {
        match self.phase {
            Phase::Active => {
                let (badge, mode, step) = self.badge.active_tick(
                    self.mode,
                    on_pressed,
                    mode_pressed,
                    now,
                );
                (ControlView { badge, mode, phase: step.phase }, step)
            },
            Phase::Idle => {
                let (badge, step) = self.badge.idle_tick(on_pressed, now);
                (ControlView { badge, mode: self.mode, phase: step.phase }, step)
            },
        }
    }
}

/// The badge with its display mode and the loop it is in.
#[derive(Debug)]
pub struct ControlLoop {
    peripherals: BadgePeripherals,
    mode: Mode,
    phase: Phase,
}

impl View for ControlLoop {
    type V = ControlView;

    closed spec fn view(&self) -> ControlView {
        ControlView { badge: self.peripherals@, mode: self.mode, phase: self.phase }
    }
}

impl ControlLoop {
    #[verifier::type_invariant]
    spec fn eyes_matched(self) -> bool {
        self.peripherals@.matched()
    }

    /// Takes over the peripherals and starts in the active loop with the
    /// mode `Red`. The two eyes must have the same largest intensity;
    /// where they differ there is no control loop.
    pub fn new(peripherals: BadgePeripherals) -> (made: Option<ControlLoop>)
        ensures
            made is Some <==> peripherals@.matched(),
            made matches Some(control) ==> control@ == (ControlView {
                badge: peripherals@,
                mode: Mode::Red,
                phase: Phase::Active,
            }),
        no_unwind
    {
        if peripherals.eye_left.max_value() == peripherals.eye_right.max_value() {
            Some(ControlLoop { peripherals, mode: Mode::Red, phase: Phase::Active })
        } else {
            None
        }
    }

    /// Runs one tick on what was read from the two buttons at `now`.
    pub fn tick(&mut self, on_pressed: bool, mode_pressed: bool, now: u64) -> (step: Step)
        ensures
            (final(self)@, step) == old(self)@.tick(on_pressed, mode_pressed, now as nat),
            final(self)@.badge.matched(),
            step.phase == final(self)@.phase,
            step.pet_watchdog <==> old(self)@.phase == Phase::Active && step.phase
                == Phase::Active,
        no_unwind
    {
        proof {
            use_type_invariant(&*self);
        }
        let step = match self.phase {
            Phase::Active => active_tick(
                &mut self.peripherals,
                &mut self.mode,
                on_pressed,
                mode_pressed,
                now,
            ),
            Phase::Idle => idle_tick(&mut self.peripherals, on_pressed, now),
        };
        self.phase = step.phase;
        step
    }

    /// The loop that runs the next tick.
    pub fn phase(&self) -> (phase: Phase)
        ensures
            phase == self@.phase,
        no_unwind
    {
        self.phase
    }

    /// The display mode.
    pub fn mode(&self) -> (mode: Mode)
        ensures
            mode == self@.mode,
        no_unwind
    {
        self.mode
    }

    /// The peripherals, for reading the duty values of the eyes.
    pub fn peripherals(&self) -> (p: &BadgePeripherals)
        ensures
            p@ == self@.badge,
            p@.matched(),
        no_unwind
    {
        proof {
            use_type_invariant(self);
        }
        &self.peripherals
    }
}

/// The loop changes exactly when the "on" button reports an activation:
/// from active to idle, and from idle to active.
pub proof fn lemma_phase_follows_on_button(
    s: ControlView,
    on_pressed: bool,
    mode_pressed: bool,
    now: nat,
)
    ensures
        s.tick(on_pressed, mode_pressed, now).0.phase != s.phase <==> s.badge.btn_on.fires(
            on_pressed,
            now,
        ),
        s.tick(on_pressed, mode_pressed, now).1.phase == s.tick(
            on_pressed,
            mode_pressed,
            now,
        ).0.phase,
{
}

/// A tick of the idle loop never pets the watchdog and leaves the eyes,
/// the mode and the watchdog as they are.
pub proof fn lemma_idle_never_pets(s: ControlView, on_pressed: bool, mode_pressed: bool, now: nat)
    requires
        s.phase == Phase::Idle,
    ensures
        ({
            let (after, step) = s.tick(on_pressed, mode_pressed, now);
            &&& !step.pet_watchdog
            &&& !step.refresh_eyes
            &&& after.badge.good_boy == s.badge.good_boy
            &&& after.badge.eye_left == s.badge.eye_left
            &&& after.badge.eye_right == s.badge.eye_right
            &&& after.mode == s.mode
        }),
{
}

/// Every tick of the active loop that does not end it pets the watchdog,
/// at the time of the tick, shows the mode, and asks for the short pause
/// of the active loop. The tick that ends the loop switches the eyes off
/// and does not pet.
pub proof fn lemma_active_pets_every_tick(
    s: ControlView,
    on_pressed: bool,
    mode_pressed: bool,
    now: nat,
)
    requires
        s.phase == Phase::Active,
    ensures
        ({
            let (after, step) = s.tick(on_pressed, mode_pressed, now);
            if step.phase == Phase::Active {
                &&& step.pet_watchdog
                &&& step.refresh_eyes
                &&& step.sleep_ms == ACTIVE_TICK_MS
                &&& after.badge.good_boy.last_pet == now
                &&& !after.badge.good_boy.starved(now)
                &&& after.badge.eye_left == s.badge.eye_left.showing(
                    frame_at(after.mode, now as int, s.badge.eye_left.max_duty).left.red,
                    frame_at(after.mode, now as int, s.badge.eye_left.max_duty).left.green,
                )
            } else {
                &&& !step.pet_watchdog
                &&& after.badge.good_boy == s.badge.good_boy
                &&& after.badge.eye_left == s.badge.eye_left.dark()
                &&& after.badge.eye_right == s.badge.eye_right.dark()
                &&& after.mode == s.mode
            }
        }),
{
}

} // verus!
