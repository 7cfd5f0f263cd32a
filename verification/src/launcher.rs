//! The launcher of the interrupts program: a second timer interrupts once a
//! second and counts down from 10; the interrupt after the one that reached
//! 0 launches, which stops the siren.

use vstd::prelude::*;
use crate::siren::{Siren, SirenModel};

verus! {

/// How many seconds the countdown counts.
pub const COUNTDOWN_TICKS: u8 = 10;

/// One second, the time between two countdown interrupts, in microseconds.
pub const TICK_US: u32 = 1_000_000;

/// What the launcher asks of the hardware on a timer interrupt.
#[derive(Clone, Copy, Debug, PartialEq, Eq, Structural)]
pub enum LaunchAction {
    /// Start the timer again for this many microseconds.
    Tick(u32),
    /// Launch: mask the launcher's interrupt; the siren has been stopped.
    Launch,
}

/// The ticks left after an interrupt that finds `ticks` left.
pub open spec fn ticks_after(ticks: nat) -> nat {
    if ticks > 0 {
        (ticks - 1) as nat
    } else {
        0
    }
}

/// The ticks left after `n` interrupts that start from `ticks` left.
pub open spec fn ticks_after_interrupts(ticks: nat, n: nat) -> nat
    decreases n,
{
    if n == 0 {
        ticks
    } else {
        ticks_after(ticks_after_interrupts(ticks, (n - 1) as nat))
    }
}

/// What an interrupt that finds `ticks` left asks for.
pub open spec fn launch_action(ticks: nat) -> LaunchAction {
    if ticks > 0 {
        LaunchAction::Tick(TICK_US)
    } else {
        LaunchAction::Launch
    }
}

/// The countdown runs down one tick per interrupt: after `n` interrupts,
/// `ticks - n` are left while `n <= ticks`, and none after that; so the
/// interrupts that find a tick left are exactly the first `ticks`, and
/// every later one launches.
pub proof fn lemma_countdown(ticks: nat, n: nat)
    ensures
        ticks_after_interrupts(ticks, n) == (if n <= ticks {
            (ticks - n) as nat
        } else {
            0nat
        }),
        launch_action(ticks_after_interrupts(ticks, n)) == (if n < ticks {
            LaunchAction::Tick(TICK_US)
        } else {
            LaunchAction::Launch
        }),
    decreases n,
{
    if n > 0 {
        lemma_countdown(ticks, (n - 1) as nat);
    }
}

/// The state of the launcher: the seconds left to count.
pub struct Launcher {
    ticks_left: u8,
}

impl View for Launcher {
    type V = nat;

    closed spec fn view(&self) -> nat {
        self.ticks_left as nat
    }
}

impl Launcher {
    /// The launcher before its countdown: 10 seconds left.
    pub fn new() -> (l: Self)
        ensures
            l@ == COUNTDOWN_TICKS,
    {
        Launcher { ticks_left: COUNTDOWN_TICKS }
    }

    /// Starts the countdown; returns how many microseconds to start the
    /// timer for: one second.
    pub fn start(&self) -> (timer_us: u32)
        ensures
            timer_us == TICK_US,
    {
        TICK_US
    }

    /// The seconds left, which the interrupt prints before counting down.
    pub fn ticks_left(&self) -> (ticks: u8)
        ensures
            ticks == self@,
    {
        self.ticks_left
    }

    /// Handles a timer interrupt: counts one second down while any is left,
    /// else launches and stops the siren.
    pub fn count_down(&mut self, siren: &mut Siren) -> (action: LaunchAction)
        ensures
            action == launch_action(old(self)@),
            final(self)@ == ticks_after(old(self)@),
            old(self)@ > 0 ==> final(siren)@ == old(siren)@,
            old(self)@ == 0 ==> final(siren)@ == (SirenModel { running: false, ..old(siren)@ }),
    {
        if self.ticks_left > 0 {
            self.ticks_left = self.ticks_left - 1;
            LaunchAction::Tick(TICK_US)
        } else {
            siren.stop();
            LaunchAction::Launch
        }
    }
}

} // verus!
