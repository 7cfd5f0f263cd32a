//! The siren of the interrupts program: driven by a timer interrupt every
//! half period of its tone, it toggles the speaker pin, and after a quarter
//! of a second on one tone it switches between 440 Hz and 660 Hz.

use vstd::prelude::*;

verus! {

/// A tone of the siren.
#[derive(Clone, Copy, Debug, PartialEq, Eq, Structural)]
pub enum Frequency {
    Hz440,
    Hz660,
}

impl Frequency {
    /// The frequency in hertz.
    pub open spec fn spec_hz(self) -> u32 {
        match self {
            Frequency::Hz440 => 440,
            Frequency::Hz660 => 660,
        }
    }

    /// The frequency in hertz.
    pub fn hz(self) -> (hz: u32)
        ensures
            hz == self.spec_hz(),
    {
        match self {
            Frequency::Hz440 => 440,
            Frequency::Hz660 => 660,
        }
    }

    /// The tone the siren switches to from this one.
    pub open spec fn other(self) -> Frequency {
        match self {
            Frequency::Hz440 => Frequency::Hz660,
            Frequency::Hz660 => Frequency::Hz440,
        }
    }
}

/// The period of `freq` in whole microseconds.
pub open spec fn spec_period_us(freq: Frequency) -> u32 {
    1_000_000u32 / freq.spec_hz()
}

/// How many half periods of `freq` fit, whole, in a quarter of a second.
pub open spec fn spec_half_period_cycles(freq: Frequency) -> u32 {
    ((2 * 250_000) as u32) / spec_period_us(freq)
}

/// What the siren asks of the hardware on a timer interrupt.
#[derive(Clone, Copy, Debug, PartialEq, Eq, Structural)]
pub enum SirenAction {
    /// Nothing: the siren is not running.
    Idle,
    /// Nothing on the pins: the siren has just switched to its other tone.
    Switched,
    /// Toggle the speaker pin and start the timer for this many
    /// microseconds (half a period of the tone).
    Toggle(u32),
}

/// The model of a [`Siren`].
pub struct SirenModel {
    pub freq: Frequency,
    pub half_period_cycles_left: u32,
    pub running: bool,
}

/// The state of the siren: its tone, how many half periods of it are left
/// to play, the period of the tone, and whether it runs.
pub struct Siren {
    freq: Frequency,
    half_period_cycles_left: u32,
    period_us: u32,
    running: bool,
}

impl Siren {
    #[verifier::type_invariant]
    spec fn well_formed(self) -> bool {
        self.period_us == spec_period_us(self.freq)
    }
}

impl View for Siren {
    type V = SirenModel;

    closed spec fn view(&self) -> SirenModel {
        SirenModel {
            freq: self.freq,
            half_period_cycles_left: self.half_period_cycles_left,
            running: self.running,
        }
    }
}

/// The siren after a timer interrupt, from `s`.
pub open spec fn siren_after_update(s: SirenModel) -> SirenModel {
    if !s.running {
        s
    } else if s.half_period_cycles_left == 0 {
        SirenModel {
            freq: s.freq.other(),
            half_period_cycles_left: spec_half_period_cycles(s.freq.other()),
            running: true,
        }
    } else {
        SirenModel { half_period_cycles_left: (s.half_period_cycles_left - 1) as u32, ..s }
    }
}

/// What the siren asks of the hardware on a timer interrupt, from `s`.
pub open spec fn siren_action(s: SirenModel) -> SirenAction {
    if !s.running {
        SirenAction::Idle
    } else if s.half_period_cycles_left == 0 {
        SirenAction::Switched
    } else {
        SirenAction::Toggle((spec_period_us(s.freq) / 2) as u32)
    }
}

/// Each tone plays for a quarter of a second, short of the rounding of its
/// period: the half periods counted for it, each as long as the timer is
/// set for, add up to between 249 and 250 milliseconds.
pub proof fn lemma_tone_lasts_quarter_second(freq: Frequency)
    ensures
        249_000 <= spec_half_period_cycles(freq) * (spec_period_us(freq) / 2) <= 250_000,
{
    assert(1_000_000u32 / 440u32 == 2272u32) by (nonlinear_arith);
    assert(1_000_000u32 / 660u32 == 1515u32) by (nonlinear_arith);
    assert(500_000u32 / 2272u32 == 220u32) by (nonlinear_arith);
    assert(500_000u32 / 1515u32 == 330u32) by (nonlinear_arith);
    assert(((2 * 250_000) as u32) == 500_000u32);
    match freq {
        Frequency::Hz440 => {
            assert(spec_period_us(freq) == 2272u32);
            assert(spec_half_period_cycles(freq) == 220u32);
            assert(220 * (2272u32 / 2) == 249_920);
        },
        Frequency::Hz660 => {
            assert(spec_period_us(freq) == 1515u32);
            assert(spec_half_period_cycles(freq) == 330u32);
            assert(330 * (1515u32 / 2) == 249_810);
        },
    }
}

/// The siren switches between its two tones and back.
pub proof fn lemma_tones_alternate(freq: Frequency)
    ensures
        freq.other() != freq,
        freq.other().other() == freq,
{
}

/// A stopped siren stays silent and unchanged on every interrupt; a
/// running one keeps running.
pub proof fn lemma_running_unchanged_by_update(s: SirenModel)
    ensures
        siren_after_update(s).running == s.running,
        !s.running ==> siren_after_update(s) == s && siren_action(s) == SirenAction::Idle,
{
}

impl Siren {
    /// The siren before it starts: 440 Hz, a full quarter second of it
    /// ahead, not running.
    pub fn new() -> (s: Self)
        ensures
            s@ == (SirenModel {
                freq: Frequency::Hz440,
                half_period_cycles_left: spec_half_period_cycles(Frequency::Hz440),
                running: false,
            }),
    {
        let freq = Frequency::Hz440;
        Siren {
            freq,
            half_period_cycles_left: Self::half_period_cycles_from(freq),
            period_us: Self::period_us(freq),
            running: false,
        }
    }

    /// Starts the siren; returns how many microseconds to start the timer
    /// for: half a period of the tone.
    pub fn start(&mut self) -> (timer_us: u32)
        ensures
            final(self)@ == (SirenModel { running: true, ..old(self)@ }),
            timer_us == spec_period_us(old(self)@.freq) / 2,
    {
        proof {
            use_type_invariant(&*self);
        }
        self.running = true;
        self.period_us / 2
    }

    /// Handles a timer interrupt: while running, toggles the speaker for
    /// each half period left, and switches tone when none is left.
    pub fn update(&mut self) -> (action: SirenAction)
        ensures
            action == siren_action(old(self)@),
            final(self)@ == siren_after_update(old(self)@),
    {
        proof {
            use_type_invariant(&*self);
        }
        if !self.running {
            return SirenAction::Idle;
        }
        if self.half_period_cycles_left == 0 {
            let freq = match self.freq {
                Frequency::Hz440 => Frequency::Hz660,
                Frequency::Hz660 => Frequency::Hz440,
            };
            *self = Siren {
                freq,
                half_period_cycles_left: Self::half_period_cycles_from(freq),
                period_us: Self::period_us(freq),
                running: true,
            };
            SirenAction::Switched
        } else {
            self.half_period_cycles_left = self.half_period_cycles_left - 1;
            SirenAction::Toggle(self.period_us / 2)
        }
    }

    /// Stops the siren: later interrupts do nothing.
    pub fn stop(&mut self)
        ensures
            final(self)@ == (SirenModel { running: false, ..old(self)@ }),
    {
        proof {
            use_type_invariant(&*self);
        }
        self.running = false;
    }

    /// How many half periods of `freq` fit in a quarter of a second.
    pub fn half_period_cycles_from(freq: Frequency) -> (cycles: u32)
        ensures
            cycles == spec_half_period_cycles(freq),
    {
        2 * 250_000 / Self::period_us(freq)
    }

    /// The period of `freq` in microseconds.
    pub fn period_us(freq: Frequency) -> (us: u32)
        ensures
            us == spec_period_us(freq),
    {
        1_000_000 / freq.hz()
    }
}

} // verus!
