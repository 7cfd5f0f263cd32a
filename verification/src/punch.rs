//! The punch-o-meter: while the acceleration along X stays above 1 g the
//! latest reading is kept; when it falls back to 1 g or below, the kept
//! reading is reported once and forgotten.
//!
//! Readings are in milli-g, as the sensor gives them: a reading `x` is above
//! 1 g exactly when `x > 1000`, which is how `x / 1000` in floating point
//! compares with `1.0` for every 32-bit `x`.

use vstd::prelude::*;

verus! {

/// 1 g in milli-g: a punch is an acceleration above it.
pub const PUNCH_THRESHOLD_MG: i32 = 1000;

/// The reading kept after `x_mg` arrives when `kept` is kept.
pub open spec fn kept_after(kept: Option<i32>, x_mg: i32) -> Option<i32> {
    if x_mg > PUNCH_THRESHOLD_MG {
        Some(x_mg)
    } else {
        None
    }
}

/// The punch reported when `x_mg` arrives and `kept` is kept.
pub open spec fn report_for(kept: Option<i32>, x_mg: i32) -> Option<i32> {
    if x_mg > PUNCH_THRESHOLD_MG {
        None
    } else {
        kept
    }
}

/// A punch is reported exactly when a reading at or below 1 g follows one
/// above it, and the report is that earlier reading, whatever came before.
pub proof fn lemma_report_follows_previous_reading(kept: Option<i32>, previous: i32, x_mg: i32)
    ensures
        report_for(kept_after(kept, previous), x_mg) == (if x_mg <= PUNCH_THRESHOLD_MG
            && previous > PUNCH_THRESHOLD_MG {
            Some(previous)
        } else {
            None
        }),
{
}

/// The state of the punch-o-meter: the latest reading above 1 g since the
/// acceleration last fell to 1 g or below.
pub struct PunchMeter {
    last_above: Option<i32>,
}

impl PunchMeter {
    #[verifier::type_invariant]
    spec fn well_formed(self) -> bool {
        self.last_above matches Some(x) ==> x > PUNCH_THRESHOLD_MG
    }
}

impl View for PunchMeter {
    type V = Option<i32>;

    closed spec fn view(&self) -> Option<i32> {
        self.last_above
    }
}

impl PunchMeter {
    /// The punch-o-meter at start: no reading kept.
    pub fn new() -> (r: Self)
        ensures
            r@ == None::<i32>,
    {
        PunchMeter { last_above: None }
    }

    /// Takes one reading of the X acceleration in milli-g; returns the
    /// punch to report, if the acceleration has just fallen back.
    pub fn on_sample(&mut self, x_mg: i32) -> (report: Option<i32>)
        ensures
            report == report_for(old(self)@, x_mg),
            final(self)@ == kept_after(old(self)@, x_mg),
            report matches Some(p) ==> p > PUNCH_THRESHOLD_MG,
    {
        proof {
            use_type_invariant(&*self);
        }
        if x_mg > PUNCH_THRESHOLD_MG {
            self.last_above = Some(x_mg);
            None
        } else {
            let report = self.last_above;
            self.last_above = None;
            report
        }
    }
}

} // verus!
