use vstd::arithmetic::div_mod::lemma_div_is_ordered;
use vstd::arithmetic::div_mod::lemma_div_is_ordered_by_denominator;
use vstd::arithmetic::div_mod::lemma_div_pos_is_pos;
use vstd::arithmetic::mul::lemma_mul_inequality;
use vstd::arithmetic::mul::lemma_mul_upper_bound;
use vstd::prelude::*;

use crate::errors::TimeError;

verus! {

/// The result of the one-time frequency calibration: either the
/// cycles-per-time ratio the hardware reported, or a permanent record that
/// the hardware does not expose the needed capability.
#[derive(Clone, Copy, Debug, PartialEq, Eq, Structural)]
pub enum Frequency {
    Known(u64),
    Unsupported,
}

/// What calibration derives from the three words of the hardware capability
/// query: `Unsupported` if any word is zero, otherwise the ratio
/// `ecx * ebx / eax`.
pub open spec fn calibration_of(eax: u32, ebx: u32, ecx: u32) -> Frequency {
    if eax == 0 || ebx == 0 || ecx == 0 {
        Frequency::Unsupported
    } else {
        Frequency::Known(((ecx as int) * (ebx as int) / (eax as int)) as u64)
    }
}

/// The nanosecond reading derived from a raw cycle count and a calibrated
/// ratio: `cycles * 1000 / ratio`.
pub open spec fn ns_of(cycles: u64, ratio: u64) -> int
    recommends
        ratio > 0,
{
    cycles * 1000 / (ratio as int)
}

/// A monotonic clock over a hardware cycle counter. The frequency is
/// calibrated lazily, at most once, and memoized; the caller supplies the
/// raw words of the capability query and the raw counter readings, and this
/// type does all the arithmetic.
pub struct ClockSource {
    frequency: Option<Frequency>,
}

impl View for ClockSource {
    type V = Option<Frequency>;

    closed spec fn view(&self) -> Option<Frequency> {
        self.frequency
    }
}

impl ClockSource {
    /// True once calibration has run, whatever its outcome.
    pub open spec fn calibrated(self) -> bool {
        self@ is Some
    }

    /// True when calibration succeeded with a positive ratio, so that
    /// readings can be computed at all.
    pub open spec fn usable(self) -> bool {
        self@ matches Some(Frequency::Known(f)) && f > 0
    }

    /// The calibrated ratio of a usable clock.
    pub open spec fn ratio(self) -> u64
        recommends
            self.usable(),
    {
        match self@ {
            Some(Frequency::Known(f)) => f,
            _ => 0,
        }
    }

    pub fn new() -> (s: ClockSource)
        ensures
            !s.calibrated(),
    {
        ClockSource { frequency: None }
    }

    /// Record the outcome of the hardware capability query. The first call
    /// decides and memoizes the frequency; every later call leaves the
    /// memoized value in place and returns it, whatever words it was given.
    pub fn calibrate(&mut self, eax: u32, ebx: u32, ecx: u32) -> (f: Frequency)
        ensures
            final(self).calibrated(),
            old(self).calibrated() ==> final(self)@ == old(self)@ && old(self)@ == Some(f),
            !old(self).calibrated() ==> f == calibration_of(eax, ebx, ecx) && final(self)@
                == Some(calibration_of(eax, ebx, ecx)),
    {
        match self.frequency {
            Some(f) => f,
            None => {
                let f = if eax == 0 || ebx == 0 || ecx == 0 {
                    Frequency::Unsupported
                } else {
                    proof {
                        lemma_mul_upper_bound(ecx as int, u32::MAX as int, ebx as int, u32::MAX as int);
                    }
                    let prod: u64 = (ecx as u64) * (ebx as u64);
                    Frequency::Known(prod / (eax as u64))
                };
                self.frequency = Some(f);
                f
            },
        }
    }

    /// Convert one raw counter reading to nanoseconds. The clock must have
    /// been calibrated; a zero ratio or a product past the 64-bit range
    /// would make the arithmetic meaningless, so those readings are ruled
    /// out. Exactly when calibration recorded `Unsupported`, the reading
    /// fails with `CalibrationUnsupported`.
    pub fn now(&self, cycles: u64) -> (r: Result<u64, TimeError>)
        requires
            self.calibrated(),
            self@ matches Some(Frequency::Known(f)) ==> f > 0 && cycles * 1000 <= u64::MAX,
        ensures
            self@ == Some(Frequency::Unsupported) <==> r == Err::<u64, TimeError>(
                TimeError::CalibrationUnsupported,
            ),
            self.usable() ==> r == Ok::<u64, TimeError>(ns_of(cycles, self.ratio()) as u64),
    {
        match self.frequency {
            Some(Frequency::Known(f)) => Ok(cycles * 1000 / f),
            Some(Frequency::Unsupported) => Err(TimeError::CalibrationUnsupported),
            None => vstd::pervasive::unreached(),
        }
    }
}

/// Monotonicity of the clock: while the raw counter has not wrapped (so its
/// readings do not decrease), the derived nanosecond readings do not
/// decrease either, and where the products stay within the 64-bit range,
/// the same holds of the exact values that `now` returns.
pub proof fn lemma_now_nondecreasing(c1: u64, c2: u64, ratio: u64)
    requires
        c1 <= c2,
        ratio > 0,
    ensures
        ns_of(c1, ratio) <= ns_of(c2, ratio),
        c2 * 1000 <= u64::MAX ==> ns_of(c1, ratio) as u64 <= ns_of(c2, ratio) as u64,
{
    lemma_mul_inequality(c1 as int, c2 as int, 1000);
    lemma_div_is_ordered(c1 as int * 1000, c2 as int * 1000, ratio as int);
    lemma_div_pos_is_pos(c1 as int * 1000, ratio as int);
    lemma_div_is_ordered_by_denominator(c2 as int * 1000, 1, ratio as int);
}

} // verus!
