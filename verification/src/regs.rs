//! Model of the clock-control register surface this core programs.
//!
//! The fourteen uniform instances share an index-addressed array of clock
//! registers; the two special instances expose separately named mux and
//! generator-control registers, mirrored here as dedicated fields.

use vstd::prelude::*;
use crate::clock::FcSel;
use crate::clock::FrgSel;

verus! {

/// The clock registers of one uniform flexcomm instance: primary clock-select
/// mux, fractional-rate-generator mux, and generator multiplier.
#[derive(Copy, Clone, Debug, PartialEq, Eq, Structural)]
pub struct FcClockRegs {
    /// Primary clock-select mux.
    pub fclksel: FcSel,
    /// Fractional-rate-generator upstream mux.
    pub frgclksel: FrgSel,
    /// Fractional-rate-generator multiplier.
    pub frg_mult: u8,
}

impl FcClockRegs {
    /// Register contents at reset: both muxes off, neutral multiplier.
    pub open spec fn spec_reset() -> FcClockRegs {
        FcClockRegs { fclksel: FcSel::Off, frgclksel: FrgSel::Off, frg_mult: 0 }
    }

    /// Builds the reset-value register contents.
    pub fn reset() -> (r: FcClockRegs)
        ensures
            r == FcClockRegs::spec_reset(),
    {
        FcClockRegs { fclksel: FcSel::Off, frgclksel: FrgSel::Off, frg_mult: 0 }
    }
}

/// The shared clock-control block: one indexed register set per uniform
/// instance, plus the dedicated registers of the two special instances.
pub struct ClockCtl {
    /// Indexed clock registers of the fourteen uniform instances.
    pub flexcomm: Vec<FcClockRegs>,
    /// Primary clock-select mux of special instance 14.
    pub fc14_fclksel: FcSel,
    /// Generator mux of special instance 14.
    pub frg14_clksel: FrgSel,
    /// Generator multiplier of special instance 14.
    pub frg14_mult: u8,
    /// Primary clock-select mux of special instance 15.
    pub fc15_fclksel: FcSel,
    /// Generator mux of special instance 15.
    pub frg15_clksel: FrgSel,
    /// Generator multiplier of special instance 15.
    pub frg15_mult: u8,
}

impl ClockCtl {
    /// The indexed array covers exactly the fourteen uniform instances.
    pub open spec fn wf(self) -> bool {
        self.flexcomm.len() == 14
    }

    /// The clock registers that slot `idx` observes, independent of whether
    /// they live in the indexed array or in the special instances' dedicated
    /// fields.
    pub open spec fn regs_at(self, idx: int) -> FcClockRegs {
        if idx == 14 {
            FcClockRegs {
                fclksel: self.fc14_fclksel,
                frgclksel: self.frg14_clksel,
                frg_mult: self.frg14_mult,
            }
        } else if idx == 15 {
            FcClockRegs {
                fclksel: self.fc15_fclksel,
                frgclksel: self.frg15_clksel,
                frg_mult: self.frg15_mult,
            }
        } else {
            self.flexcomm[idx]
        }
    }

    /// Builds the clock-control block in its reset state.
    pub fn new() -> (c: ClockCtl)
        ensures
            c.wf(),
            forall|idx: int| 0 <= idx < 16 ==> c.regs_at(idx) == FcClockRegs::spec_reset(),
    {
        let mut flexcomm: Vec<FcClockRegs> = Vec::new();
        let mut k: usize = 0;
        while k < 14
            invariant
                flexcomm.len() == k,
                k <= 14,
                forall|j: int| 0 <= j < k ==> flexcomm[j] == FcClockRegs::spec_reset(),
            decreases 14 - k,
        {
            flexcomm.push(FcClockRegs::reset());
            k = k + 1;
        }
        ClockCtl {
            flexcomm,
            fc14_fclksel: FcSel::Off,
            frg14_clksel: FrgSel::Off,
            frg14_mult: 0,
            fc15_fclksel: FcSel::Off,
            frg15_clksel: FrgSel::Off,
            frg15_mult: 0,
        }
    }
}

} // verus!
