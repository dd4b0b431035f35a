//! Clock-source selection and its mapping onto the two per-instance muxes.
//!
//! Every flexcomm instance is fed through a primary clock-select mux and,
//! when a generator-fed source is chosen, through a secondary mux that picks
//! the upstream reference of the instance's fractional-rate generator.

use vstd::prelude::*;

verus! {

/// Clock selection option for enabling a flexcomm instance.
#[derive(Copy, Clone, Debug, PartialEq, Eq, Structural)]
pub enum Clock {
    /// Free-running oscillator reference (SFRO).
    Sfro,
    /// Free-running oscillator reference (FFRO).
    Ffro,
    /// Audio-PLL-derived reference.
    AudioPll,
    /// System master clock.
    Master,
    /// Fractional-rate generator fed by the main clock.
    FcnFrgMain,
    /// Fractional-rate generator fed by the PLL reference.
    FcnFrgPll,
    /// Fractional-rate generator fed by SFRO.
    FcnFrgSfro,
    /// Fractional-rate generator fed by FFRO.
    FcnFrgFfro,
    /// No clock: the instance is left disabled.
    Disabled,
}

/// Value held by an instance's primary clock-select mux register.
#[derive(Copy, Clone, Debug, PartialEq, Eq, Structural)]
pub enum FcSel {
    /// SFRO oscillator output.
    Sfro,
    /// FFRO oscillator output.
    Ffro,
    /// Audio-PLL output.
    AudioPll,
    /// System master clock.
    Master,
    /// Output of the instance's fractional-rate generator.
    FcnFrg,
    /// No upstream selected.
    Off,
}

/// Value held by an instance's fractional-rate-generator mux register.
#[derive(Copy, Clone, Debug, PartialEq, Eq, Structural)]
pub enum FrgSel {
    /// Main clock.
    Main,
    /// PLL reference.
    Pll,
    /// SFRO oscillator output.
    Sfro,
    /// FFRO oscillator output.
    Ffro,
    /// No upstream selected.
    Off,
}

/// The primary-mux selection that enabling with `clock` programs.
pub open spec fn primary_sel(clock: Clock) -> FcSel {
    match clock {
        Clock::Sfro => FcSel::Sfro,
        Clock::Ffro => FcSel::Ffro,
        Clock::AudioPll => FcSel::AudioPll,
        Clock::Master => FcSel::Master,
        Clock::FcnFrgMain => FcSel::FcnFrg,
        Clock::FcnFrgPll => FcSel::FcnFrg,
        Clock::FcnFrgSfro => FcSel::FcnFrg,
        Clock::FcnFrgFfro => FcSel::FcnFrg,
        Clock::Disabled => FcSel::Off,
    }
}

/// The generator-mux selection that enabling with `clock` programs: the
/// matching upstream for the four generator-fed sources, "off" otherwise.
pub open spec fn frg_sel(clock: Clock) -> FrgSel {
    match clock {
        Clock::FcnFrgMain => FrgSel::Main,
        Clock::FcnFrgPll => FrgSel::Pll,
        Clock::FcnFrgSfro => FrgSel::Sfro,
        Clock::FcnFrgFfro => FrgSel::Ffro,
        _ => FrgSel::Off,
    }
}

/// Whether `clock` routes the instance through its fractional-rate generator.
pub open spec fn uses_frg(clock: Clock) -> bool {
    frg_sel(clock) != FrgSel::Off
}

/// Computes the primary-mux selection for `clock`.
pub fn primary_sel_of(clock: Clock) -> (sel: FcSel)
    ensures
        sel == primary_sel(clock),
{
    match clock {
        Clock::Sfro => FcSel::Sfro,
        Clock::Ffro => FcSel::Ffro,
        Clock::AudioPll => FcSel::AudioPll,
        Clock::Master => FcSel::Master,
        Clock::FcnFrgMain => FcSel::FcnFrg,
        Clock::FcnFrgPll => FcSel::FcnFrg,
        Clock::FcnFrgSfro => FcSel::FcnFrg,
        Clock::FcnFrgFfro => FcSel::FcnFrg,
        Clock::Disabled => FcSel::Off,
    }
}

/// Computes the generator-mux selection for `clock`.
pub fn frg_sel_of(clock: Clock) -> (sel: FrgSel)
    ensures
        sel == frg_sel(clock),
{
    match clock {
        Clock::FcnFrgMain => FrgSel::Main,
        Clock::FcnFrgPll => FrgSel::Pll,
        Clock::FcnFrgSfro => FrgSel::Sfro,
        Clock::FcnFrgFfro => FrgSel::Ffro,
        _ => FrgSel::Off,
    }
}

} // verus!
