//! The fixed, closed family of flexcomm instance identities, their
//! register-layout class and their hardwired capability sets.
//!
//! Fourteen instances share a uniform, index-addressed register layout and
//! support every protocol personality; two special instances have dedicated,
//! separately named registers and each supports exactly one personality.

use vstd::prelude::*;

verus! {

/// Marker trait sealing the configuration interface: only the identities
/// declared in this module carry a register-access strategy and capability
/// set, and external code has no way to add new ones.
pub trait Sealed {}

/// Protocol personality an instance's shared hardware logic can be switched
/// into.
#[derive(Copy, Clone, Debug, PartialEq, Eq, Structural)]
pub enum Mode {
    /// Serial (UART-style) operation.
    Usart,
    /// SPI operation.
    Spi,
    /// I2C operation.
    I2c,
    /// I2S transmit operation.
    I2sTransmit,
    /// I2S receive operation.
    I2sReceive,
}

/// One of the sixteen flexcomm instance identities.
///
/// Identities 0 through 13 use the uniform indexed register layout;
/// identities 14 and 15 are the special instances with dedicated registers.
#[derive(Copy, Clone, Debug, PartialEq, Eq, Structural)]
pub enum Instance {
    /// Flexcomm 0 (uniform layout).
    Flexcomm0,
    /// Flexcomm 1 (uniform layout).
    Flexcomm1,
    /// Flexcomm 2 (uniform layout).
    Flexcomm2,
    /// Flexcomm 3 (uniform layout).
    Flexcomm3,
    /// Flexcomm 4 (uniform layout).
    Flexcomm4,
    /// Flexcomm 5 (uniform layout).
    Flexcomm5,
    /// Flexcomm 6 (uniform layout).
    Flexcomm6,
    /// Flexcomm 7 (uniform layout).
    Flexcomm7,
    /// Flexcomm 8 (uniform layout).
    Flexcomm8,
    /// Flexcomm 9 (uniform layout).
    Flexcomm9,
    /// Flexcomm 10 (uniform layout).
    Flexcomm10,
    /// Flexcomm 11 (uniform layout).
    Flexcomm11,
    /// Flexcomm 12 (uniform layout).
    Flexcomm12,
    /// Flexcomm 13 (uniform layout).
    Flexcomm13,
    /// Flexcomm 14: special register layout, SPI-only.
    Flexcomm14,
    /// Flexcomm 15: special register layout, I2C-only.
    Flexcomm15,
}

impl Sealed for Instance {}

impl Instance {
    /// The slot this identity occupies in per-instance state tables.
    pub open spec fn spec_index(self) -> int {
        match self {
            Instance::Flexcomm0 => 0,
            Instance::Flexcomm1 => 1,
            Instance::Flexcomm2 => 2,
            Instance::Flexcomm3 => 3,
            Instance::Flexcomm4 => 4,
            Instance::Flexcomm5 => 5,
            Instance::Flexcomm6 => 6,
            Instance::Flexcomm7 => 7,
            Instance::Flexcomm8 => 8,
            Instance::Flexcomm9 => 9,
            Instance::Flexcomm10 => 10,
            Instance::Flexcomm11 => 11,
            Instance::Flexcomm12 => 12,
            Instance::Flexcomm13 => 13,
            Instance::Flexcomm14 => 14,
            Instance::Flexcomm15 => 15,
        }
    }

    /// Whether this identity uses the special, non-indexed register layout.
    pub open spec fn is_special(self) -> bool {
        self.spec_index() >= 14
    }

    /// The hardwired capability set: which personalities this instance's
    /// hardware is wired to support.
    pub open spec fn spec_supports(self, mode: Mode) -> bool {
        match self {
            Instance::Flexcomm14 => mode == Mode::Spi,
            Instance::Flexcomm15 => mode == Mode::I2c,
            _ => true,
        }
    }

    /// Computes this identity's state-table slot.
    pub fn index(&self) -> (idx: usize)
        ensures
            idx == self.spec_index(),
    {
        match self {
            Instance::Flexcomm0 => 0,
            Instance::Flexcomm1 => 1,
            Instance::Flexcomm2 => 2,
            Instance::Flexcomm3 => 3,
            Instance::Flexcomm4 => 4,
            Instance::Flexcomm5 => 5,
            Instance::Flexcomm6 => 6,
            Instance::Flexcomm7 => 7,
            Instance::Flexcomm8 => 8,
            Instance::Flexcomm9 => 9,
            Instance::Flexcomm10 => 10,
            Instance::Flexcomm11 => 11,
            Instance::Flexcomm12 => 12,
            Instance::Flexcomm13 => 13,
            Instance::Flexcomm14 => 14,
            Instance::Flexcomm15 => 15,
        }
    }

    /// Decides membership of `mode` in this instance's capability set.
    #[verifier::when_used_as_spec(spec_supports)]
    pub fn supports(self, mode: Mode) -> (r: bool)
        ensures
            r == self.spec_supports(mode),
    {
        match self {
            Instance::Flexcomm14 => matches!(mode, Mode::Spi),
            Instance::Flexcomm15 => matches!(mode, Mode::I2c),
            _ => true,
        }
    }
}

/// Every identity's state-table slot lies in the sixteen-entry range, and the
/// two special slots are held exactly by the two special identities.
pub proof fn lemma_index_facts(i: Instance)
    ensures
        0 <= i.spec_index() < 16,
        i.spec_index() == 14 <==> i == Instance::Flexcomm14,
        i.spec_index() == 15 <==> i == Instance::Flexcomm15,
{
}

/// Distinct identities occupy distinct state-table slots.
pub proof fn lemma_index_injective(a: Instance, b: Instance)
    ensures
        a.spec_index() == b.spec_index() ==> a == b,
{
}

} // verus!
