//! The configuration held in the control register.
//!
//! The register is modelled as its raw byte; the semantic bits occupy the low
//! nibble, the remaining bits are carried through unchanged.

use vstd::prelude::*;

use crate::bits::{spec_bit8, spec_with_bit8};

verus! {

/// Mask of the SDO disable flag (bit 0, width 1).
pub const SDO_DISABLE_MASK: u8 = 0x01;

/// Mask of the clear select flag (bit 1, width 1).
pub const CLR_SELECT_MASK: u8 = 0x02;

/// Mask of the current-limit clamp enable flag (bit 2, width 1).
pub const CLAMP_ENABLE_MASK: u8 = 0x04;

/// Mask of the thermal shutdown enable flag (bit 3, width 1).
pub const TSD_ENABLE_MASK: u8 = 0x08;

/// Definition of the configuration in the control register.
///
/// The view of a `Config` is its raw byte.
#[derive(Debug, PartialEq, Eq, Structural, Clone, Copy)]
pub struct Config {
    bits: u8,
}

impl View for Config {
    type V = u8;

    closed spec fn view(&self) -> u8 {
        self.bits
    }
}

impl Config {
    /// The configuration holding the raw byte `bits`.
    pub closed spec fn spec_from_raw(bits: u8) -> Config {
        Config { bits }
    }

    /// A configuration with the power-on defaults: only the current-limit
    /// clamp is enabled.
    pub fn new() -> (r: Self)
        ensures
            r@ == CLAMP_ENABLE_MASK,
    {
        Config { bits: CLAMP_ENABLE_MASK }
    }

    /// The configuration holding the raw byte `bits`, all eight bits kept.
    pub fn from_bits(bits: u8) -> (r: Self)
        ensures
            r == Config::spec_from_raw(bits),
            r@ == bits,
    {
        Config { bits }
    }

    /// The raw byte of the configuration.
    pub fn to_bits(&self) -> (r: u8)
        ensures
            r == self@,
    {
        self.bits
    }

    /// Set by the user to disable the SDO output; cleared to enable it
    /// (default).
    pub fn sdo_disable(&self) -> (b: bool)
        ensures
            b == spec_bit8(self@, SDO_DISABLE_MASK),
    {
        self.bits & SDO_DISABLE_MASK != 0
    }

    /// Sets the output voltage after a clear operation: zero scale when
    /// cleared (default), midscale (unipolar) or negative full scale
    /// (bipolar) when set.
    pub fn clr_select(&self) -> (b: bool)
        ensures
            b == spec_bit8(self@, CLR_SELECT_MASK),
    {
        self.bits & CLR_SELECT_MASK != 0
    }

    /// Set by the user to enable the 20 mA current-limit clamp (default).
    pub fn clamp_enable(&self) -> (b: bool)
        ensures
            b == spec_bit8(self@, CLAMP_ENABLE_MASK),
    {
        self.bits & CLAMP_ENABLE_MASK != 0
    }

    /// Set by the user to enable the thermal shutdown feature; cleared to
    /// disable it (default).
    pub fn tsd_enable(&self) -> (b: bool)
        ensures
            b == spec_bit8(self@, TSD_ENABLE_MASK),
    {
        self.bits & TSD_ENABLE_MASK != 0
    }

    /// This configuration with the SDO disable flag driven to `value`.
    pub fn with_sdo_disable(self, value: bool) -> (r: Self)
        ensures
            r@ == spec_with_bit8(self@, SDO_DISABLE_MASK, value),
    {
        Config { bits: if value {
            self.bits | SDO_DISABLE_MASK
        } else {
            self.bits & !SDO_DISABLE_MASK
        } }
    }

    /// This configuration with the clear select flag driven to `value`.
    pub fn with_clr_select(self, value: bool) -> (r: Self)
        ensures
            r@ == spec_with_bit8(self@, CLR_SELECT_MASK, value),
    {
        Config { bits: if value {
            self.bits | CLR_SELECT_MASK
        } else {
            self.bits & !CLR_SELECT_MASK
        } }
    }

    /// This configuration with the clamp enable flag driven to `value`.
    pub fn with_clamp_enable(self, value: bool) -> (r: Self)
        ensures
            r@ == spec_with_bit8(self@, CLAMP_ENABLE_MASK, value),
    {
        Config { bits: if value {
            self.bits | CLAMP_ENABLE_MASK
        } else {
            self.bits & !CLAMP_ENABLE_MASK
        } }
    }

    /// This configuration with the thermal shutdown flag driven to `value`.
    pub fn with_tsd_enable(self, value: bool) -> (r: Self)
        ensures
            r@ == spec_with_bit8(self@, TSD_ENABLE_MASK, value),
    {
        Config { bits: if value {
            self.bits | TSD_ENABLE_MASK
        } else {
            self.bits & !TSD_ENABLE_MASK
        } }
    }
}

impl Default for Config {
    /// The power-on default configuration: only the clamp is enabled.
    fn default() -> (r: Self)
        ensures
            r@ == CLAMP_ENABLE_MASK,
    {
        Config::new()
    }
}

impl From<u8> for Config {
    /// The configuration holding the raw byte `bits`, all eight bits kept.
    fn from(bits: u8) -> (r: Self) {
        Config::from_bits(bits)
    }
}

impl vstd::std_specs::convert::FromSpecImpl<u8> for Config {
    open spec fn obeys_from_spec() -> bool {
        true
    }

    open spec fn from_spec(bits: u8) -> Config {
        Config::spec_from_raw(bits)
    }
}

impl From<Config> for u8 {
    /// The raw byte of the configuration.
    fn from(cfg: Config) -> (r: Self) {
        cfg.to_bits()
    }
}

impl vstd::std_specs::convert::FromSpecImpl<Config> for u8 {
    open spec fn obeys_from_spec() -> bool {
        true
    }

    open spec fn from_spec(cfg: Config) -> u8 {
        cfg@
    }
}

/// The raw byte of `Config::spec_from_raw(bits)` is `bits` itself: reading a
/// configuration back from its raw byte loses nothing.
pub proof fn lemma_config_raw_round_trip(bits: u8)
    ensures
        Config::spec_from_raw(bits)@ == bits,
{
}

/// Two configurations with the same raw byte are the same configuration.
pub proof fn lemma_config_view_injective(a: Config, b: Config)
    requires
        a@ == b@,
    ensures
        a == b,
{
}

} // verus!
