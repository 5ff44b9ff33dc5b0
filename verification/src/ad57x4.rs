//! Quad channel topology.
//!
//! Four output channels sit at the contiguous address codes 0 to 3, and the
//! power control register carries one power-up flag per channel.

use vstd::prelude::*;

use crate::bits::{spec_bit16, spec_with_bit16};
use crate::command::{data_matches, Command, DacChannel, Data, Error, PowerRegister};
use crate::config::Config;
use crate::device::{Ad57xx, Ad57xxShared, SpiTransport};
use crate::frame::{spec_addr, spec_frame};
use crate::marker;

verus! {

/// DAC channel of the quad channel topology.
#[derive(Debug, Clone, Copy)]
pub enum ChannelQuad {
    /// DAC channel A (address code 0).
    DacA,
    /// DAC channel B (address code 1).
    DacB,
    /// DAC channel C (address code 2).
    DacC,
    /// DAC channel D (address code 3).
    DacD,
    /// All DAC channels at once (address code 4).
    AllDacs,
}

impl DacChannel for ChannelQuad {
    open spec fn spec_code(self) -> u8 {
        match self {
            ChannelQuad::DacA => 0,
            ChannelQuad::DacB => 1,
            ChannelQuad::DacC => 2,
            ChannelQuad::DacD => 3,
            ChannelQuad::AllDacs => 4,
        }
    }

    fn code(self) -> u8 {
        match self {
            ChannelQuad::DacA => 0,
            ChannelQuad::DacB => 1,
            ChannelQuad::DacC => 2,
            ChannelQuad::DacD => 3,
            ChannelQuad::AllDacs => 4,
        }
    }
}

impl From<ChannelQuad> for u8 {
    /// The 3-bit address code of the channel.
    fn from(value: ChannelQuad) -> (r: Self) {
        value.code()
    }
}

impl vstd::std_specs::convert::FromSpecImpl<ChannelQuad> for u8 {
    open spec fn obeys_from_spec() -> bool {
        true
    }

    open spec fn from_spec(value: ChannelQuad) -> u8 {
        value.spec_code()
    }
}

/// Mask of the channel A power-up flag (bit 0, width 1).
pub const PU_A_MASK: u16 = 0x0001;

/// Mask of the channel B power-up flag (bit 1, width 1).
pub const PU_B_MASK: u16 = 0x0002;

/// Mask of the channel C power-up flag (bit 2, width 1).
pub const PU_C_MASK: u16 = 0x0004;

/// Mask of the channel D power-up flag (bit 3, width 1; bit 4 is reserved).
pub const PU_D_MASK: u16 = 0x0008;

/// Mask of the thermal shutdown alert flag (bit 5, width 1; bit 6 is
/// reserved).
pub const TSD_MASK: u16 = 0x0020;

/// Mask of the channel A overcurrent alert flag (bit 7, width 1).
pub const OC_A_MASK: u16 = 0x0080;

/// Mask of the channel B overcurrent alert flag (bit 8, width 1).
pub const OC_B_MASK: u16 = 0x0100;

/// Mask of the channel C overcurrent alert flag (bit 9, width 1).
pub const OC_C_MASK: u16 = 0x0200;

/// Mask of the channel D overcurrent alert flag (bit 10, width 1; the
/// remaining bits are reserved).
pub const OC_D_MASK: u16 = 0x0400;

/// Definition of the power configuration register of the quad channel
/// topology, modelled as its raw 16-bit word.
///
/// Only the masked bits carry meaning; the reserved positions are carried
/// through unchanged so that the register is always written as the whole
/// atomic word the device expects.
#[derive(Debug, PartialEq, Eq, Structural, Clone, Copy)]
pub struct PowerConfigQuad {
    raw: u16,
}

impl PowerRegister for PowerConfigQuad {
    closed spec fn spec_raw(self) -> u16 {
        self.raw
    }

    closed spec fn spec_from_raw(raw: u16) -> Self {
        PowerConfigQuad { raw }
    }

    fn to_raw(self) -> u16 {
        self.raw
    }

    fn from_raw(raw: u16) -> Self {
        PowerConfigQuad { raw }
    }
}

impl PowerConfigQuad {
    /// An all-zero power configuration: every channel powered down, no
    /// alert flag set.
    pub fn new() -> (r: Self)
        ensures
            r.spec_raw() == 0,
    {
        PowerConfigQuad { raw: 0 }
    }

    /// Whether channel A is powered up.
    pub fn pu_a(&self) -> (b: bool)
        ensures
            b == spec_bit16(self.spec_raw(), PU_A_MASK),
    {
        self.raw & PU_A_MASK != 0
    }

    /// Whether channel B is powered up.
    pub fn pu_b(&self) -> (b: bool)
        ensures
            b == spec_bit16(self.spec_raw(), PU_B_MASK),
    {
        self.raw & PU_B_MASK != 0
    }

    /// Whether channel C is powered up.
    pub fn pu_c(&self) -> (b: bool)
        ensures
            b == spec_bit16(self.spec_raw(), PU_C_MASK),
    {
        self.raw & PU_C_MASK != 0
    }

    /// Whether channel D is powered up.
    pub fn pu_d(&self) -> (b: bool)
        ensures
            b == spec_bit16(self.spec_raw(), PU_D_MASK),
    {
        self.raw & PU_D_MASK != 0
    }

    /// Whether the device reported a thermal shutdown.
    pub fn tsd(&self) -> (b: bool)
        ensures
            b == spec_bit16(self.spec_raw(), TSD_MASK),
    {
        self.raw & TSD_MASK != 0
    }

    /// Whether the device reported an overcurrent on channel A.
    pub fn oc_a(&self) -> (b: bool)
        ensures
            b == spec_bit16(self.spec_raw(), OC_A_MASK),
    {
        self.raw & OC_A_MASK != 0
    }

    /// Whether the device reported an overcurrent on channel B.
    pub fn oc_b(&self) -> (b: bool)
        ensures
            b == spec_bit16(self.spec_raw(), OC_B_MASK),
    {
        self.raw & OC_B_MASK != 0
    }

    /// Whether the device reported an overcurrent on channel C.
    pub fn oc_c(&self) -> (b: bool)
        ensures
            b == spec_bit16(self.spec_raw(), OC_C_MASK),
    {
        self.raw & OC_C_MASK != 0
    }

    /// Whether the device reported an overcurrent on channel D.
    pub fn oc_d(&self) -> (b: bool)
        ensures
            b == spec_bit16(self.spec_raw(), OC_D_MASK),
    {
        self.raw & OC_D_MASK != 0
    }

    /// This configuration with the channel A power-up flag driven to
    /// `value`.
    pub fn with_pu_a(self, value: bool) -> (r: Self)
        ensures
            r.spec_raw() == spec_with_bit16(self.spec_raw(), PU_A_MASK, value),
    {
        PowerConfigQuad { raw: if value {
            self.raw | PU_A_MASK
        } else {
            self.raw & !PU_A_MASK
        } }
    }

    /// This configuration with the channel B power-up flag driven to
    /// `value`.
    pub fn with_pu_b(self, value: bool) -> (r: Self)
        ensures
            r.spec_raw() == spec_with_bit16(self.spec_raw(), PU_B_MASK, value),
    {
        PowerConfigQuad { raw: if value {
            self.raw | PU_B_MASK
        } else {
            self.raw & !PU_B_MASK
        } }
    }

    /// This configuration with the channel C power-up flag driven to
    /// `value`.
    pub fn with_pu_c(self, value: bool) -> (r: Self)
        ensures
            r.spec_raw() == spec_with_bit16(self.spec_raw(), PU_C_MASK, value),
    {
        PowerConfigQuad { raw: if value {
            self.raw | PU_C_MASK
        } else {
            self.raw & !PU_C_MASK
        } }
    }

    /// This configuration with the channel D power-up flag driven to
    /// `value`.
    pub fn with_pu_d(self, value: bool) -> (r: Self)
        ensures
            r.spec_raw() == spec_with_bit16(self.spec_raw(), PU_D_MASK, value),
    {
        PowerConfigQuad { raw: if value {
            self.raw | PU_D_MASK
        } else {
            self.raw & !PU_D_MASK
        } }
    }
}

impl Default for PowerConfigQuad {
    /// The all-zero power configuration.
    fn default() -> (r: Self)
        ensures
            r.spec_raw() == 0,
    {
        PowerConfigQuad::new()
    }
}

/// The raw power register word after powering `chan` up (or down) on the
/// quad channel topology: the flag of the selected channel — all four flags
/// for `AllDacs` — is driven to `pwr`, every other bit keeps its prior
/// value.
pub open spec fn spec_apply_power(raw: u16, chan: ChannelQuad, pwr: bool) -> u16 {
    match chan {
        ChannelQuad::DacA => spec_with_bit16(raw, PU_A_MASK, pwr),
        ChannelQuad::DacB => spec_with_bit16(raw, PU_B_MASK, pwr),
        ChannelQuad::DacC => spec_with_bit16(raw, PU_C_MASK, pwr),
        ChannelQuad::DacD => spec_with_bit16(raw, PU_D_MASK, pwr),
        ChannelQuad::AllDacs => spec_with_bit16(
            spec_with_bit16(
                spec_with_bit16(spec_with_bit16(raw, PU_A_MASK, pwr), PU_B_MASK, pwr),
                PU_C_MASK,
                pwr,
            ),
            PU_D_MASK,
            pwr,
        ),
    }
}

impl<DEV, E> Ad57xxShared<DEV, marker::Ad57x4> where DEV: SpiTransport<BusError = E> {
    /// Create a new quad channel AD57xx DAC on a shared SPI bus, with both
    /// shadow registers at their power-on defaults and the readback
    /// capability disabled.
    pub fn new_ad57x4(spi: DEV) -> (r: Self)
        ensures
            r.spec_bus() == spi,
            r.spec_cfg()@ == crate::config::CLAMP_ENABLE_MASK,
            r.spec_pcfg() == 0,
            !r.spec_readback(),
    {
        Self::create(spi)
    }

    /// Power up or down a single or all DAC channels, rewriting the whole
    /// power register based on the shadow copy (or on a fresh read of the
    /// device when the readback capability is enabled).
    ///
    /// After a power-up a settle time of 10 microseconds is required before
    /// loading the corresponding DAC register; the driver does not insert
    /// this delay itself.
    pub fn set_power(&mut self, chan: ChannelQuad, pwr: bool) -> (r: Result<(), Error<E>>)
        ensures
            final(self).spec_cfg() == old(self).spec_cfg(),
            final(self).spec_readback() == old(self).spec_readback(),
            r matches Err(e) ==> e is Spi,
            !old(self).spec_readback() ==> {
                &&& (r is Ok ==> final(self).spec_pcfg() == spec_apply_power(
                    old(self).spec_pcfg(),
                    chan,
                    pwr,
                ))
                &&& (r is Err ==> final(self).spec_pcfg() == old(self).spec_pcfg())
            },
            r is Ok ==> exists|base: u16|
                final(self).spec_pcfg() == #[trigger] spec_apply_power(base, chan, pwr),
    {
        let pcfg = match self.get_power_config() {
            Ok(pcfg) => pcfg,
            Err(e) => {
                return Err(e);
            },
        };
        let ghost base: u16 = pcfg.spec_raw();
        let updated = match chan {
            ChannelQuad::DacA => pcfg.with_pu_a(pwr),
            ChannelQuad::DacB => pcfg.with_pu_b(pwr),
            ChannelQuad::DacC => pcfg.with_pu_c(pwr),
            ChannelQuad::DacD => pcfg.with_pu_d(pwr),
            ChannelQuad::AllDacs => pcfg.with_pu_a(pwr).with_pu_b(pwr).with_pu_c(pwr).with_pu_d(
                pwr,
            ),
        };
        let r = self.set_power_config(updated);
        proof {
            if r is Ok {
                assert(self.spec_pcfg() == spec_apply_power(base, chan, pwr));
            }
        }
        r
    }
}

impl<DEV: SpiTransport> Ad57xx<DEV, DEV::BusError> for Ad57xxShared<DEV, marker::Ad57x4> {
    type CH = ChannelQuad;

    type PCFG = PowerConfigQuad;

    open spec fn cfg_shadow(self) -> Config {
        self.spec_cfg()
    }

    open spec fn pcfg_shadow(self) -> u16 {
        self.spec_pcfg()
    }

    open spec fn readback_on(self) -> bool {
        self.spec_readback()
    }

    fn spi_write(&mut self, payload: &[u8; 3]) -> Result<(), Error<DEV::BusError>> {
        self.spi_write_any(payload)
    }

    fn spi_read(&mut self, cmd: u8) -> Result<u16, Error<DEV::BusError>> {
        self.spi_read_any(cmd)
    }

    fn write(&mut self, cmd: Command<ChannelQuad>, data: Data<PowerConfigQuad>) -> Result<
        (),
        Error<DEV::BusError>,
    > {
        self.write_any(cmd, data)
    }

    fn read(&mut self, cmd: Command<ChannelQuad>) -> Result<
        Data<PowerConfigQuad>,
        Error<DEV::BusError>,
    > {
        self.read_any(cmd)
    }

    fn get_config(&mut self) -> Result<Config, Error<DEV::BusError>> {
        self.get_config_any::<ChannelQuad, PowerConfigQuad, DEV::BusError>()
    }

    fn get_power_config(&mut self) -> Result<PowerConfigQuad, Error<DEV::BusError>> {
        self.get_power_config_any::<ChannelQuad, PowerConfigQuad, DEV::BusError>()
    }
}

/// On the quad channel topology, `AllDacs` always encodes as address 4: for
/// every command addressing all DACs, the address field of the command byte
/// of every frame it encodes is 4, independent of the channel count.
pub proof fn lemma_all_dacs_address(cmd: Command<ChannelQuad>)
    requires
        cmd == Command::<ChannelQuad>::DacRegister(ChannelQuad::AllDacs) || cmd == Command::<
            ChannelQuad,
        >::RangeSelectRegister(ChannelQuad::AllDacs),
    ensures
        spec_addr(cmd) == 4,
        forall|data: Data<PowerConfigQuad>|
            data_matches(cmd, data) ==> #[trigger] spec_frame(cmd, data)[0] % 8 == 4,
{
}

/// Powering all DACs up or down touches exactly the four power-up flags of
/// the quad channel topology: all four are driven to the requested level,
/// and every bit outside the four masks — the reserved positions and the
/// alert flags — keeps its prior value.
pub proof fn lemma_power_all_dacs(raw: u16, pwr: bool)
    ensures
        spec_bit16(spec_apply_power(raw, ChannelQuad::AllDacs, pwr), PU_A_MASK) == pwr,
        spec_bit16(spec_apply_power(raw, ChannelQuad::AllDacs, pwr), PU_B_MASK) == pwr,
        spec_bit16(spec_apply_power(raw, ChannelQuad::AllDacs, pwr), PU_C_MASK) == pwr,
        spec_bit16(spec_apply_power(raw, ChannelQuad::AllDacs, pwr), PU_D_MASK) == pwr,
        forall|mask: u16|
            mask & (PU_A_MASK | PU_B_MASK | PU_C_MASK | PU_D_MASK) == 0 ==> #[trigger] spec_bit16(
                spec_apply_power(raw, ChannelQuad::AllDacs, pwr),
                mask,
            ) == spec_bit16(raw, mask),
{
    let r = spec_apply_power(raw, ChannelQuad::AllDacs, pwr);
    if pwr {
        assert(r == (((raw | PU_A_MASK) | PU_B_MASK) | PU_C_MASK) | PU_D_MASK);
        assert((((((raw | 0x0001) | 0x0002) | 0x0004) | 0x0008) & 0x0001 != 0) && (((((raw
            | 0x0001) | 0x0002) | 0x0004) | 0x0008) & 0x0002 != 0) && (((((raw | 0x0001) | 0x0002)
            | 0x0004) | 0x0008) & 0x0004 != 0) && (((((raw | 0x0001) | 0x0002) | 0x0004) | 0x0008)
            & 0x0008 != 0)) by (bit_vector);
        assert forall|mask: u16|
            mask & (PU_A_MASK | PU_B_MASK | PU_C_MASK | PU_D_MASK) == 0 implies #[trigger] spec_bit16(
            r,
            mask,
        ) == spec_bit16(raw, mask) by {
            assert(mask & (0x0001u16 | 0x0002 | 0x0004 | 0x0008) == 0 ==> ((((((raw | 0x0001)
                | 0x0002) | 0x0004) | 0x0008) & mask)) == (raw & mask)) by (bit_vector);
        }
    } else {
        assert(r == (((raw & !PU_A_MASK) & !PU_B_MASK) & !PU_C_MASK) & !PU_D_MASK);
        assert((((((raw & !0x0001u16) & !0x0002) & !0x0004) & !0x0008) & 0x0001 == 0) && (((((raw
            & !0x0001u16) & !0x0002) & !0x0004) & !0x0008) & 0x0002 == 0) && (((((raw & !0x0001u16)
            & !0x0002) & !0x0004) & !0x0008) & 0x0004 == 0) && (((((raw & !0x0001u16) & !0x0002)
            & !0x0004) & !0x0008) & 0x0008 == 0)) by (bit_vector);
        assert forall|mask: u16|
            mask & (PU_A_MASK | PU_B_MASK | PU_C_MASK | PU_D_MASK) == 0 implies #[trigger] spec_bit16(
            r,
            mask,
        ) == spec_bit16(raw, mask) by {
            assert(mask & (0x0001u16 | 0x0002 | 0x0004 | 0x0008) == 0 ==> ((((((raw & !0x0001u16)
                & !0x0002) & !0x0004) & !0x0008) & mask)) == (raw & mask)) by (bit_vector);
        }
    }
}

} // verus!
