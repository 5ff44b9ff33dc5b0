//! Dual channel topology.
//!
//! Two output channels sit at address codes 0 and 2: the odd codes are
//! reserved so that the bit positions of the power control register stay
//! aligned with the quad channel parts.

use vstd::prelude::*;

use crate::bits::{spec_bit16, spec_with_bit16};
use crate::command::{data_matches, Command, DacChannel, Data, Error, PowerRegister};
use crate::config::Config;
use crate::device::{Ad57xx, Ad57xxShared, SpiTransport};
use crate::frame::{spec_addr, spec_frame};
use crate::marker;

verus! {

/// DAC channel of the dual channel topology.
#[derive(Debug, Clone, Copy)]
pub enum ChannelDual {
    /// DAC channel A (address code 0).
    DacA,
    /// DAC channel B (address code 2; code 1 is reserved).
    DacB,
    /// All DAC channels at once (address code 4).
    AllDacs,
}

impl DacChannel for ChannelDual {
    open spec fn spec_code(self) -> u8 {
        match self {
            ChannelDual::DacA => 0,
            ChannelDual::DacB => 2,
            ChannelDual::AllDacs => 4,
        }
    }

    fn code(self) -> u8 {
        match self {
            ChannelDual::DacA => 0,
            ChannelDual::DacB => 2,
            ChannelDual::AllDacs => 4,
        }
    }
}

impl From<ChannelDual> for u8 {
    /// The 3-bit address code of the channel.
    fn from(value: ChannelDual) -> (r: Self) {
        value.code()
    }
}

impl vstd::std_specs::convert::FromSpecImpl<ChannelDual> for u8 {
    open spec fn obeys_from_spec() -> bool {
        true
    }

    open spec fn from_spec(value: ChannelDual) -> u8 {
        value.spec_code()
    }
}

/// Mask of the channel A power-up flag (bit 0, width 1).
pub const PU_A_MASK: u16 = 0x0001;

/// Mask of the channel B power-up flag (bit 2, width 1; bits 1, 3 and 4 are
/// reserved).
pub const PU_B_MASK: u16 = 0x0004;

/// Mask of the thermal shutdown alert flag (bit 5, width 1; bit 6 is
/// reserved).
pub const TSD_MASK: u16 = 0x0020;

/// Mask of the channel A overcurrent alert flag (bit 7, width 1; bit 8 is
/// reserved).
pub const OC_A_MASK: u16 = 0x0080;

/// Mask of the channel B overcurrent alert flag (bit 9, width 1; the
/// remaining bits are reserved).
pub const OC_B_MASK: u16 = 0x0200;

/// Definition of the power configuration register of the dual channel
/// topology, modelled as its raw 16-bit word.
///
/// Only the masked bits carry meaning; the reserved positions are carried
/// through unchanged so that the register is always written as the whole
/// atomic word the device expects.
#[derive(Debug, PartialEq, Eq, Structural, Clone, Copy)]
pub struct PowerConfigDual {
    raw: u16,
}

impl PowerRegister for PowerConfigDual {
    closed spec fn spec_raw(self) -> u16 {
        self.raw
    }

    closed spec fn spec_from_raw(raw: u16) -> Self {
        PowerConfigDual { raw }
    }

    fn to_raw(self) -> u16 {
        self.raw
    }

    fn from_raw(raw: u16) -> Self {
        PowerConfigDual { raw }
    }
}

impl PowerConfigDual {
    /// An all-zero power configuration: every channel powered down, no
    /// alert flag set.
    pub fn new() -> (r: Self)
        ensures
            r.spec_raw() == 0,
    {
        PowerConfigDual { raw: 0 }
    }

    /// Whether channel A is powered up.
    pub fn pu_a(&self) -> (b: bool)
        ensures
            b == spec_bit16(self.spec_raw(), PU_A_MASK),
    {
        self.raw & PU_A_MASK != 0
    }

    /// Whether channel B is powered up.
    pub fn pu_b(&self) -> (b: bool)
        ensures
            b == spec_bit16(self.spec_raw(), PU_B_MASK),
    {
        self.raw & PU_B_MASK != 0
    }

    /// Whether the device reported a thermal shutdown.
    pub fn tsd(&self) -> (b: bool)
        ensures
            b == spec_bit16(self.spec_raw(), TSD_MASK),
    {
        self.raw & TSD_MASK != 0
    }

    /// Whether the device reported an overcurrent on channel A.
    pub fn oc_a(&self) -> (b: bool)
        ensures
            b == spec_bit16(self.spec_raw(), OC_A_MASK),
    {
        self.raw & OC_A_MASK != 0
    }

    /// Whether the device reported an overcurrent on channel B.
    pub fn oc_b(&self) -> (b: bool)
        ensures
            b == spec_bit16(self.spec_raw(), OC_B_MASK),
    {
        self.raw & OC_B_MASK != 0
    }

    /// This configuration with the channel A power-up flag driven to
    /// `value`.
    pub fn with_pu_a(self, value: bool) -> (r: Self)
        ensures
            r.spec_raw() == spec_with_bit16(self.spec_raw(), PU_A_MASK, value),
    {
        PowerConfigDual { raw: if value {
            self.raw | PU_A_MASK
        } else {
            self.raw & !PU_A_MASK
        } }
    }

    /// This configuration with the channel B power-up flag driven to
    /// `value`.
    pub fn with_pu_b(self, value: bool) -> (r: Self)
        ensures
            r.spec_raw() == spec_with_bit16(self.spec_raw(), PU_B_MASK, value),
    {
        PowerConfigDual { raw: if value {
            self.raw | PU_B_MASK
        } else {
            self.raw & !PU_B_MASK
        } }
    }
}

impl Default for PowerConfigDual {
    /// The all-zero power configuration.
    fn default() -> (r: Self)
        ensures
            r.spec_raw() == 0,
    {
        PowerConfigDual::new()
    }
}

/// The raw power register word after powering `chan` up (or down) on the
/// dual channel topology: the flag of the selected channel — both flags for
/// `AllDacs` — is driven to `pwr`, every other bit keeps its prior value.
pub open spec fn spec_apply_power(raw: u16, chan: ChannelDual, pwr: bool) -> u16 {
    match chan {
        ChannelDual::DacA => spec_with_bit16(raw, PU_A_MASK, pwr),
        ChannelDual::DacB => spec_with_bit16(raw, PU_B_MASK, pwr),
        ChannelDual::AllDacs => spec_with_bit16(
            spec_with_bit16(raw, PU_A_MASK, pwr),
            PU_B_MASK,
            pwr,
        ),
    }
}

impl<DEV, E> Ad57xxShared<DEV, marker::Ad57x2> where DEV: SpiTransport<BusError = E> {
    /// Create a new dual channel AD57xx DAC on a shared SPI bus, with both
    /// shadow registers at their power-on defaults and the readback
    /// capability disabled.
    pub fn new_ad57x2(spi: DEV) -> (r: Self)
        ensures
            r.spec_bus() == spi,
            r.spec_cfg()@ == crate::config::CLAMP_ENABLE_MASK,
            r.spec_pcfg() == 0,
            !r.spec_readback(),
    {
        Self::create(spi)
    }

    /// Power up or down a single or all DAC channels, rewriting the whole
    /// power register based on the shadow copy (or on a fresh read of the
    /// device when the readback capability is enabled).
    ///
    /// After a power-up a settle time of 10 microseconds is required before
    /// loading the corresponding DAC register; the driver does not insert
    /// this delay itself.
    pub fn set_power(&mut self, chan: ChannelDual, pwr: bool) -> (r: Result<(), Error<E>>)
        ensures
            final(self).spec_cfg() == old(self).spec_cfg(),
            final(self).spec_readback() == old(self).spec_readback(),
            r matches Err(e) ==> e is Spi,
            !old(self).spec_readback() ==> {
                &&& (r is Ok ==> final(self).spec_pcfg() == spec_apply_power(
                    old(self).spec_pcfg(),
                    chan,
                    pwr,
                ))
                &&& (r is Err ==> final(self).spec_pcfg() == old(self).spec_pcfg())
            },
            r is Ok ==> exists|base: u16|
                final(self).spec_pcfg() == #[trigger] spec_apply_power(base, chan, pwr),
    {
        let pcfg = match self.get_power_config() {
            Ok(pcfg) => pcfg,
            Err(e) => {
                return Err(e);
            },
        };
        let ghost base: u16 = pcfg.spec_raw();
        let updated = match chan {
            ChannelDual::DacA => pcfg.with_pu_a(pwr),
            ChannelDual::DacB => pcfg.with_pu_b(pwr),
            ChannelDual::AllDacs => pcfg.with_pu_a(pwr).with_pu_b(pwr),
        };
        let r = self.set_power_config(updated);
        proof {
            if r is Ok {
                assert(self.spec_pcfg() == spec_apply_power(base, chan, pwr));
            }
        }
        r
    }
}

impl<DEV: SpiTransport> Ad57xx<DEV, DEV::BusError> for Ad57xxShared<DEV, marker::Ad57x2> {
    type CH = ChannelDual;

    type PCFG = PowerConfigDual;

    open spec fn cfg_shadow(self) -> Config {
        self.spec_cfg()
    }

    open spec fn pcfg_shadow(self) -> u16 {
        self.spec_pcfg()
    }

    open spec fn readback_on(self) -> bool {
        self.spec_readback()
    }

    fn spi_write(&mut self, payload: &[u8; 3]) -> Result<(), Error<DEV::BusError>> {
        self.spi_write_any(payload)
    }

    fn spi_read(&mut self, cmd: u8) -> Result<u16, Error<DEV::BusError>> {
        self.spi_read_any(cmd)
    }

    fn write(&mut self, cmd: Command<ChannelDual>, data: Data<PowerConfigDual>) -> Result<
        (),
        Error<DEV::BusError>,
    > {
        self.write_any(cmd, data)
    }

    fn read(&mut self, cmd: Command<ChannelDual>) -> Result<Data<PowerConfigDual>, Error<DEV::BusError>> {
        self.read_any(cmd)
    }

    fn get_config(&mut self) -> Result<Config, Error<DEV::BusError>> {
        self.get_config_any::<ChannelDual, PowerConfigDual, DEV::BusError>()
    }

    fn get_power_config(&mut self) -> Result<PowerConfigDual, Error<DEV::BusError>> {
        self.get_power_config_any::<ChannelDual, PowerConfigDual, DEV::BusError>()
    }
}

/// On the dual channel topology, `AllDacs` always encodes as address 4: for
/// every command addressing all DACs, the address field of the command byte
/// of every frame it encodes is 4, independent of the channel count.
pub proof fn lemma_all_dacs_address(cmd: Command<ChannelDual>)
    requires
        cmd == Command::<ChannelDual>::DacRegister(ChannelDual::AllDacs) || cmd == Command::<
            ChannelDual,
        >::RangeSelectRegister(ChannelDual::AllDacs),
    ensures
        spec_addr(cmd) == 4,
        forall|data: Data<PowerConfigDual>|
            data_matches(cmd, data) ==> #[trigger] spec_frame(cmd, data)[0] % 8 == 4,
{
}

/// Powering all DACs up or down touches exactly the two meaningful
/// power-up flags of the dual channel topology: both are driven to the
/// requested level, and every bit outside the two masks — the reserved
/// positions and the alert flags — keeps its prior value.
pub proof fn lemma_power_all_dacs(raw: u16, pwr: bool)
    ensures
        spec_bit16(spec_apply_power(raw, ChannelDual::AllDacs, pwr), PU_A_MASK) == pwr,
        spec_bit16(spec_apply_power(raw, ChannelDual::AllDacs, pwr), PU_B_MASK) == pwr,
        forall|mask: u16|
            mask & (PU_A_MASK | PU_B_MASK) == 0 ==> #[trigger] spec_bit16(
                spec_apply_power(raw, ChannelDual::AllDacs, pwr),
                mask,
            ) == spec_bit16(raw, mask),
{
    let r = spec_apply_power(raw, ChannelDual::AllDacs, pwr);
    if pwr {
        assert(r == (raw | PU_A_MASK) | PU_B_MASK);
        assert(((raw | 0x0001) | 0x0004) & 0x0001 != 0) by (bit_vector);
        assert(((raw | 0x0001) | 0x0004) & 0x0004 != 0) by (bit_vector);
        assert forall|mask: u16| mask & (PU_A_MASK | PU_B_MASK) == 0 implies #[trigger] spec_bit16(
            r,
            mask,
        ) == spec_bit16(raw, mask) by {
            assert(mask & (0x0001u16 | 0x0004) == 0 ==> (((raw | 0x0001) | 0x0004) & mask) == (raw
                & mask)) by (bit_vector);
        }
    } else {
        assert(r == (raw & !PU_A_MASK) & !PU_B_MASK);
        assert(((raw & !0x0001u16) & !0x0004) & 0x0001 == 0) by (bit_vector);
        assert(((raw & !0x0001u16) & !0x0004) & 0x0004 == 0) by (bit_vector);
        assert forall|mask: u16| mask & (PU_A_MASK | PU_B_MASK) == 0 implies #[trigger] spec_bit16(
            r,
            mask,
        ) == spec_bit16(raw, mask) by {
            assert(mask & (0x0001u16 | 0x0004) == 0 ==> (((raw & !0x0001u16) & !0x0004) & mask) == (
            raw & mask)) by (bit_vector);
        }
    }
}

} // verus!
