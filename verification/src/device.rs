//! The device handle and the register protocol.
//!
//! The handle owns the SPI transport and the two shadow registers (the
//! configuration and the raw power control word). Writes go out as one
//! exclusive 3-byte transaction; reads use the device's two-phase protocol:
//! first a write of the command byte with the read bit set, then a
//! full-duplex exchange clocked by a NOP command while the device shifts the
//! requested register out. The transport itself is behind [`SpiTransport`],
//! an interface the caller implements over the physical bus; everything on
//! this side of it is verified.

use core::marker::PhantomData;

use vstd::prelude::*;

use crate::command::{data_matches, Command, DacChannel, Data, Error, Function, PowerRegister};
use crate::config::Config;
use crate::frame::{command_byte, command_frame, decode_response, encode, read_command,
    response_word, spec_decode};
use crate::marker::Sealed;

verus! {

/// The transport capability the driver consumes: a physical SPI bus able to
/// move one 3-byte frame per exclusive transaction.
///
/// The driver never implements this trait; the application binds it to its
/// hardware abstraction layer (an `embedded_hal` SPI device, or a mock). No
/// behaviour is assumed of an implementation: the driver states only what
/// holds whatever a transaction does.
pub trait SpiTransport {
    /// The transport's own error type, surfaced unchanged in [`Error::Spi`].
    type BusError;

    /// Write the 3-byte frame to the device in one exclusive transaction.
    fn write_frame(&mut self, frame: &[u8; 3]) -> Result<(), Self::BusError>;

    /// One exclusive full-duplex transaction: send the 3 bytes of `tx`
    /// while capturing the 3 bytes the device shifts out.
    fn transfer_frame(&mut self, tx: &[u8; 3]) -> Result<[u8; 3], Self::BusError>;
}

/// AD57xx DAC with shared SPI bus access.
///
/// The handle is the sole owner of the transport until [`Self::destroy`]
/// releases it. The type parameter `IC` is the sealed marker of the chip
/// topology the handle is bound to.
pub struct Ad57xxShared<DEV, IC: Sealed> {
    spi: DEV,
    cfg: Config,
    pcfg: u16,
    readback: bool,
    _ic: PhantomData<IC>,
}

impl<DEV, IC: Sealed> Ad57xxShared<DEV, IC> {
    /// The SPI transport owned by the handle.
    pub closed spec fn spec_bus(self) -> DEV {
        self.spi
    }

    /// The shadow copy of the device configuration register.
    pub closed spec fn spec_cfg(self) -> Config {
        self.cfg
    }

    /// The shadow copy of the raw power control register word.
    pub closed spec fn spec_pcfg(self) -> u16 {
        self.pcfg
    }

    /// Whether get operations re-read the device instead of trusting the
    /// shadow registers.
    pub closed spec fn spec_readback(self) -> bool {
        self.readback
    }

    /// A handle owning `spi`, with both shadow registers at their power-on
    /// defaults and the readback capability disabled.
    pub(crate) fn create(spi: DEV) -> (r: Self)
        ensures
            r.spec_bus() == spi,
            r.spec_cfg()@ == crate::config::CLAMP_ENABLE_MASK,
            r.spec_pcfg() == 0,
            !r.spec_readback(),
    {
        Ad57xxShared { spi, cfg: Config::new(), pcfg: 0, readback: false, _ic: PhantomData }
    }

    /// Release ownership of the SPI transport back to the caller. No further
    /// operation can be issued afterwards.
    pub fn destroy(self) -> (r: DEV)
        ensures
            r == self.spec_bus(),
    {
        self.spi
    }

    /// Enable or disable the readback capability: with it enabled, every get
    /// operation re-reads the device and refreshes the shadow register
    /// instead of answering from the shadow.
    pub fn set_readback(&mut self, on: bool)
        ensures
            final(self).spec_readback() == on,
            final(self).spec_cfg() == old(self).spec_cfg(),
            final(self).spec_pcfg() == old(self).spec_pcfg(),
            final(self).spec_bus() == old(self).spec_bus(),
    {
        self.readback = on;
    }
}

/// The configuration shadow after a successful write of `data` under `cmd`:
/// a write of the control register's `Config` function installs the written
/// configuration, every other write leaves the shadow alone.
pub open spec fn spec_cfg_after<C, P>(cfg0: Config, cmd: Command<C>, data: Data<P>) -> Config {
    match (cmd, data) {
        (Command::ControlRegister(Function::Config), Data::Control(cfg)) => cfg,
        _ => cfg0,
    }
}

/// The raw power shadow after a successful write of `data` under `cmd`: a
/// write of the power control register installs the written word, every
/// other write leaves the shadow alone.
pub open spec fn spec_pcfg_after<C, P: PowerRegister>(
    pcfg0: u16,
    cmd: Command<C>,
    data: Data<P>,
) -> u16 {
    match (cmd, data) {
        (Command::PowerControlRegister, Data::PowerControl(pcfg)) => pcfg.spec_raw(),
        _ => pcfg0,
    }
}

/// Whether the register selected by `cmd` can be read back: every register
/// can, except the control register functions other than `Config`.
pub open spec fn spec_readable<C>(cmd: Command<C>) -> bool {
    match cmd {
        Command::ControlRegister(func) => func is Config,
        _ => true,
    }
}

/// Common functionality among the AD57xx range.
///
/// The two topology markers implement this trait for the shared handle; the
/// trait's provided operations are the public surface of the protocol.
pub trait Ad57xx<DEV, E>: Sized {
    /// Channel type of this topology.
    type CH: DacChannel;

    /// Power configuration type of this topology.
    type PCFG: PowerRegister;

    /// The shadow copy of the device configuration register.
    spec fn cfg_shadow(self) -> Config;

    /// The shadow copy of the raw power control register word.
    spec fn pcfg_shadow(self) -> u16;

    /// Whether get operations re-read the device instead of trusting the
    /// shadow registers.
    spec fn readback_on(self) -> bool;

    /// Write a 24-bit frame to the device in one exclusive transaction.
    fn spi_write(&mut self, payload: &[u8; 3]) -> (r: Result<(), Error<E>>)
        ensures
            final(self).cfg_shadow() == old(self).cfg_shadow(),
            final(self).pcfg_shadow() == old(self).pcfg_shadow(),
            final(self).readback_on() == old(self).readback_on(),
            r matches Err(e) ==> e is Spi,
    ;

    /// Read the 16-bit data of the register selected by the command byte
    /// `cmd`, using the device's two-phase protocol: first a write of the
    /// frame `[cmd, 0, 0]`, then a full-duplex exchange of the NOP frame
    /// `[0x18, 0, 0]` as the clock source, whose captured response yields
    /// the word through [`crate::frame::response_word`].
    fn spi_read(&mut self, cmd: u8) -> (r: Result<u16, Error<E>>)
        ensures
            final(self).cfg_shadow() == old(self).cfg_shadow(),
            final(self).pcfg_shadow() == old(self).pcfg_shadow(),
            final(self).readback_on() == old(self).readback_on(),
            r matches Err(e) ==> e is Spi,
    ;

    /// Write `data` to the register selected by `cmd`.
    ///
    /// The pairing of command and data is validated first: a mismatch is
    /// rejected as `InvalidArgument` before any bus activity, leaving the
    /// handle exactly as it was. On success the relevant shadow register is
    /// updated; a transport failure is returned verbatim and leaves the
    /// shadows alone.
    fn write(&mut self, cmd: Command<Self::CH>, data: Data<Self::PCFG>) -> (r: Result<
        (),
        Error<E>,
    >)
        ensures
            !data_matches(cmd, data) ==> r == Err::<(), Error<E>>(Error::InvalidArgument)
                && *final(self) == *old(self),
            data_matches(cmd, data) ==> (r matches Err(e) ==> e is Spi),
            final(self).readback_on() == old(self).readback_on(),
            r is Ok ==> final(self).cfg_shadow() == spec_cfg_after(
                old(self).cfg_shadow(),
                cmd,
                data,
            ) && final(self).pcfg_shadow() == spec_pcfg_after(old(self).pcfg_shadow(), cmd, data),
            r is Err ==> final(self).cfg_shadow() == old(self).cfg_shadow()
                && final(self).pcfg_shadow() == old(self).pcfg_shadow(),
    ;

    /// Read the register selected by `cmd` and decode the response under the
    /// command kind that requested it. The command byte that opens the read
    /// is [`crate::frame::read_command`] of `cmd`: the read bit set over the
    /// same register and address fields the write frame carries.
    ///
    /// A command whose register cannot be read back always fails: with the
    /// transport's error if the bus failed first, with `ReadError` otherwise.
    /// For every other command a failure is the transport's.
    fn read(&mut self, cmd: Command<Self::CH>) -> (r: Result<Data<Self::PCFG>, Error<E>>)
        ensures
            final(self).cfg_shadow() == old(self).cfg_shadow(),
            final(self).pcfg_shadow() == old(self).pcfg_shadow(),
            final(self).readback_on() == old(self).readback_on(),
            r matches Ok(data) ==> data_matches(cmd, data),
            spec_readable(cmd) ==> (r matches Err(e) ==> e is Spi),
            !spec_readable(cmd) ==> r is Err && (r matches Err(e) ==> e is Spi || e is ReadError),
    ;

    /// Set the device configuration and, on success, its shadow copy.
    fn set_config(&mut self, cfg: Config) -> (r: Result<(), Error<E>>)
        ensures
            final(self).pcfg_shadow() == old(self).pcfg_shadow(),
            final(self).readback_on() == old(self).readback_on(),
            r is Ok ==> final(self).cfg_shadow() == cfg,
            r is Err ==> final(self).cfg_shadow() == old(self).cfg_shadow(),
            r matches Err(e) ==> e is Spi,
    {
        self.write(Command::ControlRegister(Function::Config), Data::Control(cfg))
    }

    /// Get the device configuration: the shadow copy, or, with the readback
    /// capability enabled, a fresh read of the device that also refreshes
    /// the shadow.
    fn get_config(&mut self) -> (r: Result<Config, Error<E>>)
        ensures
            final(self).pcfg_shadow() == old(self).pcfg_shadow(),
            final(self).readback_on() == old(self).readback_on(),
            !old(self).readback_on() ==> r == Ok::<Config, Error<E>>(old(self).cfg_shadow())
                && *final(self) == *old(self),
            old(self).readback_on() ==> {
                &&& (r matches Ok(cfg) ==> final(self).cfg_shadow() == cfg)
                &&& (r is Err ==> final(self).cfg_shadow() == old(self).cfg_shadow())
                &&& (r matches Err(e) ==> e is Spi)
            },
    ;

    /// Set the device power configuration and, on success, its shadow copy.
    fn set_power_config(&mut self, pcfg: Self::PCFG) -> (r: Result<(), Error<E>>)
        ensures
            final(self).cfg_shadow() == old(self).cfg_shadow(),
            final(self).readback_on() == old(self).readback_on(),
            r is Ok ==> final(self).pcfg_shadow() == pcfg.spec_raw(),
            r is Err ==> final(self).pcfg_shadow() == old(self).pcfg_shadow(),
            r matches Err(e) ==> e is Spi,
    {
        self.write(Command::PowerControlRegister, Data::PowerControl(pcfg))
    }

    /// Get the device power configuration: the shadow copy, or, with the
    /// readback capability enabled, a fresh read of the device that also
    /// refreshes the shadow.
    fn get_power_config(&mut self) -> (r: Result<Self::PCFG, Error<E>>)
        ensures
            final(self).cfg_shadow() == old(self).cfg_shadow(),
            final(self).readback_on() == old(self).readback_on(),
            !old(self).readback_on() ==> r == Ok::<Self::PCFG, Error<E>>(
                Self::PCFG::spec_from_raw(old(self).pcfg_shadow()),
            ) && *final(self) == *old(self),
            old(self).readback_on() ==> {
                &&& (r matches Ok(pcfg) ==> final(self).pcfg_shadow() == pcfg.spec_raw())
                &&& (r is Err ==> final(self).pcfg_shadow() == old(self).pcfg_shadow())
                &&& (r matches Err(e) ==> e is Spi)
            },
    ;

    /// Write a 16-bit value to the selected DAC register.
    ///
    /// Devices with a bit depth smaller than 16 use a left-aligned data
    /// format; the driver does not rescale. To push the value to the output
    /// it has to be loaded, either through the hardware pins or through
    /// `load_dacs`. The actual output voltage depends on the reference
    /// voltage, the output range, and, for bipolar ranges, the state of the
    /// binary/two's-complement pin.
    fn set_dac_output(&mut self, chan: Self::CH, val: u16) -> (r: Result<(), Error<E>>)
        ensures
            final(self).cfg_shadow() == old(self).cfg_shadow(),
            final(self).pcfg_shadow() == old(self).pcfg_shadow(),
            final(self).readback_on() == old(self).readback_on(),
            r matches Err(e) ==> e is Spi,
    {
        self.write(Command::DacRegister(chan), Data::DacValue(val))
    }

    /// Set the output range of the selected DAC channel.
    fn set_output_range(&mut self, chan: Self::CH, range: crate::command::OutputRange) -> (r:
        Result<(), Error<E>>)
        ensures
            final(self).cfg_shadow() == old(self).cfg_shadow(),
            final(self).pcfg_shadow() == old(self).pcfg_shadow(),
            final(self).readback_on() == old(self).readback_on(),
            r matches Err(e) ==> e is Spi,
    {
        self.write(Command::RangeSelectRegister(chan), Data::OutputRange(range))
    }

    /// Set the DAC registers to the clear code and update the outputs.
    fn clear_dacs(&mut self) -> (r: Result<(), Error<E>>)
        ensures
            final(self).cfg_shadow() == old(self).cfg_shadow(),
            final(self).pcfg_shadow() == old(self).pcfg_shadow(),
            final(self).readback_on() == old(self).readback_on(),
            r matches Err(e) ==> e is Spi,
    {
        self.write(Command::ControlRegister(Function::Clear), Data::NoData)
    }

    /// Update the DAC registers and, consequently, the DAC outputs.
    fn load_dacs(&mut self) -> (r: Result<(), Error<E>>)
        ensures
            final(self).cfg_shadow() == old(self).cfg_shadow(),
            final(self).pcfg_shadow() == old(self).pcfg_shadow(),
            final(self).readback_on() == old(self).readback_on(),
            r matches Err(e) ==> e is Spi,
    {
        self.write(Command::ControlRegister(Function::Load), Data::NoData)
    }
}

impl<DEV, IC: Sealed> Ad57xxShared<DEV, IC> {
    /// Encode and send one write frame, updating the shadows on success.
    pub(crate) fn write_any<C: DacChannel, P: PowerRegister, E>(
        &mut self,
        cmd: Command<C>,
        data: Data<P>,
    ) -> (r: Result<(), Error<E>>) where DEV: SpiTransport<BusError = E>
        ensures
            !data_matches(cmd, data) ==> r == Err::<(), Error<E>>(Error::InvalidArgument)
                && *final(self) == *old(self),
            data_matches(cmd, data) ==> (r matches Err(e) ==> e is Spi),
            final(self).spec_readback() == old(self).spec_readback(),
            r is Ok ==> final(self).spec_cfg() == spec_cfg_after(old(self).spec_cfg(), cmd, data)
                && final(self).spec_pcfg() == spec_pcfg_after(old(self).spec_pcfg(), cmd, data),
            r is Err ==> final(self).spec_cfg() == old(self).spec_cfg() && final(self).spec_pcfg()
                == old(self).spec_pcfg(),
    {
        let frame = match encode::<C, P, E>(cmd, data) {
            Ok(frame) => frame,
            Err(e) => {
                return Err(e);
            },
        };
        match self.spi.write_frame(&frame) {
            Ok(()) => {
                match (cmd, data) {
                    (Command::ControlRegister(Function::Config), Data::Control(cfg)) => {
                        self.cfg = cfg;
                    },
                    (Command::PowerControlRegister, Data::PowerControl(pcfg)) => {
                        self.pcfg = pcfg.to_raw();
                    },
                    _ => {},
                }
                Ok(())
            },
            Err(e) => Err(Error::Spi(e)),
        }
    }

    /// Send one raw 3-byte frame in one exclusive transaction.
    pub(crate) fn spi_write_any<E>(&mut self, payload: &[u8; 3]) -> (r: Result<(), Error<E>>) where
        DEV: SpiTransport<BusError = E>,
        ensures
            final(self).spec_cfg() == old(self).spec_cfg(),
            final(self).spec_pcfg() == old(self).spec_pcfg(),
            final(self).spec_readback() == old(self).spec_readback(),
            r matches Err(e) ==> e is Spi,
    {
        match self.spi.write_frame(payload) {
            Ok(()) => Ok(()),
            Err(e) => Err(Error::Spi(e)),
        }
    }

    /// Run the two-phase read protocol for the command byte `cmd`: write
    /// the frame `[cmd, 0, 0]`, then exchange a NOP frame while capturing
    /// the response, whose first two bytes form the returned word
    /// ([`crate::frame::response_word`]).
    pub(crate) fn spi_read_any<E>(&mut self, cmd: u8) -> (r: Result<u16, Error<E>>) where
        DEV: SpiTransport<BusError = E>,
        ensures
            final(self).spec_cfg() == old(self).spec_cfg(),
            final(self).spec_pcfg() == old(self).spec_pcfg(),
            final(self).spec_readback() == old(self).spec_readback(),
            r matches Err(e) ==> e is Spi,
    {
        let tx = command_frame(cmd);
        match self.spi.write_frame(&tx) {
            Ok(()) => {},
            Err(e) => {
                return Err(Error::Spi(e));
            },
        }
        // The exchange is clocked by a NOP command so that the device shifts
        // the requested register out without starting a new operation.
        let nop = command_frame(command_byte(false, 3, Function::Nop.code()));
        let rx = match self.spi.transfer_frame(&nop) {
            Ok(rx) => rx,
            Err(e) => {
                return Err(Error::Spi(e));
            },
        };
        Ok(response_word(&rx))
    }

    /// Issue one read of the register selected by `cmd` and decode the
    /// response under the command kind.
    pub(crate) fn read_any<C: DacChannel, P: PowerRegister, E>(&mut self, cmd: Command<C>) -> (r:
        Result<Data<P>, Error<E>>) where DEV: SpiTransport<BusError = E>
        ensures
            final(self).spec_cfg() == old(self).spec_cfg(),
            final(self).spec_pcfg() == old(self).spec_pcfg(),
            final(self).spec_readback() == old(self).spec_readback(),
            r matches Ok(data) ==> data_matches(cmd, data),
            r matches Ok(data) ==> exists|raw: u16| spec_decode::<C, P>(cmd, raw) == Some(data),
            spec_readable(cmd) ==> (r matches Err(e) ==> e is Spi),
            !spec_readable(cmd) ==> r is Err && (r matches Err(e) ==> e is Spi || e is ReadError),
    {
        // The register to be read, with the read bit set.
        let cmd_byte = read_command(cmd);
        let raw = match self.spi_read_any(cmd_byte) {
            Ok(raw) => raw,
            Err(e) => {
                return Err(e);
            },
        };
        let r = decode_response::<C, P, E>(cmd, raw);
        proof {
            if r is Ok {
                assert(spec_decode::<C, P>(cmd, raw) == Some(r->Ok_0));
            }
        }
        r
    }

    /// Serve a configuration get: from the shadow, or from the device with
    /// the readback capability enabled.
    pub(crate) fn get_config_any<C: DacChannel, P: PowerRegister, E>(&mut self) -> (r: Result<
        Config,
        Error<E>,
    >) where DEV: SpiTransport<BusError = E>
        ensures
            final(self).spec_pcfg() == old(self).spec_pcfg(),
            final(self).spec_readback() == old(self).spec_readback(),
            !old(self).spec_readback() ==> r == Ok::<Config, Error<E>>(old(self).spec_cfg())
                && *final(self) == *old(self),
            old(self).spec_readback() ==> {
                &&& (r matches Ok(cfg) ==> final(self).spec_cfg() == cfg)
                &&& (r is Err ==> final(self).spec_cfg() == old(self).spec_cfg())
                &&& (r matches Err(e) ==> e is Spi)
            },
    {
        if !self.readback {
            return Ok(self.cfg);
        }
        match self.read_any::<C, P, E>(Command::ControlRegister(Function::Config)) {
            Ok(Data::Control(cfg)) => {
                self.cfg = cfg;
                Ok(cfg)
            },
            Ok(data) => {
                proof {
                    let raw = choose|raw: u16|
                        spec_decode::<C, P>(
                            Command::ControlRegister(Function::Config),
                            raw,
                        ) == Some(data);
                    assert(data is Control);
                }
                Err(Error::ReadError)
            },
            Err(e) => Err(e),
        }
    }

    /// Serve a power configuration get: from the shadow, or from the device
    /// with the readback capability enabled.
    pub(crate) fn get_power_config_any<C: DacChannel, P: PowerRegister, E>(&mut self) -> (r: Result<
        P,
        Error<E>,
    >) where DEV: SpiTransport<BusError = E>
        ensures
            final(self).spec_cfg() == old(self).spec_cfg(),
            final(self).spec_readback() == old(self).spec_readback(),
            !old(self).spec_readback() ==> r == Ok::<P, Error<E>>(
                P::spec_from_raw(old(self).spec_pcfg()),
            ) && *final(self) == *old(self),
            old(self).spec_readback() ==> {
                &&& (r matches Ok(pcfg) ==> final(self).spec_pcfg() == pcfg.spec_raw())
                &&& (r is Err ==> final(self).spec_pcfg() == old(self).spec_pcfg())
                &&& (r matches Err(e) ==> e is Spi)
            },
    {
        if !self.readback {
            return Ok(P::from_raw(self.pcfg));
        }
        match self.read_any::<C, P, E>(Command::PowerControlRegister) {
            Ok(Data::PowerControl(pcfg)) => {
                self.pcfg = pcfg.to_raw();
                Ok(pcfg)
            },
            Ok(data) => {
                proof {
                    let raw = choose|raw: u16|
                        spec_decode::<C, P>(Command::PowerControlRegister, raw) == Some(data);
                    assert(data is PowerControl);
                }
                Err(Error::ReadError)
            },
            Err(e) => Err(e),
        }
    }
}

} // verus!
