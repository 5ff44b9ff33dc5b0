//! Commands, payload data and errors of the AD57xx register protocol.
//!
//! Every bus access is described by a [`Command`] (which register of which
//! channel) paired with a [`Data`] value (the payload that register takes).
//! The pairing is checked before any bus activity: an ill-matched pair is
//! rejected as [`Error::InvalidArgument`].

use vstd::prelude::*;

verus! {

/// Address of a function in the control register.
#[derive(Debug, PartialEq, Eq, Structural, Clone, Copy)]
pub enum Function {
    /// No-operation, used as the clock source during readback operations.
    Nop,
    /// Access the configuration register.
    Config,
    /// Set the DACs to the clear code selected by `clr_select`.
    Clear,
    /// Load the DAC register values.
    Load,
}

impl Function {
    /// Address-field code of this function (3 bits).
    pub open spec fn spec_code(self) -> u8 {
        match self {
            Function::Nop => 0,
            Function::Config => 1,
            Function::Clear => 4,
            Function::Load => 5,
        }
    }

    /// Address-field code of this function (3 bits).
    pub fn code(self) -> (c: u8)
        ensures
            c == self.spec_code(),
    {
        match self {
            Function::Nop => 0,
            Function::Config => 1,
            Function::Clear => 4,
            Function::Load => 5,
        }
    }
}

/// Available output ranges for the DAC channels.
///
/// These values are valid with a reference input of 2.5 V; with a different
/// reference voltage, consult the datasheet for the gains associated with
/// these settings.
#[derive(Debug, PartialEq, Eq, Structural, Clone, Copy)]
pub enum OutputRange {
    /// Gain 2, 0 V to +5 V when Vref = 2.5 V.
    Unipolar5V,
    /// Gain 4, 0 V to +10 V when Vref = 2.5 V.
    Unipolar10V,
    /// Gain 4.32, 0 V to +10.8 V when Vref = 2.5 V.
    Unipolar10_8V,
    /// Gain 4, -5 V to +5 V when Vref = 2.5 V.
    Bipolar5V,
    /// Gain 8, -10 V to +10 V when Vref = 2.5 V.
    Bipolar10V,
    /// Gain 8.64, -10.8 V to +10.8 V when Vref = 2.5 V.
    Bipolar10_8V,
    /// Sentinel for an unrecognized readback code.
    InvalidReadback,
}

impl OutputRange {
    /// Numeric range code written to the range select register.
    pub open spec fn spec_code(self) -> u8 {
        match self {
            OutputRange::Unipolar5V => 0,
            OutputRange::Unipolar10V => 1,
            OutputRange::Unipolar10_8V => 2,
            OutputRange::Bipolar5V => 3,
            OutputRange::Bipolar10V => 4,
            OutputRange::Bipolar10_8V => 5,
            OutputRange::InvalidReadback => 6,
        }
    }

    /// Numeric range code written to the range select register.
    pub fn code(self) -> (c: u8)
        ensures
            c == self.spec_code(),
    {
        match self {
            OutputRange::Unipolar5V => 0,
            OutputRange::Unipolar10V => 1,
            OutputRange::Unipolar10_8V => 2,
            OutputRange::Bipolar5V => 3,
            OutputRange::Bipolar10V => 4,
            OutputRange::Bipolar10_8V => 5,
            OutputRange::InvalidReadback => 6,
        }
    }

    /// The range decoded from a raw readback word: codes 0 to 5 name a range,
    /// every other word decodes to the `InvalidReadback` sentinel.
    pub open spec fn spec_from_raw(value: u16) -> OutputRange {
        if value == 0 {
            OutputRange::Unipolar5V
        } else if value == 1 {
            OutputRange::Unipolar10V
        } else if value == 2 {
            OutputRange::Unipolar10_8V
        } else if value == 3 {
            OutputRange::Bipolar5V
        } else if value == 4 {
            OutputRange::Bipolar10V
        } else if value == 5 {
            OutputRange::Bipolar10_8V
        } else {
            OutputRange::InvalidReadback
        }
    }

    /// Decode a raw readback word; unrecognized codes yield
    /// `InvalidReadback`.
    pub fn from_raw(value: u16) -> (r: Self)
        ensures
            r == OutputRange::spec_from_raw(value),
    {
        match value {
            0 => Self::Unipolar5V,
            1 => Self::Unipolar10V,
            2 => Self::Unipolar10_8V,
            3 => Self::Bipolar5V,
            4 => Self::Bipolar10V,
            5 => Self::Bipolar10_8V,
            _ => Self::InvalidReadback,
        }
    }
}

impl From<u16> for OutputRange {
    /// Decode a raw readback word; unrecognized codes yield `InvalidReadback`.
    fn from(value: u16) -> (r: Self) {
        OutputRange::from_raw(value)
    }
}

impl vstd::std_specs::convert::FromSpecImpl<u16> for OutputRange {
    open spec fn obeys_from_spec() -> bool {
        true
    }

    open spec fn from_spec(value: u16) -> OutputRange {
        OutputRange::spec_from_raw(value)
    }
}

/// Errors of this driver.
#[derive(Debug)]
pub enum Error<E> {
    /// SPI communication error, carrying the transport's own error unchanged.
    Spi(E),
    /// The supplied data value does not match the command being issued.
    InvalidArgument,
    /// The device's response cannot be interpreted for the requested register.
    ReadError,
}

/// A channel enumeration bound to a concrete chip topology.
///
/// Each variant of the chip binds its own channel type; the protocol only
/// needs the 3-bit address-field code of a channel.
pub trait DacChannel: Copy {
    /// Address-field code of this channel (3 bits).
    spec fn spec_code(self) -> u8;

    /// Address-field code of this channel (3 bits).
    fn code(self) -> (c: u8)
        ensures
            c == self.spec_code(),
            c < 8,
    ;
}

/// A power control register layout bound to a concrete chip topology.
///
/// The register is a single atomic 16-bit entity; the protocol moves it over
/// the bus as its raw word.
pub trait PowerRegister: Copy {
    /// The raw 16-bit word of this register value.
    spec fn spec_raw(self) -> u16;

    /// The register value holding the raw word `raw`.
    spec fn spec_from_raw(raw: u16) -> Self;

    /// The raw 16-bit word of this register value.
    fn to_raw(self) -> (r: u16)
        ensures
            r == self.spec_raw(),
    ;

    /// The register value holding the raw word `raw`.
    fn from_raw(raw: u16) -> (r: Self)
        ensures
            r == Self::spec_from_raw(raw),
            r.spec_raw() == raw,
    ;
}

/// Enum determining the contents of the register and address bits.
#[derive(Debug, Clone, Copy)]
pub enum Command<C> {
    /// Access the DAC register of the channel(s).
    DacRegister(C),
    /// Access the range select register of the channel(s).
    RangeSelectRegister(C),
    /// Access the power control register (always all channels at once).
    PowerControlRegister,
    /// Access the control register.
    ControlRegister(Function),
}

impl<C> Command<C> {
    /// Register-field code of this command (3 bits), fully determined by the
    /// command kind, never by caller input.
    pub open spec fn spec_reg_code(self) -> u8 {
        match self {
            Command::DacRegister(_) => 0,
            Command::RangeSelectRegister(_) => 1,
            Command::PowerControlRegister => 2,
            Command::ControlRegister(_) => 3,
        }
    }

    /// Register-field code of this command (3 bits).
    pub fn reg_code(&self) -> (r: u8)
        ensures
            r == self.spec_reg_code(),
            r < 8,
    {
        match self {
            Command::DacRegister(_) => 0,
            Command::RangeSelectRegister(_) => 1,
            Command::PowerControlRegister => 2,
            Command::ControlRegister(_) => 3,
        }
    }
}

impl<C> From<Command<C>> for u8 {
    /// Register-field code of the command (3 bits).
    fn from(cmd: Command<C>) -> (r: Self) {
        cmd.reg_code()
    }
}

impl<C> vstd::std_specs::convert::FromSpecImpl<Command<C>> for u8 {
    open spec fn obeys_from_spec() -> bool {
        true
    }

    open spec fn from_spec(cmd: Command<C>) -> u8 {
        cmd.spec_reg_code()
    }
}

/// Data sent to or read back from the device.
#[derive(Debug, Clone, Copy)]
pub enum Data<PCFG> {
    /// A DAC value.
    DacValue(u16),
    /// A range selection for a DAC channel.
    OutputRange(OutputRange),
    /// Device configuration.
    Control(crate::config::Config),
    /// Power control settings.
    PowerControl(PCFG),
    /// No data (for the NOP, LOAD and CLEAR functions).
    NoData,
}

/// Whether `data` is the one payload kind that `cmd` takes: the DAC register
/// takes a DAC value, the range select register a range, the power control
/// register a power configuration, the control register's `Config` function a
/// configuration, and its other functions no data at all.
pub open spec fn data_matches<C, P>(cmd: Command<C>, data: Data<P>) -> bool {
    match cmd {
        Command::DacRegister(_) => data is DacValue,
        Command::RangeSelectRegister(_) => data is OutputRange,
        Command::PowerControlRegister => data is PowerControl,
        Command::ControlRegister(f) => if f is Config {
            data is Control
        } else {
            data is NoData
        },
    }
}

} // verus!
