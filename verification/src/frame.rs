//! The frame encoder and response decoder.
//!
//! Every register access moves exactly 3 bytes. Byte 0 is the command byte,
//! whose layout, MSB to LSB, is `rw(1) | zero(1) | reg(3) | addr(3)`. Bytes 1
//! and 2 are the 16-bit payload, big endian.

use vstd::prelude::*;

use crate::command::{data_matches, Command, DacChannel, Data, Error, Function, OutputRange,
    PowerRegister};
use crate::config::Config;

verus! {

/// The command byte with read/write flag `rw`, register field `reg` and
/// address field `addr`: `rw` in bit 7, a zero in bit 6, `reg` in bits 5:3,
/// `addr` in bits 2:0.
pub open spec fn spec_command_byte(rw: bool, reg: u8, addr: u8) -> u8
    recommends
        reg < 8,
        addr < 8,
{
    ((if rw {
        128int
    } else {
        0int
    }) + reg * 8 + addr) as u8
}

/// The command byte with read/write flag `rw`, register field `reg` and
/// address field `addr`.
pub fn command_byte(rw: bool, reg: u8, addr: u8) -> (b: u8)
    requires
        reg < 8,
        addr < 8,
    ensures
        b == spec_command_byte(rw, reg, addr),
{
    (if rw {
        128u8
    } else {
        0u8
    }) + reg * 8 + addr
}

/// The address field of a command: the channel code for a DAC or range select
/// access, zero for the power control register (which always addresses all
/// channels), and the function code for a control register access.
pub open spec fn spec_addr<C: DacChannel>(cmd: Command<C>) -> u8 {
    match cmd {
        Command::DacRegister(chan) => chan.spec_code(),
        Command::RangeSelectRegister(chan) => chan.spec_code(),
        Command::PowerControlRegister => 0,
        Command::ControlRegister(func) => func.spec_code(),
    }
}

/// The address field of `cmd`, as both the write frame and the read-phase
/// command byte place it in bits 2:0.
pub fn addr_code<C: DacChannel>(cmd: Command<C>) -> (a: u8)
    ensures
        a == spec_addr(cmd),
        a < 8,
{
    match cmd {
        Command::DacRegister(chan) => chan.code(),
        Command::RangeSelectRegister(chan) => chan.code(),
        Command::PowerControlRegister => 0,
        Command::ControlRegister(func) => func.code(),
    }
}

/// The command byte that opens a read of the register selected by `cmd`:
/// the read bit set, the register and address fields exactly as the write
/// frame has them.
pub open spec fn spec_read_command<C: DacChannel>(cmd: Command<C>) -> u8 {
    spec_command_byte(true, cmd.spec_reg_code(), spec_addr(cmd))
}

/// Build the read-phase command byte for `cmd`.
pub fn read_command<C: DacChannel>(cmd: Command<C>) -> (b: u8)
    ensures
        b == spec_read_command(cmd),
{
    command_byte(true, cmd.reg_code(), addr_code(cmd))
}

/// The 3-byte frame carrying a lone command byte: the byte, then a zero
/// payload.
pub fn command_frame(cmd_byte: u8) -> (f: [u8; 3])
    ensures
        f@ == seq![cmd_byte, 0u8, 0u8],
{
    [cmd_byte, 0, 0]
}

/// The 16-bit register word held in a 3-byte exchange response: the device
/// shifts the low byte out first, so byte 1 is the high byte, byte 0 the
/// low byte, and byte 2 carries nothing.
pub open spec fn spec_response_word(rx: Seq<u8>) -> u16
    recommends
        rx.len() == 3,
{
    ((rx[1] as u16) * 256 + (rx[0] as u16)) as u16
}

/// Assemble the 16-bit register word from the 3 bytes captured during the
/// exchange.
pub fn response_word(rx: &[u8; 3]) -> (raw: u16)
    ensures
        raw == spec_response_word(rx@),
        raw == (rx@[1] as u16) * 256 + (rx@[0] as u16),
{
    (rx[1] as u16) * 256 + (rx[0] as u16)
}

/// The 16-bit payload a data value puts on the wire: the raw DAC value, the
/// numeric range code, the raw power register word, the configuration byte
/// (high byte zero), or zero where the command carries no data.
pub open spec fn spec_payload<P: PowerRegister>(data: Data<P>) -> u16 {
    match data {
        Data::DacValue(val) => val,
        Data::OutputRange(range) => range.spec_code() as u16,
        Data::Control(cfg) => cfg@ as u16,
        Data::PowerControl(pcfg) => pcfg.spec_raw(),
        Data::NoData => 0,
    }
}

/// The 3-byte frame of a matched command/data pair: the write-mode command
/// byte, then the payload, big endian.
pub open spec fn spec_frame<C: DacChannel, P: PowerRegister>(cmd: Command<C>, data: Data<P>) -> Seq<
    u8,
>
    recommends
        data_matches(cmd, data),
{
    seq![
        spec_command_byte(false, cmd.spec_reg_code(), spec_addr(cmd)),
        (spec_payload(data) / 256) as u8,
        (spec_payload(data) % 256) as u8,
    ]
}

/// Build the 3-byte frame for `cmd` carrying `data`.
///
/// The pairing is validated first: exactly the one payload kind the command
/// takes is accepted, and any other pairing is rejected as `InvalidArgument`
/// without producing a frame.
pub fn encode<C: DacChannel, P: PowerRegister, E>(cmd: Command<C>, data: Data<P>) -> (r: Result<
    [u8; 3],
    Error<E>,
>)
    ensures
        data_matches(cmd, data) ==> (r matches Ok(frame) && frame@ == spec_frame(cmd, data)),
        !data_matches(cmd, data) ==> r == Err::<[u8; 3], Error<E>>(Error::InvalidArgument),
{
    match cmd {
        Command::DacRegister(chan) => {
            if let Data::DacValue(val) = data {
                Ok([command_byte(false, 0, chan.code()), (val / 256) as u8, (val % 256) as u8])
            } else {
                Err(Error::InvalidArgument)
            }
        },
        Command::RangeSelectRegister(chan) => {
            if let Data::OutputRange(range) = data {
                Ok([command_byte(false, 1, chan.code()), 0x00, range.code()])
            } else {
                Err(Error::InvalidArgument)
            }
        },
        Command::PowerControlRegister => {
            if let Data::PowerControl(pcfg) = data {
                let raw = pcfg.to_raw();
                Ok([command_byte(false, 2, 0), (raw / 256) as u8, (raw % 256) as u8])
            } else {
                Err(Error::InvalidArgument)
            }
        },
        Command::ControlRegister(Function::Config) => {
            if let Data::Control(cfg) = data {
                Ok([command_byte(false, 3, Function::Config.code()), 0x00, cfg.to_bits()])
            } else {
                Err(Error::InvalidArgument)
            }
        },
        Command::ControlRegister(func) => {
            if let Data::NoData = data {
                Ok([command_byte(false, 3, func.code()), 0x00, 0x00])
            } else {
                Err(Error::InvalidArgument)
            }
        },
    }
}

/// The decoding of a 16-bit response word under the command that requested
/// it: a raw DAC value, a range code (unrecognized codes decode to the
/// `InvalidReadback` sentinel, not an error), a raw power register word, or a
/// configuration byte. Only the `Config` function of the control register is
/// readable; every other function decodes to nothing.
pub open spec fn spec_decode<C, P: PowerRegister>(cmd: Command<C>, raw: u16) -> Option<Data<P>> {
    match cmd {
        Command::DacRegister(_) => Some(Data::DacValue(raw)),
        Command::RangeSelectRegister(_) => Some(Data::OutputRange(OutputRange::spec_from_raw(raw))),
        Command::PowerControlRegister => Some(Data::PowerControl(P::spec_from_raw(raw))),
        Command::ControlRegister(func) => if func is Config {
            Some(Data::Control(Config::spec_from_raw(raw as u8)))
        } else {
            None
        },
    }
}

/// Decode the 16-bit word `raw` the device shifted out for `cmd`.
///
/// A command whose register cannot be read back (a control register function
/// other than `Config`) is rejected as `ReadError`.
pub fn decode_response<C: DacChannel, P: PowerRegister, E>(cmd: Command<C>, raw: u16) -> (r: Result<
    Data<P>,
    Error<E>,
>)
    ensures
        spec_decode::<C, P>(cmd, raw) matches Some(data) ==> r == Ok::<Data<P>, Error<E>>(data),
        spec_decode::<C, P>(cmd, raw) is None ==> r == Err::<Data<P>, Error<E>>(Error::ReadError),
{
    match cmd {
        Command::DacRegister(_) => Ok(Data::DacValue(raw)),
        Command::RangeSelectRegister(_) => Ok(Data::OutputRange(OutputRange::from_raw(raw))),
        Command::PowerControlRegister => Ok(Data::PowerControl(P::from_raw(raw))),
        Command::ControlRegister(Function::Config) => Ok(Data::Control(Config::from_bits(raw as u8))),
        Command::ControlRegister(_) => Err(Error::ReadError),
    }
}

/// Two commands with the same register and address codes, carrying payloads
/// with the same wire value, encode byte-identical frames, whatever chip
/// topology their channel types belong to: the two variants share one frame
/// layout and differ only in their code assignments.
pub proof fn lemma_frame_depends_on_codes<C1: DacChannel, C2: DacChannel, P1: PowerRegister, P2: PowerRegister>(
    cmd1: Command<C1>,
    cmd2: Command<C2>,
    data1: Data<P1>,
    data2: Data<P2>,
)
    requires
        cmd1.spec_reg_code() == cmd2.spec_reg_code(),
        spec_addr(cmd1) == spec_addr(cmd2),
        spec_payload(data1) == spec_payload(data2),
    ensures
        spec_frame(cmd1, data1) == spec_frame(cmd2, data2),
{
    assert(spec_frame(cmd1, data1) =~= spec_frame(cmd2, data2));
}

/// Clearing the DACs is idempotent at the protocol level: the clear command
/// carries no data, so its 3-byte frame is the same fixed word on every
/// topology and on every call, and consecutive clears put identical bytes on
/// the bus.
pub proof fn lemma_clear_frame_fixed<C: DacChannel, P: PowerRegister>()
    ensures
        data_matches::<C, P>(Command::ControlRegister(Function::Clear), Data::NoData),
        spec_frame::<C, P>(Command::ControlRegister(Function::Clear), Data::NoData) == seq![
            0x1Cu8,
            0u8,
            0u8,
        ],
{
    assert(spec_frame::<C, P>(Command::ControlRegister(Function::Clear), Data::NoData) =~= seq![
        0x1Cu8,
        0u8,
        0u8,
    ]);
}

/// A configuration written to the control register is read back unchanged:
/// decoding the payload of the frame that wrote `cfg` yields `cfg` itself.
pub proof fn lemma_config_read_round_trip<C: DacChannel, P: PowerRegister>(cfg: Config)
    ensures
        ({
            let frame = spec_frame::<C, P>(
                Command::ControlRegister(Function::Config),
                Data::Control(cfg),
            );
            spec_decode::<C, P>(
                Command::ControlRegister(Function::Config),
                ((frame[1] as u16) * 256 + (frame[2] as u16)) as u16,
            ) == Some(Data::Control::<P>(cfg))
        }),
{
    let frame = spec_frame::<C, P>(Command::ControlRegister(Function::Config), Data::Control(cfg));
    assert(cfg@ < 256);
    assert(frame[1] == 0);
    assert(frame[2] == cfg@);
    crate::config::lemma_config_raw_round_trip(cfg@);
    crate::config::lemma_config_view_injective(Config::spec_from_raw(cfg@), cfg);
}

} // verus!
