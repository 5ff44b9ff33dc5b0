//! Integration tests driving the AD57xx protocol against a mock SPI bus.

use ad57xx::ad57x2::{ChannelDual, PowerConfigDual};
use ad57xx::ad57x4::{ChannelQuad, PowerConfigQuad};
use ad57xx::{Ad57xx, Ad57xxShared, Command, Config, Data, Error, Function, OutputRange,
    PowerRegister, SpiTransport};
use embedded_hal::spi::{ErrorKind, SpiDevice};
use embedded_hal_mock::eh1::spi::{Mock as SpiMock, Transaction as MockTransaction};

/// Adapter binding the driver's transport interface to the mock SPI device.
struct MockBus(SpiMock<u8>);

impl SpiTransport for MockBus {
    type BusError = ErrorKind;

    fn write_frame(&mut self, frame: &[u8; 3]) -> Result<(), ErrorKind> {
        self.0.write(frame)
    }

    fn transfer_frame(&mut self, tx: &[u8; 3]) -> Result<[u8; 3], ErrorKind> {
        let mut rx = [0u8; 3];
        self.0.transfer(&mut rx, tx)?;
        Ok(rx)
    }
}

/// A transport that fails every transaction with its own error value.
struct FailingBus;

impl SpiTransport for FailingBus {
    type BusError = u8;

    fn write_frame(&mut self, _frame: &[u8; 3]) -> Result<(), u8> {
        Err(7)
    }

    fn transfer_frame(&mut self, _tx: &[u8; 3]) -> Result<[u8; 3], u8> {
        Err(7)
    }
}

fn write_transaction(frame: [u8; 3]) -> [MockTransaction<u8>; 3] {
    [
        MockTransaction::transaction_start(),
        MockTransaction::write_vec(frame.to_vec()),
        MockTransaction::transaction_end(),
    ]
}

#[test]
fn write_dac_b() {
    // Quad channel: channel B sits at address code 1.
    let trans = write_transaction([0b00000001, 0xF0, 0x0F]);
    let spi = SpiMock::new(&trans);

    let mut dac = Ad57xxShared::new_ad57x4(MockBus(spi));
    dac.set_dac_output(ChannelQuad::DacB, 0xF00F).unwrap();
    dac.destroy().0.done();

    // Dual channel: channel B sits at address code 2.
    let trans = write_transaction([0b00000010, 0xF0, 0x0F]);
    let spi = SpiMock::new(&trans);

    let mut dac = Ad57xxShared::new_ad57x2(MockBus(spi));
    dac.set_dac_output(ChannelDual::DacB, 0xF00F).unwrap();
    dac.destroy().0.done();
}

#[test]
fn read_config() {
    let trans = [
        MockTransaction::transaction_start(),
        MockTransaction::write_vec(vec![0b10011001, 0x00, 0x00]),
        MockTransaction::transaction_end(),
        MockTransaction::transaction_start(),
        MockTransaction::transfer(vec![0b00011000, 0x00, 0x00], vec![0x04, 0x00, 0x00]),
        MockTransaction::transaction_end(),
    ];
    let spi = SpiMock::new(&trans);

    let mut dac = Ad57xxShared::new_ad57x4(MockBus(spi));
    dac.set_readback(true);
    assert_eq!(u8::from(dac.get_config().unwrap()), u8::from(Config::default()));
    dac.destroy().0.done();
}

#[test]
fn encode_rejects_mismatched_data() {
    let r = ad57xx::frame::encode::<ChannelQuad, PowerConfigQuad, u8>(
        Command::DacRegister(ChannelQuad::DacA),
        Data::NoData,
    );
    assert!(matches!(r, Err(Error::InvalidArgument)));
    let r = ad57xx::frame::encode::<ChannelQuad, PowerConfigQuad, u8>(
        Command::RangeSelectRegister(ChannelQuad::DacA),
        Data::DacValue(1),
    );
    assert!(matches!(r, Err(Error::InvalidArgument)));
    let r = ad57xx::frame::encode::<ChannelQuad, PowerConfigQuad, u8>(
        Command::PowerControlRegister,
        Data::NoData,
    );
    assert!(matches!(r, Err(Error::InvalidArgument)));
    let r = ad57xx::frame::encode::<ChannelQuad, PowerConfigQuad, u8>(
        Command::ControlRegister(Function::Config),
        Data::NoData,
    );
    assert!(matches!(r, Err(Error::InvalidArgument)));
    let r = ad57xx::frame::encode::<ChannelQuad, PowerConfigQuad, u8>(
        Command::ControlRegister(Function::Clear),
        Data::Control(Config::default()),
    );
    assert!(matches!(r, Err(Error::InvalidArgument)));
    let r = ad57xx::frame::encode::<ChannelQuad, PowerConfigQuad, u8>(
        Command::ControlRegister(Function::Load),
        Data::OutputRange(OutputRange::Unipolar5V),
    );
    assert!(matches!(r, Err(Error::InvalidArgument)));
}

#[test]
fn mismatched_write_performs_no_transaction() {
    // No expectation is queued: any bus activity would panic, and `done`
    // checks that nothing was consumed.
    let spi = SpiMock::new(&[]);
    let mut dac = Ad57xxShared::new_ad57x2(MockBus(spi));
    let r = dac.write(Command::DacRegister(ChannelDual::DacA), Data::NoData);
    assert!(matches!(r, Err(Error::InvalidArgument)));
    dac.destroy().0.done();
}

#[test]
fn all_dacs_encodes_as_address_four() {
    let r = ad57xx::frame::encode::<ChannelQuad, PowerConfigQuad, u8>(
        Command::DacRegister(ChannelQuad::AllDacs),
        Data::DacValue(0),
    );
    assert_eq!(r.unwrap(), [0b00000100, 0x00, 0x00]);
    let r = ad57xx::frame::encode::<ChannelDual, PowerConfigDual, u8>(
        Command::DacRegister(ChannelDual::AllDacs),
        Data::DacValue(0),
    );
    assert_eq!(r.unwrap(), [0b00000100, 0x00, 0x00]);
    let r = ad57xx::frame::encode::<ChannelDual, PowerConfigDual, u8>(
        Command::RangeSelectRegister(ChannelDual::AllDacs),
        Data::OutputRange(OutputRange::Bipolar5V),
    );
    assert_eq!(r.unwrap(), [0b00001100, 0x00, 0x03]);
}

#[test]
fn clear_dacs_twice_is_idempotent() {
    let mut trans = write_transaction([0b00011100, 0x00, 0x00]).to_vec();
    trans.extend(write_transaction([0b00011100, 0x00, 0x00]));
    let spi = SpiMock::new(&trans);

    let mut dac = Ad57xxShared::new_ad57x4(MockBus(spi));
    dac.clear_dacs().unwrap();
    dac.clear_dacs().unwrap();
    // No state mutation beyond the two writes: both shadows still hold
    // their power-on defaults.
    assert_eq!(u8::from(dac.get_config().unwrap()), u8::from(Config::default()));
    assert_eq!(dac.get_power_config().unwrap().to_raw(), 0);
    dac.destroy().0.done();
}

#[test]
fn load_dacs_frame() {
    let trans = write_transaction([0b00011101, 0x00, 0x00]);
    let spi = SpiMock::new(&trans);

    let mut dac = Ad57xxShared::new_ad57x2(MockBus(spi));
    dac.load_dacs().unwrap();
    dac.destroy().0.done();
}

#[test]
fn set_output_range_frame() {
    let trans = write_transaction([0b00001000, 0x00, 0x01]);
    let spi = SpiMock::new(&trans);

    let mut dac = Ad57xxShared::new_ad57x4(MockBus(spi));
    dac.set_output_range(ChannelQuad::DacA, OutputRange::Unipolar10V).unwrap();
    dac.destroy().0.done();
}

#[test]
fn set_config_frame_and_shadow() {
    let trans = write_transaction([0b00011001, 0x00, 0x0C]);
    let spi = SpiMock::new(&trans);

    let mut dac = Ad57xxShared::new_ad57x4(MockBus(spi));
    let cfg = Config::default().with_tsd_enable(true);
    dac.set_config(cfg).unwrap();
    // Readback disabled: the get is served from the refreshed shadow.
    assert_eq!(u8::from(dac.get_config().unwrap()), 0x0C);
    dac.destroy().0.done();
}

#[test]
fn set_power_all_dacs_quad() {
    let trans = write_transaction([0b00010000, 0x00, 0x0F]);
    let spi = SpiMock::new(&trans);

    let mut dac = Ad57xxShared::new_ad57x4(MockBus(spi));
    dac.set_power(ChannelQuad::AllDacs, true).unwrap();
    let pcfg = dac.get_power_config().unwrap();
    assert!(pcfg.pu_a() && pcfg.pu_b() && pcfg.pu_c() && pcfg.pu_d());
    assert_eq!(pcfg.to_raw(), 0x000F);
    dac.destroy().0.done();
}

#[test]
fn set_power_all_dacs_dual_preserves_reserved_bits() {
    let mut trans = write_transaction([0b00010000, 0x00, 0x10]).to_vec();
    trans.extend(write_transaction([0b00010000, 0x00, 0x15]));
    let spi = SpiMock::new(&trans);

    let mut dac = Ad57xxShared::new_ad57x2(MockBus(spi));
    // Seed the register with a reserved bit (bit 4) set.
    dac.set_power_config(PowerConfigDual::from_raw(0x0010)).unwrap();
    // Powering all DACs touches only the two meaningful bits 0 and 2.
    dac.set_power(ChannelDual::AllDacs, true).unwrap();
    let pcfg = dac.get_power_config().unwrap();
    assert!(pcfg.pu_a() && pcfg.pu_b());
    assert_eq!(pcfg.to_raw(), 0x0015);
    dac.destroy().0.done();
}

#[test]
fn set_power_single_channel_dual() {
    let mut trans = write_transaction([0b00010000, 0x00, 0x04]).to_vec();
    trans.extend(write_transaction([0b00010000, 0x00, 0x00]));
    let spi = SpiMock::new(&trans);

    let mut dac = Ad57xxShared::new_ad57x2(MockBus(spi));
    dac.set_power(ChannelDual::DacB, true).unwrap();
    assert!(dac.get_power_config().unwrap().pu_b());
    dac.set_power(ChannelDual::DacB, false).unwrap();
    assert_eq!(dac.get_power_config().unwrap().to_raw(), 0);
    dac.destroy().0.done();
}

#[test]
fn read_dac_register_round_trip() {
    let trans = [
        MockTransaction::transaction_start(),
        MockTransaction::write_vec(vec![0b10000000, 0x00, 0x00]),
        MockTransaction::transaction_end(),
        MockTransaction::transaction_start(),
        MockTransaction::transfer(vec![0b00011000, 0x00, 0x00], vec![0x34, 0x12, 0x00]),
        MockTransaction::transaction_end(),
    ];
    let spi = SpiMock::new(&trans);

    let mut dac = Ad57xxShared::new_ad57x4(MockBus(spi));
    let data = dac.read(Command::DacRegister(ChannelQuad::DacA)).unwrap();
    assert!(matches!(data, Data::DacValue(0x1234)));
    dac.destroy().0.done();
}

#[test]
fn read_unreadable_control_function_fails() {
    let trans = [
        MockTransaction::transaction_start(),
        MockTransaction::write_vec(vec![0b10011101, 0x00, 0x00]),
        MockTransaction::transaction_end(),
        MockTransaction::transaction_start(),
        MockTransaction::transfer(vec![0b00011000, 0x00, 0x00], vec![0x00, 0x00, 0x00]),
        MockTransaction::transaction_end(),
    ];
    let spi = SpiMock::new(&trans);

    let mut dac = Ad57xxShared::new_ad57x4(MockBus(spi));
    let r = dac.read(Command::ControlRegister(Function::Load));
    assert!(matches!(r, Err(Error::ReadError)));
    dac.destroy().0.done();
}

#[test]
fn get_power_config_readback_refreshes_shadow() {
    let trans = [
        MockTransaction::transaction_start(),
        MockTransaction::write_vec(vec![0b10010000, 0x00, 0x00]),
        MockTransaction::transaction_end(),
        MockTransaction::transaction_start(),
        MockTransaction::transfer(vec![0b00011000, 0x00, 0x00], vec![0x05, 0x00, 0x00]),
        MockTransaction::transaction_end(),
    ];
    let spi = SpiMock::new(&trans);

    let mut dac = Ad57xxShared::new_ad57x2(MockBus(spi));
    dac.set_readback(true);
    let pcfg = dac.get_power_config().unwrap();
    assert!(pcfg.pu_a() && pcfg.pu_b());
    assert_eq!(pcfg.to_raw(), 0x0005);
    // The shadow was refreshed from the device's answer.
    dac.set_readback(false);
    assert_eq!(dac.get_power_config().unwrap().to_raw(), 0x0005);
    dac.destroy().0.done();
}

#[test]
fn transport_error_is_surfaced_and_leaves_shadow_alone() {
    let mut dac = Ad57xxShared::new_ad57x4(FailingBus);
    let r = dac.set_config(Config::default().with_sdo_disable(true));
    assert!(matches!(r, Err(Error::Spi(7))));
    // The failed write did not update the shadow configuration.
    assert_eq!(u8::from(dac.get_config().unwrap()), u8::from(Config::default()));
    let r = dac.set_power(ChannelQuad::DacA, true);
    assert!(matches!(r, Err(Error::Spi(7))));
    assert_eq!(dac.get_power_config().unwrap().to_raw(), 0);
    dac.destroy();
}

#[test]
fn output_range_decodes_from_raw_codes() {
    assert_eq!(OutputRange::from(0u16), OutputRange::Unipolar5V);
    assert_eq!(OutputRange::from(1u16), OutputRange::Unipolar10V);
    assert_eq!(OutputRange::from(2u16), OutputRange::Unipolar10_8V);
    assert_eq!(OutputRange::from(3u16), OutputRange::Bipolar5V);
    assert_eq!(OutputRange::from(4u16), OutputRange::Bipolar10V);
    assert_eq!(OutputRange::from(5u16), OutputRange::Bipolar10_8V);
    assert_eq!(OutputRange::from(6u16), OutputRange::InvalidReadback);
    assert_eq!(OutputRange::from(0xFFFFu16), OutputRange::InvalidReadback);
    // Every named range decodes back from its own code.
    assert_eq!(OutputRange::from(OutputRange::Bipolar10V.code() as u16), OutputRange::Bipolar10V);
}

#[test]
fn config_bit_layout() {
    let cfg = Config::default();
    assert!(cfg.clamp_enable());
    assert!(!cfg.sdo_disable() && !cfg.clr_select() && !cfg.tsd_enable());
    assert_eq!(u8::from(cfg), 0x04);
    assert_eq!(u8::from(cfg.with_sdo_disable(true)), 0x05);
    assert_eq!(u8::from(cfg.with_clr_select(true)), 0x06);
    assert_eq!(u8::from(cfg.with_tsd_enable(true)), 0x0C);
    assert_eq!(u8::from(cfg.with_clamp_enable(false)), 0x00);
    // An arbitrary raw byte, reserved bits included, survives the round trip.
    let cfg = Config::from(0xA5u8);
    assert_eq!(u8::from(cfg), 0xA5);
    assert!(cfg.sdo_disable() && cfg.clamp_enable() && !cfg.clr_select() && !cfg.tsd_enable());
}

#[test]
fn channel_and_function_codes() {
    assert_eq!(u8::from(ChannelQuad::DacA), 0);
    assert_eq!(u8::from(ChannelQuad::DacB), 1);
    assert_eq!(u8::from(ChannelQuad::DacC), 2);
    assert_eq!(u8::from(ChannelQuad::DacD), 3);
    assert_eq!(u8::from(ChannelQuad::AllDacs), 4);
    assert_eq!(u8::from(ChannelDual::DacA), 0);
    assert_eq!(u8::from(ChannelDual::DacB), 2);
    assert_eq!(u8::from(ChannelDual::AllDacs), 4);
    assert_eq!(Function::Nop.code(), 0);
    assert_eq!(Function::Config.code(), 1);
    assert_eq!(Function::Clear.code(), 4);
    assert_eq!(Function::Load.code(), 5);
}

#[test]
fn destroy_returns_the_transport() {
    let spi = SpiMock::new(&[]);
    let dac = Ad57xxShared::new_ad57x2(MockBus(spi));
    let mut bus = dac.destroy();
    bus.0.done();
}

#[test]
fn raw_spi_write_and_read() {
    let mut trans = write_transaction([0x01, 0x02, 0x03]).to_vec();
    trans.extend([
        MockTransaction::transaction_start(),
        MockTransaction::write_vec(vec![0b10000000, 0x00, 0x00]),
        MockTransaction::transaction_end(),
        MockTransaction::transaction_start(),
        MockTransaction::transfer(vec![0b00011000, 0x00, 0x00], vec![0x34, 0x12, 0x00]),
        MockTransaction::transaction_end(),
    ]);
    let spi = SpiMock::new(&trans);

    let mut dac = Ad57xxShared::new_ad57x4(MockBus(spi));
    dac.spi_write(&[0x01, 0x02, 0x03]).unwrap();
    assert_eq!(dac.spi_read(0b10000000).unwrap(), 0x1234);
    dac.destroy().0.done();
}

#[test]
fn read_path_byte_makers() {
    // The response word takes byte 1 as high, byte 0 as low; byte 2 is
    // dropped.
    assert_eq!(ad57xx::frame::response_word(&[0x34, 0x12, 0x00]), 0x1234);
    assert_eq!(ad57xx::frame::response_word(&[0x34, 0x12, 0xFF]), 0x1234);
    assert_eq!(ad57xx::frame::response_word(&[0x00, 0x00, 0x00]), 0x0000);
    // The address field of a command, per topology.
    assert_eq!(ad57xx::frame::addr_code(Command::DacRegister(ChannelQuad::DacB)), 1);
    assert_eq!(ad57xx::frame::addr_code(Command::DacRegister(ChannelDual::DacB)), 2);
    assert_eq!(ad57xx::frame::addr_code::<ChannelQuad>(Command::PowerControlRegister), 0);
    assert_eq!(
        ad57xx::frame::addr_code::<ChannelQuad>(Command::ControlRegister(Function::Load)),
        5
    );
    // The read-phase command byte: read bit, register field, address field.
    assert_eq!(
        ad57xx::frame::read_command::<ChannelQuad>(Command::ControlRegister(Function::Config)),
        0b10011001
    );
    assert_eq!(ad57xx::frame::read_command::<ChannelQuad>(Command::PowerControlRegister), 0b10010000);
    assert_eq!(ad57xx::frame::read_command(Command::DacRegister(ChannelDual::DacB)), 0b10000010);
    // A lone command byte rides in a frame with a zero payload.
    assert_eq!(ad57xx::frame::command_frame(0x18), [0x18, 0x00, 0x00]);
}
