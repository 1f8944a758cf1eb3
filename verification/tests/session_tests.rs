use st7735_async_low::adapters::AdapterU8;
use st7735_async_low::commands::Commands;
use st7735_async_low::spi::{BitsReader, DcU8, ReadBits, ReadModeSetter, WriteU8};
use st7735_async_low::testing_device::{FakeDevice, IoCall};

fn create_slow(latency: usize) -> Commands<AdapterU8<FakeDevice>> {
    Commands::new(AdapterU8::new(FakeDevice::new().with_latency(latency)))
}

fn device(cmds: &Commands<AdapterU8<FakeDevice>>) -> &FakeDevice {
    cmds.get_ref().get_ref()
}

#[test]
fn new_puts_the_bus_in_command_mode() {
    let mut d = FakeDevice::new();
    st7735_async_low::spi::DcxPin::set_dcx_data_mode(&mut d);
    let cmds = Commands::new(AdapterU8::new(d));
    assert!(!device(&cmds).is_data_mode());
    assert_eq!(device(&cmds).calls(), vec![]);
}

#[test]
fn release_of_an_unused_writer_restores_command_mode() {
    let cmds = create_slow(0);
    let rw = cmds.ramwr();
    let cmds = rw.release();
    assert!(!device(&cmds).is_data_mode());
    assert_eq!(device(&cmds).seq(), vec![DcU8::Command(0x2C)]);
}

#[test]
fn release_after_many_bytes_restores_command_mode() {
    let cmds = create_slow(1);
    let mut rw = cmds.rgbset();
    st7735_async_low::spi::write_u8s(&mut rw, &[0xEE; 300]);
    let cmds = rw.release();
    assert!(!device(&cmds).is_data_mode());
    assert_eq!(device(&cmds).seq().len(), 301);
    assert_eq!(device(&cmds).seq()[0], DcU8::Command(0x2D));
    assert_eq!(device(&cmds).seq()[300], DcU8::Data(0xEE));
}

#[test]
fn release_waits_for_a_byte_that_was_left_in_flight() {
    let cmds = create_slow(6);
    let mut rw = cmds.ramwr();
    // Start a byte and never ask about it.
    rw.write_u8(0x5A);
    let cmds = rw.release();
    assert!(!device(&cmds).is_busy());
    assert!(!device(&cmds).is_data_mode());
    assert_eq!(
        device(&cmds).seq(),
        vec![DcU8::Command(0x2C), DcU8::Data(0x5A)]
    );
}

#[test]
fn commands_after_a_session_are_framed_as_commands() {
    let cmds = create_slow(2);
    let mut rw = cmds.ramwr();
    st7735_async_low::spi::write_u16s(&mut rw, &[0xF800]);
    let mut cmds = rw.release();
    cmds.nop();
    cmds.caset(1, 2);
    assert_eq!(
        device(&cmds).seq(),
        vec![
            DcU8::Command(0x2C),
            DcU8::Data(0xF8),
            DcU8::Data(0x00),
            DcU8::Command(0x00),
            DcU8::Command(0x2A),
            DcU8::Data(0x00),
            DcU8::Data(0x01),
            DcU8::Data(0x00),
            DcU8::Data(0x02),
        ]
    );
}

#[test]
fn commands_with_slow_hardware_keep_their_order() {
    let mut cmds = create_slow(5);
    cmds.slpout();
    cmds.scrlar(0x0102, 0x0304, 0x0506);
    cmds.teon(true);
    cmds.dispon();
    assert_eq!(
        device(&cmds).seq(),
        vec![
            DcU8::Command(0x11),
            DcU8::Command(0x33),
            DcU8::Data(0x01),
            DcU8::Data(0x02),
            DcU8::Data(0x03),
            DcU8::Data(0x04),
            DcU8::Data(0x05),
            DcU8::Data(0x06),
            DcU8::Command(0x35),
            DcU8::Data(0x01),
            DcU8::Command(0x29),
        ]
    );
    assert!(!device(&cmds).is_data_mode());
    assert!(!device(&cmds).is_busy());
}

#[test]
fn read_command_leaves_the_bus_turned_for_writing() {
    let input = vec![true, false, true, false, false, true, true, false];
    let mut cmds = Commands::new(AdapterU8::new(
        FakeDevice::new().with_latency(3).with_input(input),
    ));
    assert_eq!(cmds.rdid1(), 0xA6);
    assert!(!device(&cmds).is_reading());
    assert!(!device(&cmds).is_data_mode());
    cmds.nop();
    assert_eq!(
        device(&cmds).seq(),
        vec![DcU8::Command(0xDA), DcU8::Command(0x00)]
    );
}

#[test]
fn reads_follow_one_another_in_the_input() {
    let mut input = vec![false; 8];
    input.extend(vec![true; 8]);
    input.extend([false, false, false, false, false, true, false, true]);
    let mut cmds = Commands::new(AdapterU8::new(FakeDevice::new().with_input(input)));
    assert_eq!(cmds.rdid1(), 0x00);
    assert_eq!(cmds.rdid2(), 0xFF);
    assert_eq!(cmds.rdid3(), 0x05);
    // The input is used up: the line reads low from here on.
    assert_eq!(cmds.rddid(), [0, 0, 0]);
}

#[test]
fn read_of_no_bits_samples_nothing() {
    let mut d = FakeDevice::new().with_input(vec![true, true]);
    d.start_reading();
    assert_eq!(d.read_bits(0), 0);
    assert_eq!(d.calls(), vec![IoCall::StartReading]);
    assert_eq!(d.read_bits(1), 1);
    d.finish_reading();
}

#[test]
fn read_of_thirty_two_bits_fills_the_accumulator() {
    let mut d = FakeDevice::new().with_input(vec![true; 32]);
    d.start_reading();
    assert_eq!(d.read_bits(32), 0xFFFF_FFFF);
    d.finish_reading();

    let mut input = vec![true];
    input.extend(vec![false; 31]);
    let mut d = FakeDevice::new().with_input(input);
    d.start_reading();
    assert_eq!(d.read_bits(32), 0x8000_0000);
    d.finish_reading();
}

#[test]
fn read_bit_takes_the_input_in_order() {
    let mut d = FakeDevice::new().with_input(vec![true, false, true]);
    d.start_reading();
    assert!(d.is_reading());
    assert!(d.read_bit());
    assert!(!d.read_bit());
    assert!(d.read_bit());
    assert!(!d.read_bit());
    d.finish_reading();
    assert!(!d.is_reading());
    assert_eq!(
        d.calls(),
        vec![
            IoCall::StartReading,
            IoCall::ReadBit(true),
            IoCall::ReadBit(false),
            IoCall::ReadBit(true),
            IoCall::ReadBit(false),
            IoCall::FinishReading
        ]
    );
    assert_eq!(d.seq(), vec![]);
}

#[test]
fn into_inner_gives_the_transport_back() {
    let mut cmds = create_slow(0);
    cmds.invon();
    let d = cmds.into_inner().into_inner();
    assert_eq!(d.calls(), vec![IoCall::WriteCommand(0x21)]);
}

#[test]
fn release_of_an_unused_reader_turns_the_bus_back() {
    let d = FakeDevice::new().with_input(vec![true; 4]);
    let reader = BitsReader::start_reading(d);
    let d = reader.release();
    assert!(!d.is_reading());
    assert_eq!(d.calls(), vec![IoCall::StartReading, IoCall::FinishReading]);
}

#[test]
fn release_of_a_used_reader_turns_the_bus_back() {
    let d = FakeDevice::new().with_input(vec![true, true, false, true]);
    let mut reader = BitsReader::start_reading(d);
    assert_eq!(reader.read_bits(3), 0b110);
    assert_eq!(reader.read_bits(1), 0b1);
    assert_eq!(reader.read_bits(0), 0);
    let d = reader.release();
    assert!(!d.is_reading());
    assert!(!d.is_data_mode());
    assert_eq!(d.calls().len(), 6);
    // The transport is free for commands again.
    let mut cmds = Commands::new(AdapterU8::new(d));
    cmds.nop();
    assert_eq!(device(&cmds).seq(), vec![DcU8::Command(0x00)]);
}
