use st7735_async_low::adapters::{AdapterU8, AdapterU8s};
use st7735_async_low::driver::{TrivialWaker, WriteU8Done};
use st7735_async_low::spi::{BitsReader, DcU8, DcxPin, WriteU8, WriteU8s};
use st7735_async_low::testing_device::{FakeDevice, IoCall};

fn create_device() -> AdapterU8<FakeDevice> {
    AdapterU8::new(FakeDevice::new())
}

fn create_batch_device() -> AdapterU8s<FakeDevice> {
    AdapterU8s::new(FakeDevice::new())
}

/// Starts one byte and drives it to completion.
fn block_on_write<W: WriteU8>(w: &mut W, data: u8) {
    w.write_u8(data);
    let mut done = WriteU8Done::new();
    TrivialWaker::new().block_on(&mut done, w);
}

fn bits_of(src: u32, len: usize) -> Vec<bool> {
    (0..len).rev().map(|i| src >> i & 1 != 0).collect()
}

#[test]
fn test_dcx_pin() {
    let mut device = create_device();
    device.set_dcx_command_mode();
    assert!(!device.get_ref().is_data_mode());
    device.set_dcx_data_mode();
    assert!(device.get_ref().is_data_mode());
}

#[test]
fn test_write_u8_command() {
    let mut device = create_device();
    device.set_dcx_command_mode();
    block_on_write(&mut device, 0x35);
    assert_eq!(device.get_ref().calls(), vec![IoCall::WriteCommand(0x35)]);
}

#[test]
fn test_write_u8_data() {
    let mut device = create_device();
    device.set_dcx_data_mode();
    block_on_write(&mut device, 0x37);
    assert_eq!(device.get_ref().calls(), vec![IoCall::WriteData(0x37)]);
}

#[test]
fn test_write_u8_iter() {
    const COMMAND: u8 = 0x21;
    const DATA: &[u8] = &[0x31, 0x41, 0x51];
    let mut device = create_device();
    device.set_dcx_command_mode();
    block_on_write(&mut device, COMMAND);
    device.set_dcx_data_mode();
    st7735_async_low::spi::write_u8s(&mut device, DATA);
    let mut expected = vec![IoCall::WriteCommand(COMMAND)];
    expected.extend(DATA.iter().map(|b| IoCall::WriteData(*b)));
    assert_eq!(device.get_ref().calls(), expected);
}

#[test]
fn test_write_u16_iter() {
    const COMMAND: u8 = 0x22;
    const DATA_U16: &[u16] = &[0x3210, 0x6543, 0x9876]; // Big endian.
    const DATA_U8: &[u8] = &[0x32, 0x10, 0x65, 0x43, 0x98, 0x76];
    let mut device = create_device();
    device.set_dcx_command_mode();
    block_on_write(&mut device, COMMAND);
    device.set_dcx_data_mode();
    st7735_async_low::spi::write_u16s(&mut device, DATA_U16);
    let mut expected = vec![IoCall::WriteCommand(COMMAND)];
    expected.extend(DATA_U8.iter().map(|b| IoCall::WriteData(*b)));
    assert_eq!(device.get_ref().calls(), expected);
}

fn standard_write_command(command: u8, data: &[u8]) -> Vec<IoCall> {
    let mut expected = vec![IoCall::WriteCommand(command)];
    expected.extend(data.iter().map(|b| IoCall::WriteData(*b)));
    expected
}

#[test]
fn test_write_u8_iter_with_standard_command_expectation() {
    const COMMAND: u8 = 0x21;
    const DATA: &[u8] = &[0x31, 0x41, 0x51];
    let mut device = create_device();
    let expected = standard_write_command(COMMAND, DATA);
    device.set_dcx_command_mode();
    block_on_write(&mut device, COMMAND);
    device.set_dcx_data_mode();
    st7735_async_low::spi::write_u8s(&mut device, DATA);
    assert_eq!(device.get_ref().calls(), expected);
}

#[test]
fn test_fake() {
    let mut device = create_device();
    device.set_dcx_command_mode();
    block_on_write(&mut device, 0x12);
    device.set_dcx_data_mode();
    st7735_async_low::spi::write_u8s(&mut device, &[0x34]);
    device.set_dcx_command_mode();
    block_on_write(&mut device, 0x56);
    device.set_dcx_data_mode();
    st7735_async_low::spi::write_u16s(&mut device, &[0x789A]);
    assert_eq!(
        device.get_ref().seq(),
        vec![
            DcU8::Command(0x12),
            DcU8::Data(0x34),
            DcU8::Command(0x56),
            DcU8::Data(0x78),
            DcU8::Data(0x9A)
        ]
    );
}

#[test]
fn write_u8_as_is() {
    let mut a = create_device();
    a.set_dcx_command_mode();
    block_on_write(&mut a, 0x34);
    assert_eq!(a.get_ref().calls(), vec![IoCall::WriteCommand(0x34)]);
}

#[test]
fn write_u8s() {
    let mut a = create_device();
    a.set_dcx_data_mode();
    WriteU8s::write_u8s(&mut a, &[0x34, 0x56, 0x12]);
    assert_eq!(
        a.get_ref().calls(),
        vec![
            IoCall::WriteData(0x34),
            IoCall::WriteData(0x56),
            IoCall::WriteData(0x12)
        ]
    );
    // The adapter goes byte by byte: the device saw no batch.
    assert_eq!(a.get_ref().batches(), 0);
}

#[test]
fn adapters_read_as_is() {
    let src: u32 = 0b111010;
    let src_len: usize = 6;

    let a = AdapterU8::new(FakeDevice::new().with_input(bits_of(src, src_len)));
    let mut reader = BitsReader::start_reading(a);
    let value = reader.read_bits(src_len);
    let a = reader.release();
    assert_eq!(value, src);

    let mut expected = vec![IoCall::StartReading];
    expected.extend(bits_of(src, src_len).into_iter().map(IoCall::ReadBit));
    expected.push(IoCall::FinishReading);
    assert_eq!(a.get_ref().calls(), expected);
}

#[test]
fn write_u8s_as_is() {
    let mut a = create_batch_device();
    a.write_u8s(&[0x35, 0x46, 0x12, 0xFF]);
    assert_eq!(a.get_ref().batches(), 1);
    assert_eq!(a.get_ref().batch(0), &vec![0x35, 0x46, 0x12, 0xFF]);
    assert_eq!(
        a.get_ref().calls(),
        vec![
            IoCall::WriteCommand(0x35),
            IoCall::WriteCommand(0x46),
            IoCall::WriteCommand(0x12),
            IoCall::WriteCommand(0xFF)
        ]
    );
}

#[test]
fn adapters_write_u8() {
    let mut a = create_batch_device();
    block_on_write(&mut a, 0x37);
    assert_eq!(a.get_ref().batches(), 1);
    assert_eq!(a.get_ref().batch(0), &vec![0x37]);
    assert_eq!(a.get_ref().calls(), vec![IoCall::WriteCommand(0x37)]);
}

#[test]
fn dcx_modes() {
    let mut a = create_device();
    a.set_dcx_data_mode();
    block_on_write(&mut a, 9);
    a.set_dcx_command_mode();
    block_on_write(&mut a, 8);
    a.set_dcx_data_mode();
    block_on_write(&mut a, 7);
    a.set_dcx_command_mode();
    block_on_write(&mut a, 6);
    assert_eq!(
        a.get_ref().calls(),
        vec![
            IoCall::WriteData(9),
            IoCall::WriteCommand(8),
            IoCall::WriteData(7),
            IoCall::WriteCommand(6)
        ]
    );
}
