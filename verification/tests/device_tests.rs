use st7735_async_low::driver::{TrivialWaker, WriteU8Done};
use st7735_async_low::spi::{BitsReader, DcxPin, WriteU8, WriteU8s};
use st7735_async_low::testing_device::{FakeDevice, IoCall};

fn block_on_write<W: WriteU8>(w: &mut W, data: u8) {
    w.write_u8(data);
    let mut done = WriteU8Done::new();
    TrivialWaker::new().block_on(&mut done, w);
}

fn bits_of(src: u32, len: usize) -> Vec<bool> {
    (0..len).rev().map(|i| src >> i & 1 != 0).collect()
}

#[test]
fn write_command() {
    let mut d: FakeDevice = Default::default();
    d.set_dcx_command_mode();
    block_on_write(&mut d, 0x15);
    assert_eq!(d.calls(), vec![IoCall::WriteCommand(0x15)]);
}

#[test]
fn write_data_u8() {
    let mut d: FakeDevice = Default::default();
    d.set_dcx_data_mode();
    block_on_write(&mut d, 0x17);
    assert_eq!(d.calls(), vec![IoCall::WriteData(0x17)]);
}

#[test]
fn write_data_seq() {
    let mut d: FakeDevice = Default::default();
    let data: [u8; 4] = [0x31, 0x51, 0x41, 0x21];
    d.set_dcx_data_mode();
    d.write_u8s(&data);
    let expected: Vec<IoCall> = data.iter().map(|one| IoCall::WriteData(*one)).collect();
    assert_eq!(d.calls(), expected);
}

#[test]
fn read_data() {
    let val_a = 0b10010101101;
    let len_a = 11;
    let val_b = 0b010101111;
    let len_b = 9;
    let mut input = bits_of(val_a, len_a);
    input.extend(bits_of(val_b, len_b));

    let d: FakeDevice = FakeDevice::default().with_input(input.clone());
    let mut r = BitsReader::start_reading(d);
    let a = r.read_bits(len_a);
    let b = r.read_bits(len_b);
    let d = r.release();
    assert_eq!(a, val_a);
    assert_eq!(b, val_b);

    let mut expected = vec![IoCall::StartReading];
    expected.extend(input.into_iter().map(IoCall::ReadBit));
    expected.push(IoCall::FinishReading);
    assert_eq!(d.calls(), expected);
}
