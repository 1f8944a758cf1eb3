use st7735_async_low::spi::{
    BitsReader, Bus, Poll, Read, ReadBits, ReadModeSetter, Wired, WriteBatch, WriteU8, WriteU8s,
};

/// A transport that takes everything and does nothing.
#[derive(Default)]
struct Dummy1 {
    u8s: usize,
    u16s: usize,
}

impl Wired for Dummy1 {
    fn inv(&self) -> bool {
        unreachable!()
    }

    fn bus(&self) -> Bus {
        unreachable!()
    }

    fn patience(&self) -> vstd::prelude::nat {
        unreachable!()
    }

    fn latency(&self) -> vstd::prelude::nat {
        unreachable!()
    }
}

impl WriteU8 for Dummy1 {
    fn write_u8(&mut self, _data: u8) {}

    fn poll_write_u8(&mut self) -> Poll<()> {
        Poll::Ready(())
    }
}

impl WriteU8s for Dummy1 {
    fn batches(&self) -> vstd::prelude::Seq<vstd::prelude::Seq<u8>> {
        unreachable!()
    }

    fn write_u8s(&mut self, data: &[u8]) {
        self.u8s += data.len();
    }
}

impl WriteBatch for Dummy1 {
    fn write_u8_iter(&mut self, items: &[u8]) {
        let mut _sum: u8 = 0;
        for v in items {
            _sum += v;
        }
        self.u8s += items.len();
    }

    fn write_u16_iter(&mut self, items: &[u16]) {
        let mut _sum: u16 = 0;
        for v in items {
            _sum += v;
        }
        self.u16s += items.len();
    }
}

#[derive(Default)]
struct Dummy2 {
    i: u32,
    started: u32,
    finished: u32,
}

impl Wired for Dummy2 {
    fn inv(&self) -> bool {
        unreachable!()
    }

    fn bus(&self) -> Bus {
        unreachable!()
    }

    fn patience(&self) -> vstd::prelude::nat {
        unreachable!()
    }

    fn latency(&self) -> vstd::prelude::nat {
        unreachable!()
    }
}

impl ReadModeSetter for Dummy2 {
    fn start_reading(&mut self) {
        self.started += 1;
    }

    fn finish_reading(&mut self) {
        self.finished += 1;
    }
}

impl ReadBits for Dummy2 {
    fn read_bit(&mut self) -> bool {
        self.i += 1;
        false
    }
}

impl Read for Dummy2 {
    fn read(&mut self, num_bits: usize) -> u32 {
        self.read_bits(num_bits)
    }
}

#[test]
fn write_u8_iter_with_slice() {
    let mut dummy = Dummy1::default();
    let items: [u8; 3] = [0, 1, 2];
    st7735_async_low::spi::write_u8s(&mut dummy, &items);
    assert_eq!(dummy.u8s, 3);
}

#[test]
fn write_u16_iter_with_slice() {
    let mut dummy = Dummy1::default();
    let items: [u16; 3] = [0, 1, 2];
    st7735_async_low::spi::write_u16s(&mut dummy, &items);
    assert_eq!(dummy.u16s, 3);
}

#[test]
fn spi_write_u8() {
    let mut dummy: Dummy1 = Default::default();
    dummy.write_u8(10);
    assert_eq!(dummy.poll_write_u8(), Poll::Ready(()));
}

#[test]
fn write_u8_slice() {
    let mut dummy: Dummy1 = Default::default();
    let items: [u8; 3] = [0, 1, 2];
    dummy.write_u8s(&items);
    assert_eq!(dummy.u8s, 3);
}

#[test]
fn read_bits() {
    let dummy: Dummy2 = Default::default();
    let mut r = BitsReader::start_reading(dummy);
    let v = r.read_bits(12);
    let dummy = r.release();
    assert_eq!(v, 0);
    // Exactly as many read cycles as bits were asked for.
    assert_eq!(dummy.i, 12);
    assert_eq!((dummy.started, dummy.finished), (1, 1));
}

#[test]
fn read_goes_through_read_bits() {
    let mut dummy: Dummy2 = Default::default();
    dummy.start_reading();
    assert_eq!(dummy.read(7), 0);
    dummy.finish_reading();
    assert_eq!(dummy.i, 7);
}
